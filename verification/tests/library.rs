use myyy::history::{ConversationHistory, ConversationItem};
use myyy::model::{FakeModel, ModelOutput};
use myyy::protocol::{app_step, AppCommand, AppStep, TuiEvent, UserInput, UserMessage};
use myyy::session::{collect_text, RegularTask, Session, TaskAction, TaskPhase, TurnContext};
use myyy::text::contains_text;
use myyy::tools::{
    ApprovalDecision, ApprovalPolicy, ExecCommandArgs, ExecCommandHandler, RegisteredTool,
    ToolCall, ToolRegistry, ToolRouter, ToolStep,
};

fn text_input(s: &str) -> Vec<UserInput> {
    UserMessage::from(s.to_string()).into_user_inputs()
}

fn args(cmd: &str) -> ExecCommandArgs {
    ExecCommandArgs { cmd: cmd.to_string() }
}

#[test]
fn user_message_becomes_one_text_input() {
    let items = UserMessage::from("你好".to_string()).into_user_inputs();
    assert_eq!(items.len(), 1);
    assert!(matches!(&items[0], UserInput::Text { text } if text == "你好"));
}

#[test]
fn user_turn_carries_its_items() {
    let cmd = AppCommand::user_turn(text_input("abc"));
    let AppCommand::UserTurn { items } = cmd;
    assert!(matches!(&items[0], UserInput::Text { text } if text == "abc"));
    let ev = TuiEvent::Submitted("x".to_string());
    assert!(matches!(ev, TuiEvent::Submitted(t) if t == "x"));
}

#[test]
fn collect_text_joins_with_line_feeds() {
    let input = vec![
        UserInput::Text { text: "a".to_string() },
        UserInput::Text { text: "bc".to_string() },
        UserInput::Text { text: "".to_string() },
    ];
    assert_eq!(collect_text(input), "a\nbc\n");
    assert_eq!(collect_text(Vec::new()), "");
    assert_eq!(collect_text(text_input("only one")), "only one");
}

#[test]
fn history_push_items_len() {
    let mut h = ConversationHistory::new();
    assert_eq!(h.len(), 0);
    assert!(h.items().is_empty());
    h.push(ConversationItem::UserMessage { text: "u".to_string() });
    h.push(ConversationItem::AssistantMessage { text: "a".to_string() });
    assert_eq!(h.len(), 2);
    assert!(matches!(&h.items()[0], ConversationItem::UserMessage { text } if text == "u"));
    assert!(matches!(&h.items()[1], ConversationItem::AssistantMessage { text } if text == "a"));
}

fn reply_to(items: Vec<ConversationItem>) -> ModelOutput {
    FakeModel::new().respond(&items)
}

fn assistant_text(out: ModelOutput) -> String {
    match out {
        ModelOutput::AssistantMessage { text } => text,
        other => panic!("expected a message, got {:?}", other),
    }
}

#[test]
fn model_answers_empty_history() {
    assert_eq!(assistant_text(reply_to(Vec::new())), "当前没有可处理的消息");
}

#[test]
fn model_asks_for_pwd() {
    let out = reply_to(vec![ConversationItem::UserMessage { text: "请执行 pwd".to_string() }]);
    match out {
        ModelOutput::ToolCall { name, arguments } => {
            assert_eq!(name, "exec_command");
            assert_eq!(arguments, r#"{"cmd":"pwd"}"#);
        }
        other => panic!("unexpected {:?}", other),
    }
}

#[test]
fn model_prefers_pwd_over_ls() {
    let out = reply_to(vec![ConversationItem::UserMessage { text: "ls then pwd".to_string() }]);
    assert!(matches!(out, ModelOutput::ToolCall { arguments, .. } if arguments == r#"{"cmd":"pwd"}"#));
}

#[test]
fn model_asks_for_ls() {
    let out = reply_to(vec![ConversationItem::UserMessage { text: "please ls".to_string() }]);
    assert!(matches!(out, ModelOutput::ToolCall { name, arguments } if name == "exec_command" && arguments == r#"{"cmd":"ls"}"#));
}

#[test]
fn model_echoes_plain_message() {
    let out = reply_to(vec![ConversationItem::UserMessage { text: "你好".to_string() }]);
    assert_eq!(assistant_text(out), "我收到了你的消息：：你好");
}

#[test]
fn model_reads_tool_results() {
    let ok = reply_to(vec![ConversationItem::ToolResult {
        name: "exec_command".to_string(),
        output: "/home".to_string(),
        success: true,
    }]);
    assert_eq!(assistant_text(ok), "工具exec_command 执行成功 结果是/home");
    let bad = reply_to(vec![ConversationItem::ToolResult {
        name: "exec_command".to_string(),
        output: "no".to_string(),
        success: false,
    }]);
    assert_eq!(assistant_text(bad), "工具exec_command执行失败，原因是no");
}

#[test]
fn model_answers_pending_call_and_repeats_itself() {
    let pending = reply_to(vec![ConversationItem::ToolCall {
        name: "t".to_string(),
        arguments: "{}".to_string(),
    }]);
    assert_eq!(assistant_text(pending), "工具t尚未返回结果， 参数是{}");
    let again = reply_to(vec![ConversationItem::AssistantMessage { text: "same".to_string() }]);
    assert_eq!(assistant_text(again), "same");
}

#[test]
fn model_looks_at_last_entry_only() {
    let out = reply_to(vec![
        ConversationItem::UserMessage { text: "pwd".to_string() },
        ConversationItem::AssistantMessage { text: "done".to_string() },
    ]);
    assert_eq!(assistant_text(out), "done");
}

#[test]
fn contains_finds_substrings() {
    assert!(contains_text("abcpwd", "pwd"));
    assert!(contains_text("anything", ""));
    assert!(!contains_text("pw", "pwd"));
    assert!(!contains_text("pwxd", "pwd"));
}

#[test]
fn approval_allows_only_pwd() {
    let policy = ApprovalPolicy;
    assert!(matches!(policy.review(&args("pwd")), ApprovalDecision::Approved));
    match policy.review(&args("ls")) {
        ApprovalDecision::Denied(reason) => assert_eq!(reason, "本阶段只允许pwd， 拒绝命令：ls"),
        _ => panic!("ls must be denied"),
    }
    assert!(matches!(policy.review(&args("pwd ")), ApprovalDecision::Denied(_)));
}

const SIMULATED: &str = "模拟结果：/fake/project（没有执行真实 pwd）";

#[test]
fn handler_execute_outcomes() {
    let h = ExecCommandHandler::new();
    assert_eq!(h.tool_name(), "exec_command");
    assert_eq!(
        h.execute(Err("expected value at line 1 column 1".to_string())).unwrap_err(),
        "工具参数不是合法json:expected value at line 1 column 1"
    );
    assert_eq!(h.execute(Ok(args("ls"))).unwrap_err(), "本阶段只允许pwd， 拒绝命令：ls");
    assert_eq!(h.execute(Ok(args("pwd"))).unwrap().output, SIMULATED);
}

#[test]
fn router_routes_by_name() {
    let router = ToolRouter::new();
    let call = ToolRouter::build_tool_call("exec_command".to_string(), "{}".to_string());
    assert_eq!(call.name, "exec_command");
    match router.dispatch(call) {
        ToolStep::ParseExecArgs { arguments, .. } => assert_eq!(arguments, "{}"),
        other => panic!("unexpected {:?}", other),
    }
    let unknown = ToolCall { name: "web".to_string(), arguments: "{}".to_string() };
    match router.dispatch(unknown) {
        ToolStep::Finished(Err(e)) => assert_eq!(e, "未注册工具：web"),
        other => panic!("unexpected {:?}", other),
    }
}

#[test]
fn registry_starts_empty_and_finds_registered() {
    let mut reg = ToolRegistry::new();
    assert!(reg.lookup(&"exec_command".to_string()).is_none());
    reg.register(RegisteredTool::ExecCommand(ExecCommandHandler::new()));
    assert!(reg.lookup(&"exec_command".to_string()).is_some());
    assert!(reg.lookup(&"exec".to_string()).is_none());
}

fn history_texts(s: &Session) -> Vec<String> {
    s.history
        .items()
        .iter()
        .map(|item| match item {
            ConversationItem::UserMessage { text } => format!("U:{text}"),
            ConversationItem::AssistantMessage { text } => format!("A:{text}"),
            ConversationItem::ToolCall { name, arguments } => format!("C:{name}:{arguments}"),
            ConversationItem::ToolResult { name, output, success } => {
                format!("R:{name}:{output}:{success}")
            }
        })
        .collect()
}

#[test]
fn new_session_is_empty() {
    let s = Session::new();
    assert_eq!(s.session_id, 1);
    assert_eq!(s.next_turn_id, 0);
    assert_eq!(s.history.len(), 0);
}

#[test]
fn plain_turn_ends_with_echo() {
    let mut s = Session::new();
    let (ctx, task, action) = s.start_turn(text_input("你好"));
    assert_eq!(ctx.turn_id, 1);
    assert!(matches!(task.phase, TaskPhase::Finished));
    assert!(matches!(action, TaskAction::Done { reply } if reply == "我收到了你的消息：：你好"));
    assert_eq!(history_texts(&s), vec!["U:你好", "A:我收到了你的消息：：你好"]);
}

#[test]
fn pwd_turn_reports_the_simulated_result() {
    let mut s = Session::new();
    let (ctx, mut task, action) = s.start_turn(text_input("请执行 pwd"));
    let arguments = match action {
        TaskAction::ParseArguments { arguments } => arguments,
        other => panic!("unexpected {:?}", other),
    };
    assert_eq!(arguments, r#"{"cmd":"pwd"}"#);
    let action = task.resume_with_arguments(&mut s, &ctx, Ok(args("pwd")));
    let expected = format!("工具exec_command 执行成功 结果是{SIMULATED}");
    assert!(matches!(&action, TaskAction::Done { reply } if *reply == expected));
    assert!(matches!(task.phase, TaskPhase::Finished));
    assert_eq!(
        history_texts(&s),
        vec![
            "U:请执行 pwd".to_string(),
            r#"C:exec_command:{"cmd":"pwd"}"#.to_string(),
            format!("R:exec_command:{SIMULATED}:true"),
            format!("A:{expected}"),
        ]
    );
}

#[test]
fn ls_turn_is_denied() {
    let mut s = Session::new();
    let (ctx, mut task, action) = s.start_turn(text_input("ls"));
    assert!(matches!(action, TaskAction::ParseArguments { .. }));
    let action = task.resume_with_arguments(&mut s, &ctx, Ok(args("ls")));
    assert!(matches!(action, TaskAction::Done { reply }
        if reply == "工具exec_command执行失败，原因是本阶段只允许pwd， 拒绝命令：ls"));
    assert_eq!(s.history.len(), 4);
    assert!(matches!(task.phase, TaskPhase::Finished));
}

#[test]
fn unparsable_arguments_fail_the_call() {
    let mut s = Session::new();
    let (ctx, mut task, _action) = s.start_turn(text_input("pwd"));
    let action = task.resume_with_arguments(&mut s, &ctx, Err("EOF while parsing".to_string()));
    assert!(matches!(action, TaskAction::Done { reply }
        if reply == "工具exec_command执行失败，原因是工具参数不是合法json:EOF while parsing"));
}

#[test]
fn empty_registry_refuses_calls() {
    let reg = ToolRegistry::new();
    let call = ToolCall { name: "exec_command".to_string(), arguments: "{}".to_string() };
    match reg.dispatch(call) {
        ToolStep::Finished(Err(e)) => assert_eq!(e, "未注册工具：exec_command"),
        other => panic!("unexpected {:?}", other),
    }
}

#[test]
fn run_on_a_fresh_task_records_the_user_text_first() {
    let mut s = Session::new();
    let ctx = TurnContext { turn_id: 7, tool_router: ToolRouter::new() };
    let mut task = RegularTask::new();
    assert!(matches!(task.phase, TaskPhase::Ready));
    let action = task.run(&mut s, &ctx, vec![
        UserInput::Text { text: "a".to_string() },
        UserInput::Text { text: "b".to_string() },
    ]);
    assert!(matches!(action, TaskAction::Done { reply } if reply == "我收到了你的消息：：a\nb"));
    assert_eq!(history_texts(&s), vec!["U:a\nb", "A:我收到了你的消息：：a\nb"]);
    assert_eq!(s.next_turn_id, 0);
}

#[test]
fn turn_ids_increase() {
    let mut s = Session::new();
    let (a, _, _) = s.start_turn(text_input("1"));
    let (b, _, _) = s.start_turn(text_input("2"));
    assert_eq!(a.turn_id, 1);
    assert_eq!(b.turn_id, 2);
    assert_eq!(s.next_turn_id, 2);
    assert_eq!(s.history.len(), 4);
}

#[test]
fn every_tool_call_is_answered_across_turns() {
    let mut s = Session::new();
    let (_c, _t, _a) = s.start_turn(text_input("hello"));
    let (ctx, mut task, _a) = s.start_turn(text_input("ls -la"));
    let _ = task.resume_with_arguments(&mut s, &ctx, Ok(args("ls -la")));
    let items = s.history.items();
    assert_eq!(items.len(), 6);
    for (i, item) in items.iter().enumerate() {
        if let ConversationItem::ToolCall { name, .. } = item {
            assert!(matches!(&items[i + 1], ConversationItem::ToolResult { name: n, success: false, .. } if n == name));
        }
    }
}

#[test]
fn quit_line_ends_the_program() {
    assert!(matches!(app_step(TuiEvent::Submitted("/quit".to_string())), AppStep::Quit));
}

#[test]
fn other_lines_become_turns() {
    for line in ["/quit ", "quit", "", "请执行 pwd"] {
        match app_step(TuiEvent::Submitted(line.to_string())) {
            AppStep::Submit(AppCommand::UserTurn { items }) => {
                assert_eq!(items.len(), 1);
                assert!(matches!(&items[0], UserInput::Text { text } if text == line));
            }
            other => panic!("unexpected {:?}", other),
        }
    }
}

#[test]
fn pushes_keep_order() {
    let mut h = ConversationHistory::new();
    for i in 0..5 {
        h.push(ConversationItem::UserMessage { text: i.to_string() });
    }
    let texts: Vec<String> = h
        .items()
        .iter()
        .map(|item| match item {
            ConversationItem::UserMessage { text } => text.clone(),
            _ => panic!("only user messages were pushed"),
        })
        .collect();
    assert_eq!(texts, vec!["0", "1", "2", "3", "4"]);
}

#[test]
fn several_turns_record_each_user_text_in_order() {
    let mut s = Session::new();
    let lines = ["hello", "请执行 pwd", "ls", "bye"];
    for line in lines {
        let (ctx, mut task, mut action) = s.start_turn(text_input(line));
        loop {
            action = match action {
                TaskAction::ParseArguments { .. } => {
                    let cmd = if line.contains("pwd") { "pwd" } else { "ls" };
                    task.resume_with_arguments(&mut s, &ctx, Ok(args(cmd)))
                }
                TaskAction::Done { .. } => break,
            };
        }
    }
    assert_eq!(s.session_id, 1);
    assert_eq!(s.next_turn_id, 4);
    let items = s.history.items();
    let users: Vec<&str> = items
        .iter()
        .filter_map(|item| match item {
            ConversationItem::UserMessage { text } => Some(text.as_str()),
            _ => None,
        })
        .collect();
    assert_eq!(users, lines.to_vec());
    assert!(matches!(items.last(), Some(ConversationItem::AssistantMessage { .. })));
    assert_eq!(items.len(), 2 + 4 + 4 + 2);
}
