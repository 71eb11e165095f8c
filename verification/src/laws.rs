//! Properties of the library that span several functions.

use vstd::prelude::*;
use crate::history::ItemView;
use crate::model::{model_reply, tool_result_reply, ModelOutputView};
use crate::protocol::{UserInput, input_texts};
use crate::session::{
    ask_model,
    TurnProgress,
    after_result,
    on_arguments,
    result_item,
    turn_start,
};
use crate::text::{join_lines, seq_contains};
use crate::tools::{ToolStepView, dispatch_step};
use crate::tools::{ExecCommandArgs, approved_command, exec_result, simulated_output};

verus! {

/// Every tool call in `h` is directly followed by the result of that tool.
pub open spec fn calls_answered(h: Seq<ItemView>) -> bool {
    forall|i: int|
        0 <= i < h.len() && (#[trigger] h[i]) is ToolCall ==> {
            &&& i + 1 < h.len()
            &&& h[i + 1] is ToolResult
            &&& h[i + 1]->ToolResult_name == h[i]->ToolCall_name
        }
}

/// `h` ends with a call of `tool` that waits for its result, and every call
/// before it is answered.
pub open spec fn call_pending(h: Seq<ItemView>, tool: Seq<char>) -> bool {
    &&& h.len() > 0
    &&& h.last() is ToolCall
    &&& h.last()->ToolCall_name == tool
    &&& calls_answered(h.drop_last())
}

/// The history that a turn has reached.
pub open spec fn progress_history(p: TurnProgress) -> Seq<ItemView> {
    match p {
        TurnProgress::Done { history, .. } => history,
        TurnProgress::AwaitingArguments { history, .. } => history,
    }
}

/// The user's input comes back whole from a single message: the text that a
/// turn records for `UserMessage { text }.into_user_inputs()` is `text`.
pub proof fn law_single_message_text(text: String)
    ensures
        join_lines(input_texts(seq![UserInput::Text { text }])) == text@,
{
    assert(input_texts(seq![UserInput::Text { text }]) =~= seq![text@]);
}

/// A line that the user submits reaches the history unchanged: a turn begun on
/// the inputs of `UserMessage { text }` records the user message `text` right
/// after the history it started from.
pub proof fn law_submitted_text_is_recorded(
    names: Seq<Seq<char>>,
    history: Seq<ItemView>,
    text: String,
)
    ensures
        progress_history(turn_start(names, history, seq![UserInput::Text { text }]))[history.len() as int]
            == (ItemView::UserMessage { text: text@ }),
{
    law_single_message_text(text);
    law_turn_keeps_history(names, history, seq![UserInput::Text { text }]);
    let p = progress_history(turn_start(names, history, seq![UserInput::Text { text }]));
    assert(p.subrange(0, history.len() + 1int)[history.len() as int] == p[history.len() as int]);
}

/// Asked with a history that ends in a tool result, the model answers with a
/// message, which closes the turn.
proof fn lemma_ask_after_result(names: Seq<Seq<char>>, h: Seq<ItemView>)
    requires
        h.len() > 0,
        h.last() is ToolResult,
    ensures
        model_reply(h) is AssistantMessage,
        ask_model(names, h) == (TurnProgress::Done {
            history: h.push(ItemView::AssistantMessage { text: model_reply(h)->AssistantMessage_text }),
            reply: model_reply(h)->AssistantMessage_text,
        }),
{
}

/// Once a tool's result is recorded, the model answers with a message, and that
/// message is its reading of the result: a turn makes at most one tool call.
pub proof fn law_result_closes_turn(
    names: Seq<Seq<char>>,
    history: Seq<ItemView>,
    tool: Seq<char>,
    outcome: Result<Seq<char>, Seq<char>>,
)
    ensures
        model_reply(history.push(result_item(tool, outcome))) is AssistantMessage,
        after_result(names, history, tool, outcome) matches TurnProgress::Done { history: h, reply } && {
            &&& h == history.push(result_item(tool, outcome)).push(
                ItemView::AssistantMessage { text: reply },
            )
            &&& reply == match outcome {
                Ok(output) => tool_result_reply(tool, output, true),
                Err(error) => tool_result_reply(tool, error, false),
            }
        },
{
    let h = history.push(result_item(tool, outcome));
    assert(h.last() == result_item(tool, outcome));
    lemma_ask_after_result(names, h);
}

/// A turn keeps the history it started from and records the user's text next.
pub proof fn law_turn_keeps_history(
    names: Seq<Seq<char>>,
    history: Seq<ItemView>,
    input: Seq<UserInput>,
)
    ensures
        progress_history(turn_start(names, history, input)).len() > history.len(),
        progress_history(turn_start(names, history, input)).subrange(0, history.len() + 1int)
            == history.push(ItemView::UserMessage { text: join_lines(input_texts(input)) }),
{
    let h1 = history.push(ItemView::UserMessage { text: join_lines(input_texts(input)) });
    if let ModelOutputView::ToolCall { name, arguments } = model_reply(h1) {
        let h2 = h1.push(ItemView::ToolCall { name, arguments });
        if !names.contains(name) {
            let h3 = h2.push(result_item(name, Err(crate::tools::unregistered_message(name))));
            lemma_ask_after_result(names, h3);
            assert(h3.push(ItemView::AssistantMessage { text: model_reply(h3)->AssistantMessage_text }).subrange(0, history.len() + 1int) =~= h1);
        } else {
            assert(h2.subrange(0, history.len() + 1int) =~= h1);
        }
    } else {
        assert(h1.push(ItemView::AssistantMessage { text: model_reply(h1)->AssistantMessage_text }).subrange(0, history.len() + 1int) =~= h1);
    }
}

/// Only the approved command succeeds, and with the simulated output: read
/// arguments succeed exactly when the command is `pwd`, and no process runs.
pub proof fn law_only_approved_command_succeeds(args: ExecCommandArgs)
    ensures
        exec_result(Ok(args)) is Ok <==> args.cmd@ == approved_command(),
        exec_result(Ok(args)) is Ok ==> exec_result(Ok(args)) == Ok::<Seq<char>, Seq<char>>(
            simulated_output(),
        ),
{
}

proof fn lemma_push_non_call(h: Seq<ItemView>, e: ItemView)
    requires
        calls_answered(h),
        !(e is ToolCall),
        h.len() > 0 ==> !(h.last() is ToolCall),
    ensures
        calls_answered(h.push(e)),
        !(h.push(e).last() is ToolCall),
{
    let g = h.push(e);
    assert forall|i: int| 0 <= i < g.len() && (#[trigger] g[i]) is ToolCall implies {
        &&& i + 1 < g.len()
        &&& g[i + 1] is ToolResult
        &&& g[i + 1]->ToolResult_name == g[i]->ToolCall_name
    } by {
        assert(i < h.len());
        assert(h[i] == g[i]);
    }
}

proof fn lemma_push_call(h: Seq<ItemView>, name: Seq<char>, arguments: Seq<char>)
    requires
        calls_answered(h),
        h.len() > 0 ==> !(h.last() is ToolCall),
    ensures
        call_pending(h.push(ItemView::ToolCall { name, arguments }), name),
{
    assert(h.push(ItemView::ToolCall { name, arguments }).drop_last() =~= h);
}

proof fn lemma_answer_call(h: Seq<ItemView>, tool: Seq<char>, outcome: Result<Seq<char>, Seq<char>>)
    requires
        call_pending(h, tool),
    ensures
        calls_answered(h.push(result_item(tool, outcome))),
        !(h.push(result_item(tool, outcome)).last() is ToolCall),
{
    let g = h.push(result_item(tool, outcome));
    let d = h.drop_last();
    assert forall|i: int| 0 <= i < g.len() && (#[trigger] g[i]) is ToolCall implies {
        &&& i + 1 < g.len()
        &&& g[i + 1] is ToolResult
        &&& g[i + 1]->ToolResult_name == g[i]->ToolCall_name
    } by {
        if i < d.len() {
            assert(d[i] == g[i]);
            assert(d[i + 1] == g[i + 1]);
        }
    }
}

/// Turns keep the conversation in order: started on a history in which every
/// tool call is answered, a turn either ends with every call answered, or
/// waits on exactly one pending call, the last entry.
pub proof fn law_turn_start_keeps_calls_answered(
    names: Seq<Seq<char>>,
    history: Seq<ItemView>,
    input: Seq<UserInput>,
)
    requires
        calls_answered(history),
    ensures
        match turn_start(names, history, input) {
            TurnProgress::Done { history: h, .. } => calls_answered(h),
            TurnProgress::AwaitingArguments { history: h, tool, .. } => call_pending(h, tool),
        },
{
    if history.len() > 0 && history.last() is ToolCall {
        assert(history[history.len() - 1] is ToolCall);
    }
    let h1 = history.push(ItemView::UserMessage { text: join_lines(input_texts(input)) });
    lemma_push_non_call(history, ItemView::UserMessage { text: join_lines(input_texts(input)) });
    match model_reply(h1) {
        ModelOutputView::AssistantMessage { text } => {
            lemma_push_non_call(h1, ItemView::AssistantMessage { text });
        },
        ModelOutputView::ToolCall { name, arguments } => {
            let h2 = h1.push(ItemView::ToolCall { name, arguments });
            lemma_push_call(h1, name, arguments);
            if !names.contains(name) {
                let outcome = Err(crate::tools::unregistered_message(name));
                lemma_answer_call(h2, name, outcome);
                let h3 = h2.push(result_item(name, outcome));
                lemma_ask_after_result(names, h3);
                lemma_push_non_call(h3, ItemView::AssistantMessage {
                    text: model_reply(h3)->AssistantMessage_text,
                });
            }
        },
    }
}

/// The outcome of reading a pending call's arguments answers the call and
/// closes the turn with every call answered.
pub proof fn law_arguments_answer_call(
    names: Seq<Seq<char>>,
    history: Seq<ItemView>,
    tool: Seq<char>,
    parsed: Result<ExecCommandArgs, String>,
)
    requires
        call_pending(history, tool),
    ensures
        on_arguments(names, history, tool, parsed) matches TurnProgress::Done { history: h, .. }
            && calls_answered(h),
{
    let r = exec_result(parsed);
    lemma_answer_call(history, tool, r);
    let h3 = history.push(result_item(tool, r));
    lemma_ask_after_result(names, h3);
    lemma_push_non_call(h3, ItemView::AssistantMessage {
        text: model_reply(h3)->AssistantMessage_text,
    });
}

/// The history after pushing `items` in order onto `history`.
pub open spec fn push_all(history: Seq<ItemView>, items: Seq<ItemView>) -> Seq<ItemView>
    decreases items.len(),
{
    if items.len() == 0 {
        history
    } else {
        push_all(history, items.drop_last()).push(items.last())
    }
}

/// Pushing `a1, …, an` one at a time onto an empty history view, each step
/// appending as the `ensures` of `ConversationHistory::push` states, gives
/// exactly `a1, …, an`, in that order.
pub proof fn law_pushes_keep_order(items: Seq<ItemView>)
    ensures
        push_all(Seq::empty(), items) == items,
    decreases items.len(),
{
    if items.len() > 0 {
        law_pushes_keep_order(items.drop_last());
        assert(items.drop_last().push(items.last()) =~= items);
    }
}

/// The texts of the user messages in `h`, in order.
pub open spec fn user_texts(h: Seq<ItemView>) -> Seq<Seq<char>>
    decreases h.len(),
{
    if h.len() == 0 {
        Seq::empty()
    } else if h.last() is UserMessage {
        user_texts(h.drop_last()).push(h.last()->UserMessage_text)
    } else {
        user_texts(h.drop_last())
    }
}

/// A turn that got `parsed` as the outcome of reading its tool arguments,
/// where it asked for that.
pub open spec fn finish_turn(
    names: Seq<Seq<char>>,
    progress: TurnProgress,
    parsed: Result<ExecCommandArgs, String>,
) -> TurnProgress {
    match progress {
        TurnProgress::AwaitingArguments { history, tool, .. } => on_arguments(
            names,
            history,
            tool,
            parsed,
        ),
        TurnProgress::Done { .. } => progress,
    }
}

/// What a session holds: its id, the count of its turns, its history.
pub struct SessionModel {
    pub session_id: int,
    pub next_turn_id: int,
    pub history: Seq<ItemView>,
}

/// A session after `Session::new` and one completed turn per entry of
/// `inputs`, with the outcome of reading arguments that each turn got.
pub open spec fn after_turns(
    names: Seq<Seq<char>>,
    inputs: Seq<Seq<UserInput>>,
    parsed: Seq<Result<ExecCommandArgs, String>>,
) -> SessionModel
    decreases inputs.len(),
{
    if inputs.len() == 0 {
        SessionModel { session_id: 1, next_turn_id: 0, history: Seq::empty() }
    } else {
        let s = after_turns(names, inputs.drop_last(), parsed.drop_last());
        SessionModel {
            session_id: s.session_id,
            next_turn_id: s.next_turn_id + 1,
            history: progress_history(
                finish_turn(
                    names,
                    turn_start(names, s.history, inputs.last()),
                    parsed.last(),
                ),
            ),
        }
    }
}

proof fn lemma_user_texts_push(h: Seq<ItemView>, e: ItemView)
    ensures
        user_texts(h.push(e)) == if e is UserMessage {
            user_texts(h).push(e->UserMessage_text)
        } else {
            user_texts(h)
        },
{
    assert(h.push(e).drop_last() =~= h);
}

/// One completed turn appends the user's message, then either the model's
/// message, or a tool call, its result and the model's message.
proof fn lemma_turn_shape(
    names: Seq<Seq<char>>,
    history: Seq<ItemView>,
    input: Seq<UserInput>,
    parsed: Result<ExecCommandArgs, String>,
)
    requires
        calls_answered(history),
    ensures
        finish_turn(names, turn_start(names, history, input), parsed) is Done,
        ({
            let h = progress_history(finish_turn(names, turn_start(names, history, input), parsed));
            &&& calls_answered(h)
            &&& h.len() > 0
            &&& h.last() is AssistantMessage
            &&& user_texts(h) == user_texts(history).push(join_lines(input_texts(input)))
        }),
{
    let text = join_lines(input_texts(input));
    let h1 = history.push(ItemView::UserMessage { text });
    law_turn_start_keeps_calls_answered(names, history, input);
    lemma_user_texts_push(history, ItemView::UserMessage { text });
    match model_reply(h1) {
        ModelOutputView::AssistantMessage { text: t } => {
            lemma_user_texts_push(h1, ItemView::AssistantMessage { text: t });
        },
        ModelOutputView::ToolCall { name, arguments } => {
            let h2 = h1.push(ItemView::ToolCall { name, arguments });
            lemma_user_texts_push(h1, ItemView::ToolCall { name, arguments });
            let r = if !names.contains(name) {
                Err(crate::tools::unregistered_message(name))
            } else {
                exec_result(parsed)
            };
            let h3 = h2.push(result_item(name, r));
            lemma_user_texts_push(h2, result_item(name, r));
            lemma_ask_after_result(names, h3);
            let a = ItemView::AssistantMessage { text: model_reply(h3)->AssistantMessage_text };
            lemma_user_texts_push(h3, a);
            if names.contains(name) {
                lemma_push_call(h1, name, arguments);
                law_arguments_answer_call(names, h2, name, parsed);
            }
        },
    }
}

/// Over any number of completed turns a session keeps its id, counts its
/// turns, records each turn's user text in order and nothing else as a user
/// message, answers every tool call, and ends each turn with the model's
/// message.
pub proof fn law_turns_of_a_session(
    names: Seq<Seq<char>>,
    inputs: Seq<Seq<UserInput>>,
    parsed: Seq<Result<ExecCommandArgs, String>>,
)
    requires
        parsed.len() == inputs.len(),
    ensures
        ({
            let s = after_turns(names, inputs, parsed);
            &&& s.session_id == 1
            &&& s.next_turn_id == inputs.len()
            &&& user_texts(s.history) == inputs.map_values(
                |input: Seq<UserInput>| join_lines(input_texts(input)),
            )
            &&& calls_answered(s.history)
            &&& inputs.len() > 0 ==> s.history.len() > 0 && s.history.last() is AssistantMessage
        }),
    decreases inputs.len(),
{
    if inputs.len() > 0 {
        let prev_inputs = inputs.drop_last();
        law_turns_of_a_session(names, prev_inputs, parsed.drop_last());
        let s = after_turns(names, prev_inputs, parsed.drop_last());
        lemma_turn_shape(names, s.history, inputs.last(), parsed.last());
        assert(inputs.map_values(|input: Seq<UserInput>| join_lines(input_texts(input)))
            =~= prev_inputs.map_values(|input: Seq<UserInput>| join_lines(input_texts(input))).push(
            join_lines(input_texts(inputs.last())),
        ));
    } else {
        assert(inputs.map_values(|input: Seq<UserInput>| join_lines(input_texts(input)))
            =~= Seq::<Seq<char>>::empty());
    }
}

/// `word` occurs in `text` exactly when `text` splits as `c + word + d`.
proof fn lemma_contains_split(text: Seq<char>, word: Seq<char>)
    ensures
        seq_contains(text, word) <==> exists|c: Seq<char>, d: Seq<char>| text == c + word + d,
{
    if seq_contains(text, word) {
        let i = choose|i: int|
            0 <= i && i + word.len() <= text.len() && #[trigger] text.subrange(i, i + word.len())
                == word;
        let c = text.subrange(0, i);
        let d = text.subrange(i + word.len(), text.len() as int);
        assert(text =~= c + word + d);
    }
    if exists|c: Seq<char>, d: Seq<char>| text == c + word + d {
        let (c, d) = choose|c: Seq<char>, d: Seq<char>| text == c + word + d;
        assert(text.subrange(c.len() as int, c.len() + word.len() as int) =~= word);
    }
}

/// A user message that mentions `pwd` anywhere, `a + "pwd" + b`, is answered
/// with the call of `exec_command` with arguments `{"cmd":"pwd"}`, whatever
/// came before it.
pub proof fn law_pwd_anywhere_asks_for_pwd(history: Seq<ItemView>, a: Seq<char>, b: Seq<char>)
    ensures
        model_reply(history.push(ItemView::UserMessage { text: a + "pwd"@ + b }))
            == (ModelOutputView::ToolCall {
            name: "exec_command"@,
            arguments: "{\"cmd\":\"pwd\"}"@,
        }),
{
    reveal_strlit("pwd");
    reveal_strlit("{\"cmd\":\"");
    reveal_strlit("\"}");
    reveal_strlit("{\"cmd\":\"pwd\"}");
    let text = a + "pwd"@ + b;
    lemma_contains_split(text, "pwd"@);
    assert(history.push(ItemView::UserMessage { text }).last() == ItemView::UserMessage { text });
    assert(crate::model::command_arguments("pwd"@) =~= "{\"cmd\":\"pwd\"}"@);
}

/// A user message that mentions `ls` but nowhere `pwd` is answered with the
/// call of `exec_command` with arguments `{"cmd":"ls"}`.
pub proof fn law_ls_without_pwd_asks_for_ls(history: Seq<ItemView>, a: Seq<char>, b: Seq<char>)
    requires
        forall|c: Seq<char>, d: Seq<char>| a + "ls"@ + b != c + "pwd"@ + d,
    ensures
        model_reply(history.push(ItemView::UserMessage { text: a + "ls"@ + b }))
            == (ModelOutputView::ToolCall {
            name: "exec_command"@,
            arguments: "{\"cmd\":\"ls\"}"@,
        }),
{
    reveal_strlit("ls");
    reveal_strlit("{\"cmd\":\"");
    reveal_strlit("\"}");
    reveal_strlit("{\"cmd\":\"ls\"}");
    let text = a + "ls"@ + b;
    lemma_contains_split(text, "pwd"@);
    lemma_contains_split(text, "ls"@);
    assert(history.push(ItemView::UserMessage { text }).last() == ItemView::UserMessage { text });
    assert(crate::model::command_arguments("ls"@) =~= "{\"cmd\":\"ls\"}"@);
}

/// A user message that mentions neither `pwd` nor `ls` is echoed back behind
/// the fixed greeting.
pub proof fn law_plain_message_is_echoed(history: Seq<ItemView>, text: Seq<char>)
    requires
        forall|c: Seq<char>, d: Seq<char>| text != c + "pwd"@ + d,
        forall|c: Seq<char>, d: Seq<char>| text != c + "ls"@ + d,
    ensures
        model_reply(history.push(ItemView::UserMessage { text }))
            == (ModelOutputView::AssistantMessage { text: "我收到了你的消息：："@ + text }),
{
    lemma_contains_split(text, "pwd"@);
    lemma_contains_split(text, "ls"@);
    assert(history.push(ItemView::UserMessage { text }).last() == ItemView::UserMessage { text });
}

/// When a turn waits for a tool's arguments, the arguments it hands out and the
/// tool it names are those of the tool call it recorded last, and that call is
/// the model's answer to the history before it.
pub proof fn law_waiting_arguments_are_the_models_call(names: Seq<Seq<char>>, history: Seq<ItemView>)
    ensures
        ask_model(names, history) matches TurnProgress::AwaitingArguments { history: h, tool, arguments }
            ==> {
            &&& h.len() > 0
            &&& h.last() == (ItemView::ToolCall { name: tool, arguments })
            &&& model_reply(h.drop_last()) == (ModelOutputView::ToolCall { name: tool, arguments })
        },
    decreases crate::session::pending_rounds(history),
{
    match model_reply(history) {
        ModelOutputView::AssistantMessage { .. } => {},
        ModelOutputView::ToolCall { name, arguments } => {
            let h = history.push(ItemView::ToolCall { name, arguments });
            assert(h.drop_last() =~= history);
            if !names.contains(name) {
                let h3 = h.push(result_item(name, Err(crate::tools::unregistered_message(name))));
                lemma_ask_after_result(names, h3);
            }
        },
    }
}

/// The same holds of a whole turn from its start.
pub proof fn law_turn_hands_out_the_models_arguments(
    names: Seq<Seq<char>>,
    history: Seq<ItemView>,
    input: Seq<UserInput>,
)
    ensures
        turn_start(names, history, input) matches TurnProgress::AwaitingArguments {
            history: h,
            tool,
            arguments,
        } ==> {
            &&& h.len() > 0
            &&& h.last() == (ItemView::ToolCall { name: tool, arguments })
            &&& model_reply(h.drop_last()) == (ModelOutputView::ToolCall { name: tool, arguments })
        },
{
    law_waiting_arguments_are_the_models_call(
        names,
        history.push(ItemView::UserMessage { text: join_lines(input_texts(input)) }),
    );
}

/// A call reaches a tool only when a tool is registered under exactly its name;
/// any other call fails with the unregistered-tool message naming it, and its
/// arguments pass through unchanged.
pub proof fn law_dispatch_needs_exact_name(
    names: Seq<Seq<char>>,
    name: Seq<char>,
    arguments: Seq<char>,
)
    ensures
        (dispatch_step(names, name, arguments) is ParseExecArgs) <==> (exists|i: int|
            0 <= i < names.len() && names[i] == name),
        dispatch_step(names, name, arguments) matches ToolStepView::ParseExecArgs { arguments: a }
            ==> a == arguments,
        !(exists|i: int| 0 <= i < names.len() && names[i] == name) ==> dispatch_step(
            names,
            name,
            arguments,
        ) == ToolStepView::Finished(Err("未注册工具："@ + name)),
{
}

/// The router that a turn gets reaches exactly the name `exec_command`.
pub proof fn law_turn_router_reaches_only_exec_command(name: Seq<char>, arguments: Seq<char>)
    ensures
        (dispatch_step(seq![crate::model::exec_command_name()], name, arguments) is ParseExecArgs)
            <==> name == "exec_command"@,
{
    law_dispatch_needs_exact_name(seq![crate::model::exec_command_name()], name, arguments);
    if name == "exec_command"@ {
        assert(seq![crate::model::exec_command_name()][0] == name);
    }
}

} // verus!
