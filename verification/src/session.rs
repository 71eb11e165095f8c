//! The session and the turn loop: one turn records the user's input, asks the
//! model, carries out the tool calls it asks for, and ends with its message.
//!
//! Where a tool call needs its JSON arguments read, the turn stops with an
//! action that says so, and resumes with the outcome.

use vstd::prelude::*;
use crate::history::{ConversationHistory, ConversationItem, ItemView};
use crate::model::{FakeModel, ModelOutput, ModelOutputView, model_reply};
use crate::protocol::{UserInput, input_texts};
use crate::text::join_lines;
use crate::tools::{
    ExecCommandArgs,
    ExecCommandHandler,
    ToolResult,
    ToolRouter,
    ToolStep,
    ToolStepView,
    dispatch_step,
    exec_result,
    result_view,
};

verus! {

/// The texts of the input items joined into one text, a line per item.
pub fn collect_text(input: Vec<UserInput>) -> (r: String)
    ensures
        r@ == join_lines(input_texts(input@)),
{
    let ghost texts = input_texts(input@);
    let mut r = String::new();
    let n = input.len();
    for i in 0..n
        invariant
            n == input@.len(),
            texts == input_texts(input@),
            r@ == join_lines(texts.take(i as int)),
    {
        proof {
            reveal_strlit("\n");
        }
        let UserInput::Text { text } = &input[i];
        assert(texts[i as int] == text@);
        assert(texts.take(i + 1).drop_last() =~= texts.take(i as int));
        assert(texts.take(i + 1).last() == text@);
        if i != 0 {
            r.append("\n");
        }
        r.append(text.as_str());
        if i == 0 {
            assert(r@ =~= join_lines(texts.take(1)));
        } else {
            assert(r@ =~= join_lines(texts.take(i + 1)));
        }
    }
    assert(texts.take(n as int) =~= texts);
    r
}

/// How far a turn has come: the history so far and what it waits for.
pub enum TurnProgress {
    /// The turn is over; the model's last message is `reply`.
    Done { history: Seq<ItemView>, reply: Seq<char> },
    /// The command tool `tool` waits for its JSON `arguments` to be read.
    AwaitingArguments { history: Seq<ItemView>, tool: Seq<char>, arguments: Seq<char> },
}

/// The history entry that records the outcome of a call of `tool`.
pub open spec fn result_item(tool: Seq<char>, outcome: Result<Seq<char>, Seq<char>>) -> ItemView {
    match outcome {
        Ok(output) => ItemView::ToolResult { name: tool, output, success: true },
        Err(error) => ItemView::ToolResult { name: tool, output: error, success: false },
    }
}

/// How many model answers a history can still lead to a tool call: none once
/// a tool result is the last entry (the model answers a result with a message).
pub open spec fn pending_rounds(history: Seq<ItemView>) -> nat {
    if history.len() > 0 && history.last() is ToolResult {
        0
    } else {
        1
    }
}

/// The model is asked with `history`. A message ends the turn; a tool call is
/// recorded and routed among the tools `names`. A call that ends at once has
/// its outcome recorded and the model is asked again; a call that needs
/// outside work makes the turn wait.
pub open spec fn ask_model(names: Seq<Seq<char>>, history: Seq<ItemView>) -> TurnProgress
    decreases pending_rounds(history),
{
    match model_reply(history) {
        ModelOutputView::AssistantMessage { text } => TurnProgress::Done {
            history: history.push(ItemView::AssistantMessage { text }),
            reply: text,
        },
        ModelOutputView::ToolCall { name, arguments } => {
            let h = history.push(ItemView::ToolCall { name, arguments });
            match dispatch_step(names, name, arguments) {
                ToolStepView::ParseExecArgs { arguments } => TurnProgress::AwaitingArguments {
                    history: h,
                    tool: name,
                    arguments,
                },
                ToolStepView::Finished(outcome) => ask_model(
                    names,
                    h.push(result_item(name, outcome)),
                ),
            }
        },
    }
}

/// A tool call of `tool` ended with `outcome`: it is recorded, and the model is
/// asked again.
pub open spec fn after_result(
    names: Seq<Seq<char>>,
    history: Seq<ItemView>,
    tool: Seq<char>,
    outcome: Result<Seq<char>, Seq<char>>,
) -> TurnProgress {
    ask_model(names, history.push(result_item(tool, outcome)))
}

/// A turn on `input` begins: the joined text is recorded as the user's message
/// and the model is asked.
pub open spec fn turn_start(
    names: Seq<Seq<char>>,
    history: Seq<ItemView>,
    input: Seq<UserInput>,
) -> TurnProgress {
    ask_model(names, history.push(ItemView::UserMessage { text: join_lines(input_texts(input)) }))
}

/// The command tool `tool` got the outcome of reading its arguments: its
/// outcome is recorded and the model is asked again.
pub open spec fn on_arguments(
    names: Seq<Seq<char>>,
    history: Seq<ItemView>,
    tool: Seq<char>,
    parsed: Result<ExecCommandArgs, String>,
) -> TurnProgress {
    after_result(names, history, tool, exec_result(parsed))
}

/// The state of one turn: which outside work it waits for.
pub enum TaskPhase {
    Ready,
    AwaitingArguments { tool: String, handler: ExecCommandHandler },
    Finished,
}

/// What the caller does next for the turn.
#[derive(Debug)]
pub enum TaskAction {
    /// Read `arguments` as the command tool's JSON arguments; then call
    /// `RegularTask::resume_with_arguments`.
    ParseArguments { arguments: String },
    /// The turn is over and `reply` is the model's final message.
    Done { reply: String },
}

/// The task's phase, the history and the action show `progress`.
pub open spec fn reached(
    phase: TaskPhase,
    history: Seq<ItemView>,
    action: TaskAction,
    progress: TurnProgress,
) -> bool {
    match progress {
        TurnProgress::Done { history: h, reply } => {
            &&& phase is Finished
            &&& history == h
            &&& action matches TaskAction::Done { reply: r }
            &&& r@ == reply
        },
        TurnProgress::AwaitingArguments { history: h, tool, arguments } => {
            &&& phase matches TaskPhase::AwaitingArguments { tool: t, .. }
            &&& t@ == tool
            &&& history == h
            &&& action matches TaskAction::ParseArguments { arguments: a }
            &&& a@ == arguments
        },
    }
}

/// The state that a session keeps across turns.
pub struct Session {
    pub session_id: u64,
    pub next_turn_id: u64,
    pub model: FakeModel,
    pub history: ConversationHistory,
}

/// What one turn may use.
pub struct TurnContext {
    pub turn_id: u64,
    pub tool_router: ToolRouter,
}

/// One turn of agent work.
pub struct RegularTask {
    pub phase: TaskPhase,
}

impl RegularTask {
    /// A task that has not begun.
    pub fn new() -> (r: Self)
        ensures
            r.phase is Ready,
    {
        RegularTask { phase: TaskPhase::Ready }
    }

    /// Records the outcome of a call of `tool` and asks the model again.
    fn close_with_result(
        &mut self,
        session: &mut Session,
        context: &TurnContext,
        tool: String,
        outcome: Result<ToolResult, String>,
    ) -> (action: TaskAction)
        ensures
            reached(
                final(self).phase,
                final(session).history@,
                action,
                after_result(context.tool_router@, old(session).history@, tool@, result_view(outcome)),
            ),
            final(session).session_id == old(session).session_id,
            final(session).next_turn_id == old(session).next_turn_id,
    {
        let (output, success) = match outcome {
            Ok(result) => (result.output, true),
            Err(error) => (error, false),
        };
        session.history.push(ConversationItem::ToolResult { name: tool, output, success });
        self.ask(session, context)
    }

    /// Asks the model until it answers with a message or a tool call waits for
    /// outside work; calls that end at once are recorded along the way.
    fn ask(&mut self, session: &mut Session, context: &TurnContext) -> (action: TaskAction)
        ensures
            reached(
                final(self).phase,
                final(session).history@,
                action,
                ask_model(context.tool_router@, old(session).history@),
            ),
            final(session).session_id == old(session).session_id,
            final(session).next_turn_id == old(session).next_turn_id,
    {
        let ghost target = ask_model(context.tool_router@, session.history@);
        loop
            invariant
                ask_model(context.tool_router@, session.history@) == target,
                target == ask_model(context.tool_router@, old(session).history@),
                session.session_id == old(session).session_id,
                session.next_turn_id == old(session).next_turn_id,
            decreases pending_rounds(session.history@),
        {
            let ghost before = session.history@;
            let answer = session.model.respond(session.history.items());
            match answer {
                ModelOutput::AssistantMessage { text } => {
                    session.history.push(ConversationItem::AssistantMessage { text: text.clone() });
                    self.phase = TaskPhase::Finished;
                    return TaskAction::Done { reply: text };
                },
                ModelOutput::ToolCall { name, arguments } => {
                    proof {
                        if before.len() > 0 && before.last() is ToolResult {
                            assert(model_reply(before) is AssistantMessage);
                        }
                    }
                    session.history.push(
                        ConversationItem::ToolCall { name: name.clone(), arguments: arguments.clone() },
                    );
                    let call = ToolRouter::build_tool_call(name.clone(), arguments);
                    match context.tool_router.dispatch(call) {
                        ToolStep::Finished(outcome) => {
                            let (output, success) = match outcome {
                                Ok(result) => (result.output, true),
                                Err(error) => (error, false),
                            };
                            session.history.push(
                                ConversationItem::ToolResult { name, output, success },
                            );
                        },
                        ToolStep::ParseExecArgs { handler, arguments } => {
                            self.phase = TaskPhase::AwaitingArguments { tool: name, handler };
                            return TaskAction::ParseArguments { arguments };
                        },
                    }
                },
            }
        }
    }

    /// Begins the turn on `input`: records the joined text as the user's
    /// message and asks the model.
    pub fn run(&mut self, session: &mut Session, context: &TurnContext, input: Vec<UserInput>) -> (action: TaskAction)
        requires
            old(self).phase is Ready,
        ensures
            reached(
                final(self).phase,
                final(session).history@,
                action,
                turn_start(context.tool_router@, old(session).history@, input@),
            ),
            final(session).session_id == old(session).session_id,
            final(session).next_turn_id == old(session).next_turn_id,
    {
        let text = collect_text(input);
        session.history.push(ConversationItem::UserMessage { text });
        self.ask(session, context)
    }

    /// Resumes the turn with the outcome of reading the command tool's
    /// arguments (`Err` holds the reader's error text).
    pub fn resume_with_arguments(
        &mut self,
        session: &mut Session,
        context: &TurnContext,
        parsed: Result<ExecCommandArgs, String>,
    ) -> (action: TaskAction)
        requires
            old(self).phase is AwaitingArguments,
        ensures
            reached(
                final(self).phase,
                final(session).history@,
                action,
                on_arguments(
                    context.tool_router@,
                    old(session).history@, old(self).phase->AwaitingArguments_tool@, parsed),
            ),
            final(session).session_id == old(session).session_id,
            final(session).next_turn_id == old(session).next_turn_id,
    {
        let (tool, handler) = match &self.phase {
            TaskPhase::AwaitingArguments { tool, handler } => (tool.clone(), *handler),
            _ => {
                proof {
                    assert(false);
                }
                (String::new(), ExecCommandHandler::new())
            },
        };
        let result = handler.execute(parsed);
        self.close_with_result(session, context, tool, result)
    }
}

impl Session {
    /// A session with id 1, no turns yet and an empty history.
    pub fn new() -> (r: Self)
        ensures
            r.session_id == 1,
            r.next_turn_id == 0,
            r.history@ == Seq::<ItemView>::empty(),
    {
        Session {
            session_id: 1,
            next_turn_id: 0,
            model: FakeModel::new(),
            history: ConversationHistory::new(),
        }
    }

    /// Starts the next turn on `input`: numbers it, gives it the command tool,
    /// and begins it. Returns the turn's context, its task, and the first action.
    pub fn start_turn(&mut self, input: Vec<UserInput>) -> (r: (TurnContext, RegularTask, TaskAction))
        requires
            old(self).next_turn_id < u64::MAX,
        ensures
            final(self).next_turn_id == old(self).next_turn_id + 1,
            r.0.turn_id == final(self).next_turn_id,
            final(self).session_id == old(self).session_id,
            r.0.tool_router@ == seq![crate::model::exec_command_name()],
            reached(
                r.1.phase,
                final(self).history@,
                r.2,
                turn_start(r.0.tool_router@, old(self).history@, input@),
            ),
    {
        self.next_turn_id = self.next_turn_id + 1;
        let context = TurnContext { turn_id: self.next_turn_id, tool_router: ToolRouter::new() };
        let mut task = RegularTask::new();
        let action = task.run(self, &context, input);
        (context, task, action)
    }
}

} // verus!
