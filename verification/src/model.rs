//! A scripted stand-in for a language model: it answers from the last entry of
//! the history alone.

use vstd::prelude::*;
use crate::history::{ConversationItem, ItemView, view_items};
use crate::text::{contains_text, seq_contains};

verus! {

/// What the model answers: a message for the user, or a request to call a tool.
#[derive(Debug)]
pub enum ModelOutput {
    AssistantMessage { text: String },
    ToolCall { name: String, arguments: String },
}

/// A model answer with its texts taken as character sequences.
pub enum ModelOutputView {
    AssistantMessage { text: Seq<char> },
    ToolCall { name: Seq<char>, arguments: Seq<char> },
}

impl View for ModelOutput {
    type V = ModelOutputView;

    open spec fn view(&self) -> ModelOutputView {
        match self {
            ModelOutput::AssistantMessage { text } => ModelOutputView::AssistantMessage {
                text: text@,
            },
            ModelOutput::ToolCall { name, arguments } => ModelOutputView::ToolCall {
                name: name@,
                arguments: arguments@,
            },
        }
    }
}

/// The name of the one tool that the model asks for.
pub open spec fn exec_command_name() -> Seq<char> {
    "exec_command"@
}

/// The arguments with which the model asks to run `cmd`.
pub open spec fn command_arguments(cmd: Seq<char>) -> Seq<char> {
    "{\"cmd\":\""@ + cmd + "\"}"@
}

/// The answer to an empty history.
pub open spec fn empty_history_reply() -> Seq<char> {
    "当前没有可处理的消息"@
}

/// The answer to a user message that asks for no command.
pub open spec fn echo_reply(text: Seq<char>) -> Seq<char> {
    "我收到了你的消息：："@ + text
}

/// The answer to a tool result.
pub open spec fn tool_result_reply(name: Seq<char>, output: Seq<char>, success: bool) -> Seq<
    char,
> {
    if success {
        "工具"@ + name + " 执行成功 结果是"@ + output
    } else {
        "工具"@ + name + "执行失败，原因是"@ + output
    }
}

/// The answer to a tool call that has no result yet.
pub open spec fn pending_call_reply(name: Seq<char>, arguments: Seq<char>) -> Seq<char> {
    "工具"@ + name + "尚未返回结果， 参数是"@ + arguments
}

/// What the model answers to `history`: it looks at the last entry only.
pub open spec fn model_reply(history: Seq<ItemView>) -> ModelOutputView {
    if history.len() == 0 {
        ModelOutputView::AssistantMessage { text: empty_history_reply() }
    } else {
        match history.last() {
            ItemView::UserMessage { text } => {
                if seq_contains(text, "pwd"@) {
                    ModelOutputView::ToolCall {
                        name: exec_command_name(),
                        arguments: command_arguments("pwd"@),
                    }
                } else if seq_contains(text, "ls"@) {
                    ModelOutputView::ToolCall {
                        name: exec_command_name(),
                        arguments: command_arguments("ls"@),
                    }
                } else {
                    ModelOutputView::AssistantMessage { text: echo_reply(text) }
                }
            },
            ItemView::ToolResult { name, output, success } => ModelOutputView::AssistantMessage {
                text: tool_result_reply(name, output, success),
            },
            ItemView::ToolCall { name, arguments } => ModelOutputView::AssistantMessage {
                text: pending_call_reply(name, arguments),
            },
            ItemView::AssistantMessage { text } => ModelOutputView::AssistantMessage { text },
        }
    }
}

/// The scripted model.
pub struct FakeModel;

impl FakeModel {
    pub fn new() -> (r: Self) {
        FakeModel
    }

    /// The model's answer to `history`.
    pub fn respond(&self, history: &[ConversationItem]) -> (r: ModelOutput)
        ensures
            r@ == model_reply(view_items(history@)),
    {
        let n = history.len();
        if n == 0 {
            return ModelOutput::AssistantMessage { text: "当前没有可处理的消息".to_owned() };
        }
        assert(view_items(history@).last() == history@[n - 1]@);
        match &history[n - 1] {
            ConversationItem::UserMessage { text } => {
                if contains_text(text.as_str(), "pwd") {
                    let mut arguments = "{\"cmd\":\"".to_owned();
                    arguments.append("pwd");
                    arguments.append("\"}");
                    ModelOutput::ToolCall { name: "exec_command".to_owned(), arguments }
                } else if contains_text(text.as_str(), "ls") {
                    let mut arguments = "{\"cmd\":\"".to_owned();
                    arguments.append("ls");
                    arguments.append("\"}");
                    ModelOutput::ToolCall { name: "exec_command".to_owned(), arguments }
                } else {
                    let mut reply = "我收到了你的消息：：".to_owned();
                    reply.append(text.as_str());
                    ModelOutput::AssistantMessage { text: reply }
                }
            },
            ConversationItem::ToolResult { name, output, success } => {
                let mut reply = "工具".to_owned();
                reply.append(name.as_str());
                if *success {
                    reply.append(" 执行成功 结果是");
                } else {
                    reply.append("执行失败，原因是");
                }
                reply.append(output.as_str());
                ModelOutput::AssistantMessage { text: reply }
            },
            ConversationItem::ToolCall { name, arguments } => {
                let mut reply = "工具".to_owned();
                reply.append(name.as_str());
                reply.append("尚未返回结果， 参数是");
                reply.append(arguments.as_str());
                ModelOutput::AssistantMessage { text: reply }
            },
            ConversationItem::AssistantMessage { text } => {
                ModelOutput::AssistantMessage { text: text.clone() }
            },
        }
    }
}

} // verus!
