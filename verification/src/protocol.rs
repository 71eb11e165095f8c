//! The messages that travel from the terminal to the agent.

use vstd::prelude::*;

verus! {

/// An event that the terminal input layer hands to the application.
#[derive(Debug)]
pub enum TuiEvent {
    Submitted(String),
}

/// One user message, put together by the terminal layer from a line it read.
#[derive(Debug)]
pub struct UserMessage {
    pub text: String,
}

impl From<String> for UserMessage {
    fn from(text: String) -> (r: Self) {
        UserMessage { text }
    }
}

impl vstd::std_specs::convert::FromSpecImpl<String> for UserMessage {
    open spec fn obeys_from_spec() -> bool {
        true
    }

    open spec fn from_spec(v: String) -> Self {
        UserMessage { text: v }
    }
}

/// An input item that the agent protocol accepts; text is the only kind so far.
#[derive(Debug)]
pub enum UserInput {
    Text { text: String },
}

impl UserInput {
    /// The text that the item carries.
    pub open spec fn text_view(self) -> Seq<char> {
        match self {
            UserInput::Text { text } => text@,
        }
    }
}

/// The texts of a list of input items, in order.
pub open spec fn input_texts(items: Seq<UserInput>) -> Seq<Seq<char>> {
    items.map_values(|item: UserInput| item.text_view())
}

impl UserMessage {
    /// Turns the message into the input list of the agent protocol: one text item.
    pub fn into_user_inputs(self) -> (r: Vec<UserInput>)
        ensures
            r@ == seq![UserInput::Text { text: self.text }],
    {
        let mut r: Vec<UserInput> = Vec::new();
        r.push(UserInput::Text { text: self.text });
        r
    }
}

/// A command from the application to the application server.
#[derive(Debug)]
pub enum AppCommand {
    /// The user submitted input items and asks for one turn of agent work.
    UserTurn { items: Vec<UserInput> },
}

impl AppCommand {
    /// The command that starts a turn on `items`.
    pub fn user_turn(items: Vec<UserInput>) -> (r: Self)
        ensures
            r == (AppCommand::UserTurn { items }),
    {
        AppCommand::UserTurn { items }
    }
}

/// What the application does with an event from the terminal.
#[derive(Debug)]
pub enum AppStep {
    /// Send this command to the application server.
    Submit(AppCommand),
    /// Leave the program.
    Quit,
}

/// The line that ends the program.
pub open spec fn quit_command() -> Seq<char> {
    "/quit"@
}

/// Decides what a terminal event leads to: `/quit` ends the program; any other
/// line becomes a user message whose input list is sent as a turn.
pub fn app_step(event: TuiEvent) -> (r: AppStep)
    ensures
        match event {
            TuiEvent::Submitted(text) => if text@ == quit_command() {
                r is Quit
            } else {
                r matches AppStep::Submit(AppCommand::UserTurn { items }) && items@ == seq![
                    UserInput::Text { text },
                ]
            },
        },
{
    match event {
        TuiEvent::Submitted(text) => {
            let quit = "/quit".to_owned();
            if text == quit {
                AppStep::Quit
            } else {
                let message = UserMessage::from(text);
                AppStep::Submit(AppCommand::user_turn(message.into_user_inputs()))
            }
        },
    }
}

} // verus!
