//! The core of a small agent front end: the messages that flow from the
//! terminal to the agent, the conversation history, a scripted model, a tool
//! registry with an approval policy, and the turn loop that ties them together.

pub mod text;
pub mod protocol;
pub mod history;
pub mod model;
pub mod tools;
pub mod session;
pub mod laws;
