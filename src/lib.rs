//! Decision logic of a chat bot that turns prompts into images through a
//! remote generation service: command routing and per-conversation model
//! choice, prompt splitting, the job submission and polling protocol, and the
//! market summary of the data-lookup flow.
pub mod text;
pub mod prompt;
pub mod json;
pub mod job;
pub mod route;
pub mod poll;
pub mod market;
