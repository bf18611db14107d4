//! Decisions and text handling of `gi`, an interactive shell for git.
//!
//! Each command is a state machine ([`command`]) that asks for the steps of
//! [`flow::Action`] and takes the replies of [`flow::Event`]; the program around it
//! performs the steps (git, prompts, printing) and feeds the replies back.
pub mod command;
pub mod error;
pub mod flow;
pub mod repo;
pub mod text;
pub mod ui;

pub use command::{Add, Commit, Delete, Fetch, Merge, MergeOptions, Push, PushOptions, Switch};
pub use error::{GiError, PromptFailure};
pub use ui::required_text;
