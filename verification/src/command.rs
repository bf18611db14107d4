//! The commands of `gi`, each a state machine over [`crate::flow`]'s actions and events.
pub mod add;
pub mod branch;
pub mod commit;
pub mod delete;
pub mod fetch;
pub mod merge;
pub mod push;
pub mod repo_utils;
pub mod switch;

pub use add::{Add, AddFlow};
pub use commit::{Commit, CommitFlow};
pub use delete::{Delete, DeleteFlow};
pub use fetch::{Fetch, FetchFlow};
pub use merge::{Merge, MergeFlow, MergeOptions};
pub use push::{Push, PushFlow, PushOptions};
pub use switch::{Switch, SwitchFlow};
