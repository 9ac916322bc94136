//! Voice-channel / companion-thread lifecycle coordinator.
//!
//! The library holds the decisions of a chat bot that gives every custom voice
//! channel a text thread: which channels are managed, when a thread is created
//! or only a join notice is posted, how the rename workflow is gated, and
//! whether a thread is deleted or archived when its voice channel goes away.
//! Every platform call is made by the caller, which hands the outcome back as
//! plain values.

pub mod bindings;
pub mod channel;
pub mod finalize;
pub mod handler;
pub mod rename;

pub use channel::{display_name, AppConfig, ChannelInfo, ChannelKind};
pub use finalize::Finalize;
pub use handler::{join_notice_needed, Handler, JoinPlan};
pub use rename::{button_pressed, rename_vc, route_interaction, RenameCommit, RenameGate, Route};
