//! Decision logic of a Discord music bot: what each slash command answers,
//! how tracks are described, and which voice channel a command acts on.
//! The Discord and audio plumbing lives in the application crate; this
//! library computes the replies it sends and the steps it takes.

pub mod commands;
pub mod utils;
