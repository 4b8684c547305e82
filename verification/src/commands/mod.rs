//! The slash commands: which exist, and what each decides between the
//! Discord and voice operations that the application performs.

pub mod now_playing;
pub mod play;
pub mod queue;
pub mod skip;
pub mod stop;

use vstd::prelude::*;
use crate::utils::musics::{BotError, error_reply};
use crate::utils::replies::{Reply, is_error_reply};

verus! {

/// The slash commands the bot registers.
#[derive(Clone, Copy, Debug, PartialEq, Eq, Structural)]
pub enum CommandKind {
    NowPlaying,
    Play,
    Queue,
    Stop,
    Skip,
}

/// The commands to register, in this order.
pub fn all_commands() -> (v: Vec<CommandKind>)
    ensures
        v@ == seq![
            CommandKind::NowPlaying,
            CommandKind::Play,
            CommandKind::Queue,
            CommandKind::Stop,
            CommandKind::Skip,
        ],
{
    let v = vec![
        CommandKind::NowPlaying,
        CommandKind::Play,
        CommandKind::Queue,
        CommandKind::Stop,
        CommandKind::Skip,
    ];
    assert(v@ =~= seq![
        CommandKind::NowPlaying,
        CommandKind::Play,
        CommandKind::Queue,
        CommandKind::Stop,
        CommandKind::Skip,
    ]);
    v
}

/// A command's step that may fail: its value, or the red reply with the
/// error's message that ends the command.
pub fn reg_err<T>(r: Result<T, BotError>) -> (out: Result<T, Reply>)
    ensures
        r matches Ok(v) ==> out == Ok::<T, Reply>(v),
        r matches Err(e) ==> out matches Err(rep) && is_error_reply(rep, e.message_view()),
{
    match r {
        Ok(v) => Ok(v),
        Err(e) => Err(error_reply(&e)),
    }
}

/// The guild's call must exist; otherwise the command ends with
/// "Not connected to any channel".
pub fn require_call(call_found: bool) -> (out: Result<(), Reply>)
    ensures
        call_found <==> out is Ok,
        out matches Err(rep) ==> is_error_reply(rep, BotError::NotConnected.message_view()),
{
    if call_found {
        Ok(())
    } else {
        reg_err(Err(BotError::NotConnected))
    }
}

} // verus!
