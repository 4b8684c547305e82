//! `/skip`: skips the current track of the author's call.

use vstd::prelude::*;
use crate::utils::replies::{Reply, is_error_reply, is_text_reply, say_error, say_text};

verus! {

/// What `/skip` does once the call is found.
pub enum SkipStep {
    /// End the command with this reply.
    Reply(Reply),
    /// Skip the current track, then answer with `skip_finish`.
    Skip,
}

/// `/skip` with a queue of `queue_len` tracks: an empty queue has nothing
/// to skip; otherwise the current track is skipped.
pub fn skip_decide(queue_len: usize) -> (step: SkipStep)
    ensures
        queue_len == 0 <==> step is Reply,
        step matches SkipStep::Reply(r) ==> is_error_reply(r, "Nothing to skip"@),
{
    if queue_len == 0 {
        SkipStep::Reply(say_error(String::from_str("Nothing to skip")))
    } else {
        SkipStep::Skip
    }
}

/// The answer to `/skip` once skipping was tried.
pub fn skip_finish(skipped: bool) -> (r: Reply)
    ensures
        skipped ==> is_text_reply(r, "Skipped"@),
        !skipped ==> is_error_reply(r, "Failed to skip"@),
{
    if skipped {
        say_text(String::from_str("Skipped"))
    } else {
        say_error(String::from_str("Failed to skip"))
    }
}

} // verus!
