//! `/stop` (alias `/leave`): clears the queue and leaves the call.

use vstd::prelude::*;
use crate::utils::musics::{channel_mention, channel_mention_view};
use crate::utils::replies::{Reply, is_error_reply, is_text_reply, say_error, say_text};

verus! {

/// The answer to `/stop` once leaving the call `vcid` was tried.
pub fn stop_finish(left: bool, vcid: u64) -> (r: Reply)
    requires
        vcid != 0,
    ensures
        left ==> is_text_reply(
            r,
            "Stopped and disconnected from "@ + channel_mention_view(vcid as nat),
        ),
        !left ==> is_error_reply(r, "Failed to leave the call."@),
{
    if left {
        let msg = String::from_str("Stopped and disconnected from ");
        let mention = channel_mention(vcid);
        say_text(msg.concat(mention.as_str()))
    } else {
        say_error(String::from_str("Failed to leave the call."))
    }
}

} // verus!
