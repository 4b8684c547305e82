//! `/queue`: lists the tracks of the author's call.

use vstd::prelude::*;
use crate::utils::musics::{TrackMeta, numbered_listing, numbered_tracks};
use crate::utils::replies::{Reply, is_text_reply, say_text};

verus! {

/// The answer to `/queue` for the queued `tracks`, the current one first.
pub fn queue_reply(tracks: &Vec<TrackMeta>) -> (r: Reply)
    ensures
        tracks@.len() == 0 ==> is_text_reply(r, "Queue is empty"@),
        tracks@.len() > 0 ==> is_text_reply(r, numbered_listing(tracks@, tracks@.len())),
{
    if tracks.len() == 0 {
        say_text(String::from_str("Queue is empty"))
    } else {
        say_text(numbered_tracks(tracks))
    }
}

} // verus!
