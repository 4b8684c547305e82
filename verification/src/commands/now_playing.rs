//! `/now_playing`: shows the track that is playing.

use vstd::prelude::*;
use crate::utils::musics::{BotError, TrackMeta, error_reply, is_track_embed};
use crate::utils::replies::{Author, Reply, is_error_reply};

verus! {

/// The answer to `/now_playing` when `current` is the playing track.
pub fn now_playing_reply(current: Option<&TrackMeta>, author: &Author) -> (r: Reply)
    ensures
        current is None ==> is_error_reply(r, BotError::NoSong.message_view()),
        current matches Some(t) ==> is_track_embed(r, *t, *author, "Now playing"@),
{
    match current {
        None => error_reply(&BotError::NoSong),
        Some(t) => t.to_embed(author, "Now playing"),
    }
}

} // verus!
