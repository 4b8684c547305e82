//! `/play`: joins the author's voice channel, then plays a URL directly or
//! searches for the query and lets the author pick one result.

use vstd::prelude::*;
use crate::utils::decimal::{decimal, push_decimal};
use crate::utils::musics::{
    BotError, TrackInfo, TrackMeta, channel_mention, channel_mention_view, info_complete,
    info_matches, is_track_embed, numbered_listing, numbered_tracks,
};
use crate::utils::replies::{
    Author, Reply, SelectMenu, SelectOption, is_error_reply, say_error,
};
use crate::utils::text::{truncate_utf8, utf8_len};

verus! {

/// The most bytes Discord accepts in the label of a select menu option.
pub const MAX_LABEL_BYTES: usize = 100usize;

/// `s` begins with `prefix`.
pub open spec fn has_prefix(s: Seq<char>, prefix: Seq<char>) -> bool {
    prefix.len() <= s.len() && s.take(prefix.len() as int) == prefix
}

/// Whether `s` begins with `prefix`, as `str::starts_with` tells.
fn starts_with(s: &str, prefix: &str) -> (b: bool)
    ensures
        b == has_prefix(s@, prefix@),
{
    let n = s.unicode_len();
    let m = prefix.unicode_len();
    if m > n {
        return false;
    }
    let mut i: usize = 0;
    while i < m
        invariant
            m <= n,
            n == s@.len(),
            m == prefix@.len(),
            i <= m,
            forall|j: int| 0 <= j < i ==> s@[j] == prefix@[j],
        decreases m - i,
    {
        if s.get_char(i) != prefix.get_char(i) {
            assert(s@.take(m as int)[i as int] != prefix@[i as int]);
            return false;
        }
        i = i + 1;
    }
    assert(s@.take(m as int) =~= prefix@);
    true
}

/// `s` begins with `https://` or `http://`.
pub open spec fn url_like(s: Seq<char>) -> bool {
    has_prefix(s, "https://"@) || has_prefix(s, "http://"@)
}

/// `/play` plays `track` directly when it is an HTTP or HTTPS URL, and
/// searches for it otherwise.
pub fn is_url(track: &str) -> (b: bool)
    ensures
        b == url_like(track@),
        b == ((track@.len() >= 8 && track@.subrange(0, 8) == "https://"@)
            || (track@.len() >= 7 && track@.subrange(0, 7) == "http://"@)),
{
    proof {
        lemma_url_like_prefixes(track@);
    }
    starts_with(track, "https://") || starts_with(track, "http://")
}

/// What happened while making sure the bot is in the author's channel.
pub enum JoinEvent {
    /// The guild's call as found: none, or one that is or is not connected.
    Existing(Option<bool>),
    /// Whether joining the author's channel gave a call.
    Joined(bool),
    /// The channel the call is now connected to, if any.
    Channel(Option<u64>),
}

/// What to do next while making sure the bot is in the author's channel.
pub enum JoinAction {
    /// Join the author's channel.
    Join,
    /// Read which channel the call is connected to.
    ReadChannel,
    /// Done: the call to use, or why there is none.
    Finish(Result<(), BotError>),
}

/// One step of joining the author's channel `cid` when not connected: a
/// connected call is kept, otherwise the channel is joined; the call must
/// then be connected to `cid`.
pub fn join_step(event: JoinEvent, cid: u64) -> (a: JoinAction)
    requires
        event matches JoinEvent::Channel(Some(c)) ==> c != 0,
    ensures
        event matches JoinEvent::Existing(e) ==> if e == Some(true) {
            a is ReadChannel
        } else {
            a is Join
        },
        event matches JoinEvent::Joined(ok) ==> if ok {
            a is ReadChannel
        } else {
            a == JoinAction::Finish(Err(BotError::JoinFailed))
        },
        event matches JoinEvent::Channel(c) ==> match c {
            None => a == JoinAction::Finish(Err(BotError::JoinFailed)),
            Some(c) => if c == cid {
                a == JoinAction::Finish(Ok(()))
            } else {
                a matches JoinAction::Finish(Err(BotError::AlreadyConnected { mention }))
                    && mention@ == channel_mention_view(c as nat)
            },
        },
{
    match event {
        JoinEvent::Existing(Some(true)) => JoinAction::ReadChannel,
        JoinEvent::Existing(_) => JoinAction::Join,
        JoinEvent::Joined(true) => JoinAction::ReadChannel,
        JoinEvent::Joined(false) => JoinAction::Finish(Err(BotError::JoinFailed)),
        JoinEvent::Channel(None) => JoinAction::Finish(Err(BotError::JoinFailed)),
        JoinEvent::Channel(Some(c)) => if c != cid {
            JoinAction::Finish(Err(BotError::AlreadyConnected { mention: channel_mention(c) }))
        } else {
            JoinAction::Finish(Ok(()))
        },
    }
}

/// The search results that describe a whole track, in their order.
pub open spec fn complete_only(infos: Seq<TrackInfo>) -> Seq<TrackInfo>
    decreases infos.len(),
{
    if infos.len() == 0 {
        Seq::empty()
    } else if info_complete(infos.last()) {
        complete_only(infos.drop_last()).push(infos.last())
    } else {
        complete_only(infos.drop_last())
    }
}

/// `ts` are the tracks that the complete results among `infos` describe,
/// one for each, in the same order.
pub open spec fn tracks_of_results(infos: Seq<TrackInfo>, ts: Seq<TrackMeta>) -> bool {
    &&& ts.len() == complete_only(infos).len()
    &&& forall|j: int| 0 <= j < ts.len() ==> info_matches(complete_only(infos)[j], #[trigger] ts[j])
}

/// The tracks among the search results, dropping those with a part missing.
pub fn search_tracks(infos: Vec<TrackInfo>) -> (ts: Vec<TrackMeta>)
    ensures
        tracks_of_results(infos@, ts@),
        (forall|j: int| 0 <= j < infos@.len() ==> info_complete(#[trigger] infos@[j]))
            ==> ts@.len() == infos@.len(),
{
    proof {
        if forall|j: int| 0 <= j < infos@.len() ==> info_complete(#[trigger] infos@[j]) {
            lemma_complete_results_all_kept(infos@);
        }
    }
    let ghost orig = infos@;
    let mut infos = infos;
    let total = infos.len();
    let mut ts: Vec<TrackMeta> = Vec::new();
    let mut i: usize = 0;
    assert(orig.take(0) =~= Seq::<TrackInfo>::empty());
    while infos.len() > 0
        invariant
            total == orig.len(),
            i + infos@.len() == total,
            infos@ == orig.skip(i as int),
            ts@.len() == complete_only(orig.take(i as int)).len(),
            forall|j: int| 0 <= j < ts@.len() ==> info_matches(complete_only(orig.take(i as int))[j], #[trigger] ts@[j]),
        decreases infos@.len(),
    {
        let info = infos.remove(0);
        proof {
            assert(info == orig[i as int]);
            assert(orig.take(i + 1 as int).drop_last() =~= orig.take(i as int));
            assert(orig.take(i + 1 as int).last() == orig[i as int]);
            assert(infos@ =~= orig.skip(i + 1 as int));
        }
        let ghost before = ts@;
        match TrackMeta::from_info(info) {
            Ok(t) => {
                ts.push(t);
            },
            Err(_) => {},
        }
        proof {
            assert forall|j: int| 0 <= j < ts@.len() implies info_matches(
                complete_only(orig.take(i + 1 as int))[j],
                #[trigger] ts@[j],
            ) by {
                if j < before.len() {
                    assert(ts@[j] == before[j]);
                }
            }
        }
        i = i + 1;
    }
    assert(orig.take(i as int) =~= orig);
    ts
}

/// The text `"{n}: {title}"` of the option at position `i`, before cutting.
pub open spec fn full_label(i: nat, title: Seq<char>) -> Seq<char> {
    decimal(i + 1) + ": "@ + title
}

/// The label of the select option at position `i`: `"{n}: {title}"`
/// numbered from one, cut at the last character boundary within
/// `MAX_LABEL_BYTES` bytes.
pub fn option_label(i: usize, title: &String) -> (label: String)
    requires
        i < usize::MAX,
    ensures
        label@ == full_label(i as nat, title@).take(label@.len() as int),
        utf8_len(label@) <= MAX_LABEL_BYTES,
        label@.len() < full_label(i as nat, title@).len() ==> utf8_len(
            full_label(i as nat, title@).take(label@.len() + 1 as int),
        ) > MAX_LABEL_BYTES,
{
    let mut full = String::new();
    push_decimal(&mut full, (i + 1) as u64);
    full.append(": ");
    full.append(title.as_str());
    assert(full@ =~= full_label(i as nat, title@));
    truncate_utf8(full.as_str(), MAX_LABEL_BYTES)
}

/// The select option for the track at position `i`: its label and its URL.
pub open spec fn option_for(opt: SelectOption, i: nat, t: TrackMeta) -> bool {
    &&& opt.value@ == t.url@
    &&& opt.label@ == full_label(i, t.title@).take(opt.label@.len() as int)
    &&& utf8_len(opt.label@) <= MAX_LABEL_BYTES
    &&& opt.label@.len() < full_label(i, t.title@).len() ==> utf8_len(
        full_label(i, t.title@).take(opt.label@.len() + 1 as int),
    ) > MAX_LABEL_BYTES
}

/// `r` is the ephemeral reply titled "Search Results" that lists `ts`
/// numbered from one, with a select menu `"track"` offering one option per
/// track, in the same order.
pub open spec fn is_search_menu(r: Reply, ts: Seq<TrackMeta>) -> bool {
    &&& r.title matches Some(s) && s@ == "Search Results"@
    &&& r.description@ == numbered_listing(ts, ts.len())
    &&& r.color is None
    &&& r.footer is None
    &&& r.image is None
    &&& r.select_menu matches Some(m) && m.custom_id@ == "track"@ && m.options@.len() == ts.len()
        && forall|j: int| 0 <= j < ts.len() ==> option_for(#[trigger] m.options@[j], j as nat, ts[j])
    &&& r.ephemeral
}

/// The ephemeral reply listing the search results, with a select menu
/// `"track"` offering one option per result.
pub fn search_menu(tracks: &Vec<TrackMeta>) -> (r: Reply)
    ensures
        is_search_menu(r, tracks@),
{
    let mut options: Vec<SelectOption> = Vec::new();
    let mut i: usize = 0;
    while i < tracks.len()
        invariant
            i <= tracks@.len(),
            options@.len() == i,
            forall|j: int| 0 <= j < i ==> option_for(#[trigger] options@[j], j as nat, tracks@[j]),
        decreases tracks@.len() - i,
    {
        let label = option_label(i, &tracks[i].title);
        options.push(SelectOption { label, value: tracks[i].url.clone() });
        i = i + 1;
    }
    Reply {
        title: Some(String::from_str("Search Results")),
        description: numbered_tracks(tracks),
        color: None,
        footer: None,
        image: None,
        select_menu: Some(SelectMenu { custom_id: String::from_str("track"), options }),
        ephemeral: true,
    }
}

/// The reply to a search: the results menu, or, when the search failed,
/// the red "No songs found" that ends the command.
pub fn search_reply(found: Option<Vec<TrackInfo>>) -> (r: Result<Reply, Reply>)
    ensures
        found is None <==> r is Err,
        r matches Err(e) ==> is_error_reply(e, "No songs found"@),
        found matches Some(infos) ==> (r matches Ok(m) && exists|ts: Seq<TrackMeta>|
            tracks_of_results(infos@, ts) && #[trigger] is_search_menu(m, ts)),
{
    match found {
        None => Err(say_error(String::from_str("No songs found"))),
        Some(infos) => {
            let ghost results = infos@;
            let tracks = search_tracks(infos);
            let menu = search_menu(&tracks);
            assert(tracks_of_results(results, tracks@) && is_search_menu(menu, tracks@));
            Ok(menu)
        },
    }
}

/// The URL the author picked from the menu: `interaction` is none when
/// no choice came within the time limit, and holds the chosen values of a
/// string select, or none for another kind of component.
pub fn selected_url(interaction: Option<Option<Vec<String>>>) -> (r: Result<String, Reply>)
    requires
        interaction matches Some(Some(values)) ==> values@.len() > 0,
    ensures
        interaction is None ==> (r matches Err(e) && is_error_reply(e, "Timed out"@)),
        interaction matches Some(None) ==> (r matches Err(e) && is_error_reply(
            e,
            "Unknown data kind. How did this happen?"@,
        )),
        interaction matches Some(Some(values)) ==> (r matches Ok(url) && url == values@[0]),
{
    match interaction {
        None => Err(say_error(String::from_str("Timed out"))),
        Some(None) => Err(say_error(String::from_str("Unknown data kind. How did this happen?"))),
        Some(Some(values)) => Ok(values[0].clone()),
    }
}

/// The track to enqueue from its fetched metadata, none when fetching failed.
pub fn fetched_track(meta: Option<TrackInfo>) -> (r: Result<TrackMeta, BotError>)
    ensures
        meta is None ==> r == Err::<TrackMeta, BotError>(BotError::FetchFailed),
        meta matches Some(info) ==> (r is Ok <==> info_complete(info)),
        meta matches Some(info) ==> (r matches Ok(t) ==> info_matches(info, t)),
        meta matches Some(info) ==> (r matches Err(e) ==> e == BotError::ParseFailed),
{
    match meta {
        None => Err(BotError::FetchFailed),
        Some(info) => TrackMeta::from_info(info),
    }
}

/// The embed announcing that `track` was added to the queue.
pub fn added_reply(track: &TrackMeta, author: &Author) -> (r: Reply)
    ensures
        is_track_embed(r, *track, *author, "Added Track"@),
{
    track.to_embed(author, "Added Track")
}


/// How many results `/play` asks the search for.
pub const SEARCH_LIMIT: usize = 10usize;

/// How many seconds `/play` waits for the author to pick from the menu.
pub const PICK_TIMEOUT_SECS: u64 = 60u64;

/// What `/play` has learnt, once the bot is in the author's channel.
pub enum PlayEvent {
    /// The author asked to play `track`.
    Requested(String),
    /// The search came back: none when it failed.
    Searched(Option<Vec<TrackInfo>>),
    /// The menu was answered, in the form `selected_url` takes; the menu
    /// message has been deleted.
    Picked(Option<Option<Vec<String>>>),
}

/// What `/play` does next.
pub enum PlayAction {
    /// Fetch, enqueue and announce the track at this URL; then the command ends.
    AddTrack(String),
    /// Search for `query`, asking for at most `limit` results.
    Search { query: String, limit: usize },
    /// Send `menu`, wait up to `timeout_secs` seconds for the author's pick,
    /// then delete it.
    ShowMenu { menu: Reply, timeout_secs: u64 },
    /// End the command with this reply.
    Finish(Reply),
}

/// One step of `/play`: a URL is added at once and anything else is
/// searched; a failed search ends the command, otherwise the results are
/// offered; the pick is added, while a timeout or an unknown answer ends
/// the command. A track is only ever added from a URL request or a pick.
pub fn play_step(event: PlayEvent) -> (a: PlayAction)
    requires
        event matches PlayEvent::Picked(Some(Some(values))) ==> values@.len() > 0,
    ensures
        event matches PlayEvent::Requested(t) ==> if url_like(t@) {
            a == PlayAction::AddTrack(t)
        } else {
            a == PlayAction::Search { query: t, limit: SEARCH_LIMIT }
        },
        event matches PlayEvent::Searched(found) ==> match found {
            None => a matches PlayAction::Finish(e) && is_error_reply(e, "No songs found"@),
            Some(infos) => a matches PlayAction::ShowMenu { menu, timeout_secs }
                && timeout_secs == PICK_TIMEOUT_SECS && exists|ts: Seq<TrackMeta>|
                tracks_of_results(infos@, ts) && #[trigger] is_search_menu(menu, ts),
        },
        event matches PlayEvent::Picked(sel) ==> match sel {
            None => a matches PlayAction::Finish(e) && is_error_reply(e, "Timed out"@),
            Some(None) => a matches PlayAction::Finish(e) && is_error_reply(
                e,
                "Unknown data kind. How did this happen?"@,
            ),
            Some(Some(values)) => a == PlayAction::AddTrack(values@[0]),
        },
        a is AddTrack ==> (event matches PlayEvent::Requested(t) && url_like(t@))
            || event matches PlayEvent::Picked(Some(Some(_))),
{
    match event {
        PlayEvent::Requested(track) => if is_url(track.as_str()) {
            PlayAction::AddTrack(track)
        } else {
            PlayAction::Search { query: track, limit: SEARCH_LIMIT }
        },
        PlayEvent::Searched(found) => match search_reply(found) {
            Ok(menu) => PlayAction::ShowMenu { menu, timeout_secs: PICK_TIMEOUT_SECS },
            Err(e) => PlayAction::Finish(e),
        },
        PlayEvent::Picked(sel) => match selected_url(sel) {
            Ok(url) => PlayAction::AddTrack(url),
            Err(e) => PlayAction::Finish(e),
        },
    }
}


/// A text counts as a URL exactly when its first eight characters are
/// `https://` or its first seven are `http://`, whatever follows.
pub proof fn lemma_url_like_prefixes(s: Seq<char>)
    ensures
        url_like(s) == ((s.len() >= 8 && s.subrange(0, 8) == "https://"@)
            || (s.len() >= 7 && s.subrange(0, 7) == "http://"@)),
{
    reveal_strlit("https://");
    reveal_strlit("http://");
    assert(s.len() >= 8 ==> s.take(8) =~= s.subrange(0, 8));
    assert(s.len() >= 7 ==> s.take(7) =~= s.subrange(0, 7));
}

/// Appending anything to a URL leaves it a URL: `/play` adds it directly
/// however long it is and whatever it goes on with.
pub proof fn lemma_url_stays_url(s: Seq<char>, rest: Seq<char>)
    requires
        url_like(s),
    ensures
        url_like(s + rest),
{
    lemma_url_like_prefixes(s);
    lemma_url_like_prefixes(s + rest);
    if s.len() >= 8 && s.subrange(0, 8) == "https://"@ {
        assert((s + rest).subrange(0, 8) =~= s.subrange(0, 8));
    } else {
        assert((s + rest).subrange(0, 7) =~= s.subrange(0, 7));
    }
}

/// Keeping the complete results of two result lists one after the other
/// keeps those of the first, then those of the second.
pub proof fn lemma_complete_results_split(a: Seq<TrackInfo>, b: Seq<TrackInfo>)
    ensures
        complete_only(a + b) == complete_only(a) + complete_only(b),
    decreases b.len(),
{
    if b.len() == 0 {
        assert(a + b =~= a);
        assert(complete_only(a) + complete_only(b) =~= complete_only(a));
    } else {
        lemma_complete_results_split(a, b.drop_last());
        assert((a + b).drop_last() =~= a + b.drop_last());
        assert((a + b).last() == b.last());
        if info_complete(b.last()) {
            assert(complete_only(a + b) =~= complete_only(a) + complete_only(b));
        } else {
            assert(complete_only(a + b) =~= complete_only(a) + complete_only(b));
        }
    }
}

/// When every result is complete, every one is kept, in order, however
/// many there are.
pub proof fn lemma_complete_results_all_kept(infos: Seq<TrackInfo>)
    requires
        forall|j: int| 0 <= j < infos.len() ==> info_complete(#[trigger] infos[j]),
    ensures
        complete_only(infos) == infos,
    decreases infos.len(),
{
    if infos.len() > 0 {
        let rest = infos.drop_last();
        assert forall|j: int| 0 <= j < rest.len() implies info_complete(#[trigger] rest[j]) by {
            assert(rest[j] == infos[j]);
        }
        lemma_complete_results_all_kept(rest);
        assert(info_complete(infos[infos.len() - 1]));
        assert(rest.push(infos.last()) =~= infos);
    }
}

/// A result is kept exactly when it is complete: one result alone gives
/// itself when complete and nothing otherwise.
pub proof fn lemma_complete_result_kept_iff(info: TrackInfo)
    ensures
        info_complete(info) ==> complete_only(seq![info]) == seq![info],
        !info_complete(info) ==> complete_only(seq![info]).len() == 0,
{
    assert(seq![info].len() == 1);
    assert(seq![info].last() == info);
    assert(seq![info].drop_last() =~= Seq::<TrackInfo>::empty());
    assert(complete_only(Seq::<TrackInfo>::empty()) =~= Seq::<TrackInfo>::empty());
    assert(Seq::<TrackInfo>::empty().push(info) =~= seq![info]);
}

} // verus!
