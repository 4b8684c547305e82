//! Tracks, the errors a command can answer with, and the voice channel a
//! command acts on.

use std::collections::HashMap;
use serenity::all::Mentionable;
use vstd::prelude::*;
use crate::utils::decimal::{decimal, decimal_value, lemma_pad2_value, pad2, push_decimal, push_pad2};
use crate::utils::replies::{Author, Footer, Reply, branding_green, say_error, is_error_reply, BRANDING_GREEN};

verus! {

broadcast use vstd::std_specs::hash::group_hash_axioms;

/// Why a command gives up, with the message the user is shown.
pub enum BotError {
    /// The command did not come from a guild.
    NoGuild,
    /// The author is in no voice channel of the guild.
    NotInVoiceChannel,
    /// The bot has no connected call in the guild.
    NotConnected,
    /// The author is in another voice channel than the bot.
    WrongChannel,
    /// Joining the author's voice channel did not succeed.
    JoinFailed,
    /// The bot is connected elsewhere; `mention` is that channel's mention.
    AlreadyConnected { mention: String },
    /// The metadata of a track could not be fetched.
    FetchFailed,
    /// The metadata of a track lacks a title, a URL, a thumbnail or a length.
    ParseFailed,
    /// Nothing is playing.
    NoSong,
}

impl BotError {
    /// The message shown to the user for this error.
    pub open spec fn message_view(&self) -> Seq<char> {
        match self {
            BotError::NoGuild => "No guild. How did this happen?"@,
            BotError::NotInVoiceChannel => "Join a voice channel to use this command"@,
            BotError::NotConnected => "Not connected to any channel"@,
            BotError::WrongChannel => "Join my voice channel to use this command"@,
            BotError::JoinFailed => "Failed to join the channel"@,
            BotError::AlreadyConnected { mention } => "Already connected to "@ + mention@,
            BotError::FetchFailed => "Failed to fetch track info"@,
            BotError::ParseFailed => "Failed to parse track data"@,
            BotError::NoSong => "No song"@,
        }
    }

    /// The message shown to the user for this error.
    pub fn message(&self) -> (s: String)
        ensures
            s@ == self.message_view(),
    {
        match self {
            BotError::NoGuild => String::from_str("No guild. How did this happen?"),
            BotError::NotInVoiceChannel => String::from_str(
                "Join a voice channel to use this command",
            ),
            BotError::NotConnected => String::from_str("Not connected to any channel"),
            BotError::WrongChannel => String::from_str(
                "Join my voice channel to use this command",
            ),
            BotError::JoinFailed => String::from_str("Failed to join the channel"),
            BotError::AlreadyConnected { mention } => {
                let s = String::from_str("Already connected to ");
                s.concat(mention.as_str())
            },
            BotError::FetchFailed => String::from_str("Failed to fetch track info"),
            BotError::ParseFailed => String::from_str("Failed to parse track data"),
            BotError::NoSong => String::from_str("No song"),
        }
    }
}

/// The red reply that reports `e`.
pub fn error_reply(e: &BotError) -> (r: Reply)
    ensures
        is_error_reply(r, e.message_view()),
{
    say_error(e.message())
}

/// How Discord writes a mention of the channel `id`.
pub open spec fn channel_mention_view(id: nat) -> Seq<char> {
    "<#"@ + decimal(id) + ">"@
}

/// The mention of a channel, from serenity's `Mentionable::mention` on a
/// `ChannelId`, rendered by its `Display` impl: `<#` then the id in decimal
/// then `>`. `ChannelId::new` panics on 0, which `requires` leaves out.
#[verifier::external_body]
pub(crate) fn channel_mention(id: u64) -> (s: String)
    requires
        id != 0,
    ensures
        s@ == channel_mention_view(id as nat),
{
    serenity::all::ChannelId::new(id).mention().to_string()
}


/// A track in the queue, with what its embeds show.
#[derive(Clone)]
pub struct TrackMeta {
    pub title: String,
    pub url: String,
    pub thumb: String,
    pub secs: u64,
}

/// What the metadata of a track source tells, each part possibly missing.
pub struct TrackInfo {
    pub title: Option<String>,
    pub source_url: Option<String>,
    pub thumbnail: Option<String>,
    pub duration_secs: Option<u64>,
}

/// A length in seconds as `mm:ss`, each part at least two digits.
pub open spec fn duration_view(secs: nat) -> Seq<char> {
    pad2(secs / 60) + ":"@ + pad2(secs % 60)
}

/// Reads a length back from `mm:ss`: the digits before the colon count
/// minutes, the two digits after it seconds.
pub open spec fn read_duration(s: Seq<char>) -> nat {
    decimal_value(s.take(s.len() - 3)) * 60 + decimal_value(s.skip(s.len() - 2))
}

/// The line of every track ends with its length as `mm:ss`, the seconds in
/// exactly two digits, and reading that length back gives the track's
/// length in seconds.
pub proof fn lemma_line_shows_length(t: TrackMeta)
    ensures
        t.line_view().len() >= duration_view(t.secs as nat).len(),
        t.line_view().skip(t.line_view().len() - duration_view(t.secs as nat).len())
            == duration_view(t.secs as nat),
        pad2(t.secs as nat % 60).len() == 2,
        read_duration(duration_view(t.secs as nat)) == t.secs,
{
    let secs = t.secs as nat;
    let m = pad2(secs / 60);
    let ss = pad2(secs % 60);
    lemma_pad2_value(secs / 60);
    lemma_pad2_value(secs % 60);
    reveal_strlit(":");
    let d = duration_view(secs);
    assert(d.len() == m.len() + 3);
    assert(d.take(d.len() - 3) =~= m);
    assert(d.skip(d.len() - 2) =~= ss);
    let line = t.line_view();
    let prefix = "[**"@ + t.title@ + "**]("@ + t.url@ + ") - "@;
    assert(line =~= prefix + d);
    assert(line.skip(line.len() - d.len()) =~= d);
}

/// The markdown line describing a track: its title in bold linking to its
/// URL, then its length.
pub open spec fn track_line(title: Seq<char>, url: Seq<char>, secs: nat) -> Seq<char> {
    "[**"@ + title + "**]("@ + url + ") - "@ + duration_view(secs)
}

/// Every part that a track needs is present.
pub open spec fn info_complete(info: TrackInfo) -> bool {
    &&& info.title is Some
    &&& info.source_url is Some
    &&& info.thumbnail is Some
    &&& info.duration_secs is Some
}

/// The track that complete metadata describes.
pub open spec fn info_matches(info: TrackInfo, t: TrackMeta) -> bool {
    &&& info.title == Some(t.title)
    &&& info.source_url == Some(t.url)
    &&& info.thumbnail == Some(t.thumb)
    &&& info.duration_secs == Some(t.secs)
}

/// `r` is the green embed presenting `t` under `title` for `author`.
pub open spec fn is_track_embed(r: Reply, t: TrackMeta, author: Author, title: Seq<char>) -> bool {
    &&& r.title matches Some(s) && s@ == title
    &&& r.description@ == t.line_view()
    &&& r.color == Some(BRANDING_GREEN)
    &&& r.footer matches Some(f) && f.text@ == author.name@ && f.icon_url@ == author.icon_url@
    &&& r.image matches Some(i) && i@ == t.thumb@
    &&& r.select_menu is None
    &&& !r.ephemeral
}

impl TrackMeta {
    /// The line that describes this track.
    pub open spec fn line_view(&self) -> Seq<char> {
        track_line(self.title@, self.url@, self.secs as nat)
    }

    /// The line that describes this track, as its `Display` renders it.
    pub fn to_display_string(&self) -> (s: String)
        ensures
            s@ == self.line_view(),
    {
        let mut s = String::from_str("[**");
        s.append(self.title.as_str());
        s.append("**](");
        s.append(self.url.as_str());
        s.append(") - ");
        push_pad2(&mut s, self.secs / 60);
        s.append(":");
        push_pad2(&mut s, self.secs % 60);
        assert(s@ =~= self.line_view());
        s
    }

    /// The track that `info` describes, when nothing is missing from it.
    pub fn from_info(info: TrackInfo) -> (r: Result<TrackMeta, BotError>)
        ensures
            r is Ok <==> info_complete(info),
            r matches Ok(t) ==> info_matches(info, t),
            r matches Ok(t) ==> {
                &&& info.title == Some(t.title)
                &&& info.source_url == Some(t.url)
                &&& info.thumbnail == Some(t.thumb)
                &&& info.duration_secs == Some(t.secs)
            },
            r matches Err(e) ==> e == BotError::ParseFailed,
    {
        match (info.title, info.source_url, info.thumbnail, info.duration_secs) {
            (Some(title), Some(url), Some(thumb), Some(secs)) => Ok(
                TrackMeta { title, url, thumb, secs },
            ),
            _ => Err(BotError::ParseFailed),
        }
    }

    /// The green embed that presents this track under `title`, with the
    /// author in the footer and the thumbnail as image.
    pub fn to_embed(&self, author: &Author, title: &str) -> (r: Reply)
        ensures
            is_track_embed(r, *self, *author, title@),
    {
        Reply {
            title: Some(String::from_str(title)),
            description: self.to_display_string(),
            color: Some(branding_green()),
            footer: Some(Footer { text: author.name.clone(), icon_url: author.icon_url.clone() }),
            image: Some(self.thumb.clone()),
            select_menu: None,
            ephemeral: false,
        }
    }
}

/// The part of a guild that says who sits in which voice channel.
pub struct GuildVoice {
    /// The guild's id.
    pub id: u64,
    /// For each user with a voice state, the voice channel they are in, if any.
    pub voice_states: HashMap<u64, Option<u64>>,
}

/// The voice channel that `user` is in within `g`, if any.
pub open spec fn user_channel(g: GuildVoice, user: u64) -> Option<u64> {
    if g.voice_states@.contains_key(user) {
        g.voice_states@[user]
    } else {
        None
    }
}

/// The guild and the voice channel of the author, or why there are none.
pub open spec fn user_vcid_result(guild: Option<GuildVoice>, author: u64) -> Result<(u64, u64), BotError> {
    match guild {
        None => Err(BotError::NoGuild),
        Some(g) => match user_channel(g, author) {
            Some(c) => Ok((g.id, c)),
            None => Err(BotError::NotInVoiceChannel),
        },
    }
}

/// The id of the guild the command came from and the voice channel its
/// author is in.
pub fn get_gid_and_user_vcid(guild: Option<&GuildVoice>, author: u64) -> (r: Result<(u64, u64), BotError>)
    ensures
        r == user_vcid_result(match guild { Some(g) => Some(*g), None => None }, author),
        guild is None ==> r == Err::<(u64, u64), BotError>(BotError::NoGuild),
        forall|c: u64| guild is Some && guild.unwrap().voice_states@.contains_key(author)
            && #[trigger] guild.unwrap().voice_states@[author] == Some(c)
            ==> r == Ok::<(u64, u64), BotError>((guild.unwrap().id, c)),
        r matches Ok((gid, c)) ==> (guild is Some && gid == guild.unwrap().id
            && guild.unwrap().voice_states@.contains_key(author)
            && guild.unwrap().voice_states@[author] == Some(c)),
{
    match guild {
        None => Err(BotError::NoGuild),
        Some(g) => match g.voice_states.get(&author) {
            Some(Some(c)) => Ok((g.id, *c)),
            _ => Err(BotError::NotInVoiceChannel),
        },
    }
}

/// Like `get_gid_and_user_vcid`, and further the bot must be connected in
/// that guild (`bot_channel` is the channel its call is connected to) and
/// in the author's channel.
pub fn get_gid_and_match_vcid(guild: Option<&GuildVoice>, author: u64, bot_channel: Option<u64>) -> (r: Result<(u64, u64), BotError>)
    ensures
        match user_vcid_result(match guild { Some(g) => Some(*g), None => None }, author) {
            Err(e) => r == Err::<(u64, u64), BotError>(e),
            Ok((gid, ucid)) => match bot_channel {
                None => r == Err::<(u64, u64), BotError>(BotError::NotConnected),
                Some(b) => if b == ucid {
                    r == Ok::<(u64, u64), BotError>((gid, ucid))
                } else {
                    r == Err::<(u64, u64), BotError>(BotError::WrongChannel)
                },
            },
        },
{
    let (gid, ucid) = match get_gid_and_user_vcid(guild, author) {
        Ok(ids) => ids,
        Err(e) => return Err(e),
    };
    match bot_channel {
        None => Err(BotError::NotConnected),
        Some(b) => if b != ucid {
            Err(BotError::WrongChannel)
        } else {
            Ok((gid, ucid))
        },
    }
}


/// The line `"{n}: {track}"` that numbers the track at position `i` from one.
pub open spec fn numbered_line(i: nat, t: TrackMeta) -> Seq<char> {
    decimal(i + 1) + ": "@ + t.line_view()
}

/// The first `k` tracks of `ts`, numbered from one, one per line.
pub open spec fn numbered_listing(ts: Seq<TrackMeta>, k: nat) -> Seq<char>
    decreases k,
{
    if k == 0 {
        Seq::empty()
    } else if k == 1 {
        numbered_line(0, ts[0])
    } else {
        numbered_listing(ts, (k - 1) as nat) + "\n"@ + numbered_line((k - 1) as nat, ts[k - 1])
    }
}

/// The tracks numbered from one, one per line, as the search results and
/// the queue list them.
pub fn numbered_tracks(tracks: &Vec<TrackMeta>) -> (s: String)
    ensures
        s@ == numbered_listing(tracks@, tracks@.len()),
        tracks@.len() >= 1 && no_line_breaks(tracks@) ==> count_newlines(s@) == tracks@.len() - 1,
{
    proof {
        if tracks@.len() >= 1 && no_line_breaks(tracks@) {
            lemma_listing_line_breaks(tracks@, tracks@.len());
        }
    }
    let mut s = String::new();
    let mut i: usize = 0;
    while i < tracks.len()
        invariant
            i <= tracks@.len(),
            s@ == numbered_listing(tracks@, i as nat),
        decreases tracks@.len() - i,
    {
        if i > 0 {
            s.append("\n");
        }
        push_decimal(&mut s, (i + 1) as u64);
        s.append(": ");
        let line = tracks[i].to_display_string();
        s.append(line.as_str());
        assert(s@ =~= numbered_listing(tracks@, (i + 1) as nat));
        i = i + 1;
    }
    s
}


/// A track built from metadata keeps each of its parts unchanged: the
/// title, the URL, the thumbnail and the length in seconds, whatever they are.
pub proof fn lemma_track_keeps_metadata(info: TrackInfo, t: TrackMeta)
    requires
        info_matches(info, t),
    ensures
        info.title == Some(t.title),
        info.source_url == Some(t.url),
        info.thumbnail == Some(t.thumb),
        info.duration_secs == Some(t.secs),
        t.line_view() == "[**"@ + t.title@ + "**]("@ + t.url@ + ") - "@ + pad2(t.secs as nat / 60) + ":"@
            + pad2(t.secs as nat % 60),
{
}

/// The author's voice channel is returned exactly as the guild stores it,
/// whatever its value; and when the bot sits in that same channel the
/// channel check passes with the same ids.
pub proof fn lemma_user_channel_exact(g: GuildVoice, author: u64, c: u64)
    requires
        g.voice_states@.contains_key(author),
        g.voice_states@[author] == Some(c),
    ensures
        user_vcid_result(Some(g), author) == Ok::<(u64, u64), BotError>((g.id, c)),
{
}

/// The number of line breaks (`'\n'`, code point 10) in `s`.
pub open spec fn count_newlines(s: Seq<char>) -> nat
    decreases s.len(),
{
    if s.len() == 0 {
        0
    } else {
        count_newlines(s.drop_last()) + if (s.last() as u32) == 10 { 1nat } else { 0nat }
    }
}

/// Line breaks of a concatenation add up.
pub proof fn lemma_count_newlines_add(a: Seq<char>, b: Seq<char>)
    ensures
        count_newlines(a + b) == count_newlines(a) + count_newlines(b),
    decreases b.len(),
{
    if b.len() == 0 {
        assert(a + b =~= a);
    } else {
        lemma_count_newlines_add(a, b.drop_last());
        assert((a + b).drop_last() =~= a + b.drop_last());
        assert((a + b).last() == b.last());
    }
}

/// A decimal number holds no line break.
proof fn lemma_decimal_no_newline(n: nat)
    ensures
        count_newlines(decimal(n)) == 0,
    decreases n,
{
    assert(decimal(n).last() == crate::utils::decimal::digit_char(n % 10));
    assert((crate::utils::decimal::digit_char(n % 10) as u32) == 48 + n % 10);
    if n >= 10 {
        lemma_decimal_no_newline(n / 10);
        assert(decimal(n).drop_last() =~= decimal(n / 10));
    } else {
        assert(count_newlines(Seq::<char>::empty()) == 0);
        assert(decimal(n).drop_last() =~= Seq::<char>::empty());
    }
    assert(count_newlines(decimal(n)) == count_newlines(decimal(n).drop_last()) + 0);
}

/// A track's line holds as many line breaks as its title and URL do.
proof fn lemma_line_newlines(t: TrackMeta)
    ensures
        count_newlines(t.line_view()) == count_newlines(t.title@) + count_newlines(t.url@),
{
    reveal_strlit("[**");
    reveal_strlit("**](");
    reveal_strlit(") - ");
    reveal_strlit(":");
    reveal_strlit("0");
    let m = t.secs as nat / 60;
    let s = t.secs as nat % 60;
    lemma_decimal_no_newline(m);
    lemma_decimal_no_newline(s);
    assert(count_newlines(seq!['0']) == 0) by {
        assert(count_newlines(Seq::<char>::empty()) == 0);
        assert(seq!['0'].len() == 1);
        assert(seq!['0'].drop_last() =~= Seq::<char>::empty());
        assert(count_newlines(seq!['0']) == count_newlines(seq!['0'].drop_last()) + 0);
        assert((seq!['0'].last() as u32) == 48);
    }
    lemma_count_newlines_add(seq!['0'], decimal(m));
    lemma_count_newlines_add(seq!['0'], decimal(s));
    assert(count_newlines(pad2(m)) == 0);
    assert(count_newlines(pad2(s)) == 0);
    assert(count_newlines("[**"@) == 0) by {
        reveal_with_fuel(count_newlines, 4);
    }
    assert(count_newlines("**]("@) == 0) by {
        reveal_with_fuel(count_newlines, 5);
    }
    assert(count_newlines(") - "@) == 0) by {
        reveal_with_fuel(count_newlines, 5);
    }
    assert(count_newlines(":"@) == 0) by {
        reveal_with_fuel(count_newlines, 2);
    }
    let p1 = "[**"@ + t.title@;
    let p2 = p1 + "**]("@;
    let p3 = p2 + t.url@;
    let p4 = p3 + ") - "@;
    let p5 = p4 + pad2(m);
    let p6 = p5 + ":"@;
    lemma_count_newlines_add("[**"@, t.title@);
    lemma_count_newlines_add(p1, "**]("@);
    lemma_count_newlines_add(p2, t.url@);
    lemma_count_newlines_add(p3, ") - "@);
    lemma_count_newlines_add(p4, pad2(m));
    lemma_count_newlines_add(p5, ":"@);
    lemma_count_newlines_add(p6, pad2(s));
    assert(t.line_view() =~= p6 + pad2(s));
}

/// Each further track adds one line: past the first, the listing of `k + 1`
/// tracks is that of `k` tracks, one line break, the number `k + 1`, `": "`
/// and the track's line.
pub proof fn lemma_listing_adds_one_line(ts: Seq<TrackMeta>, k: nat)
    requires
        1 <= k < ts.len(),
    ensures
        numbered_listing(ts, k + 1) == numbered_listing(ts, k) + "\n"@ + decimal(k + 1) + ": "@
            + track_line(ts[k as int].title@, ts[k as int].url@, ts[k as int].secs as nat),
        numbered_listing(ts, 1) == decimal(1) + ": "@ + track_line(ts[0].title@, ts[0].url@, ts[0].secs as nat),
{
}

/// No title or URL of `ts` holds a line break.
pub open spec fn no_line_breaks(ts: Seq<TrackMeta>) -> bool {
    forall|j: int| 0 <= j < ts.len() ==> count_newlines(#[trigger] ts[j].title@) == 0
        && count_newlines(ts[j].url@) == 0
}

/// When no title or URL holds a line break, the listing of `k` tracks has
/// exactly `k - 1` line breaks: one between each two consecutive tracks.
pub proof fn lemma_listing_line_breaks(ts: Seq<TrackMeta>, k: nat)
    requires
        1 <= k <= ts.len(),
        no_line_breaks(ts),
    ensures
        count_newlines(numbered_listing(ts, k)) == k - 1,
    decreases k,
{
    reveal_strlit(": ");
    reveal_strlit("\n");
    assert(count_newlines(": "@) == 0) by {
        reveal_with_fuel(count_newlines, 3);
    }
    assert(count_newlines("\n"@) == 1) by {
        assert(count_newlines(Seq::<char>::empty()) == 0);
        assert("\n"@.len() == 1);
        assert("\n"@.drop_last() =~= Seq::<char>::empty());
        assert(("\n"@.last() as u32) == 10);
        assert(count_newlines("\n"@) == count_newlines("\n"@.drop_last()) + 1);
    }
    let i = (k - 1) as nat;
    let t = ts[i as int];
    lemma_line_newlines(t);
    lemma_decimal_no_newline(i + 1);
    lemma_count_newlines_add(decimal(i + 1), ": "@);
    lemma_count_newlines_add(decimal(i + 1) + ": "@, t.line_view());
    assert(count_newlines(numbered_line(i, t)) == 0);
    if k > 1 {
        lemma_listing_line_breaks(ts, i);
        let prev = numbered_listing(ts, i);
        lemma_count_newlines_add(prev, "\n"@);
        lemma_count_newlines_add(prev + "\n"@, numbered_line(i, t));
    }
}

} // verus!
