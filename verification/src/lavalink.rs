//! Music through a Lavalink node: what a request asks the node for, and the
//! messages about the tracks it plays.

use vstd::prelude::*;

use crate::text::{append_decimal, append_str, chars_of, decimal, owned, str_eq};

verus! {

/// `s` starts with `prefix`.
pub open spec fn starts_with(s: Seq<char>, prefix: Seq<char>) -> bool {
    prefix.len() <= s.len() && s.subrange(0, prefix.len() as int) == prefix
}

/// What a `play` request asks the node for.
pub enum TrackQuery {
    /// Load the track at this link.
    Link(String),
    /// Search YouTube for this text.
    YoutubeSearch(String),
}

/// The query for a request: links (text starting with `http`) are loaded as
/// they are, anything else is searched for.
pub fn track_query(term: String) -> (q: TrackQuery)
    ensures
        starts_with(term@, "http"@) ==> q == TrackQuery::Link(term),
        !starts_with(term@, "http"@) ==> q == TrackQuery::YoutubeSearch(term),
{
    let v = chars_of(term.as_str());
    let matched = v.len() >= 4 && v[0] == 'h' && v[1] == 't' && v[2] == 't' && v[3] == 'p';
    proof {
        reveal_strlit("http");
        if matched {
            assert(term@.subrange(0, 4) =~= "http"@);
        } else if term@.len() >= 4 {
            assert(term@.subrange(0, 4)[0] == term@[0]);
            assert(term@.subrange(0, 4)[1] == term@[1]);
            assert(term@.subrange(0, 4)[2] == term@[2]);
            assert(term@.subrange(0, 4)[3] == term@[3]);
        }
    }
    if matched {
        TrackQuery::Link(term)
    } else {
        TrackQuery::YoutubeSearch(term)
    }
}

/// `author - title`, as a link to `uri` when there is one.
pub open spec fn track_label(author: Seq<char>, title: Seq<char>, uri: Option<Seq<char>>) -> Seq<
    char,
> {
    match uri {
        Some(u) => "["@ + author + " - "@ + title + "](<"@ + u + ">)"@,
        None => author + " - "@ + title,
    }
}

/// Exec form of [`track_label`], appended to `s`.
fn append_track_label(s: &mut String, author: &str, title: &str, uri: Option<&str>)
    ensures
        final(s)@ == old(s)@ + track_label(
            author@,
            title@,
            match uri {
                Some(u) => Some(u@),
                None => None,
            },
        ),
{
    match uri {
        Some(u) => {
            append_str(s, "[");
            append_str(s, author);
            append_str(s, " - ");
            append_str(s, title);
            append_str(s, "](<");
            append_str(s, u);
            append_str(s, ">)");
        },
        None => {
            append_str(s, author);
            append_str(s, " - ");
            append_str(s, title);
        },
    }
}

/// The message when a track is queued.
pub fn added_track_message(author: &str, title: &str, uri: Option<&str>) -> (s: String)
    ensures
        s@ == "Added to queue: "@ + track_label(
            author@,
            title@,
            match uri {
                Some(u) => Some(u@),
                None => None,
            },
        ),
{
    let mut s = owned("Added to queue: ");
    append_track_label(&mut s, author, title, uri);
    s
}

/// The message when the playlist `name` is queued.
pub fn added_playlist_message(name: &str) -> (s: String)
    ensures
        s@ == "Added playlist to queue: "@ + name@,
{
    let mut s = owned("Added playlist to queue: ");
    append_str(&mut s, name);
    s
}

/// The message when a track starts, asked for by `requester`.
pub fn now_playing_message(author: &str, title: &str, uri: Option<&str>, requester: &str) -> (s:
    String)
    ensures
        s@ == "Now playing: "@ + track_label(
            author@,
            title@,
            match uri {
                Some(u) => Some(u@),
                None => None,
            },
        ) + " | Requested by <@!"@ + requester@ + ">"@,
{
    let mut s = owned("Now playing: ");
    append_track_label(&mut s, author, title, uri);
    append_str(&mut s, " | Requested by <@!");
    append_str(&mut s, requester);
    append_str(&mut s, ">");
    s
}

/// The message once the bot joined the voice channel `channel_id`.
pub fn joined_message(channel_id: u64) -> (s: String)
    ensures
        s@ == "Joined <#"@ + decimal(channel_id as nat) + ">"@,
{
    let mut s = owned("Joined <#");
    append_decimal(&mut s, channel_id);
    append_str(&mut s, ">");
    s
}

/// Whether a raw node message with operation `op` is logged: events and
/// player updates are.
pub fn is_logged_op(op: Option<&str>) -> (b: bool)
    ensures
        b == (op matches Some(o) && (o@ == "event"@ || o@ == "playerUpdate"@)),
{
    match op {
        Some(o) => str_eq(o, "event") || str_eq(o, "playerUpdate"),
        None => false,
    }
}

} // verus!
