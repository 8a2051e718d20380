//! The `/purge` command and the bot's spam channel.

use vstd::prelude::*;

use crate::text::{
    append_decimal, append_str, contains_seq, contains_str, decimal, lowercase, owned, str_eq,
    to_lowercase,
};

verus! {

/// Most messages one purge looks at.
pub const PURGE_LIMIT: u8 = 100;

/// Messages this many days old or older are left alone.
pub const MAX_PURGE_DAYS: i64 = 14;

/// Name of the channel where the bot reports what it did.
pub const SPAM_CHANNEL_NAME: &'static str = "botspam";

/// A message a purge may delete: its id, the whole days from now to when it
/// was sent (negative for the past, as `TimeDelta::num_days` counts them), and
/// its text.
pub struct PurgeCandidate {
    pub id: u64,
    pub days: i64,
    pub content: String,
}

/// Whether a purge for `needle` (already lowercase) deletes `m`: it is less
/// than [`MAX_PURGE_DAYS`] days old and its lowercase text contains `needle`.
pub open spec fn purges(m: PurgeCandidate, needle: Seq<char>) -> bool {
    -m.days < MAX_PURGE_DAYS && contains_seq(lowercase(m.content@), needle)
}

/// The ids of the messages a purge for `needle` deletes, in order.
pub open spec fn purged_ids(ms: Seq<PurgeCandidate>, needle: Seq<char>) -> Seq<u64>
    decreases ms.len(),
{
    if ms.len() == 0 {
        seq![]
    } else {
        let rest = purged_ids(ms.drop_last(), needle);
        if purges(ms.last(), needle) {
            rest.push(ms.last().id)
        } else {
            rest
        }
    }
}

/// Whether `id` is the id of a message of `ms` less than [`MAX_PURGE_DAYS`]
/// days old whose lowercase text contains `needle`.
pub open spec fn recent_match_id(ms: Seq<PurgeCandidate>, needle: Seq<char>, id: u64) -> bool {
    exists|i: int|
        #![trigger ms[i]]
        0 <= i < ms.len() && ms[i].id == id && -ms[i].days < MAX_PURGE_DAYS && contains_seq(
            lowercase(ms[i].content@),
            needle,
        )
}

/// Where the `k`-th id a purge picks comes from: a message of `ms` less than
/// [`MAX_PURGE_DAYS`] days old whose lowercase text contains `needle`.
proof fn lemma_purged_source(ms: Seq<PurgeCandidate>, needle: Seq<char>, k: int) -> (i: int)
    requires
        0 <= k < purged_ids(ms, needle).len(),
    ensures
        0 <= i < ms.len(),
        ms[i].id == purged_ids(ms, needle)[k],
        -ms[i].days < MAX_PURGE_DAYS,
        contains_seq(lowercase(ms[i].content@), needle),
    decreases ms.len(),
{
    let init = ms.drop_last();
    let ri = purged_ids(init, needle);
    if k < ri.len() {
        let i = lemma_purged_source(init, needle, k);
        assert(ms[i] == init[i]);
        i
    } else {
        assert(ms[ms.len() - 1] == ms.last());
        ms.len() - 1
    }
}

/// A purge for `needle` picks ids of its messages only, each of a message
/// less than [`MAX_PURGE_DAYS`] days old whose lowercase text contains
/// `needle`; and it picks the id of every such message. No older message is
/// ever picked, and no more ids than messages.
pub proof fn lemma_purge_selection(ms: Seq<PurgeCandidate>, needle: Seq<char>)
    ensures
        purged_ids(ms, needle).len() <= ms.len(),
        forall|k: int|
            0 <= k < purged_ids(ms, needle).len() ==> #[trigger] recent_match_id(
                ms,
                needle,
                purged_ids(ms, needle)[k],
            ),
        forall|i: int|
            0 <= i < ms.len() && -ms[i].days < MAX_PURGE_DAYS && contains_seq(
                lowercase(ms[i].content@),
                needle,
            ) ==> purged_ids(ms, needle).contains(#[trigger] ms[i].id),
    decreases ms.len(),
{
    assert forall|k: int| 0 <= k < purged_ids(ms, needle).len() implies #[trigger] recent_match_id(
        ms,
        needle,
        purged_ids(ms, needle)[k],
    ) by {
        let i = lemma_purged_source(ms, needle, k);
        assert(ms[i].id == purged_ids(ms, needle)[k]);
    }
    if ms.len() > 0 {
        let init = ms.drop_last();
        lemma_purge_selection(init, needle);
        let r = purged_ids(ms, needle);
        let ri = purged_ids(init, needle);
        assert forall|i: int|
            0 <= i < ms.len() && -ms[i].days < MAX_PURGE_DAYS && contains_seq(
                lowercase(ms[i].content@),
                needle,
            ) implies r.contains(#[trigger] ms[i].id) by {
            if i < ms.len() - 1 {
                assert(init[i] == ms[i]);
                assert(ri.contains(init[i].id));
                let j = choose|j: int| 0 <= j < ri.len() && ri[j] == init[i].id;
                assert(r[j] == ri[j]);
            } else {
                assert(ms[i] == ms.last());
                assert(r[r.len() - 1] == ms.last().id);
            }
        }
    }
}

/// The ids of the messages among `messages` that contain `text`, ignoring
/// case, and are less than [`MAX_PURGE_DAYS`] days old.
pub fn select_purge(messages: &Vec<PurgeCandidate>, text: &str) -> (ids: Vec<u64>)
    requires
        forall|i: int| 0 <= i < messages@.len() ==> #[trigger] messages@[i].days > i64::MIN,
    ensures
        ids@ == purged_ids(messages@, lowercase(text@)),
{
    let text_lower = to_lowercase(text);
    let mut ids: Vec<u64> = Vec::new();
    let mut i: usize = 0;
    while i < messages.len()
        invariant
            i <= messages@.len(),
            text_lower@ == lowercase(text@),
            forall|k: int| 0 <= k < messages@.len() ==> #[trigger] messages@[k].days > i64::MIN,
            ids@ == purged_ids(messages@.take(i as int), lowercase(text@)),
        decreases messages@.len() - i,
    {
        assert(messages@.take(i + 1).drop_last() =~= messages@.take(i as int));
        let m = &messages[i];
        if -m.days < MAX_PURGE_DAYS && contains_str(to_lowercase(m.content.as_str()).as_str(), text_lower.as_str()) {
            ids.push(m.id);
        }
        i = i + 1;
    }
    assert(messages@.take(i as int) =~= messages@);
    ids
}

/// The report of a purge posted to the spam channel.
pub open spec fn purge_report_text(user: Seq<char>, count: nat, text: Seq<char>, channel: Seq<char>) -> Seq<char> {
    "User '"@ + user + "' purged "@ + decimal(count) + " message(s) containing \""@ + text
        + "\" from channel '"@ + channel + "'"@
}

/// Exec form of [`purge_report_text`].
pub fn purge_report(user: &str, count: usize, text: &str, channel: &str) -> (s: String)
    ensures
        s@ == purge_report_text(user@, count as nat, text@, channel@),
{
    let mut s = owned("User '");
    append_str(&mut s, user);
    append_str(&mut s, "' purged ");
    append_decimal(&mut s, count as u64);
    append_str(&mut s, " message(s) containing \"");
    append_str(&mut s, text);
    append_str(&mut s, "\" from channel '");
    append_str(&mut s, channel);
    append_str(&mut s, "'");
    s
}

/// The reply to the user who purged.
pub fn purge_reply(count: usize) -> (s: String)
    ensures
        s@ == decimal(count as nat) + " message(s) purged"@,
{
    let mut s = crate::text::u64_to_decimal(count as u64);
    append_str(&mut s, " message(s) purged");
    s
}

/// The id of the first channel named `name`.
pub open spec fn first_channel_named(channels: Seq<(u64, String)>, name: Seq<char>) -> Option<u64>
    decreases channels.len(),
{
    if channels.len() == 0 {
        None
    } else if channels[0].1@ == name {
        Some(channels[0].0)
    } else {
        first_channel_named(channels.skip(1), name)
    }
}

/// Finds the first channel named `name` among `(id, name)` pairs.
pub fn channel_id_from_name(channels: &Vec<(u64, String)>, name: &str) -> (r: Option<u64>)
    ensures
        r == first_channel_named(channels@, name@),
{
    let mut i: usize = 0;
    assert(channels@.skip(0) =~= channels@);
    while i < channels.len()
        invariant
            i <= channels@.len(),
            first_channel_named(channels@, name@) == first_channel_named(
                channels@.skip(i as int),
                name@,
            ),
        decreases channels@.len() - i,
    {
        assert(channels@.skip(i as int)[0] == channels@[i as int]);
        assert(channels@.skip(i as int).skip(1) =~= channels@.skip(i + 1));
        if str_eq(channels[i].1.as_str(), name) {
            return Some(channels[i].0);
        }
        i = i + 1;
    }
    None
}

} // verus!
