//! Decisions the bot takes on Discord events: the message lottery, random
//! reactions, and voice state changes.

use vstd::prelude::*;

use crate::bot::{user_mention, BotError};
use crate::chance::{random_between, sample_positions, shuffle_positions};
use crate::database::Picture;
use crate::text::{append_decimal, append_str, decimal, owned, u64_to_decimal};

verus! {

/// Fewest emojis a reaction uses, when the guild has that many.
pub const REACTION_COUNT_MIN: usize = 5;

/// Most emojis a reaction uses.
pub const REACTION_COUNT_MAX: usize = 20;

/// Whether a draw wins: only a draw of zero does.
pub open spec fn wins(draw: u64) -> bool {
    draw == 0
}

/// Exec form of [`wins`].
pub fn draw_hits(draw: u64) -> (hit: bool)
    ensures
        hit == wins(draw),
{
    draw == 0
}

/// Draws a number from `0..odds` and says whether it is zero: something that
/// happens once in `odds` draws (`random_range(0..odds) == 0`). Which number
/// is drawn is left to chance.
pub fn one_in(odds: u32) -> (hit: bool)
    requires
        odds >= 1,
    ensures
        exists|draw: u64| draw < odds && hit == #[trigger] wins(draw),
        odds == 1 ==> hit,
{
    let draw = random_between(0, (odds - 1) as u64);
    draw_hits(draw)
}

/// The message announcing that user `user_id` won the lottery.
pub fn lottery_message(user_id: u64, odds: u32) -> (s: String)
    ensures
        s@ == user_mention(user_id) + " won the lottery with 1/"@ + decimal(odds as nat)
            + " odds!"@,
{
    let mut s = crate::bot::mention_user(user_id);
    append_str(&mut s, " won the lottery with 1/");
    append_decimal(&mut s, odds as u64);
    append_str(&mut s, " odds!");
    s
}

/// What the lottery does with a new message.
pub enum LotteryStart {
    /// Nothing: the author is a bot, the draw lost, or there is no guild.
    Ignore,
    /// The author won: fetch a random picture of the guild, of the given
    /// explicitness.
    FetchPicture { guild_id: String, is_nsfw: Option<bool> },
}

/// What the lottery does once the draw is known: a message by a bot or not
/// (`author_is_bot`), whose draw won when `hit`, in the guild `guild_id` if
/// any. Only a human's winning message in a guild fetches a picture, which
/// must not be explicit.
pub fn lottery_decide(author_is_bot: bool, hit: bool, guild_id: Option<u64>) -> (r: LotteryStart)
    ensures
        (r is FetchPicture) <==> (!author_is_bot && hit && guild_id is Some),
        r matches LotteryStart::FetchPicture { guild_id: g, is_nsfw } ==> guild_id matches Some(
            id,
        ) && g@ == decimal(id as nat) && is_nsfw == Some(false),
{
    if author_is_bot || !hit {
        return LotteryStart::Ignore;
    }
    match guild_id {
        Some(id) => LotteryStart::FetchPicture { guild_id: u64_to_decimal(id), is_nsfw: Some(false) },
        None => LotteryStart::Ignore,
    }
}

/// The lottery's first step for a message by a bot or not (`author_is_bot`),
/// in the guild `guild_id` if any, with one chance in `odds` to win: bots
/// never play, and a win outside a guild has no picture to show.
pub fn lottery_start(author_is_bot: bool, odds: u32, guild_id: Option<u64>) -> (r: LotteryStart)
    requires
        odds >= 1,
    ensures
        author_is_bot || guild_id is None ==> r is Ignore,
        r matches LotteryStart::FetchPicture { guild_id: g, is_nsfw } ==> guild_id matches Some(
            id,
        ) && g@ == decimal(id as nat) && is_nsfw == Some(false),
        !author_is_bot && guild_id is Some ==> exists|draw: u64|
            draw < odds && (r is FetchPicture) == #[trigger] wins(draw),
        !author_is_bot && guild_id is Some && odds == 1 ==> r is FetchPicture,
{
    if author_is_bot {
        return lottery_decide(author_is_bot, false, guild_id);
    }
    let hit = one_in(odds);
    lottery_decide(author_is_bot, hit, guild_id)
}

/// The post announcing a lottery win: a picture with a title, and a message.
pub struct LotteryPost {
    pub title: String,
    pub image_url: String,
    pub content: String,
}

/// The post announcing that `user_id` won at `odds`, showing `picture`; none
/// when the guild has no picture to show.
pub fn lottery_post(picture: Option<Picture>, user_id: u64, odds: u32) -> (r: Option<LotteryPost>)
    ensures
        picture is None <==> r is None,
        picture matches Some(p) ==> r matches Some(post) && post.title@ == "Congratulations!"@
            && post.image_url == p.url && post.content@ == user_mention(user_id)
            + " won the lottery with 1/"@ + decimal(odds as nat) + " odds!"@,
{
    match picture {
        Some(p) => Some(
            LotteryPost {
                title: owned("Congratulations!"),
                image_url: p.url,
                content: lottery_message(user_id, odds),
            },
        ),
        None => None,
    }
}

/// Whether `user_id` is one of the users the bot reacts to.
pub fn is_reaction_target(targets: &Vec<u64>, user_id: u64) -> (b: bool)
    ensures
        b == targets@.contains(user_id),
{
    let mut i: usize = 0;
    while i < targets.len()
        invariant
            i <= targets@.len(),
            forall|k: int| 0 <= k < i ==> targets@[k] != user_id,
        decreases targets@.len() - i,
    {
        if targets[i] == user_id {
            assert(targets@[i as int] == user_id);
            return true;
        }
        i = i + 1;
    }
    false
}

/// Whether a message gets reactions once the draw is known: its author is a
/// target (`is_target`), its draw won (`hit`), and it was sent in the guild
/// `guild_id`, whose emojis are then read.
pub fn reaction_decide(is_target: bool, hit: bool, guild_id: Option<u64>) -> (r: Option<u64>)
    ensures
        r is Some <==> (is_target && hit && guild_id is Some),
        r is Some ==> r == guild_id,
{
    if is_target && hit {
        guild_id
    } else {
        None
    }
}

/// The guild whose emojis to react with for a message by `user_id` in the
/// guild `guild_id` (if any), or `None` when the bot does not react: only
/// messages of `targets` can get reactions, once in `odds`.
pub fn reaction_start(targets: &Vec<u64>, user_id: u64, odds: u32, guild_id: Option<u64>) -> (r: Option<u64>)
    requires
        odds >= 1,
    ensures
        !targets@.contains(user_id) || guild_id is None ==> r is None,
        r is Some ==> r == guild_id,
        targets@.contains(user_id) && guild_id is Some ==> exists|draw: u64|
            draw < odds && (r is Some) == #[trigger] wins(draw),
        targets@.contains(user_id) && guild_id is Some && odds == 1 ==> r is Some,
{
    if !is_reaction_target(targets, user_id) {
        return reaction_decide(false, false, guild_id);
    }
    let hit = one_in(odds);
    reaction_decide(true, hit, guild_id)
}

/// How many emojis a reaction may use out of `emoji_count`: at least
/// [`REACTION_COUNT_MIN`] and at most [`REACTION_COUNT_MAX`], and never more
/// than there are.
pub fn reaction_count_bounds(emoji_count: usize) -> (r: (usize, usize))
    ensures
        r.0 == min_count(emoji_count as nat, REACTION_COUNT_MIN as nat),
        r.1 == min_count(emoji_count as nat, REACTION_COUNT_MAX as nat),
{
    let low = if emoji_count < REACTION_COUNT_MIN {
        emoji_count
    } else {
        REACTION_COUNT_MIN
    };
    let high = if emoji_count < REACTION_COUNT_MAX {
        emoji_count
    } else {
        REACTION_COUNT_MAX
    };
    (low, high)
}

/// The smaller of two counts.
pub open spec fn min_count(a: nat, b: nat) -> nat {
    if a < b {
        a
    } else {
        b
    }
}

/// Picks which of `emoji_count` emojis to react with, in the order to use
/// them: between [`REACTION_COUNT_MIN`] and [`REACTION_COUNT_MAX`] distinct
/// emojis, or all of them when there are fewer.
pub fn choose_reactions(emoji_count: usize) -> (picks: Vec<usize>)
    ensures
        min_count(emoji_count as nat, REACTION_COUNT_MIN as nat) <= picks@.len() <= min_count(
            emoji_count as nat,
            REACTION_COUNT_MAX as nat,
        ),
        forall|i: int| 0 <= i < picks@.len() ==> picks@[i] < emoji_count,
        forall|i: int, j: int| 0 <= i < j < picks@.len() ==> picks@[i] != picks@[j],
{
    let (low, high) = reaction_count_bounds(emoji_count);
    let count = random_between(low as u64, high as u64) as usize;
    let mut picks = sample_positions(emoji_count, count);
    let ghost before = picks@;
    shuffle_positions(&mut picks);
    proof {
        broadcast use vstd::seq_lib::group_seq_properties;

        assert forall|i: int| 0 <= i < picks@.len() implies picks@[i] < emoji_count by {
            assert(picks@.to_multiset().count(picks@[i]) > 0);
            assert(before.to_multiset().count(picks@[i]) > 0);
            assert(before.contains(picks@[i]));
        }
        assert forall|i: int, j: int| 0 <= i < j < picks@.len() implies picks@[i] != picks@[j] by {
            if picks@[i] == picks@[j] {
                lemma_count_two(picks@, i, j);
                lemma_distinct_count(before, picks@[i]);
            }
        }
    }
    picks
}

/// A value at two positions of a sequence occurs at least twice in it.
proof fn lemma_count_two(s: Seq<usize>, i: int, j: int)
    requires
        0 <= i < j < s.len(),
        s[i] == s[j],
    ensures
        s.to_multiset().count(s[i]) >= 2,
    decreases s.len(),
{
    broadcast use vstd::seq_lib::group_seq_properties, vstd::multiset::group_multiset_axioms;

    let v = s[i];
    let init = s.drop_last();
    assert(s =~= init.push(s.last()));
    vstd::seq_lib::to_multiset_build(init, s.last());
    if j < s.len() - 1 {
        assert(init[i] == v && init[j] == v);
        lemma_count_two(init, i, j);
    } else {
        assert(init[i] == v);
        assert(init.contains(v));
        vstd::seq_lib::to_multiset_contains(init, v);
    }
}

/// In a sequence without repeats, each value occurs at most once.
proof fn lemma_distinct_count(s: Seq<usize>, v: usize)
    requires
        forall|i: int, j: int| 0 <= i < j < s.len() ==> s[i] != s[j],
    ensures
        s.to_multiset().count(v) <= 1,
    decreases s.len(),
{
    broadcast use vstd::seq_lib::group_seq_properties, vstd::multiset::group_multiset_axioms;

    if s.len() == 0 {
        assert(s.to_multiset() =~= vstd::multiset::Multiset::<usize>::empty());
    } else {
        let init = s.drop_last();
        assert(s =~= init.push(s.last()));
        vstd::seq_lib::to_multiset_build(init, s.last());
        lemma_distinct_count(init, v);
        if s.last() == v {
            assert(!init.contains(v)) by {
                if init.contains(v) {
                    let k = choose|k: int| 0 <= k < init.len() && init[k] == v;
                    assert(s[k] == s[s.len() - 1]);
                }
            }
            vstd::seq_lib::to_multiset_contains(init, v);
        }
    }
}

/// What the bot does when a voice state changes.
#[derive(Clone, Copy, PartialEq, Eq, Structural)]
pub enum VoiceUpdate {
    /// Nothing: someone joined a channel, or the change was not the bot's.
    Ignore,
    /// The bot was moved to another channel.
    BotMoved,
    /// The bot was disconnected: leave the call in this guild.
    LeaveCall { guild_id: u64 },
}

/// Decides what a voice state change means for the bot. `old_state` is the
/// previous state, if any, with its guild; `member_id` the member the new
/// state is of, if known; `new_channel` the channel of the new state.
pub fn voice_state_update(
    old_state: Option<Option<u64>>,
    member_id: Option<u64>,
    bot_id: u64,
    new_channel: Option<u64>,
) -> (r: Result<VoiceUpdate, BotError>)
    ensures
        match (old_state, member_id) {
            (Some(old_guild), Some(member)) => if member != bot_id {
                r matches Ok(VoiceUpdate::Ignore)
            } else if new_channel is Some {
                r matches Ok(VoiceUpdate::BotMoved)
            } else {
                match old_guild {
                    Some(g) => r == Ok::<VoiceUpdate, BotError>(VoiceUpdate::LeaveCall { guild_id: g }),
                    None => r matches Err(BotError::InvalidGuild),
                }
            },
            _ => r matches Ok(VoiceUpdate::Ignore),
        },
{
    let Some(old_guild) = old_state else {
        return Ok(VoiceUpdate::Ignore);
    };
    let member = match member_id {
        Some(m) => m,
        None => return Ok(VoiceUpdate::Ignore),
    };
    if member != bot_id {
        return Ok(VoiceUpdate::Ignore);
    }
    if new_channel.is_some() {
        return Ok(VoiceUpdate::BotMoved);
    }
    match old_guild {
        Some(guild_id) => Ok(VoiceUpdate::LeaveCall { guild_id }),
        None => Err(BotError::InvalidGuild),
    }
}

} // verus!
