//! The `/roll` command: reading dice such as `2d20` and rolling them.

use vstd::prelude::*;

use crate::bot::BotError;
use crate::chance::random_between;
use crate::text::{
    all_digits, append_decimal, append_str, chars_of, copy_range, decimal, digits_value,
    index_of_or_len, is_ascii_digit, lemma_index_of, owned, parse_bounded, parse_chars_bounded,
    unsigned_body,
};

verus! {

/// Most dice one roll may throw.
pub const MAX_ROLLS: u32 = 50;

/// Sides of the die thrown when none is given.
pub const DEFAULT_ROLL: u32 = 100;

/// Colour of the embed that shows a dice roll.
pub const EMBED_COLOR: u32 = 0x00FFBA;

/// A number of dice, each with the same number of sides.
#[derive(Clone, Copy, Debug, PartialEq, Eq, Structural)]
pub struct DiceRoll {
    pub count: u32,
    pub sides: u32,
}

/// The two digit runs of `XdY`, as the pattern `^([0-9]+)d([0-9]+)$` captures
/// them.
pub open spec fn dice_fields(s: Seq<char>) -> Option<(Seq<char>, Seq<char>)> {
    let k = index_of_or_len(s, 'd');
    let count = s.take(k as int);
    let sides = s.skip(k + 1 as int);
    if k < s.len() && count.len() > 0 && all_digits(count) && sides.len() > 0 && all_digits(
        sides,
    ) {
        Some((count, sides))
    } else {
        None
    }
}

/// The dice that `s` asks for: `XdY` with `1 <= X <= MAX_ROLLS` and
/// `1 <= Y`, `Y` fitting in a `u32`.
pub open spec fn parse_dice(s: Seq<char>) -> Option<DiceRoll> {
    match dice_fields(s) {
        Some((c, d)) => {
            let count = digits_value(c);
            let sides = digits_value(d);
            if 1 <= count <= MAX_ROLLS && 1 <= sides <= u32::MAX {
                Some(DiceRoll { count: count as u32, sides: sides as u32 })
            } else {
                None
            }
        },
        None => None,
    }
}

/// Whether `v[from..to]` consists of ASCII digits.
fn digits_only(v: &Vec<char>, from: usize, to: usize) -> (b: bool)
    requires
        from <= to <= v@.len(),
    ensures
        b == all_digits(v@.subrange(from as int, to as int)),
{
    let mut i = from;
    while i < to
        invariant
            from <= i <= to <= v@.len(),
            forall|m: int| from <= m < i ==> is_ascii_digit(v@[m]),
        decreases to - i,
    {
        if !('0' <= v[i] && v[i] <= '9') {
            assert(!is_ascii_digit(v@.subrange(from as int, to as int)[i - from]));
            return false;
        }
        i = i + 1;
    }
    assert forall|m: int| 0 <= m < to - from implies #[trigger] is_ascii_digit(
        v@.subrange(from as int, to as int)[m],
    ) by {
        assert(v@.subrange(from as int, to as int)[m] == v@[from + m]);
    }
    true
}

/// Reads digits `v[from..to]` as a `u32`.
fn digits_u32(v: &Vec<char>, from: usize, to: usize) -> (r: Option<u32>)
    requires
        from < to <= v@.len(),
        all_digits(v@.subrange(from as int, to as int)),
    ensures
        match r {
            Some(n) => digits_value(v@.subrange(from as int, to as int)) == n as nat,
            None => digits_value(v@.subrange(from as int, to as int)) > u32::MAX,
        },
{
    let part = copy_range(v, from, to);
    assert(is_ascii_digit(part@[0]));
    assert(unsigned_body(part@) == part@);
    match parse_chars_bounded(&part, u32::MAX as u64) {
        Some(n) => Some(n as u32),
        None => None,
    }
}

/// Reads dice written `XdY` (for instance `2d20`): `X` and `Y` are runs of
/// ASCII digits, at least one die (`X` from 1 to [`MAX_ROLLS`]) of at least
/// one side (`Y` from 1 to `u32::MAX`). Anything else is
/// [`BotError::CommandArgParse`].
pub fn parse_dice_string(dice_string: &str) -> (r: Result<DiceRoll, BotError>)
    ensures
        match r {
            Ok(roll) => parse_dice(dice_string@) == Some(roll),
            Err(e) => parse_dice(dice_string@) is None && e is CommandArgParse,
        },
{
    let v = chars_of(dice_string);
    let len = v.len();
    let mut k: usize = 0;
    while k < len && v[k] != 'd'
        invariant
            len == v@.len(),
            k <= len,
            forall|m: int| 0 <= m < k ==> v@[m] != 'd',
        decreases len - k,
    {
        k = k + 1;
    }
    proof {
        lemma_index_of(v@, 'd', k as nat);
        assert(v@.take(k as int) =~= v@.subrange(0, k as int));
        assert(v@.skip(k + 1 as int) =~= v@.subrange(k + 1, len as int));
    }
    if k == len || k == 0 || k + 1 == len {
        return Err(BotError::CommandArgParse);
    }
    if !digits_only(&v, 0, k) || !digits_only(&v, k + 1, len) {
        return Err(BotError::CommandArgParse);
    }
    let count = match digits_u32(&v, 0, k) {
        Some(n) => n,
        None => return Err(BotError::CommandArgParse),
    };
    let sides = match digits_u32(&v, k + 1, len) {
        Some(n) => n,
        None => return Err(BotError::CommandArgParse),
    };
    if count < 1 || count > MAX_ROLLS || sides < 1 {
        return Err(BotError::CommandArgParse);
    }
    Ok(DiceRoll { count, sides })
}

/// The reply when the dice cannot be read.
pub open spec fn dice_usage_text() -> Seq<char> {
    "Argument must be in form XdY (1d6, 2d20, etc.) where 1 <= X <= "@ + decimal(MAX_ROLLS as nat)
        + ", Y >= 1"@
}

/// Exec form of [`dice_usage_text`].
pub fn dice_usage_reply() -> (s: String)
    ensures
        s@ == dice_usage_text(),
{
    let mut s = owned("Argument must be in form XdY (1d6, 2d20, etc.) where 1 <= X <= ");
    append_decimal(&mut s, MAX_ROLLS as u64);
    append_str(&mut s, ", Y >= 1");
    s
}

/// The reply to a plain roll: who rolled, what came up, and the range.
pub open spec fn simple_roll_text(author: Seq<char>, roll: u32, max_roll: u32) -> Seq<char> {
    author + " rolls a "@ + decimal(roll as nat) + " (1-"@ + decimal(max_roll as nat) + ")"@
}

/// The reply when `author` rolled `roll` on a die of `max_roll` sides.
pub fn simple_roll_message(author: &str, roll: u32, max_roll: u32) -> (s: String)
    ensures
        s@ == simple_roll_text(author@, roll, max_roll),
{
    let mut s = owned(author);
    append_str(&mut s, " rolls a ");
    append_decimal(&mut s, roll as u64);
    append_str(&mut s, " (1-");
    append_decimal(&mut s, max_roll as u64);
    append_str(&mut s, ")");
    s
}

/// Rolls one die of `max_roll` sides for `author` (a die of fewer than two
/// sides always shows 1) and says what came up.
pub fn format_simple_roll(author: &str, max_roll: u32) -> (s: String)
    ensures
        exists|roll: u32|
            #![trigger simple_roll_text(author@, roll, max_roll)]
            (if max_roll > 1 {
                1 <= roll <= max_roll
            } else {
                roll == 1
            }) && s@ == simple_roll_text(author@, roll, max_roll),
{
    let roll: u32 = if max_roll > 1 {
        random_between(1, max_roll as u64) as u32
    } else {
        1
    };
    simple_roll_message(author, roll, max_roll)
}


/// The sum of the dice that came up.
pub open spec fn roll_total(rolls: Seq<u32>) -> nat
    decreases rolls.len(),
{
    if rolls.len() == 0 {
        0
    } else {
        roll_total(rolls.drop_last()) + rolls.last() as nat
    }
}

/// The dice that came up, separated by `, ` (the inside of `{:?}` of a `Vec`).
pub open spec fn rolls_inner_text(rolls: Seq<u32>) -> Seq<char>
    decreases rolls.len(),
{
    if rolls.len() == 0 {
        seq![]
    } else if rolls.len() == 1 {
        decimal(rolls[0] as nat)
    } else {
        rolls_inner_text(rolls.drop_last()) + ", "@ + decimal(rolls.last() as nat)
    }
}

/// The dice that came up as `{:?}` writes a `Vec<u32>`.
pub open spec fn rolls_text(rolls: Seq<u32>) -> Seq<char> {
    "["@ + rolls_inner_text(rolls) + "]"@
}

/// The embed's text for a roll of `roll` that came up `rolls`.
pub open spec fn dice_description(roll: DiceRoll, rolls: Seq<u32>) -> Seq<char> {
    "**Result**: "@ + decimal(roll.count as nat) + "d"@ + decimal(roll.sides as nat) + " -> "@
        + rolls_text(rolls) + "\n**Total**: "@ + decimal(roll_total(rolls))
}

/// The message's text for `author`'s roll totalling `total`.
pub open spec fn dice_content(author: Seq<char>, total: nat) -> Seq<char> {
    author + " :game_die: **"@ + decimal(total) + "**"@
}

/// A reply showing a dice roll: a message and an embed.
#[derive(Clone, Debug)]
pub struct DiceReply {
    /// Text of the message
    pub content: String,
    /// Text of the embed
    pub description: String,
    /// Colour of the embed
    pub color: u32,
}

/// Whether `reply` shows `author`'s roll of `roll` that came up `rolls`.
pub open spec fn is_dice_reply(reply: DiceReply, author: Seq<char>, roll: DiceRoll, rolls: Seq<u32>) -> bool {
    &&& reply.content@ == dice_content(author, roll_total(rolls))
    &&& reply.description@ == dice_description(roll, rolls)
    &&& reply.color == EMBED_COLOR
}

/// The reply for `author`'s roll of `roll` that came up `rolls`.
pub fn dice_reply(author: &str, roll: &DiceRoll, rolls: &Vec<u32>) -> (reply: DiceReply)
    requires
        roll_total(rolls@) <= u32::MAX,
    ensures
        is_dice_reply(reply, author@, *roll, rolls@),
{
    let mut total: u64 = 0;
    let mut inner = String::new();
    let mut i: usize = 0;
    while i < rolls.len()
        invariant
            i <= rolls@.len(),
            total == roll_total(rolls@.take(i as int)),
            roll_total(rolls@) <= u32::MAX,
            inner@ == rolls_inner_text(rolls@.take(i as int)),
        decreases rolls@.len() - i,
    {
        proof {
            assert(rolls@.take(i + 1).drop_last() =~= rolls@.take(i as int));
            lemma_roll_total_prefix(rolls@, i + 1);
        }
        total = total + rolls[i] as u64;
        if i > 0 {
            append_str(&mut inner, ", ");
        }
        append_decimal(&mut inner, rolls[i] as u64);
        i = i + 1;
    }
    assert(rolls@.take(i as int) =~= rolls@);
    let mut description = owned("**Result**: ");
    append_decimal(&mut description, roll.count as u64);
    append_str(&mut description, "d");
    append_decimal(&mut description, roll.sides as u64);
    append_str(&mut description, " -> [");
    append_str(&mut description, inner.as_str());
    append_str(&mut description, "]\n**Total**: ");
    append_decimal(&mut description, total);
    let mut content = owned(author);
    append_str(&mut content, " :game_die: **");
    append_decimal(&mut content, total);
    append_str(&mut content, "**");
    proof {
        assert("**Result**: "@ + decimal(roll.count as nat) + "d"@ + decimal(roll.sides as nat)
            + " -> ["@ + rolls_inner_text(rolls@) + "]\n**Total**: "@ + decimal(total as nat)
            =~= dice_description(*roll, rolls@)) by {
            reveal_strlit(" -> [");
            reveal_strlit(" -> ");
            reveal_strlit("[");
            reveal_strlit("]\n**Total**: ");
            reveal_strlit("]");
            reveal_strlit("\n**Total**: ");
        }
    }
    DiceReply { content, description, color: EMBED_COLOR }
}

/// A prefix of the dice never sums to more than all of them.
pub proof fn lemma_roll_total_prefix(rolls: Seq<u32>, k: int)
    requires
        0 <= k <= rolls.len(),
    ensures
        roll_total(rolls.take(k)) <= roll_total(rolls),
    decreases rolls.len(),
{
    if k < rolls.len() {
        assert(rolls.drop_last().take(k) =~= rolls.take(k));
        lemma_roll_total_prefix(rolls.drop_last(), k);
    } else {
        assert(rolls.take(k) =~= rolls);
    }
}

/// Dice that each show at most `sides` sum to at most `count * sides`.
proof fn lemma_roll_total_bound(rolls: Seq<u32>, sides: u32)
    requires
        forall|i: int| 0 <= i < rolls.len() ==> rolls[i] <= sides,
    ensures
        roll_total(rolls) <= rolls.len() * sides,
    decreases rolls.len(),
{
    if rolls.len() > 0 {
        lemma_roll_total_bound(rolls.drop_last(), sides);
        assert(rolls.drop_last().len() * sides + sides == rolls.len() * sides) by (nonlinear_arith)
            requires
                rolls.drop_last().len() + 1 == rolls.len(),
        ;
    }
}

/// A throw of dice of `sides` sides totals at least one per die and at most
/// `sides` per die.
pub proof fn lemma_dice_total_range(rolls: Seq<u32>, sides: u32)
    requires
        forall|i: int| 0 <= i < rolls.len() ==> 1 <= #[trigger] rolls[i] <= sides,
    ensures
        rolls.len() <= roll_total(rolls) <= rolls.len() * sides,
    decreases rolls.len(),
{
    lemma_roll_total_bound(rolls, sides);
    if rolls.len() > 0 {
        lemma_dice_total_range(rolls.drop_last(), sides);
    }
}

/// Whether a die with these sides can be thrown this many times without the
/// total overflowing a `u32`, whatever comes up.
pub open spec fn roll_is_safe(roll: DiceRoll) -> bool {
    roll.sides >= 1 && roll.count * roll.sides <= u32::MAX
}

/// The sum of the dice that came up.
fn sum_rolls(rolls: &Vec<u32>) -> (t: u64)
    requires
        rolls@.len() <= u32::MAX,
    ensures
        t == roll_total(rolls@),
{
    let mut t: u64 = 0;
    let mut i: usize = 0;
    while i < rolls.len()
        invariant
            i <= rolls@.len() <= u32::MAX,
            t == roll_total(rolls@.take(i as int)),
        decreases rolls@.len() - i,
    {
        proof {
            assert(rolls@.take(i + 1).drop_last() =~= rolls@.take(i as int));
            lemma_roll_total_bound(rolls@.take(i as int), u32::MAX);
            let n = rolls@.take(i as int).len();
            assert(n * u32::MAX + u32::MAX <= u64::MAX) by (nonlinear_arith)
                requires
                    n < u32::MAX,
            ;
        }
        t = t + rolls[i] as u64;
        i = i + 1;
    }
    assert(rolls@.take(i as int) =~= rolls@);
    t
}

/// What a throw that came up `rolls` gives: the reply when the total fits in
/// a `u32`, and `None` when it does not.
pub open spec fn dice_outcome(r: Option<DiceReply>, author: Seq<char>, roll: DiceRoll, rolls: Seq<u32>) -> bool {
    match r {
        Some(reply) => roll_total(rolls) <= u32::MAX && is_dice_reply(reply, author, roll, rolls),
        None => roll_total(rolls) > u32::MAX,
    }
}

/// Throws the dice of `roll` for `author` and builds the reply; `None` when
/// the dice that came up total more than a `u32` holds (which cannot happen
/// when `count * sides` fits).
pub fn format_dice_roll(author: &str, roll: &DiceRoll) -> (r: Option<DiceReply>)
    requires
        roll.sides >= 1,
    ensures
        exists|rolls: Seq<u32>|
            #![trigger dice_outcome(r, author@, *roll, rolls)]
            rolls.len() == roll.count && (forall|i: int|
                0 <= i < rolls.len() ==> 1 <= #[trigger] rolls[i] <= roll.sides) && dice_outcome(
                r,
                author@,
                *roll,
                rolls,
            ),
        roll_is_safe(*roll) ==> r is Some,
{
    let mut rolls: Vec<u32> = Vec::new();
    let mut i: u32 = 0;
    while i < roll.count
        invariant
            i <= roll.count,
            roll.sides >= 1,
            rolls@.len() == i,
            forall|j: int| 0 <= j < rolls@.len() ==> 1 <= #[trigger] rolls@[j] <= roll.sides,
        decreases roll.count - i,
    {
        rolls.push(random_between(1, roll.sides as u64) as u32);
        i = i + 1;
    }
    proof {
        lemma_roll_total_bound(rolls@, roll.sides);
        assert(rolls@.len() * roll.sides == roll.count * roll.sides);
    }
    let total = sum_rolls(&rolls);
    let r = if total > u32::MAX as u64 {
        None
    } else {
        Some(dice_reply(author, roll, &rolls))
    };
    assert(dice_outcome(r, author@, *roll, rolls@));
    r
}

} // verus!
