//! The description shown in a patch-notes embed: the patch notes' HTML is
//! turned into Markdown, and its first lines are kept.

use vstd::prelude::*;

use crate::database::PatchNotes;
use crate::text::{
    chars_of, copy_range, index_of_or_len, lemma_index_of, split_on, string_of, trim,
    trim_bounds,
};

verus! {

/// Most lines a description shows.
pub const MAX_LINES: u64 = 8;

/// Once the lines shown reach this many bytes, no further line is shown.
pub const PREF_MAX_CHARS: u64 = 500;

/// A description is cut to at most this many bytes.
pub const TRUNC_LENGTH: u64 = 4096;

/// The Markdown that `htmd::convert` produces for `html`.
pub uninterp spec fn html_markdown(html: Seq<char>) -> Seq<char>;

/// Converts HTML to Markdown with `htmd::convert`.
///
/// The contract claims that the conversion succeeds (the crate's
/// `HtmlToMarkdown::convert` only ever returns `Ok`) and that its output
/// depends on the HTML text alone; what that output is, is left to the
/// crate.
#[verifier::external_body]
fn html_to_markdown(html: &str) -> (r: Option<String>)
    ensures
        r is Some,
        r.unwrap()@ == html_markdown(html@),
{
    htmd::convert(html).ok()
}

/// The trimmed pieces that are not empty, in order.
pub open spec fn kept_lines(pieces: Seq<Seq<char>>) -> Seq<Seq<char>>
    decreases pieces.len(),
{
    if pieces.len() == 0 {
        seq![]
    } else {
        let rest = kept_lines(pieces.drop_last());
        let t = trim(pieces.last());
        if t.len() > 0 {
            rest.push(t)
        } else {
            rest
        }
    }
}

/// The non-blank lines of `s`, trimmed.
pub open spec fn display_lines(s: Seq<char>) -> Seq<Seq<char>> {
    kept_lines(split_on(s, '\n'))
}

/// Bytes that `c` takes in UTF-8 (`char::len_utf8`).
pub open spec fn char_utf8_len(c: char) -> nat {
    if c <= '\u{7f}' {
        1
    } else if c <= '\u{7ff}' {
        2
    } else if c <= '\u{ffff}' {
        3
    } else {
        4
    }
}

/// Bytes that `s` takes in UTF-8 (`str::len`).
pub open spec fn utf8_len(s: Seq<char>) -> nat
    decreases s.len(),
{
    if s.len() == 0 {
        0
    } else {
        utf8_len(s.drop_last()) + char_utf8_len(s.last())
    }
}

/// How many of `lines` are shown, having taken `k` of them that hold `bytes`
/// bytes: lines are taken one at a time, at most [`MAX_LINES`], and none after
/// the one that brings the count to [`PREF_MAX_CHARS`] or more.
pub open spec fn shown_count(lines: Seq<Seq<char>>, k: nat, bytes: nat) -> nat
    decreases MAX_LINES - k,
{
    if k >= lines.len() || k >= MAX_LINES {
        k
    } else if bytes + utf8_len(lines[k as int]) >= PREF_MAX_CHARS {
        k + 1
    } else {
        shown_count(lines, k + 1, bytes + utf8_len(lines[k as int]))
    }
}

/// The lines shown, with `...` after them when some were left out.
pub open spec fn description_lines(lines: Seq<Seq<char>>) -> Seq<Seq<char>> {
    let n = shown_count(lines, 0, 0);
    if lines.len() > n {
        lines.take(n as int).push(seq!['.', '.', '.'])
    } else {
        lines
    }
}

/// `lines` joined with `sep` between them (`[..].join(sep)`).
pub open spec fn join_with(lines: Seq<Seq<char>>, sep: Seq<char>) -> Seq<char>
    decreases lines.len(),
{
    if lines.len() == 0 {
        seq![]
    } else if lines.len() == 1 {
        lines[0]
    } else {
        join_with(lines.drop_last(), sep) + sep + lines.last()
    }
}

/// The longest prefix of `s` that takes at most `n` bytes.
pub open spec fn prefix_within(s: Seq<char>, n: nat) -> Seq<char>
    decreases s.len(),
{
    if s.len() > 0 && char_utf8_len(s[0]) <= n {
        seq![s[0]] + prefix_within(s.skip(1), (n - char_utf8_len(s[0])) as nat)
    } else {
        seq![]
    }
}

/// Whether `String::truncate(n)` accepts `s`: it does nothing to a string of
/// at most `n` bytes, and otherwise byte `n` must start a character.
pub open spec fn truncate_ok(s: Seq<char>, n: nat) -> bool {
    utf8_len(s) <= n || utf8_len(prefix_within(s, n)) == n
}

/// The lines of a description before it is cut to [`TRUNC_LENGTH`] bytes.
pub open spec fn untruncated_summary(markdown: Seq<char>) -> Seq<char> {
    join_with(description_lines(display_lines(markdown)), seq!['\n'])
}

/// Whether the summary of `markdown` can be cut at [`TRUNC_LENGTH`] bytes.
pub open spec fn summary_fits(markdown: Seq<char>) -> bool {
    truncate_ok(untruncated_summary(markdown), TRUNC_LENGTH as nat)
}

/// The description shown for `markdown`.
pub open spec fn summary(markdown: Seq<char>) -> Seq<char> {
    prefix_within(untruncated_summary(markdown), TRUNC_LENGTH as nat)
}


/// A prefix cut to at most `n` bytes takes at most `n` bytes.
proof fn lemma_prefix_within_len(s: Seq<char>, n: nat)
    ensures
        utf8_len(prefix_within(s, n)) <= n,
    decreases s.len(),
{
    if s.len() > 0 && char_utf8_len(s[0]) <= n {
        let rest = prefix_within(s.skip(1), (n - char_utf8_len(s[0])) as nat);
        lemma_prefix_within_len(s.skip(1), (n - char_utf8_len(s[0])) as nat);
        lemma_utf8_len_cons(s[0], rest);
    } else {
        assert(utf8_len(seq![]) == 0);
    }
}

/// The bytes of a character followed by a sequence.
proof fn lemma_utf8_len_cons(c: char, s: Seq<char>)
    ensures
        utf8_len(seq![c] + s) == char_utf8_len(c) + utf8_len(s),
    decreases s.len(),
{
    if s.len() == 0 {
        assert(seq![c] + s =~= seq![c]);
        assert(seq![c].drop_last() =~= Seq::<char>::empty());
        assert(seq![c].last() == c);
        assert(utf8_len(s) == 0);
        assert(utf8_len(Seq::<char>::empty()) == 0);
        assert(utf8_len(seq![c]) == utf8_len(seq![c].drop_last()) + char_utf8_len(c));
    } else {
        assert((seq![c] + s).drop_last() =~= seq![c] + s.drop_last());
        assert((seq![c] + s).last() == s.last());
        lemma_utf8_len_cons(c, s.drop_last());
        assert(utf8_len(seq![c] + s) == utf8_len(seq![c] + s.drop_last()) + char_utf8_len(s.last()));
    }
}

/// No more lines are shown than [`MAX_LINES`], nor than there are.
proof fn lemma_shown_count_bound(lines: Seq<Seq<char>>, k: nat, bytes: nat)
    requires
        k <= MAX_LINES,
        k <= lines.len(),
    ensures
        k <= shown_count(lines, k, bytes) <= MAX_LINES,
        shown_count(lines, k, bytes) <= lines.len(),
    decreases MAX_LINES - k,
{
    if !(k >= lines.len() || k >= MAX_LINES) && !(bytes + utf8_len(lines[k as int])
        >= PREF_MAX_CHARS) {
        lemma_shown_count_bound(lines, k + 1, bytes + utf8_len(lines[k as int]));
    }
}

/// A patch-notes description never takes more than [`TRUNC_LENGTH`] bytes.
pub proof fn lemma_description_within_limit(markdown: Seq<char>)
    ensures
        utf8_len(summary(markdown)) <= TRUNC_LENGTH,
{
    lemma_prefix_within_len(untruncated_summary(markdown), TRUNC_LENGTH as nat);
}

/// A description shows at most [`MAX_LINES`] of the lines, plus a `...` line
/// when some were left out, and the lines it shows come first, in order.
pub proof fn lemma_description_lines(lines: Seq<Seq<char>>)
    ensures
        description_lines(lines).len() <= MAX_LINES + 1,
        description_lines(lines).len() <= lines.len() + 1,
        forall|i: int|
            0 <= i < description_lines(lines).len() && i < shown_count(lines, 0, 0) ==> #[trigger] description_lines(lines)[i] == lines[i],
{
    lemma_shown_count_bound(lines, 0, 0);
}

/// The character sequences held by a vector of character vectors.
pub open spec fn views(v: Seq<Vec<char>>) -> Seq<Seq<char>> {
    v.map_values(|l: Vec<char>| l@)
}

proof fn lemma_views_push(v: Seq<Vec<char>>, x: Vec<char>)
    ensures
        views(v.push(x)) == views(v).push(x@),
{
    assert(views(v.push(x)) =~= views(v).push(x@));
}

/// A prefix never takes more bytes than the whole.
pub proof fn lemma_utf8_len_prefix(s: Seq<char>, k: int)
    requires
        0 <= k <= s.len(),
    ensures
        utf8_len(s.take(k)) <= utf8_len(s),
    decreases s.len(),
{
    if k < s.len() {
        assert(s.drop_last().take(k) =~= s.take(k));
        lemma_utf8_len_prefix(s.drop_last(), k);
    } else {
        assert(s.take(k) =~= s);
    }
}

/// Exec form of [`char_utf8_len`].
pub fn char_len_utf8(c: char) -> (n: u64)
    ensures
        n == char_utf8_len(c),
{
    if c <= '\u{7f}' {
        1
    } else if c <= '\u{7ff}' {
        2
    } else if c <= '\u{ffff}' {
        3
    } else {
        4
    }
}

/// Bytes that the characters of `v` take in UTF-8.
pub fn utf8_len_of(v: &Vec<char>) -> (n: u128)
    ensures
        n == utf8_len(v@),
        n <= 4 * v@.len(),
{
    let mut n: u128 = 0;
    let mut i: usize = 0;
    while i < v.len()
        invariant
            i <= v@.len(),
            n == utf8_len(v@.take(i as int)),
            n <= 4 * i,
        decreases v@.len() - i,
    {
        assert(v@.take(i + 1).drop_last() =~= v@.take(i as int));
        n = n + char_len_utf8(v[i]) as u128;
        i = i + 1;
    }
    assert(v@.take(i as int) =~= v@);
    n
}

/// The non-blank lines of `md`, trimmed ([`display_lines`]).
pub fn split_display_lines(md: &Vec<char>) -> (lines: Vec<Vec<char>>)
    ensures
        views(lines@) == display_lines(md@),
{
    let len = md.len();
    let mut lines: Vec<Vec<char>> = Vec::new();
    let ghost mut done: Seq<Seq<char>> = seq![];
    let mut j: usize = 0;
    let mut i: usize = 0;
    assert(md@.skip(0) =~= md@);
    while i < len
        invariant
            len == md@.len(),
            j <= i <= len,
            split_on(md@, '\n') == done + split_on(md@.skip(j as int), '\n'),
            forall|m: int| j <= m < i ==> md@[m] != '\n',
            views(lines@) == kept_lines(done),
        decreases len - i,
    {
        if md[i] == '\n' {
            let (a, b) = trim_bounds(md, j, i);
            let ghost piece = md@.subrange(j as int, i as int);
            let ghost tail = md@.skip(j as int);
            proof {
                assert forall|m: int| 0 <= m < i - j implies tail[m] != '\n' by {
                    assert(tail[m] == md@[j + m]);
                }
                assert(tail[i - j] == md@[i as int]);
                lemma_index_of(tail, '\n', (i - j) as nat);
                assert(tail.take(i - j) =~= piece);
                assert(tail.skip(i - j + 1) =~= md@.skip(i + 1));
                assert(done + split_on(tail, '\n') =~= done.push(piece) + split_on(
                    md@.skip(i + 1),
                    '\n',
                ));
                assert(done.push(piece).drop_last() =~= done);
            }
            if a < b {
                let l = copy_range(md, a, b);
                proof {
                    lemma_views_push(lines@, l);
                }
                lines.push(l);
            }
            proof {
                done = done.push(piece);
            }
            j = i + 1;
        }
        i = i + 1;
    }
    let (a, b) = trim_bounds(md, j, len);
    let ghost piece = md@.subrange(j as int, len as int);
    proof {
        let tail = md@.skip(j as int);
        assert forall|m: int| 0 <= m < len - j implies tail[m] != '\n' by {
            assert(tail[m] == md@[j + m]);
        }
        lemma_index_of(tail, '\n', (len - j) as nat);
        assert(tail =~= piece);
        assert(split_on(md@, '\n') =~= done.push(piece));
        assert(done.push(piece).drop_last() =~= done);
    }
    if a < b {
        let l = copy_range(md, a, b);
        proof {
            lemma_views_push(lines@, l);
        }
        lines.push(l);
    }
    lines
}

/// How many lines are shown ([`shown_count`] from the start).
pub fn shown_lines(lines: &Vec<Vec<char>>) -> (n: usize)
    ensures
        n == shown_count(views(lines@), 0, 0),
        n <= lines@.len(),
{
    let ghost ls = views(lines@);
    let mut k: usize = 0;
    let mut bytes: u128 = 0;
    while k < lines.len() && k < MAX_LINES as usize
        invariant
            ls == views(lines@),
            k <= lines@.len(),
            k <= MAX_LINES,
            bytes < PREF_MAX_CHARS,
            shown_count(ls, 0, 0) == shown_count(ls, k as nat, bytes as nat),
        decreases lines@.len() - k,
    {
        let b = utf8_len_of(&lines[k]);
        let lk = lines[k].len();
        assert(b <= 4 * lk);
        assert(ls[k as int] == lines@[k as int]@);
        if bytes + b >= PREF_MAX_CHARS as u128 {
            return k + 1;
        }
        bytes = bytes + b;
        k = k + 1;
    }
    k
}

/// Appends the characters of `src` to `out`.
pub fn extend_chars(out: &mut Vec<char>, src: &Vec<char>)
    ensures
        final(out)@ == old(out)@ + src@,
{
    let mut i: usize = 0;
    while i < src.len()
        invariant
            i <= src@.len(),
            out@ == old(out)@ + src@.take(i as int),
        decreases src@.len() - i,
    {
        out.push(src[i]);
        i = i + 1;
        assert(out@ =~= old(out)@ + src@.take(i as int));
    }
    assert(src@.take(i as int) =~= src@);
}

/// The first `n` lines joined with newlines, followed by a `...` line when
/// `dots` holds.
pub fn join_shown(lines: &Vec<Vec<char>>, n: usize, dots: bool) -> (out: Vec<char>)
    requires
        n <= lines@.len(),
    ensures
        out@ == join_with(
            if dots {
                views(lines@).take(n as int).push(seq!['.', '.', '.'])
            } else {
                views(lines@).take(n as int)
            },
            seq!['\n'],
        ),
{
    let ghost ls = views(lines@);
    let mut out: Vec<char> = Vec::new();
    let mut k: usize = 0;
    while k < n
        invariant
            ls == views(lines@),
            k <= n <= lines@.len(),
            out@ == join_with(ls.take(k as int), seq!['\n']),
        decreases n - k,
    {
        assert(ls[k as int] == lines@[k as int]@);
        assert(ls.take(k + 1).drop_last() =~= ls.take(k as int));
        if k > 0 {
            out.push('\n');
        }
        extend_chars(&mut out, &lines[k]);
        k = k + 1;
        assert(out@ =~= join_with(ls.take(k as int), seq!['\n']));
    }
    if dots {
        let ghost shown = ls.take(n as int);
        assert(shown.push(seq!['.', '.', '.']).drop_last() =~= shown);
        if n > 0 {
            out.push('\n');
        }
        out.push('.');
        out.push('.');
        out.push('.');
        assert(out@ =~= join_with(shown.push(seq!['.', '.', '.']), seq!['\n']));
    }
    out
}

/// The length of [`prefix_within`] for `s` and `n`, and whether
/// [`truncate_ok`] holds.
pub fn prefix_within_len(s: &Vec<char>, n: u64) -> (r: (usize, bool))
    ensures
        r.0 <= s@.len(),
        s@.take(r.0 as int) == prefix_within(s@, n as nat),
        r.1 == truncate_ok(s@, n as nat),
{
    let mut i: usize = 0;
    let mut acc: u64 = 0;
    assert(s@.skip(0) =~= s@);
    assert(s@.take(0) + prefix_within(s@, n as nat) =~= prefix_within(s@, n as nat));
    while i < s.len()
        invariant
            i <= s@.len(),
            acc <= n,
            acc == utf8_len(s@.take(i as int)),
            prefix_within(s@, n as nat) == s@.take(i as int) + prefix_within(
                s@.skip(i as int),
                (n - acc) as nat,
            ),
        decreases s@.len() - i,
    {
        let w = char_len_utf8(s[i]);
        assert(s@.skip(i as int)[0] == s@[i as int]);
        if w > n - acc {
            assert(prefix_within(s@.skip(i as int), (n - acc) as nat) =~= seq![]);
            assert(s@.take(i as int) + seq![] =~= s@.take(i as int));
            proof {
                assert(s@.take(i + 1).drop_last() =~= s@.take(i as int));
                lemma_utf8_len_prefix(s@, i + 1);
            }
            return (i, acc == n);
        }
        proof {
            assert(s@.skip(i as int).skip(1) =~= s@.skip(i + 1));
            assert(s@.take(i as int) + (seq![s@[i as int]] + prefix_within(
                s@.skip(i + 1),
                (n - acc - w) as nat,
            )) =~= s@.take(i + 1) + prefix_within(s@.skip(i + 1), (n - acc - w) as nat));
            assert(s@.take(i + 1).drop_last() =~= s@.take(i as int));
        }
        acc = acc + w;
        i = i + 1;
    }
    assert(s@.skip(i as int) =~= seq![]);
    assert(s@.take(i as int) =~= s@);
    assert(s@.take(i as int) + seq![] =~= s@.take(i as int));
    (i, true)
}

/// The description lines of `md` joined, before truncation, together with
/// how many characters survive the cut and whether the cut is allowed.
fn summary_parts(md: &Vec<char>) -> (r: (Vec<char>, usize, bool))
    ensures
        r.0@ == untruncated_summary(md@),
        r.1 <= r.0@.len(),
        r.0@.take(r.1 as int) == prefix_within(r.0@, TRUNC_LENGTH as nat),
        r.2 == truncate_ok(r.0@, TRUNC_LENGTH as nat),
{
    let lines = split_display_lines(md);
    let n = shown_lines(&lines);
    let dots = lines.len() > n;
    let joined = join_shown(&lines, n, dots);
    if !dots {
        assert(views(lines@).take(n as int) =~= views(lines@));
    }
    let (k, ok) = prefix_within_len(&joined, TRUNC_LENGTH);
    (joined, k, ok)
}

/// Whether the description of `markdown` can be cut at [`TRUNC_LENGTH`]
/// bytes without splitting a character.
pub fn summary_fits_check(markdown: &str) -> (b: bool)
    ensures
        b == summary_fits(markdown@),
{
    let md = chars_of(markdown);
    let (_, _, ok) = summary_parts(&md);
    ok
}

/// The description kept from `markdown`: its first non-blank lines, trimmed,
/// at most [`MAX_LINES`] of them and none after the line that reaches
/// [`PREF_MAX_CHARS`] bytes, then `...` when lines were left out, all joined
/// with newlines and cut to [`TRUNC_LENGTH`] bytes.
pub fn summarize_markdown(markdown: &str) -> (r: String)
    requires
        summary_fits(markdown@),
    ensures
        r@ == summary(markdown@),
{
    let md = chars_of(markdown);
    let (joined, k, _) = summary_parts(&md);
    string_of(&copy_range(&joined, 0, k))
}


/// The description shown for HTML patch notes `content`.
pub open spec fn embed_description(content: Seq<char>) -> Seq<char> {
    summary(html_markdown(content))
}

/// Whether the description of `content` can be cut without splitting a
/// character (`String::truncate` panics otherwise).
pub open spec fn description_fits(content: Seq<char>) -> bool {
    summary_fits(html_markdown(content))
}

/// The description of a patch-notes embed: `content` converted from HTML to
/// Markdown, then summarized by [`summarize_markdown`].
pub fn format_embed_description(content: &str) -> (r: String)
    requires
        description_fits(content@),
    ensures
        r@ == embed_description(content@),
{
    let Some(markdown_str) = html_to_markdown(content) else {
        return String::new();
    };
    summarize_markdown(markdown_str.as_str())
}

/// [`format_embed_description`], or `None` where it would have to split a
/// character when cutting the description.
pub fn try_format_embed_description(content: &str) -> (r: Option<String>)
    ensures
        match r {
            Some(d) => description_fits(content@) && d@ == embed_description(content@),
            None => !description_fits(content@),
        },
{
    let Some(markdown_str) = html_to_markdown(content) else {
        return None;
    };
    if summary_fits_check(markdown_str.as_str()) {
        Some(format_embed_description(content))
    } else {
        None
    }
}

/// The parts of a patch-notes embed, as Discord shows them.
#[derive(Clone, Debug)]
pub struct PatchEmbed {
    /// Title, linking to the patch notes
    pub title: String,
    /// Link of the title
    pub url: String,
    /// Author line: the game's title
    pub author: String,
    /// Summary of the patch notes
    pub description: String,
    /// Thumbnail of the game, when known
    pub thumbnail: Option<String>,
}

/// Builds the embed announcing `patch_notes`.
pub fn create_patch_embed(patch_notes: &PatchNotes) -> (e: PatchEmbed)
    requires
        description_fits(patch_notes.content@),
    ensures
        e.title@ == patch_notes.title@,
        e.url@ == patch_notes.link@,
        e.author@ == patch_notes.game_title@,
        e.description@ == embed_description(patch_notes.content@),
        e.thumbnail == patch_notes.thumbnail_url,
{
    PatchEmbed {
        title: patch_notes.title.clone(),
        url: patch_notes.link.clone(),
        author: patch_notes.game_title.clone(),
        description: format_embed_description(patch_notes.content.as_str()),
        thumbnail: match &patch_notes.thumbnail_url {
            Some(t) => Some(t.clone()),
            None => None,
        },
    }
}

/// [`create_patch_embed`], or `None` where cutting the description would
/// split a character.
pub fn try_create_patch_embed(patch_notes: &PatchNotes) -> (r: Option<PatchEmbed>)
    ensures
        match r {
            Some(e) => description_fits(patch_notes.content@) && e.title@ == patch_notes.title@
                && e.url@ == patch_notes.link@ && e.author@ == patch_notes.game_title@
                && e.description@ == embed_description(patch_notes.content@) && e.thumbnail
                == patch_notes.thumbnail_url,
            None => !description_fits(patch_notes.content@),
        },
{
    let Some(markdown_str) = html_to_markdown(patch_notes.content.as_str()) else {
        return None;
    };
    if summary_fits_check(markdown_str.as_str()) {
        Some(create_patch_embed(patch_notes))
    } else {
        None
    }
}

} // verus!
