//! Truncation of large chunks of output that keeps a prefix and a suffix, on character boundaries
//! and, where it can, on line boundaries.
use vstd::prelude::*;

use crate::text;

verus! {

/// The number of tries at a marker whose length fits what it announces.
pub const MARKER_ROUNDS: u64 = 4;

/// The text that stands for what was removed.
pub open spec fn marker(tokens: u64) -> Seq<char> {
    "…"@ + text::decimal(tokens as nat) + " tokens truncated…"@
}

/// The length of the longest beginning of `s` that has at most `budget` bytes.
pub open spec fn fitting(s: Seq<char>, budget: nat) -> nat
    decreases s.len(),
{
    if s.len() == 0 || text::utf8_len(s) <= budget {
        s.len()
    } else {
        fitting(s.drop_last(), budget)
    }
}

/// The length of the shortest beginning of `s` that has at least `start` bytes.
pub open spec fn reaching(s: Seq<char>, start: nat) -> nat
    decreases s.len(),
{
    if s.len() == 0 || text::utf8_len(s.drop_last()) < start {
        s.len()
    } else {
        reaching(s.drop_last(), start)
    }
}

/// The place after the last newline, or 0.
pub open spec fn after_last_newline(s: Seq<char>) -> nat
    decreases s.len(),
{
    if s.len() == 0 || s.last() == '\n' {
        s.len()
    } else {
        after_last_newline(s.drop_last())
    }
}

/// The place of the first newline at or after `from`, or the length.
pub open spec fn next_newline(s: Seq<char>, from: nat) -> nat
    decreases s.len() - from,
{
    if from >= s.len() || s[from as int] == '\n' {
        from
    } else {
        next_newline(s, from + 1)
    }
}

/// Where the kept prefix ends: after the last newline within the budget, where the budget ends
/// on a character boundary; else with the last character that fits.
pub open spec fn prefix_end(s: Seq<char>, budget: nat) -> nat {
    let k = fitting(s, budget);
    let head = s.take(k as int);
    if text::utf8_len(head) == budget && after_last_newline(head) > 0 {
        after_last_newline(head)
    } else {
        k
    }
}

/// Where the kept suffix starts: after the first newline of the last `budget` bytes, where they
/// begin on a character boundary; else with the first character that lies in them.
pub open spec fn suffix_start(s: Seq<char>, budget: nat) -> nat {
    let len = text::utf8_len(s);
    let start = if len >= budget {
        (len - budget) as nat
    } else {
        0
    };
    let k = reaching(s, start);
    if text::utf8_len(s.take(k as int)) == start && next_newline(s, k) < s.len() {
        next_newline(s, k) + 1
    } else {
        k
    }
}

/// The prefix's end and the suffix's start for a budget of `keep` bytes; the prefix gets the
/// smaller half.
pub open spec fn cut(s: Seq<char>, keep: nat) -> (nat, nat) {
    let p = prefix_end(s, keep / 2);
    let q = suffix_start(s, (keep - keep / 2) as nat);
    (
        p,
        if q < p {
            p
        } else {
            q
        },
    )
}

/// The number of bytes of what is kept before `p` and from `q` on, and of the marker between them.
pub open spec fn kept_len(s: Seq<char>, p: nat, mark: Seq<char>, q: nat) -> nat {
    text::utf8_len(s.take(p as int)) + text::utf8_len(mark) + text::utf8_len(s.skip(q as int))
}

/// The line break after a marker, where a byte is left for it.
pub open spec fn line_break(used: nat, max_bytes: nat) -> Seq<char> {
    if used < max_bytes {
        seq!['\n']
    } else {
        Seq::empty()
    }
}

/// `s` with what lies between `p` and `q` replaced by a marker and, where a byte is left for it, a
/// line break.
pub open spec fn glued(s: Seq<char>, p: nat, mark: Seq<char>, q: nat, max_bytes: nat) -> Seq<char> {
    s.take(p as int) + mark + line_break(kept_len(s, p, mark, q), max_bytes) + s.skip(q as int)
}

/// The longest beginning of `s` that has at most `budget` bytes.
pub open spec fn beginning(s: Seq<char>, budget: nat) -> Seq<char> {
    s.take(fitting(s, budget) as int)
}

/// The truncated text, starting from a guess at the number of removed tokens: the cut leaves room
/// for the guess's marker, and the number removed by that cut is the next guess until its marker
/// is as long. Where there is room for nothing but a marker, as much of it is kept as fits.
pub open spec fn attempt(
    s: Seq<char>,
    max_bytes: nat,
    total: u64,
    guess: u64,
    rounds: nat,
    tokens: spec_fn(Seq<char>) -> u64,
) -> Seq<char>
    decreases rounds,
{
    let len = text::utf8_len(marker(guess));
    if max_bytes <= len {
        beginning(marker(total), max_bytes)
    } else {
        let (p, q) = cut(s, (max_bytes - len) as nat);
        if rounds == 0 {
            glued(s, p, marker(guess), q, max_bytes)
        } else {
            let removed = tokens(s.subrange(p as int, q as int));
            if text::utf8_len(marker(removed)) == len {
                glued(s, p, marker(removed), q, max_bytes)
            } else {
                attempt(s, max_bytes, total, removed, (rounds - 1) as nat, tokens)
            }
        }
    }
}

/// The text and, where it was truncated, the number of its tokens.
pub open spec fn truncated(
    s: Seq<char>,
    max_bytes: nat,
    tokens: spec_fn(Seq<char>) -> u64,
) -> (Seq<char>, Option<u64>) {
    if text::utf8_len(s) <= max_bytes {
        (s, None)
    } else {
        (
            attempt(s, max_bytes, tokens(s), 1, MARKER_ROUNDS as nat, tokens),
            Some(tokens(s)),
        )
    }
}

/// Whether every call of `count` returns what `tokens` gives of its argument.
pub open spec fn counts_by<F: Fn(&str) -> u64>(
    count: F,
    tokens: spec_fn(Seq<char>) -> u64,
) -> bool {
    forall|t: &str, n: u64| call_ensures(count, (t,), n) ==> n == tokens(t@)
}

/// The text that stands for what was removed.
pub fn marker_text(tokens: u64) -> (r: String)
    ensures
        r@ == marker(tokens),
{
    let mut out = "…".to_owned();
    text::push_decimal(&mut out, tokens);
    out.append(" tokens truncated…");
    out
}

pub proof fn lemma_fitting(s: Seq<char>, budget: nat, k: int)
    requires
        0 <= k <= s.len(),
        text::utf8_len(s.take(k)) <= budget,
        k < s.len() ==> text::utf8_len(s.take(k + 1)) > budget,
    ensures
        fitting(s, budget) == k,
    decreases s.len(),
{
    if k == s.len() {
        assert(s.take(k) =~= s);
    } else {
        text::lemma_utf8_len_take(s, k + 1);
        assert(text::utf8_len(s) > budget);
        assert(s.drop_last().take(k) =~= s.take(k));
        if k < s.len() - 1 {
            assert(s.drop_last().take(k + 1) =~= s.take(k + 1));
        }
        lemma_fitting(s.drop_last(), budget, k);
    }
}

proof fn lemma_reaching(s: Seq<char>, start: nat, k: int)
    requires
        0 <= k <= s.len(),
        text::utf8_len(s.take(k)) >= start || k == s.len(),
        k > 0 ==> text::utf8_len(s.take(k - 1)) < start,
    ensures
        reaching(s, start) == k,
    decreases s.len(),
{
    if k == s.len() {
        if k > 0 {
            assert(s.drop_last() =~= s.take(k - 1));
        }
    } else {
        let t = s.drop_last();
        assert(t.take(k) =~= s.take(k));
        text::lemma_utf8_len_take(t, k);
        assert(text::utf8_len(t) >= start);
        if k > 0 {
            assert(t.take(k - 1) =~= s.take(k - 1));
        }
        lemma_reaching(t, start, k);
    }
}

proof fn lemma_after_last_newline(s: Seq<char>)
    ensures
        after_last_newline(s) <= s.len(),
    decreases s.len(),
{
    if s.len() > 0 && s.last() != '\n' {
        lemma_after_last_newline(s.drop_last());
    }
}

proof fn lemma_next_newline(s: Seq<char>, from: nat)
    requires
        from <= s.len(),
    ensures
        from <= next_newline(s, from) <= s.len(),
    decreases s.len() - from,
{
    if from < s.len() && s[from as int] != '\n' {
        lemma_next_newline(s, from + 1);
    }
}

/// The place after the last newline among the first `n` characters, or 0.
fn find_after_last_newline(chars: &Vec<char>, n: usize) -> (r: usize)
    requires
        n <= chars@.len(),
    ensures
        r == after_last_newline(chars@.take(n as int)),
        r <= n,
{
    let mut i: usize = n;
    while i > 0
        invariant
            i <= n <= chars@.len(),
            after_last_newline(chars@.take(n as int)) == after_last_newline(chars@.take(i as int)),
        decreases i,
    {
        assert(chars@.take(i as int).last() == chars@[i - 1]);
        if chars[i - 1] == '\n' {
            return i;
        }
        assert(chars@.take(i as int).drop_last() =~= chars@.take(i - 1));
        i -= 1;
    }
    0
}

/// The length of the longest beginning that has at most `budget` bytes, and the number of its
/// bytes.
pub fn fit_prefix(chars: &Vec<char>, budget: usize) -> (r: (usize, usize))
    requires
        text::utf8_len(chars@) <= usize::MAX,
    ensures
        r.0 == fitting(chars@, budget as nat),
        r.0 <= chars@.len(),
        r.1 == text::utf8_len(chars@.take(r.0 as int)),
        r.1 <= budget,
{
    let mut k: usize = 0;
    let mut used: usize = 0;
    assert(chars@.take(0) =~= Seq::empty());
    while k < chars.len()
        invariant
            k <= chars@.len(),
            used == text::utf8_len(chars@.take(k as int)),
            used <= budget,
            text::utf8_len(chars@) <= usize::MAX,
        ensures
            k <= chars@.len(),
            used == text::utf8_len(chars@.take(k as int)),
            used <= budget,
            k < chars@.len() ==> text::utf8_len(chars@.take(k + 1)) > budget,
        decreases chars@.len() - k,
    {
        proof {
            assert(chars@.take(k + 1).drop_last() =~= chars@.take(k as int));
            assert(chars@.take(k + 1).last() == chars@[k as int]);
            text::lemma_utf8_len_take(chars@, k + 1);
        }
        let next: usize = used + text::char_width(chars[k]);
        if next > budget {
            break;
        }
        used = next;
        k += 1;
    }
    proof {
        lemma_fitting(chars@, budget as nat, k as int);
    }
    (k, used)
}

/// Where the kept prefix ends.
fn pick_prefix_end(chars: &Vec<char>, left_budget: usize) -> (r: usize)
    requires
        text::utf8_len(chars@) <= usize::MAX,
    ensures
        r == prefix_end(chars@, left_budget as nat),
        r <= chars@.len(),
{
    let (k, used) = fit_prefix(chars, left_budget);
    if used == left_budget {
        let end = find_after_last_newline(chars, k);
        if end > 0 {
            return end;
        }
    }
    k
}

/// Where the kept suffix starts; `len` is the number of bytes in all.
fn pick_suffix_start(chars: &Vec<char>, len: usize, right_budget: usize) -> (r: usize)
    requires
        len == text::utf8_len(chars@),
    ensures
        r == suffix_start(chars@, right_budget as nat),
        r <= chars@.len(),
{
    let start: usize = if len >= right_budget {
        len - right_budget
    } else {
        0
    };
    let mut k: usize = 0;
    let mut passed: usize = 0;
    assert(chars@.take(0) =~= Seq::empty());
    while k < chars.len() && passed < start
        invariant
            k <= chars@.len(),
            len == text::utf8_len(chars@),
            passed == text::utf8_len(chars@.take(k as int)),
            k > 0 ==> text::utf8_len(chars@.take(k - 1)) < start,
        decreases chars@.len() - k,
    {
        proof {
            assert(chars@.take(k + 1).drop_last() =~= chars@.take(k as int));
            assert(chars@.take(k + 1).last() == chars@[k as int]);
            text::lemma_utf8_len_take(chars@, k + 1);
        }
        passed = passed + text::char_width(chars[k]);
        k += 1;
    }
    proof {
        lemma_reaching(chars@, start as nat, k as int);
        lemma_next_newline(chars@, k as nat);
    }
    if passed == start {
        let mut j: usize = k;
        while j < chars.len() && chars[j] != '\n'
            invariant
                k <= j <= chars@.len(),
                next_newline(chars@, k as nat) == next_newline(chars@, j as nat),
            decreases chars@.len() - j,
        {
            j += 1;
        }
        if j < chars.len() {
            return j + 1;
        }
    }
    k
}

/// `s` with what lies between `p` and `q` replaced by a marker and, where a byte is left for it, a
/// line break.
fn glue(chars: &Vec<char>, p: usize, mark: &str, q: usize, max_bytes: usize) -> (r: String)
    requires
        p <= chars@.len(),
        q <= chars@.len(),
        kept_len(chars@, p as nat, mark@, q as nat) <= max_bytes,
    ensures
        r@ == glued(chars@, p as nat, mark@, q as nat, max_bytes as nat),
        text::utf8_len(r@) <= max_bytes,
{
    let n: usize = chars.len();
    let mut out = text::from_chars(chars, 0, p);
    let tail = text::from_chars(chars, q, n);
    proof {
        assert(chars@.subrange(0, p as int) =~= chars@.take(p as int));
        assert(chars@.subrange(q as int, n as int) =~= chars@.skip(q as int));
        lemma_glued_fits(chars@, p as nat, mark@, q as nat, max_bytes as nat);
    }
    let used: usize = text::byte_len(out.as_str()) + text::byte_len(mark) + text::byte_len(
        tail.as_str(),
    );
    out.append(mark);
    if used < max_bytes {
        out.push('\n');
    }
    out.append(tail.as_str());
    assert(out@ =~= glued(chars@, p as nat, mark@, q as nat, max_bytes as nat));
    out
}

/// As much of the marker as fits.
fn fitting_marker(tokens: u64, max_bytes: usize) -> (r: String)
    ensures
        r@ == beginning(marker(tokens), max_bytes as nat),
        text::utf8_len(r@) <= max_bytes,
{
    let mark = marker_text(tokens);
    if text::byte_len(mark.as_str()) <= max_bytes {
        proof {
            assert(mark@.take(mark@.len() as int) =~= mark@);
            lemma_fitting(mark@, max_bytes as nat, mark@.len() as int);
        }
        return mark;
    }
    let chars = text::to_chars(mark.as_str());
    let (k, _) = fit_prefix(&chars, max_bytes);
    assert(chars@.subrange(0, k as int) =~= chars@.take(k as int));
    text::from_chars(&chars, 0, k)
}

/// The estimate of a text's tokens where no tokenizer is at hand: four bytes to a token.
pub open spec fn estimated_tokens(s: Seq<char>) -> int {
    (text::utf8_len(s) as int + 3) / 4
}

/// The estimate of a text's tokens where no tokenizer is at hand: four bytes to a token.
pub fn estimate_tokens(s: &str) -> (r: u64)
    ensures
        r == estimated_tokens(s@),
{
    let len: u64 = text::byte_len(s) as u64;
    if len % 4 == 0 {
        len / 4
    } else {
        len / 4 + 1
    }
}

/// Truncates the middle of a text to at most `max_bytes` bytes, preserving the beginning and the
/// end. Returns the possibly truncated text and the number of tokens of the whole, as `token_count`
/// counts them, if truncation occurred; otherwise the text itself and `None`.
pub fn truncate_middle<F: Fn(&str) -> u64>(s: &str, max_bytes: usize, token_count: F) -> (r: (
    String,
    Option<u64>,
))
    requires
        forall|t: &str| call_requires(token_count, (t,)),
    ensures
        forall|tokens: spec_fn(Seq<char>) -> u64|
            counts_by(token_count, tokens) ==> (r.0@, r.1) == #[trigger] truncated(
                s@,
                max_bytes as nat,
                tokens,
            ),
        r.1 is Some <==> text::utf8_len(s@) > max_bytes,
        r.1 is None ==> r.0@ == s@,
        text::utf8_len(r.0@) <= max_bytes,
{
    let len = text::byte_len(s);
    if len <= max_bytes {
        return (s.to_owned(), None);
    }
    let total_tokens = token_count(s);
    let chars = text::to_chars(s);
    let mut guess_tokens: u64 = 1;
    let mut rounds: u64 = MARKER_ROUNDS;
    loop
        invariant
            forall|t: &str| call_requires(token_count, (t,)),
            chars@ == s@,
            len == text::utf8_len(s@),
            len > max_bytes,
            rounds <= MARKER_ROUNDS,
            forall|tokens: spec_fn(Seq<char>) -> u64|
                counts_by(token_count, tokens) ==> #[trigger] truncated(
                    s@,
                    max_bytes as nat,
                    tokens,
                ) == (
                    attempt(
                        s@,
                        max_bytes as nat,
                        total_tokens,
                        guess_tokens,
                        rounds as nat,
                        tokens,
                    ),
                    Some(total_tokens),
                ),
        decreases rounds,
    {
        let mark = marker_text(guess_tokens);
        let mark_len = text::byte_len(mark.as_str());
        if max_bytes <= mark_len {
            return (fitting_marker(total_tokens, max_bytes), Some(total_tokens));
        }
        let keep: usize = max_bytes - mark_len;
        let left: usize = keep / 2;
        let p = pick_prefix_end(&chars, left);
        let mut q = pick_suffix_start(&chars, len, keep - left);
        if q < p {
            q = p;
        }
        proof {
            lemma_cut_fits(s@, keep as nat);
        }
        if rounds == 0 {
            let out = glue(&chars, p, mark.as_str(), q, max_bytes);
            return (out, Some(total_tokens));
        }
        let middle = text::from_chars(&chars, p, q);
        let removed_tokens = token_count(middle.as_str());
        let final_mark = marker_text(removed_tokens);
        if text::byte_len(final_mark.as_str()) == mark_len {
            let out = glue(&chars, p, final_mark.as_str(), q, max_bytes);
            return (out, Some(total_tokens));
        }
        guess_tokens = removed_tokens;
        rounds -= 1;
    }
}

pub proof fn lemma_fitting_fits(s: Seq<char>, budget: nat)
    ensures
        fitting(s, budget) <= s.len(),
        text::utf8_len(s.take(fitting(s, budget) as int)) <= budget,
    decreases s.len(),
{
    if s.len() == 0 {
        assert(s.take(0) =~= Seq::empty());
    } else if text::utf8_len(s) <= budget {
        assert(s.take(s.len() as int) =~= s);
    } else {
        lemma_fitting_fits(s.drop_last(), budget);
        let k = fitting(s, budget) as int;
        assert(s.drop_last().take(k) =~= s.take(k));
    }
}

proof fn lemma_reaching_reaches(s: Seq<char>, start: nat)
    requires
        start <= text::utf8_len(s),
    ensures
        reaching(s, start) <= s.len(),
        text::utf8_len(s.take(reaching(s, start) as int)) >= start,
    decreases s.len(),
{
    if s.len() == 0 {
        assert(s.take(0) =~= s);
    } else if text::utf8_len(s.drop_last()) < start {
        assert(s.take(s.len() as int) =~= s);
    } else {
        lemma_reaching_reaches(s.drop_last(), start);
        let k = reaching(s, start) as int;
        assert(s.drop_last().take(k) =~= s.take(k));
    }
}

/// The kept prefix and the kept suffix stay within their halves of the budget and do not overlap.
proof fn lemma_cut_fits(s: Seq<char>, keep: nat)
    ensures
        cut(s, keep).0 <= cut(s, keep).1 <= s.len(),
        text::utf8_len(s.take(cut(s, keep).0 as int)) + text::utf8_len(
            s.skip(cut(s, keep).1 as int),
        ) <= keep,
{
    let left = keep / 2;
    let right = (keep - keep / 2) as nat;
    let len = text::utf8_len(s);
    lemma_fitting_fits(s, left);
    let k = fitting(s, left);
    let head = s.take(k as int);
    lemma_after_last_newline(head);
    let p = prefix_end(s, left);
    text::lemma_utf8_len_take(head, p as int);
    assert(head.take(p as int) =~= s.take(p as int));
    let start = if len >= right {
        (len - right) as nat
    } else {
        0
    };
    lemma_reaching_reaches(s, start);
    let j = reaching(s, start);
    lemma_next_newline(s, j);
    let q = suffix_start(s, right);
    assert(j <= q <= s.len());
    text::lemma_utf8_len_take(s, j as int);
    text::lemma_utf8_len_take(s.skip(j as int), (q - j) as int);
    assert(s.skip(j as int).skip((q - j) as int) =~= s.skip(q as int));
    if q < p {
        text::lemma_utf8_len_take(s.skip(q as int), (p - q) as int);
        assert(s.skip(q as int).skip((p - q) as int) =~= s.skip(p as int));
    }
}

/// A text that is put together from pieces that fit has at most `max_bytes` bytes.
proof fn lemma_glued_fits(s: Seq<char>, p: nat, mark: Seq<char>, q: nat, max_bytes: nat)
    requires
        kept_len(s, p, mark, q) <= max_bytes,
    ensures
        text::utf8_len(glued(s, p, mark, q, max_bytes)) <= max_bytes,
{
    let a = s.take(p as int);
    let br = line_break(kept_len(s, p, mark, q), max_bytes);
    let z = s.skip(q as int);
    text::lemma_utf8_len_concat(a, mark);
    text::lemma_utf8_len_concat(a + mark, br);
    text::lemma_utf8_len_concat(a + mark + br, z);
    assert(text::utf8_len(Seq::<char>::empty()) == 0);
    if br.len() > 0 {
        assert(br.drop_last() =~= Seq::<char>::empty());
        assert(br.last() == '\n');
        assert(text::utf8_len(br) == 1);
    }
}

/// Whether `out` is `s` with its middle replaced by the marker for `n` tokens, where what is kept
/// and the marker together have at most `max_bytes` bytes.
pub open spec fn is_cut_of(
    out: Seq<char>,
    s: Seq<char>,
    max_bytes: nat,
    p: nat,
    q: nat,
    n: u64,
) -> bool {
    &&& p <= q <= s.len()
    &&& out == glued(s, p, marker(n), q, max_bytes)
    &&& kept_len(s, p, marker(n), q) <= max_bytes
}

proof fn lemma_attempt_cuts(
    s: Seq<char>,
    max_bytes: nat,
    total: u64,
    guess: u64,
    rounds: nat,
    tokens: spec_fn(Seq<char>) -> u64,
)
    ensures
        attempt(s, max_bytes, total, guess, rounds, tokens) == beginning(marker(total), max_bytes)
            || exists|p: nat, q: nat, n: u64|
            is_cut_of(attempt(s, max_bytes, total, guess, rounds, tokens), s, max_bytes, p, q, n),
    decreases rounds,
{
    let len = text::utf8_len(marker(guess));
    let out = attempt(s, max_bytes, total, guess, rounds, tokens);
    if max_bytes > len {
        let keep = (max_bytes - len) as nat;
        let (p, q) = cut(s, keep);
        lemma_cut_fits(s, keep);
        if rounds == 0 {
            assert(is_cut_of(out, s, max_bytes, p, q, guess));
        } else {
            let removed = tokens(s.subrange(p as int, q as int));
            if text::utf8_len(marker(removed)) == len {
                assert(is_cut_of(out, s, max_bytes, p, q, removed));
            } else {
                lemma_attempt_cuts(s, max_bytes, total, removed, (rounds - 1) as nat, tokens);
            }
        }
    }
}

/// Truncation preserves the beginning and the end of a text and nothing else: the result is as much
/// of the marker as fits, or a beginning of the text, a marker, a line break where a byte is left
/// for it, and an end of the text.
pub proof fn law_truncation_keeps_both_ends(
    s: Seq<char>,
    max_bytes: nat,
    tokens: spec_fn(Seq<char>) -> u64,
)
    requires
        text::utf8_len(s) > max_bytes,
    ensures
        truncated(s, max_bytes, tokens).0 == beginning(marker(tokens(s)), max_bytes) || exists|
            p: nat,
            q: nat,
            n: u64,
        | is_cut_of(truncated(s, max_bytes, tokens).0, s, max_bytes, p, q, n),
{
    lemma_attempt_cuts(s, max_bytes, tokens(s), 1, MARKER_ROUNDS as nat, tokens);
}

/// Whatever the text, the limit and the way tokens are counted, the result has at most `max_bytes`
/// bytes.
pub proof fn law_cut_text_fits(
    s: Seq<char>,
    max_bytes: nat,
    tokens: spec_fn(Seq<char>) -> u64,
)
    ensures
        text::utf8_len(truncated(s, max_bytes, tokens).0) <= max_bytes,
{
    if text::utf8_len(s) > max_bytes {
        let out = truncated(s, max_bytes, tokens).0;
        lemma_attempt_cuts(s, max_bytes, tokens(s), 1, MARKER_ROUNDS as nat, tokens);
        lemma_fitting_fits(marker(tokens(s)), max_bytes);
        if out != beginning(marker(tokens(s)), max_bytes) {
            let (p, q, n) = choose|p: nat, q: nat, n: u64| is_cut_of(out, s, max_bytes, p, q, n);
            lemma_glued_fits(s, p, marker(n), q, max_bytes);
        }
    }
}

/// A text that fits is returned as it is, and only such a text.
pub proof fn law_text_that_fits_is_unchanged(
    s: Seq<char>,
    max_bytes: nat,
    tokens: spec_fn(Seq<char>) -> u64,
)
    ensures
        truncated(s, max_bytes, tokens).1 is None <==> text::utf8_len(s) <= max_bytes,
        text::utf8_len(s) <= max_bytes ==> truncated(s, max_bytes, tokens).0 == s,
{
}

/// What is put in the place of what was cut out says how many tokens that was.
pub proof fn law_marker_says_how_much(tokens: u64)
    ensures
        marker(tokens) == "…"@ + text::decimal(tokens as nat) + " tokens truncated…"@,
{
}

/// As much of the beginning is taken as fits, and not one character more or less.
pub proof fn law_as_much_as_fits(s: Seq<char>, budget: nat)
    ensures
        ({
            let k = fitting(s, budget);
            &&& k <= s.len()
            &&& text::utf8_len(s.take(k as int)) <= budget
            &&& k < s.len() ==> text::utf8_len(s.take((k + 1) as int)) > budget
        }),
    decreases s.len(),
{
    lemma_fitting_fits(s, budget);
    if s.len() > 0 && text::utf8_len(s) > budget {
        let shorter = s.drop_last();
        law_as_much_as_fits(shorter, budget);
        let k = fitting(s, budget);
        assert(k == fitting(shorter, budget));
        if k < shorter.len() {
            assert(s.take((k + 1) as int) =~= shorter.take((k + 1) as int));
        } else {
            assert(s.take((k + 1) as int) =~= s);
        }
    }
}

/// The place that is reached is the first with so many bytes before it.
proof fn lemma_first_reached(s: Seq<char>, start: nat)
    requires
        start <= text::utf8_len(s),
    ensures
        ({
            let k = reaching(s, start);
            &&& k <= s.len()
            &&& text::utf8_len(s.take(k as int)) >= start
            &&& k > 0 ==> text::utf8_len(s.take(k - 1)) < start
        }),
    decreases s.len(),
{
    lemma_reaching_reaches(s, start);
    if s.len() > 0 {
        let shorter = s.drop_last();
        if text::utf8_len(shorter) < start {
            assert(s.take(s.len() - 1) =~= shorter);
        } else {
            lemma_first_reached(shorter, start);
            let k = reaching(shorter, start);
            if k > 0 {
                assert(s.take(k - 1) =~= shorter.take(k - 1));
            }
        }
    }
}

proof fn lemma_newline_before(s: Seq<char>)
    ensures
        ({
            let k = after_last_newline(s);
            &&& k <= s.len()
            &&& k > 0 ==> s[k - 1] == '\n'
            &&& forall|i: int| k <= i < s.len() ==> #[trigger] s[i] != '\n'
        }),
    decreases s.len(),
{
    if s.len() > 0 && s.last() != '\n' {
        lemma_newline_before(s.drop_last());
        assert forall|i: int| after_last_newline(s) <= i < s.len() implies #[trigger] s[i]
            != '\n' by {
            if i < s.len() - 1 {
                assert(s.drop_last()[i] == s[i]);
            }
        }
    }
}

/// Of the beginning as much is kept as half of the room holds; only where that is filled to the last
/// byte is it taken back to the end of a line, if there is one, and then to the last.
pub proof fn law_beginning_is_kept(s: Seq<char>, budget: nat)
    ensures
        ({
            let p = prefix_end(s, budget);
            &&& p <= s.len()
            &&& text::utf8_len(s.take(p as int)) <= budget
            &&& exists|k: int|
                {
                    &&& p <= k <= s.len()
                    &&& #[trigger] text::utf8_len(s.take(k)) <= budget
                    &&& k < s.len() ==> text::utf8_len(s.take(k + 1)) > budget
                    &&& p < k ==> text::utf8_len(s.take(k)) == budget && p > 0 && s[p - 1] == '\n'
                    &&& text::utf8_len(s.take(k)) == budget && p > 0 && s[p - 1] == '\n'
                        ==> forall|i: int| p <= i < k ==> #[trigger] s[i] != '\n'
                }
        }),
{
    law_as_much_as_fits(s, budget);
    let k = fitting(s, budget) as int;
    let head = s.take(k);
    lemma_newline_before(head);
    let p = prefix_end(s, budget) as int;
    text::lemma_utf8_len_take(head, p);
    assert(head.take(p) =~= s.take(p));
    if p > 0 && p <= head.len() {
        assert(head[p - 1] == s[p - 1]);
    }
    assert forall|i: int|
        p <= i < k && text::utf8_len(s.take(k)) == budget && p > 0 && s[p - 1] == '\n' implies #[trigger] s[i]
        != '\n' by {
        assert(head[i] == s[i]);
        if after_last_newline(head) == 0 {
            assert(head[p - 1] != '\n');
        }
    }
    assert(text::utf8_len(s.take(k)) <= budget);
}

/// A text that is too long is cut once, to both sides of a marker that tells the tokens of what is
/// gone, where the marker for those is as long as the one that room was left for; and where it is
/// not, room is left for that one instead.
pub proof fn law_room_is_left_for_the_marker(
    s: Seq<char>,
    max_bytes: nat,
    tokens: spec_fn(Seq<char>) -> u64,
)
    requires
        text::utf8_len(s) > max_bytes,
    ensures
        ({
            let out = truncated(s, max_bytes, tokens).0;
            let len1 = text::utf8_len(marker(1));
            let cut1 = cut(s, (max_bytes - len1) as nat);
            let gone1 = tokens(s.subrange(cut1.0 as int, cut1.1 as int));
            let len2 = text::utf8_len(marker(gone1));
            let cut2 = cut(s, (max_bytes - len2) as nat);
            let gone2 = tokens(s.subrange(cut2.0 as int, cut2.1 as int));
            &&& truncated(s, max_bytes, tokens).1 == Some(tokens(s))
            &&& max_bytes <= len1 ==> out == beginning(marker(tokens(s)), max_bytes)
            &&& max_bytes > len1 && len2 == len1 ==> out == glued(
                s,
                cut1.0,
                marker(gone1),
                cut1.1,
                max_bytes,
            )
            &&& max_bytes > len1 && len2 != len1 && max_bytes <= len2 ==> out == beginning(
                marker(tokens(s)),
                max_bytes,
            )
            &&& max_bytes > len1 && len2 != len1 && max_bytes > len2 && text::utf8_len(
                marker(gone2),
            ) == len2 ==> out == glued(s, cut2.0, marker(gone2), cut2.1, max_bytes)
        }),
{
    reveal_with_fuel(attempt, 3);
}

/// The room is shared out evenly: half of it, rounded down, goes to the beginning, and the rest to
/// the end, and what is kept of both fits.
pub proof fn law_room_is_shared_out(s: Seq<char>, keep: nat)
    ensures
        ({
            let (p, q) = cut(s, keep);
            &&& p <= q <= s.len()
            &&& p == prefix_end(s, keep / 2)
            &&& text::utf8_len(s.take(p as int)) <= keep / 2
            &&& text::utf8_len(s.skip(q as int)) <= keep - keep / 2
        }),
{
    lemma_cut_fits(s, keep);
    law_beginning_is_kept(s, keep / 2);
    let right = (keep - keep / 2) as nat;
    let len = text::utf8_len(s);
    let start = if len >= right {
        (len - right) as nat
    } else {
        0
    };
    lemma_first_reached(s, start);
    let k = reaching(s, start);
    lemma_next_newline(s, k);
    let q0 = suffix_start(s, right) as int;
    let q = cut(s, keep).1 as int;
    text::lemma_utf8_len_take(s, k as int);
    text::lemma_utf8_len_take(s.skip(k as int), q - k);
    assert(s.skip(k as int).skip(q - k) =~= s.skip(q));
}

/// Of the end as much is kept as its room holds, from a character on; only where a character begins
/// right there is the rest of its line left out too, if another line follows.
pub proof fn law_end_is_kept(s: Seq<char>, budget: nat)
    requires
        text::utf8_len(s) >= budget,
    ensures
        ({
            let q = suffix_start(s, budget);
            &&& q <= s.len()
            &&& text::utf8_len(s.skip(q as int)) <= budget
            &&& exists|k: int|
                {
                    &&& 0 <= k <= q
                    &&& #[trigger] text::utf8_len(s.skip(k)) <= budget
                    &&& k > 0 ==> text::utf8_len(s.skip(k - 1)) > budget
                    &&& k < q ==> text::utf8_len(s.skip(k)) == budget && s[q - 1] == '\n' && forall|
                        i: int,
                    |
                        k <= i < q - 1 ==> #[trigger] s[i] != '\n'
                    &&& k == q && text::utf8_len(s.skip(k)) == budget ==> forall|i: int|
                        k <= i < s.len() ==> #[trigger] s[i] != '\n'
                }
        }),
{
    let start = (text::utf8_len(s) - budget) as nat;
    lemma_first_reached(s, start);
    let k = reaching(s, start) as int;
    lemma_next_newline_is_next(s, k as nat);
    text::lemma_utf8_len_take(s, k);
    if k > 0 {
        text::lemma_utf8_len_take(s, k - 1);
    }
    let q = suffix_start(s, budget) as int;
    text::lemma_utf8_len_take(s.skip(k), q - k);
    assert(s.skip(k).skip(q - k) =~= s.skip(q));
    assert(text::utf8_len(s.skip(k)) <= budget);
}

proof fn lemma_next_newline_is_next(s: Seq<char>, from: nat)
    requires
        from <= s.len(),
    ensures
        ({
            let k = next_newline(s, from);
            &&& from <= k <= s.len()
            &&& k < s.len() ==> s[k as int] == '\n'
            &&& forall|i: int| from <= i < k ==> #[trigger] s[i] != '\n'
        }),
    decreases s.len() - from,
{
    if from < s.len() && s[from as int] != '\n' {
        lemma_next_newline_is_next(s, from + 1);
    }
}

/// What is kept of a text stands on both sides of the marker; a line break follows the marker where
/// there is room for it, and nothing else is added.
pub proof fn law_marker_stands_between(
    s: Seq<char>,
    p: nat,
    mark: Seq<char>,
    q: nat,
    max_bytes: nat,
)
    ensures
        ({
            let used = text::utf8_len(s.take(p as int)) + text::utf8_len(mark) + text::utf8_len(
                s.skip(q as int),
            );
            &&& used < max_bytes ==> glued(s, p, mark, q, max_bytes) == s.take(p as int) + mark
                + seq!['\n'] + s.skip(q as int)
            &&& used >= max_bytes ==> glued(s, p, mark, q, max_bytes) == s.take(p as int) + mark
                + s.skip(q as int)
        }),
{
    let none = Seq::<char>::empty();
    assert(s.take(p as int) + mark + none =~= s.take(p as int) + mark);
}

/// Four bytes are counted as a token, and a rest as one more.
pub proof fn law_four_bytes_make_a_token(s: Seq<char>)
    ensures
        ({
            let n = estimated_tokens(s);
            4 * n - 4 < text::utf8_len(s) <= 4 * n
        }),
{
}

/// The tokens of what is gone where room is left for the marker of a guess.
pub open spec fn gone_with(
    s: Seq<char>,
    max_bytes: nat,
    guess: u64,
    tokens: spec_fn(Seq<char>) -> u64,
) -> u64 {
    let (p, q) = cut(s, (max_bytes - text::utf8_len(marker(guess))) as nat);
    tokens(s.subrange(p as int, q as int))
}

/// A text that is cut where room is left for the marker of a guess, with a marker of its own.
pub open spec fn cut_with(
    s: Seq<char>,
    max_bytes: nat,
    guess: u64,
    told: u64,
) -> Seq<char> {
    let (p, q) = cut(s, (max_bytes - text::utf8_len(marker(guess))) as nat);
    glued(s, p, marker(told), q, max_bytes)
}

/// The marker is fitted up to four times: the first time that its length is the one that room was
/// left for, it tells the tokens that are gone; and where that never happens, the last guess.
pub proof fn law_marker_is_fitted_four_times(
    s: Seq<char>,
    max_bytes: nat,
    tokens: spec_fn(Seq<char>) -> u64,
)
    requires
        text::utf8_len(s) > max_bytes,
    ensures
        ({
            let out = truncated(s, max_bytes, tokens).0;
            let len = |n: u64| text::utf8_len(marker(n));
            let g1 = 1u64;
            let g2 = gone_with(s, max_bytes, g1, tokens);
            let g3 = gone_with(s, max_bytes, g2, tokens);
            let g4 = gone_with(s, max_bytes, g3, tokens);
            let g5 = gone_with(s, max_bytes, g4, tokens);
            len(g1) < max_bytes && len(g2) < max_bytes && len(g3) < max_bytes && len(g4) < max_bytes
                && len(g5) < max_bytes ==> if len(g2) == len(g1) {
                out == cut_with(s, max_bytes, g1, g2)
            } else if len(g3) == len(g2) {
                out == cut_with(s, max_bytes, g2, g3)
            } else if len(g4) == len(g3) {
                out == cut_with(s, max_bytes, g3, g4)
            } else if len(g5) == len(g4) {
                out == cut_with(s, max_bytes, g4, g5)
            } else {
                out == cut_with(s, max_bytes, g5, g5)
            }
        }),
{
    reveal_with_fuel(attempt, 6);
}

} // verus!
