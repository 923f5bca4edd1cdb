//! How long an interactive command is waited for, how much of its output is kept, and what a piece
//! of output is called.
use vstd::prelude::*;

use crate::text;
use crate::truncate;

verus! {

pub const DEFAULT_YIELD_TIME_MS: u64 = 10_000;

pub const MIN_YIELD_TIME_MS: u64 = 250;

pub const MAX_YIELD_TIME_MS: u64 = 30_000;

pub const DEFAULT_MAX_OUTPUT_TOKENS: usize = 10_000;

/// The number of digits of a chunk's name.
pub const CHUNK_ID_LENGTH: usize = 6;

/// How long a command is waited for.
pub open spec fn yield_time(yield_time_ms: Option<u64>) -> u64 {
    match yield_time_ms {
        Some(value) => if value < MIN_YIELD_TIME_MS {
            MIN_YIELD_TIME_MS
        } else if value > MAX_YIELD_TIME_MS {
            MAX_YIELD_TIME_MS
        } else {
            value
        },
        None => DEFAULT_YIELD_TIME_MS,
    }
}

pub fn clamp_yield_time(yield_time_ms: Option<u64>) -> (r: u64)
    ensures
        r == yield_time(yield_time_ms),
        MIN_YIELD_TIME_MS <= r <= MAX_YIELD_TIME_MS,
{
    match yield_time_ms {
        Some(value) => {
            if value < MIN_YIELD_TIME_MS {
                MIN_YIELD_TIME_MS
            } else if value > MAX_YIELD_TIME_MS {
                MAX_YIELD_TIME_MS
            } else {
                value
            }
        },
        None => DEFAULT_YIELD_TIME_MS,
    }
}

pub fn resolve_max_tokens(max_tokens: Option<usize>) -> (r: usize)
    ensures
        r == match max_tokens {
            Some(n) => n,
            None => DEFAULT_MAX_OUTPUT_TOKENS,
        },
        max_tokens is None ==> r == 10_000,
{
    match max_tokens {
        Some(n) => n,
        None => DEFAULT_MAX_OUTPUT_TOKENS,
    }
}

/// `rand::Rng::random_range` on the generator of `rand::rng` draws a number from the range; which
/// one is a matter of chance.
#[verifier::external_body]
fn random_digit() -> (d: u8)
    ensures
        d < 16,
{
    rand::Rng::random_range(&mut rand::rng(), 0u8..16u8)
}

/// The digits by themselves.
pub open spec fn hex_text(digits: Seq<u8>) -> Seq<char> {
    Seq::new(digits.len(), |i: int| text::digit_char(digits[i] as int))
}

/// The text of hexadecimal digits.
pub fn hex_digits(digits: &Vec<u8>) -> (r: String)
    requires
        forall|i: int| 0 <= i < digits@.len() ==> #[trigger] digits@[i] < 16,
    ensures
        r@ == hex_text(digits@),
{
    let mut out = String::new();
    let mut i: usize = 0;
    while i < digits.len()
        invariant
            i <= digits@.len(),
            forall|i: int| 0 <= i < digits@.len() ==> #[trigger] digits@[i] < 16,
            out@ == hex_text(digits@).take(i as int),
        decreases digits@.len() - i,
    {
        out.push(text::digit(digits[i]));
        assert(hex_text(digits@).take(i + 1) =~= hex_text(digits@).take(i as int).push(
            hex_text(digits@)[i as int],
        ));
        i += 1;
    }
    assert(hex_text(digits@).take(i as int) =~= hex_text(digits@));
    out
}

/// A name for a piece of output: six hexadecimal digits, drawn by chance.
pub fn generate_chunk_id() -> (r: String)
    ensures
        exists|digits: Seq<u8>|
            digits.len() == CHUNK_ID_LENGTH && (forall|i: int|
                0 <= i < digits.len() ==> #[trigger] digits[i] < 16) && r@ == #[trigger] hex_text(
                digits,
            ),
        r@.len() == 6,
{
    let mut digits: Vec<u8> = Vec::new();
    while digits.len() < CHUNK_ID_LENGTH
        invariant
            digits@.len() <= CHUNK_ID_LENGTH,
            forall|i: int| 0 <= i < digits@.len() ==> #[trigger] digits@[i] < 16,
        decreases CHUNK_ID_LENGTH - digits@.len(),
    {
        digits.push(random_digit());
    }
    hex_digits(&digits)
}

/// The text and, where it was truncated, its length. A character counts as a token: half of what
/// is kept comes from the beginning, half from the end.
pub open spec fn truncated_to_tokens(output: Seq<char>, max_tokens: nat) -> (
    Seq<char>,
    Option<nat>,
) {
    let total = output.len();
    let half = max_tokens / 2;
    if max_tokens == 0 {
        (truncate::marker(total as u64), Some(total))
    } else if total <= max_tokens {
        (output, None)
    } else if half == 0 {
        (truncate::marker((total - max_tokens) as u64), Some(total))
    } else {
        (
            output.take(half as int) + truncate::marker((total - half * 2) as u64) + output.skip(
                total - half,
            ),
            Some(total),
        )
    }
}

/// Keeps about `max_tokens` characters of an output.
pub fn truncate_output_to_tokens(output: &str, max_tokens: usize) -> (r: (String, Option<usize>))
    ensures
        r.0@ == truncated_to_tokens(output@, max_tokens as nat).0,
        match r.1 {
            Some(n) => truncated_to_tokens(output@, max_tokens as nat).1 == Some(n as nat),
            None => truncated_to_tokens(output@, max_tokens as nat).1 is None,
        },
{
    let tokens = text::to_chars(output);
    let total: usize = tokens.len();
    if max_tokens == 0 {
        return (truncate::marker_text(total as u64), Some(total));
    }
    if total <= max_tokens {
        return (output.to_owned(), None);
    }
    let half: usize = max_tokens / 2;
    if half == 0 {
        return (truncate::marker_text((total - max_tokens) as u64), Some(total));
    }
    let mut out = text::from_chars(&tokens, 0, half);
    let mark = truncate::marker_text((total - half * 2) as u64);
    let tail = text::from_chars(&tokens, total - half, total);
    out.append(mark.as_str());
    out.append(tail.as_str());
    proof {
        assert(tokens@.subrange(0, half as int) =~= output@.take(half as int));
        assert(tokens@.subrange(total - half, total as int) =~= output@.skip(total - half));
    }
    (out, Some(total))
}

/// The wait for a command is always between the shortest and the longest that is allowed.
pub proof fn law_yield_time_is_capped(yield_time_ms: Option<u64>)
    ensures
        MIN_YIELD_TIME_MS <= yield_time(yield_time_ms) <= MAX_YIELD_TIME_MS,
{
}

/// Of an output that is truncated, no more than the limit is kept, and the number that the marker
/// gives is that of the characters that are gone, where some are kept.
pub proof fn law_truncation_to_tokens(output: Seq<char>, max_tokens: nat)
    requires
        2 <= max_tokens < output.len(),
        output.len() <= u64::MAX,
    ensures
        ({
            let half = max_tokens / 2;
            let gone = output.len() - half * 2;
            &&& half * 2 <= max_tokens
            &&& gone > 0
            &&& truncated_to_tokens(output, max_tokens).0 == output.take(half as int)
                + truncate::marker(gone as u64) + output.skip(output.len() - half)
        }),
{
}

/// A command is waited for as long as was asked, but not less than a quarter of a second nor more
/// than half a minute, and for ten seconds where nothing was asked.
pub proof fn law_waiting_stays_within_limits(asked: u64)
    ensures
        yield_time(None) == 10_000,
        asked < 250 ==> yield_time(Some(asked)) == 250,
        250 <= asked <= 30_000 ==> yield_time(Some(asked)) == asked,
        asked > 30_000 ==> yield_time(Some(asked)) == 30_000,
{
}

/// An output that fits stays as it is; of one that does not, the halves at both ends are kept and
/// the marker tells how much is gone, and where nothing can be kept only the marker stays. The
/// length is told exactly where something is gone.
pub proof fn law_output_is_cut_to_tokens(output: Seq<char>, max_tokens: nat)
    ensures
        ({
            let (text, told) = truncated_to_tokens(output, max_tokens);
            let half = max_tokens / 2;
            &&& max_tokens > 0 && output.len() <= max_tokens ==> text == output && told is None
            &&& max_tokens == 0 || output.len() > max_tokens ==> told == Some(output.len())
            &&& max_tokens == 0 ==> text == truncate::marker(output.len() as u64)
            &&& max_tokens == 1 && output.len() > 1 ==> text == truncate::marker(
                (output.len() - 1) as u64,
            )
            &&& max_tokens >= 2 && output.len() > max_tokens ==> text == output.subrange(
                0,
                half as int,
            ) + truncate::marker((output.len() - 2 * half) as u64) + output.subrange(
                output.len() - half,
                output.len() as int,
            )
        }),
{
    let half = max_tokens / 2;
    if max_tokens >= 2 && output.len() > max_tokens {
        assert(half <= output.len());
        assert(output.take(half as int) =~= output.subrange(0, half as int));
        assert(output.skip(output.len() - half) =~= output.subrange(
            output.len() - half,
            output.len() as int,
        ));
    }
}

/// An identity is written with one character for each of its digits: 0 to 9 and a to f.
pub proof fn law_identity_is_written_in_hex(digits: Seq<u8>, i: int)
    requires
        0 <= i < digits.len(),
        digits[i] < 16,
    ensures
        hex_text(digits).len() == digits.len(),
        digits[i] < 10 ==> hex_text(digits)[i] as int == '0' as int + digits[i],
        digits[i] >= 10 ==> hex_text(digits)[i] as int == 'a' as int + digits[i] - 10,
{
    text::law_digits_have_their_characters(digits[i] as int);
}

} // verus!
