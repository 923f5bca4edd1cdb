//! The rate limits and credits that a response carries in its headers.
use vstd::prelude::*;

use crate::protocol::{CreditsSnapshot, RateLimitSnapshot, RateLimitWindow};
use crate::text;

verus! {

#[verifier::external_type_specification]
#[verifier::external_body]
pub struct ExHeaderValue(reqwest::header::HeaderValue);

#[verifier::external_type_specification]
#[verifier::external_body]
#[verifier::reject_recursive_types(T)]
pub struct ExHeaderMap<T>(reqwest::header::HeaderMap<T>);

/// What a `HeaderMap` holds: for each name, in lowercase, the bytes of its first value.
pub uninterp spec fn header_values(
    headers: reqwest::header::HeaderMap<reqwest::header::HeaderValue>,
) -> Map<Seq<char>, Seq<u8>>;

/// `HeaderMap::get` returns the first of the values under a name, of which these are the bytes,
/// and nothing where there is no value under it. Case counts for nothing in a name.
#[verifier::external_body]
pub(crate) fn header_bytes(
    headers: &reqwest::header::HeaderMap<reqwest::header::HeaderValue>,
    name: &str,
) -> (r: Option<Vec<u8>>)
    ensures
        match r {
            Some(value) => header_values(*headers).contains_key(text::ascii_lower(name@)) && value@
                == header_values(*headers)[text::ascii_lower(name@)],
            None => !header_values(*headers).contains_key(text::ascii_lower(name@)),
        },
{
    headers.get(name).map(|value| value.as_bytes().to_vec())
}

/// The bytes that stand for themselves in a header's text: visible ASCII, space and tab.
pub open spec fn is_visible(b: u8) -> bool {
    32 <= b && b < 127 || b == 9
}

/// The text of bytes that are all visible.
pub open spec fn visible_text(bytes: Seq<u8>) -> Option<Seq<char>> {
    if forall|i: int| 0 <= i < bytes.len() ==> is_visible(#[trigger] bytes[i]) {
        Some(Seq::new(bytes.len(), |i: int| bytes[i] as char))
    } else {
        None
    }
}

/// The text of a header, where there is one and it is all visible.
pub open spec fn header_text(values: Map<Seq<char>, Seq<u8>>, name: Seq<char>) -> Option<
    Seq<char>,
> {
    if values.contains_key(name) {
        visible_text(values[name])
    } else {
        None
    }
}

/// The value of a run of decimal digits.
pub open spec fn digits_value(s: Seq<char>) -> nat
    decreases s.len(),
{
    if s.len() == 0 {
        0
    } else {
        digits_value(s.drop_last()) * 10 + ((s.last() as u32 - '0' as u32) as nat)
    }
}

/// Whether a text is a run of one or more decimal digits.
pub open spec fn all_digits(s: Seq<char>) -> bool {
    s.len() > 0 && forall|i: int| 0 <= i < s.len() ==> '0' <= #[trigger] s[i] && s[i] <= '9'
}

/// The number that a text stands for: digits with an optional sign before them.
pub open spec fn signed_number(s: Seq<char>) -> Option<int> {
    let negative = s.len() > 0 && s[0] == '-';
    let digits = if s.len() > 0 && (s[0] == '-' || s[0] == '+') {
        s.skip(1)
    } else {
        s
    };
    if !all_digits(digits) {
        None
    } else if negative {
        Some(-digits_value(digits))
    } else {
        Some(digits_value(digits) as int)
    }
}

/// The number that a text stands for, where it fits an `i64`.
pub open spec fn parsed_i64(s: Seq<char>) -> Option<int> {
    match signed_number(s) {
        Some(n) => if i64::MIN <= n <= i64::MAX {
            Some(n)
        } else {
            None
        },
        None => None,
    }
}

/// The number that a text stands for, where it has no minus sign and fits a `u64`.
pub open spec fn parsed_u64(s: Seq<char>) -> Option<int> {
    if s.len() > 0 && s[0] == '-' {
        None
    } else {
        match signed_number(s) {
            Some(n) => if n <= u64::MAX {
                Some(n)
            } else {
                None
            },
            None => None,
        }
    }
}

/// The truth value that a text stands for: `true` and `false` in any case, or `1` and `0`.
pub open spec fn parsed_bool(s: Seq<char>) -> Option<bool> {
    if text::ascii_lower(s) == "true"@ || s == "1"@ {
        Some(true)
    } else if text::ascii_lower(s) == "false"@ || s == "0"@ {
        Some(false)
    } else {
        None
    }
}

pub open spec fn is_blank(c: char) -> bool {
    c == ' ' || c == '\t'
}

/// A visible text without the blanks before and after it.
pub open spec fn trimmed(s: Seq<char>) -> Seq<char>
    decreases s.len(),
{
    if s.len() > 0 && is_blank(s[0]) {
        trimmed(s.skip(1))
    } else if s.len() > 0 && is_blank(s.last()) {
        trimmed(s.drop_last())
    } else {
        s
    }
}

/// The balance that a text gives, unless it is blank.
pub open spec fn parsed_balance(s: Option<Seq<char>>) -> Option<Seq<char>> {
    match s {
        Some(t) => if trimmed(t).len() > 0 {
            Some(trimmed(t))
        } else {
            None
        },
        None => None,
    }
}

/// The number that a header gives.
pub open spec fn header_i64(values: Map<Seq<char>, Seq<u8>>, name: Seq<char>) -> Option<int> {
    match header_text(values, name) {
        Some(t) => parsed_i64(t),
        None => None,
    }
}

/// The truth value that a header gives.
pub open spec fn header_bool(values: Map<Seq<char>, Seq<u8>>, name: Seq<char>) -> Option<bool> {
    match header_text(values, name) {
        Some(t) => parsed_bool(t),
        None => None,
    }
}

/// Whether the bits are those of a finite binary64 number.
pub open spec fn finite_bits(bits: u64) -> bool {
    bits as int % 0x8000_0000_0000_0000 < 0x7ff0_0000_0000_0000
}

/// Whether the bits are those of a zero, positive or negative.
pub open spec fn zero_bits(bits: u64) -> bool {
    bits as int % 0x8000_0000_0000_0000 == 0
}

/// An optional number as an integer.
pub open spec fn optional_int(n: Option<i64>) -> Option<int> {
    match n {
        Some(i) => Some(i as int),
        None => None,
    }
}

/// Whether `window` is what a percentage and the two headers give: nothing without a finite
/// percentage, nor where all three say nothing.
pub open spec fn is_window_of(
    window: Option<RateLimitWindow>,
    used_percent_bits: Option<u64>,
    window_minutes: Option<int>,
    resets_at: Option<int>,
) -> bool {
    match window {
        Some(w) => {
            &&& used_percent_bits == Some(w.used_percent_bits)
            &&& finite_bits(w.used_percent_bits)
            &&& optional_int(w.window_minutes) == window_minutes
            &&& optional_int(w.resets_at) == resets_at
            &&& !zero_bits(w.used_percent_bits) || (window_minutes is Some && window_minutes
                != Some(0int)) || resets_at is Some
        },
        None => match used_percent_bits {
            Some(bits) => !finite_bits(bits) || (zero_bits(bits) && (window_minutes is None
                || window_minutes == Some(0int)) && resets_at is None),
            None => true,
        },
    }
}

/// Whether `credits` is what the headers give: nothing unless both truth values are there.
pub open spec fn is_credits_of(
    credits: Option<CreditsSnapshot>,
    values: Map<Seq<char>, Seq<u8>>,
) -> bool {
    let has_credits = header_bool(values, "x-codex-credits-has-credits"@);
    let unlimited = header_bool(values, "x-codex-credits-unlimited"@);
    match credits {
        Some(c) => {
            &&& has_credits == Some(c.has_credits)
            &&& unlimited == Some(c.unlimited)
            &&& crate::path::optional_text(c.balance) == parsed_balance(
                header_text(values, "x-codex-credits-balance"@),
            )
        },
        None => has_credits is None || unlimited is None,
    }
}

/// The text of a header, where there is one and it is all visible.
pub fn parse_header_str(
    headers: &reqwest::header::HeaderMap<reqwest::header::HeaderValue>,
    name: &str,
) -> (r: Option<String>)
    ensures
        crate::path::optional_text(r) == header_text(
            header_values(*headers),
            text::ascii_lower(name@),
        ),
{
    match header_bytes(headers, name) {
        Some(bytes) => visible_string(&bytes),
        None => None,
    }
}

/// The text of bytes that are all visible.
pub fn visible_string(bytes: &Vec<u8>) -> (r: Option<String>)
    ensures
        crate::path::optional_text(r) == visible_text(bytes@),
{
    let ghost whole = Seq::new(bytes@.len(), |i: int| bytes@[i] as char);
    let mut out = String::new();
    let mut i: usize = 0;
    while i < bytes.len()
        invariant
            i <= bytes@.len(),
            whole == Seq::new(bytes@.len(), |i: int| bytes@[i] as char),
            out@ == whole.take(i as int),
            forall|j: int| 0 <= j < i ==> is_visible(#[trigger] bytes@[j]),
        decreases bytes@.len() - i,
    {
        let b: u8 = bytes[i];
        if !(32 <= b && b < 127 || b == 9) {
            assert(!is_visible(bytes@[i as int]));
            return None;
        }
        out.push(b as char);
        assert(whole.take(i + 1) =~= whole.take(i as int).push(whole[i as int]));
        i += 1;
    }
    assert(whole.take(i as int) =~= whole);
    Some(out)
}

/// The value of the digits from `from` on, where it is at most `u64::MAX`; nothing where a
/// character is no digit.
fn parse_digits(chars: &Vec<char>, from: usize) -> (r: Option<u64>)
    requires
        from <= chars@.len(),
    ensures
        match r {
            Some(n) => all_digits(chars@.skip(from as int)) && digits_value(
                chars@.skip(from as int),
            ) == n,
            None => !all_digits(chars@.skip(from as int)) || digits_value(chars@.skip(from as int))
                > u64::MAX,
        },
{
    let ghost digits = chars@.skip(from as int);
    if from == chars.len() {
        return None;
    }
    let mut n: u64 = 0;
    let mut i: usize = from;
    assert(digits.take(0) =~= Seq::empty());
    while i < chars.len()
        invariant
            from <= i <= chars@.len(),
            digits == chars@.skip(from as int),
            n == digits_value(digits.take(i - from)),
            forall|j: int| 0 <= j < i - from ==> '0' <= #[trigger] digits[j] && digits[j] <= '9',
        decreases chars@.len() - i,
    {
        let c = chars[i];
        let ghost k = i - from;
        proof {
            assert(digits[k] == c);
            assert(digits.take(k + 1).drop_last() =~= digits.take(k));
            assert(digits.take(k + 1).last() == c);
        }
        if !('0' <= c && c <= '9') {
            return None;
        }
        let d: u64 = (c as u32 - 48) as u64;
        if n > (u64::MAX - d) / 10 {
            proof {
                lemma_digits_grow(digits, k + 1);
            }
            return None;
        }
        n = n * 10 + d;
        i += 1;
    }
    assert(digits.take(i - from) =~= digits);
    Some(n)
}

/// A longer run of digits has no smaller value.
proof fn lemma_digits_grow(s: Seq<char>, k: int)
    requires
        0 <= k <= s.len(),
        forall|j: int| 0 <= j < k ==> '0' <= #[trigger] s[j] && s[j] <= '9',
    ensures
        all_digits(s) ==> digits_value(s.take(k)) <= digits_value(s),
    decreases s.len() - k,
{
    if k == s.len() {
        assert(s.take(k) =~= s);
    } else if all_digits(s) {
        assert('0' <= s[k] && s[k] <= '9');
        assert(s.take(k + 1).drop_last() =~= s.take(k));
        lemma_digits_grow(s, k + 1);
    }
}

/// The number that a text stands for, where it fits an `i64`.
pub fn parse_i64(s: &str) -> (r: Option<i64>)
    ensures
        optional_int(r) == parsed_i64(s@),
{
    let chars = text::to_chars(s);
    let negative = chars.len() > 0 && chars[0] == '-';
    let from: usize = if chars.len() > 0 && (chars[0] == '-' || chars[0] == '+') {
        1
    } else {
        0
    };
    assert(chars@.skip(0) =~= chars@);
    match parse_digits(&chars, from) {
        Some(n) => {
            if negative {
                if n == 9223372036854775808 {
                    Some(i64::MIN)
                } else if n < 9223372036854775808 {
                    Some(-(n as i64))
                } else {
                    None
                }
            } else if n <= 9223372036854775807 {
                Some(n as i64)
            } else {
                None
            }
        },
        None => None,
    }
}

/// The number that a text stands for, where it has no minus sign and fits a `u64`.
pub fn parse_u64(s: &str) -> (r: Option<u64>)
    ensures
        match r {
            Some(n) => parsed_u64(s@) == Some(n as int),
            None => parsed_u64(s@) is None,
        },
{
    let chars = text::to_chars(s);
    if chars.len() > 0 && chars[0] == '-' {
        return None;
    }
    let from: usize = if chars.len() > 0 && chars[0] == '+' {
        1
    } else {
        0
    };
    assert(chars@.skip(0) =~= chars@);
    parse_digits(&chars, from)
}

/// The truth value that a text stands for.
pub fn parse_bool(raw: &str) -> (r: Option<bool>)
    ensures
        r == parsed_bool(raw@),
{
    let lower = text::to_ascii_lowercase(raw);
    if text::same(lower.as_str(), "true") || text::same(raw, "1") {
        Some(true)
    } else if text::same(lower.as_str(), "false") || text::same(raw, "0") {
        Some(false)
    } else {
        None
    }
}

/// The balance that a text gives, unless it is blank.
pub fn parse_balance(raw: Option<String>) -> (r: Option<String>)
    ensures
        crate::path::optional_text(r) == parsed_balance(crate::path::optional_text(raw)),
{
    match raw {
        Some(value) => {
            let chars = text::to_chars(value.as_str());
            let mut from: usize = 0;
            let mut to: usize = chars.len();
            assert(chars@.subrange(0, to as int) =~= chars@);
            while from < to && (chars[from] == ' ' || chars[from] == '\t')
                invariant
                    chars@ == value@,
                    from <= to <= chars@.len(),
                    trimmed(value@) == trimmed(chars@.subrange(from as int, to as int)),
                decreases to - from,
            {
                assert(chars@.subrange(from as int, to as int).skip(1) =~= chars@.subrange(
                    from + 1,
                    to as int,
                ));
                from += 1;
            }
            while from < to && (chars[to - 1] == ' ' || chars[to - 1] == '\t')
                invariant
                    chars@ == value@,
                    from <= to <= chars@.len(),
                    from < to ==> !is_blank(chars@[from as int]),
                    trimmed(value@) == trimmed(chars@.subrange(from as int, to as int)),
                decreases to - from,
            {
                assert(chars@.subrange(from as int, to as int).drop_last() =~= chars@.subrange(
                    from as int,
                    to - 1,
                ));
                to -= 1;
            }
            assert(trimmed(value@) =~= chars@.subrange(from as int, to as int));
            if from == to {
                None
            } else {
                Some(text::from_chars(&chars, from, to))
            }
        },
        None => None,
    }
}

pub fn parse_header_i64(
    headers: &reqwest::header::HeaderMap<reqwest::header::HeaderValue>,
    name: &str,
) -> (r: Option<i64>)
    ensures
        optional_int(r) == header_i64(
            header_values(*headers),
            text::ascii_lower(name@),
        ),
{
    match parse_header_str(headers, name) {
        Some(raw) => parse_i64(raw.as_str()),
        None => None,
    }
}

pub fn parse_header_bool(
    headers: &reqwest::header::HeaderMap<reqwest::header::HeaderValue>,
    name: &str,
) -> (r: Option<bool>)
    ensures
        r == header_bool(header_values(*headers), text::ascii_lower(name@)),
{
    match parse_header_str(headers, name) {
        Some(raw) => parse_bool(raw.as_str()),
        None => None,
    }
}

/// The window of a rate limit, from its percentage and the numbers of its headers.
pub fn rate_limit_window(
    used_percent_bits: Option<u64>,
    window_minutes: Option<i64>,
    resets_at: Option<i64>,
) -> (r: Option<RateLimitWindow>)
    ensures
        is_window_of(
            r,
            used_percent_bits,
            optional_int(window_minutes),
            optional_int(resets_at),
        ),
{
    match used_percent_bits {
        Some(bits) => {
            if bits % 0x8000_0000_0000_0000 >= 0x7ff0_0000_0000_0000 {
                return None;
            }
            let has_data = bits % 0x8000_0000_0000_0000 != 0 || (match window_minutes {
                Some(minutes) => minutes != 0,
                None => false,
            }) || resets_at.is_some();
            if has_data {
                Some(RateLimitWindow { used_percent_bits: bits, window_minutes, resets_at })
            } else {
                None
            }
        },
        None => None,
    }
}

/// The window of a rate limit. The percentage is what the number in its own header is parsed to.
pub fn parse_rate_limit_window(
    headers: &reqwest::header::HeaderMap<reqwest::header::HeaderValue>,
    used_percent_bits: Option<u64>,
    window_minutes_header: &str,
    resets_at_header: &str,
) -> (r: Option<RateLimitWindow>)
    ensures
        is_window_of(
            r,
            used_percent_bits,
            header_i64(
                header_values(*headers),
                text::ascii_lower(window_minutes_header@),
            ),
            header_i64(
                header_values(*headers),
                text::ascii_lower(resets_at_header@),
            ),
        ),
{
    let window_minutes = parse_header_i64(headers, window_minutes_header);
    let resets_at = parse_header_i64(headers, resets_at_header);
    rate_limit_window(used_percent_bits, window_minutes, resets_at)
}

/// What is left of the credits, as the headers tell.
pub fn parse_credits_snapshot(
    headers: &reqwest::header::HeaderMap<reqwest::header::HeaderValue>,
) -> (r: Option<CreditsSnapshot>)
    ensures
        is_credits_of(r, header_values(*headers)),
{
    proof {
        lemma_header_names_are_lowercase();
    }
    let has_credits = match parse_header_bool(headers, "x-codex-credits-has-credits") {
        Some(b) => b,
        None => return None,
    };
    let unlimited = match parse_header_bool(headers, "x-codex-credits-unlimited") {
        Some(b) => b,
        None => return None,
    };
    let balance = parse_balance(parse_header_str(headers, "x-codex-credits-balance"));
    Some(CreditsSnapshot { has_credits, unlimited, balance })
}

/// The rate limits that a response reports. The percentages of the primary and the secondary
/// window are what the numbers in `x-codex-primary-used-percent` and
/// `x-codex-secondary-used-percent` are parsed to.
pub fn parse_rate_limit_snapshot(
    headers: &reqwest::header::HeaderMap<reqwest::header::HeaderValue>,
    primary_used_percent_bits: Option<u64>,
    secondary_used_percent_bits: Option<u64>,
) -> (r: Option<RateLimitSnapshot>)
    ensures
        r is Some,
        is_window_of(
            (r->0).primary,
            primary_used_percent_bits,
            header_i64(header_values(*headers), "x-codex-primary-window-minutes"@),
            header_i64(header_values(*headers), "x-codex-primary-reset-at"@),
        ),
        is_window_of(
            (r->0).secondary,
            secondary_used_percent_bits,
            header_i64(header_values(*headers), "x-codex-secondary-window-minutes"@),
            header_i64(header_values(*headers), "x-codex-secondary-reset-at"@),
        ),
        is_credits_of((r->0).credits, header_values(*headers)),
{
    proof {
        lemma_header_names_are_lowercase();
    }
    let primary = parse_rate_limit_window(
        headers,
        primary_used_percent_bits,
        "x-codex-primary-window-minutes",
        "x-codex-primary-reset-at",
    );
    let secondary = parse_rate_limit_window(
        headers,
        secondary_used_percent_bits,
        "x-codex-secondary-window-minutes",
        "x-codex-secondary-reset-at",
    );
    let credits = parse_credits_snapshot(headers);
    Some(RateLimitSnapshot { primary, secondary, credits })
}

proof fn lemma_header_names_are_lowercase()
    ensures
        text::ascii_lower("x-codex-credits-has-credits"@) == "x-codex-credits-has-credits"@,
        text::ascii_lower("x-codex-credits-unlimited"@) == "x-codex-credits-unlimited"@,
        text::ascii_lower("x-codex-credits-balance"@) == "x-codex-credits-balance"@,
        text::ascii_lower("x-codex-primary-window-minutes"@) == "x-codex-primary-window-minutes"@,
        text::ascii_lower("x-codex-primary-reset-at"@) == "x-codex-primary-reset-at"@,
        text::ascii_lower("x-codex-secondary-window-minutes"@)
            == "x-codex-secondary-window-minutes"@,
        text::ascii_lower("x-codex-secondary-reset-at"@) == "x-codex-secondary-reset-at"@,
{
    reveal_strlit("x-codex-credits-has-credits");
    reveal_strlit("x-codex-credits-unlimited");
    reveal_strlit("x-codex-credits-balance");
    reveal_strlit("x-codex-primary-window-minutes");
    reveal_strlit("x-codex-primary-reset-at");
    reveal_strlit("x-codex-secondary-window-minutes");
    reveal_strlit("x-codex-secondary-reset-at");
    assert(text::ascii_lower("x-codex-credits-has-credits"@) =~= "x-codex-credits-has-credits"@);
    assert(text::ascii_lower("x-codex-credits-unlimited"@) =~= "x-codex-credits-unlimited"@);
    assert(text::ascii_lower("x-codex-credits-balance"@) =~= "x-codex-credits-balance"@);
    assert(text::ascii_lower("x-codex-primary-window-minutes"@)
        =~= "x-codex-primary-window-minutes"@);
    assert(text::ascii_lower("x-codex-primary-reset-at"@) =~= "x-codex-primary-reset-at"@);
    assert(text::ascii_lower("x-codex-secondary-window-minutes"@)
        =~= "x-codex-secondary-window-minutes"@);
    assert(text::ascii_lower("x-codex-secondary-reset-at"@) =~= "x-codex-secondary-reset-at"@);
}

/// A header is text where each of its bytes is a visible character, a space or a tab, and the text
/// has those characters.
pub proof fn law_visible_bytes_are_text(bytes: Seq<u8>)
    ensures
        visible_text(bytes) is Some <==> forall|i: int|
            0 <= i < bytes.len() ==> (32 <= #[trigger] bytes[i] <= 126 || bytes[i] == 9),
        visible_text(bytes) matches Some(t) ==> t.len() == bytes.len() && forall|i: int|
            0 <= i < bytes.len() ==> #[trigger] t[i] as u32 == bytes[i],
{
    if forall|i: int| 0 <= i < bytes.len() ==> (32 <= #[trigger] bytes[i] <= 126 || bytes[i] == 9) {
        assert forall|i: int| 0 <= i < bytes.len() implies is_visible(#[trigger] bytes[i]) by {}
    } else {
        let i = choose|i: int|
            0 <= i < bytes.len() && !(32 <= #[trigger] bytes[i] <= 126 || bytes[i] == 9);
        assert(!is_visible(bytes[i]));
    }
}

proof fn lemma_numeral_value(n: nat)
    ensures
        digits_value(text::decimal(n)) == n,
        all_digits(text::decimal(n)),
    decreases n,
{
    text::law_numerals_are_short(n);
    let s = text::decimal(n);
    text::law_digits_have_their_characters((n % 10) as int);
    if n < 10 {
        assert(s.drop_last() =~= Seq::empty());
        assert(digits_value(s.drop_last()) == 0);
    } else {
        lemma_numeral_value(n / 10);
        assert(s.drop_last() =~= text::decimal(n / 10));
    }
}

/// A number that is written down is read back, as long as it fits; and one that does not fit is not
/// read at all.
pub proof fn law_numbers_are_read_back(n: int)
    ensures
        -0x8000_0000_0000_0000 <= n <= 0x7fff_ffff_ffff_ffff <==> parsed_i64(
            text::signed_decimal(n),
        ) == Some(n),
        !(-0x8000_0000_0000_0000 <= n <= 0x7fff_ffff_ffff_ffff) ==> parsed_i64(
            text::signed_decimal(n),
        ) is None,
        0 <= n <= 0xffff_ffff_ffff_ffff <==> parsed_u64(text::signed_decimal(n)) == Some(n),
        !(0 <= n <= 0xffff_ffff_ffff_ffff) ==> parsed_u64(text::signed_decimal(n)) is None,
        n >= 0 ==> parsed_i64(seq!['+'] + text::signed_decimal(n)) == parsed_i64(
            text::signed_decimal(n),
        ),
{
    let s = text::signed_decimal(n);
    if n < 0 {
        let digits = text::decimal((-n) as nat);
        lemma_numeral_value((-n) as nat);
        assert(s[0] == '-');
        assert(s.skip(1) =~= digits);
    } else {
        lemma_numeral_value(n as nat);
        assert('0' <= s[0] && s[0] <= '9');
        let signed = seq!['+'] + s;
        assert(signed.skip(1) =~= s);
        assert(signed[0] == '+');
    }
}

/// A text with anything but digits behind its sign is no number, and neither is a sign alone.
pub proof fn law_other_texts_are_no_numbers(s: Seq<char>, i: int)
    requires
        s.len() == 0 || (s.len() == 1 && (s[0] == '-' || s[0] == '+')) || (0 <= i < s.len() && !('0'
            <= s[i] <= '9') && (i > 0 || (s[0] != '-' && s[0] != '+'))),
    ensures
        parsed_i64(s) is None,
        parsed_u64(s) is None,
{
    if s.len() > 0 {
        if s[0] == '-' || s[0] == '+' {
            let digits = s.skip(1);
            if s.len() > 1 {
                assert(digits[i - 1] == s[i]);
            }
        }
    }
}

/// Yes is `true` or `1` and no is `false` or `0`, the words in any case; anything else is neither.
pub proof fn law_yes_and_no(s: Seq<char>)
    ensures
        parsed_bool(s) == Some(true) <==> text::ascii_lower(s) == "true"@ || s == "1"@,
        parsed_bool(s) == Some(false) <==> text::ascii_lower(s) == "false"@ || s == "0"@,
{
    reveal_strlit("true");
    reveal_strlit("false");
    reveal_strlit("1");
    reveal_strlit("0");
    assert("true"@.len() != "false"@.len());
    assert("1"@[0] != "0"@[0]);
}

proof fn lemma_trim_leading(blanks: Seq<char>, rest: Seq<char>)
    requires
        forall|i: int| 0 <= i < blanks.len() ==> (#[trigger] blanks[i]) == ' ' || blanks[i] == '\t',
    ensures
        trimmed(blanks + rest) == trimmed(rest),
    decreases blanks.len(),
{
    if blanks.len() == 0 {
        assert(blanks + rest =~= rest);
    } else {
        assert(is_blank(blanks[0]));
        assert((blanks + rest).skip(1) =~= blanks.skip(1) + rest);
        assert forall|i: int| 0 <= i < blanks.skip(1).len() implies (#[trigger] blanks.skip(1)[i])
            == ' ' || blanks.skip(1)[i] == '\t' by {
            assert(blanks.skip(1)[i] == blanks[i + 1]);
        }
        lemma_trim_leading(blanks.skip(1), rest);
    }
}

proof fn lemma_trim_trailing(core: Seq<char>, blanks: Seq<char>)
    requires
        core.len() > 0,
        !is_blank(core[0]),
        !is_blank(core.last()),
        forall|i: int| 0 <= i < blanks.len() ==> (#[trigger] blanks[i]) == ' ' || blanks[i] == '\t',
    ensures
        trimmed(core + blanks) == core,
    decreases blanks.len(),
{
    if blanks.len() == 0 {
        assert(core + blanks =~= core);
    } else {
        assert(is_blank(blanks[blanks.len() - 1]));
        assert((core + blanks).drop_last() =~= core + blanks.drop_last());
        assert((core + blanks)[0] == core[0]);
        lemma_trim_trailing(core, blanks.drop_last());
    }
}

/// A balance is what stands between blanks, and a blank one is none.
pub proof fn law_balance_stands_between_blanks(before: Seq<char>, core: Seq<char>, after: Seq<char>)
    requires
        forall|i: int| 0 <= i < before.len() ==> (#[trigger] before[i]) == ' ' || before[i] == '\t',
        forall|i: int| 0 <= i < after.len() ==> (#[trigger] after[i]) == ' ' || after[i] == '\t',
        core.len() > 0,
        core[0] != ' ' && core[0] != '\t',
        core.last() != ' ' && core.last() != '\t',
    ensures
        parsed_balance(Some(before + (core + after))) == Some(core),
        parsed_balance(Some(before)) is None,
        parsed_balance(None) is None,
{
    lemma_trim_leading(before, core + after);
    lemma_trim_trailing(core, after);
    let none = Seq::<char>::empty();
    lemma_trim_leading(before, none);
    assert(before + none =~= before);
    assert(trimmed(none) == none);
}

/// A header is read under its name, and there as the number or the answer that its text is.
pub proof fn law_headers_are_read_under_their_names(
    values: Map<Seq<char>, Seq<u8>>,
    name: Seq<char>,
)
    ensures
        !values.contains_key(name) ==> header_text(values, name) is None && header_i64(values, name)
            is None && header_bool(values, name) is None,
        values.contains_key(name) ==> header_text(values, name) == visible_text(values[name]),
        header_text(values, name) is Some ==> header_i64(values, name) == parsed_i64(
            header_text(values, name)->0,
        ) && header_bool(values, name) == parsed_bool(header_text(values, name)->0),
        header_text(values, name) is None ==> header_i64(values, name) is None && header_bool(
            values,
            name,
        ) is None,
{
}

/// There is a window exactly where its share is a finite number and it says anything at all: a share
/// that is not zero, a length that is not zero, or a time at which it ends.
pub proof fn law_window_says_something(
    window: Option<RateLimitWindow>,
    used_percent_bits: Option<u64>,
    minutes: Option<int>,
    resets_at: Option<int>,
)
    requires
        is_window_of(window, used_percent_bits, minutes, resets_at),
    ensures
        used_percent_bits is None ==> window is None,
        used_percent_bits is Some ==> ({
            let bits = used_percent_bits->0;
            let magnitude = bits as int % 0x8000_0000_0000_0000;
            let finite = magnitude < 0x7ff0_0000_0000_0000;
            window is Some <==> finite && (magnitude != 0 || (minutes is Some && minutes->0 != 0)
                || resets_at is Some)
        }),
        window is Some ==> {
            &&& used_percent_bits == Some((window->0).used_percent_bits)
            &&& (window->0).window_minutes is Some <==> minutes is Some
            &&& minutes is Some ==> (window->0).window_minutes->0 == minutes->0
            &&& (window->0).resets_at is Some <==> resets_at is Some
            &&& resets_at is Some ==> (window->0).resets_at->0 == resets_at->0
        },
{
}

/// Credits are told where both answers about them can be read, with the balance where there is one.
pub proof fn law_credits_are_told(
    credits: Option<CreditsSnapshot>,
    values: Map<Seq<char>, Seq<u8>>,
)
    requires
        is_credits_of(credits, values),
    ensures
        credits is Some <==> header_bool(values, "x-codex-credits-has-credits"@) is Some
            && header_bool(values, "x-codex-credits-unlimited"@) is Some,
        credits is Some ==> {
            &&& header_bool(values, "x-codex-credits-has-credits"@) == Some((credits->0).has_credits)
            &&& header_bool(values, "x-codex-credits-unlimited"@) == Some((credits->0).unlimited)
            &&& match header_text(values, "x-codex-credits-balance"@) {
                Some(t) => match (credits->0).balance {
                    Some(b) => parsed_balance(Some(t)) == Some(b@),
                    None => parsed_balance(Some(t)) is None,
                },
                None => (credits->0).balance is None,
            }
        },
{
}

/// The limits are read from their headers: those of the primary window, those of the secondary one
/// and the credits, each under its own names.
pub proof fn law_limits_are_read_from_their_headers(
    map: reqwest::header::HeaderMap<reqwest::header::HeaderValue>,
    primary_bits: Option<u64>,
    secondary_bits: Option<u64>,
    r: Option<RateLimitSnapshot>,
)
    requires
        call_ensures(parse_rate_limit_snapshot, (&map, primary_bits, secondary_bits), r),
    ensures
        r is Some,
        is_window_of(
            (r->0).primary,
            primary_bits,
            header_i64(header_values(map), "x-codex-primary-window-minutes"@),
            header_i64(header_values(map), "x-codex-primary-reset-at"@),
        ),
        is_window_of(
            (r->0).secondary,
            secondary_bits,
            header_i64(header_values(map), "x-codex-secondary-window-minutes"@),
            header_i64(header_values(map), "x-codex-secondary-reset-at"@),
        ),
        is_credits_of((r->0).credits, header_values(map)),
{
}

} // verus!
