//! What the translation providers share: endpoint parsing, the
//! `Retry-After` header value and the retry schedule.

use vstd::prelude::*;
use crate::text::{decimal, decimal_text, digit, digit_char, push_char};

verus! {

/// The URL type of the HTTP client (`url::Url`, re-exported by `reqwest`).
#[verifier::external_type_specification]
#[verifier::external_body]
pub struct ExUrl(reqwest::Url);

/// The HTTP client type.
#[verifier::external_type_specification]
#[verifier::external_body]
pub struct ExClient(reqwest::Client);

/// The request timeout, as whole seconds and nanoseconds, that a
/// `reqwest::Client` was built with.
pub uninterp spec fn client_timeout(c: reqwest::Client) -> (u64, u32);

/// Calls `reqwest::Client::builder().timeout(..).build()` with the timeout
/// `Duration::new(secs, nanos)`; a client that is built carries that timeout
/// (named [`client_timeout`]). Whether the client can be built depends on the
/// TLS and system set-up, which is not stated.
#[verifier::external_body]
pub(crate) fn build_client(secs: u64, nanos: u32) -> (r: Option<reqwest::Client>)
    requires
        nanos < 1_000_000_000,
    ensures
        r matches Some(c) ==> client_timeout(c) == (secs, nanos),
{
    reqwest::Client::builder().timeout(std::time::Duration::new(secs, nanos)).build().ok()
}

/// The digits after the point of a fraction `f`, whose first digit has the
/// place value `place`: digit by digit until nothing is left, so without
/// trailing zeros.
pub open spec fn fraction_text(f: nat, place: nat) -> Seq<char>
    decreases place,
{
    if f == 0 || place == 0 {
        seq![]
    } else {
        seq![digit_char((f / place) % 10)] + fraction_text(f % place, place / 10)
    }
}

/// A whole number, its fraction (if any) after a point, and a unit.
pub open spec fn decimal_and_unit(whole: nat, f: nat, place: nat, unit: Seq<char>) -> Seq<char> {
    decimal(whole) + (if f > 0 { "."@ + fraction_text(f, place) } else { seq![] }) + unit
}

/// How `Debug` writes a `Duration` of `secs` seconds and `nanos`
/// nanoseconds: in the largest unit that is not above it (seconds,
/// milliseconds, microseconds or nanoseconds), with every fractional digit
/// and no trailing zeros.
pub open spec fn duration_debug(secs: nat, nanos: nat) -> Seq<char> {
    if secs > 0 {
        decimal_and_unit(secs, nanos, 100_000_000, "s"@)
    } else if nanos >= 1_000_000 {
        decimal_and_unit(nanos / 1_000_000, nanos % 1_000_000, 100_000, "ms"@)
    } else if nanos >= 1_000 {
        decimal_and_unit(nanos / 1_000, nanos % 1_000, 100, "\u{b5}s"@)
    } else {
        decimal(nanos) + "ns"@
    }
}

fn fraction_digits(f: u64, place: u64) -> (r: String)
    ensures
        r@ == fraction_text(f as nat, place as nat),
    decreases place,
{
    if f == 0 || place == 0 {
        String::new()
    } else {
        let mut r = String::new();
        push_char(&mut r, digit((f / place) % 10));
        let rest = fraction_digits(f % place, place / 10);
        r.append(rest.as_str());
        proof {
            assert(r@ =~= seq![digit_char(((f / place) % 10) as nat)] + fraction_text((f % place) as nat, (place / 10) as nat));
        }
        r
    }
}

fn push_decimal_and_unit(d: &mut String, whole: u64, f: u64, place: u64, unit: &str)
    ensures
        final(d)@ == old(d)@ + decimal_and_unit(whole as nat, f as nat, place as nat, unit@),
{
    let w = decimal_text(whole);
    d.append(w.as_str());
    if f > 0 {
        d.append(".");
        let t = fraction_digits(f, place);
        d.append(t.as_str());
    }
    d.append(unit);
    proof {
        reveal_strlit(".");
        assert(final(d)@ =~= old(d)@ + decimal_and_unit(whole as nat, f as nat, place as nat, unit@));
    }
}

/// Appends the `Debug` text of the `Duration` of `secs` seconds and `nanos`
/// nanoseconds.
pub(crate) fn push_duration(d: &mut String, secs: u64, nanos: u32)
    requires
        nanos < 1_000_000_000,
    ensures
        final(d)@ == old(d)@ + duration_debug(secs as nat, nanos as nat),
{
    let n = nanos as u64;
    if secs > 0 {
        push_decimal_and_unit(d, secs, n, 100_000_000, "s");
    } else if n >= 1_000_000 {
        push_decimal_and_unit(d, n / 1_000_000, n % 1_000_000, 100_000, "ms");
    } else if n >= 1_000 {
        push_decimal_and_unit(d, n / 1_000, n % 1_000, 100, "\u{b5}s");
    } else {
        let w = decimal_text(n);
        d.append(w.as_str());
        d.append("ns");
        proof {
            assert(final(d)@ =~= old(d)@ + (decimal(n as nat) + "ns"@));
        }
    }
}

/// Whether `Url::parse` accepts a text as an absolute URL.
pub uninterp spec fn url_parses(s: Seq<char>) -> bool;

/// The scheme that `Url::parse` finds in a text it accepts.
pub uninterp spec fn url_scheme(s: Seq<char>) -> Seq<char>;

/// The serialization (`Url::as_str`) of the URL that `Url::parse` reads in a
/// text it accepts.
pub uninterp spec fn url_serialization(s: Seq<char>) -> Seq<char>;

/// Calls `reqwest::Url::parse` and reads the scheme and the serialization of
/// the parsed URL. Whether it succeeds, the scheme and the serialization are
/// named by [`url_parses`], [`url_scheme`] and [`url_serialization`].
#[verifier::external_body]
pub(crate) fn parse_url(s: &str) -> (r: Option<(String, String)>)
    ensures
        r is Some == url_parses(s@),
        r matches Some(p) ==> p.0@ == url_serialization(s@) && p.1@ == url_scheme(s@),
{
    reqwest::Url::parse(s).ok().map(|url| (url.as_str().to_string(), url.scheme().to_string()))
}

/// The value of a decimal digit character.
pub open spec fn digit_value(c: char) -> int {
    (c as int) - ('0' as int)
}

pub open spec fn is_digit(c: char) -> bool {
    '0' <= c && c <= '9'
}

/// The number that a string of decimal digits denotes.
pub open spec fn digits_value(s: Seq<char>) -> nat
    decreases s.len(),
{
    if s.len() == 0 {
        0
    } else {
        (digits_value(s.drop_last()) * 10 + digit_value(s.last())) as nat
    }
}

/// Every character is a decimal digit.
pub open spec fn all_digits(s: Seq<char>) -> bool {
    forall|i: int| 0 <= i < s.len() ==> is_digit(#[trigger] s[i])
}

/// The text without one leading `+`.
pub open spec fn unsigned_part(s: Seq<char>) -> Seq<char> {
    if s.len() > 0 && s[0] == '+' { s.drop_first() } else { s }
}

/// What `str::parse::<u64>` accepts: an optional `+` followed by at least one
/// decimal digit, denoting a value that fits in 64 bits.
pub open spec fn parsed_u64(s: Seq<char>) -> Option<u64> {
    if unsigned_part(s).len() > 0 && all_digits(unsigned_part(s)) && digits_value(unsigned_part(s)) <= u64::MAX {
        Some(digits_value(unsigned_part(s)) as u64)
    } else {
        None
    }
}

proof fn lemma_digits_value_push(s: Seq<char>, c: char)
    requires
        is_digit(c),
    ensures
        digits_value(s.push(c)) == digits_value(s) * 10 + digit_value(c),
{
    assert(s.push(c).drop_last() =~= s);
    assert(s.push(c).last() == c);
}

proof fn lemma_digits_value_grows(s: Seq<char>, c: char)
    requires
        is_digit(c),
    ensures
        digits_value(s.push(c)) >= digits_value(s),
{
    lemma_digits_value_push(s, c);
}

proof fn lemma_digits_prefix_bounded(s: Seq<char>, k: int)
    requires
        0 <= k <= s.len(),
        forall|i: int| 0 <= i < s.len() ==> is_digit(#[trigger] s[i]),
    ensures
        digits_value(s.take(k)) <= digits_value(s),
    decreases s.len() - k,
{
    if k < s.len() {
        lemma_digits_prefix_bounded(s, k + 1);
        assert(s.take(k + 1) =~= s.take(k).push(s[k]));
        lemma_digits_value_grows(s.take(k), s[k]);
    } else {
        assert(s.take(k) =~= s);
    }
}

/// Parses an unsigned decimal number the way `str::parse::<u64>` does.
pub fn parse_u64(text: &str) -> (r: Option<u64>)
    ensures
        r == parsed_u64(text@),
{
    let s = crate::text::chars_of(text);
    let n = s.len();
    let start: usize = if n > 0 && s[0] == '+' { 1 } else { 0 };
    let ghost digits = unsigned_part(text@);
    assert(digits =~= s@.subrange(start as int, n as int));
    if start >= n {
        return None;
    }
    let mut value: u64 = 0;
    let mut i = start;
    while i < n
        invariant
            start <= i <= n,
            n == s@.len(),
            start < n,
            digits == s@.subrange(start as int, n as int),
            digits == unsigned_part(text@),
            forall|j: int| start <= j < i ==> is_digit(#[trigger] s@[j]),
            value as nat == digits_value(s@.subrange(start as int, i as int)),
        decreases n - i,
    {
        let c = s[i];
        proof {
            assert(s@.subrange(start as int, i + 1) =~= s@.subrange(start as int, i as int).push(c));
            assert(digits[i - start] == c);
        }
        if !('0' <= c && c <= '9') {
            assert(!is_digit(digits[i - start]));
            assert(!all_digits(digits));
            return None;
        }
        proof {
            lemma_digits_value_push(s@.subrange(start as int, i as int), c);
        }
        let d = (c as u32 - '0' as u32) as u64;
        if value > (u64::MAX - d) / 10 {
            proof {
                assert(value * 10 + d > u64::MAX) by (nonlinear_arith)
                    requires value > (u64::MAX - d) / 10, d <= 9;
                assert(digits_value(s@.subrange(start as int, i + 1)) > u64::MAX);
                if all_digits(digits) {
                    lemma_digits_prefix_bounded(digits, i + 1 - start);
                    assert(digits.take(i + 1 - start) =~= s@.subrange(start as int, i + 1));
                    assert(digits_value(digits) > u64::MAX);
                    assert(!(digits_value(digits) <= u64::MAX));
                }

            }
            return None;
        }
        assert(value * 10 + d <= u64::MAX) by (nonlinear_arith)
            requires value <= (u64::MAX - d) / 10, d <= 9;
        value = value * 10 + d;
        i = i + 1;
    }
    proof {
        assert forall|j: int| 0 <= j < digits.len() implies is_digit(#[trigger] digits[j]) by {
            assert(digits[j] == s@[start + j]);
        }
        assert(s@.subrange(start as int, n as int) == digits);
    }
    Some(value)
}

/// How long to wait before the next attempt: the server's `Retry-After`
/// seconds, or an exponential back-off in milliseconds.
#[derive(Clone, Copy, Debug, PartialEq, Eq, Structural)]
pub enum RetryDelay {
    ServerSeconds(u64),
    BackoffMillis(u64),
}

/// Attempts a provider makes before giving up.
pub const MAX_ATTEMPTS: usize = 3;

/// The back-off after the failed attempt `attempt` (counted from 0): 25 ms,
/// then 50 ms, then 100 ms.
pub open spec fn backoff_millis(attempt: nat) -> nat
    decreases attempt,
{
    if attempt == 0 { 25 } else { 2 * backoff_millis((attempt - 1) as nat) }
}

/// The delay before the attempt that follows the failed attempt `attempt`.
pub fn retry_delay(attempt: usize, retry_after_secs: Option<u64>) -> (d: RetryDelay)
    requires
        attempt < MAX_ATTEMPTS,
    ensures
        d == (match retry_after_secs {
            Some(s) => RetryDelay::ServerSeconds(s),
            None => RetryDelay::BackoffMillis(backoff_millis(attempt as nat) as u64),
        }),
{
    match retry_after_secs {
        Some(s) => RetryDelay::ServerSeconds(s),
        None => {
            proof {
                reveal_with_fuel(backoff_millis, 4);
            }
            let ms: u64 = if attempt == 0 { 25 } else if attempt == 1 { 50 } else { 100 };
            RetryDelay::BackoffMillis(ms)
        },
    }
}

/// The delay in milliseconds (saturating for absurd server values).
pub open spec fn delay_millis(d: RetryDelay) -> nat {
    match d {
        RetryDelay::ServerSeconds(s) => (s * 1000) as nat,
        RetryDelay::BackoffMillis(m) => m as nat,
    }
}

pub fn delay_in_millis(d: RetryDelay) -> (ms: u64)
    ensures
        ms == if delay_millis(d) <= u64::MAX { delay_millis(d) } else { u64::MAX as nat },
{
    match d {
        RetryDelay::ServerSeconds(s) => if s <= u64::MAX / 1000 { s * 1000 } else { u64::MAX },
        RetryDelay::BackoffMillis(m) => m,
    }
}

} // verus!
