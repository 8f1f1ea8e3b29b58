//! Command-line values: durations such as `30s` or `2m`, and byte sizes
//! such as `512M` or `4G`.

use vstd::prelude::*;

verus! {

/// Nanoseconds in one second.
pub const NANOS_PER_SEC: u128 = 1_000_000_000;

/// What `humantime::parse_duration` makes of `text`: the duration as whole
/// seconds and the nanoseconds beyond them, or the text of its error.
pub uninterp spec fn humantime_duration(text: Seq<char>) -> Result<(u64, u32), Seq<char>>;

/// What `<bytesize::ByteSize as FromStr>::from_str` makes of `text`: the
/// number of bytes, or the text of its error.
pub uninterp spec fn bytesize_bytes(text: Seq<char>) -> Result<u64, Seq<char>>;

/// Most ASCII digits a duration text may hold. Every number that
/// `humantime::parse_duration` reads is made of ASCII digits, so a text with
/// at most this many digits stands for less than 10^11 years, about 3.2e18
/// seconds, below the 2^64 seconds at which its `Duration::new` can panic.
pub const MAX_DURATION_DIGITS: usize = 11;

/// Whether `c` is one of the ASCII digits `0` to `9`.
pub open spec fn is_ascii_digit(c: char) -> bool {
    '0' <= c && c <= '9'
}

/// Number of ASCII digits in `text`.
pub open spec fn digit_count(text: Seq<char>) -> nat
    decreases text.len(),
{
    if text.len() == 0 {
        0
    } else {
        digit_count(text.drop_last()) + if is_ascii_digit(text.last()) {
            1nat
        } else {
            0nat
        }
    }
}

/// `humantime::parse_duration`, its `Duration` taken apart into whole
/// seconds and sub-second nanoseconds, its error rendered as text.
/// Claimed: the outcome is `humantime_duration` of the text, and the
/// nanoseconds are below one second, as `Duration::subsec_nanos` documents.
/// The parser can panic in `Duration::new` when its running total reaches
/// exactly 2^64 seconds; the digit bound in `requires` keeps every total
/// far below that, so the call returns on every text it admits.
#[verifier::external_body]
fn humantime_parse(s: &str) -> (r: Result<(u64, u32), String>)
    requires
        digit_count(s@) <= MAX_DURATION_DIGITS,
    ensures
        match r {
            Ok(p) => humantime_duration(s@) == Ok::<(u64, u32), Seq<char>>(p) && p.1 < 1_000_000_000,
            Err(e) => humantime_duration(s@) == Err::<(u64, u32), Seq<char>>(e@),
        },
{
    match humantime::parse_duration(s) {
        Ok(d) => Ok((d.as_secs(), d.subsec_nanos())),
        Err(e) => Err(e.to_string()),
    }
}

/// `<bytesize::ByteSize as FromStr>::from_str`, its value taken as a byte
/// count. Claimed: the outcome is `bytesize_bytes` of the text.
#[verifier::external_body]
fn bytesize_parse(s: &str) -> (r: Result<u64, String>)
    ensures
        match r {
            Ok(n) => bytesize_bytes(s@) == Ok::<u64, Seq<char>>(n),
            Err(e) => bytesize_bytes(s@) == Err::<u64, Seq<char>>(e@),
        },
{
    match <bytesize::ByteSize as std::str::FromStr>::from_str(s) {
        Ok(b) => Ok(b.as_u64()),
        Err(e) => Err(e),
    }
}

/// Total nanoseconds of a duration given as seconds and sub-second nanos.
pub open spec fn total_nanos(secs: u64, nanos: u32) -> int {
    secs as int * NANOS_PER_SEC as int + nanos as int
}

/// Whether `s` holds at most `MAX_DURATION_DIGITS` ASCII digits.
pub fn has_few_digits(s: &str) -> (r: bool)
    ensures
        r == (digit_count(s@) <= MAX_DURATION_DIGITS),
{
    let mut count: usize = 0;
    for c in it: s.chars()
        invariant
            it.seq() == s@,
            count == digit_count(s@.take(it.index())),
            count <= MAX_DURATION_DIGITS,
    {
        proof {
            assert(s@.take(it.index() + 1).drop_last() == s@.take(it.index()));
        }
        if '0' <= c && c <= '9' {
            if count == MAX_DURATION_DIGITS {
                proof {
                    lemma_digit_count_prefix(s@, it.index() + 1);
                }
                return false;
            }
            count = count + 1;
        }
    }
    proof {
        assert(s@.take(s@.len() as int) == s@);
    }
    true
}

/// A prefix of a text holds no more digits than the text.
proof fn lemma_digit_count_prefix(text: Seq<char>, n: int)
    requires
        0 <= n <= text.len(),
    ensures
        digit_count(text.take(n)) <= digit_count(text),
    decreases text.len() - n,
{
    if n < text.len() {
        lemma_digit_count_prefix(text, n + 1);
        assert(text.take(n + 1).drop_last() == text.take(n));
    } else {
        assert(text.take(n) == text);
    }
}

/// The digits of two texts put together are the digits of each, added up.
pub proof fn lemma_digit_count_adds(s: Seq<char>, t: Seq<char>)
    ensures
        digit_count(s + t) == digit_count(s) + digit_count(t),
    decreases t.len(),
{
    if t.len() == 0 {
        assert(s + t == s);
    } else {
        lemma_digit_count_adds(s, t.drop_last());
        assert((s + t).drop_last() == s + t.drop_last());
    }
}

/// A single character counts as one digit when it is one of `0` to `9`,
/// and as none otherwise; a text counts no more digits than characters.
pub proof fn lemma_digit_count_one_per_digit(c: char, s: Seq<char>)
    ensures
        digit_count(seq![c]) == if '0' <= c && c <= '9' { 1nat } else { 0nat },
        digit_count(s.push(c)) == digit_count(s) + if '0' <= c && c <= '9' { 1nat } else { 0nat },
        digit_count(s) <= s.len(),
    decreases s.len(),
{
    assert(seq![c].drop_last() == Seq::<char>::empty());
    assert(digit_count(Seq::<char>::empty()) == 0);
    assert(seq![c].last() == c);
    assert(s.push(c).drop_last() == s);
    if s.len() > 0 {
        lemma_digit_count_one_per_digit(c, s.drop_last());
    }
}

/// The error text for a duration with more than `MAX_DURATION_DIGITS`
/// digits.
pub open spec fn too_many_digits_message() -> Seq<char> {
    "duration has too many digits (at most 11 are accepted)"@
}

/// Total nanoseconds of a duration given as whole seconds and the
/// nanoseconds beyond them.
pub fn total_nanos_of(secs: u64, nanos: u32) -> (r: u128)
    requires
        nanos < NANOS_PER_SEC,
    ensures
        r == total_nanos(secs, nanos),
        r / NANOS_PER_SEC == secs,
{
    proof {
        assert(secs as int * NANOS_PER_SEC as int <= u64::MAX as int * 1_000_000_000)
            by (nonlinear_arith)
            requires
                secs <= u64::MAX,
        ;
        vstd::arithmetic::div_mod::lemma_fundamental_div_mod_converse_div(
            secs as int * NANOS_PER_SEC as int + nanos as int,
            NANOS_PER_SEC as int,
            secs as int,
            nanos as int,
        );
    }
    secs as u128 * NANOS_PER_SEC + nanos as u128
}

/// Parse a duration such as `60s`, `2m` or `1h 30min` into nanoseconds.
/// Texts with more than `MAX_DURATION_DIGITS` digits are refused before
/// they reach the parser.
pub fn parse_duration(s: &str) -> (r: Result<u128, String>)
    ensures
        digit_count(s@) > MAX_DURATION_DIGITS ==> (r matches Err(e) && e@
            == too_many_digits_message()),
        digit_count(s@) <= MAX_DURATION_DIGITS ==> (humantime_duration(s@) matches Ok(p) ==> (
        r matches Ok(n) && n == total_nanos(p.0, p.1) && n / NANOS_PER_SEC == p.0)),
        digit_count(s@) <= MAX_DURATION_DIGITS ==> (humantime_duration(s@) matches Err(m) ==> (
        r matches Err(e) && e@ == m)),
{
    if !has_few_digits(s) {
        return Err("duration has too many digits (at most 11 are accepted)".to_owned());
    }
    match humantime_parse(s) {
        Ok((secs, nanos)) => Ok(total_nanos_of(secs, nanos)),
        Err(e) => Err(e),
    }
}

/// Parse a byte size such as `4G`, `512M` or `1048576` into bytes.
pub fn parse_bytesize(s: &str) -> (r: Result<u64, String>)
    ensures
        bytesize_bytes(s@) matches Ok(n) ==> r matches Ok(m) && m == n,
        bytesize_bytes(s@) matches Err(t) ==> r matches Err(e) && e@ == t,
{
    bytesize_parse(s)
}

/// Whole seconds in `nanos` nanoseconds, as `Duration::as_secs` counts them,
/// saturating at `u64::MAX`.
pub fn whole_secs(nanos: u128) -> (r: u64)
    ensures
        nanos / NANOS_PER_SEC <= u64::MAX ==> r == nanos / NANOS_PER_SEC,
        nanos / NANOS_PER_SEC > u64::MAX ==> r == u64::MAX,
{
    let secs = nanos / NANOS_PER_SEC;
    if secs > u64::MAX as u128 {
        u64::MAX
    } else {
        secs as u64
    }
}

} // verus!
