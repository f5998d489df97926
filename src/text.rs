//! Decimal rendering of integers and the human-readable age of a resource.
use vstd::prelude::*;
use vstd::string::StringExecFns;

verus! {

pub const SECS_PER_MINUTE: u64 = 60;

pub const SECS_PER_HOUR: u64 = 3600;

pub const SECS_PER_DAY: u64 = 86400;

/// The character of a decimal digit.
pub open spec fn digit_char(d: nat) -> char {
    if d == 0 { '0' }
    else if d == 1 { '1' }
    else if d == 2 { '2' }
    else if d == 3 { '3' }
    else if d == 4 { '4' }
    else if d == 5 { '5' }
    else if d == 6 { '6' }
    else if d == 7 { '7' }
    else if d == 8 { '8' }
    else { '9' }
}

/// The decimal digits of `n`, most significant first, without leading zeros.
pub open spec fn decimal(n: nat) -> Seq<char>
    decreases n,
{
    if n < 10 {
        seq![digit_char(n)]
    } else {
        decimal(n / 10).push(digit_char(n % 10))
    }
}

/// Decimal text of a signed integer, with a leading `-` when negative.
pub open spec fn signed_decimal(n: int) -> Seq<char> {
    if n < 0 {
        seq!['-'] + decimal((-n) as nat)
    } else {
        decimal(n as nat)
    }
}

/// The age text for `s` elapsed seconds; a negative elapsed time counts as zero.
pub open spec fn age_text(s: int) -> Seq<char> {
    let s = if s < 0 { 0 } else { s };
    if s < 60 {
        decimal(s as nat) + seq!['s']
    } else if s < 3600 {
        decimal((s / 60) as nat) + seq!['m']
    } else if s < 86400 {
        decimal((s / 3600) as nat) + seq!['h']
    } else {
        decimal((s / 86400) as nat) + seq!['d']
    }
}

fn digit_str(d: u64) -> (r: &'static str)
    requires
        d < 10,
    ensures
        r@ == seq![digit_char(d as nat)],
{
    let r = if d == 0 { "0" }
    else if d == 1 { "1" }
    else if d == 2 { "2" }
    else if d == 3 { "3" }
    else if d == 4 { "4" }
    else if d == 5 { "5" }
    else if d == 6 { "6" }
    else if d == 7 { "7" }
    else if d == 8 { "8" }
    else { "9" };
    proof {
        reveal_strlit("0");
        reveal_strlit("1");
        reveal_strlit("2");
        reveal_strlit("3");
        reveal_strlit("4");
        reveal_strlit("5");
        reveal_strlit("6");
        reveal_strlit("7");
        reveal_strlit("8");
        reveal_strlit("9");
    }
    assert(r@ =~= seq![digit_char(d as nat)]);
    r
}

/// Appends the decimal digits of `n` to `out`.
pub fn push_decimal(out: &mut String, n: u64)
    ensures
        final(out)@ == old(out)@ + decimal(n as nat),
    decreases n,
{
    if n < 10 {
        out.append(digit_str(n));
    } else {
        push_decimal(out, n / 10);
        out.append(digit_str(n % 10));
        assert(final(out)@ =~= old(out)@ + decimal(n as nat));
    }
}

/// Decimal text of a signed integer.
pub fn signed_text(n: i64) -> (r: String)
    ensures
        r@ == signed_decimal(n as int),
{
    let mut out = String::new();
    if n < 0 {
        out.append("-");
        proof { reveal_strlit("-"); }
        let m: u64 = if n == i64::MIN { 9223372036854775808u64 } else { (-n) as u64 };
        push_decimal(&mut out, m);
    } else {
        push_decimal(&mut out, n as u64);
    }
    assert(out@ =~= signed_decimal(n as int));
    out
}

/// Age text for a count of elapsed seconds that is already non-negative.
pub fn elapsed_text(secs: u64) -> (r: String)
    ensures
        r@ == age_text(secs as int),
{
    let mut out = String::new();
    if secs < SECS_PER_MINUTE {
        push_decimal(&mut out, secs);
        out.append("s");
        proof { reveal_strlit("s"); }
    } else if secs < SECS_PER_HOUR {
        push_decimal(&mut out, secs / SECS_PER_MINUTE);
        out.append("m");
        proof { reveal_strlit("m"); }
    } else if secs < SECS_PER_DAY {
        push_decimal(&mut out, secs / SECS_PER_HOUR);
        out.append("h");
        proof { reveal_strlit("h"); }
    } else {
        push_decimal(&mut out, secs / SECS_PER_DAY);
        out.append("d");
        proof { reveal_strlit("d"); }
    }
    assert(out@ =~= age_text(secs as int));
    out
}

/// Formats elapsed seconds as `"{s}s"`, `"{m}m"`, `"{h}h"` or `"{d}d"` by
/// magnitude, rounding down; a negative count is treated as zero.
pub fn format_duration(secs: i64) -> (r: String)
    ensures
        r@ == age_text(secs as int),
{
    let clamped: u64 = if secs < 0 { 0 } else { secs as u64 };
    elapsed_text(clamped)
}

/// Age of a resource created at `created` when the clock reads `now`, both in
/// seconds since the Unix epoch.
pub fn age_between(now: i64, created: i64) -> (r: String)
    ensures
        r@ == age_text(now - created),
{
    if now <= created {
        elapsed_text(0)
    } else {
        let diff: u64 = (now as i128 - created as i128) as u64;
        elapsed_text(diff)
    }
}

} // verus!
