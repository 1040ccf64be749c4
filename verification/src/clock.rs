//! Wall-clock timestamps shown next to chat lines.

use vstd::prelude::*;
use crate::text::{digit_char, push_char, two_digits};

verus! {

/// `HH:MM:SS` of the time of day (UTC) that `secs` seconds after the Unix
/// epoch falls on.
pub open spec fn clock_text(secs: nat) -> Seq<char> {
    two_digits((secs / 3600) % 24) + seq![':'] + two_digits((secs / 60) % 60) + seq![':']
        + two_digits(secs % 60)
}

/// Law: the clock shows the hour of the day, the minute and the second:
/// `d` days, `h` hours, `m` minutes and `s` seconds after the epoch show
/// `hh:mm:ss`, whatever the day.
pub proof fn clock_shows_hour_minute_second(d: nat, h: nat, m: nat, s: nat)
    requires
        h < 24,
        m < 60,
        s < 60,
    ensures
        clock_text(86400 * d + 3600 * h + 60 * m + s) == two_digits(h) + seq![':'] + two_digits(m) + seq![':']
            + two_digits(s),
{
    let t = 86400 * d + 3600 * h + 60 * m + s;
    assert(t == (1440 * d + 60 * h + m) * 60 + s) by (nonlinear_arith)
        requires
            t == 86400 * d + 3600 * h + 60 * m + s,
    ;
    vstd::arithmetic::div_mod::lemma_fundamental_div_mod_converse(t as int, 60, (1440 * d + 60 * h + m) as int, s as int);
    assert(1440 * d + 60 * h + m == (24 * d + h) * 60 + m) by (nonlinear_arith);
    vstd::arithmetic::div_mod::lemma_fundamental_div_mod_converse(
        (1440 * d + 60 * h + m) as int,
        60,
        (24 * d + h) as int,
        m as int,
    );
    assert(t == (24 * d + h) * 3600 + (60 * m + s)) by (nonlinear_arith)
        requires
            t == 86400 * d + 3600 * h + 60 * m + s,
    ;
    vstd::arithmetic::div_mod::lemma_fundamental_div_mod_converse(t as int, 3600, (24 * d + h) as int, (60 * m + s) as int);
    assert(24 * d + h == d * 24 + h) by (nonlinear_arith);
    vstd::arithmetic::div_mod::lemma_fundamental_div_mod_converse((24 * d + h) as int, 24, d as int, h as int);
}

/// Calls `std::time::SystemTime::now` and converts it to whole seconds since
/// the Unix epoch (zero for a clock set before it). The time is not stated.
#[verifier::external_body]
fn unix_seconds() -> u64 {
    std::time::SystemTime::now().duration_since(std::time::UNIX_EPOCH).unwrap_or_default().as_secs()
}

/// `n` as two digits.
fn push_two_digits(s: &mut String, n: u64)
    requires
        n < 100,
    ensures
        final(s)@ == old(s)@ + two_digits(n as nat),
{
    push_char(s, digit_char(n / 10));
    push_char(s, digit_char(n % 10));
}

/// Formats a number of seconds since the Unix epoch as `HH:MM:SS`.
pub fn format_clock(secs: u64) -> (text: String)
    ensures
        text@ == clock_text(secs as nat),
{
    let mut s = String::new();
    push_two_digits(&mut s, (secs / 3600) % 24);
    push_char(&mut s, ':');
    push_two_digits(&mut s, (secs / 60) % 60);
    push_char(&mut s, ':');
    push_two_digits(&mut s, secs % 60);
    s
}

/// The current time of day as `HH:MM:SS`.
pub fn get_timestamp() -> (text: String)
    ensures
        exists|secs: u64| text@ == #[trigger] clock_text(secs as nat),
{
    let secs = unix_seconds();
    let text = format_clock(secs);
    assert(text@ == clock_text(secs as nat));
    text
}

} // verus!
