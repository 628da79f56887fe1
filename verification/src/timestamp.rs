//! Human readable track times: `M:SS` below an hour, `H:MM:SS` from an hour on.

use vstd::prelude::*;
use crate::text::{decimal, two_digits, push_decimal, push_two_digits, push_char, push_str};

verus! {

/// The text shown for a time of `secs` whole seconds.
pub open spec fn timestamp_text(secs: nat) -> Seq<char> {
    let seconds = secs % 60;
    let minutes = (secs / 60) % 60;
    let hours = secs / 3600;
    if hours < 1 {
        decimal(minutes) + seq![':'] + two_digits(seconds)
    } else {
        decimal(hours) + seq![':'] + two_digits(minutes) + seq![':'] + two_digits(seconds)
    }
}

/// Appends the text of a time of `secs` whole seconds.
pub fn push_timestamp(s: &mut String, secs: u64)
    ensures
        final(s)@ == old(s)@ + timestamp_text(secs as nat),
{
    let seconds = secs % 60;
    let minutes = (secs / 60) % 60;
    let hours = secs / 3600;
    if hours < 1 {
        push_decimal(s, minutes);
        push_char(s, ':');
        push_two_digits(s, seconds);
    } else {
        push_decimal(s, hours);
        push_char(s, ':');
        push_two_digits(s, minutes);
        push_char(s, ':');
        push_two_digits(s, seconds);
    }
    assert(s@ =~= old(s)@ + timestamp_text(secs as nat));
}

/// The time of a track, given in whole seconds (`Duration::as_secs`), as
/// `M:SS` below an hour and as `H:MM:SS` from an hour on.
pub fn get_human_readable_timestamp(duration_secs: u64) -> (r: String)
    ensures
        r@ == timestamp_text(duration_secs as nat),
{
    let mut r = String::new();
    push_timestamp(&mut r, duration_secs);
    r
}

/// The footer under the player bar: `position / duration`.
pub fn song_footer(position_secs: u64, duration_secs: u64) -> (r: String)
    ensures
        r@ == timestamp_text(position_secs as nat) + " / "@ + timestamp_text(duration_secs as nat),
{
    let mut r = String::new();
    push_timestamp(&mut r, position_secs);
    push_str(&mut r, " / ");
    push_timestamp(&mut r, duration_secs);
    r
}

} // verus!
