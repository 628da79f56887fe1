//! Reading the `MM:SS` position that the seek command takes.

use vstd::prelude::*;
use crate::text::{chars_of, push_str, decimal, digit_char, two_digits};
use crate::timestamp::timestamp_text;

verus! {

/// `c` is one of the ASCII digits `0` to `9`.
pub open spec fn is_digit(c: char) -> bool {
    '0' <= c && c <= '9'
}

/// Every character of `s` is an ASCII digit.
pub open spec fn all_digits(s: Seq<char>) -> bool {
    forall|i: int| 0 <= i < s.len() ==> is_digit(#[trigger] s[i])
}

/// The value of an ASCII digit.
pub open spec fn digit_value(c: char) -> nat {
    (c as int - 48) as nat
}

/// The number that a run of digits writes in base ten.
pub open spec fn digits_value(s: Seq<char>) -> nat
    decreases s.len(),
{
    if s.len() == 0 {
        0
    } else {
        digits_value(s.drop_last()) * 10 + digit_value(s.last())
    }
}

/// `s` without one leading `+`, which an unsigned number may carry.
pub open spec fn unsigned_body(s: Seq<char>) -> Seq<char> {
    if s.len() > 0 && s[0] == '+' {
        s.drop_first()
    } else {
        s
    }
}

/// What `str::parse::<u64>` gives for `s`: a run of one or more digits,
/// after an optional `+`, whose value fits in a `u64`; nothing otherwise.
pub open spec fn parse_u64(s: Seq<char>) -> Option<u64> {
    let body = unsigned_body(s);
    if body.len() == 0 || !all_digits(body) || digits_value(body) > u64::MAX {
        None
    } else {
        Some(digits_value(body) as u64)
    }
}

/// The value of a run of digits does not shrink when digits are added.
proof fn lemma_digits_value_prefix(s: Seq<char>, k: int)
    requires
        0 <= k <= s.len(),
        all_digits(s),
    ensures
        digits_value(s.take(k)) <= digits_value(s),
    decreases s.len() - k,
{
    if k < s.len() {
        lemma_digits_value_prefix(s, k + 1);
        assert(s.take(k + 1).drop_last() =~= s.take(k));
        assert(is_digit(s[k]));
    } else {
        assert(s.take(k) =~= s);
    }
}

/// Parses `chars[lo..hi]` as `str::parse::<u64>` does.
pub fn parse_u64_chars(chars: &Vec<char>, lo: usize, hi: usize) -> (r: Option<u64>)
    requires
        lo <= hi <= chars@.len(),
    ensures
        r == parse_u64(chars@.subrange(lo as int, hi as int)),
{
    let ghost s = chars@.subrange(lo as int, hi as int);
    let mut start = lo;
    if lo < hi && chars[lo] == '+' {
        start = lo + 1;
    }
    let ghost body = chars@.subrange(start as int, hi as int);
    assert(body =~= unsigned_body(s));
    if start == hi {
        return None;
    }
    let mut acc: u64 = 0;
    let mut i = start;
    while i < hi
        invariant
            lo <= start <= i <= hi <= chars@.len(),
            body == chars@.subrange(start as int, hi as int),
            body == unsigned_body(s),
            s == chars@.subrange(lo as int, hi as int),
            body.len() > 0,
            all_digits(body.take(i - start)),
            acc as nat == digits_value(body.take(i - start)),
        decreases hi - i,
    {
        let c = chars[i];
        assert(c == body[i - start]);
        if !('0' <= c && c <= '9') {
            assert(!all_digits(body));
            return None;
        }
        let d: u64 = (c as u32 - 48) as u64;
        assert(body.take(i + 1 - start).drop_last() =~= body.take(i - start));
        assert(body.take(i + 1 - start).last() == c);
        match acc.checked_mul(10) {
            Some(m) => match m.checked_add(d) {
                Some(v) => {
                    acc = v;
                },
                None => {
                    proof {
                        if all_digits(body) {
                            lemma_digits_value_prefix(body, i + 1 - start);
                        }
                    }
                    return None;
                },
            },
            None => {
                proof {
                    if all_digits(body) {
                        lemma_digits_value_prefix(body, i + 1 - start);
                    }
                }
                return None;
            },
        }
        assert(all_digits(body.take(i + 1 - start)));
        i = i + 1;
    }
    assert(body.take(hi - start) =~= body);
    Some(acc)
}


/// The index of the first `:` of `s` at or after `from`, or `s.len()`
/// when there is none.
pub open spec fn colon_from(s: Seq<char>, from: int) -> int
    decreases s.len() - from,
{
    if from >= s.len() {
        s.len() as int
    } else if s[from] == ':' {
        from
    } else {
        colon_from(s, from + 1)
    }
}

/// The first `:` at or after `from` lies between `from` and the end.
proof fn lemma_colon_from_bounds(s: Seq<char>, from: int)
    requires
        0 <= from <= s.len(),
    ensures
        from <= colon_from(s, from) <= s.len(),
        colon_from(s, from) < s.len() ==> s[colon_from(s, from)] == ':',
    decreases s.len() - from,
{
    if from < s.len() && s[from] != ':' {
        lemma_colon_from_bounds(s, from + 1);
    }
}

/// `s` holds a `:`.
pub open spec fn has_colon(s: Seq<char>) -> bool {
    colon_from(s, 0) < s.len()
}

/// The first piece of `s` split at `:` (what precedes the first `:`).
pub open spec fn minutes_field(s: Seq<char>) -> Seq<char> {
    s.take(colon_from(s, 0))
}

/// The second piece of `s` split at `:` (what lies between the first
/// `:` and the next one, or the end).
pub open spec fn seconds_field(s: Seq<char>) -> Seq<char> {
    let start = colon_from(s, 0) + 1;
    s.subrange(start, colon_from(s, start))
}

/// The number of seconds of `min` minutes and `sec` seconds, where a
/// second count of 60 or more is refused.
pub open spec fn min_sec_seconds(min: u64, sec: u64) -> Option<u64> {
    if sec >= 60 {
        None
    } else {
        Some((min * 60 + sec) as u64)
    }
}

/// The time, in seconds, that a seek to the position `s` (`MM:SS`) goes to;
/// nothing where the minutes or the seconds do not parse, or the seconds
/// reach 60.
pub open spec fn seek_target(s: Seq<char>) -> Option<u64> {
    match parse_u64(minutes_field(s)) {
        None => None,
        Some(min) => match parse_u64(seconds_field(s)) {
            None => None,
            Some(sec) => min_sec_seconds(min, sec),
        },
    }
}

/// The inputs on which reading a seek position does not panic: a
/// position whose minutes parse holds a `:` (the seconds field is read by
/// index), and the total number of seconds fits in a `u64`.
pub open spec fn seek_position_readable(s: Seq<char>) -> bool {
    match parse_u64(minutes_field(s)) {
        None => true,
        Some(min) => has_colon(s) && match parse_u64(seconds_field(s)) {
            None => true,
            Some(sec) => sec < 60 ==> min * 60 + sec <= u64::MAX,
        },
    }
}

/// The index of the first `:` in `chars` at or after `from`, or the length.
fn find_colon(chars: &Vec<char>, from: usize) -> (r: usize)
    requires
        from <= chars@.len(),
    ensures
        r == colon_from(chars@, from as int),
{
    let mut i = from;
    while i < chars.len()
        invariant
            from <= i <= chars@.len(),
            colon_from(chars@, from as int) == colon_from(chars@, i as int),
        decreases chars@.len() - i,
    {
        if chars[i] == ':' {
            return i;
        }
        i = i + 1;
    }
    i
}

/// The number of seconds of `min` minutes and `sec` seconds, or nothing
/// when `sec` is 60 or more.
pub fn from_min_sec(min: u64, sec: u64) -> (r: Option<u64>)
    requires
        sec < 60 ==> min * 60 + sec <= u64::MAX,
    ensures
        r == min_sec_seconds(min, sec),
{
    if sec >= 60 {
        return None;
    }
    let secs = min * 60 + sec;
    Some(secs)
}

/// Reads a seek position written `MM:SS`: the time it names in seconds,
/// or nothing where it cannot be read.
pub fn parse_seek_position(position: &str) -> (r: Option<u64>)
    requires
        seek_position_readable(position@),
    ensures
        r == seek_target(position@),
{
    let chars = chars_of(position);
    let first_colon = find_colon(&chars, 0);
    proof {
        lemma_colon_from_bounds(position@, 0);
    }
    assert(chars@.subrange(0, first_colon as int) =~= minutes_field(position@));
    let min = match parse_u64_chars(&chars, 0, first_colon) {
        Some(min) => min,
        None => return None,
    };
    let second_start = first_colon + 1;
    let second_end = find_colon(&chars, second_start);
    proof {
        lemma_colon_from_bounds(position@, second_start as int);
    }
    assert(chars@.subrange(second_start as int, second_end as int) =~= seconds_field(position@));
    let sec = match parse_u64_chars(&chars, second_start, second_end) {
        Some(sec) => sec,
        None => return None,
    };
    from_min_sec(min, sec)
}

/// Whether reading `position` as a seek position goes through without a
/// panic (see `seek_position_readable`).
pub fn is_seek_position_readable(position: &str) -> (r: bool)
    ensures
        r == seek_position_readable(position@),
{
    let chars = chars_of(position);
    let first_colon = find_colon(&chars, 0);
    proof {
        lemma_colon_from_bounds(position@, 0);
    }
    assert(chars@.subrange(0, first_colon as int) =~= minutes_field(position@));
    let min = match parse_u64_chars(&chars, 0, first_colon) {
        Some(min) => min,
        None => return true,
    };
    if first_colon >= chars.len() {
        return false;
    }
    let second_start = first_colon + 1;
    let second_end = find_colon(&chars, second_start);
    proof {
        lemma_colon_from_bounds(position@, second_start as int);
    }
    assert(chars@.subrange(second_start as int, second_end as int) =~= seconds_field(position@));
    let sec = match parse_u64_chars(&chars, second_start, second_end) {
        Some(sec) => sec,
        None => return true,
    };
    if sec >= 60 {
        return true;
    }
    match min.checked_mul(60) {
        Some(m) => m.checked_add(sec).is_some(),
        None => false,
    }
}

/// The reply to a seek to `position`.
pub fn seek_reply(position: &str) -> (r: String)
    ensures
        r@ == "Seeked the track to "@ + position@,
{
    let mut r = String::new();
    push_str(&mut r, "Seeked the track to ");
    push_str(&mut r, position);
    r
}


/// A digit character reads back as its value.
proof fn lemma_digit_char(d: nat)
    requires
        d < 10,
    ensures
        is_digit(digit_char(d)),
        digit_value(digit_char(d)) == d,
{
    assert(digit_char(d) as int == d + 48);
}

/// The decimal notation of a number is a run of digits of that value.
pub(crate) proof fn lemma_decimal_digits(n: nat)
    ensures
        decimal(n).len() >= 1,
        all_digits(decimal(n)),
        digits_value(decimal(n)) == n,
    decreases n,
{
    if n < 10 {
        lemma_digit_char(n);
        assert(decimal(n).drop_last() =~= Seq::<char>::empty());
        assert(digits_value(Seq::<char>::empty()) == 0);
    } else {
        lemma_decimal_digits(n / 10);
        lemma_digit_char(n % 10);
        assert(n == (n / 10) * 10 + n % 10);
        let d = decimal(n);
        assert(d.drop_last() =~= decimal(n / 10));
        assert(d.last() == digit_char(n % 10));
        assert(digits_value(d) == digits_value(decimal(n / 10)) * 10 + (n % 10));
        assert forall|i: int| 0 <= i < d.len() implies is_digit(#[trigger] d[i]) by {
            if i < d.len() - 1 {
                assert(d[i] == decimal(n / 10)[i]);
            }
        }
    }
}

/// A number written on at least two digits is a run of digits of that value.
proof fn lemma_two_digits(n: nat)
    ensures
        two_digits(n).len() >= 1,
        all_digits(two_digits(n)),
        digits_value(two_digits(n)) == n,
{
    if n < 10 {
        lemma_digit_char(n);
        lemma_digit_char(0);
        let t = two_digits(n);
        assert(t.drop_last() =~= seq!['0']);
        assert(seq!['0'].drop_last() =~= Seq::<char>::empty());
        assert(digits_value(Seq::<char>::empty()) == 0);
        assert(digits_value(seq!['0']) == 0);
        assert(digits_value(t) == n);
        assert(all_digits(t)) by {
            assert forall|i: int| 0 <= i < t.len() implies is_digit(#[trigger] t[i]) by {}
        }
    } else {
        lemma_decimal_digits(n);
    }
}

/// A run of digits of a value that fits reads back as that value.
proof fn lemma_parse_digits(s: Seq<char>)
    requires
        s.len() >= 1,
        all_digits(s),
        digits_value(s) <= u64::MAX,
    ensures
        parse_u64(s) == Some(digits_value(s) as u64),
{
    assert(is_digit(s[0]));
    assert(unsigned_body(s) == s);
}

/// In `s`, no `:` lies in `[from, to)`, and `to` is a `:` or the end.
proof fn lemma_colon_at(s: Seq<char>, from: int, to: int)
    requires
        0 <= from <= to <= s.len(),
        forall|i: int| from <= i < to ==> s[i] != ':',
        to < s.len() ==> s[to] == ':',
    ensures
        colon_from(s, from) == to,
    decreases to - from,
{
    if from < to {
        lemma_colon_at(s, from + 1, to);
    }
}

/// The time shown for a position below an hour (`M:SS`), typed back as a
/// seek position, is read as that same position.
pub proof fn law_seek_reads_shown_time(secs: u64)
    requires
        secs < 3600,
    ensures
        seek_position_readable(timestamp_text(secs as nat)),
        seek_target(timestamp_text(secs as nat)) == Some(secs),
{
    let m: nat = (secs as nat / 60) % 60;
    let sc: nat = secs as nat % 60;
    assert(secs as nat / 3600 == 0);
    assert(m == secs as nat / 60);
    let a = decimal(m);
    let b = two_digits(sc);
    let t = timestamp_text(secs as nat);
    assert(t == a + seq![':'] + b);
    lemma_decimal_digits(m);
    lemma_two_digits(sc);
    assert forall|i: int| 0 <= i < a.len() implies t[i] != ':' by {
        assert(t[i] == a[i]);
        assert(is_digit(a[i]));
    }
    assert(t[a.len() as int] == ':');
    lemma_colon_at(t, 0, a.len() as int);
    assert forall|i: int| a.len() + 1 <= i < t.len() implies t[i] != ':' by {
        assert(t[i] == b[i - a.len() - 1]);
        assert(is_digit(b[i - a.len() - 1]));
    }
    lemma_colon_at(t, a.len() as int + 1, t.len() as int);
    assert(minutes_field(t) =~= a);
    assert(seconds_field(t) =~= b);
    lemma_parse_digits(a);
    lemma_parse_digits(b);
    assert(m * 60 + sc == secs as nat);
}

} // verus!
