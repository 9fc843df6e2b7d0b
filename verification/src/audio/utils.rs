//! Clock times as text: `MM:SS` out, `MM:SS` in.

use crate::text::{
    chars_of, decimal_2, is_digit, lemma_decimal_2_denotes, parse_decimal, parse_u64, push_char,
    push_decimal_2,
};
use std::time::Duration;
use vstd::prelude::*;

verus! {

/// The length of `d` in whole nanoseconds.
pub uninterp spec fn duration_nanos(d: Duration) -> nat;

/// `Duration::as_nanos`: the whole length of `d`, in nanoseconds.
#[verifier::external_body]
pub(crate) fn duration_as_nanos(d: Duration) -> (nanos: u128)
    ensures
        nanos == duration_nanos(d),
{
    d.as_nanos()
}

/// The length of `d` in whole milliseconds, reduced to 64 bits: a length
/// beyond them wraps around.
pub open spec fn duration_millis(d: Duration) -> nat {
    (duration_nanos(d) / 1_000_000) % 0x1_0000_0000_0000_0000
}

/// The whole milliseconds of `d`, reduced to 64 bits.
pub fn duration_to_millis(d: Duration) -> (ms: u64)
    ensures
        ms == duration_millis(d),
{
    let millis: u128 = duration_as_nanos(d) / 1_000_000;
    (millis % 0x1_0000_0000_0000_0000) as u64
}

/// `ms` milliseconds written as minutes and seconds, `MM:SS`. Minutes are not
/// wrapped into hours: an hour reads `60:00`.
pub open spec fn time_text(ms: nat) -> Seq<char> {
    decimal_2(ms / 1000 / 60) + seq![':'] + decimal_2(ms / 1000 % 60)
}

/// Whether `i` is the place of the one and only colon in `s`.
pub open spec fn only_colon_at(s: Seq<char>, i: int) -> bool {
    &&& 0 <= i < s.len()
    &&& s[i] == ':'
    &&& forall|j: int| 0 <= j < s.len() && j != i ==> s[j] != ':'
}

/// The milliseconds that `minutes` and `seconds` make, where `seconds` is
/// under a minute and the result fits 64 bits.
pub open spec fn time_from_parts(minutes: Option<u64>, seconds: Option<u64>) -> Option<u64> {
    match (minutes, seconds) {
        (Some(m), Some(s)) => if s < 60 && (m * 60 + s) * 1000 <= u64::MAX {
            Some(((m * 60 + s) * 1000) as u64)
        } else {
            None
        },
        _ => None,
    }
}

/// What a time string denotes in milliseconds: two unsigned numbers around
/// exactly one colon, the second of them under sixty.
pub open spec fn parsed_time(s: Seq<char>) -> Option<u64> {
    if exists|i: int| only_colon_at(s, i) {
        let i = choose|i: int| only_colon_at(s, i);
        time_from_parts(parse_u64(s.take(i)), parse_u64(s.skip(i + 1)))
    } else {
        None
    }
}

/// What `format_time` writes, `parse_time_str` reads back to the second.
pub proof fn lemma_parse_undoes_format(ms: nat)
    requires
        ms <= u64::MAX,
    ensures
        parsed_time(time_text(ms)) == Some((ms / 1000 * 1000) as u64),
{
    let minutes = ms / 1000 / 60;
    let seconds = ms / 1000 % 60;
    let head = decimal_2(minutes);
    let tail = decimal_2(seconds);
    let text = time_text(ms);
    lemma_decimal_2_denotes(minutes);
    lemma_decimal_2_denotes(seconds);
    let at = head.len() as int;
    assert(text[at] == ':');
    assert forall|j: int| 0 <= j < text.len() && j != at implies text[j] != ':' by {
        if j < at {
            assert(text[j] == head[j]);
            assert(is_digit(head[j]));
        } else {
            assert(text[j] == tail[j - at - 1]);
            assert(is_digit(tail[j - at - 1]));
        }
    }
    assert(only_colon_at(text, at));
    let chosen = choose|i: int| only_colon_at(text, i);
    assert(chosen == at);
    assert(text.take(at) =~= head);
    assert(text.skip(at + 1) =~= tail);
    assert(minutes * 60 + seconds == ms / 1000);
}

/// Conversions between playback times and their text.
pub trait TimeFormat {
    /// Formats milliseconds as `MM:SS`.
    fn format_time(ms: u64) -> (text: String)
        ensures
            text@ == time_text(ms as nat),
    ;

    /// Formats a duration as `MM:SS`.
    fn format_duration(duration: Duration) -> (text: String)
        ensures
            text@ == time_text(duration_millis(duration)),
    ;

    /// Parses `MM:SS` into milliseconds.
    fn parse_time_str(time_str: &str) -> (ms: Option<u64>)
        ensures
            ms == parsed_time(time_str@),
    ;
}

/// The player's own time format.
pub struct TimeUtils;

impl TimeFormat for TimeUtils {
    fn format_time(ms: u64) -> (text: String) {
        let total_seconds = ms / 1000;
        let minutes = total_seconds / 60;
        let seconds = total_seconds % 60;
        let mut text = String::new();
        push_decimal_2(&mut text, minutes);
        push_char(&mut text, ':');
        push_decimal_2(&mut text, seconds);
        assert(text@ =~= time_text(ms as nat));
        text
    }

    fn format_duration(duration: Duration) -> (text: String) {
        Self::format_time(duration_to_millis(duration))
    }

    fn parse_time_str(time_str: &str) -> (ms: Option<u64>) {
        let chars = chars_of(time_str);
        let n = chars.len();
        let mut colon: usize = 0;
        while colon < n && chars[colon] != ':'
            invariant
                colon <= n == chars@.len(),
                forall|j: int| 0 <= j < colon ==> chars@[j] != ':',
            decreases n - colon,
        {
            colon = colon + 1;
        }
        if colon == n {
            assert(forall|i: int| !only_colon_at(chars@, i));
            return None;
        }
        let mut k: usize = colon + 1;
        while k < n && chars[k] != ':'
            invariant
                colon < k <= n == chars@.len(),
                forall|j: int| colon < j < k ==> chars@[j] != ':',
            decreases n - k,
        {
            k = k + 1;
        }
        if k < n {
            assert forall|i: int| !only_colon_at(chars@, i) by {
                if only_colon_at(chars@, i) {
                    if i == colon as int {
                        assert(chars@[k as int] == ':');
                    } else {
                        assert(chars@[colon as int] == ':');
                    }
                }
            }
            return None;
        }
        assert(only_colon_at(chars@, colon as int));
        proof {
            let i = choose|i: int| only_colon_at(chars@, i);
            assert(i == colon);
            assert(chars@.take(colon as int) =~= chars@.subrange(0, colon as int));
            assert(chars@.skip(colon + 1) =~= chars@.subrange(colon + 1, n as int));
        }
        let minutes = parse_decimal(&chars, 0, colon);
        let seconds = parse_decimal(&chars, colon + 1, n);
        match (minutes, seconds) {
            (Some(m), Some(s)) => {
                if s >= 60 {
                    return None;
                }
                if m > (u64::MAX / 1000 - s) / 60 {
                    assert((m * 60 + s) * 1000 > u64::MAX);
                    return None;
                }
                assert((m * 60 + s) * 1000 <= u64::MAX);
                Some((m * 60 + s) * 1000)
            },
            _ => None,
        }
    }
}

} // verus!
