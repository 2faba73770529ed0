use crate::error::Error;
use vstd::prelude::*;

verus! {

pub open spec fn is_digit(c: char) -> bool {
    '0' <= c && c <= '9'
}

pub open spec fn is_blank(c: char) -> bool {
    c == ' ' || c == '\n' || c == '\r' || c == '\t'
}

pub open spec fn digit_value(c: char) -> int {
    c as int - '0' as int
}

/// The number that a run of decimal digits spells.
pub open spec fn digits_value(s: Seq<char>) -> int
    decreases s.len(),
{
    if s.len() == 0 {
        0
    } else {
        digits_value(s.drop_last()) * 10 + digit_value(s.last())
    }
}

/// Length of `s` without its trailing blanks.
pub open spec fn trimmed_len(s: Seq<char>) -> int
    decreases s.len(),
{
    if s.len() > 0 && is_blank(s.last()) {
        trimmed_len(s.drop_last())
    } else {
        s.len() as int
    }
}

/// Index of the first `.` in `s` at or after `i`, or the length of `s` when there is none.
pub open spec fn dot_from(s: Seq<char>, i: int) -> int
    decreases s.len() - i,
{
    if i >= s.len() {
        s.len() as int
    } else if s[i] == '.' {
        i
    } else {
        dot_from(s, i + 1)
    }
}

proof fn lemma_dot_from_bounds(s: Seq<char>, i: int)
    requires
        0 <= i <= s.len(),
    ensures
        i <= dot_from(s, i) <= s.len(),
    decreases s.len() - i,
{
    if i < s.len() && s[i] != '.' {
        lemma_dot_from_bounds(s, i + 1);
    }
}

/// Index of the first `.` in `s`, or its length when there is none.
pub open spec fn first_dot(s: Seq<char>) -> int {
    dot_from(s, 0)
}

/// The probe's output without trailing blanks.
pub open spec fn duration_text(s: Seq<char>) -> Seq<char> {
    s.subrange(0, trimmed_len(s))
}

/// Digits before the decimal point.
pub open spec fn whole_part(s: Seq<char>) -> Seq<char> {
    duration_text(s).subrange(0, first_dot(duration_text(s)))
}

/// Digits after the decimal point (empty when there is no point).
pub open spec fn fraction_part(s: Seq<char>) -> Seq<char> {
    let t = duration_text(s);
    if first_dot(t) < t.len() {
        t.subrange(first_dot(t) + 1, t.len() as int)
    } else {
        Seq::empty()
    }
}

/// A decimal number of seconds, `digits[.digits]`, optionally followed by blanks.
pub open spec fn is_decimal_seconds(s: Seq<char>) -> bool {
    &&& whole_part(s).len() > 0
    &&& forall|i: int| 0 <= i < whole_part(s).len() ==> is_digit(#[trigger] whole_part(s)[i])
    &&& forall|i: int| 0 <= i < fraction_part(s).len() ==> is_digit(#[trigger] fraction_part(s)[i])
}

/// Whole seconds of the probed duration plus one, so that a bitrate computed
/// against it errs toward a smaller file.
pub open spec fn rounded_duration(s: Seq<char>) -> int {
    digits_value(whole_part(s)) + 1
}

/// Whether the probe's output is a duration whose rounded value fits in a `u64`.
pub open spec fn duration_parses(s: Seq<char>) -> bool {
    is_decimal_seconds(s) && rounded_duration(s) <= u64::MAX
}

pub open spec fn is_probe_error<T>(r: Result<T, Error>, text: Seq<char>) -> bool {
    r matches Err(Error::Probe { diagnostics }) && diagnostics@ == text
}

fn is_digit_char(c: char) -> (r: bool)
    ensures
        r == is_digit(c),
{
    '0' <= c && c <= '9'
}

fn is_blank_char(c: char) -> (r: bool)
    ensures
        r == is_blank(c),
{
    c == ' ' || c == '\n' || c == '\r' || c == '\t'
}

/// Number of characters of `s` left once trailing blanks are dropped.
fn trimmed_length(s: &str) -> (r: usize)
    ensures
        r == trimmed_len(s@),
        r <= s@.len(),
{
    let mut end: usize = s.unicode_len();
    assert(s@.subrange(0, end as int) =~= s@);
    while end > 0 && is_blank_char(s.get_char(end - 1))
        invariant
            end <= s@.len(),
            trimmed_len(s@) == trimmed_len(s@.subrange(0, end as int)),
        decreases end,
    {
        assert(s@.subrange(0, end as int).drop_last() =~= s@.subrange(0, end - 1));
        end = end - 1;
    }
    assert(s@.subrange(0, 0) =~= Seq::<char>::empty());
    end
}

/// Reads the output of the duration probe: the whole seconds of a decimal number of
/// seconds, plus one. A probe that exited unsuccessfully yields its diagnostic text;
/// output that is not a decimal number yields that output.
pub fn duration_from_probe(success: bool, stdout: &str, stderr: &str) -> (r: Result<u64, Error>)
    ensures
        !success ==> is_probe_error(r, stderr@),
        success && !duration_parses(stdout@) ==> is_probe_error(r, stdout@),
        success && duration_parses(stdout@) ==> r == Ok::<u64, Error>(rounded_duration(stdout@) as u64),
{
    if !success {
        return Err(Error::Probe { diagnostics: stderr.to_owned() });
    }
    let ghost s = stdout@;
    let end = trimmed_length(stdout);
    let ghost t = duration_text(s);
    assert(t.len() == end);
    let mut i: usize = 0;
    let mut value: u64 = 0;
    while i < end && stdout.get_char(i) != '.'
        invariant
            success,
            s == stdout@,
            i <= end <= s.len(),
            t == duration_text(s),
            t == s.subrange(0, end as int),
            dot_from(t, i as int) == first_dot(t),
            forall|k: int| 0 <= k < i ==> is_digit(#[trigger] t[k]),
            digits_value(t.subrange(0, i as int)) >= 0,
            value as int == if digits_value(t.subrange(0, i as int)) < u64::MAX {
                digits_value(t.subrange(0, i as int))
            } else {
                u64::MAX as int
            },
        decreases end - i,
    {
        let c = stdout.get_char(i);
        assert(t[i as int] == c);
        if !is_digit_char(c) {
            assert(dot_from(t, i as int) == dot_from(t, i + 1));
            proof {
                lemma_dot_from_bounds(t, i + 1);
            }
            assert(first_dot(t) > i);
            assert(whole_part(s)[i as int] == c);
            return Err(Error::Probe { diagnostics: stdout.to_owned() });
        }
        let ghost prev = t.subrange(0, i as int);
        assert(t.subrange(0, i + 1).drop_last() =~= prev);
        let d: u64 = (c as u32 - '0' as u32) as u64;
        if value == u64::MAX || value > (u64::MAX - d) / 10 {
            value = u64::MAX;
        } else {
            value = value * 10 + d;
        }
        i = i + 1;
    }
    let ghost dot = first_dot(t);
    assert(dot == i);
    assert(whole_part(s) =~= t.subrange(0, i as int));
    if i == 0 {
        return Err(Error::Probe { diagnostics: stdout.to_owned() });
    }
    if i < end {
        let mut j: usize = i + 1;
        while j < end
            invariant
                success,
                s == stdout@,
                i < j <= end <= s.len(),
                dot == i,
                t == s.subrange(0, end as int),
                fraction_part(s) =~= t.subrange(i + 1, end as int),
                forall|k: int| i + 1 <= k < j ==> is_digit(#[trigger] t[k]),
            decreases end - j,
        {
            let c = stdout.get_char(j);
            assert(t[j as int] == c);
            if !is_digit_char(c) {
                assert(fraction_part(s)[j - i - 1] == c);
                return Err(Error::Probe { diagnostics: stdout.to_owned() });
            }
            j = j + 1;
        }
        assert forall|k: int| 0 <= k < fraction_part(s).len() implies is_digit(#[trigger] fraction_part(s)[k]) by {
            assert(fraction_part(s)[k] == t[k + i + 1]);
        }
    } else {
        assert(fraction_part(s) =~= Seq::<char>::empty());
    }
    if value == u64::MAX {
        return Err(Error::Probe { diagnostics: stdout.to_owned() });
    }
    Ok(value + 1)
}

/// Reads the output of the audio probe, which names the first audio stream's codec:
/// the input has audio exactly when that output is not empty.
pub fn audio_from_probe(success: bool, stdout: &str, stderr: &str) -> (r: Result<bool, Error>)
    ensures
        !success ==> is_probe_error(r, stderr@),
        success ==> r == Ok::<bool, Error>(stdout@.len() > 0),
{
    if !success {
        return Err(Error::Probe { diagnostics: stderr.to_owned() });
    }
    Ok(stdout.unicode_len() > 0)
}

/// The audio bitrate to budget for: the requested one when the input has audio,
/// zero when it has none.
pub fn effective_audio_bitrate(requested_kbps: u16, has_audio: bool) -> (r: u16)
    ensures
        r == if has_audio { requested_kbps } else { 0 },
{
    if has_audio { requested_kbps } else { 0 }
}

} // verus!
