//! Small parsing helpers for times and time-zone offsets.

use vstd::prelude::*;

verus! {

/// Compare two strings character by character.
pub fn str_eq(a: &str, b: &str) -> (r: bool)
    ensures
        r == (a@ == b@),
{
    let la = a.unicode_len();
    let lb = b.unicode_len();
    if la != lb {
        return false;
    }
    for i in 0..la
        invariant
            la == a@.len(),
            lb == b@.len(),
            la == lb,
            forall|j: int| 0 <= j < i ==> a@[j] == b@[j],
    {
        if a.get_char(i) != b.get_char(i) {
            return false;
        }
    }
    proof {
        assert(a@ =~= b@);
    }
    true
}

} // verus!

verus! {

/// A decimal digit.
pub open spec fn is_digit_char(c: char) -> bool {
    48 <= c as u32 <= 57
}

/// The value of a decimal digit.
pub open spec fn digit_val(c: char) -> int {
    c as u32 - 48
}

/// Every character is a decimal digit.
pub open spec fn all_digits(s: Seq<char>) -> bool {
    forall|i: int| 0 <= i < s.len() ==> is_digit_char(#[trigger] s[i])
}

/// The number written by a digit string, most significant digit first.
pub open spec fn digits_val(s: Seq<char>) -> int
    decreases s.len(),
{
    if s.len() == 0 {
        0
    } else {
        digits_val(s.drop_last()) * 10 + digit_val(s.last())
    }
}

/// What `u32` parsing accepts: an optional leading `+`, then at least one
/// digit, with the written value at most `u32::MAX`.
pub open spec fn u32_parses(s: Seq<char>) -> Option<int> {
    let body = if s.len() > 0 && s[0] == '+' {
        s.subrange(1, s.len() as int)
    } else {
        s
    };
    if body.len() > 0 && all_digits(body) && digits_val(body) <= u32::MAX {
        Some(digits_val(body))
    } else {
        None
    }
}

proof fn lemma_digits_val_nonneg(s: Seq<char>)
    requires
        all_digits(s),
    ensures
        digits_val(s) >= 0,
    decreases s.len(),
{
    if s.len() > 0 {
        lemma_digits_val_nonneg(s.drop_last());
    }
}

proof fn lemma_digits_val_prefix_le(s: Seq<char>, k: int)
    requires
        all_digits(s),
        0 <= k <= s.len(),
    ensures
        digits_val(s.subrange(0, k)) <= digits_val(s),
    decreases s.len() - k,
{
    if k < s.len() {
        lemma_digits_val_prefix_le(s, k + 1);
        let a = s.subrange(0, k);
        let b = s.subrange(0, k + 1);
        assert(b.drop_last() =~= a);
        lemma_digits_val_nonneg(a);
    } else {
        assert(s.subrange(0, k) =~= s);
    }
}

/// Parse a `u32` from characters: an optional leading `+`, then digits.
fn parse_u32_chars(s: &Vec<char>) -> (r: Option<u32>)
    ensures
        match r {
            Some(v) => u32_parses(s@) == Some(v as int),
            None => u32_parses(s@) is None,
        },
{
    let len = s.len();
    let start: usize = if len > 0 && s[0] == '+' {
        1
    } else {
        0
    };
    let ghost body = if s@.len() > 0 && s@[0] == '+' {
        s@.subrange(1, s@.len() as int)
    } else {
        s@
    };
    proof {
        if !(s@.len() > 0 && s@[0] == '+') {
            assert(body =~= s@.subrange(0, s@.len() as int));
        }
    }
    if start >= len {
        return None;
    }
    let mut acc: u64 = 0;
    for i in start..len
        invariant
            start <= i <= len,
            len == s@.len(),
            start == (if s@.len() > 0 && s@[0] == '+' {
                1int
            } else {
                0int
            }),
            body == (if s@.len() > 0 && s@[0] == '+' {
                s@.subrange(1, s@.len() as int)
            } else {
                s@
            }),
            body == s@.subrange(start as int, len as int),
            body.len() == len - start,
            body.len() > 0,
            all_digits(body.subrange(0, i - start)),
            acc == digits_val(body.subrange(0, i - start)),
            acc <= u32::MAX,
    {
        let c = s[i];
        let d = c as u32;
        assert(body[i - start] == s@[i as int]);
        if d < 48 || d > 57 {
            proof {
                assert(!is_digit_char(body[i - start]));
                assert(!all_digits(body));
            }
            return None;
        }
        let d = d - 48;
        acc = acc * 10 + d as u64;
        proof {
            let pre = body.subrange(0, i - start);
            let now = body.subrange(0, i + 1 - start);
            assert(now.drop_last() =~= pre);
            assert(now.last() == body[i - start]);
        }
        if acc > 0xffff_ffffu64 {
            proof {
                if all_digits(body) {
                    lemma_digits_val_prefix_le(body, i + 1 - start);
                    assert(digits_val(body) > u32::MAX);
                }
            }
            return None;
        }
    }
    proof {
        assert(body.subrange(0, len - start) =~= body);
    }
    Some(acc as u32)
}

/// Split a character sequence on a separator: one part more than there are
/// separators, in order, each free of the separator.
pub open spec fn split_char(s: Seq<char>, sep: char) -> Seq<Seq<char>>
    decreases s.len(),
{
    if s.len() == 0 {
        seq![Seq::<char>::empty()]
    } else if s[0] == sep {
        seq![Seq::<char>::empty()] + split_char(s.drop_first(), sep)
    } else {
        let rest = split_char(s.drop_first(), sep);
        seq![seq![s[0]] + rest[0]] + rest.drop_first()
    }
}

/// A split has at least one part.
pub proof fn lemma_split_char_len(s: Seq<char>, sep: char)
    ensures
        split_char(s, sep).len() >= 1,
    decreases s.len(),
{
    if s.len() > 0 {
        lemma_split_char_len(s.drop_first(), sep);
    }
}

/// Split the characters of a string on a separator.
pub(crate) fn split_char_exec(s: &Vec<char>, sep: char) -> (parts: Vec<Vec<char>>)
    ensures
        parts@.len() == split_char(s@, sep).len(),
        forall|i: int| 0 <= i < parts@.len() ==> parts@[i]@ == split_char(s@, sep)[i],
{
    let mut parts: Vec<Vec<char>> = Vec::new();
    let mut cur: Vec<char> = Vec::new();
    let ghost whole = split_char(s@, sep);
    proof {
        assert(s@.subrange(0, s@.len() as int) =~= s@);
        lemma_split_char_len(s@, sep);
        assert(cur@ + whole[0] =~= whole[0]);
    }
    for i in 0..s.len()
        invariant
            whole == split_char(s@, sep),
            ({
                let rest = split_char(s@.subrange(i as int, s@.len() as int), sep);
                &&& rest.len() >= 1
                &&& whole.len() == parts@.len() + rest.len()
                &&& forall|j: int|
                    #![trigger parts@[j]]
                    0 <= j < parts@.len() ==> whole[j] == parts@[j]@
                &&& whole[parts@.len() as int] == cur@ + rest[0]
                &&& forall|j: int|
                    #![trigger whole[j]]
                    parts@.len() < j < whole.len() ==> whole[j] == rest[j - parts@.len()]
            }),
    {
        let ghost rem = s@.subrange(i as int, s@.len() as int);
        let ghost rem2 = s@.subrange(i as int + 1, s@.len() as int);
        let ghost rest = split_char(rem, sep);
        let ghost rest2 = split_char(rem2, sep);
        let ghost np = parts@.len() as int;
        proof {
            assert(rem.drop_first() =~= rem2);
            assert(rem[0] == s@[i as int]);
            lemma_split_char_len(rem2, sep);
        }
        let c = s[i];
        if c == sep {
            proof {
                assert(rest =~= seq![Seq::<char>::empty()] + rest2);
                assert(cur@ + rest[0] =~= cur@);
                assert(whole[np + 1] == rest[1]);
                assert(rest[1] == rest2[0]);
                assert forall|j: int| np + 1 < j < whole.len() implies #[trigger] whole[j] == rest2[
                    j - (np + 1)
                ] by {
                    assert(whole[j] == rest[j - np]);
                    assert(rest[j - np] == rest2[j - np - 1]);
                }
            }
            parts.push(cur);
            cur = Vec::new();
            proof {
                assert(cur@ + rest2[0] =~= rest2[0]);
            }
        } else {
            let ghost cur0 = cur@;
            cur.push(c);
            proof {
                assert(rest =~= seq![seq![rem[0]] + rest2[0]] + rest2.drop_first());
                assert(whole[np] == cur0 + rest[0]);
                assert(rest[0] =~= seq![s@[i as int]] + rest2[0]);
                assert(cur@ + rest2[0] =~= cur0 + (seq![s@[i as int]] + rest2[0]));
                assert forall|j: int| np < j < whole.len() implies #[trigger] whole[j] == rest2[j
                    - np] by {
                    assert(whole[j] == rest[j - np]);
                    assert(rest[j - np] == rest2.drop_first()[j - np - 1]);
                    assert(rest2.drop_first()[j - np - 1] == rest2[j - np]);
                }
            }
        }
    }
    proof {
        let rem = s@.subrange(s@.len() as int, s@.len() as int);
        assert(rem =~= Seq::<char>::empty());
        assert(cur@ + split_char(rem, sep)[0] =~= cur@);
    }
    parts.push(cur);
    parts
}

/// The characters of a string, one by one.
pub(crate) fn chars_of(s: &str) -> (r: Vec<char>)
    ensures
        r@ == s@,
{
    let len = s.unicode_len();
    let mut r: Vec<char> = Vec::new();
    for i in 0..len
        invariant
            len == s@.len(),
            r@ == s@.subrange(0, i as int),
    {
        r.push(s.get_char(i));
        assert(r@ =~= s@.subrange(0, i + 1));
    }
    assert(r@ =~= s@);
    r
}

} // verus!

verus! {

/// The errors of the time and time-zone parsers.
#[derive(Clone, Copy, Debug, PartialEq, Eq, Structural)]
pub enum UtilsError {
    /// the time is not of the form `hh:mm` or `hh:mm:ss`
    InvalidTime,
    /// the offset has no leading sign
    NoSign,
    /// the offset is not of the form `+hh` or `+hh:mm`
    InvalidOffset,
    /// the offset's hour lies outside `0..=14`
    InvalidOffsetHours,
    /// the offset's minute lies outside `0..=59`
    InvalidOffsetMinutes,
}

impl UtilsError {
    /// The error's description, word for word.
    pub fn message(&self) -> (r: String)
        ensures
            match self {
                UtilsError::InvalidTime => r@ == "invalid time format, expected `hh:mm{:ss}?`"@,
                UtilsError::NoSign => r@ == "invalid timezone offset"@,
                UtilsError::InvalidOffset => r@
                    == "invalid timezone offset (format should be `+hh{:mm}?`)"@,
                UtilsError::InvalidOffsetHours => r@
                    == "invalid timezone offset (hour should be between 0 and 14)"@,
                UtilsError::InvalidOffsetMinutes => r@
                    == "invalid timezone offset (minute should be between 0 and 59)"@,
            },
    {
        match self {
            UtilsError::InvalidTime => "invalid time format, expected `hh:mm{:ss}?`".to_owned(),
            UtilsError::NoSign => "invalid timezone offset".to_owned(),
            UtilsError::InvalidOffset => "invalid timezone offset (format should be `+hh{:mm}?`)".to_owned(),
            UtilsError::InvalidOffsetHours => "invalid timezone offset (hour should be between 0 and 14)".to_owned(),
            UtilsError::InvalidOffsetMinutes => "invalid timezone offset (minute should be between 0 and 59)".to_owned(),
        }
    }
}

/// What time parsing returns: hours, minutes and an optional seconds part,
/// separated by `:`, each in range. Anything after a third part is ignored.
pub open spec fn parse_time_spec(s: Seq<char>) -> Option<(int, int, int)> {
    let parts = split_char(s, ':');
    if parts.len() <= 1 {
        None
    } else {
        match (u32_parses(parts[0]), u32_parses(parts[1])) {
            (Some(h), Some(m)) => if h <= 23 && m <= 59 {
                let sres = if parts.len() == 3 {
                    u32_parses(parts[2])
                } else {
                    Some(0int)
                };
                match sres {
                    Some(sec) => if sec <= 59 {
                        Some((h, m, sec))
                    } else {
                        None
                    },
                    None => None,
                }
            } else {
                None
            },
            _ => None,
        }
    }
}

/// Parses a time string into hours, minutes and seconds,
/// e.g. `12:30` becomes `(12, 30, 0)`.
pub fn parse_time(time: &str) -> (r: Result<(u32, u32, u32), UtilsError>)
    ensures
        match r {
            Ok(t) => parse_time_spec(time@) == Some((t.0 as int, t.1 as int, t.2 as int)),
            Err(e) => parse_time_spec(time@) is None && e == UtilsError::InvalidTime,
        },
{
    let cs = chars_of(time);
    let parts = split_char_exec(&cs, ':');
    if parts.len() <= 1 {
        return Err(UtilsError::InvalidTime);
    }
    let hours = match parse_u32_chars(&parts[0]) {
        Some(h) => h,
        None => return Err(UtilsError::InvalidTime),
    };
    let minutes = match parse_u32_chars(&parts[1]) {
        Some(m) => m,
        None => return Err(UtilsError::InvalidTime),
    };
    if hours > 23 || minutes > 59 {
        return Err(UtilsError::InvalidTime);
    }
    let seconds = if parts.len() == 3 {
        match parse_u32_chars(&parts[2]) {
            Some(x) => x,
            None => return Err(UtilsError::InvalidTime),
        }
    } else {
        0
    };
    if seconds > 59 {
        return Err(UtilsError::InvalidTime);
    }
    Ok((hours, minutes, seconds))
}

/// Converts `hours` and `minutes` to total seconds,
/// e.g. `h == 1, m == 30` gives `5400`.
pub fn hm_to_s(h: i32, m: i32) -> (r: i32)
    requires
        i32::MIN <= h * 3600 + m * 60 <= i32::MAX,
    ensures
        r == h * 3600 + m * 60,
{
    let wide: i64 = (h as i64) * 3600 + (m as i64) * 60;
    wide as i32
}

/// The offset begins with a sign, or with `UTC` and a sign.
pub open spec fn tz_sign_ok(s: Seq<char>) -> bool {
    ||| (s.len() >= 1 && (s[0] == '+' || s[0] == '-'))
    ||| (s.len() >= 4 && s[0] == 'U' && s[1] == 'T' && s[2] == 'C' && (s[3] == '+' || s[3]
        == '-'))
}

/// What time-zone offset parsing returns: the signed offset in seconds, or
/// which rule the text breaks.
pub open spec fn tz_to_s_spec(s: Seq<char>) -> Result<int, UtilsError> {
    if !tz_sign_ok(s) {
        Err(UtilsError::NoSign)
    } else {
        let off = if s.len() >= 4 && s[0] == 'U' {
            s.subrange(3, s.len() as int)
        } else {
            s
        };
        let sign: int = if off[0] == '+' {
            1
        } else {
            -1
        };
        let parts = split_char(off.subrange(1, off.len() as int), ':');
        if parts.len() > 2 {
            Err(UtilsError::InvalidOffset)
        } else {
            match u32_parses(parts[0]) {
                None => Err(UtilsError::InvalidOffset),
                Some(h) => {
                    let mres = if parts.len() == 2 {
                        u32_parses(parts[1])
                    } else {
                        Some(0int)
                    };
                    match mres {
                        None => Err(UtilsError::InvalidOffset),
                        Some(m) => if h > 14 {
                            Err(UtilsError::InvalidOffsetHours)
                        } else if m > 59 {
                            Err(UtilsError::InvalidOffsetMinutes)
                        } else {
                            Ok(sign * (h * 3600 + m * 60))
                        },
                    }
                },
            }
        }
    }
}

/// Converts a timezone offset such as `+01:00`, `-03`, or `UTC+03` to
/// signed seconds.
pub fn tz_to_s(offset: &str) -> (r: Result<i32, UtilsError>)
    ensures
        match r {
            Ok(v) => tz_to_s_spec(offset@) == Ok::<int, UtilsError>(v as int),
            Err(e) => tz_to_s_spec(offset@) == Err::<int, UtilsError>(e),
        },
{
    let cs = chars_of(offset);
    let n = cs.len();
    let plain_sign = n >= 1 && (cs[0] == '+' || cs[0] == '-');
    let utc_sign = n >= 4 && cs[0] == 'U' && cs[1] == 'T' && cs[2] == 'C' && (cs[3] == '+'
        || cs[3] == '-');
    if !plain_sign && !utc_sign {
        return Err(UtilsError::NoSign);
    }
    let skip: usize = if n >= 4 && cs[0] == 'U' {
        3
    } else {
        0
    };
    let ghost off = if offset@.len() >= 4 && offset@[0] == 'U' {
        offset@.subrange(3, offset@.len() as int)
    } else {
        offset@
    };
    proof {
        if skip == 0 {
            assert(off =~= offset@.subrange(0, offset@.len() as int));
        }
    }
    let sign: i32 = if cs[skip] == '+' {
        1
    } else {
        -1
    };
    let mut tail: Vec<char> = Vec::new();
    for i in (skip + 1)..n
        invariant
            skip + 1 <= i <= n,
            n == offset@.len(),
            cs@ == offset@,
            skip + 1 <= n,
            off == offset@.subrange(skip as int, n as int),
            tail@ == offset@.subrange(skip as int + 1, i as int),
    {
        tail.push(cs[i]);
        assert(tail@ =~= offset@.subrange(skip as int + 1, i + 1));
    }
    proof {
        assert(tail@ =~= off.subrange(1, off.len() as int));
    }
    let parts = split_char_exec(&tail, ':');
    if parts.len() > 2 {
        return Err(UtilsError::InvalidOffset);
    }
    let hours = match parse_u32_chars(&parts[0]) {
        Some(h) => h,
        None => return Err(UtilsError::InvalidOffset),
    };
    let minutes = if parts.len() == 2 {
        match parse_u32_chars(&parts[1]) {
            Some(m) => m,
            None => return Err(UtilsError::InvalidOffset),
        }
    } else {
        0
    };
    if hours > 14 {
        return Err(UtilsError::InvalidOffsetHours);
    }
    if minutes > 59 {
        return Err(UtilsError::InvalidOffsetMinutes);
    }
    let total = hm_to_s(hours as i32, minutes as i32);
    Ok(sign * total)
}

} // verus!
