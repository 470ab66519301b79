//! Reading a 24-hour `HH:MM` time on a 12-hour clock.

use vstd::prelude::*;
use vstd::string::*;

verus! {

/// The decimal value of a string of ASCII digits.
pub open spec fn digits_value(s: Seq<char>) -> int
    decreases s.len(),
{
    if s.len() == 0 {
        0
    } else {
        10 * digits_value(s.drop_last()) + (s.last() as int - 48)
    }
}

pub open spec fn is_digit(c: char) -> bool {
    '0' <= c && c <= '9'
}

/// A non-empty run of ASCII digits.
pub open spec fn is_numeral(s: Seq<char>) -> bool {
    s.len() > 0 && forall|i: int| 0 <= i < s.len() ==> is_digit(#[trigger] s[i])
}

/// `t` reads `HH:MM` with its only colon at `p`: digits on both sides, an hour of at most 23.
pub open spec fn clock_at(t: Seq<char>, p: int) -> bool {
    &&& 0 <= p < t.len()
    &&& t[p] == ':'
    &&& is_numeral(t.subrange(0, p))
    &&& is_numeral(t.subrange(p + 1, t.len() as int))
    &&& digits_value(t.subrange(0, p)) <= 23
}

/// The hour as a 12-hour clock shows it.
pub open spec fn twelve_hour(hour: int) -> int {
    if hour == 0 {
        12
    } else if hour > 12 {
        hour - 12
    } else {
        hour
    }
}

pub open spec fn period_of(hour: int) -> Seq<char> {
    if hour < 12 {
        "AM"@
    } else {
        "PM"@
    }
}

/// `n` (below 100) as two decimal digits.
pub open spec fn two_digits(n: int) -> Seq<char> {
    seq![(48 + n / 10) as char, (48 + n % 10) as char]
}

/// `hh:MM AM|PM` for the hour `hour` and the minutes as written.
pub open spec fn twelve_hour_text(hour: int, minutes: Seq<char>) -> Seq<char> {
    two_digits(twelve_hour(hour)) + ":"@ + minutes + " "@ + period_of(hour)
}

/// The 12-hour reading of a 24-hour `HH:MM`, or `Invalid time`.
pub open spec fn to_12h_text(t: Seq<char>) -> Seq<char> {
    if exists|p: int| clock_at(t, p) {
        let p = choose|p: int| clock_at(t, p);
        twelve_hour_text(digits_value(t.subrange(0, p)), t.subrange(p + 1, t.len() as int))
    } else {
        "Invalid time"@
    }
}

/// Two decimal digits for an hour of the 12-hour clock.
fn hour_digits(n: u32) -> (r: &'static str)
    requires
        1 <= n <= 12,
    ensures
        r@ == two_digits(n as int),
{
    proof {
        reveal_strlit("01");
        reveal_strlit("02");
        reveal_strlit("03");
        reveal_strlit("04");
        reveal_strlit("05");
        reveal_strlit("06");
        reveal_strlit("07");
        reveal_strlit("08");
        reveal_strlit("09");
        reveal_strlit("10");
        reveal_strlit("11");
        reveal_strlit("12");
    }
    let r = match n {
        1 => "01",
        2 => "02",
        3 => "03",
        4 => "04",
        5 => "05",
        6 => "06",
        7 => "07",
        8 => "08",
        9 => "09",
        10 => "10",
        11 => "11",
        _ => "12",
    };
    assert(r@ =~= two_digits(n as int));
    r
}

/// Reads the digits of `t[from..to]`; `Some(v)` with `v` the value capped at 24
/// when all are digits and there is at least one.
fn read_capped(t: &str, from: usize, to: usize) -> (r: Option<u32>)
    requires
        from <= to <= t@.len(),
    ensures
        r is Some <==> is_numeral(t@.subrange(from as int, to as int)),
        r matches Some(v) ==> {
            let d = digits_value(t@.subrange(from as int, to as int));
            &&& (d <= 23 ==> v == d)
            &&& (d > 23 ==> v == 24)
        },
{
    let ghost s = t@;
    if from == to {
        return None;
    }
    let mut v: u32 = 0;
    let mut i: usize = from;
    while i < to
        invariant
            from <= i <= to <= s.len(),
            s == t@,
            forall|k: int| from <= k < i ==> is_digit(#[trigger] s[k]),
            digits_value(s.subrange(from as int, i as int)) >= 0,
            digits_value(s.subrange(from as int, i as int)) <= 23 ==> v == digits_value(
                s.subrange(from as int, i as int),
            ),
            digits_value(s.subrange(from as int, i as int)) > 23 ==> v == 24,
        decreases to - i,
    {
        let c = t.get_char(i);
        assert(s.subrange(from as int, i + 1).drop_last() =~= s.subrange(from as int, i as int));
        if c < '0' || c > '9' {
            assert(!is_digit(s.subrange(from as int, to as int)[i - from]));
            return None;
        }
        let d: u32 = (c as u32) - 48;
        if v <= 23 {
            v = v * 10 + d;
            if v > 23 {
                v = 24;
            }
        }
        i = i + 1;
    }
    assert forall|k: int| 0 <= k < to - from implies is_digit(
        #[trigger] s.subrange(from as int, to as int)[k],
    ) by {
        assert(s.subrange(from as int, to as int)[k] == s[from + k]);
    }
    Some(v)
}

/// Converts a 24-hour `HH:MM` reading to `hh:MM AM|PM`. An hour of 0 shows as 12 AM,
/// 12 as 12 PM, 13 to 23 as 1 to 11 PM. Anything but two colon-separated runs of
/// digits with an hour of at most 23 gives `Invalid time`.
pub fn convert_to_12h_format(time_24h: String) -> (r: String)
    ensures
        r@ == to_12h_text(time_24h@),
{
    let t = time_24h.as_str();
    let ghost s = t@;
    let n = t.unicode_len();
    let mut p: usize = 0;
    while p < n && t.get_char(p) != ':'
        invariant
            p <= n == s.len(),
            s == t@,
            forall|k: int| 0 <= k < p ==> s[k] != ':',
        decreases n - p,
    {
        p = p + 1;
    }
    proof {
        reveal_strlit("Invalid time");
    }
    if p == n {
        assert forall|q: int| !clock_at(s, q) by {
            if 0 <= q < s.len() {
                assert(s[q] != ':');
            }
        }
        return String::from_str("Invalid time");
    }
    let hour = read_capped(t, 0, p);
    let minutes_ok = read_capped(t, p + 1, n);
    assert forall|q: int| clock_at(s, q) implies q == p by {
        if q < p {
            assert(s[q] != ':');
        } else if q > p {
            assert(s.subrange(0, q)[p as int] == s[p as int]);
        }
    }
    match (hour, minutes_ok) {
        (Some(h), Some(_)) => {
            if h > 23 {
                return String::from_str("Invalid time");
            }
            assert(clock_at(s, p as int));
            let shown = if h == 0 {
                12
            } else if h > 12 {
                h - 12
            } else {
                h
            };
            let mut out = String::from_str(hour_digits(shown));
            out.append(":");
            out.append(t.substring_char(p + 1, n));
            out.append(" ");
            proof {
                reveal_strlit(":");
                reveal_strlit(" ");
                reveal_strlit("AM");
                reveal_strlit("PM");
            }
            if h < 12 {
                out.append("AM");
            } else {
                out.append("PM");
            }
            out
        },
        _ => String::from_str("Invalid time"),
    }
}

} // verus!
