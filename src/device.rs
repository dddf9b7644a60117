use vstd::prelude::*;

use crate::matching::{regex_compiles, regex_find_all, Matcher};

verus! {

/// The commands that can be sent to the device's shell.
pub enum Command {
    TakeScreenshot,
    DeviceSize,
    NextProfile,
}

/// Screen size of the device, in pixels.
#[derive(Default, Debug, Clone, Copy, PartialEq, Eq)]
pub struct DeviceInfo {
    pub width: u16,
    pub height: u16,
}

/// Horizontal distance of the "next profile" button from the right edge.
pub const NEXT_BUTTON_FROM_RIGHT: u16 = 925;

/// Vertical distance of the "next profile" button from the bottom edge.
pub const NEXT_BUTTON_FROM_BOTTOM: u16 = 469;

impl DeviceInfo {
    /// Coordinates of the "next profile" button on this screen.
    pub fn get_next_profile_button_coordinates(&self) -> (r: (u16, u16))
        requires
            self.width >= NEXT_BUTTON_FROM_RIGHT,
            self.height >= NEXT_BUTTON_FROM_BOTTOM,
        ensures
            r.0 == self.width - NEXT_BUTTON_FROM_RIGHT,
            r.1 == self.height - NEXT_BUTTON_FROM_BOTTOM,
    {
        (self.width - NEXT_BUTTON_FROM_RIGHT, self.height - NEXT_BUTTON_FROM_BOTTOM)
    }
}

/// Why the screen size could not be read from the device's answer.
#[derive(Debug, Clone, Copy, PartialEq, Eq)]
pub enum DeviceInfoError {
    /// The answer holds no non-empty line.
    NoSize,
    /// The last line holds no first number that fits in 16 bits.
    NoWidth,
    /// The last line holds no second number that fits in 16 bits.
    NoHeight,
    /// The expression that finds numbers could not be compiled.
    Pattern,
}

/// `s` without its trailing newlines.
pub open spec fn trim_newlines(s: Seq<char>) -> Seq<char>
    decreases s.len(),
{
    if s.len() > 0 && s.last() == '\n' {
        trim_newlines(s.drop_last())
    } else {
        s
    }
}

/// The characters after the last newline of `s`.
pub open spec fn last_segment(s: Seq<char>) -> Seq<char>
    decreases s.len(),
{
    if s.len() == 0 || s.last() == '\n' {
        Seq::empty()
    } else {
        last_segment(s.drop_last()).push(s.last())
    }
}

/// The last non-empty line of `s`, lines being separated by `'\n'`.
pub open spec fn last_line(s: Seq<char>) -> Option<Seq<char>> {
    let t = trim_newlines(s);
    if t.len() == 0 {
        None
    } else {
        Some(last_segment(t))
    }
}

pub open spec fn is_digit(c: char) -> bool {
    '0' <= c && c <= '9'
}

pub open spec fn all_digits(s: Seq<char>) -> bool {
    forall|i: int| 0 <= i < s.len() ==> is_digit(#[trigger] s[i])
}

/// The value of `s` read as decimal digits.
pub open spec fn decimal_value(s: Seq<char>) -> int
    decreases s.len(),
{
    if s.len() == 0 {
        0
    } else {
        decimal_value(s.drop_last()) * 10 + (s.last() as int - '0' as int)
    }
}

/// `s` read as an unsigned 16-bit decimal: an optional `+`, then at least
/// one ASCII digit, with a value that fits.
pub open spec fn parse_u16_spec(s: Seq<char>) -> Option<u16> {
    let d = if s.len() > 0 && s[0] == '+' {
        s.drop_first()
    } else {
        s
    };
    if d.len() > 0 && all_digits(d) && decimal_value(d) <= u16::MAX {
        Some(decimal_value(d) as u16)
    } else {
        None
    }
}

/// The screen size given by the numbers found on the size line.
pub open spec fn size_from_fields(f: Seq<Seq<char>>) -> Result<DeviceInfo, DeviceInfoError> {
    if f.len() < 1 || parse_u16_spec(f[0]) is None {
        Err(DeviceInfoError::NoWidth)
    } else if f.len() < 2 || parse_u16_spec(f[1]) is None {
        Err(DeviceInfoError::NoHeight)
    } else {
        Ok(DeviceInfo { width: parse_u16_spec(f[0]).unwrap(), height: parse_u16_spec(f[1]).unwrap() })
    }
}

/// The expression that finds the numbers of the size line.
pub open spec fn number_pattern() -> Seq<char> {
    seq!['\\', 'd', '+']
}

proof fn lemma_decimal_nonneg(s: Seq<char>)
    requires
        all_digits(s),
    ensures
        decimal_value(s) >= 0,
    decreases s.len(),
{
    if s.len() > 0 {
        lemma_decimal_nonneg(s.drop_last());
    }
}

proof fn lemma_decimal_prefix(s: Seq<char>, k: int)
    requires
        all_digits(s),
        0 <= k <= s.len(),
    ensures
        decimal_value(s.subrange(0, k)) <= decimal_value(s),
    decreases s.len(),
{
    if k < s.len() {
        assert(s.drop_last().subrange(0, k) =~= s.subrange(0, k));
        lemma_decimal_prefix(s.drop_last(), k);
        lemma_decimal_nonneg(s.drop_last());
    } else {
        assert(s.subrange(0, k) =~= s);
    }
}

/// Reads `s` as an unsigned 16-bit decimal number.
pub fn parse_u16(s: &str) -> (r: Option<u16>)
    ensures
        r == parse_u16_spec(s@),
{
    let n = s.unicode_len();
    let mut i: usize = 0;
    if n > 0 && s.get_char(0) == '+' {
        i = 1;
    }
    let ghost d = if s@.len() > 0 && s@[0] == '+' {
        s@.drop_first()
    } else {
        s@
    };
    assert(d =~= s@.subrange(i as int, n as int));
    if i >= n {
        assert(d.len() == 0);
        return None;
    }
    let start = i;
    let mut value: u32 = 0;
    while i < n
        invariant
            start <= i <= n,
            n == s@.len(),
            d =~= s@.subrange(start as int, n as int),
            d == (if s@.len() > 0 && s@[0] == '+' {
                s@.drop_first()
            } else {
                s@
            }),
            all_digits(s@.subrange(start as int, i as int)),
            value as int == decimal_value(s@.subrange(start as int, i as int)),
            value <= u16::MAX,
        decreases n - i,
    {
        let c = s.get_char(i);
        if !('0' <= c && c <= '9') {
            assert(d[i - start] == c);
            assert(!is_digit(d[i - start]));
            return None;
        }
        let ghost prev = s@.subrange(start as int, i as int);
        let ghost next = s@.subrange(start as int, i + 1);
        assert(next.drop_last() =~= prev);
        assert(next.last() == c);
        assert(all_digits(next));
        let digit = (c as u32) - ('0' as u32);
        value = value * 10 + digit;
        i = i + 1;
        if value > 65535 {
            proof {
                let k = (i - start) as int;
                if all_digits(d) {
                    assert(d.subrange(0, k) =~= next);
                    lemma_decimal_prefix(d, k);
                }
            }
            return None;
        }
    }
    assert(s@.subrange(start as int, i as int) =~= d);
    Some(value as u16)
}

/// The last non-empty line of `s`.
pub fn last_nonempty_line(s: &str) -> (r: Option<String>)
    ensures
        r matches Some(l) ==> last_line(s@) == Some(l@),
        r is None ==> last_line(s@) is None,
{
    let n = s.unicode_len();
    let mut end: usize = n;
    assert(s@.subrange(0, n as int) =~= s@);
    loop
        invariant
            end <= n,
            n == s@.len(),
            trim_newlines(s@) == trim_newlines(s@.subrange(0, end as int)),
        ensures
            end <= n,
            trim_newlines(s@) == s@.subrange(0, end as int),
        decreases end,
    {
        if end == 0 || s.get_char(end - 1) != '\n' {
            proof {
                let t = s@.subrange(0, end as int);
                if end > 0 {
                    assert(t.last() == s@[end - 1]);
                }
                assert(trim_newlines(t) == t);
            }
            break;
        }
        assert(s@.subrange(0, end as int).drop_last() =~= s@.subrange(0, end - 1));
        end = end - 1;
    }
    if end == 0 {
        return None;
    }
    let mut start: usize = end;
    loop
        invariant
            start <= end <= n,
            n == s@.len(),
            last_segment(s@.subrange(0, end as int)) == last_segment(s@.subrange(0, start as int))
                + s@.subrange(start as int, end as int),
        ensures
            start <= end,
            last_segment(s@.subrange(0, end as int)) =~= s@.subrange(start as int, end as int),
        decreases start,
    {
        if start == 0 || s.get_char(start - 1) == '\n' {
            proof {
                let t = s@.subrange(0, start as int);
                if start > 0 {
                    assert(t.last() == s@[start - 1]);
                }
                assert(last_segment(t) =~= Seq::empty());
            }
            break;
        }
        let ghost t = s@.subrange(0, start as int);
        assert(t.drop_last() =~= s@.subrange(0, start - 1));
        assert(last_segment(t) == last_segment(s@.subrange(0, start - 1)).push(t.last()));
        assert(last_segment(s@.subrange(0, start - 1)).push(t.last()) + s@.subrange(
            start as int,
            end as int,
        ) =~= last_segment(s@.subrange(0, start - 1)) + s@.subrange(start - 1, end as int));
        start = start - 1;
    }
    let line = s.substring_char(start, end);
    Some(line.to_owned())
}

impl DeviceInfo {
    /// The screen size given by the numbers found on the size line: the
    /// first is the width, the second the height.
    pub fn from_size_fields(fields: &Vec<String>) -> (r: Result<DeviceInfo, DeviceInfoError>)
        ensures
            r == size_from_fields(fields@.map_values(|f: String| f@)),
    {
        let ghost f = fields@.map_values(|f: String| f@);
        if fields.len() < 1 {
            return Err(DeviceInfoError::NoWidth);
        }
        let width = match parse_u16(fields[0].as_str()) {
            Some(w) => w,
            None => {
                return Err(DeviceInfoError::NoWidth);
            },
        };
        if fields.len() < 2 {
            return Err(DeviceInfoError::NoHeight);
        }
        let height = match parse_u16(fields[1].as_str()) {
            Some(h) => h,
            None => {
                return Err(DeviceInfoError::NoHeight);
            },
        };
        Ok(DeviceInfo { width, height })
    }

    /// Reads the screen size from the device's answer to a size query: the
    /// first two numbers of its last non-empty line.
    pub fn new(adb_output: String) -> (r: Result<DeviceInfo, DeviceInfoError>)
        ensures
            r == (if !regex_compiles(number_pattern()) {
                Err(DeviceInfoError::Pattern)
            } else {
                match last_line(adb_output@) {
                    None => Err(DeviceInfoError::NoSize),
                    Some(l) => size_from_fields(regex_find_all(number_pattern(), l)),
                }
            }),
    {
        let line = last_nonempty_line(adb_output.as_str());
        proof {
            reveal_strlit("\\d+");
            assert("\\d+"@ =~= number_pattern());
        }
        let re = match Matcher::new("\\d+") {
            Ok(m) => m,
            Err(_) => {
                return Err(DeviceInfoError::Pattern);
            },
        };
        match line {
            Some(l) => {
                let fields = re.find_all(l.as_str());
                DeviceInfo::from_size_fields(&fields)
            },
            None => Err(DeviceInfoError::NoSize),
        }
    }
}

} // verus!
