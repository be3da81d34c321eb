//! Terminal colors and text attributes, and their ANSI escape codes.

use vstd::prelude::*;

use crate::text::dec_digits_of;

verus! {

/// The 8 standard colors, their bright variants, and 24-bit color.
#[derive(Clone, Copy, Debug, PartialEq, Eq, Structural)]
pub enum Color {
    Black,
    Red,
    Green,
    Yellow,
    Blue,
    Magenta,
    Cyan,
    White,
    BrightBlack,
    BrightRed,
    BrightGreen,
    BrightYellow,
    BrightBlue,
    BrightMagenta,
    BrightCyan,
    BrightWhite,
    TrueColor { r: u8, g: u8, b: u8 },
}

/// The ANSI foreground code of a color.
pub open spec fn fg_code_of(c: Color) -> Seq<char> {
    match c {
        Color::Black => "30"@,
        Color::Red => "31"@,
        Color::Green => "32"@,
        Color::Yellow => "33"@,
        Color::Blue => "34"@,
        Color::Magenta => "35"@,
        Color::Cyan => "36"@,
        Color::White => "37"@,
        Color::BrightBlack => "90"@,
        Color::BrightRed => "91"@,
        Color::BrightGreen => "92"@,
        Color::BrightYellow => "93"@,
        Color::BrightBlue => "94"@,
        Color::BrightMagenta => "95"@,
        Color::BrightCyan => "96"@,
        Color::BrightWhite => "97"@,
        Color::TrueColor { r, g, b } => "38;2;"@ + dec_digits_of(r as int) + ";"@ + dec_digits_of(
            g as int,
        ) + ";"@ + dec_digits_of(b as int),
    }
}

/// The ANSI background code of a color.
pub open spec fn bg_code_of(c: Color) -> Seq<char> {
    match c {
        Color::Black => "40"@,
        Color::Red => "41"@,
        Color::Green => "42"@,
        Color::Yellow => "43"@,
        Color::Blue => "44"@,
        Color::Magenta => "45"@,
        Color::Cyan => "46"@,
        Color::White => "47"@,
        Color::BrightBlack => "100"@,
        Color::BrightRed => "101"@,
        Color::BrightGreen => "102"@,
        Color::BrightYellow => "103"@,
        Color::BrightBlue => "104"@,
        Color::BrightMagenta => "105"@,
        Color::BrightCyan => "106"@,
        Color::BrightWhite => "107"@,
        Color::TrueColor { r, g, b } => "48;2;"@ + dec_digits_of(r as int) + ";"@ + dec_digits_of(
            g as int,
        ) + ";"@ + dec_digits_of(b as int),
    }
}

fn true_color_code(prefix: &str, r: u8, g: u8, b: u8) -> (res: String)
    ensures
        res@ == prefix@ + dec_digits_of(r as int) + ";"@ + dec_digits_of(g as int) + ";"@
            + dec_digits_of(b as int),
{
    let mut v = crate::sched::utils::chars_of(prefix);
    let part = crate::text::to_decimal(r as u64);
    crate::text::push_chars(&mut v, &part);
    v.push(';');
    let part = crate::text::to_decimal(g as u64);
    crate::text::push_chars(&mut v, &part);
    v.push(';');
    let part = crate::text::to_decimal(b as u64);
    crate::text::push_chars(&mut v, &part);
    proof {
        reveal_strlit(";");
        assert(";"@ =~= seq![';']);
        assert(v@ =~= prefix@ + dec_digits_of(r as int) + ";"@ + dec_digits_of(g as int) + ";"@
            + dec_digits_of(b as int));
    }
    crate::text::chars_to_string(&v)
}

impl Color {
    /// The ANSI foreground code of this color.
    pub fn to_fg_str(&self) -> (res: String)
        ensures
            res@ == fg_code_of(*self),
    {
        match *self {
            Color::Black => "30".to_owned(),
            Color::Red => "31".to_owned(),
            Color::Green => "32".to_owned(),
            Color::Yellow => "33".to_owned(),
            Color::Blue => "34".to_owned(),
            Color::Magenta => "35".to_owned(),
            Color::Cyan => "36".to_owned(),
            Color::White => "37".to_owned(),
            Color::BrightBlack => "90".to_owned(),
            Color::BrightRed => "91".to_owned(),
            Color::BrightGreen => "92".to_owned(),
            Color::BrightYellow => "93".to_owned(),
            Color::BrightBlue => "94".to_owned(),
            Color::BrightMagenta => "95".to_owned(),
            Color::BrightCyan => "96".to_owned(),
            Color::BrightWhite => "97".to_owned(),
            Color::TrueColor { r, g, b } => true_color_code("38;2;", r, g, b),
        }
    }

    /// The ANSI background code of this color.
    pub fn to_bg_str(&self) -> (res: String)
        ensures
            res@ == bg_code_of(*self),
    {
        match *self {
            Color::Black => "40".to_owned(),
            Color::Red => "41".to_owned(),
            Color::Green => "42".to_owned(),
            Color::Yellow => "43".to_owned(),
            Color::Blue => "44".to_owned(),
            Color::Magenta => "45".to_owned(),
            Color::Cyan => "46".to_owned(),
            Color::White => "47".to_owned(),
            Color::BrightBlack => "100".to_owned(),
            Color::BrightRed => "101".to_owned(),
            Color::BrightGreen => "102".to_owned(),
            Color::BrightYellow => "103".to_owned(),
            Color::BrightBlue => "104".to_owned(),
            Color::BrightMagenta => "105".to_owned(),
            Color::BrightCyan => "106".to_owned(),
            Color::BrightWhite => "107".to_owned(),
            Color::TrueColor { r, g, b } => true_color_code("48;2;", r, g, b),
        }
    }
}

/// A hexadecimal digit.
pub open spec fn is_hex_digit(c: char) -> bool {
    let n = c as u32;
    (48 <= n <= 57) || (97 <= n <= 102) || (65 <= n <= 70)
}

/// The value of a hexadecimal digit.
pub open spec fn hex_val(c: char) -> int {
    let n = c as u32;
    if 48 <= n <= 57 {
        n - 48
    } else if 97 <= n <= 102 {
        n - 87
    } else {
        n - 55
    }
}

/// What color a name or `#RRGGBB` form denotes, if any. Anything beyond the
/// six hexadecimal digits of a `#`-form is ignored.
pub open spec fn color_of(s: Seq<char>) -> Option<Color> {
    if s == "black"@ {
        Some(Color::Black)
    } else if s == "red"@ {
        Some(Color::Red)
    } else if s == "green"@ {
        Some(Color::Green)
    } else if s == "yellow"@ {
        Some(Color::Yellow)
    } else if s == "blue"@ {
        Some(Color::Blue)
    } else if s == "magenta"@ {
        Some(Color::Magenta)
    } else if s == "cyan"@ {
        Some(Color::Cyan)
    } else if s == "white"@ {
        Some(Color::White)
    } else if s == "bright-black"@ {
        Some(Color::BrightBlack)
    } else if s == "bright-red"@ {
        Some(Color::BrightRed)
    } else if s == "bright-green"@ {
        Some(Color::BrightGreen)
    } else if s == "bright-yellow"@ {
        Some(Color::BrightYellow)
    } else if s == "bright-blue"@ {
        Some(Color::BrightBlue)
    } else if s == "bright-magenta"@ {
        Some(Color::BrightMagenta)
    } else if s == "bright-cyan"@ {
        Some(Color::BrightCyan)
    } else if s == "bright-white"@ {
        Some(Color::BrightWhite)
    } else if s.len() >= 7 && s[0] == '#' && is_hex_digit(s[1]) && is_hex_digit(s[2])
        && is_hex_digit(s[3]) && is_hex_digit(s[4]) && is_hex_digit(s[5]) && is_hex_digit(s[6]) {
        Some(
            Color::TrueColor {
                r: (hex_val(s[1]) * 16 + hex_val(s[2])) as u8,
                g: (hex_val(s[3]) * 16 + hex_val(s[4])) as u8,
                b: (hex_val(s[5]) * 16 + hex_val(s[6])) as u8,
            },
        )
    } else {
        None
    }
}

/// The error returned for a name or form that denotes no color.
#[derive(Debug)]
pub struct StyleError {}

impl StyleError {
    /// A human-readable description of the error.
    pub fn message(&self) -> (r: String)
        ensures
            r@ == "invalid style instruction"@,
    {
        "invalid style instruction".to_owned()
    }
}

fn hex_digit_exec(c: char) -> (r: Option<u8>)
    ensures
        match r {
            Some(v) => is_hex_digit(c) && v as int == hex_val(c),
            None => !is_hex_digit(c),
        },
{
    let n = c as u32;
    if 48 <= n && n <= 57 {
        Some((n - 48) as u8)
    } else if 97 <= n && n <= 102 {
        Some((n - 87) as u8)
    } else if 65 <= n && n <= 70 {
        Some((n - 55) as u8)
    } else {
        None
    }
}

impl Color {
    /// Parse a color name such as `red` or `bright-blue`, or a `#RRGGBB`
    /// form, rejecting anything else.
    pub fn from_str(s: &str) -> (res: Result<Color, StyleError>)
        ensures
            match res {
                Ok(c) => color_of(s@) == Some(c),
                Err(_) => color_of(s@) is None,
            },
    {
        let cs = crate::sched::utils::chars_of(s);
        Self::from_chars(&cs)
    }

    /// Parse a color from its characters, as `from_str` does.
    pub fn from_chars(cs: &Vec<char>) -> (res: Result<Color, StyleError>)
        ensures
            match res {
                Ok(c) => color_of(cs@) == Some(c),
                Err(_) => color_of(cs@) is None,
            },
    {
        if chars_eq_str(cs, "black") {
            Ok(Color::Black)
        } else if chars_eq_str(cs, "red") {
            Ok(Color::Red)
        } else if chars_eq_str(cs, "green") {
            Ok(Color::Green)
        } else if chars_eq_str(cs, "yellow") {
            Ok(Color::Yellow)
        } else if chars_eq_str(cs, "blue") {
            Ok(Color::Blue)
        } else if chars_eq_str(cs, "magenta") {
            Ok(Color::Magenta)
        } else if chars_eq_str(cs, "cyan") {
            Ok(Color::Cyan)
        } else if chars_eq_str(cs, "white") {
            Ok(Color::White)
        } else if chars_eq_str(cs, "bright-black") {
            Ok(Color::BrightBlack)
        } else if chars_eq_str(cs, "bright-red") {
            Ok(Color::BrightRed)
        } else if chars_eq_str(cs, "bright-green") {
            Ok(Color::BrightGreen)
        } else if chars_eq_str(cs, "bright-yellow") {
            Ok(Color::BrightYellow)
        } else if chars_eq_str(cs, "bright-blue") {
            Ok(Color::BrightBlue)
        } else if chars_eq_str(cs, "bright-magenta") {
            Ok(Color::BrightMagenta)
        } else if chars_eq_str(cs, "bright-cyan") {
            Ok(Color::BrightCyan)
        } else if chars_eq_str(cs, "bright-white") {
            Ok(Color::BrightWhite)
        } else if cs.len() >= 7 && cs[0] == '#' {
            let d1 = hex_digit_exec(cs[1]);
            let d2 = hex_digit_exec(cs[2]);
            let d3 = hex_digit_exec(cs[3]);
            let d4 = hex_digit_exec(cs[4]);
            let d5 = hex_digit_exec(cs[5]);
            let d6 = hex_digit_exec(cs[6]);
            match (d1, d2, d3, d4, d5, d6) {
                (Some(a), Some(b), Some(c), Some(d), Some(e), Some(f)) => Ok(
                    Color::TrueColor { r: a * 16 + b, g: c * 16 + d, b: e * 16 + f },
                ),
                _ => Err(StyleError {}),
            }
        } else {
            Err(StyleError {})
        }
    }
}

/// Compare a character list with a string.
pub(crate) fn chars_eq_str(cs: &Vec<char>, s: &str) -> (r: bool)
    ensures
        r == (cs@ == s@),
{
    let lb = s.unicode_len();
    if cs.len() != lb {
        return false;
    }
    for i in 0..lb
        invariant
            lb == s@.len(),
            cs@.len() == lb,
            forall|j: int| 0 <= j < i ==> cs@[j] == s@[j],
    {
        if cs[i] != s.get_char(i) {
            return false;
        }
    }
    proof {
        assert(cs@ =~= s@);
    }
    true
}

} // verus!

verus! {

/// The text attributes a style can carry, one flag each.
#[derive(Clone, Copy, Debug, PartialEq, Eq, Structural)]
pub struct StyleAttributes {
    pub bold: bool,
    pub dim: bool,
    pub italic: bool,
    pub underline: bool,
    pub blink: bool,
    pub reversed: bool,
    pub hidden: bool,
    pub strikethrough: bool,
}

/// The ANSI codes of the set attributes, in display order.
pub open spec fn codes_of(a: StyleAttributes) -> Seq<Seq<char>> {
    let r = Seq::<Seq<char>>::empty();
    let r = if a.bold {
        r.push("1"@)
    } else {
        r
    };
    let r = if a.dim {
        r.push("2"@)
    } else {
        r
    };
    let r = if a.italic {
        r.push("3"@)
    } else {
        r
    };
    let r = if a.underline {
        r.push("4"@)
    } else {
        r
    };
    let r = if a.blink {
        r.push("5"@)
    } else {
        r
    };
    let r = if a.reversed {
        r.push("7"@)
    } else {
        r
    };
    let r = if a.hidden {
        r.push("8"@)
    } else {
        r
    };
    if a.strikethrough {
        r.push("9"@)
    } else {
        r
    }
}

impl StyleAttributes {
    /// The empty attribute set.
    pub fn empty() -> (r: StyleAttributes)
        ensures
            r == StyleAttributes::spec_empty(),
    {
        StyleAttributes {
            bold: false,
            dim: false,
            italic: false,
            underline: false,
            blink: false,
            reversed: false,
            hidden: false,
            strikethrough: false,
        }
    }

    /// The attribute set with nothing set.
    pub open spec fn spec_empty() -> StyleAttributes {
        StyleAttributes {
            bold: false,
            dim: false,
            italic: false,
            underline: false,
            blink: false,
            reversed: false,
            hidden: false,
            strikethrough: false,
        }
    }

    /// No attribute is set.
    pub fn is_empty(&self) -> (r: bool)
        ensures
            r == (*self == StyleAttributes::spec_empty()),
    {
        !self.bold && !self.dim && !self.italic && !self.underline && !self.blink && !self.reversed
            && !self.hidden && !self.strikethrough
    }

    /// The ANSI codes of the set attributes, in display order.
    #[verifier::rlimit(60)]
    pub fn to_ansi_codes(&self) -> (v: Vec<&'static str>)
        ensures
            v@.len() == codes_of(*self).len(),
            forall|i: int| 0 <= i < v@.len() ==> v@[i]@ == codes_of(*self)[i],
    {
        let mut v: Vec<&'static str> = Vec::new();
        if self.bold {
            v.push("1");
        }
        if self.dim {
            v.push("2");
        }
        if self.italic {
            v.push("3");
        }
        if self.underline {
            v.push("4");
        }
        if self.blink {
            v.push("5");
        }
        if self.reversed {
            v.push("7");
        }
        if self.hidden {
            v.push("8");
        }
        if self.strikethrough {
            v.push("9");
        }
        v
    }
}

} // verus!
