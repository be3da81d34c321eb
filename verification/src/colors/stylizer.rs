//! The earlier stylizer: the same instruction grammar, with RGB given as
//! numeric components.

use vstd::prelude::*;

use crate::sched::utils::chars_of;
use crate::stylize::style::{Color, StyleError};
use crate::stylize::stylizer;
use crate::text::{chars_to_string, push_chars, to_decimal};

verus! {

pub use crate::stylize::stylizer::StyledString;

/// Parse a whole style instruction into the style it asks for.
pub fn parse(instructions: &str) -> (r: Result<StyledString, StyleError>)
    ensures
        match r {
            Ok(ss) => stylizer::parse_of(instructions@) == Some(ss),
            Err(_) => stylizer::parse_of(instructions@) is None,
        },
{
    stylizer::parse(instructions)
}

/// Parse the color part of an instruction into foreground and background
/// colors.
pub fn parse_color_instruction(instruction: &str) -> (r: Result<
    (Option<Color>, Option<Color>),
    StyleError,
>)
    ensures
        match r {
            Ok(c) => stylizer::color_instruction_of(instruction@) == Some(c),
            Err(_) => stylizer::color_instruction_of(instruction@) is None,
        },
{
    stylizer::parse_color_instruction(instruction)
}

/// Stylize a string with ANSI colors and attributes; an instruction that
/// does not parse leaves the text unchanged.
pub fn stylize(s: &str, instructions: &str) -> (r: String)
    ensures
        r@ == stylizer::stylized(s@, instructions@),
{
    stylizer::stylize(s, instructions)
}

fn hex_byte_chars(v: &mut Vec<char>, n: u8) {
    let hi = n / 16;
    let lo = n % 16;
    v.push(hex_upper_digit(hi));
    v.push(hex_upper_digit(lo));
}

fn hex_upper_digit(d: u8) -> (r: char)
    requires
        d <= 15,
{
    if d == 0 {
        '0'
    } else if d == 1 {
        '1'
    } else if d == 2 {
        '2'
    } else if d == 3 {
        '3'
    } else if d == 4 {
        '4'
    } else if d == 5 {
        '5'
    } else if d == 6 {
        '6'
    } else if d == 7 {
        '7'
    } else if d == 8 {
        '8'
    } else if d == 9 {
        '9'
    } else if d == 10 {
        'A'
    } else if d == 11 {
        'B'
    } else if d == 12 {
        'C'
    } else if d == 13 {
        'D'
    } else if d == 14 {
        'E'
    } else {
        'F'
    }
}

fn rgb_instruction(prefix: &str, r: u8, g: u8, b: u8) -> (res: String) {
    let mut v = chars_of(prefix);
    v.push('#');
    hex_byte_chars(&mut v, r);
    hex_byte_chars(&mut v, g);
    hex_byte_chars(&mut v, b);
    chars_to_string(&v)
}

/// Extends `String` and `str` with methods that return a new string styled
/// with ANSI colors and attributes, RGB given as numeric components.
pub trait Stylize {
    /// Basic styling method: applies a styling instruction, as the
    /// `stylize` function does.
    fn stl(&self, instruction: &str) -> String;

    /// makes the text black
    fn black(&self) -> String {
        self.stl("black")
    }

    /// makes the text red
    fn red(&self) -> String {
        self.stl("red")
    }

    /// makes the text green
    fn green(&self) -> String {
        self.stl("green")
    }

    /// makes the text yellow
    fn yellow(&self) -> String {
        self.stl("yellow")
    }

    /// makes the text blue
    fn blue(&self) -> String {
        self.stl("blue")
    }

    /// makes the text magenta
    fn magenta(&self) -> String {
        self.stl("magenta")
    }

    /// makes the text cyan
    fn cyan(&self) -> String {
        self.stl("cyan")
    }

    /// makes the text white
    fn white(&self) -> String {
        self.stl("white")
    }

    /// makes the text bright black
    fn bright_black(&self) -> String {
        self.stl("bright-black")
    }

    /// makes the text bright red
    fn bright_red(&self) -> String {
        self.stl("bright-red")
    }

    /// makes the text bright green
    fn bright_green(&self) -> String {
        self.stl("bright-green")
    }

    /// makes the text bright yellow
    fn bright_yellow(&self) -> String {
        self.stl("bright-yellow")
    }

    /// makes the text bright blue
    fn bright_blue(&self) -> String {
        self.stl("bright-blue")
    }

    /// makes the text bright magenta
    fn bright_magenta(&self) -> String {
        self.stl("bright-magenta")
    }

    /// makes the text bright cyan
    fn bright_cyan(&self) -> String {
        self.stl("bright-cyan")
    }

    /// makes the text bright white
    fn bright_white(&self) -> String {
        self.stl("bright-white")
    }

    /// colors the text after the given components
    fn rgb(&self, r: u8, g: u8, b: u8) -> String {
        let instruction = rgb_instruction("", r, g, b);
        self.stl(instruction.as_str())
    }

    /// makes the background black
    fn on_black(&self) -> String {
        self.stl("on black")
    }

    /// makes the background red
    fn on_red(&self) -> String {
        self.stl("on red")
    }

    /// makes the background green
    fn on_green(&self) -> String {
        self.stl("on green")
    }

    /// makes the background yellow
    fn on_yellow(&self) -> String {
        self.stl("on yellow")
    }

    /// makes the background blue
    fn on_blue(&self) -> String {
        self.stl("on blue")
    }

    /// makes the background magenta
    fn on_magenta(&self) -> String {
        self.stl("on magenta")
    }

    /// makes the background cyan
    fn on_cyan(&self) -> String {
        self.stl("on cyan")
    }

    /// makes the background white
    fn on_white(&self) -> String {
        self.stl("on white")
    }

    /// makes the background bright black
    fn on_bright_black(&self) -> String {
        self.stl("on bright-black")
    }

    /// makes the background bright red
    fn on_bright_red(&self) -> String {
        self.stl("on bright-red")
    }

    /// makes the background bright green
    fn on_bright_green(&self) -> String {
        self.stl("on bright-green")
    }

    /// makes the background bright yellow
    fn on_bright_yellow(&self) -> String {
        self.stl("on bright-yellow")
    }

    /// makes the background bright blue
    fn on_bright_blue(&self) -> String {
        self.stl("on bright-blue")
    }

    /// makes the background bright magenta
    fn on_bright_magenta(&self) -> String {
        self.stl("on bright-magenta")
    }

    /// makes the background bright cyan
    fn on_bright_cyan(&self) -> String {
        self.stl("on bright-cyan")
    }

    /// makes the background bright white
    fn on_bright_white(&self) -> String {
        self.stl("on bright-white")
    }

    /// sets the background to the given components
    fn on_rgb(&self, r: u8, g: u8, b: u8) -> String {
        let instruction = rgb_instruction("on ", r, g, b);
        self.stl(instruction.as_str())
    }

    /// makes the text bold
    fn bold(&self) -> String {
        self.stl("+bold")
    }

    /// makes the text dim
    fn dim(&self) -> String {
        self.stl("+dim")
    }

    /// makes the text italic
    fn italic(&self) -> String {
        self.stl("+italic")
    }

    /// makes the text underlined
    fn underline(&self) -> String {
        self.stl("+underline")
    }

    /// makes the text blink
    fn blink(&self) -> String {
        self.stl("+blink")
    }

    /// reverses foreground and background
    fn reverse(&self) -> String {
        self.stl("+reverse")
    }

    /// hides the text
    fn hidden(&self) -> String {
        self.stl("+hidden")
    }

    /// strikes the text through
    fn strikethrough(&self) -> String {
        self.stl("+strikethrough")
    }
}

impl Stylize for str {
    fn stl(&self, instruction: &str) -> String {
        stylize(self, instruction)
    }
}

impl Stylize for String {
    fn stl(&self, instruction: &str) -> String {
        stylize(self.as_str(), instruction)
    }
}

} // verus!
