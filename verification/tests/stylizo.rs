use lool::stylize::style::{Color, StyleAttributes};
use lool::stylize::stylizer::{parse, parse_color_instruction, stylize};

#[test]
fn test_parse_color_instruction() {
    assert_eq!(
        parse_color_instruction("red").unwrap(),
        (Some(Color::Red), None)
    );
    assert_eq!(
        parse_color_instruction("#FF0000").unwrap(),
        (Some(Color::TrueColor { r: 255, g: 0, b: 0 }), None)
    );
    assert_eq!(
        parse_color_instruction("on blue").unwrap(),
        (None, Some(Color::Blue))
    );
    assert_eq!(
        parse_color_instruction("on #0000FF").unwrap(),
        (None, Some(Color::TrueColor { r: 0, g: 0, b: 255 }))
    );
    assert_eq!(
        parse_color_instruction("red on blue").unwrap(),
        (Some(Color::Red), Some(Color::Blue))
    );
    assert_eq!(
        parse_color_instruction("#FF0000 on #0000FF").unwrap(),
        (
            Some(Color::TrueColor { r: 255, g: 0, b: 0 }),
            Some(Color::TrueColor { r: 0, g: 0, b: 255 })
        )
    );
    assert!(parse_color_instruction("red on blue on green").is_err());
    assert!(parse_color_instruction("red on").is_err());
    assert!(parse_color_instruction("on").is_err());
    assert!(parse_color_instruction("on red blue").is_err());
    assert!(parse_color_instruction("red on blue on green").is_err());
    assert!(parse_color_instruction("invalid").is_err());
    assert!(parse_color_instruction("red on invalid").is_err());
    assert!(parse_color_instruction("invalid on blue").is_err());
}

#[test]
fn test_parse_instructions() {
    let empty = StyleAttributes::empty();

    let styled_string = parse("red on blue").unwrap();
    assert_eq!(styled_string.fg, Some(Color::Red));
    assert_eq!(styled_string.bg, Some(Color::Blue));
    assert_eq!(styled_string.attrs, empty);

    let styled_string = parse("on blue").unwrap();
    assert_eq!(styled_string.fg, None);
    assert_eq!(styled_string.bg, Some(Color::Blue));
    assert_eq!(styled_string.attrs, empty);

    let styled_string = parse("red").unwrap();
    assert_eq!(styled_string.fg, Some(Color::Red));
    assert_eq!(styled_string.bg, None);
    assert_eq!(styled_string.attrs, empty);

    // ##RRGGBB
    let styled_string = parse("#FF0000 on #0000FF").unwrap();
    assert_eq!(styled_string.fg, Some(Color::TrueColor { r: 255, g: 0, b: 0 }));
    assert_eq!(styled_string.bg, Some(Color::TrueColor { r: 0, g: 0, b: 255 }));
    assert_eq!(styled_string.attrs, empty);

    let bold = StyleAttributes { bold: true, ..empty };
    let bold_underline = StyleAttributes { bold: true, underline: true, ..empty };
    let bold_underline_italic = StyleAttributes { bold: true, underline: true, italic: true, ..empty };

    let styled_string = parse("red on blue+bold").unwrap();
    assert_eq!(styled_string.fg, Some(Color::Red));
    assert_eq!(styled_string.bg, Some(Color::Blue));
    assert_eq!(styled_string.attrs, bold);

    // ##RRGGBB
    let styled_string = parse("#FF0000 on #0000FF+bold").unwrap();
    assert_eq!(styled_string.fg, Some(Color::TrueColor { r: 255, g: 0, b: 0 }));
    assert_eq!(styled_string.bg, Some(Color::TrueColor { r: 0, g: 0, b: 255 }));
    assert_eq!(styled_string.attrs, bold);

    let styled_string = parse("red on blue+bold|underline").unwrap();
    assert_eq!(styled_string.fg, Some(Color::Red));
    assert_eq!(styled_string.bg, Some(Color::Blue));
    assert_eq!(styled_string.attrs, bold_underline);

    let styled_string = parse("red on #0000FF+bold|underline|italic").unwrap();
    assert_eq!(styled_string.fg, Some(Color::Red));
    assert_eq!(styled_string.bg, Some(Color::TrueColor { r: 0, g: 0, b: 255 }));
    assert_eq!(styled_string.attrs, bold_underline_italic);

    let styled_string = parse("+bold").unwrap();
    assert_eq!(styled_string.fg, None);
    assert_eq!(styled_string.bg, None);
    assert_eq!(styled_string.attrs, bold);

    let styled_string = parse("on red+bold").unwrap();
    assert_eq!(styled_string.fg, None);
    assert_eq!(styled_string.bg, Some(Color::Red));
    assert_eq!(styled_string.attrs, bold);

    let styled_string = parse("red+bold").unwrap();
    assert_eq!(styled_string.fg, Some(Color::Red));
    assert_eq!(styled_string.bg, None);
    assert_eq!(styled_string.attrs, bold);

    let styled_string = parse("red on blue+bold").unwrap();
    assert_eq!(styled_string.fg, Some(Color::Red));
    assert_eq!(styled_string.bg, Some(Color::Blue));
}

#[test]
fn test_stylize_wraps_text_in_codes() {
    assert_eq!(stylize("hi", "red"), "\x1b[31mhi\x1b[0m");
    assert_eq!(stylize("hi", "red on blue"), "\x1b[31m\x1b[44mhi\x1b[0m");
    assert_eq!(stylize("hi", "+bold|underline"), "\x1b[1;4mhi\x1b[0m");
    assert_eq!(
        stylize("hi", "#FF0000"),
        "\x1b[38;2;255;0;0mhi\x1b[0m"
    );
    // an instruction that does not parse leaves the text unchanged
    assert_eq!(stylize("hi", "no-such-color"), "hi");
}

#[test]
fn test_color_code_strings() {
    assert_eq!(Color::Red.to_fg_str(), "31");
    assert_eq!(Color::Red.to_bg_str(), "41");
    assert_eq!(Color::BrightWhite.to_fg_str(), "97");
    assert_eq!(Color::BrightWhite.to_bg_str(), "107");
    assert_eq!(Color::TrueColor { r: 1, g: 22, b: 203 }.to_fg_str(), "38;2;1;22;203");
    assert!(Color::from_str("bright-magenta").unwrap() == Color::BrightMagenta);
    assert!(Color::from_str("#abcdef").unwrap() == Color::TrueColor { r: 171, g: 205, b: 239 });
    assert!(Color::from_str("").is_err());
    assert!(Color::from_str("#12345").is_err());
}

#[test]
fn test_colors_module_matches_stylize() {
    let a = lool::colors::stylizer::stylize("hi", "red on blue+bold");
    let b = stylize("hi", "red on blue+bold");
    assert_eq!(a, b);
}
