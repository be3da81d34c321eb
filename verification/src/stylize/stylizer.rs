//! Parsing style instructions such as `red on blue+bold|underline` and
//! rendering strings with the ANSI codes they ask for.

use vstd::prelude::*;

use crate::sched::utils::{chars_of, split_char, split_char_exec};
use crate::stylize::style::{
    bg_code_of, chars_eq_str, codes_of, color_of, fg_code_of, Color, StyleAttributes, StyleError,
};
use crate::text::{chars_to_string, push_chars};

verus! {

/// The style a parsed instruction asks for.
#[derive(Clone, Copy, Debug)]
pub struct StyledString {
    /// the foreground color, if any
    pub fg: Option<Color>,
    /// the background color, if any
    pub bg: Option<Color>,
    /// the text attributes
    pub attrs: StyleAttributes,
}

impl Default for StyledString {
    /// The default style asks for nothing.
    fn default() -> (r: StyledString)
        ensures
            r.fg is None && r.bg is None && r.attrs == StyleAttributes::spec_empty(),
    {
        StyledString { fg: None, bg: None, attrs: StyleAttributes::empty() }
    }
}

/// A space, in the narrow ASCII sense.
pub open spec fn is_space(c: char) -> bool {
    c == ' ' || c == '\t' || c == '\n' || c == '\r'
}

/// The sequence without its leading spaces.
pub open spec fn ltrim(s: Seq<char>) -> Seq<char>
    decreases s.len(),
{
    if s.len() > 0 && is_space(s[0]) {
        ltrim(s.drop_first())
    } else {
        s
    }
}

/// The sequence without its trailing spaces.
pub open spec fn rtrim(s: Seq<char>) -> Seq<char>
    decreases s.len(),
{
    if s.len() > 0 && is_space(s.last()) {
        rtrim(s.drop_last())
    } else {
        s
    }
}

/// The sequence without leading or trailing spaces.
pub open spec fn trim_spaces(s: Seq<char>) -> Seq<char> {
    rtrim(ltrim(s))
}

/// The sequence without its leading `+` characters.
pub open spec fn drop_plus(s: Seq<char>) -> Seq<char>
    decreases s.len(),
{
    if s.len() > 0 && s[0] == '+' {
        drop_plus(s.drop_first())
    } else {
        s
    }
}

/// The ASCII upper-case form of a character.
pub open spec fn upper_char(c: char) -> char {
    let n = c as u32;
    if 97 <= n <= 122 {
        ((n - 32) as u8) as char
    } else {
        c
    }
}

/// The ASCII upper-case form of a sequence.
pub open spec fn upper_seq(s: Seq<char>) -> Seq<char>
    decreases s.len(),
{
    if s.len() == 0 {
        Seq::empty()
    } else {
        upper_seq(s.drop_last()).push(upper_char(s.last()))
    }
}

/// The attributes named by `|`-separated segments from position `i` on,
/// added to `acc`; empty segments are skipped, unknown names reject the
/// whole instruction.
pub open spec fn attrs_from(parts: Seq<Seq<char>>, i: int, acc: StyleAttributes) -> Option<
    StyleAttributes,
>
    decreases parts.len() - i,
{
    if i < 0 || i >= parts.len() {
        Some(acc)
    } else {
        let t = trim_spaces(parts[i]);
        if t.len() == 0 {
            attrs_from(parts, i + 1, acc)
        } else if t == "BOLD"@ {
            attrs_from(parts, i + 1, StyleAttributes { bold: true, ..acc })
        } else if t == "DIM"@ {
            attrs_from(parts, i + 1, StyleAttributes { dim: true, ..acc })
        } else if t == "ITALIC"@ {
            attrs_from(parts, i + 1, StyleAttributes { italic: true, ..acc })
        } else if t == "UNDERLINE"@ {
            attrs_from(parts, i + 1, StyleAttributes { underline: true, ..acc })
        } else if t == "BLINK"@ {
            attrs_from(parts, i + 1, StyleAttributes { blink: true, ..acc })
        } else if t == "REVERSED"@ {
            attrs_from(parts, i + 1, StyleAttributes { reversed: true, ..acc })
        } else if t == "HIDDEN"@ {
            attrs_from(parts, i + 1, StyleAttributes { hidden: true, ..acc })
        } else if t == "STRIKETHROUGH"@ {
            attrs_from(parts, i + 1, StyleAttributes { strikethrough: true, ..acc })
        } else {
            None
        }
    }
}

/// The attributes an instruction segment names, compared without regard to
/// case.
pub open spec fn attrs_of(s: Seq<char>) -> Option<StyleAttributes> {
    attrs_from(split_char(upper_seq(s), '|'), 0, StyleAttributes::spec_empty())
}

/// Splitting on the four-character separator ` on `, leftmost first.
pub open spec fn split_on(s: Seq<char>) -> Seq<Seq<char>>
    decreases s.len(),
{
    if s.len() < 4 {
        seq![s]
    } else if s.subrange(0, 4) == " on "@ {
        seq![Seq::<char>::empty()] + split_on(s.subrange(4, s.len() as int))
    } else {
        let rest = split_on(s.drop_first());
        seq![seq![s[0]] + rest[0]] + rest.drop_first()
    }
}

/// A split has at least one part.
proof fn lemma_split_on_len(s: Seq<char>)
    ensures
        split_on(s).len() >= 1,
    decreases s.len(),
{
    if s.len() >= 4 {
        if s.subrange(0, 4) == " on "@ {
            lemma_split_on_len(s.subrange(4, s.len() as int));
        } else {
            lemma_split_on_len(s.drop_first());
        }
    }
}

/// The instruction begins with `on `.
pub open spec fn on_prefix(s: Seq<char>) -> bool {
    s.len() >= 3 && s[0] == 'o' && s[1] == 'n' && s[2] == ' '
}

/// The foreground and background colors an instruction names: `on <color>`
/// names a background alone; otherwise one color, or two separated by
/// ` on `.
pub open spec fn color_instruction_of(s: Seq<char>) -> Option<(Option<Color>, Option<Color>)> {
    if on_prefix(s) {
        match color_of(s.subrange(3, s.len() as int)) {
            Some(c) => Some((None, Some(c))),
            None => None,
        }
    } else {
        let parts = split_on(s);
        if parts.len() == 1 {
            match color_of(parts[0]) {
                Some(c) => Some((Some(c), None)),
                None => None,
            }
        } else if parts.len() == 2 {
            match (color_of(parts[0]), color_of(parts[1])) {
                (Some(f), Some(b)) => Some((Some(f), Some(b))),
                _ => None,
            }
        } else {
            None
        }
    }
}

/// The style an instruction asks for: a leading `+` gives attributes alone;
/// otherwise colors, optionally followed by `+` and attributes.
pub open spec fn parse_of(s: Seq<char>) -> Option<StyledString> {
    if s.len() > 0 && s[0] == '+' {
        match attrs_of(drop_plus(s)) {
            Some(a) => Some(StyledString { fg: None, bg: None, attrs: a }),
            None => None,
        }
    } else {
        let parts = split_char(s, '+');
        if parts.len() == 1 {
            match color_instruction_of(trim_spaces(parts[0])) {
                Some(c) => Some(
                    StyledString { fg: c.0, bg: c.1, attrs: StyleAttributes::spec_empty() },
                ),
                None => None,
            }
        } else if parts.len() == 2 {
            match (color_instruction_of(trim_spaces(parts[0])), attrs_of(parts[1])) {
                (Some(c), Some(a)) => Some(StyledString { fg: c.0, bg: c.1, attrs: a }),
                _ => None,
            }
        } else {
            None
        }
    }
}

} // verus!

verus! {

/// Copy a range of characters.
fn subvec(v: &Vec<char>, from: usize, to: usize) -> (r: Vec<char>)
    requires
        from <= to <= v@.len(),
    ensures
        r@ == v@.subrange(from as int, to as int),
{
    let mut r: Vec<char> = Vec::new();
    for i in from..to
        invariant
            from <= i <= to <= v@.len(),
            r@ == v@.subrange(from as int, i as int),
    {
        r.push(v[i]);
        proof {
            assert(r@ =~= v@.subrange(from as int, i + 1));
        }
    }
    r
}

fn is_space_exec(c: char) -> (r: bool)
    ensures
        r == is_space(c),
{
    c == ' ' || c == '\t' || c == '\n' || c == '\r'
}

/// The characters without leading or trailing spaces.
fn trim_exec(v: &Vec<char>) -> (r: Vec<char>)
    ensures
        r@ == trim_spaces(v@),
{
    let mut start: usize = 0;
    proof {
        assert(v@.subrange(0, v@.len() as int) =~= v@);
    }
    while start < v.len() && is_space_exec(v[start])
        invariant
            start <= v@.len(),
            ltrim(v@) == ltrim(v@.subrange(start as int, v@.len() as int)),
        decreases v@.len() - start,
    {
        proof {
            let rem = v@.subrange(start as int, v@.len() as int);
            assert(rem.drop_first() =~= v@.subrange(start as int + 1, v@.len() as int));
        }
        start = start + 1;
    }
    proof {
        assert(v@.subrange(0, v@.len() as int) =~= v@);
        assert(ltrim(v@) == v@.subrange(start as int, v@.len() as int));
    }
    let mut end: usize = v.len();
    while end > start && is_space_exec(v[end - 1])
        invariant
            start <= end <= v@.len(),
            ltrim(v@) == v@.subrange(start as int, v@.len() as int),
            rtrim(ltrim(v@)) == rtrim(v@.subrange(start as int, end as int)),
        decreases end,
    {
        proof {
            let rem = v@.subrange(start as int, end as int);
            assert(rem.drop_last() =~= v@.subrange(start as int, end as int - 1));
        }
        end = end - 1;
    }
    proof {
        assert(rtrim(ltrim(v@)) == v@.subrange(start as int, end as int));
    }
    subvec(v, start, end)
}

/// The characters without their leading `+` signs.
fn drop_plus_exec(v: &Vec<char>) -> (r: Vec<char>)
    ensures
        r@ == drop_plus(v@),
{
    let mut start: usize = 0;
    proof {
        assert(v@.subrange(0, v@.len() as int) =~= v@);
    }
    while start < v.len() && v[start] == '+'
        invariant
            start <= v@.len(),
            drop_plus(v@) == drop_plus(v@.subrange(start as int, v@.len() as int)),
        decreases v@.len() - start,
    {
        proof {
            let rem = v@.subrange(start as int, v@.len() as int);
            assert(rem.drop_first() =~= v@.subrange(start as int + 1, v@.len() as int));
        }
        start = start + 1;
    }
    proof {
        assert(v@.subrange(0, v@.len() as int) =~= v@);
        assert(drop_plus(v@) == v@.subrange(start as int, v@.len() as int));
    }
    subvec(v, start, v.len())
}

fn upper_char_exec(c: char) -> (r: char)
    ensures
        r == upper_char(c),
{
    let n = c as u32;
    if 97 <= n && n <= 122 {
        ((n - 32) as u8) as char
    } else {
        c
    }
}

/// The ASCII upper-case form of the characters.
fn upper_exec(v: &Vec<char>) -> (r: Vec<char>)
    ensures
        r@ == upper_seq(v@),
{
    let mut r: Vec<char> = Vec::new();
    for i in 0..v.len()
        invariant
            r@ == upper_seq(v@.subrange(0, i as int)),
    {
        r.push(upper_char_exec(v[i]));
        proof {
            let pre = v@.subrange(0, i as int);
            let now = v@.subrange(0, i + 1);
            assert(now.drop_last() =~= pre);
            assert(now.last() == v@[i as int]);
        }
    }
    proof {
        assert(v@.subrange(0, v@.len() as int) =~= v@);
    }
    r
}

/// The attributes an instruction segment names.
fn parse_attrs(v: &Vec<char>) -> (r: Option<StyleAttributes>)
    ensures
        r == attrs_of(v@),
{
    let up = upper_exec(v);
    let parts = split_char_exec(&up, '|');
    let ghost ps = split_char(upper_seq(v@), '|');
    let mut acc = StyleAttributes::empty();
    let mut i: usize = 0;
    while i < parts.len()
        invariant
            i <= parts@.len(),
            parts@.len() == ps.len(),
            forall|j: int| 0 <= j < ps.len() ==> parts@[j]@ == ps[j],
            attrs_of(v@) == attrs_from(ps, i as int, acc),
        decreases parts@.len() - i,
    {
        let t = trim_exec(&parts[i]);
        if t.len() == 0 {
        } else if chars_eq_str(&t, "BOLD") {
            acc = StyleAttributes { bold: true, ..acc };
        } else if chars_eq_str(&t, "DIM") {
            acc = StyleAttributes { dim: true, ..acc };
        } else if chars_eq_str(&t, "ITALIC") {
            acc = StyleAttributes { italic: true, ..acc };
        } else if chars_eq_str(&t, "UNDERLINE") {
            acc = StyleAttributes { underline: true, ..acc };
        } else if chars_eq_str(&t, "BLINK") {
            acc = StyleAttributes { blink: true, ..acc };
        } else if chars_eq_str(&t, "REVERSED") {
            acc = StyleAttributes { reversed: true, ..acc };
        } else if chars_eq_str(&t, "HIDDEN") {
            acc = StyleAttributes { hidden: true, ..acc };
        } else if chars_eq_str(&t, "STRIKETHROUGH") {
            acc = StyleAttributes { strikethrough: true, ..acc };
        } else {
            return None;
        }
        i = i + 1;
    }
    Some(acc)
}

/// Split the characters on the four-character separator ` on `.
fn split_on_exec(s: &Vec<char>) -> (parts: Vec<Vec<char>>)
    ensures
        parts@.len() == split_on(s@).len(),
        forall|i: int| 0 <= i < parts@.len() ==> parts@[i]@ == split_on(s@)[i],
{
    let mut parts: Vec<Vec<char>> = Vec::new();
    let mut cur: Vec<char> = Vec::new();
    let ghost whole = split_on(s@);
    proof {
        assert(s@.subrange(0, s@.len() as int) =~= s@);
        lemma_split_on_len(s@);
        assert(cur@ + whole[0] =~= whole[0]);
    }
    let mut i: usize = 0;
    loop
        invariant
            i <= s@.len(),
            whole == split_on(s@),
            ({
                let rest = split_on(s@.subrange(i as int, s@.len() as int));
                &&& rest.len() >= 1
                &&& whole.len() == parts@.len() + rest.len()
                &&& forall|j: int|
                    #![trigger parts@[j]]
                    0 <= j < parts@.len() ==> whole[j] == parts@[j]@
                &&& whole[parts@.len() as int] == cur@ + rest[0]
                &&& forall|j: int|
                    #![trigger whole[j]]
                    parts@.len() < j < whole.len() ==> whole[j] == rest[j - parts@.len()]
            }),
        ensures
            whole.len() == parts@.len() + 1,
            forall|j: int|
                #![trigger parts@[j]]
                0 <= j < parts@.len() ==> whole[j] == parts@[j]@,
            whole[parts@.len() as int] == cur@,
        decreases s@.len() - i,
    {
        let ghost rem = s@.subrange(i as int, s@.len() as int);
        let ghost rest = split_on(rem);
        let ghost np = parts@.len() as int;
        if i == s.len() {
            proof {
                assert(rem =~= Seq::<char>::empty());
                assert(cur@ + rest[0] =~= cur@);
            }
            break ;
        } else if s.len() - i >= 4 && s[i] == ' ' && s[i + 1] == 'o' && s[i + 2] == 'n' && s[i + 3]
            == ' ' {
            let ghost rem4 = s@.subrange(i as int + 4, s@.len() as int);
            let ghost rest4 = split_on(rem4);
            proof {
                assert(rem.subrange(0, 4) =~= s@.subrange(i as int, i as int + 4));
                reveal_strlit(" on ");
                assert(" on "@ =~= seq![' ', 'o', 'n', ' ']);
                assert(rem.subrange(0, 4) =~= " on "@);
                assert(rem.subrange(4, rem.len() as int) =~= rem4);
                lemma_split_on_len(rem4);
                assert(rest =~= seq![Seq::<char>::empty()] + rest4);
                assert(cur@ + rest[0] =~= cur@);
                assert(whole[np + 1] == rest[1]);
                assert(rest[1] == rest4[0]);
                assert forall|j: int| np + 1 < j < whole.len() implies #[trigger] whole[j]
                    == rest4[j - (np + 1)] by {
                    assert(whole[j] == rest[j - np]);
                    assert(rest[j - np] == rest4[j - np - 1]);
                }
            }
            parts.push(cur);
            cur = Vec::new();
            proof {
                assert(cur@ + rest4[0] =~= rest4[0]);
            }
            i = i + 4;
        } else {
            let ghost rem1 = s@.subrange(i as int + 1, s@.len() as int);
            let ghost rest1 = split_on(rem1);
            proof {
                if rem.len() >= 4 {
                    assert(rem.subrange(0, 4) =~= s@.subrange(i as int, i as int + 4));
                    reveal_strlit(" on ");
                    assert(" on "@ =~= seq![' ', 'o', 'n', ' ']);
                    if rem.subrange(0, 4) == " on "@ {
                        assert(s@.subrange(i as int, i as int + 4)[0] == ' ');
                        assert(s@.subrange(i as int, i as int + 4)[1] == 'o');
                        assert(s@.subrange(i as int, i as int + 4)[2] == 'n');
                        assert(s@.subrange(i as int, i as int + 4)[3] == ' ');
                        assert(false);
                    }
                }
                assert(rem.drop_first() =~= rem1);
                assert(rem[0] == s@[i as int]);
                lemma_split_on_len(rem1);
                if rem.len() < 4 {
                    if rem.len() == 0 {
                        assert(false);
                    }
                    assert(rest =~= seq![rem]);
                    assert(rem =~= seq![rem[0]] + rem.drop_first());
                    assert(rest1.len() >= 1);
                    if rem1.len() < 4 {
                        assert(rest1 =~= seq![rem1]);
                    } else {
                        assert(rem1.len() == 3);
                        assert(false);
                    }
                    assert(rest =~= seq![seq![rem[0]] + rest1[0]] + rest1.drop_first());
                } else {
                    assert(rest =~= seq![seq![rem[0]] + rest1[0]] + rest1.drop_first());
                }
                assert(whole[np] == cur@ + rest[0]);
                assert(rest[0] =~= seq![s@[i as int]] + rest1[0]);
                let cur1 = cur@.push(s@[i as int]);
                assert(cur1 + rest1[0] =~= cur@ + (seq![s@[i as int]] + rest1[0]));
                assert forall|j: int| np < j < whole.len() implies #[trigger] whole[j] == rest1[j
                    - np] by {
                    assert(whole[j] == rest[j - np]);
                    assert(rest[j - np] == rest1.drop_first()[j - np - 1]);
                    assert(rest1.drop_first()[j - np - 1] == rest1[j - np]);
                }
            }
            cur.push(s[i]);
            i = i + 1;
        }
    }
    parts.push(cur);
    parts
}

} // verus!

verus! {

/// Parse the color part of an instruction into foreground and background
/// colors.
pub fn parse_color_instruction(instruction: &str) -> (r: Result<
    (Option<Color>, Option<Color>),
    StyleError,
>)
    ensures
        match r {
            Ok(c) => color_instruction_of(instruction@) == Some(c),
            Err(_) => color_instruction_of(instruction@) is None,
        },
{
    let cs = chars_of(instruction);
    parse_color_chars(&cs)
}

fn parse_color_chars(cs: &Vec<char>) -> (r: Result<(Option<Color>, Option<Color>), StyleError>)
    ensures
        match r {
            Ok(c) => color_instruction_of(cs@) == Some(c),
            Err(_) => color_instruction_of(cs@) is None,
        },
{
    if cs.len() >= 3 && cs[0] == 'o' && cs[1] == 'n' && cs[2] == ' ' {
        let rest = subvec(cs, 3, cs.len());
        match Color::from_chars(&rest) {
            Ok(c) => Ok((None, Some(c))),
            Err(e) => Err(e),
        }
    } else {
        let parts = split_on_exec(cs);
        if parts.len() == 1 {
            match Color::from_chars(&parts[0]) {
                Ok(c) => Ok((Some(c), None)),
                Err(e) => Err(e),
            }
        } else if parts.len() == 2 {
            let fg = match Color::from_chars(&parts[0]) {
                Ok(c) => c,
                Err(e) => return Err(e),
            };
            let bg = match Color::from_chars(&parts[1]) {
                Ok(c) => c,
                Err(e) => return Err(e),
            };
            Ok((Some(fg), Some(bg)))
        } else {
            Err(StyleError {})
        }
    }
}

/// Parse a whole style instruction into the style it asks for.
pub fn parse(instructions: &str) -> (r: Result<StyledString, StyleError>)
    ensures
        match r {
            Ok(ss) => parse_of(instructions@) == Some(ss),
            Err(_) => parse_of(instructions@) is None,
        },
{
    let cs = chars_of(instructions);
    if cs.len() > 0 && cs[0] == '+' {
        let tail = drop_plus_exec(&cs);
        match parse_attrs(&tail) {
            Some(a) => Ok(StyledString { fg: None, bg: None, attrs: a }),
            None => Err(StyleError {}),
        }
    } else {
        let parts = split_char_exec(&cs, '+');
        if parts.len() == 1 {
            let t = trim_exec(&parts[0]);
            match parse_color_chars(&t) {
                Ok(c) => Ok(StyledString { fg: c.0, bg: c.1, attrs: StyleAttributes::empty() }),
                Err(e) => Err(e),
            }
        } else if parts.len() == 2 {
            let t = trim_exec(&parts[0]);
            let colors = match parse_color_chars(&t) {
                Ok(c) => c,
                Err(e) => return Err(e),
            };
            match parse_attrs(&parts[1]) {
                Some(a) => Ok(StyledString { fg: colors.0, bg: colors.1, attrs: a }),
                None => Err(StyleError {}),
            }
        } else {
            Err(StyleError {})
        }
    }
}

/// The codes joined from position `i` on, each preceded by `;`.
pub open spec fn join_tail(cs: Seq<Seq<char>>, i: int) -> Seq<char>
    decreases cs.len() - i,
{
    if i < 0 || i >= cs.len() {
        Seq::empty()
    } else {
        ";"@ + cs[i] + join_tail(cs, i + 1)
    }
}

/// The codes joined with `;` separators.
pub open spec fn join_codes(cs: Seq<Seq<char>>) -> Seq<char> {
    if cs.len() == 0 {
        Seq::empty()
    } else {
        cs[0] + join_tail(cs, 1)
    }
}

/// The escape sequence opening the foreground color, if one is asked for.
pub open spec fn fg_part_of(ss: StyledString) -> Seq<char> {
    match ss.fg {
        Some(c) => "\u{1b}["@ + fg_code_of(c) + "m"@,
        None => Seq::<char>::empty(),
    }
}

/// The escape sequence opening the background color, if one is asked for.
pub open spec fn bg_part_of(ss: StyledString) -> Seq<char> {
    match ss.bg {
        Some(c) => "\u{1b}["@ + bg_code_of(c) + "m"@,
        None => Seq::<char>::empty(),
    }
}

/// The escape sequence opening the attributes, when any is set.
pub open spec fn attr_part_of(a: StyleAttributes) -> Seq<char> {
    if a == StyleAttributes::spec_empty() || codes_of(a).len() == 0 {
        Seq::<char>::empty()
    } else {
        "\u{1b}["@ + join_codes(codes_of(a)) + "m"@
    }
}

/// The rendering of `s` under a parsed style: each present part opens an
/// escape sequence, and one reset closes the text.
pub open spec fn styled_text(s: Seq<char>, ss: StyledString) -> Seq<char> {
    fg_part_of(ss) + bg_part_of(ss) + attr_part_of(ss.attrs) + s + "\u{1b}[0m"@
}

/// What stylizing produces: the styled text, or the text unchanged when the
/// instruction does not parse.
pub open spec fn stylized(s: Seq<char>, instructions: Seq<char>) -> Seq<char> {
    match parse_of(instructions) {
        Some(ss) => styled_text(s, ss),
        None => s,
    }
}

fn escape_wrap(code_string: &String) -> (r: Vec<char>)
    ensures
        r@ == "\u{1b}["@ + code_string@ + "m"@,
{
    let mut r = chars_of("\u{1b}[");
    let code = chars_of(code_string.as_str());
    push_chars(&mut r, &code);
    r.push('m');
    proof {
        reveal_strlit("m");
        assert("m"@ =~= seq!['m']);
        assert(r@ =~= "\u{1b}["@ + code_string@ + "m"@);
    }
    r
}

#[verifier::rlimit(100)]
fn attrs_chars(a: &StyleAttributes) -> (r: Vec<char>)
    ensures
        r@ == attr_part_of(*a),
{
    let mut out: Vec<char> = Vec::new();
    if a.is_empty() {
        proof {
            assert(out@ =~= Seq::<char>::empty());
        }
        return out;
    }
    let ansi_codes = a.to_ansi_codes();
    if ansi_codes.len() == 0 {
        proof {
            assert(out@ =~= Seq::<char>::empty());
        }
        return out;
    }
    let ghost codes = codes_of(*a);
    let esc = chars_of("\u{1b}[");
    push_chars(&mut out, &esc);
    let first = chars_of(ansi_codes[0]);
    push_chars(&mut out, &first);
    proof {
        assert(out@ =~= "\u{1b}["@ + codes[0]);
    }
    for i in 1..ansi_codes.len()
        invariant
            codes == codes_of(*a),
            ansi_codes@.len() == codes.len(),
            codes.len() >= 1,
            forall|j: int| 0 <= j < codes.len() ==> ansi_codes@[j]@ == codes[j],
            out@ + join_tail(codes, i as int) == "\u{1b}["@ + join_codes(codes),
    {
        let ghost out0 = out@;
        out.push(';');
        let code = chars_of(ansi_codes[i]);
        push_chars(&mut out, &code);
        proof {
            reveal_strlit(";");
            assert(";"@ =~= seq![';']);
            assert(out@ =~= out0 + (";"@ + codes[i as int]));
            assert(out0 + (";"@ + codes[i as int]) + join_tail(codes, i + 1) =~= out0 + join_tail(
                codes,
                i as int,
            ));
        }
    }
    proof {
        assert(join_tail(codes, codes.len() as int) =~= Seq::<char>::empty());
        assert(out@ + join_tail(codes, codes.len() as int) =~= out@);
    }
    out.push('m');
    proof {
        reveal_strlit("m");
        assert("m"@ =~= seq!['m']);
        assert(out@ =~= "\u{1b}["@ + join_codes(codes) + "m"@);
    }
    out
}

/// Stylize a string with ANSI colors and attributes; an instruction that
/// does not parse leaves the text unchanged.
pub fn stylize(s: &str, instructions: &str) -> (r: String)
    ensures
        r@ == stylized(s@, instructions@),
{
    let styled = parse(instructions);
    let ss = match styled {
        Ok(ss) => ss,
        Err(_) => {
            return s.to_owned();
        },
    };
    let mut out: Vec<char> = Vec::new();
    if let Some(fg) = ss.fg {
        let code_string = fg.to_fg_str();
        let part = escape_wrap(&code_string);
        push_chars(&mut out, &part);
    }
    proof {
        assert(out@ =~= fg_part_of(ss));
    }
    let ghost done_fg = out@;
    if let Some(bg) = ss.bg {
        let code_string = bg.to_bg_str();
        let part = escape_wrap(&code_string);
        push_chars(&mut out, &part);
        proof {
            assert(out@ =~= done_fg + bg_part_of(ss));
        }
    }
    proof {
        assert(out@ =~= fg_part_of(ss) + bg_part_of(ss));
    }
    let attrs = attrs_chars(&ss.attrs);
    push_chars(&mut out, &attrs);
    let body = chars_of(s);
    push_chars(&mut out, &body);
    let reset = chars_of("\u{1b}[0m");
    push_chars(&mut out, &reset);
    proof {
        assert(out@ =~= styled_text(s@, ss));
    }
    chars_to_string(&out)
}

/// Stylize a string with ANSI colors and attributes; an alias for
/// `stylize`.
pub fn stl(s: &str, instructions: &str) -> (r: String)
    ensures
        r@ == stylized(s@, instructions@),
{
    stylize(s, instructions)
}

} // verus!

verus! {

/// Extends `String` and `str` with methods that return a new string styled
/// with ANSI colors and attributes.
pub trait Stylize {
    /// Basic styling method: applies a styling instruction, as the
    /// `stylize` function does.
    fn stl(&self, instruction: &str) -> String;

    /// makes the text black
    fn black(&self) -> String {
        self.stl("black")
    }

    /// makes the text red
    fn red(&self) -> String {
        self.stl("red")
    }

    /// makes the text green
    fn green(&self) -> String {
        self.stl("green")
    }

    /// makes the text yellow
    fn yellow(&self) -> String {
        self.stl("yellow")
    }

    /// makes the text blue
    fn blue(&self) -> String {
        self.stl("blue")
    }

    /// makes the text magenta
    fn magenta(&self) -> String {
        self.stl("magenta")
    }

    /// makes the text cyan
    fn cyan(&self) -> String {
        self.stl("cyan")
    }

    /// makes the text white
    fn white(&self) -> String {
        self.stl("white")
    }

    /// makes the text bright black
    fn bright_black(&self) -> String {
        self.stl("bright-black")
    }

    /// makes the text bright red
    fn bright_red(&self) -> String {
        self.stl("bright-red")
    }

    /// makes the text bright green
    fn bright_green(&self) -> String {
        self.stl("bright-green")
    }

    /// makes the text bright yellow
    fn bright_yellow(&self) -> String {
        self.stl("bright-yellow")
    }

    /// makes the text bright blue
    fn bright_blue(&self) -> String {
        self.stl("bright-blue")
    }

    /// makes the text bright magenta
    fn bright_magenta(&self) -> String {
        self.stl("bright-magenta")
    }

    /// makes the text bright cyan
    fn bright_cyan(&self) -> String {
        self.stl("bright-cyan")
    }

    /// makes the text bright white
    fn bright_white(&self) -> String {
        self.stl("bright-white")
    }

    /// colors the text after the `rgb` parameter (`#RRGGBB` form)
    fn rgb(&self, rgb: &str) -> String {
        self.stl(rgb)
    }

    /// makes the background black
    fn on_black(&self) -> String {
        self.stl("on black")
    }

    /// makes the background red
    fn on_red(&self) -> String {
        self.stl("on red")
    }

    /// makes the background green
    fn on_green(&self) -> String {
        self.stl("on green")
    }

    /// makes the background yellow
    fn on_yellow(&self) -> String {
        self.stl("on yellow")
    }

    /// makes the background blue
    fn on_blue(&self) -> String {
        self.stl("on blue")
    }

    /// makes the background magenta
    fn on_magenta(&self) -> String {
        self.stl("on magenta")
    }

    /// makes the background cyan
    fn on_cyan(&self) -> String {
        self.stl("on cyan")
    }

    /// makes the background white
    fn on_white(&self) -> String {
        self.stl("on white")
    }

    /// makes the background bright black
    fn on_bright_black(&self) -> String {
        self.stl("on bright-black")
    }

    /// makes the background bright red
    fn on_bright_red(&self) -> String {
        self.stl("on bright-red")
    }

    /// makes the background bright green
    fn on_bright_green(&self) -> String {
        self.stl("on bright-green")
    }

    /// makes the background bright yellow
    fn on_bright_yellow(&self) -> String {
        self.stl("on bright-yellow")
    }

    /// makes the background bright blue
    fn on_bright_blue(&self) -> String {
        self.stl("on bright-blue")
    }

    /// makes the background bright magenta
    fn on_bright_magenta(&self) -> String {
        self.stl("on bright-magenta")
    }

    /// makes the background bright cyan
    fn on_bright_cyan(&self) -> String {
        self.stl("on bright-cyan")
    }

    /// makes the background bright white
    fn on_bright_white(&self) -> String {
        self.stl("on bright-white")
    }

    /// sets the background to the `rgb` parameter (`#RRGGBB` form)
    fn on_rgb(&self, rgb: &str) -> String {
        let mut v = chars_of("on ");
        let tail = chars_of(rgb);
        push_chars(&mut v, &tail);
        let instruction = chars_to_string(&v);
        self.stl(instruction.as_str())
    }

    /// makes the text bold
    fn bold(&self) -> String {
        self.stl("+bold")
    }

    /// makes the text dim
    fn dim(&self) -> String {
        self.stl("+dim")
    }

    /// makes the text italic
    fn italic(&self) -> String {
        self.stl("+italic")
    }

    /// makes the text underlined
    fn underline(&self) -> String {
        self.stl("+underline")
    }

    /// makes the text blink
    fn blink(&self) -> String {
        self.stl("+blink")
    }

    /// reverses foreground and background
    fn reverse(&self) -> String {
        self.stl("+reverse")
    }

    /// hides the text
    fn hidden(&self) -> String {
        self.stl("+hidden")
    }

    /// strikes the text through
    fn strikethrough(&self) -> String {
        self.stl("+strikethrough")
    }
}

impl Stylize for str {
    fn stl(&self, instruction: &str) -> String {
        stylize(self, instruction)
    }
}

impl Stylize for String {
    fn stl(&self, instruction: &str) -> String {
        stylize(self.as_str(), instruction)
    }
}

} // verus!
