//! Terminal text styling via ANSI Select Graphic Rendition (SGR) escape
//! sequences: a closed set of named colors, each with a foreground and a
//! background SGR code, and a `Draw` directive that renders to the literal
//! escape string.

use vstd::prelude::*;

verus! {

/// A named terminal color: the eight standard colors, their eight bright
/// variants, and `Reset`, which restores the terminal's default color.
#[derive(Copy, Clone)]
pub enum Color {
    Black,
    Red,
    Green,
    Yellow,
    Blue,
    Magenta,
    Cyan,
    White,
    BrightBlack,
    BrightRed,
    BrightGreen,
    BrightYellow,
    BrightBlue,
    BrightMagenta,
    BrightCyan,
    BrightWhite,
    Reset,
}

/// The SGR parameter that selects `c` as the text (foreground) color:
/// 30-37 for the standard colors, 90-97 for the bright ones, 39 for reset.
pub open spec fn spec_fgcode(c: Color) -> u8 {
    match c {
        Color::Black => 30,
        Color::Red => 31,
        Color::Green => 32,
        Color::Yellow => 33,
        Color::Blue => 34,
        Color::Magenta => 35,
        Color::Cyan => 36,
        Color::White => 37,
        Color::BrightBlack => 90,
        Color::BrightRed => 91,
        Color::BrightGreen => 92,
        Color::BrightYellow => 93,
        Color::BrightBlue => 94,
        Color::BrightMagenta => 95,
        Color::BrightCyan => 96,
        Color::BrightWhite => 97,
        Color::Reset => 39,
    }
}

/// The SGR parameter that selects `c` as the cell fill (background) color:
/// 40-47 for the standard colors, 100-107 for the bright ones, 49 for reset.
pub open spec fn spec_bgcode(c: Color) -> u8 {
    match c {
        Color::Black => 40,
        Color::Red => 41,
        Color::Green => 42,
        Color::Yellow => 43,
        Color::Blue => 44,
        Color::Magenta => 45,
        Color::Cyan => 46,
        Color::White => 47,
        Color::BrightBlack => 100,
        Color::BrightRed => 101,
        Color::BrightGreen => 102,
        Color::BrightYellow => 103,
        Color::BrightBlue => 104,
        Color::BrightMagenta => 105,
        Color::BrightCyan => 106,
        Color::BrightWhite => 107,
        Color::Reset => 49,
    }
}

impl Color {
    /// The foreground SGR code of this color. Total: every variant is mapped.
    pub fn fgcode(self) -> (code: u8)
        ensures
            code == spec_fgcode(self),
    {
        match self {
            Color::Black => 30,
            Color::Red => 31,
            Color::Green => 32,
            Color::Yellow => 33,
            Color::Blue => 34,
            Color::Magenta => 35,
            Color::Cyan => 36,
            Color::White => 37,
            Color::BrightBlack => 90,
            Color::BrightRed => 91,
            Color::BrightGreen => 92,
            Color::BrightYellow => 93,
            Color::BrightBlue => 94,
            Color::BrightMagenta => 95,
            Color::BrightCyan => 96,
            Color::BrightWhite => 97,
            Color::Reset => 39,
        }
    }

    /// The background SGR code of this color. Total: every variant is mapped.
    pub fn bgcode(self) -> (code: u8)
        ensures
            code == spec_bgcode(self),
    {
        match self {
            Color::Black => 40,
            Color::Red => 41,
            Color::Green => 42,
            Color::Yellow => 43,
            Color::Blue => 44,
            Color::Magenta => 45,
            Color::Cyan => 46,
            Color::White => 47,
            Color::BrightBlack => 100,
            Color::BrightRed => 101,
            Color::BrightGreen => 102,
            Color::BrightYellow => 103,
            Color::BrightBlue => 104,
            Color::BrightMagenta => 105,
            Color::BrightCyan => 106,
            Color::BrightWhite => 107,
            Color::Reset => 49,
        }
    }
}

/// The character for the single decimal digit `d`.
pub open spec fn digit_char(d: int) -> char {
    if d == 0 {
        '0'
    } else if d == 1 {
        '1'
    } else if d == 2 {
        '2'
    } else if d == 3 {
        '3'
    } else if d == 4 {
        '4'
    } else if d == 5 {
        '5'
    } else if d == 6 {
        '6'
    } else if d == 7 {
        '7'
    } else if d == 8 {
        '8'
    } else {
        '9'
    }
}

/// The decimal numeral of `n`, without leading zeros, for `0 <= n < 1000`
/// (every SGR code this library emits is below that).
pub open spec fn decimal(n: int) -> Seq<char> {
    if n < 10 {
        seq![digit_char(n)]
    } else if n < 100 {
        seq![digit_char(n / 10), digit_char(n % 10)]
    } else {
        seq![digit_char(n / 100), digit_char((n / 10) % 10), digit_char(n % 10)]
    }
}

/// The one-character string for the single decimal digit `d`.
fn digit_str(d: u8) -> (s: &'static str)
    requires
        d < 10,
    ensures
        s@ == seq![digit_char(d as int)],
{
    proof {
        reveal_strlit("0");
        reveal_strlit("1");
        reveal_strlit("2");
        reveal_strlit("3");
        reveal_strlit("4");
        reveal_strlit("5");
        reveal_strlit("6");
        reveal_strlit("7");
        reveal_strlit("8");
        reveal_strlit("9");
    }
    let s: &'static str = match d {
        0 => "0",
        1 => "1",
        2 => "2",
        3 => "3",
        4 => "4",
        5 => "5",
        6 => "6",
        7 => "7",
        8 => "8",
        _ => "9",
    };
    proof {
        assert(s@ =~= seq![digit_char(d as int)]);
    }
    s
}

/// Appends the decimal numeral of `n` to `out`.
fn push_decimal(out: &mut String, n: u8)
    ensures
        final(out)@ == old(out)@ + decimal(n as int),
{
    if n >= 100 {
        out.append(digit_str(n / 100));
    }
    if n >= 10 {
        out.append(digit_str((n / 10) % 10));
    }
    out.append(digit_str(n % 10));
    proof {
        assert(out@ =~= old(out)@ + decimal(n as int));
    }
}

/// A drawing directive: set the background color, the foreground color, or
/// both at once. For `Both`, the first color is the background and the
/// second is the foreground.
pub enum Draw {
    Background(Color),
    Foreground(Color),
    Both(Color, Color),
}

/// The escape sequence a `Draw` value renders to: `ESC [` followed by the
/// relevant SGR code(s) in decimal — background first and a single `;`
/// between the two for `Both` — and a terminating `m`.
pub open spec fn spec_render(d: Draw) -> Seq<char> {
    match d {
        Draw::Background(c) => seq!['\x1b', '['] + decimal(spec_bgcode(c) as int) + seq!['m'],
        Draw::Foreground(c) => seq!['\x1b', '['] + decimal(spec_fgcode(c) as int) + seq!['m'],
        Draw::Both(bg, fg) => seq!['\x1b', '['] + decimal(spec_bgcode(bg) as int) + seq![';']
            + decimal(spec_fgcode(fg) as int) + seq!['m'],
    }
}

impl Draw {
    /// Renders this directive as the literal ANSI escape string.
    pub fn render(&self) -> (out: String)
        ensures
            out@ == spec_render(*self),
    {
        proof {
            reveal_strlit("\x1b[");
            reveal_strlit(";");
            reveal_strlit("m");
        }
        let mut out = String::from_str("\x1b[");
        proof {
            assert(out@ =~= seq!['\x1b', '[']);
        }
        match *self {
            Draw::Background(color) => {
                push_decimal(&mut out, color.bgcode());
                out.append("m");
                proof {
                    assert(out@ =~= spec_render(*self));
                }
            },
            Draw::Foreground(color) => {
                push_decimal(&mut out, color.fgcode());
                out.append("m");
                proof {
                    assert(out@ =~= spec_render(*self));
                }
            },
            Draw::Both(bg, fg) => {
                push_decimal(&mut out, bg.bgcode());
                out.append(";");
                push_decimal(&mut out, fg.fgcode());
                out.append("m");
                proof {
                    assert(";"@ =~= seq![';']);
                    assert(out@ =~= spec_render(*self));
                }
            },
        }
        out
    }
}

/// Law: rendering is deterministic. Any two renderings of equal `Draw`
/// values are character-for-character identical, since `render` pins its
/// result to `spec_render`, a pure function of the directive alone.
pub proof fn lemma_render_deterministic(d1: Draw, d2: Draw, s1: Seq<char>, s2: Seq<char>)
    requires
        d1 == d2,
        s1 == spec_render(d1),
        s2 == spec_render(d2),
    ensures
        s1 == s2,
{
}

/// No decimal numeral below 1000 contains a semicolon: its characters are
/// digits only.
proof fn lemma_decimal_no_semicolon(n: int)
    requires
        0 <= n < 1000,
    ensures
        !decimal(n).contains(';'),
{
    let s = decimal(n);
    assert forall|i: int| 0 <= i < s.len() implies s[i] != ';' by {
        if n < 10 {
            assert(s[i] == digit_char(n));
        } else if n < 100 {
            assert(i == 0 || i == 1);
        } else {
            assert(i == 0 || i == 1 || i == 2);
        }
    }
}

/// Law: in the rendering of `Both(bg, fg)` the background parameter always
/// precedes the foreground parameter, whatever the two colors are, and
/// exactly one semicolon separates them: neither numeral contains one.
pub proof fn lemma_both_ordering(bg: Color, fg: Color)
    ensures
        spec_render(Draw::Both(bg, fg)) == seq!['\x1b', '[']
            + decimal(spec_bgcode(bg) as int) + seq![';'] + decimal(spec_fgcode(fg) as int)
            + seq!['m'],
        !decimal(spec_bgcode(bg) as int).contains(';'),
        !decimal(spec_fgcode(fg) as int).contains(';'),
{
    lemma_decimal_no_semicolon(spec_bgcode(bg) as int);
    lemma_decimal_no_semicolon(spec_fgcode(fg) as int);
}

} // verus!
