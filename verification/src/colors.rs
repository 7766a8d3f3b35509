//! The pure mapping from a stored `Colorname` to a render-ready
//! terminal color: first to the select-graphic-rendition shape the
//! terminal understands, then to the escape sequence itself.

use vstd::prelude::*;
use vstd::string::*;
use crate::config::Colorname;

verus! {

/// A render-ready foreground color: a base select-graphic-rendition
/// code (30-37 for the dark names, 90-97 for the light ones), an 8-bit
/// palette index, or a direct RGB triple.
#[derive(Debug, Clone, Copy, PartialEq, Eq, Structural)]
pub enum TermColor {
    Base(u8),
    Palette(u8),
    Rgb(u8, u8, u8),
}

/// The terminal color each `Colorname` denotes. Total: every value of
/// the sum type is already valid, so no error path exists.
pub open spec fn spec_resolve(c: Colorname) -> TermColor {
    match c {
        Colorname::AnsiValue(n) => TermColor::Palette(n),
        Colorname::Rgb(r, g, b) => TermColor::Rgb(r, g, b),
        Colorname::Black => TermColor::Base(30),
        Colorname::Red => TermColor::Base(31),
        Colorname::Green => TermColor::Base(32),
        Colorname::Yellow => TermColor::Base(33),
        Colorname::Blue => TermColor::Base(34),
        Colorname::Magenta => TermColor::Base(35),
        Colorname::Cyan => TermColor::Base(36),
        Colorname::White => TermColor::Base(37),
        Colorname::LightBlack => TermColor::Base(90),
        Colorname::LightRed => TermColor::Base(91),
        Colorname::LightGreen => TermColor::Base(92),
        Colorname::LightYellow => TermColor::Base(93),
        Colorname::LightBlue => TermColor::Base(94),
        Colorname::LightMagenta => TermColor::Base(95),
        Colorname::LightCyan => TermColor::Base(96),
        Colorname::LightWhite => TermColor::Base(97),
    }
}

/// Resolves a stored color to its terminal color, as `spec_resolve`
/// maps it.
pub fn resolve_color(c: &Colorname) -> (r: TermColor)
    ensures
        r == spec_resolve(*c),
{
    match c {
        Colorname::AnsiValue(n) => TermColor::Palette(*n),
        Colorname::Rgb(r, g, b) => TermColor::Rgb(*r, *g, *b),
        Colorname::Black => TermColor::Base(30),
        Colorname::Red => TermColor::Base(31),
        Colorname::Green => TermColor::Base(32),
        Colorname::Yellow => TermColor::Base(33),
        Colorname::Blue => TermColor::Base(34),
        Colorname::Magenta => TermColor::Base(35),
        Colorname::Cyan => TermColor::Base(36),
        Colorname::White => TermColor::Base(37),
        Colorname::LightBlack => TermColor::Base(90),
        Colorname::LightRed => TermColor::Base(91),
        Colorname::LightGreen => TermColor::Base(92),
        Colorname::LightYellow => TermColor::Base(93),
        Colorname::LightBlue => TermColor::Base(94),
        Colorname::LightMagenta => TermColor::Base(95),
        Colorname::LightCyan => TermColor::Base(96),
        Colorname::LightWhite => TermColor::Base(97),
    }
}

/// The decimal digit character for `d` in 0-9.
pub open spec fn spec_digit(d: int) -> char {
    ((48 + d) as u8) as char
}

/// The decimal rendering of a byte, without leading zeroes.
pub open spec fn spec_dec(n: u8) -> Seq<char> {
    if n < 10 {
        seq![spec_digit(n as int)]
    } else if n < 100 {
        seq![spec_digit(n as int / 10), spec_digit(n as int % 10)]
    } else {
        seq![spec_digit(n as int / 100), spec_digit((n as int / 10) % 10), spec_digit(n as int % 10)]
    }
}

/// The digit `d` as text.
fn digit_str(d: u8) -> (r: &'static str)
    requires
        d < 10,
    ensures
        r@ == seq![spec_digit(d as int)],
{
    proof {
        reveal_strlit("0");
        reveal_strlit("1");
        reveal_strlit("2");
        reveal_strlit("3");
        reveal_strlit("4");
        reveal_strlit("5");
        reveal_strlit("6");
        reveal_strlit("7");
        reveal_strlit("8");
        reveal_strlit("9");
    }
    match d {
        0 => "0",
        1 => "1",
        2 => "2",
        3 => "3",
        4 => "4",
        5 => "5",
        6 => "6",
        7 => "7",
        8 => "8",
        _ => "9",
    }
}

/// Appends the decimal rendering of `n` to `s`.
fn push_dec(s: &mut String, n: u8)
    ensures
        final (s)@ == old(s)@ + spec_dec(n),
{
    let ghost s0 = s@;
    if n < 10 {
        s.append(digit_str(n));
        proof {
            assert(s@ =~= s0 + spec_dec(n));
        }
    } else if n < 100 {
        s.append(digit_str(n / 10));
        s.append(digit_str(n % 10));
        proof {
            assert(s@ =~= s0 + spec_dec(n));
        }
    } else {
        s.append(digit_str(n / 100));
        s.append(digit_str((n / 10) % 10));
        s.append(digit_str(n % 10));
        proof {
            assert(n as int / 10 / 10 == n as int / 100) by (nonlinear_arith);
            assert(s@ =~= s0 + spec_dec(n));
        }
    }
}

/// The escape sequence that paints the foreground in `t`.
pub open spec fn spec_fg_code(t: TermColor) -> Seq<char> {
    match t {
        TermColor::Base(code) => "\u{1b}["@ + spec_dec(code) + "m"@,
        TermColor::Palette(n) => "\u{1b}[38;5;"@ + spec_dec(n) + "m"@,
        TermColor::Rgb(r, g, b) => "\u{1b}[38;2;"@ + spec_dec(r) + ";"@ + spec_dec(g) + ";"@
            + spec_dec(b) + "m"@,
    }
}

/// Renders the foreground escape sequence for `t`, as `spec_fg_code`
/// spells it.
pub fn fg_code(t: &TermColor) -> (r: String)
    ensures
        r@ == spec_fg_code(*t),
{
    match t {
        TermColor::Base(code) => {
            let mut s = String::new();
            s.append("\u{1b}[");
            push_dec(&mut s, *code);
            s.append("m");
            proof {
                assert(s@ =~= spec_fg_code(*t));
            }
            s
        },
        TermColor::Palette(n) => {
            let mut s = String::new();
            s.append("\u{1b}[38;5;");
            push_dec(&mut s, *n);
            s.append("m");
            proof {
                assert(s@ =~= spec_fg_code(*t));
            }
            s
        },
        TermColor::Rgb(r, g, b) => {
            let mut s = String::new();
            s.append("\u{1b}[38;2;");
            push_dec(&mut s, *r);
            s.append(";");
            push_dec(&mut s, *g);
            s.append(";");
            push_dec(&mut s, *b);
            s.append("m");
            proof {
                assert(s@ =~= spec_fg_code(*t));
            }
            s
        },
    }
}

} // verus!
