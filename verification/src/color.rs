//! Color values and their rendering to ANSI SGR escape strings.
//!
//! A `Color` is one of: a named 8-color palette entry with a brightness flag,
//! a 256-color palette index, a 24-bit RGB triple, or `Unset`. `Foreground`
//! and `Background` each wrap one `Color` and differ only in the SGR numeric
//! sub-range they render into.

use vstd::prelude::*;
use vstd::string::StringExecFns;

verus! {

/// The eight named colors of the base palette, in standard SGR order.
#[derive(Debug, Copy, Clone, Hash, PartialEq, Eq, PartialOrd, Ord, Structural)]
pub enum Iso {
    Black,
    Red,
    Green,
    Yellow,
    Blue,
    Magenta,
    Cyan,
    White,
}

/// A color in one of three models, or `Unset` (renders to nothing).
#[derive(Debug, Copy, Clone, Hash, PartialEq, Eq, PartialOrd, Ord, Structural)]
pub enum Color {
    Iso { color: Iso, bright: bool },
    Extended(u8),
    Rgb { r: u8, g: u8, b: u8 },
    Unset,
}

/// The SGR digit of a named color: black=0, red=1, green=2, yellow=3,
/// blue=4, magenta=5, cyan=6, white=7.
pub open spec fn iso_digit(c: Iso) -> char {
    match c {
        Iso::Black => '0',
        Iso::Red => '1',
        Iso::Green => '2',
        Iso::Yellow => '3',
        Iso::Blue => '4',
        Iso::Magenta => '5',
        Iso::Cyan => '6',
        Iso::White => '7',
    }
}

/// The character for one decimal digit.
pub open spec fn dec_digit(d: int) -> char {
    if d == 0 {
        '0'
    } else if d == 1 {
        '1'
    } else if d == 2 {
        '2'
    } else if d == 3 {
        '3'
    } else if d == 4 {
        '4'
    } else if d == 5 {
        '5'
    } else if d == 6 {
        '6'
    } else if d == 7 {
        '7'
    } else if d == 8 {
        '8'
    } else {
        '9'
    }
}

/// The decimal representation of a byte value, without leading zeros.
pub open spec fn dec_rep(n: int) -> Seq<char> {
    if n < 10 {
        seq![dec_digit(n)]
    } else if n < 100 {
        seq![dec_digit(n / 10), dec_digit(n % 10)]
    } else {
        seq![dec_digit(n / 100), dec_digit((n / 10) % 10), dec_digit(n % 10)]
    }
}

/// The exact escape string a color renders to in the foreground role.
pub open spec fn fg_ansi(c: Color) -> Seq<char> {
    match c {
        Color::Iso { color, bright } => seq!['\x1b', '[']
            + (if bright { seq!['9'] } else { seq!['3'] })
            + seq![iso_digit(color), 'm'],
        Color::Extended(v) => seq!['\x1b', '[', '3', '8', ';', '5', ';']
            + dec_rep(v as int) + seq!['m'],
        Color::Rgb { r, g, b } => seq!['\x1b', '[', '3', '8', ';', '2', ';']
            + dec_rep(r as int) + seq![';'] + dec_rep(g as int) + seq![';']
            + dec_rep(b as int) + seq!['m'],
        Color::Unset => Seq::empty(),
    }
}

/// The exact escape string a color renders to in the background role.
pub open spec fn bg_ansi(c: Color) -> Seq<char> {
    match c {
        Color::Iso { color, bright } => seq!['\x1b', '[']
            + (if bright { seq!['1', '0'] } else { seq!['4'] })
            + seq![iso_digit(color), 'm'],
        Color::Extended(v) => seq!['\x1b', '[', '4', '8', ';', '5', ';']
            + dec_rep(v as int) + seq!['m'],
        Color::Rgb { r, g, b } => seq!['\x1b', '[', '4', '8', ';', '2', ';']
            + dec_rep(r as int) + seq![';'] + dec_rep(g as int) + seq![';']
            + dec_rep(b as int) + seq!['m'],
        Color::Unset => Seq::empty(),
    }
}

/// The one-character string for a decimal digit value.
fn digit_str(d: u8) -> (r: &'static str)
    requires
        d < 10,
    ensures
        r@ == seq![dec_digit(d as int)],
{
    proof {
        reveal_strlit("0");
        reveal_strlit("1");
        reveal_strlit("2");
        reveal_strlit("3");
        reveal_strlit("4");
        reveal_strlit("5");
        reveal_strlit("6");
        reveal_strlit("7");
        reveal_strlit("8");
        reveal_strlit("9");
    }
    if d == 0 {
        "0"
    } else if d == 1 {
        "1"
    } else if d == 2 {
        "2"
    } else if d == 3 {
        "3"
    } else if d == 4 {
        "4"
    } else if d == 5 {
        "5"
    } else if d == 6 {
        "6"
    } else if d == 7 {
        "7"
    } else if d == 8 {
        "8"
    } else {
        "9"
    }
}

/// Appends the decimal representation of `n` to `s`.
fn push_dec(s: &mut String, n: u8)
    ensures
        final(s)@ == old(s)@ + dec_rep(n as int),
{
    if n >= 100 {
        s.append(digit_str(n / 100));
        s.append(digit_str((n / 10) % 10));
        s.append(digit_str(n % 10));
    } else if n >= 10 {
        s.append(digit_str(n / 10));
        s.append(digit_str(n % 10));
    } else {
        s.append(digit_str(n));
    }
}

/// The one-character string holding a named color's SGR digit.
fn iso_digit_str(c: &Iso) -> (r: &'static str)
    ensures
        r@ == seq![iso_digit(*c)],
{
    proof {
        reveal_strlit("0");
        reveal_strlit("1");
        reveal_strlit("2");
        reveal_strlit("3");
        reveal_strlit("4");
        reveal_strlit("5");
        reveal_strlit("6");
        reveal_strlit("7");
    }
    match c {
        Iso::Black => "0",
        Iso::Red => "1",
        Iso::Green => "2",
        Iso::Yellow => "3",
        Iso::Blue => "4",
        Iso::Magenta => "5",
        Iso::Cyan => "6",
        Iso::White => "7",
    }
}

impl Iso {
    /// The SGR digit of this named color, as a character.
    pub fn to_char(&self) -> (r: char)
        ensures
            r == iso_digit(*self),
    {
        match self {
            Iso::Black => '0',
            Iso::Red => '1',
            Iso::Green => '2',
            Iso::Yellow => '3',
            Iso::Blue => '4',
            Iso::Magenta => '5',
            Iso::Cyan => '6',
            Iso::White => '7',
        }
    }
}

/// A color in the foreground role.
#[derive(Debug, Copy, Clone, Hash, PartialEq, Eq, PartialOrd, Ord, Structural)]
pub struct Foreground(pub Color);

impl Foreground {
    pub fn new(value: Color) -> (r: Self)
        ensures
            r.0 == value,
    {
        Self(value)
    }

    pub fn black(b: bool) -> (r: Self)
        ensures
            r.0 == (Color::Iso { color: Iso::Black, bright: b }),
    {
        Self(Color::Iso { color: Iso::Black, bright: b })
    }

    pub fn red(b: bool) -> (r: Self)
        ensures
            r.0 == (Color::Iso { color: Iso::Red, bright: b }),
    {
        Self(Color::Iso { color: Iso::Red, bright: b })
    }

    pub fn green(b: bool) -> (r: Self)
        ensures
            r.0 == (Color::Iso { color: Iso::Green, bright: b }),
    {
        Self(Color::Iso { color: Iso::Green, bright: b })
    }

    pub fn yellow(b: bool) -> (r: Self)
        ensures
            r.0 == (Color::Iso { color: Iso::Yellow, bright: b }),
    {
        Self(Color::Iso { color: Iso::Yellow, bright: b })
    }

    pub fn blue(b: bool) -> (r: Self)
        ensures
            r.0 == (Color::Iso { color: Iso::Blue, bright: b }),
    {
        Self(Color::Iso { color: Iso::Blue, bright: b })
    }

    pub fn magenta(b: bool) -> (r: Self)
        ensures
            r.0 == (Color::Iso { color: Iso::Magenta, bright: b }),
    {
        Self(Color::Iso { color: Iso::Magenta, bright: b })
    }

    pub fn cyan(b: bool) -> (r: Self)
        ensures
            r.0 == (Color::Iso { color: Iso::Cyan, bright: b }),
    {
        Self(Color::Iso { color: Iso::Cyan, bright: b })
    }

    pub fn white(b: bool) -> (r: Self)
        ensures
            r.0 == (Color::Iso { color: Iso::White, bright: b }),
    {
        Self(Color::Iso { color: Iso::White, bright: b })
    }

    pub fn iso(iso: Iso, bright: bool) -> (r: Self)
        ensures
            r.0 == (Color::Iso { color: iso, bright: bright }),
    {
        Self(Color::Iso { color: iso, bright: bright })
    }

    pub fn extended(ext: u8) -> (r: Self)
        ensures
            r.0 == Color::Extended(ext),
    {
        Self(Color::Extended(ext))
    }

    pub fn rgb(r: u8, g: u8, b: u8) -> (c: Self)
        ensures
            c.0 == (Color::Rgb { r: r, g: g, b: b }),
    {
        Self(Color::Rgb { r: r, g: g, b: b })
    }

    /// Renders this color as a foreground SGR escape string.
    pub fn to_ansi(&self) -> (r: String)
        ensures
            r@ == fg_ansi(self.0),
    {
        proof {
            reveal_strlit("\x1b[");
            reveal_strlit("9");
            reveal_strlit("3");
            reveal_strlit("m");
            reveal_strlit("\x1b[38;5;");
            reveal_strlit("\x1b[38;2;");
            reveal_strlit(";");
            reveal_strlit("");
        }
        match self.0 {
            Color::Iso { color, bright } => {
                let mut s = String::from_str("\x1b[");
                if bright {
                    s.append("9");
                } else {
                    s.append("3");
                }
                s.append(iso_digit_str(&color));
                s.append("m");
                s
            },
            Color::Extended(val) => {
                let mut s = String::from_str("\x1b[38;5;");
                push_dec(&mut s, val);
                s.append("m");
                s
            },
            Color::Rgb { r, g, b } => {
                let mut s = String::from_str("\x1b[38;2;");
                push_dec(&mut s, r);
                s.append(";");
                push_dec(&mut s, g);
                s.append(";");
                push_dec(&mut s, b);
                s.append("m");
                s
            },
            Color::Unset => {
                let s = String::new();
                s
            },
        }
    }
}

/// A color in the background role.
#[derive(Debug, Copy, Clone, Hash, PartialEq, Eq, PartialOrd, Ord, Structural)]
pub struct Background(pub Color);

impl Background {
    pub fn new(value: Color) -> (r: Self)
        ensures
            r.0 == value,
    {
        Self(value)
    }

    pub fn black(b: bool) -> (r: Self)
        ensures
            r.0 == (Color::Iso { color: Iso::Black, bright: b }),
    {
        Self(Color::Iso { color: Iso::Black, bright: b })
    }

    pub fn red(b: bool) -> (r: Self)
        ensures
            r.0 == (Color::Iso { color: Iso::Red, bright: b }),
    {
        Self(Color::Iso { color: Iso::Red, bright: b })
    }

    pub fn green(b: bool) -> (r: Self)
        ensures
            r.0 == (Color::Iso { color: Iso::Green, bright: b }),
    {
        Self(Color::Iso { color: Iso::Green, bright: b })
    }

    pub fn yellow(b: bool) -> (r: Self)
        ensures
            r.0 == (Color::Iso { color: Iso::Yellow, bright: b }),
    {
        Self(Color::Iso { color: Iso::Yellow, bright: b })
    }

    pub fn blue(b: bool) -> (r: Self)
        ensures
            r.0 == (Color::Iso { color: Iso::Blue, bright: b }),
    {
        Self(Color::Iso { color: Iso::Blue, bright: b })
    }

    pub fn magenta(b: bool) -> (r: Self)
        ensures
            r.0 == (Color::Iso { color: Iso::Magenta, bright: b }),
    {
        Self(Color::Iso { color: Iso::Magenta, bright: b })
    }

    pub fn cyan(b: bool) -> (r: Self)
        ensures
            r.0 == (Color::Iso { color: Iso::Cyan, bright: b }),
    {
        Self(Color::Iso { color: Iso::Cyan, bright: b })
    }

    pub fn white(b: bool) -> (r: Self)
        ensures
            r.0 == (Color::Iso { color: Iso::White, bright: b }),
    {
        Self(Color::Iso { color: Iso::White, bright: b })
    }

    pub fn iso(iso: Iso, bright: bool) -> (r: Self)
        ensures
            r.0 == (Color::Iso { color: iso, bright: bright }),
    {
        Self(Color::Iso { color: iso, bright: bright })
    }

    pub fn extended(ext: u8) -> (r: Self)
        ensures
            r.0 == Color::Extended(ext),
    {
        Self(Color::Extended(ext))
    }

    pub fn rgb(r: u8, g: u8, b: u8) -> (c: Self)
        ensures
            c.0 == (Color::Rgb { r: r, g: g, b: b }),
    {
        Self(Color::Rgb { r: r, g: g, b: b })
    }

    /// Renders this color as a background SGR escape string.
    pub fn to_ansi(&self) -> (r: String)
        ensures
            r@ == bg_ansi(self.0),
    {
        proof {
            reveal_strlit("\x1b[");
            reveal_strlit("10");
            reveal_strlit("4");
            reveal_strlit("m");
            reveal_strlit("\x1b[48;5;");
            reveal_strlit("\x1b[48;2;");
            reveal_strlit(";");
            reveal_strlit("");
        }
        match self.0 {
            Color::Iso { color, bright } => {
                let mut s = String::from_str("\x1b[");
                if bright {
                    s.append("10");
                } else {
                    s.append("4");
                }
                s.append(iso_digit_str(&color));
                s.append("m");
                s
            },
            Color::Extended(val) => {
                let mut s = String::from_str("\x1b[48;5;");
                push_dec(&mut s, val);
                s.append("m");
                s
            },
            Color::Rgb { r, g, b } => {
                let mut s = String::from_str("\x1b[48;2;");
                push_dec(&mut s, r);
                s.append(";");
                push_dec(&mut s, g);
                s.append(";");
                push_dec(&mut s, b);
                s.append("m");
                s
            },
            Color::Unset => {
                let s = String::new();
                s
            },
        }
    }
}

} // verus!
