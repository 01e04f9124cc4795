//! Bytes as text, and the escape sequences that colour text on a
//! terminal.

use vstd::prelude::*;

verus! {

/// A colour of the terminal.
#[derive(Clone, Copy, Debug, PartialEq, Eq, Structural)]
pub enum Color {
    Black,
    Red,
    Green,
    Yellow,
    Blue,
    Magenta,
    Cyan,
    White,
    BrightBlack,
    BrightRed,
    BrightGreen,
    BrightYellow,
    BrightBlue,
    BrightMagenta,
    BrightCyan,
    BrightWhite,
}

impl Color {
    /// The number that selects the colour for the text: 30 to 37, and 90
    /// to 97 for the bright colours.
    pub open spec fn spec_fg_code(self) -> nat {
        match self {
            Color::Black => 30,
            Color::Red => 31,
            Color::Green => 32,
            Color::Yellow => 33,
            Color::Blue => 34,
            Color::Magenta => 35,
            Color::Cyan => 36,
            Color::White => 37,
            Color::BrightBlack => 90,
            Color::BrightRed => 91,
            Color::BrightGreen => 92,
            Color::BrightYellow => 93,
            Color::BrightBlue => 94,
            Color::BrightMagenta => 95,
            Color::BrightCyan => 96,
            Color::BrightWhite => 97,
        }
    }

    /// The number that selects the colour for the background: ten more
    /// than for the text.
    pub open spec fn spec_bg_code(self) -> nat {
        self.spec_fg_code() + 10
    }

    /// The number that selects the colour for the text.
    pub fn fg_code(self) -> (n: u8)
        ensures
            n == self.spec_fg_code(),
    {
        match self {
            Color::Black => 30,
            Color::Red => 31,
            Color::Green => 32,
            Color::Yellow => 33,
            Color::Blue => 34,
            Color::Magenta => 35,
            Color::Cyan => 36,
            Color::White => 37,
            Color::BrightBlack => 90,
            Color::BrightRed => 91,
            Color::BrightGreen => 92,
            Color::BrightYellow => 93,
            Color::BrightBlue => 94,
            Color::BrightMagenta => 95,
            Color::BrightCyan => 96,
            Color::BrightWhite => 97,
        }
    }

    /// The number that selects the colour for the background.
    pub fn bg_code(self) -> (n: u8)
        ensures
            n == self.spec_bg_code(),
    {
        self.fg_code() + 10
    }
}

/// The digit for `d`, which is less than 16: `0` to `9`, then `A` to `F`.
pub open spec fn spec_digit(d: nat) -> char {
    if d == 0 {
        '0'
    } else if d == 1 {
        '1'
    } else if d == 2 {
        '2'
    } else if d == 3 {
        '3'
    } else if d == 4 {
        '4'
    } else if d == 5 {
        '5'
    } else if d == 6 {
        '6'
    } else if d == 7 {
        '7'
    } else if d == 8 {
        '8'
    } else if d == 9 {
        '9'
    } else if d == 10 {
        'A'
    } else if d == 11 {
        'B'
    } else if d == 12 {
        'C'
    } else if d == 13 {
        'D'
    } else if d == 14 {
        'E'
    } else {
        'F'
    }
}

/// The byte `b` as two hexadecimal digits.
pub open spec fn spec_b2h(b: u8) -> Seq<char> {
    seq![spec_digit((b / 16) as nat), spec_digit((b % 16) as nat)]
}

/// Bit `i` of the byte `b`, counted from the highest, as a digit.
pub open spec fn spec_bit(b: u8, i: int) -> char {
    let weight: int = if i == 0 {
        128
    } else if i == 1 {
        64
    } else if i == 2 {
        32
    } else if i == 3 {
        16
    } else if i == 4 {
        8
    } else if i == 5 {
        4
    } else if i == 6 {
        2
    } else {
        1
    };
    if (b as int / weight) % 2 == 1 {
        '1'
    } else {
        '0'
    }
}

/// The byte `b` as eight binary digits, the highest bit first.
pub open spec fn spec_b2b(b: u8) -> Seq<char> {
    Seq::new(8, |i: int| spec_bit(b, i))
}

/// The number `n`, which is less than 256, in decimal digits.
pub open spec fn spec_number(n: nat) -> Seq<char> {
    if n >= 100 {
        seq![spec_digit(n / 100), spec_digit((n / 10) % 10), spec_digit(n % 10)]
    } else if n >= 10 {
        seq![spec_digit(n / 10), spec_digit(n % 10)]
    } else {
        seq![spec_digit(n)]
    }
}

/// The digit for `d`.
pub fn digit(d: u8) -> (c: char)
    requires
        d < 16,
    ensures
        c == spec_digit(d as nat),
{
    match d {
        0 => '0',
        1 => '1',
        2 => '2',
        3 => '3',
        4 => '4',
        5 => '5',
        6 => '6',
        7 => '7',
        8 => '8',
        9 => '9',
        10 => 'A',
        11 => 'B',
        12 => 'C',
        13 => 'D',
        14 => 'E',
        _ => 'F',
    }
}

/// Writes the byte `b` to the end of `v` as two hexadecimal digits.
pub fn b2h(b: u8, v: &mut Vec<char>)
    ensures
        final(v)@ == old(v)@ + spec_b2h(b),
{
    v.push(digit(b / 16));
    v.push(digit(b % 16));
    assert(v@ =~= old(v)@ + spec_b2h(b));
}

/// Writes the byte `b` to the end of `v` as eight binary digits, the
/// highest bit first.
pub fn b2b(b: u8, v: &mut Vec<char>)
    ensures
        final(v)@ == old(v)@ + spec_b2b(b),
{
    let weights: [u8; 8] = [128, 64, 32, 16, 8, 4, 2, 1];
    let mut i: usize = 0;
    while i < 8
        invariant
            i <= 8,
            weights@ == seq![128u8, 64u8, 32u8, 16u8, 8u8, 4u8, 2u8, 1u8],
            v@.len() == old(v)@.len() + i,
            forall|j: int| 0 <= j < old(v)@.len() ==> v@[j] == old(v)@[j],
            forall|j: int| 0 <= j < i ==> v@[old(v)@.len() + j] == spec_bit(b, j),
        decreases 8 - i,
    {
        let bit: char = if (b / weights[i]) % 2 == 1 {
            '1'
        } else {
            '0'
        };
        v.push(bit);
        i += 1;
    }
    assert(v@ =~= old(v)@ + spec_b2b(b));
}

fn number(n: u8, v: &mut Vec<char>)
    ensures
        final(v)@ == old(v)@ + spec_number(n as nat),
{
    if n >= 100 {
        v.push(digit(n / 100));
        v.push(digit((n / 10) % 10));
        v.push(digit(n % 10));
    } else if n >= 10 {
        v.push(digit(n / 10));
        v.push(digit(n % 10));
    } else {
        v.push(digit(n));
    }
    assert(v@ =~= old(v)@ + spec_number(n as nat));
}

/// Whether escape sequences are written at all.
pub const COLORIZE: bool = true;

/// How text is to look from here on.
#[derive(Clone, Copy, Debug, PartialEq, Eq, Structural)]
pub struct Escape {
    pub foreground: Option<Color>,
    pub background: Option<Color>,
    pub bold: bool,
    pub dimmed: bool,
    pub underline: bool,
    pub strike_through: bool,
}

impl Escape {
    /// The parameters `body` with one more, `code`, behind a semicolon.
    pub open spec fn spec_with(body: Seq<char>, code: Option<nat>) -> Seq<char> {
        match code {
            None => body,
            Some(c) => if body.len() == 0 {
                spec_number(c)
            } else {
                body + seq![';'] + spec_number(c)
            },
        }
    }

    /// The parameter `code` where `set`, and none else.
    pub open spec fn spec_flag(set: bool, code: nat) -> Option<nat> {
        if set {
            Some(code)
        } else {
            None
        }
    }

    /// The parameters of the sequence: 1 for bold, 2 for dimmed, 4 for
    /// underlined and 9 for struck through, then the colour of the text
    /// and the colour of the background, each where it is asked for.
    pub open spec fn spec_parameters(self) -> Seq<char> {
        let a = Self::spec_with(Seq::empty(), Self::spec_flag(self.bold, 1));
        let b = Self::spec_with(a, Self::spec_flag(self.dimmed, 2));
        let c = Self::spec_with(b, Self::spec_flag(self.underline, 4));
        let d = Self::spec_with(c, Self::spec_flag(self.strike_through, 9));
        let e = Self::spec_with(
            d,
            match self.foreground {
                Some(color) => Some(color.spec_fg_code()),
                None => None,
            },
        );
        Self::spec_with(
            e,
            match self.background {
                Some(color) => Some(color.spec_bg_code()),
                None => None,
            },
        )
    }

    /// The escape sequence: the escape character, `[`, the parameters with
    /// semicolons between them, and `m`. With no parameter at all the
    /// sequence holds the one parameter 0, which takes all looks back.
    #[verifier::opaque]
    pub open spec fn spec_text(self) -> Seq<char> {
        seq!['\x1B', '['] + (if self.spec_parameters().len() == 0 {
            seq!['0']
        } else {
            self.spec_parameters()
        }) + seq!['m']
    }

    /// What `put` writes: the sequence, or nothing where text is not
    /// coloured.
    pub open spec fn spec_put(self) -> Seq<char> {
        if COLORIZE {
            self.spec_text()
        } else {
            Seq::empty()
        }
    }

    /// Nothing asked for: the sequence that takes all looks back.
    pub fn new() -> (r: Self)
        ensures
            r == (Escape {
                foreground: None,
                background: None,
                bold: false,
                dimmed: false,
                underline: false,
                strike_through: false,
            }),
    {
        Escape {
            foreground: None,
            background: None,
            bold: false,
            dimmed: false,
            underline: false,
            strike_through: false,
        }
    }

    /// The same, with the text in the colour `color`.
    pub fn fg(self, color: Color) -> (r: Self)
        ensures
            r == (Escape { foreground: Some(color), ..self }),
    {
        Escape { foreground: Some(color), ..self }
    }

    /// The same, on a background of the colour `color`.
    pub fn bg(self, color: Color) -> (r: Self)
        ensures
            r == (Escape { background: Some(color), ..self }),
    {
        Escape { background: Some(color), ..self }
    }

    /// The same, and bold.
    pub fn bold(self) -> (r: Self)
        ensures
            r == (Escape { bold: true, ..self }),
    {
        Escape { bold: true, ..self }
    }

    /// The same, and dimmed.
    pub fn dimmed(self) -> (r: Self)
        ensures
            r == (Escape { dimmed: true, ..self }),
    {
        Escape { dimmed: true, ..self }
    }

    /// The same, and underlined.
    pub fn underline(self) -> (r: Self)
        ensures
            r == (Escape { underline: true, ..self }),
    {
        Escape { underline: true, ..self }
    }

    /// The same, and struck through.
    pub fn strike_through(self) -> (r: Self)
        ensures
            r == (Escape { strike_through: true, ..self }),
    {
        Escape { strike_through: true, ..self }
    }

    fn with(body: &mut Vec<char>, code: Option<u8>)
        ensures
            final(body)@ == Self::spec_with(
                old(body)@,
                match code {
                    Some(c) => Some(c as nat),
                    None => None,
                },
            ),
    {
        if let Some(c) = code {
            if body.len() != 0 {
                body.push(';');
            }
            number(c, body);
        }
    }

    fn flag(set: bool, code: u8) -> (r: Option<u8>)
        ensures
            match r {
                Some(c) => Self::spec_flag(set, code as nat) == Some(c as nat),
                None => Self::spec_flag(set, code as nat) is None,
            },
    {
        if set {
            Some(code)
        } else {
            None
        }
    }

    /// The escape sequence as text.
    pub fn text(&self) -> (r: Vec<char>)
        ensures
            r@ == self.spec_text(),
    {
        let mut body: Vec<char> = Vec::new();
        Self::with(&mut body, Self::flag(self.bold, 1));
        Self::with(&mut body, Self::flag(self.dimmed, 2));
        Self::with(&mut body, Self::flag(self.underline, 4));
        Self::with(&mut body, Self::flag(self.strike_through, 9));
        Self::with(
            &mut body,
            match self.foreground {
                Some(color) => Some(color.fg_code()),
                None => None,
            },
        );
        Self::with(
            &mut body,
            match self.background {
                Some(color) => Some(color.bg_code()),
                None => None,
            },
        );
        reveal(Escape::spec_text);
        assert(body@ == self.spec_parameters());
        let mut out: Vec<char> = Vec::new();
        out.push('\x1B');
        out.push('[');
        if body.len() == 0 {
            out.push('0');
        } else {
            out.append(&mut body);
        }
        out.push('m');
        assert(out@ =~= self.spec_text());
        out
    }

    /// Writes the escape sequence to the end of `v`, or nothing where text
    /// is not coloured.
    pub fn put(&self, v: &mut Vec<char>)
        ensures
            final(v)@ == old(v)@ + self.spec_put(),
    {
        if COLORIZE {
            let mut text = self.text();
            v.append(&mut text);
        } else {
            assert(v@ =~= old(v)@ + Seq::<char>::empty());
        }
    }
}

} // verus!
