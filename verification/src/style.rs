//! The catalog of output styles and what configures each of them.

use vstd::prelude::*;
use crate::digits::Radix;

verus! {

/// How the value of one group is written.
#[derive(Clone, Copy, Debug, PartialEq, Eq, Structural)]
pub enum Rendering {
    /// As a number in `radix`, zero-padded to `width` digits.
    Number { radix: Radix, width: usize },
    /// As the single character whose code is the value.
    Character,
}

/// One of the fixed output styles of a dump.
#[derive(Clone, Copy, Debug, PartialEq, Eq, Structural)]
pub enum Style {
    /// Byte pairs as four hexadecimal digits, one space apart.
    DefaultHexadecimal,
    /// Byte pairs as four hexadecimal digits, four spaces apart.
    TwoByteHexadecimal,
    /// Byte pairs as five decimal digits, three spaces apart.
    TwoByteDecimal,
    /// Byte pairs as six octal digits, two spaces apart.
    TwoByteOctal,
    /// Single bytes as three octal digits, one space apart.
    OneByteOctal,
    /// Single bytes as characters, three spaces apart.
    OneByteChar,
}

/// The style that a command-line token selects, if it is one of the style
/// flags in short or long form. The default style and the two-byte octal
/// style have no flag.
pub open spec fn style_of_flag(token: Seq<char>) -> Option<Style> {
    if token == "-x"@ || token == "--two-bytes-hex"@ {
        Some(Style::TwoByteHexadecimal)
    } else if token == "-d"@ || token == "--two-bytes-decimal"@ {
        Some(Style::TwoByteDecimal)
    } else if token == "-b"@ || token == "--one-byte-octal"@ {
        Some(Style::OneByteOctal)
    } else if token == "-c"@ || token == "--one-byte-char"@ {
        Some(Style::OneByteChar)
    } else {
        None
    }
}

/// The styles that a list of tokens selects: one for every occurrence of a
/// style flag, in the order of the tokens. Other tokens select nothing.
pub open spec fn styles_of_flags(tokens: Seq<Seq<char>>) -> Seq<Style>
    decreases tokens.len(),
{
    if tokens.len() == 0 {
        Seq::empty()
    } else {
        let earlier = styles_of_flags(tokens.drop_last());
        match style_of_flag(tokens.last()) {
            Some(style) => earlier.push(style),
            None => earlier,
        }
    }
}

/// The texts of a list of strings.
pub open spec fn texts(tokens: Seq<String>) -> Seq<Seq<char>> {
    tokens.map_values(|token: String| token@)
}

/// Whether `token` reads exactly as `flag`.
fn reads_as(token: &String, flag: &str) -> (same: bool)
    ensures
        same == (token@ == flag@),
{
    let flag = String::from_str(flag);
    *token == flag
}

/// Maps every style flag among `tokens` to its style, keeping the order and
/// every repetition.
pub fn select_styles(tokens: &Vec<String>) -> (styles: Vec<Style>)
    ensures
        styles@ == styles_of_flags(texts(tokens@)),
{
    let mut styles: Vec<Style> = Vec::new();
    let mut k: usize = 0;
    while k < tokens.len()
        invariant
            k <= tokens@.len(),
            styles@ == styles_of_flags(texts(tokens@).take(k as int)),
        decreases tokens@.len() - k,
    {
        proof {
            let upto = texts(tokens@).take(k + 1);
            assert(upto.drop_last() =~= texts(tokens@).take(k as int));
            assert(upto.last() == tokens@[k as int]@);
        }
        match Style::from_flag(&tokens[k]) {
            Some(style) => {
                styles.push(style);
            },
            None => {},
        }
        k += 1;
    }
    assert(texts(tokens@).take(k as int) =~= texts(tokens@));
    styles
}

impl Style {
    /// The style that `token` selects, if it is a style flag.
    pub fn from_flag(token: &String) -> (style: Option<Style>)
        ensures
            style == style_of_flag(token@),
    {
        if reads_as(token, "-x") || reads_as(token, "--two-bytes-hex") {
            Some(Style::TwoByteHexadecimal)
        } else if reads_as(token, "-d") || reads_as(token, "--two-bytes-decimal") {
            Some(Style::TwoByteDecimal)
        } else if reads_as(token, "-b") || reads_as(token, "--one-byte-octal") {
            Some(Style::OneByteOctal)
        } else if reads_as(token, "-c") || reads_as(token, "--one-byte-char") {
            Some(Style::OneByteChar)
        } else {
            None
        }
    }

    /// The number of bytes that one field stands for: one or two.
    pub open spec fn group_size(self) -> nat {
        match self {
            Style::OneByteOctal | Style::OneByteChar => 1,
            _ => 2,
        }
    }

    /// The number of groups in a full row: sixteen bytes' worth.
    pub open spec fn groups_per_row(self) -> nat {
        match self {
            Style::OneByteOctal | Style::OneByteChar => 16,
            _ => 8,
        }
    }

    /// How the style writes the value of a group.
    pub open spec fn rendering(self) -> Rendering {
        match self {
            Style::DefaultHexadecimal | Style::TwoByteHexadecimal => Rendering::Number {
                radix: Radix::Hexadecimal,
                width: 4,
            },
            Style::TwoByteDecimal => Rendering::Number { radix: Radix::Decimal, width: 5 },
            Style::TwoByteOctal => Rendering::Number { radix: Radix::Octal, width: 6 },
            Style::OneByteOctal => Rendering::Number { radix: Radix::Octal, width: 3 },
            Style::OneByteChar => Rendering::Character,
        }
    }

    /// The number of characters that the value of a group takes.
    pub open spec fn value_width(self) -> nat {
        match self.rendering() {
            Rendering::Number { width, .. } => width as nat,
            Rendering::Character => 1,
        }
    }

    /// The number of spaces that follow the offset label and each field.
    pub open spec fn gap(self) -> nat {
        match self {
            Style::DefaultHexadecimal | Style::OneByteOctal => 1,
            Style::TwoByteOctal => 2,
            Style::TwoByteDecimal | Style::OneByteChar => 3,
            Style::TwoByteHexadecimal => 4,
        }
    }

    /// The group size as a machine integer.
    pub fn group_bytes(self) -> (n: usize)
        ensures
            n == self.group_size(),
    {
        match self {
            Style::OneByteOctal | Style::OneByteChar => 1,
            _ => 2,
        }
    }

    /// The rendering of the style's fields.
    pub fn field_rendering(self) -> (r: Rendering)
        ensures
            r == self.rendering(),
    {
        match self {
            Style::DefaultHexadecimal | Style::TwoByteHexadecimal => Rendering::Number {
                radix: Radix::Hexadecimal,
                width: 4,
            },
            Style::TwoByteDecimal => Rendering::Number { radix: Radix::Decimal, width: 5 },
            Style::TwoByteOctal => Rendering::Number { radix: Radix::Octal, width: 6 },
            Style::OneByteOctal => Rendering::Number { radix: Radix::Octal, width: 3 },
            Style::OneByteChar => Rendering::Character,
        }
    }

    /// The width of the gap as a machine integer.
    pub fn gap_width(self) -> (n: usize)
        ensures
            n == self.gap(),
    {
        match self {
            Style::DefaultHexadecimal | Style::OneByteOctal => 1,
            Style::TwoByteOctal => 2,
            Style::TwoByteDecimal | Style::OneByteChar => 3,
            Style::TwoByteHexadecimal => 4,
        }
    }
}

} // verus!
