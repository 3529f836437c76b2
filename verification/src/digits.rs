//! Zero-padded rendering of unsigned numbers in the bases the dump uses.

use vstd::prelude::*;

verus! {

/// `String::push` of the standard library appends the given character to the
/// end of the string and leaves what was there before in place.
pub assume_specification[ String::push ](s: &mut String, ch: char)
    ensures
        final(s)@ == old(s)@.push(ch),
;

/// The numeric bases a field can be written in.
#[derive(Clone, Copy, Debug, PartialEq, Eq, Structural)]
pub enum Radix {
    Hexadecimal,
    Decimal,
    Octal,
}

impl Radix {
    /// The number of distinct digits of the base.
    pub open spec fn base(self) -> nat {
        match self {
            Radix::Hexadecimal => 16,
            Radix::Decimal => 10,
            Radix::Octal => 8,
        }
    }

    /// The base as a machine integer.
    pub fn base_value(self) -> (b: usize)
        ensures
            b == self.base(),
    {
        match self {
            Radix::Hexadecimal => 16,
            Radix::Decimal => 10,
            Radix::Octal => 8,
        }
    }
}

/// The character for a single digit: `0` to `9`, then lower-case `a` to `f`.
pub open spec fn digit_char(d: nat) -> char {
    if d < 10 {
        (48 + d) as char
    } else {
        (87 + d) as char
    }
}

/// The digits of `value` in `radix`, most significant first, with zeros put
/// in front until there are at least `width` of them. A value that needs more
/// than `width` digits is written in full.
pub open spec fn padded(value: nat, radix: Radix, width: nat) -> Seq<char>
    decreases value, width,
{
    let base = radix.base();
    if value < base && width <= 1 {
        seq![digit_char(value)]
    } else {
        let rest: nat = if width == 0 { 0 } else { (width - 1) as nat };
        padded(value / base, radix, rest).push(digit_char(value % base))
    }
}

/// The number of values that `width` digits of `radix` can tell apart.
pub open spec fn capacity(radix: Radix, width: nat) -> nat
    decreases width,
{
    if width == 0 {
        1
    } else {
        radix.base() * capacity(radix, (width - 1) as nat)
    }
}

/// A value that fits in `width` digits is written with exactly that many.
pub proof fn lemma_padded_len(value: nat, radix: Radix, width: nat)
    requires
        width >= 1,
        value < capacity(radix, width),
    ensures
        padded(value, radix, width).len() == width,
    decreases width,
{
    let base = radix.base();
    if value < base && width <= 1 {
    } else {
        let rest = (width - 1) as nat;
        assert(capacity(radix, 0) == 1);
        assert(value / base < capacity(radix, rest)) by (nonlinear_arith)
            requires
                value < base * capacity(radix, rest),
                base >= 8,
        ;
        lemma_padded_len(value / base, radix, rest);
    }
}

/// A run of `n` spaces.
pub open spec fn spaces(n: nat) -> Seq<char> {
    Seq::new(n, |i: int| ' ')
}

/// The character of one digit.
pub fn digit(d: u8) -> (c: char)
    requires
        d < 16,
    ensures
        c == digit_char(d as nat),
{
    if d < 10 {
        (48u8 + d) as char
    } else {
        (87u8 + d) as char
    }
}

/// Appends `value`, written in `radix` and zero-padded to `width`, to `out`.
pub fn push_padded(out: &mut String, value: usize, radix: Radix, width: usize)
    ensures
        final(out)@ == old(out)@ + padded(value as nat, radix, width as nat),
    decreases value, width,
{
    let base = radix.base_value();
    if value < base && width <= 1 {
        out.push(digit(value as u8));
        assert(out@ =~= old(out)@ + padded(value as nat, radix, width as nat));
    } else {
        let rest: usize = if width == 0 { 0 } else { width - 1 };
        push_padded(out, value / base, radix, rest);
        out.push(digit((value % base) as u8));
        assert(out@ =~= old(out)@ + padded(value as nat, radix, width as nat));
    }
}

/// Appends `n` spaces to `out`.
pub fn push_spaces(out: &mut String, n: usize)
    ensures
        final(out)@ == old(out)@ + spaces(n as nat),
{
    let mut i: usize = 0;
    while i < n
        invariant
            i <= n,
            out@ == old(out)@ + spaces(i as nat),
        decreases n - i,
    {
        out.push(' ');
        i += 1;
        assert(out@ =~= old(out)@ + spaces(i as nat));
    }
}

} // verus!
