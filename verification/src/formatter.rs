//! The row formatter: a cursor over a borrowed buffer that hands out one row
//! per request.

use vstd::prelude::*;
use crate::cursor::{text_of, Cursor};
use crate::row::render_row;
use crate::style::Style;

verus! {

/// A formatter of any style, bound to one buffer and one length.
pub struct RowFormatter<'a> {
    style: Style,
    idx: usize,
    length: usize,
    bytes: &'a Vec<u8>,
}

impl<'a> View for RowFormatter<'a> {
    type V = Cursor;

    closed spec fn view(&self) -> Cursor {
        Cursor {
            style: self.style,
            bytes: self.bytes@,
            length: self.length as nat,
            at: self.idx as nat,
        }
    }
}

impl<'a> RowFormatter<'a> {
    #[verifier::type_invariant]
    spec fn inv(&self) -> bool {
        self@.valid()
    }

    /// A formatter of `style` over the first `length` bytes of `bytes`.
    pub fn new(style: Style, length: usize, bytes: &'a Vec<u8>) -> (r: Self)
        requires
            length <= bytes@.len(),
        ensures
            r@ == Cursor::start(style, bytes@, length as nat),
            r@.valid(),
    {
        RowFormatter { style, idx: 0, length, bytes }
    }

    /// The style that the formatter writes.
    pub fn style(&self) -> (s: Style)
        ensures
            s == self@.style,
    {
        self.style
    }

    /// The offset of the next byte to be read.
    pub fn position(&self) -> (at: usize)
        ensures
            at == self@.at,
            self@.valid(),
    {
        proof {
            use_type_invariant(self);
        }
        self.idx
    }

    /// The next row, or `None` once every byte has been written.
    pub fn next(&mut self) -> (row: Option<String>)
        ensures
            text_of(row) == old(self)@.next_row(),
            final(self)@ == old(self)@.step(),
            final(self)@.valid(),
    {
        proof {
            use_type_invariant(&*self);
        }
        if self.idx == self.length {
            return None;
        }
        let (text, end) = render_row(self.style, self.bytes, self.length, self.idx);
        self.idx = end;
        Some(text)
    }
}

} // verus!
