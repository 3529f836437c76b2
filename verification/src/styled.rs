//! One formatter type for each output style.

use vstd::prelude::*;
use crate::cursor::{text_of, Cursor};
use crate::formatter::RowFormatter;
use crate::style::Style;

verus! {

/// Rows of byte pairs as four hexadecimal digits, one space apart.
pub struct DefaultHexadecimal<'a> {
    rows: RowFormatter<'a>,
}

impl<'a> View for DefaultHexadecimal<'a> {
    type V = Cursor;

    closed spec fn view(&self) -> Cursor {
        self.rows@
    }
}

impl<'a> DefaultHexadecimal<'a> {
    /// A formatter over the first `length` bytes of `bytes`, with its cursor
    /// at the first byte.
    pub fn new(length: usize, bytes: &'a Vec<u8>) -> (r: Self)
        requires
            length <= bytes@.len(),
        ensures
            r@ == Cursor::start(Style::DefaultHexadecimal, bytes@, length as nat),
            r@.valid(),
    {
        DefaultHexadecimal { rows: RowFormatter::new(Style::DefaultHexadecimal, length, bytes) }
    }

    /// The next row, or `None` once every byte has been written. The cursor
    /// moves past the bytes of the row.
    pub fn next(&mut self) -> (row: Option<String>)
        ensures
            text_of(row) == old(self)@.next_row(),
            final(self)@ == old(self)@.step(),
            final(self)@.valid(),
    {
        self.rows.next()
    }
}

/// Rows of byte pairs as four hexadecimal digits, four spaces apart.
pub struct TwoByteHexadecimal<'a> {
    rows: RowFormatter<'a>,
}

impl<'a> View for TwoByteHexadecimal<'a> {
    type V = Cursor;

    closed spec fn view(&self) -> Cursor {
        self.rows@
    }
}

impl<'a> TwoByteHexadecimal<'a> {
    /// A formatter over the first `length` bytes of `bytes`, with its cursor
    /// at the first byte.
    pub fn new(length: usize, bytes: &'a Vec<u8>) -> (r: Self)
        requires
            length <= bytes@.len(),
        ensures
            r@ == Cursor::start(Style::TwoByteHexadecimal, bytes@, length as nat),
            r@.valid(),
    {
        TwoByteHexadecimal { rows: RowFormatter::new(Style::TwoByteHexadecimal, length, bytes) }
    }

    /// The next row, or `None` once every byte has been written. The cursor
    /// moves past the bytes of the row.
    pub fn next(&mut self) -> (row: Option<String>)
        ensures
            text_of(row) == old(self)@.next_row(),
            final(self)@ == old(self)@.step(),
            final(self)@.valid(),
    {
        self.rows.next()
    }
}

/// Rows of byte pairs as five decimal digits, three spaces apart.
pub struct TwoByteDecimal<'a> {
    rows: RowFormatter<'a>,
}

impl<'a> View for TwoByteDecimal<'a> {
    type V = Cursor;

    closed spec fn view(&self) -> Cursor {
        self.rows@
    }
}

impl<'a> TwoByteDecimal<'a> {
    /// A formatter over the first `length` bytes of `bytes`, with its cursor
    /// at the first byte.
    pub fn new(length: usize, bytes: &'a Vec<u8>) -> (r: Self)
        requires
            length <= bytes@.len(),
        ensures
            r@ == Cursor::start(Style::TwoByteDecimal, bytes@, length as nat),
            r@.valid(),
    {
        TwoByteDecimal { rows: RowFormatter::new(Style::TwoByteDecimal, length, bytes) }
    }

    /// The next row, or `None` once every byte has been written. The cursor
    /// moves past the bytes of the row.
    pub fn next(&mut self) -> (row: Option<String>)
        ensures
            text_of(row) == old(self)@.next_row(),
            final(self)@ == old(self)@.step(),
            final(self)@.valid(),
    {
        self.rows.next()
    }
}

/// Rows of byte pairs as six octal digits, two spaces apart.
pub struct TwoByteOctal<'a> {
    rows: RowFormatter<'a>,
}

impl<'a> View for TwoByteOctal<'a> {
    type V = Cursor;

    closed spec fn view(&self) -> Cursor {
        self.rows@
    }
}

impl<'a> TwoByteOctal<'a> {
    /// A formatter over the first `length` bytes of `bytes`, with its cursor
    /// at the first byte.
    pub fn new(length: usize, bytes: &'a Vec<u8>) -> (r: Self)
        requires
            length <= bytes@.len(),
        ensures
            r@ == Cursor::start(Style::TwoByteOctal, bytes@, length as nat),
            r@.valid(),
    {
        TwoByteOctal { rows: RowFormatter::new(Style::TwoByteOctal, length, bytes) }
    }

    /// The next row, or `None` once every byte has been written. The cursor
    /// moves past the bytes of the row.
    pub fn next(&mut self) -> (row: Option<String>)
        ensures
            text_of(row) == old(self)@.next_row(),
            final(self)@ == old(self)@.step(),
            final(self)@.valid(),
    {
        self.rows.next()
    }
}

/// Rows of single bytes as three octal digits, one space apart.
pub struct OneByteOctal<'a> {
    rows: RowFormatter<'a>,
}

impl<'a> View for OneByteOctal<'a> {
    type V = Cursor;

    closed spec fn view(&self) -> Cursor {
        self.rows@
    }
}

impl<'a> OneByteOctal<'a> {
    /// A formatter over the first `length` bytes of `bytes`, with its cursor
    /// at the first byte.
    pub fn new(length: usize, bytes: &'a Vec<u8>) -> (r: Self)
        requires
            length <= bytes@.len(),
        ensures
            r@ == Cursor::start(Style::OneByteOctal, bytes@, length as nat),
            r@.valid(),
    {
        OneByteOctal { rows: RowFormatter::new(Style::OneByteOctal, length, bytes) }
    }

    /// The next row, or `None` once every byte has been written. The cursor
    /// moves past the bytes of the row.
    pub fn next(&mut self) -> (row: Option<String>)
        ensures
            text_of(row) == old(self)@.next_row(),
            final(self)@ == old(self)@.step(),
            final(self)@.valid(),
    {
        self.rows.next()
    }
}

/// Rows of single bytes as characters, three spaces apart.
pub struct OneByteChar<'a> {
    rows: RowFormatter<'a>,
}

impl<'a> View for OneByteChar<'a> {
    type V = Cursor;

    closed spec fn view(&self) -> Cursor {
        self.rows@
    }
}

impl<'a> OneByteChar<'a> {
    /// A formatter over the first `length` bytes of `bytes`, with its cursor
    /// at the first byte.
    pub fn new(length: usize, bytes: &'a Vec<u8>) -> (r: Self)
        requires
            length <= bytes@.len(),
        ensures
            r@ == Cursor::start(Style::OneByteChar, bytes@, length as nat),
            r@.valid(),
    {
        OneByteChar { rows: RowFormatter::new(Style::OneByteChar, length, bytes) }
    }

    /// The next row, or `None` once every byte has been written. The cursor
    /// moves past the bytes of the row.
    pub fn next(&mut self) -> (row: Option<String>)
        ensures
            text_of(row) == old(self)@.next_row(),
            final(self)@ == old(self)@.step(),
            final(self)@.valid(),
    {
        self.rows.next()
    }
}

} // verus!
