//! The state of one formatter as a mathematical value.

use vstd::prelude::*;
use crate::row::{row_end, row_text, ROW_BYTES};
use crate::style::Style;

verus! {

/// What a formatter is at any moment: the style it writes, the buffer it
/// reads, the number of bytes it may read, and the offset of the next byte.
pub struct Cursor {
    pub style: Style,
    pub bytes: Seq<u8>,
    pub length: nat,
    pub at: nat,
}

impl Cursor {
    /// The cursor of a formatter that has not produced a row yet.
    pub open spec fn start(style: Style, bytes: Seq<u8>, length: nat) -> Cursor {
        Cursor { style, bytes, length, at: 0 }
    }

    /// The cursor stays inside the bytes it may read, which lie inside the
    /// buffer, and it rests only at the start of a row or at the very end.
    pub open spec fn valid(self) -> bool {
        &&& self.at <= self.length <= self.bytes.len()
        &&& (self.at % ROW_BYTES as nat == 0 || self.at == self.length)
    }

    /// Nothing is left to read.
    pub open spec fn exhausted(self) -> bool {
        self.at == self.length
    }

    /// The text of the row that starts at the cursor.
    pub open spec fn row(self) -> Seq<char> {
        row_text(self.style, self.bytes, self.length, self.at)
    }

    /// The number of bytes that the row at the cursor consumes.
    pub open spec fn consumed(self) -> nat {
        (row_end(self.length, self.at) - self.at) as nat
    }

    /// The cursor after the row at it was produced.
    pub open spec fn advance(self) -> Cursor {
        Cursor { at: row_end(self.length, self.at), ..self }
    }

    /// What a request for the next row returns: the row at the cursor, or
    /// nothing once the cursor is exhausted.
    pub open spec fn next_row(self) -> Option<Seq<char>> {
        if self.exhausted() {
            None
        } else {
            Some(self.row())
        }
    }

    /// The cursor after a request for the next row: an exhausted cursor stays
    /// where it is.
    pub open spec fn step(self) -> Cursor {
        if self.exhausted() {
            self
        } else {
            self.advance()
        }
    }

    /// The cursor after `count` requests.
    pub open spec fn after(self, count: nat) -> Cursor
        decreases count,
    {
        if count == 0 {
            self
        } else {
            self.after((count - 1) as nat).step()
        }
    }
}

/// The text of an optional row, for comparing what a formatter returned with
/// what its cursor foretells.
pub open spec fn text_of(row: Option<String>) -> Option<Seq<char>> {
    match row {
        Some(text) => Some(text@),
        None => None,
    }
}

} // verus!
