//! The text of one dump row, and the engine that writes it.

use vstd::prelude::*;
use crate::digits::{padded, push_padded, push_spaces, spaces, Radix};
use crate::style::{Rendering, Style};

verus! {

/// The number of bytes that a full row covers, whatever the style.
pub const ROW_BYTES: usize = 16;

/// The number of digits the offset label is padded to.
pub const LABEL_WIDTH: usize = 7;

/// The offset one past the last byte of the row that starts at `start`.
pub open spec fn row_end(length: nat, start: nat) -> nat {
    if length - start > ROW_BYTES {
        (start + ROW_BYTES) as nat
    } else {
        length
    }
}

/// The number of rows that `length` bytes fill: sixteen bytes to a row, the
/// last one possibly short.
pub open spec fn row_count(length: nat) -> nat {
    (length + ROW_BYTES - 1) as nat / ROW_BYTES as nat
}

/// The offset reached after `rows` rows from the start: sixteen bytes for
/// each of them, but no further than the length.
pub open spec fn offset_after(length: nat, rows: nat) -> nat {
    if ROW_BYTES * rows <= length {
        (ROW_BYTES * rows) as nat
    } else {
        length
    }
}

/// The offset label that opens a row and makes up the closing line.
pub open spec fn label(offset: nat) -> Seq<char> {
    padded(offset, Radix::Hexadecimal, LABEL_WIDTH as nat)
}

/// One field: the value of a group as the style writes it, then the gap.
pub open spec fn field(style: Style, value: nat) -> Seq<char> {
    match style.rendering() {
        Rendering::Number { radix, width } => padded(value, radix, width as nat) + spaces(
            style.gap(),
        ),
        Rendering::Character => seq![value as char] + spaces(style.gap()),
    }
}

/// The value of the complete group that starts at `at`. A pair is read with
/// its first byte as the low half and its second byte as the high half.
pub open spec fn group_value(style: Style, bytes: Seq<u8>, at: int) -> nat {
    if style.group_size() == 2 {
        (bytes[at + 1] as nat) * 256 + bytes[at] as nat
    } else {
        bytes[at] as nat
    }
}

/// The fields of the first `count` complete groups from `start` on.
pub open spec fn groups_text(style: Style, bytes: Seq<u8>, start: int, count: nat) -> Seq<char>
    decreases count,
{
    if count == 0 {
        Seq::empty()
    } else {
        groups_text(style, bytes, start, (count - 1) as nat) + field(
            style,
            group_value(style, bytes, start + (count - 1) * style.group_size()),
        )
    }
}

/// The number of complete groups in the row that starts at `start`.
pub open spec fn full_groups(style: Style, length: nat, start: nat) -> nat {
    ((row_end(length, start) - start) / style.group_size() as int) as nat
}

/// Whether the row that starts at `start` ends in a lone byte that fills no
/// group of its own.
pub open spec fn has_leftover(style: Style, length: nat, start: nat) -> bool {
    (row_end(length, start) - start) % style.group_size() as int != 0
}

/// The whole text of the row that starts at `start`: the label, the gap, a
/// field for each complete group, and for a lone last byte a field of the same
/// shape that holds the value of that byte alone.
pub open spec fn row_text(style: Style, bytes: Seq<u8>, length: nat, start: nat) -> Seq<char> {
    let body = label(start) + spaces(style.gap()) + groups_text(
        style,
        bytes,
        start as int,
        full_groups(style, length, start),
    );
    if has_leftover(style, length, start) {
        body + field(style, bytes[row_end(length, start) - 1] as nat)
    } else {
        body
    }
}

/// Appends the field for `value` to `out`.
pub fn push_field(out: &mut String, style: Style, value: u16)
    requires
        style.rendering() == Rendering::Character ==> value < 256,
    ensures
        final(out)@ == old(out)@ + field(style, value as nat),
{
    match style.field_rendering() {
        Rendering::Number { radix, width } => {
            push_padded(out, value as usize, radix, width);
        },
        Rendering::Character => {
            out.push(value as u8 as char);
        },
    }
    push_spaces(out, style.gap_width());
    assert(out@ =~= old(out)@ + field(style, value as nat));
}

/// Writes the row that starts at `start` and returns it with the offset at
/// which the next row starts.
pub fn render_row(style: Style, bytes: &Vec<u8>, length: usize, start: usize) -> (out: (
    String,
    usize,
))
    requires
        start < length <= bytes@.len(),
    ensures
        out.0@ == row_text(style, bytes@, length as nat, start as nat),
        out.1 == row_end(length as nat, start as nat),
{
    let size = style.group_bytes();
    let end: usize = if length - start > ROW_BYTES { start + ROW_BYTES } else { length };
    let mut text = String::new();
    push_padded(&mut text, start, Radix::Hexadecimal, LABEL_WIDTH);
    push_spaces(&mut text, style.gap_width());
    let ghost head = label(start as nat) + spaces(style.gap());
    assert(text@ =~= head);
    let mut at: usize = start;
    let ghost mut count: nat = 0;
    while end - at >= size
        invariant
            start <= at <= end <= length <= bytes@.len(),
            end - start <= ROW_BYTES,
            size == style.group_size(),
            at == start + count * size,
            text@ == head + groups_text(style, bytes@, start as int, count),
        decreases end - at,
    {
        let value: u16 = if size == 2 {
            (bytes[at + 1] as u16) * 256 + bytes[at] as u16
        } else {
            bytes[at] as u16
        };
        push_field(&mut text, style, value);
        proof {
            assert(value as nat == group_value(style, bytes@, start + count * size));
            count = count + 1;
            assert(text@ =~= head + groups_text(style, bytes@, start as int, count));
        }
        at += size;
    }
    proof {
        assert(count == full_groups(style, length as nat, start as nat)) by (nonlinear_arith)
            requires
                at == start + count * size,
                0 <= end - at < size,
                1 <= size <= 2,
                full_groups(style, length as nat, start as nat) == (end - start) / (size as int),
        ;
    }
    if at != end {
        push_field(&mut text, style, bytes[at] as u16);
        at += 1;
    }
    assert(text@ =~= row_text(style, bytes@, length as nat, start as nat));
    (text, at)
}

} // verus!
