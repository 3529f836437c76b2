//! What holds of every formatter, whatever the buffer and the length.

use vstd::prelude::*;
use crate::cursor::Cursor;
use crate::digits::{capacity, lemma_padded_len, padded, spaces, Radix};
use crate::driver::Progress;
use crate::row::{
    field, full_groups, group_value, groups_text, has_leftover, label, offset_after, row_count,
    row_end, row_text, LABEL_WIDTH, ROW_BYTES,
};
use crate::style::{Rendering, Style};

verus! {

/// The least number of parts of `size` that hold `amount`.
pub open spec fn ceil_div(amount: nat, size: nat) -> nat {
    ((amount + size - 1) / size as int) as nat
}

/// The bytes consumed by the first `rows` requests to a formatter that
/// starts at `cursor`.
pub open spec fn consumed_by(cursor: Cursor, rows: nat) -> nat
    decreases rows,
{
    if rows == 0 {
        0
    } else {
        consumed_by(cursor, (rows - 1) as nat) + cursor.after((rows - 1) as nat).consumed()
    }
}

/// The offset at which the last row of a non-empty range starts.
pub open spec fn last_row_start(length: nat) -> nat {
    (ROW_BYTES * (row_count(length) - 1)) as nat
}

/// After `count` requests a fresh formatter stands sixteen bytes further for
/// each of them, or at the end of its range if that comes first.
pub proof fn lemma_cursor_after(cursor: Cursor, count: nat)
    requires
        cursor.valid(),
        cursor.at == 0,
    ensures
        cursor.after(count) == (Cursor { at: offset_after(cursor.length, count), ..cursor }),
        cursor.after(count).valid(),
    decreases count,
{
    if count > 0 {
        lemma_cursor_after(cursor, (count - 1) as nat);
    }
}

/// The rows of a formatter consume its whole range and nothing more: the
/// bytes of all rows add up to the length, and the cursor ends exactly there.
pub proof fn lemma_rows_consume_length(cursor: Cursor)
    requires
        cursor.valid(),
        cursor.at == 0,
    ensures
        consumed_by(cursor, row_count(cursor.length)) == cursor.length,
        cursor.after(row_count(cursor.length)).at == cursor.length,
        cursor.after(row_count(cursor.length)).exhausted(),
{
    lemma_cursor_after(cursor, row_count(cursor.length));
    lemma_consumed_by(cursor, row_count(cursor.length));
}

/// The bytes consumed by the first `rows` requests are those up to the
/// offset at which the cursor then stands.
pub proof fn lemma_consumed_by(cursor: Cursor, rows: nat)
    requires
        cursor.valid(),
        cursor.at == 0,
    ensures
        consumed_by(cursor, rows) == cursor.after(rows).at,
    decreases rows,
{
    if rows > 0 {
        lemma_consumed_by(cursor, (rows - 1) as nat);
        lemma_cursor_after(cursor, (rows - 1) as nat);
        lemma_cursor_after(cursor, rows);
    }
}

/// A formatter produces exactly `row_count` rows: every request before that
/// many returns a row and every later one returns nothing. That number is the
/// length divided by the bytes of a full row, rounded up, which for every
/// style is the group size times the groups per row.
pub proof fn lemma_number_of_rows(cursor: Cursor, request: nat)
    requires
        cursor.valid(),
        cursor.at == 0,
    ensures
        request < row_count(cursor.length) <==> cursor.after(request).next_row().is_some(),
        row_count(cursor.length) == ceil_div(
            cursor.length,
            cursor.style.group_size() * cursor.style.groups_per_row(),
        ),
        cursor.style.group_size() == 2 ==> row_count(cursor.length) == ceil_div(
            ceil_div(cursor.length, 2),
            8,
        ),
        cursor.length >= 1 ==> ROW_BYTES * (row_count(cursor.length) - 1) < cursor.length
            <= ROW_BYTES * row_count(cursor.length),
{
    lemma_cursor_after(cursor, request);
}

/// Rows come in increasing order of offset: as long as a formatter is not
/// exhausted, a request moves its cursor forward, by sixteen bytes or to the
/// end of the range.
pub proof fn lemma_offsets_increase(cursor: Cursor)
    requires
        cursor.valid(),
        !cursor.exhausted(),
    ensures
        cursor.step().at > cursor.at,
        cursor.step().at == cursor.at + ROW_BYTES || cursor.step().exhausted(),
        cursor.step().valid(),
{
}

/// A pair in hexadecimal reads as its second byte followed by its first,
/// two digits each.
pub proof fn lemma_hex_pair(first: u8, second: u8)
    ensures
        padded(second as nat * 256 + first as nat, Radix::Hexadecimal, 4) == padded(
            second as nat,
            Radix::Hexadecimal,
            2,
        ) + padded(first as nat, Radix::Hexadecimal, 2),
{
    let value = second as nat * 256 + first as nat;
    reveal_with_fuel(padded, 5);
    assert(value % 16 == first as nat % 16);
    assert(value / 16 == second as nat * 16 + first as nat / 16);
    assert((value / 16) % 16 == first as nat / 16);
    assert(value / 16 / 16 == second as nat);
    assert(padded(value, Radix::Hexadecimal, 4) =~= padded(second as nat, Radix::Hexadecimal, 2)
        + padded(first as nat, Radix::Hexadecimal, 2));
}

/// Every field of a style is equally wide: a value that a group can hold
/// takes the digits of the style and is followed by its gap.
pub proof fn lemma_field_width(style: Style, value: nat)
    requires
        value < 256 || (style.group_size() == 2 && value < 65536),
    ensures
        field(style, value).len() == style.value_width() + style.gap(),
{
    reveal_with_fuel(capacity, 7);
    match style.rendering() {
        Rendering::Number { radix, width } => {
            lemma_padded_len(value, radix, width as nat);
        },
        Rendering::Character => {},
    }
}

/// The fields of `count` complete groups are `count` times as wide as one.
pub proof fn lemma_groups_width(style: Style, bytes: Seq<u8>, start: int, count: nat)
    requires
        0 <= start,
        start + count * style.group_size() <= bytes.len(),
    ensures
        groups_text(style, bytes, start, count).len() == count * (style.value_width()
            + style.gap()),
    decreases count,
{
    let size = style.group_size();
    let wide = style.value_width() + style.gap();
    if count > 0 {
        assert((count - 1) * size + size == count * size) by (nonlinear_arith);
        assert((count - 1) * wide + wide == count * wide) by (nonlinear_arith);
        lemma_groups_width(style, bytes, start, (count - 1) as nat);
        lemma_field_width(style, group_value(style, bytes, start + (count - 1) * size));
    } else {
        assert(count * wide == 0) by (nonlinear_arith)
            requires
                count == 0,
        ;
    }
}

/// Rows are aligned: below the offset where the label outgrows its seven
/// digits, a row is as wide as its label, the gap, and one field for every
/// group in it, the lone last byte included.
pub proof fn lemma_row_width(style: Style, bytes: Seq<u8>, length: nat, start: nat)
    requires
        start < length <= bytes.len(),
        start < 0x1000_0000,
    ensures
        row_text(style, bytes, length, start).len() == LABEL_WIDTH + style.gap() + (full_groups(
            style,
            length,
            start,
        ) + if has_leftover(style, length, start) {
            1nat
        } else {
            0nat
        }) * (style.value_width() + style.gap()),
{
    reveal_with_fuel(capacity, 8);
    lemma_padded_len(start, Radix::Hexadecimal, LABEL_WIDTH as nat);
    let count = full_groups(style, length, start);
    let size = style.group_size();
    let wide = style.value_width() + style.gap();
    assert(count * size <= row_end(length, start) - start) by (nonlinear_arith)
        requires
            count == (row_end(length, start) - start) / (size as int),
            1 <= size <= 2,
    ;
    lemma_groups_width(style, bytes, start as int, count);
    if has_leftover(style, length, start) {
        lemma_field_width(style, bytes[row_end(length, start) - 1] as nat);
        assert((count + 1) * wide == count * wide + wide) by (nonlinear_arith);
    }
}

/// The fields of complete groups depend only on the bytes they cover.
pub proof fn lemma_groups_text_agree(
    style: Style,
    first: Seq<u8>,
    second: Seq<u8>,
    start: int,
    count: nat,
)
    requires
        0 <= start,
        forall|at: int|
            start <= at < start + count * style.group_size() ==> first[at] == second[at],
    ensures
        groups_text(style, first, start, count) == groups_text(style, second, start, count),
    decreases count,
{
    if count > 0 {
        let size = style.group_size();
        assert((count - 1) * size + size == count * size) by (nonlinear_arith);
        lemma_groups_text_agree(style, first, second, start, (count - 1) as nat);
    }
}

/// The rows are a function of the style, the length and the bytes in reach
/// alone: two formatters that agree on these return the same row at every
/// request, and so does a formatter that is built a second time from the same
/// length and buffer.
pub proof fn lemma_same_inputs_same_rows(first: Cursor, second: Cursor, request: nat)
    requires
        first.valid(),
        second.valid(),
        first.at == 0,
        second.at == 0,
        first.style == second.style,
        first.length == second.length,
        forall|at: int| 0 <= at < first.length ==> first.bytes[at] == second.bytes[at],
    ensures
        first.after(request).next_row() == second.after(request).next_row(),
{
    lemma_cursor_after(first, request);
    lemma_cursor_after(second, request);
    let start = offset_after(first.length, request);
    if start < first.length {
        let style = first.style;
        let count = full_groups(style, first.length, start);
        let size = style.group_size();
        assert(count * size <= row_end(first.length, start) - start) by (nonlinear_arith)
            requires
                count == (row_end(first.length, start) - start) / (size as int),
                1 <= size <= 2,
        ;
        lemma_groups_text_agree(style, first.bytes, second.bytes, start as int, count);
    }
}

/// Formatters over one length end together, whatever their styles: after
/// any number of requests they stand at the same offset, so when one of them
/// has no row left, none has.
pub proof fn lemma_styles_end_together(first: Cursor, second: Cursor, request: nat)
    requires
        first.valid(),
        second.valid(),
        first.at == 0,
        second.at == 0,
        first.length == second.length,
    ensures
        first.after(request).at == second.after(request).at,
        first.after(request).exhausted() == second.after(request).exhausted(),
{
    lemma_cursor_after(first, request);
    lemma_cursor_after(second, request);
}

/// The lines of a dump before the closing one are the rows of its
/// formatters taken in turn: line `index` is what the formatter of style
/// `index % count` returns at request `index / count`, where `count` is the
/// number of styles.
pub proof fn lemma_lines_are_rows(progress: Progress, index: nat)
    requires
        progress.length <= progress.bytes.len(),
        index < progress.rows_total(),
    ensures
        progress.styles.len() > 0,
        index / progress.styles.len() < row_count(progress.length),
        Cursor::start(
            progress.styles[(index % progress.styles.len()) as int],
            progress.bytes,
            progress.length,
        ).after(index / progress.styles.len()).next_row() == Some(progress.line(index)),
{
    let count = progress.styles.len();
    let rows = row_count(progress.length);
    assert(count > 0 && index / count < rows) by (nonlinear_arith)
        requires
            index < count * rows,
    ;
    let cursor = Cursor::start(
        progress.styles[(index % count) as int],
        progress.bytes,
        progress.length,
    );
    lemma_cursor_after(cursor, index / count);
}

/// Nothing comes out of an empty range: a formatter over no bytes is
/// exhausted from the start, and a dump of no bytes has no line at all, not
/// even the closing one.
pub proof fn lemma_empty_range(cursor: Cursor, progress: Progress)
    requires
        cursor.length == 0,
        cursor.at == 0,
        progress.length == 0,
    ensures
        cursor.next_row().is_none(),
        row_count(cursor.length) == 0,
        progress.lines_total() == 0,
        progress.lines() =~= Seq::<Seq<char>>::empty(),
        progress.next_line().is_none(),
{
}

/// Where the length is a positive multiple of sixteen, the last row is as
/// full as every other: it holds all the groups of a full row and no lone
/// byte.
pub proof fn lemma_whole_rows(style: Style, length: nat)
    requires
        length >= 1,
        length % ROW_BYTES as nat == 0,
    ensures
        row_end(length, last_row_start(length)) == length,
        full_groups(style, length, last_row_start(length)) == style.groups_per_row(),
        !has_leftover(style, length, last_row_start(length)),
{
    assert(row_end(length, last_row_start(length)) - last_row_start(length) == ROW_BYTES);
    if style.group_size() == 1 {
        assert(full_groups(style, length, last_row_start(length)) == 16);
    } else {
        assert(full_groups(style, length, last_row_start(length)) == 8);
    }
}

/// In a two-byte style an odd length leaves a lone byte: the last row ends
/// in a field that holds the value of the last byte by itself, after the
/// fields of the complete pairs before it.
pub proof fn lemma_odd_leftover(style: Style, bytes: Seq<u8>, length: nat)
    requires
        style.group_size() == 2,
        length % 2 == 1,
        length <= bytes.len(),
    ensures
        has_leftover(style, length, last_row_start(length)),
        row_end(length, last_row_start(length)) == length,
        2 * full_groups(style, length, last_row_start(length)) + 1 == length - last_row_start(
            length,
        ),
        row_text(style, bytes, length, last_row_start(length)) == label(last_row_start(length))
            + spaces(style.gap()) + groups_text(
            style,
            bytes,
            last_row_start(length) as int,
            full_groups(style, length, last_row_start(length)),
        ) + field(style, bytes[length - 1] as nat),
{
}

} // verus!
