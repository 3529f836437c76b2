use rust_hexdump::digits::{digit, push_padded, push_spaces, Radix};
use rust_hexdump::row::{push_field, render_row};
use rust_hexdump::Style;

fn written(value: usize, radix: Radix, width: usize) -> String {
    let mut out = String::new();
    push_padded(&mut out, value, radix, width);
    out
}

#[test]
fn digits_are_lower_case() {
    let all: String = (0..16u8).map(digit).collect();
    assert_eq!(all, "0123456789abcdef");
}

#[test]
fn bases_have_their_values() {
    assert_eq!(Radix::Hexadecimal.base_value(), 16);
    assert_eq!(Radix::Decimal.base_value(), 10);
    assert_eq!(Radix::Octal.base_value(), 8);
}

#[test]
fn padding_fills_up_to_the_width() {
    assert_eq!(written(0, Radix::Hexadecimal, 7), "0000000");
    assert_eq!(written(0x30, Radix::Hexadecimal, 7), "0000030");
    assert_eq!(written(0xfffffff, Radix::Hexadecimal, 7), "fffffff");
    assert_eq!(written(33, Radix::Decimal, 5), "00033");
    assert_eq!(written(65535, Radix::Decimal, 5), "65535");
    assert_eq!(written(0o41, Radix::Octal, 6), "000041");
    assert_eq!(written(0o177777, Radix::Octal, 6), "177777");
    assert_eq!(written(255, Radix::Octal, 3), "377");
    assert_eq!(written(0, Radix::Octal, 3), "000");
}

#[test]
fn wide_values_are_written_in_full() {
    assert_eq!(written(0x1000_0000, Radix::Hexadecimal, 7), "10000000");
    assert_eq!(written(0x1234_5678, Radix::Hexadecimal, 7), "12345678");
    assert_eq!(written(123456, Radix::Decimal, 5), "123456");
    assert_eq!(written(0o1234567, Radix::Octal, 3), "1234567");
    assert_eq!(written(usize::MAX, Radix::Hexadecimal, 7), format!("{:07x}", usize::MAX));
    assert_eq!(written(usize::MAX, Radix::Decimal, 5), format!("{:05}", usize::MAX));
    assert_eq!(written(usize::MAX, Radix::Octal, 6), format!("{:06o}", usize::MAX));
}

#[test]
fn narrow_widths_still_write_a_digit() {
    assert_eq!(written(0, Radix::Decimal, 0), "0");
    assert_eq!(written(0, Radix::Decimal, 1), "0");
    assert_eq!(written(7, Radix::Octal, 0), "7");
    assert_eq!(written(8, Radix::Octal, 0), "10");
    assert_eq!(written(9, Radix::Decimal, 1), "9");
    assert_eq!(written(10, Radix::Decimal, 1), "10");
}

#[test]
fn padding_agrees_with_the_standard_formatter() {
    for value in (0..70000usize).step_by(7) {
        assert_eq!(written(value, Radix::Hexadecimal, 4), format!("{:04x}", value));
        assert_eq!(written(value, Radix::Decimal, 5), format!("{:05}", value));
        assert_eq!(written(value, Radix::Octal, 6), format!("{:06o}", value));
        assert_eq!(written(value, Radix::Octal, 3), format!("{:03o}", value));
        assert_eq!(written(value, Radix::Hexadecimal, 7), format!("{:07x}", value));
    }
}

#[test]
fn text_is_appended_after_what_is_there() {
    let mut out = String::from("ab");
    push_padded(&mut out, 0x1f, Radix::Hexadecimal, 4);
    assert_eq!(out, "ab001f");
    push_spaces(&mut out, 3);
    assert_eq!(out, "ab001f   ");
    push_spaces(&mut out, 0);
    assert_eq!(out, "ab001f   ");
    push_field(&mut out, Style::TwoByteOctal, 0o41);
    assert_eq!(out, "ab001f   000041  ");
}

#[test]
fn fields_of_every_style() {
    let cases = [
        (Style::DefaultHexadecimal, 0x726fu16, "726f "),
        (Style::DefaultHexadecimal, 0xffff, "ffff "),
        (Style::TwoByteHexadecimal, 0x0021, "0021    "),
        (Style::TwoByteDecimal, 8289, "08289   "),
        (Style::TwoByteDecimal, 65535, "65535   "),
        (Style::TwoByteOctal, 0xffff, "177777  "),
        (Style::OneByteOctal, 0x20, "040 "),
        (Style::OneByteOctal, 0xff, "377 "),
        (Style::OneByteChar, 0x6f, "o   "),
        (Style::OneByteChar, 0x20, "    "),
    ];
    for (style, value, expected) in cases {
        let mut out = String::new();
        push_field(&mut out, style, value);
        assert_eq!(out, expected);
    }
}

#[test]
fn high_bytes_are_characters_of_their_code() {
    let bytes: Vec<u8> = vec![0x41, 0xe9, 0x00, 0xff, 0x7f];
    let (text, end) = render_row(Style::OneByteChar, &bytes, 5, 0);
    assert_eq!(end, 5);
    assert_eq!(text, "0000000   A   \u{e9}   \u{0}   \u{ff}   \u{7f}   ");
    assert_eq!(text.chars().count(), 7 + 3 + 5 * 4);
}

#[test]
fn pairs_are_read_low_byte_first() {
    let bytes: Vec<u8> = vec![0x01, 0x02, 0xff, 0x00, 0x00, 0xff, 0xab];
    let (text, end) = render_row(Style::DefaultHexadecimal, &bytes, 7, 0);
    assert_eq!(text, "0000000 0201 00ff ff00 00ab ");
    assert_eq!(end, 7);
    let (text, _) = render_row(Style::TwoByteDecimal, &bytes, 7, 0);
    assert_eq!(text, "0000000   00513   00255   65280   00171   ");
    let (text, _) = render_row(Style::TwoByteOctal, &bytes, 6, 0);
    assert_eq!(text, "0000000  001001  000377  177400  ");
}

#[test]
fn a_row_starts_where_it_is_told() {
    let bytes: Vec<u8> = (0..40u8).collect();
    let (text, end) = render_row(Style::OneByteOctal, &bytes, 40, 16);
    assert_eq!(end, 32);
    assert_eq!(
        text,
        "0000010 020 021 022 023 024 025 026 027 030 031 032 033 034 035 036 037 "
    );
    let (text, end) = render_row(Style::TwoByteHexadecimal, &bytes, 35, 32);
    assert_eq!(end, 35);
    assert_eq!(text, "0000020    2120    0022    ");
}
