//! Rendering of raw bytes as aligned dump rows: an offset label followed by
//! fixed-width fields in hexadecimal, decimal, octal or character form.

pub mod digits;
pub mod style;
pub mod row;
pub mod cursor;
pub mod formatter;
pub mod styled;
pub mod driver;
pub mod request;
pub mod laws;

pub use crate::driver::{dump_lines, effective_length, Dump};
pub use crate::formatter::RowFormatter;
pub use crate::request::Args;
pub use crate::style::{select_styles, Style};
pub use crate::styled::{
    DefaultHexadecimal, OneByteChar, OneByteOctal, TwoByteDecimal, TwoByteHexadecimal,
    TwoByteOctal,
};
