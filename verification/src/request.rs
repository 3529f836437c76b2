//! What a run of the dump program was asked for, and the lines it owes.

use vstd::prelude::*;
use crate::driver::{dump_lines, Progress};
use crate::style::{select_styles, styles_of_flags, texts};

verus! {

/// The arguments of a run.
#[derive(Clone, Debug)]
pub struct Args {
    /// The path of the file to dump.
    pub file: String,
    /// The largest number of bytes to dump, if there is a limit.
    pub length: Option<usize>,
    /// How often the two-byte hexadecimal style was asked for.
    pub x: u8,
    /// How often the two-byte decimal style was asked for.
    pub d: u8,
    /// How often the one-byte octal style was asked for.
    pub b: u8,
    /// How often the one-byte character style was asked for.
    pub c: u8,
}

impl Args {
    /// The lines that the run prints for a file that holds `bytes`, when
    /// `tokens` are the words of the command line. The styles are those of
    /// the style flags among the words, in that order and as often as they
    /// occur; the length is the file's, cut down to the limit if one is set.
    pub fn lines(&self, tokens: &Vec<String>, bytes: &Vec<u8>) -> (lines: Vec<String>)
        ensures
            texts(lines@) == Progress::start(
                styles_of_flags(texts(tokens@)),
                self.length,
                bytes@,
            ).lines(),
    {
        let selection = select_styles(tokens);
        dump_lines(&selection, self.length, bytes)
    }
}

} // verus!
