//! The driver that runs several formatters side by side over one buffer and
//! hands out their rows in turn, closed by the line of the final offset.

use vstd::prelude::*;
use crate::cursor::{text_of, Cursor};
use crate::digits::{push_padded, Radix};
use crate::formatter::RowFormatter;
use crate::row::{label, offset_after, row_count, row_text, LABEL_WIDTH, ROW_BYTES};
use crate::style::{texts, Style};

verus! {

/// The number of bytes a dump covers: all that are available, or the
/// requested number where that is smaller.
pub open spec fn effective(requested: Option<usize>, available: nat) -> nat {
    match requested {
        Some(wanted) => if wanted as nat <= available {
            wanted as nat
        } else {
            available
        },
        None => available,
    }
}

/// The styles that a dump runs: the selection as given, or the default
/// hexadecimal style alone where nothing was selected.
pub open spec fn active_set(selection: Seq<Style>) -> Seq<Style> {
    if selection.len() == 0 {
        seq![Style::DefaultHexadecimal]
    } else {
        selection
    }
}

/// A dump in progress as a mathematical value: which styles run, over which
/// bytes, and how many lines have been handed out.
pub struct Progress {
    pub styles: Seq<Style>,
    pub bytes: Seq<u8>,
    pub length: nat,
    pub emitted: nat,
}

impl Progress {
    /// The progress of a dump before its first line: the selected styles, or
    /// the default one, over as many of `bytes` as `requested` allows.
    pub open spec fn start(selection: Seq<Style>, requested: Option<usize>, bytes: Seq<u8>)
        -> Progress {
        Progress {
            styles: active_set(selection),
            bytes,
            length: effective(requested, bytes.len()),
            emitted: 0,
        }
    }

    /// The number of rows that come before the closing line: one from each
    /// style for every sixteen bytes begun.
    pub open spec fn rows_total(self) -> nat {
        self.styles.len() * row_count(self.length)
    }

    /// The number of lines of the whole dump. Nothing at all is written for
    /// an empty range; otherwise the rows are followed by the closing line.
    pub open spec fn lines_total(self) -> nat {
        if self.length == 0 {
            0
        } else {
            self.rows_total() + 1
        }
    }

    /// The line at `index`. Rows go round the styles in their order, each
    /// round one sixteen-byte step further; the line after the last row
    /// is the final offset.
    pub open spec fn line(self, index: nat) -> Seq<char> {
        let count = self.styles.len() as int;
        if index < self.rows_total() {
            row_text(
                self.styles[index as int % count],
                self.bytes,
                self.length,
                (ROW_BYTES * (index as int / count)) as nat,
            )
        } else {
            label(self.length)
        }
    }

    /// Every line has been handed out.
    pub open spec fn finished(self) -> bool {
        self.emitted >= self.lines_total()
    }

    /// What a request for the next line returns.
    pub open spec fn next_line(self) -> Option<Seq<char>> {
        if self.finished() {
            None
        } else {
            Some(self.line(self.emitted))
        }
    }

    /// The progress after a request for the next line.
    pub open spec fn step(self) -> Progress {
        if self.finished() {
            self
        } else {
            Progress { emitted: self.emitted + 1, ..self }
        }
    }

    /// All lines of the dump in order.
    pub open spec fn lines(self) -> Seq<Seq<char>> {
        Seq::new(self.lines_total(), |index: int| self.line(index as nat))
    }
}

/// Resolves the length of a dump from an optional request and the size of
/// the buffer: a request can shorten the dump, never extend it.
pub fn effective_length(requested: Option<usize>, available: usize) -> (length: usize)
    ensures
        length == effective(requested, available as nat),
{
    match requested {
        Some(wanted) => if wanted <= available {
            wanted
        } else {
            available
        },
        None => available,
    }
}

/// A dump of one buffer in one or more styles.
pub struct Dump<'a> {
    formatters: Vec<RowFormatter<'a>>,
    bytes: &'a Vec<u8>,
    length: usize,
    turn: usize,
    round: Ghost<nat>,
    finished: bool,
}

impl<'a> View for Dump<'a> {
    type V = Progress;

    closed spec fn view(&self) -> Progress {
        let styles = Seq::new(self.formatters@.len(), |k: int| self.formatters@[k]@.style);
        let partial = Progress { styles, bytes: self.bytes@, length: self.length as nat, emitted: 0 };
        Progress {
            emitted: if self.finished {
                partial.lines_total()
            } else {
                self.round@ * self.formatters@.len() + self.turn as nat
            },
            ..partial
        }
    }
}

impl<'a> Dump<'a> {
    /// The formatters share one buffer and one length, the dump knows whose
    /// turn it is, and each formatter stands where the rounds so far have
    /// left it.
    pub closed spec fn wf(&self) -> bool {
        &&& self.formatters@.len() >= 1
        &&& self.turn < self.formatters@.len()
        &&& self.length <= self.bytes@.len()
        &&& self.length == 0 ==> self.finished
        &&& self.round@ <= row_count(self.length as nat)
        &&& self.turn > 0 ==> self.round@ < row_count(self.length as nat)
        &&& forall|k: int|
            0 <= k < self.formatters@.len() ==> {
                &&& (#[trigger] self.formatters@[k])@.bytes == self.bytes@
                &&& self.formatters@[k]@.length == self.length as nat
                &&& !self.finished ==> self.formatters@[k]@.at == offset_after(
                    self.length as nat,
                    if k < self.turn {
                        self.round@ + 1
                    } else {
                        self.round@
                    },
                )
            }
    }

    /// A dump of `bytes` in the given styles, as long as `requested` allows.
    /// An empty selection stands for the default hexadecimal style.
    pub fn new(selection: &Vec<Style>, requested: Option<usize>, bytes: &'a Vec<u8>) -> (dump:
        Self)
        ensures
            dump.wf(),
            dump@ == Progress::start(selection@, requested, bytes@),
    {
        let length = effective_length(requested, bytes.len());
        let mut formatters: Vec<RowFormatter<'a>> = Vec::new();
        let mut k: usize = 0;
        while k < selection.len()
            invariant
                k <= selection@.len(),
                length <= bytes@.len(),
                formatters@.len() == k,
                forall|j: int|
                    0 <= j < k ==> (#[trigger] formatters@[j])@ == Cursor::start(
                        selection@[j],
                        bytes@,
                        length as nat,
                    ),
            decreases selection@.len() - k,
        {
            formatters.push(RowFormatter::new(selection[k], length, bytes));
            k += 1;
        }
        if formatters.len() == 0 {
            formatters.push(RowFormatter::new(Style::DefaultHexadecimal, length, bytes));
        }
        let dump = Dump {
            formatters,
            bytes,
            length,
            turn: 0,
            round: Ghost(0),
            finished: length == 0,
        };
        proof {
            assert(dump@.styles =~= active_set(selection@));
            assert(dump.round@ * dump.formatters@.len() == 0) by (nonlinear_arith)
                requires
                    dump.round@ == 0,
            ;
        }
        dump
    }

    /// The next line of the dump, or `None` once the closing line has been
    /// handed out. The formatter whose turn it is gets asked for a row; the
    /// first one that has none left ends the dump with the closing line.
    pub fn next_line(&mut self) -> (line: Option<String>)
        requires
            old(self).wf(),
        ensures
            final(self).wf(),
            text_of(line) == old(self)@.next_line(),
            final(self)@ == old(self)@.step(),
    {
        if self.finished {
            return None;
        }
        let count = self.formatters.len();
        let ghost before = self@;
        let ghost round = self.round@;
        let turn = self.turn;
        proof {
            lemma_position(count as nat, round, turn as nat);
            lemma_round_start(self.length as nat, round);
        }
        let row = self.formatters[turn].next();
        match row {
            Some(text) => {
                if turn + 1 == count {
                    self.turn = 0;
                    self.round = Ghost(round + 1);
                } else {
                    self.turn = turn + 1;
                }
                proof {
                    lemma_round_start(self.length as nat, round + 1);
                    assert(self@.styles =~= before.styles);
                    assert(round < row_count(self.length as nat));
                    assert(before.emitted < before.rows_total()) by (nonlinear_arith)
                        requires
                            before.emitted == round * count + turn,
                            before.rows_total() == count * row_count(self.length as nat),
                            round < row_count(self.length as nat),
                            turn < count,
                    ;
                    assert(self@.emitted == before.emitted + 1) by (nonlinear_arith)
                        requires
                            before.emitted == round * count + turn,
                            self@.emitted == self.round@ * count + self.turn,
                            turn + 1 == count ==> self.turn == 0 && self.round@ == round + 1,
                            turn + 1 != count ==> self.turn == turn + 1 && self.round@ == round,
                    ;
                }
                Some(text)
            },
            None => {
                self.finished = true;
                let mut text = String::new();
                push_padded(&mut text, self.length, Radix::Hexadecimal, LABEL_WIDTH);
                proof {
                    assert(self@.styles =~= before.styles);
                    assert(text@ =~= label(self.length as nat));
                    assert(round == row_count(self.length as nat));
                    assert(turn == 0);
                    assert(before.emitted == before.rows_total()) by (nonlinear_arith)
                        requires
                            before.emitted == round * count + turn,
                            before.rows_total() == count * row_count(self.length as nat),
                            round == row_count(self.length as nat),
                            turn == 0,
                    ;
                }
                Some(text)
            },
        }
    }
}

/// Runs a whole dump and returns its lines in order: the rows of the styles
/// in turn, then the line of the final offset; nothing for an empty range.
pub fn dump_lines(selection: &Vec<Style>, requested: Option<usize>, bytes: &Vec<u8>) -> (lines:
    Vec<String>)
    ensures
        texts(lines@) == Progress::start(selection@, requested, bytes@).lines(),
{
    let mut dump = Dump::new(selection, requested, bytes);
    let ghost whole = dump@;
    let mut lines: Vec<String> = Vec::new();
    loop
        invariant
            dump.wf(),
            dump@ == (Progress { emitted: lines@.len() as nat, ..whole }),
            lines@.len() <= whole.lines_total(),
            forall|index: int|
                0 <= index < lines@.len() ==> (#[trigger] lines@[index])@ == whole.line(
                    index as nat,
                ),
        ensures
            lines@.len() == whole.lines_total(),
        decreases whole.lines_total() - lines@.len(),
    {
        match dump.next_line() {
            Some(text) => {
                lines.push(text);
            },
            None => {
                break;
            },
        }
    }
    assert(texts(lines@) =~= whole.lines());
    lines
}

/// Where line `round * count + turn` falls: in round `round`, at turn `turn`.
proof fn lemma_position(count: nat, round: nat, turn: nat)
    requires
        turn < count,
    ensures
        (round * count + turn) as int / count as int == round,
        (round * count + turn) as int % count as int == turn,
{
    vstd::arithmetic::div_mod::lemma_fundamental_div_mod_converse(
        (round * count + turn) as int,
        count as int,
        round as int,
        turn as int,
    );
}

/// A round starts before the end of the bytes exactly as long as rows are
/// left to write.
proof fn lemma_round_start(length: nat, round: nat)
    ensures
        offset_after(length, round) < length <==> round < row_count(length),
        offset_after(length, round) <= length,
        offset_after(length, round) < length ==> offset_after(length, round) == ROW_BYTES
            * round,
{
}

} // verus!
