//! The document and the state machine that assembles it, one line at a
//! time, from the records of a file.

use crate::batch::{
    batch_control_of, batch_header_of, batch_with_addendum, batch_with_control, batch_with_entry,
    opened_batch, Batch, BatchControl, BatchHeader, BatchView,
};
use crate::control::{blank_file_control, file_control_of, FileControl, FileControlView};
use crate::entry::{addendum_of, detail_entry_of, Addendum, DetailEntry};
use crate::error::{ErrorKind, ParseError, StructuralError};
use crate::header::{blank_file_header, file_header_of, FileHeader, FileHeaderView};
use crate::text::{lines_of, lines_view, split_lines, string_of};
use vstd::prelude::*;

verus! {

/// The kinds of record, told apart by the first character of the line.
#[derive(Clone, Copy, Debug, PartialEq, Eq, Structural)]
pub enum RecordKind {
    FileHeader,
    BatchHeader,
    DetailEntry,
    Addendum,
    BatchControl,
    FileControl,
    /// Any other first character, or an empty line.
    Unrecognized,
}

/// The kind of record that a line announces.
pub open spec fn kind_of(line: Seq<char>) -> RecordKind {
    if line.len() == 0 {
        RecordKind::Unrecognized
    } else if line[0] == '1' {
        RecordKind::FileHeader
    } else if line[0] == '5' {
        RecordKind::BatchHeader
    } else if line[0] == '6' {
        RecordKind::DetailEntry
    } else if line[0] == '7' {
        RecordKind::Addendum
    } else if line[0] == '8' {
        RecordKind::BatchControl
    } else if line[0] == '9' {
        RecordKind::FileControl
    } else {
        RecordKind::Unrecognized
    }
}

/// Tells the kind of record that a line announces.
pub fn classify(line: &Vec<char>) -> (kind: RecordKind)
    ensures
        kind == kind_of(line@),
{
    if line.len() == 0 {
        return RecordKind::Unrecognized;
    }
    let code = line[0];
    if code == '1' {
        RecordKind::FileHeader
    } else if code == '5' {
        RecordKind::BatchHeader
    } else if code == '6' {
        RecordKind::DetailEntry
    } else if code == '7' {
        RecordKind::Addendum
    } else if code == '8' {
        RecordKind::BatchControl
    } else if code == '9' {
        RecordKind::FileControl
    } else {
        RecordKind::Unrecognized
    }
}

/// A whole file: its header, its batches in file order, and its control
/// record.
#[derive(Debug)]
pub struct NachaFile {
    pub file_header: FileHeader,
    pub batches: Vec<Batch>,
    pub file_control: FileControl,
}

/// What a [`NachaFile`] holds, as mathematical values.
pub struct NachaFileView {
    pub file_header: FileHeaderView,
    pub batches: Seq<BatchView>,
    pub file_control: FileControlView,
}

impl View for NachaFile {
    type V = NachaFileView;

    open spec fn view(&self) -> NachaFileView {
        NachaFileView {
            file_header: self.file_header@,
            batches: self.batches@.map_values(|b: Batch| b@),
            file_control: self.file_control@,
        }
    }
}

/// How far the assembler has come.
#[derive(Clone, Copy, Debug, PartialEq, Eq, Structural)]
pub enum Phase {
    /// No file header has been read yet.
    ExpectingFileHeader,
    /// A file header has been read, the file control has not.
    InFile,
    /// The file control has been read: whatever follows is ignored.
    Terminated,
}

/// The state of the assembler: its phase and the document so far.
pub struct AssemblerView {
    pub phase: Phase,
    pub file: NachaFileView,
}

impl AssemblerView {
    /// The index of the batch that entries are attached to, if one is open.
    pub open spec fn current_batch(self) -> Option<int> {
        if self.file.batches.len() > 0 {
            Some(self.file.batches.len() - 1)
        } else {
            None
        }
    }

    /// The index, within the current batch, of the entry that addenda are
    /// attached to, if that batch has one.
    pub open spec fn current_entry(self) -> Option<int> {
        if self.file.batches.len() > 0 && self.file.batches.last().detail_entries.len() > 0 {
            Some(self.file.batches.last().detail_entries.len() - 1)
        } else {
            None
        }
    }
}

/// The state before any line: a blank header, no batch, a blank control.
pub open spec fn initial_state() -> AssemblerView {
    AssemblerView {
        phase: Phase::ExpectingFileHeader,
        file: NachaFileView {
            file_header: blank_file_header(),
            batches: Seq::empty(),
            file_control: blank_file_control(),
        },
    }
}

/// The document `f` with its last batch replaced by `b`.
pub open spec fn with_last_batch(f: NachaFileView, b: BatchView) -> NachaFileView {
    NachaFileView { batches: f.batches.update(f.batches.len() - 1, b), ..f }
}

/// One transition of the assembler: the state after `line`, or the reason
/// why the line is fatal. Once the file control has been read, and on a
/// line of no known kind, the state stays as it is.
pub open spec fn step(s: AssemblerView, line: Seq<char>) -> Result<AssemblerView, ErrorKind> {
    if s.phase == Phase::Terminated {
        Ok(s)
    } else {
        match kind_of(line) {
            RecordKind::FileHeader => match file_header_of(line) {
                Ok(h) => Ok(
                    AssemblerView {
                        phase: Phase::InFile,
                        file: NachaFileView { file_header: h, ..s.file },
                    },
                ),
                Err(e) => Err(ErrorKind::of_decode(e)),
            },
            RecordKind::BatchHeader => match batch_header_of(line) {
                Ok(h) => Ok(
                    AssemblerView {
                        file: NachaFileView {
                            batches: s.file.batches.push(opened_batch(h)),
                            ..s.file
                        },
                        ..s
                    },
                ),
                Err(e) => Err(ErrorKind::of_decode(e)),
            },
            RecordKind::DetailEntry => if s.current_batch() is None {
                Err(ErrorKind::Structure(StructuralError::MissingBatchHeader))
            } else {
                match detail_entry_of(line) {
                    Ok(e) => Ok(
                        AssemblerView {
                            file: with_last_batch(
                                s.file,
                                batch_with_entry(s.file.batches.last(), e),
                            ),
                            ..s
                        },
                    ),
                    Err(e) => Err(ErrorKind::of_decode(e)),
                }
            },
            RecordKind::Addendum => if s.current_entry() is None {
                Err(ErrorKind::Structure(StructuralError::MissingDetailEntry))
            } else {
                match addendum_of(line) {
                    Ok(a) => Ok(
                        AssemblerView {
                            file: with_last_batch(
                                s.file,
                                batch_with_addendum(s.file.batches.last(), a),
                            ),
                            ..s
                        },
                    ),
                    Err(e) => Err(ErrorKind::of_decode(e)),
                }
            },
            RecordKind::BatchControl => if s.current_batch() is None {
                Err(ErrorKind::Structure(StructuralError::MissingBatchHeader))
            } else {
                match batch_control_of(line) {
                    Ok(c) => Ok(
                        AssemblerView {
                            file: with_last_batch(
                                s.file,
                                batch_with_control(s.file.batches.last(), c),
                            ),
                            ..s
                        },
                    ),
                    Err(e) => Err(ErrorKind::of_decode(e)),
                }
            },
            RecordKind::FileControl => match file_control_of(line) {
                Ok(c) => Ok(
                    AssemblerView {
                        phase: Phase::Terminated,
                        file: NachaFileView { file_control: c, ..s.file },
                    },
                ),
                Err(e) => Err(ErrorKind::of_decode(e)),
            },
            RecordKind::Unrecognized => Ok(s),
        }
    }
}

/// Builds a document from the lines of a file, one line at a time.
#[derive(Debug)]
pub struct Assembler {
    pub phase: Phase,
    pub file: NachaFile,
}

impl View for Assembler {
    type V = AssemblerView;

    open spec fn view(&self) -> AssemblerView {
        AssemblerView { phase: self.phase, file: self.file@ }
    }
}

impl Assembler {
    /// An assembler that has read nothing.
    pub fn new() -> (a: Assembler)
        ensures
            a@ == initial_state(),
    {
        let a = Assembler {
            phase: Phase::ExpectingFileHeader,
            file: NachaFile {
                file_header: FileHeader::new(),
                batches: Vec::new(),
                file_control: FileControl::new(),
            },
        };
        assert(a@.file.batches =~= Seq::empty());
        a
    }

    /// The index of the batch that entries are attached to, if one is open.
    pub fn current_batch(&self) -> (r: Option<usize>)
        ensures
            match r {
                Some(i) => self@.current_batch() == Some(i as int),
                None => self@.current_batch() is None,
            },
    {
        if self.file.batches.len() > 0 {
            Some(self.file.batches.len() - 1)
        } else {
            None
        }
    }

    /// The index, within the current batch, of the entry that addenda are
    /// attached to, if that batch has one.
    pub fn current_entry(&self) -> (r: Option<usize>)
        ensures
            match r {
                Some(i) => self@.current_entry() == Some(i as int),
                None => self@.current_entry() is None,
            },
    {
        let n = self.file.batches.len();
        if n > 0 && self.file.batches[n - 1].detail_entries.len() > 0 {
            Some(self.file.batches[n - 1].detail_entries.len() - 1)
        } else {
            None
        }
    }

    /// Whether the file control has been read.
    pub fn is_terminated(&self) -> (b: bool)
        ensures
            b == (self@.phase == Phase::Terminated),
    {
        self.phase == Phase::Terminated
    }

    /// Takes one line. On success the assembler has made the transition
    /// that [`step`] describes; on a fatal line it is left as it was and the
    /// reason is returned.
    pub fn feed(&mut self, line: &Vec<char>) -> (r: Result<(), ErrorKind>)
        ensures
            match r {
                Ok(()) => step(old(self)@, line@) == Ok::<AssemblerView, ErrorKind>(final(self)@),
                Err(k) => step(old(self)@, line@) == Err::<AssemblerView, ErrorKind>(k)
                    && *final(self) == *old(self),
            },
    {
        if self.phase == Phase::Terminated {
            return Ok(());
        }
        match classify(line) {
            RecordKind::FileHeader => match FileHeader::from_chars(line) {
                Ok(h) => {
                    self.file.file_header = h;
                    self.phase = Phase::InFile;
                    Ok(())
                },
                Err(e) => Err(ErrorKind::from_decode(e)),
            },
            RecordKind::BatchHeader => match BatchHeader::from_chars(line) {
                Ok(h) => {
                    self.file.batches.push(Batch::open(h));
                    assert(final(self)@.file.batches =~= old(self)@.file.batches.push(
                        opened_batch(h@),
                    ));
                    Ok(())
                },
                Err(e) => Err(ErrorKind::from_decode(e)),
            },
            RecordKind::DetailEntry => {
                let n = self.file.batches.len();
                if n == 0 {
                    return Err(ErrorKind::Structure(StructuralError::MissingBatchHeader));
                }
                match DetailEntry::from_chars(line) {
                    Ok(e) => {
                        self.file.batches[n - 1].push_entry(e);
                        assert(final(self)@.file.batches =~= old(self)@.file.batches.update(
                            n - 1,
                            batch_with_entry(old(self)@.file.batches.last(), e@),
                        ));
                        Ok(())
                    },
                    Err(e) => Err(ErrorKind::from_decode(e)),
                }
            },
            RecordKind::Addendum => {
                let n = self.file.batches.len();
                if n == 0 || self.file.batches[n - 1].detail_entries.len() == 0 {
                    return Err(ErrorKind::Structure(StructuralError::MissingDetailEntry));
                }
                match Addendum::from_chars(line) {
                    Ok(a) => {
                        self.file.batches[n - 1].push_addendum(a);
                        assert(final(self)@.file.batches =~= old(self)@.file.batches.update(
                            n - 1,
                            batch_with_addendum(old(self)@.file.batches.last(), a@),
                        ));
                        Ok(())
                    },
                    Err(e) => Err(ErrorKind::from_decode(e)),
                }
            },
            RecordKind::BatchControl => {
                let n = self.file.batches.len();
                if n == 0 {
                    return Err(ErrorKind::Structure(StructuralError::MissingBatchHeader));
                }
                match BatchControl::from_chars(line) {
                    Ok(c) => {
                        self.file.batches[n - 1].set_control(c);
                        assert(final(self)@.file.batches =~= old(self)@.file.batches.update(
                            n - 1,
                            batch_with_control(old(self)@.file.batches.last(), c@),
                        ));
                        Ok(())
                    },
                    Err(e) => Err(ErrorKind::from_decode(e)),
                }
            },
            RecordKind::FileControl => match FileControl::from_chars(line) {
                Ok(c) => {
                    self.file.file_control = c;
                    self.phase = Phase::Terminated;
                    Ok(())
                },
                Err(e) => Err(ErrorKind::from_decode(e)),
            },
            RecordKind::Unrecognized => Ok(()),
        }
    }

    /// Gives up the document as it stands.
    pub fn finish(self) -> (f: NachaFile)
        ensures
            f == self.file,
    {
        self.file
    }
}

/// A fatal line: what is wrong with it and where it stands, counted from
/// zero, among the lines.
pub struct Failure {
    pub kind: ErrorKind,
    pub index: int,
}

/// The state after `lines` have been taken in order from the state `s`, or
/// the first fatal line among them.
pub open spec fn feed_all(s: AssemblerView, lines: Seq<Seq<char>>) -> Result<
    AssemblerView,
    Failure,
>
    decreases lines.len(),
{
    if lines.len() == 0 {
        Ok(s)
    } else {
        match feed_all(s, lines.drop_last()) {
            Ok(before) => match step(before, lines.last()) {
                Ok(after) => Ok(after),
                Err(kind) => Err(Failure { kind, index: lines.len() - 1 }),
            },
            Err(f) => Err(f),
        }
    }
}

/// The document that `lines` assemble to, or the first fatal line.
pub open spec fn document_of(lines: Seq<Seq<char>>) -> Result<NachaFileView, Failure> {
    match feed_all(initial_state(), lines) {
        Ok(s) => Ok(s.file),
        Err(f) => Err(f),
    }
}

/// Whether `e` reports the failure `f` met on `lines`: the same kind, the
/// line's number counted from one, and the line itself.
pub open spec fn reports(e: ParseError, f: Failure, lines: Seq<Seq<char>>) -> bool {
    &&& 0 <= f.index < lines.len()
    &&& e.kind == f.kind
    &&& e.line_number == f.index + 1
    &&& e.line@ == lines[f.index]
}

/// A failure names one of the lines.
pub proof fn lemma_failure_in_range(s: AssemblerView, lines: Seq<Seq<char>>)
    ensures
        feed_all(s, lines) matches Err(f) ==> 0 <= f.index < lines.len(),
    decreases lines.len(),
{
    if lines.len() > 0 {
        lemma_failure_in_range(s, lines.drop_last());
    }
}

/// A line that is fatal among the first lines is fatal among all of them.
pub proof fn lemma_failure_is_final(s: AssemblerView, lines: Seq<Seq<char>>, k: int)
    requires
        0 <= k <= lines.len(),
        feed_all(s, lines.take(k)) is Err,
    ensures
        feed_all(s, lines) == feed_all(s, lines.take(k)),
    decreases lines.len() - k,
{
    if k == lines.len() {
        assert(lines.take(k) =~= lines);
    } else {
        assert(lines.drop_last().take(k) =~= lines.take(k));
        lemma_failure_is_final(s, lines.drop_last(), k);
    }
}

/// Once the file control has been read, no further line changes the
/// state or fails.
pub proof fn lemma_terminated_is_final(s: AssemblerView, lines: Seq<Seq<char>>, k: int)
    requires
        0 <= k <= lines.len(),
        feed_all(s, lines.take(k)) matches Ok(t) && t.phase == Phase::Terminated,
    ensures
        feed_all(s, lines) == feed_all(s, lines.take(k)),
    decreases lines.len() - k,
{
    if k == lines.len() {
        assert(lines.take(k) =~= lines);
    } else {
        assert(lines.drop_last().take(k) =~= lines.take(k));
        lemma_terminated_is_final(s, lines.drop_last(), k);
    }
}

impl NachaFile {
    /// Assembles the document from the lines of a file. Reading stops at
    /// the file control record; the first fatal line ends it with an error
    /// and no document.
    pub fn from_lines(lines: &Vec<Vec<char>>) -> (r: Result<NachaFile, ParseError>)
        ensures
            match r {
                Ok(f) => document_of(lines_view(lines@)) == Ok::<NachaFileView, Failure>(f@),
                Err(e) => document_of(lines_view(lines@)) matches Err(f) && reports(
                    e,
                    f,
                    lines_view(lines@),
                ),
            },
    {
        let ghost all = lines_view(lines@);
        let mut assembler = Assembler::new();
        let mut i: usize = 0;
        assert(all.take(0) =~= Seq::empty());
        while i < lines.len() && !assembler.is_terminated()
            invariant
                i <= lines@.len(),
                all == lines_view(lines@),
                feed_all(initial_state(), all.take(i as int)) == Ok::<AssemblerView, Failure>(
                    assembler@,
                ),
            decreases lines@.len() - i,
        {
            let line = &lines[i];
            proof {
                assert(all.take(i + 1).drop_last() =~= all.take(i as int));
                assert(all.take(i + 1).last() == line@);
            }
            match assembler.feed(line) {
                Ok(()) => {},
                Err(kind) => {
                    let text = string_of(line, 0, line.len());
                    proof {
                        assert(feed_all(initial_state(), all.take(i + 1)) == Err::<
                            AssemblerView,
                            Failure,
                        >(Failure { kind, index: i as int }));
                        lemma_failure_is_final(initial_state(), all, i + 1);
                        assert(line@.subrange(0, line@.len() as int) =~= line@);
                    }
                    return Err(ParseError { kind, line_number: i + 1, line: text });
                },
            }
            i += 1;
        }
        proof {
            if i < lines@.len() {
                lemma_terminated_is_final(initial_state(), all, i as int);
            } else {
                assert(all.take(i as int) =~= all);
            }
        }
        Ok(assembler.finish())
    }

    /// Assembles the document from the text of a file.
    pub fn new(content: String) -> (r: Result<NachaFile, ParseError>)
        ensures
            match r {
                Ok(f) => document_of(lines_of(content@)) == Ok::<NachaFileView, Failure>(f@),
                Err(e) => document_of(lines_of(content@)) matches Err(f) && reports(
                    e,
                    f,
                    lines_of(content@),
                ),
            },
    {
        let lines = split_lines(content.as_str());
        Self::from_lines(&lines)
    }

    /// The batch that was opened last.
    pub fn last_batch(&mut self) -> (b: &mut Batch)
        requires
            old(self).batches@.len() > 0,
        ensures
            *b == old(self).batches@.last(),
            final(self).file_header == old(self).file_header,
            final(self).file_control == old(self).file_control,
            final(self).batches@ == old(self).batches@.update(
                old(self).batches@.len() - 1,
                *final(b),
            ),
    {
        let last = self.batches.len() - 1;
        &mut self.batches[last]
    }
}

} // verus!
