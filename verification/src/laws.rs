//! What holds of decoding and assembling, proved from the definitions.

use crate::batch::{batch_control_of, batch_header_of};
use crate::control::file_control_of;
use crate::document::{
    document_of, feed_all, initial_state, kind_of, lemma_failure_in_range, lemma_failure_is_final,
    lemma_terminated_is_final, step, AssemblerView, Failure, NachaFileView, Phase, RecordKind,
};
use crate::entry::{addendum_of, detail_entry_of};
use crate::error::{DecodeError, ErrorKind, StructuralError};
use crate::header::file_header_of;
use crate::text::{field, number_of, RECORD_WIDTH};
use vstd::prelude::*;

verus! {

/// A line of full width always decodes as a record of text alone, and as
/// a record with numeric fields it either decodes or is reported as a
/// format error, exactly when one of those fields is not a number.
pub proof fn law_full_line_decodes(line: Seq<char>)
    requires
        line.len() >= RECORD_WIDTH,
    ensures
        file_header_of(line) is Ok,
        batch_header_of(line) is Ok,
        addendum_of(line) is Ok,
        (detail_entry_of(line) is Ok) || (detail_entry_of(line) matches Err(
            DecodeError::FieldFormat,
        )),
        detail_entry_of(line) is Ok <==> number_of(field(line, 29, 39)) is Some,
        (batch_control_of(line) is Ok) || (batch_control_of(line) matches Err(
            DecodeError::FieldFormat,
        )),
        (file_control_of(line) is Ok) || (file_control_of(line) matches Err(
            DecodeError::FieldFormat,
        )),
{
}

/// A line that is too short decodes as no kind of record.
pub proof fn law_short_line_is_out_of_range(line: Seq<char>)
    requires
        line.len() < RECORD_WIDTH,
    ensures
        (file_header_of(line) matches Err(DecodeError::FieldRange)),
        (batch_header_of(line) matches Err(DecodeError::FieldRange)),
        (detail_entry_of(line) matches Err(DecodeError::FieldRange)),
        (addendum_of(line) matches Err(DecodeError::FieldRange)),
        (batch_control_of(line) matches Err(DecodeError::FieldRange)),
        (file_control_of(line) matches Err(DecodeError::FieldRange)),
{
}

/// Whether none of the lines `lines[from..to]` is of the kind `kind`.
pub open spec fn none_of_kind(
    lines: Seq<Seq<char>>,
    from: int,
    to: int,
    kind: RecordKind,
) -> bool {
    forall|j: int| from <= j < to ==> kind_of(#[trigger] lines[j]) != kind
}

/// As long as no batch header and no file control has been read, no batch
/// is open and reading goes on.
pub proof fn lemma_no_batch_yet(lines: Seq<Seq<char>>, k: int)
    requires
        0 <= k <= lines.len(),
        none_of_kind(lines, 0, k, RecordKind::BatchHeader),
        none_of_kind(lines, 0, k, RecordKind::FileControl),
        feed_all(initial_state(), lines.take(k)) is Ok,
    ensures
        feed_all(initial_state(), lines.take(k)) matches Ok(s) && s.file.batches.len() == 0
            && s.phase != Phase::Terminated,
    decreases k,
{
    if k > 0 {
        assert(lines.take(k).drop_last() =~= lines.take(k - 1));
        assert(lines.take(k).last() == lines[k - 1]);
        lemma_no_batch_yet(lines, k - 1);
    }
}

/// A detail entry that comes before any batch header is fatal: the file
/// yields no document, and the failure names that line and the missing batch
/// header.
pub proof fn law_entry_needs_batch(lines: Seq<Seq<char>>, k: int)
    requires
        0 <= k < lines.len(),
        kind_of(lines[k]) == RecordKind::DetailEntry,
        none_of_kind(lines, 0, k, RecordKind::BatchHeader),
        none_of_kind(lines, 0, k, RecordKind::FileControl),
        feed_all(initial_state(), lines.take(k)) is Ok,
    ensures
        document_of(lines) == Err::<NachaFileView, Failure>(
            Failure {
                kind: ErrorKind::Structure(StructuralError::MissingBatchHeader),
                index: k,
            },
        ),
{
    lemma_no_batch_yet(lines, k);
    assert(lines.take(k + 1).drop_last() =~= lines.take(k));
    assert(lines.take(k + 1).last() == lines[k]);
    lemma_failure_is_final(initial_state(), lines, k + 1);
}

/// After the batch header at `b`, as long as no detail entry, no further
/// batch header and no file control has been read, the open batch has no
/// entry and reading goes on.
pub proof fn lemma_no_entry_yet(lines: Seq<Seq<char>>, b: int, k: int)
    requires
        0 <= b < k <= lines.len(),
        kind_of(lines[b]) == RecordKind::BatchHeader,
        none_of_kind(lines, b + 1, k, RecordKind::BatchHeader),
        none_of_kind(lines, b + 1, k, RecordKind::DetailEntry),
        none_of_kind(lines, 0, k, RecordKind::FileControl),
        feed_all(initial_state(), lines.take(k)) is Ok,
    ensures
        feed_all(initial_state(), lines.take(k)) matches Ok(s) && s.current_batch() is Some
            && s.current_entry() is None && s.phase != Phase::Terminated,
    decreases k,
{
    assert(lines.take(k).drop_last() =~= lines.take(k - 1));
    assert(lines.take(k).last() == lines[k - 1]);
    if k == b + 1 {
        lemma_not_terminated_yet(lines, b);
    } else {
        lemma_no_entry_yet(lines, b, k - 1);
    }
}

/// As long as no file control has been read, reading goes on.
pub proof fn lemma_not_terminated_yet(lines: Seq<Seq<char>>, k: int)
    requires
        0 <= k <= lines.len(),
        none_of_kind(lines, 0, k, RecordKind::FileControl),
        feed_all(initial_state(), lines.take(k)) is Ok,
    ensures
        feed_all(initial_state(), lines.take(k)) matches Ok(s) && s.phase != Phase::Terminated,
    decreases k,
{
    if k > 0 {
        assert(lines.take(k).drop_last() =~= lines.take(k - 1));
        assert(lines.take(k).last() == lines[k - 1]);
        lemma_not_terminated_yet(lines, k - 1);
    }
}

/// An addendum that comes before any detail entry of its batch is fatal:
/// the file yields no document, and the failure names that line and the
/// missing detail entry.
pub proof fn law_addendum_needs_entry(lines: Seq<Seq<char>>, b: int, k: int)
    requires
        0 <= b < k < lines.len(),
        kind_of(lines[b]) == RecordKind::BatchHeader,
        kind_of(lines[k]) == RecordKind::Addendum,
        none_of_kind(lines, b + 1, k, RecordKind::BatchHeader),
        none_of_kind(lines, b + 1, k, RecordKind::DetailEntry),
        none_of_kind(lines, 0, k, RecordKind::FileControl),
        feed_all(initial_state(), lines.take(k)) is Ok,
    ensures
        document_of(lines) == Err::<NachaFileView, Failure>(
            Failure {
                kind: ErrorKind::Structure(StructuralError::MissingDetailEntry),
                index: k,
            },
        ),
{
    lemma_no_entry_yet(lines, b, k);
    assert(lines.take(k + 1).drop_last() =~= lines.take(k));
    assert(lines.take(k + 1).last() == lines[k]);
    lemma_failure_is_final(initial_state(), lines, k + 1);
}

/// An addendum in a file without any batch header is fatal in the same
/// way.
pub proof fn law_addendum_needs_batch(lines: Seq<Seq<char>>, k: int)
    requires
        0 <= k < lines.len(),
        kind_of(lines[k]) == RecordKind::Addendum,
        none_of_kind(lines, 0, k, RecordKind::BatchHeader),
        none_of_kind(lines, 0, k, RecordKind::FileControl),
        feed_all(initial_state(), lines.take(k)) is Ok,
    ensures
        document_of(lines) == Err::<NachaFileView, Failure>(
            Failure {
                kind: ErrorKind::Structure(StructuralError::MissingDetailEntry),
                index: k,
            },
        ),
{
    lemma_no_batch_yet(lines, k);
    assert(lines.take(k + 1).drop_last() =~= lines.take(k));
    assert(lines.take(k + 1).last() == lines[k]);
    lemma_failure_is_final(initial_state(), lines, k + 1);
}

/// A line of no known kind is skipped: the state, and with it the current
/// batch and the current entry, stay as they are.
pub proof fn law_unrecognized_is_skipped(s: AssemblerView, line: Seq<char>)
    requires
        kind_of(line) == RecordKind::Unrecognized,
    ensures
        step(s, line) == Ok::<AssemblerView, ErrorKind>(s),
{
}

/// Whether two outcomes are the same but for the line at `k`, which only
/// the first reading had before it: equal states, or the same failure on
/// the same line.
pub open spec fn same_but_for_line(
    with: Result<AssemblerView, Failure>,
    without: Result<AssemblerView, Failure>,
    k: int,
) -> bool {
    match (with, without) {
        (Ok(a), Ok(b)) => a == b,
        (Err(f), Err(g)) => f.kind == g.kind && f.index != k && g.index == if f.index > k {
            f.index - 1
        } else {
            f.index
        },
        _ => false,
    }
}

/// Taking a line of no known kind out of the lines changes nothing but the
/// numbering of the lines behind it: the records before and after it attach
/// as they did.
pub proof fn law_unrecognized_line_can_go(s: AssemblerView, lines: Seq<Seq<char>>, k: int)
    requires
        0 <= k < lines.len(),
        kind_of(lines[k]) == RecordKind::Unrecognized,
    ensures
        same_but_for_line(feed_all(s, lines), feed_all(s, lines.remove(k)), k),
    decreases lines.len(),
{
    lemma_failure_in_range(s, lines.drop_last());
    if k == lines.len() - 1 {
        assert(lines.remove(k) =~= lines.drop_last());
    } else {
        assert(lines.remove(k).drop_last() =~= lines.drop_last().remove(k));
        assert(lines.remove(k).last() == lines.last());
        law_unrecognized_line_can_go(s, lines.drop_last(), k);
    }
}

/// Reading stops at the file control record: the lines behind it do not
/// change the document.
pub proof fn law_stops_at_file_control(lines: Seq<Seq<char>>, k: int)
    requires
        0 <= k < lines.len(),
        kind_of(lines[k]) == RecordKind::FileControl,
        document_of(lines.take(k + 1)) is Ok,
    ensures
        document_of(lines) == document_of(lines.take(k + 1)),
{
    assert(lines.take(k + 1).drop_last() =~= lines.take(k));
    assert(lines.take(k + 1).last() == lines[k]);
    lemma_terminated_is_final(initial_state(), lines, k + 1);
}

} // verus!
