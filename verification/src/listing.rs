//! The flattened view of a document: every detail entry, in file order,
//! with its ordinal.

use crate::batch::BatchView;
use crate::document::{NachaFile, NachaFileView};
use crate::entry::{DetailEntry, DetailEntryView};
use vstd::prelude::*;

verus! {

/// A detail entry with its ordinal in the file, counted from one.
#[derive(Debug)]
pub struct DetailEntryWithCounter {
    pub entry: DetailEntry,
    pub counter: u32,
}

/// What a [`DetailEntryWithCounter`] holds, as mathematical values.
pub struct NumberedEntry {
    pub entry: DetailEntryView,
    pub counter: int,
}

impl View for DetailEntryWithCounter {
    type V = NumberedEntry;

    open spec fn view(&self) -> NumberedEntry {
        NumberedEntry { entry: self.entry@, counter: self.counter as int }
    }
}

impl DetailEntryWithCounter {
    /// Pairs an entry with its ordinal.
    pub fn new(entry: DetailEntry, counter: u32) -> (r: DetailEntryWithCounter)
        ensures
            r.entry == entry,
            r.counter == counter,
    {
        DetailEntryWithCounter { entry, counter }
    }
}

/// The entries of `batches`: those of the first batch in their order, then
/// those of the second, and so on.
pub open spec fn all_entries(batches: Seq<BatchView>) -> Seq<DetailEntryView>
    decreases batches.len(),
{
    if batches.len() == 0 {
        Seq::empty()
    } else {
        all_entries(batches.drop_last()) + batches.last().detail_entries
    }
}

/// The flattened view of a document: its entries in file order, the entry
/// at position `i` carrying the ordinal `i + 1`.
pub open spec fn flattened(file: NachaFileView) -> Seq<NumberedEntry> {
    Seq::new(
        all_entries(file.batches).len(),
        |i: int| NumberedEntry { entry: all_entries(file.batches)[i], counter: i + 1 },
    )
}

/// The views of the numbered entries held in `entries`.
pub open spec fn numbered(entries: Seq<DetailEntryWithCounter>) -> Seq<NumberedEntry> {
    entries.map_values(|e: DetailEntryWithCounter| e@)
}

/// The first batches never hold more entries than all of them.
pub proof fn lemma_entries_prefix(batches: Seq<BatchView>, k: int)
    requires
        0 <= k <= batches.len(),
    ensures
        all_entries(batches.take(k)).len() <= all_entries(batches).len(),
    decreases batches.len() - k,
{
    if k == batches.len() {
        assert(batches.take(k) =~= batches);
    } else {
        assert(batches.drop_last().take(k) =~= batches.take(k));
        lemma_entries_prefix(batches.drop_last(), k);
    }
}

/// The number of detail entries in the document, where it fits the
/// ordinals' 32 bits.
pub fn entry_total(nacha_file: &NachaFile) -> (total: Option<u32>)
    ensures
        match total {
            Some(n) => n == all_entries(nacha_file@.batches).len(),
            None => all_entries(nacha_file@.batches).len() > u32::MAX,
        },
{
    let ghost batches = nacha_file@.batches;
    let mut total: u32 = 0;
    let mut b: usize = 0;
    assert(batches.take(0) =~= Seq::empty());
    while b < nacha_file.batches.len()
        invariant
            b <= nacha_file.batches@.len(),
            batches == nacha_file@.batches,
            total == all_entries(batches.take(b as int)).len(),
        decreases nacha_file.batches@.len() - b,
    {
        let n = nacha_file.batches[b].detail_entries.len();
        proof {
            assert(batches.take(b + 1).drop_last() =~= batches.take(b as int));
            assert(batches.take(b + 1).last() == nacha_file.batches@[b as int]@);
            lemma_entries_prefix(batches, b + 1);
        }
        if n > (u32::MAX - total) as usize {
            return None;
        }
        total = total + n as u32;
        b += 1;
    }
    assert(batches.take(b as int) =~= batches);
    Some(total)
}

/// The flattened view of the document: every detail entry, batch after
/// batch in file order, numbered from one without a gap.
pub fn get_entries(nacha_file: &NachaFile) -> (entries: Vec<DetailEntryWithCounter>)
    requires
        all_entries(nacha_file@.batches).len() <= u32::MAX,
    ensures
        numbered(entries@) == flattened(nacha_file@),
{
    let ghost batches = nacha_file@.batches;
    let mut entries: Vec<DetailEntryWithCounter> = Vec::new();
    let mut count: u32 = 0;
    let mut b: usize = 0;
    assert(batches.take(0) =~= Seq::empty());
    while b < nacha_file.batches.len()
        invariant
            b <= nacha_file.batches@.len(),
            batches == nacha_file@.batches,
            all_entries(batches).len() <= u32::MAX,
            entries@.len() == all_entries(batches.take(b as int)).len(),
            count == entries@.len(),
            forall|i: int|
                0 <= i < entries@.len() ==> (#[trigger] entries@[i])@ == (NumberedEntry {
                    entry: all_entries(batches.take(b as int))[i],
                    counter: i + 1,
                }),
        decreases nacha_file.batches@.len() - b,
    {
        let batch = &nacha_file.batches[b];
        let ghost before = all_entries(batches.take(b as int));
        proof {
            assert(batches.take(b + 1).drop_last() =~= batches.take(b as int));
            assert(batches.take(b + 1).last() == batch@);
            lemma_entries_prefix(batches, b + 1);
        }
        let mut e: usize = 0;
        while e < batch.detail_entries.len()
            invariant
                e <= batch.detail_entries@.len(),
                before.len() + batch.detail_entries@.len() <= u32::MAX,
                entries@.len() == before.len() + e,
                count == entries@.len(),
                forall|i: int|
                    0 <= i < entries@.len() ==> (#[trigger] entries@[i])@ == (NumberedEntry {
                        entry: (before + batch@.detail_entries)[i],
                        counter: i + 1,
                    }),
            decreases batch.detail_entries@.len() - e,
        {
            let entry = batch.detail_entries[e].clone();
            count += 1;
            entries.push(DetailEntryWithCounter::new(entry, count));
            e += 1;
        }
        b += 1;
    }
    assert(batches.take(b as int) =~= batches);
    assert(numbered(entries@) =~= flattened(nacha_file@));
    entries
}

/// The ordinals of the flattened view run from one to the number of
/// entries without a gap, whatever the batches' sizes: the entries of one
/// batch continue the count where the batch before it stopped.
pub proof fn law_ordinals_are_contiguous(file: NachaFileView, b: int, e: int)
    requires
        0 <= b < file.batches.len(),
        0 <= e < file.batches[b].detail_entries.len(),
    ensures
        flattened(file).len() == all_entries(file.batches).len(),
        forall|i: int|
            0 <= i < flattened(file).len() ==> (#[trigger] flattened(file)[i]).counter == i + 1,
        all_entries(file.batches.take(b)).len() + e < flattened(file).len(),
        flattened(file)[all_entries(file.batches.take(b)).len() + e].entry
            == file.batches[b].detail_entries[e],
{
    lemma_entry_position(file.batches, b, e);
}

/// The entry `e` of the batch `b` stands in [`all_entries`] behind all the
/// entries of the batches before `b` and the first `e` entries of `b`.
pub proof fn lemma_entry_position(batches: Seq<BatchView>, b: int, e: int)
    requires
        0 <= b < batches.len(),
        0 <= e < batches[b].detail_entries.len(),
    ensures
        all_entries(batches.take(b)).len() + e < all_entries(batches).len(),
        all_entries(batches)[all_entries(batches.take(b)).len() + e]
            == batches[b].detail_entries[e],
    decreases batches.len(),
{
    if b == batches.len() - 1 {
        assert(batches.take(b) =~= batches.drop_last());
    } else {
        assert(batches.drop_last().take(b) =~= batches.take(b));
        lemma_entry_position(batches.drop_last(), b, e);
    }
}

} // verus!
