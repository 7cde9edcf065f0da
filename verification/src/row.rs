//! The rows that a table of entries or of addenda shows: the text of each
//! cell, and whether the entry is a credit or a debit.

use crate::entry::Addendum;
use crate::listing::DetailEntryWithCounter;
use crate::money::{decimal_digits, digit_to_char, dollars_cents, pretty_dollars_cents};
use crate::text::chars_of;
use vstd::prelude::*;

verus! {

/// Which way the money of an entry goes.
#[derive(Clone, Copy, Debug, PartialEq, Eq, Structural)]
pub enum Tone {
    Credit,
    Debit,
    Neutral,
}

/// The tone of a transaction code: `22`, `32`, `42` and `52` are credits,
/// `27`, `37` and `47` are debits, every other code is neither.
pub open spec fn tone_of(code: Seq<char>) -> Tone {
    if code == seq!['2', '2'] || code == seq!['3', '2'] || code == seq!['4', '2'] || code == seq![
        '5',
        '2',
    ] {
        Tone::Credit
    } else if code == seq!['2', '7'] || code == seq!['3', '7'] || code == seq!['4', '7'] {
        Tone::Debit
    } else {
        Tone::Neutral
    }
}

/// Tells the tone of a transaction code.
pub fn transaction_tone(code: &str) -> (tone: Tone)
    ensures
        tone == tone_of(code@),
{
    let chars = chars_of(code);
    if chars.len() != 2 {
        return Tone::Neutral;
    }
    let kind = chars[0];
    let way = chars[1];
    proof {
        assert(chars@ =~= seq![kind, way]);
        assert(seq!['2', '2'][0] == '2' && seq!['2', '2'][1] == '2');
        assert(seq!['3', '2'][0] == '3' && seq!['3', '2'][1] == '2');
        assert(seq!['4', '2'][0] == '4' && seq!['4', '2'][1] == '2');
        assert(seq!['5', '2'][0] == '5' && seq!['5', '2'][1] == '2');
        assert(seq!['2', '7'][0] == '2' && seq!['2', '7'][1] == '7');
        assert(seq!['3', '7'][0] == '3' && seq!['3', '7'][1] == '7');
        assert(seq!['4', '7'][0] == '4' && seq!['4', '7'][1] == '7');
    }
    if way == '2' && (kind == '2' || kind == '3' || kind == '4' || kind == '5') {
        Tone::Credit
    } else if way == '7' && (kind == '2' || kind == '3' || kind == '4') {
        Tone::Debit
    } else {
        Tone::Neutral
    }
}

/// Appends `n` in base ten to `s`.
pub fn push_decimal(s: &mut String, n: u64)
    ensures
        final(s)@ == old(s)@ + decimal_digits(n as nat),
    decreases n,
{
    if n >= 10 {
        push_decimal(s, n / 10);
    }
    s.push(digit_to_char((n % 10) as u8));
    assert(final(s)@ =~= old(s)@ + decimal_digits(n as nat));
}

/// What the addenda cell of an entry with `n` addenda shows: the number,
/// or nothing where there are none.
pub open spec fn addenda_label(n: nat) -> Seq<char> {
    if n > 0 {
        decimal_digits(n)
    } else {
        Seq::empty()
    }
}

/// The cells of an entry's row.
#[derive(Debug)]
pub struct EntryRow {
    pub counter: String,
    pub transaction_code: String,
    pub individual_name: String,
    pub dfi_account_number: String,
    pub trace_number: String,
    pub amount: String,
    pub addenda: String,
    pub tone: Tone,
}

/// The row of a numbered entry: its ordinal, four of its fields as they
/// are, its amount as dollars and cents, the number of its addenda, and the
/// tone of its transaction code.
pub fn entry_row(e: &DetailEntryWithCounter) -> (row: EntryRow)
    ensures
        row.counter@ == decimal_digits(e.counter as nat),
        row.transaction_code@ == e.entry.transaction_code@,
        row.individual_name@ == e.entry.individual_name@,
        row.dfi_account_number@ == e.entry.dfi_account_number@,
        row.trace_number@ == e.entry.trace_number@,
        row.amount@ == dollars_cents(e.entry.amount as nat),
        row.addenda@ == addenda_label(e.entry.addenda@.len()),
        row.tone == tone_of(e.entry.transaction_code@),
{
    let mut counter = String::new();
    push_decimal(&mut counter, e.counter as u64);
    let mut addenda = String::new();
    if e.entry.addenda.len() > 0 {
        push_decimal(&mut addenda, e.entry.addenda.len() as u64);
    }
    assert(counter@ =~= decimal_digits(e.counter as nat));
    assert(addenda@ =~= addenda_label(e.entry.addenda@.len()));
    EntryRow {
        counter,
        transaction_code: e.entry.transaction_code.clone(),
        individual_name: e.entry.individual_name.clone(),
        dfi_account_number: e.entry.dfi_account_number.clone(),
        trace_number: e.entry.trace_number.clone(),
        amount: pretty_dollars_cents(e.entry.amount),
        addenda,
        tone: transaction_tone(e.entry.transaction_code.as_str()),
    }
}

/// The cells of an addendum's row.
#[derive(Debug)]
pub struct AddendumRow {
    pub addenda_type_code: String,
    pub payment_related_info: String,
    pub addenda_sequence_number: String,
    pub entry_detail_sequence_number: String,
}

/// The row of an addendum: four of its fields as they are.
pub fn addendum_row(a: &Addendum) -> (row: AddendumRow)
    ensures
        row.addenda_type_code@ == a.addenda_type_code@,
        row.payment_related_info@ == a.payment_related_info@,
        row.addenda_sequence_number@ == a.addenda_sequence_number@,
        row.entry_detail_sequence_number@ == a.entry_detail_sequence_number@,
{
    AddendumRow {
        addenda_type_code: a.addenda_type_code.clone(),
        payment_related_info: a.payment_related_info.clone(),
        addenda_sequence_number: a.addenda_sequence_number.clone(),
        entry_detail_sequence_number: a.entry_detail_sequence_number.clone(),
    }
}

} // verus!
