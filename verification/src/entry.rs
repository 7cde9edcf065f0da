//! Detail entries and the addenda that hang from them.

use crate::error::{decoded, DecodeError};
use crate::text::{chars_of, field, number_field, number_of, text_field, RECORD_WIDTH};
use vstd::prelude::*;

verus! {

/// An addenda record (code `7`): free text that accompanies a detail entry.
#[derive(Debug)]
pub struct Addendum {
    pub record_type_code: String,
    pub addenda_type_code: String,
    pub payment_related_info: String,
    pub addenda_sequence_number: String,
    pub entry_detail_sequence_number: String,
}

/// What an [`Addendum`] holds, as mathematical values.
pub struct AddendumView {
    pub record_type_code: Seq<char>,
    pub addenda_type_code: Seq<char>,
    pub payment_related_info: Seq<char>,
    pub addenda_sequence_number: Seq<char>,
    pub entry_detail_sequence_number: Seq<char>,
}

impl View for Addendum {
    type V = AddendumView;

    open spec fn view(&self) -> AddendumView {
        AddendumView {
            record_type_code: self.record_type_code@,
            addenda_type_code: self.addenda_type_code@,
            payment_related_info: self.payment_related_info@,
            addenda_sequence_number: self.addenda_sequence_number@,
            entry_detail_sequence_number: self.entry_detail_sequence_number@,
        }
    }
}

/// What a line decodes to when it is read as an addenda record: each field
/// is the trimmed text of its columns.
pub open spec fn addendum_of(line: Seq<char>) -> Result<AddendumView, DecodeError> {
    if line.len() < RECORD_WIDTH {
        Err(DecodeError::FieldRange)
    } else {
        Ok(
            AddendumView {
                record_type_code: field(line, 0, 1),
                addenda_type_code: field(line, 1, 3),
                payment_related_info: field(line, 3, 83),
                addenda_sequence_number: field(line, 83, 87),
                entry_detail_sequence_number: field(line, 87, 94),
            },
        )
    }
}

impl Addendum {
    /// Decodes an addenda record from the characters of a line.
    pub fn from_chars(line: &Vec<char>) -> (r: Result<Addendum, DecodeError>)
        ensures
            decoded(r) == addendum_of(line@),
    {
        if line.len() < RECORD_WIDTH {
            return Err(DecodeError::FieldRange);
        }
        Ok(
            Addendum {
                record_type_code: text_field(line, 0, 1),
                addenda_type_code: text_field(line, 1, 3),
                payment_related_info: text_field(line, 3, 83),
                addenda_sequence_number: text_field(line, 83, 87),
                entry_detail_sequence_number: text_field(line, 87, 94),
            },
        )
    }

    /// Decodes an addenda record from a line.
    pub fn parse(line: String) -> (r: Result<Addendum, DecodeError>)
        ensures
            decoded(r) == addendum_of(line@),
    {
        let chars = chars_of(line.as_str());
        Self::from_chars(&chars)
    }
}

impl Clone for Addendum {
    fn clone(&self) -> (r: Self)
        ensures
            r == *self,
    {
        Addendum {
            record_type_code: self.record_type_code.clone(),
            addenda_type_code: self.addenda_type_code.clone(),
            payment_related_info: self.payment_related_info.clone(),
            addenda_sequence_number: self.addenda_sequence_number.clone(),
            entry_detail_sequence_number: self.entry_detail_sequence_number.clone(),
        }
    }
}

/// An entry detail record (code `6`): one debit or credit, with the addenda that follow it.
#[derive(Debug)]
pub struct DetailEntry {
    pub record_type_code: String,
    pub transaction_code: String,
    pub receiving_dfi_id: String,
    pub check_digit: String,
    pub dfi_account_number: String,
    pub amount: u64,
    pub individual_id_number: String,
    pub individual_name: String,
    pub discretionary_data: String,
    pub addenda_record_indicator: String,
    pub trace_number: String,
    pub addenda: Vec<Addendum>,
}

/// What a [`DetailEntry`] holds, as mathematical values.
pub struct DetailEntryView {
    pub record_type_code: Seq<char>,
    pub transaction_code: Seq<char>,
    pub receiving_dfi_id: Seq<char>,
    pub check_digit: Seq<char>,
    pub dfi_account_number: Seq<char>,
    pub amount: u64,
    pub individual_id_number: Seq<char>,
    pub individual_name: Seq<char>,
    pub discretionary_data: Seq<char>,
    pub addenda_record_indicator: Seq<char>,
    pub trace_number: Seq<char>,
    pub addenda: Seq<AddendumView>,
}

impl View for DetailEntry {
    type V = DetailEntryView;

    open spec fn view(&self) -> DetailEntryView {
        DetailEntryView {
            record_type_code: self.record_type_code@,
            transaction_code: self.transaction_code@,
            receiving_dfi_id: self.receiving_dfi_id@,
            check_digit: self.check_digit@,
            dfi_account_number: self.dfi_account_number@,
            amount: self.amount,
            individual_id_number: self.individual_id_number@,
            individual_name: self.individual_name@,
            discretionary_data: self.discretionary_data@,
            addenda_record_indicator: self.addenda_record_indicator@,
            trace_number: self.trace_number@,
            addenda: self.addenda@.map_values(|a: Addendum| a@),
        }
    }
}

/// What a line decodes to when it is read as an entry detail record. The
/// amount, columns 29 to 39, is a number of cents; the other fields are the
/// trimmed text of their columns. A fresh entry has no addenda.
pub open spec fn detail_entry_of(line: Seq<char>) -> Result<DetailEntryView, DecodeError> {
    if line.len() < RECORD_WIDTH {
        Err(DecodeError::FieldRange)
    } else if number_of(field(line, 29, 39)) is None {
        Err(DecodeError::FieldFormat)
    } else {
        Ok(
            DetailEntryView {
                record_type_code: field(line, 0, 1),
                transaction_code: field(line, 1, 3),
                receiving_dfi_id: field(line, 3, 11),
                check_digit: field(line, 11, 12),
                dfi_account_number: field(line, 12, 29),
                amount: number_of(field(line, 29, 39))->0,
                individual_id_number: field(line, 39, 54),
                individual_name: field(line, 54, 76),
                discretionary_data: field(line, 76, 78),
                addenda_record_indicator: field(line, 78, 79),
                trace_number: field(line, 79, 94),
                addenda: Seq::empty(),
            },
        )
    }
}

/// The entry `e` with the addendum `a` appended to its addenda.
pub open spec fn with_addendum(e: DetailEntryView, a: AddendumView) -> DetailEntryView {
    DetailEntryView { addenda: e.addenda.push(a), ..e }
}

impl DetailEntry {
    /// Decodes an entry detail record from the characters of a line.
    pub fn from_chars(line: &Vec<char>) -> (r: Result<DetailEntry, DecodeError>)
        ensures
            decoded(r) == detail_entry_of(line@),
    {
        if line.len() < RECORD_WIDTH {
            return Err(DecodeError::FieldRange);
        }
        match number_field(line, 29, 39) {
            Some(amount) => {
                let entry = DetailEntry {
                    record_type_code: text_field(line, 0, 1),
                    transaction_code: text_field(line, 1, 3),
                    receiving_dfi_id: text_field(line, 3, 11),
                    check_digit: text_field(line, 11, 12),
                    dfi_account_number: text_field(line, 12, 29),
                    amount,
                    individual_id_number: text_field(line, 39, 54),
                    individual_name: text_field(line, 54, 76),
                    discretionary_data: text_field(line, 76, 78),
                    addenda_record_indicator: text_field(line, 78, 79),
                    trace_number: text_field(line, 79, 94),
                    addenda: Vec::new(),
                };
                assert(entry@.addenda =~= Seq::empty());
                Ok(entry)
            },
            None => Err(DecodeError::FieldFormat),
        }
    }

    /// Decodes an entry detail record from a line.
    pub fn parse(line: String) -> (r: Result<DetailEntry, DecodeError>)
        ensures
            decoded(r) == detail_entry_of(line@),
    {
        let chars = chars_of(line.as_str());
        Self::from_chars(&chars)
    }

    /// Appends an already decoded addendum to the entry.
    pub fn push_addendum(&mut self, addendum: Addendum)
        ensures
            final(self)@ == with_addendum(old(self)@, addendum@),
    {
        self.addenda.push(addendum);
        assert(final(self)@.addenda =~= old(self)@.addenda.push(addendum@));
    }

    /// Decodes `line` as an addenda record and appends it to the entry. A
    /// line that does not decode leaves the entry as it was.
    pub fn add_addenda(&mut self, line: String) -> (r: Result<(), DecodeError>)
        ensures
            match r {
                Ok(()) => addendum_of(line@) matches Ok(a) && final(self)@ == with_addendum(
                    old(self)@,
                    a,
                ),
                Err(e) => addendum_of(line@) == Err::<AddendumView, DecodeError>(e) && *final(self)
                    == *old(self),
            },
    {
        match Addendum::parse(line) {
            Ok(addendum) => {
                self.push_addendum(addendum);
                Ok(())
            },
            Err(e) => Err(e),
        }
    }

    /// Whether any addenda hang from the entry.
    pub fn has_addenda(&self) -> (b: bool)
        ensures
            b == (self@.addenda.len() > 0),
    {
        self.addenda.len() > 0
    }
}

impl Clone for DetailEntry {
    fn clone(&self) -> (r: Self)
        ensures
            r@ == self@,
    {
        let mut addenda: Vec<Addendum> = Vec::new();
        let mut i: usize = 0;
        while i < self.addenda.len()
            invariant
                i <= self.addenda@.len(),
                addenda@ == self.addenda@.take(i as int),
            decreases self.addenda@.len() - i,
        {
            addenda.push(self.addenda[i].clone());
            i += 1;
            assert(self.addenda@.take(i as int) =~= self.addenda@.take(i - 1).push(
                self.addenda@[i - 1],
            ));
        }
        assert(self.addenda@.take(i as int) =~= self.addenda@);
        DetailEntry {
            record_type_code: self.record_type_code.clone(),
            transaction_code: self.transaction_code.clone(),
            receiving_dfi_id: self.receiving_dfi_id.clone(),
            check_digit: self.check_digit.clone(),
            dfi_account_number: self.dfi_account_number.clone(),
            amount: self.amount,
            individual_id_number: self.individual_id_number.clone(),
            individual_name: self.individual_name.clone(),
            discretionary_data: self.discretionary_data.clone(),
            addenda_record_indicator: self.addenda_record_indicator.clone(),
            trace_number: self.trace_number.clone(),
            addenda,
        }
    }
}

} // verus!
