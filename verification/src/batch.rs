//! Batches: a header, the entries that follow it, and the control record
//! that closes it.

use crate::date::{naive_date_from_str, parse_date, Date};
use crate::entry::{
    detail_entry_of, with_addendum, Addendum, AddendumView, DetailEntry,
    DetailEntryView,
};
use crate::error::{decoded, DecodeError};
use crate::text::{chars_of, field, number_field, number_of, text_field, RECORD_WIDTH};
use vstd::prelude::*;

verus! {

/// The batch header record (code `5`): the company that originates the
/// batch and the class of its entries.
#[derive(Debug)]
pub struct BatchHeader {
    pub record_type_code: String,
    pub service_class_code: String,
    pub company_name: String,
    pub company_discretionary_data: String,
    pub company_id: String,
    pub standard_entry_class_code: String,
    pub company_entry_description: String,
    pub company_descriptive_date: String,
    pub effective_entry_date: Option<Date>,
    pub settlement_date: Option<Date>,
    pub originator_status_code: String,
    pub originating_dfi_id: String,
    pub batch_number: String,
}

/// What a [`BatchHeader`] holds, as mathematical values.
pub struct BatchHeaderView {
    pub record_type_code: Seq<char>,
    pub service_class_code: Seq<char>,
    pub company_name: Seq<char>,
    pub company_discretionary_data: Seq<char>,
    pub company_id: Seq<char>,
    pub standard_entry_class_code: Seq<char>,
    pub company_entry_description: Seq<char>,
    pub company_descriptive_date: Seq<char>,
    pub effective_entry_date: Option<Date>,
    pub settlement_date: Option<Date>,
    pub originator_status_code: Seq<char>,
    pub originating_dfi_id: Seq<char>,
    pub batch_number: Seq<char>,
}

impl View for BatchHeader {
    type V = BatchHeaderView;

    open spec fn view(&self) -> BatchHeaderView {
        BatchHeaderView {
            record_type_code: self.record_type_code@,
            service_class_code: self.service_class_code@,
            company_name: self.company_name@,
            company_discretionary_data: self.company_discretionary_data@,
            company_id: self.company_id@,
            standard_entry_class_code: self.standard_entry_class_code@,
            company_entry_description: self.company_entry_description@,
            company_descriptive_date: self.company_descriptive_date@,
            effective_entry_date: self.effective_entry_date,
            settlement_date: self.settlement_date,
            originator_status_code: self.originator_status_code@,
            originating_dfi_id: self.originating_dfi_id@,
            batch_number: self.batch_number@,
        }
    }
}

/// What a line decodes to when it is read as a batch header record, given
/// what was read of its effective entry date, columns 69 to 75, and of its
/// settlement date, columns 75 to 78. Every other field is the trimmed text
/// of its columns.
pub open spec fn batch_header_with(
    line: Seq<char>,
    effective_entry_date: Option<Date>,
    settlement_date: Option<Date>,
) -> Result<BatchHeaderView, DecodeError> {
    if line.len() < RECORD_WIDTH {
        Err(DecodeError::FieldRange)
    } else {
        Ok(
            BatchHeaderView {
                record_type_code: field(line, 0, 1),
                service_class_code: field(line, 1, 4),
                company_name: field(line, 4, 20),
                company_discretionary_data: field(line, 20, 40),
                company_id: field(line, 40, 50),
                standard_entry_class_code: field(line, 50, 53),
                company_entry_description: field(line, 53, 63),
                company_descriptive_date: field(line, 63, 69),
                effective_entry_date,
                settlement_date,
                originator_status_code: field(line, 78, 79),
                originating_dfi_id: field(line, 79, 87),
                batch_number: field(line, 87, 94),
            },
        )
    }
}

/// What a line decodes to when it is read as a batch header record. Both
/// dates are read as two digits each of year, month and day; one that
/// cannot be read is absent.
pub open spec fn batch_header_of(line: Seq<char>) -> Result<BatchHeaderView, DecodeError> {
    batch_header_with(
        line,
        naive_date_from_str(field(line, 69, 75), "%y%m%d"@),
        naive_date_from_str(field(line, 75, 78), "%y%m%d"@),
    )
}

impl BatchHeader {
    /// Decodes a batch header from the characters of a line and from the two
    /// dates that were read from it.
    pub fn with_dates(
        line: &Vec<char>,
        effective_entry_date: Option<Date>,
        settlement_date: Option<Date>,
    ) -> (r: Result<BatchHeader, DecodeError>)
        ensures
            decoded(r) == batch_header_with(line@, effective_entry_date, settlement_date),
    {
        if line.len() < RECORD_WIDTH {
            return Err(DecodeError::FieldRange);
        }
        Ok(
            BatchHeader {
                record_type_code: text_field(line, 0, 1),
                service_class_code: text_field(line, 1, 4),
                company_name: text_field(line, 4, 20),
                company_discretionary_data: text_field(line, 20, 40),
                company_id: text_field(line, 40, 50),
                standard_entry_class_code: text_field(line, 50, 53),
                company_entry_description: text_field(line, 53, 63),
                company_descriptive_date: text_field(line, 63, 69),
                effective_entry_date,
                settlement_date,
                originator_status_code: text_field(line, 78, 79),
                originating_dfi_id: text_field(line, 79, 87),
                batch_number: text_field(line, 87, 94),
            },
        )
    }

    /// Decodes a batch header from the characters of a line.
    pub fn from_chars(line: &Vec<char>) -> (r: Result<BatchHeader, DecodeError>)
        ensures
            decoded(r) == batch_header_of(line@),
    {
        if line.len() < RECORD_WIDTH {
            return Err(DecodeError::FieldRange);
        }
        let effective_entry_date_text = text_field(line, 69, 75);
        let settlement_date_text = text_field(line, 75, 78);
        let effective_entry_date = parse_date(effective_entry_date_text.as_str(), "%y%m%d");
        let settlement_date = parse_date(settlement_date_text.as_str(), "%y%m%d");
        Self::with_dates(line, effective_entry_date, settlement_date)
    }

    /// Decodes a batch header from a line.
    pub fn parse(line: String) -> (r: Result<BatchHeader, DecodeError>)
        ensures
            decoded(r) == batch_header_of(line@),
    {
        let chars = chars_of(line.as_str());
        Self::from_chars(&chars)
    }
}

/// The batch control record (code `8`): the counts and totals of one batch.
#[derive(Debug)]
pub struct BatchControl {
    pub record_type_code: String,
    pub service_class_code: String,
    pub entry_and_addenda_count: u64,
    pub entry_hash: String,
    pub total_debit: u64,
    pub total_credit: u64,
    pub company_id: String,
    pub message_authentication_code: String,
    pub reserved: String,
    pub originating_dfi_id: String,
    pub batch_number: String,
}

/// What a [`BatchControl`] holds, as mathematical values.
pub struct BatchControlView {
    pub record_type_code: Seq<char>,
    pub service_class_code: Seq<char>,
    pub entry_and_addenda_count: u64,
    pub entry_hash: Seq<char>,
    pub total_debit: u64,
    pub total_credit: u64,
    pub company_id: Seq<char>,
    pub message_authentication_code: Seq<char>,
    pub reserved: Seq<char>,
    pub originating_dfi_id: Seq<char>,
    pub batch_number: Seq<char>,
}

impl View for BatchControl {
    type V = BatchControlView;

    open spec fn view(&self) -> BatchControlView {
        BatchControlView {
            record_type_code: self.record_type_code@,
            service_class_code: self.service_class_code@,
            entry_and_addenda_count: self.entry_and_addenda_count,
            entry_hash: self.entry_hash@,
            total_debit: self.total_debit,
            total_credit: self.total_credit,
            company_id: self.company_id@,
            message_authentication_code: self.message_authentication_code@,
            reserved: self.reserved@,
            originating_dfi_id: self.originating_dfi_id@,
            batch_number: self.batch_number@,
        }
    }
}

/// What a line decodes to when it is read as a batch control record. The
/// count and the totals are numbers; every other field is the trimmed text
/// of its columns.
pub open spec fn batch_control_of(line: Seq<char>) -> Result<BatchControlView, DecodeError> {
    if line.len() < RECORD_WIDTH {
        Err(DecodeError::FieldRange)
    } else if number_of(field(line, 4, 10)) is None
        || number_of(field(line, 20, 32)) is None
        || number_of(field(line, 32, 44)) is None {
        Err(DecodeError::FieldFormat)
    } else {
        Ok(
            BatchControlView {
                record_type_code: field(line, 0, 1),
                service_class_code: field(line, 1, 4),
                entry_and_addenda_count: number_of(field(line, 4, 10))->0,
                entry_hash: field(line, 10, 20),
                total_debit: number_of(field(line, 20, 32))->0,
                total_credit: number_of(field(line, 32, 44))->0,
                company_id: field(line, 44, 54),
                message_authentication_code: field(line, 54, 73),
                reserved: field(line, 73, 79),
                originating_dfi_id: field(line, 79, 87),
                batch_number: field(line, 87, 94),
            },
        )
    }
}

impl BatchControl {
    /// Decodes a batch control record from the characters of a line.
    pub fn from_chars(line: &Vec<char>) -> (r: Result<BatchControl, DecodeError>)
        ensures
            decoded(r) == batch_control_of(line@),
    {
        if line.len() < RECORD_WIDTH {
            return Err(DecodeError::FieldRange);
        }
        let entry_and_addenda_count = number_field(line, 4, 10);
        let total_debit = number_field(line, 20, 32);
        let total_credit = number_field(line, 32, 44);
        match (entry_and_addenda_count, total_debit, total_credit) {
            (Some(entry_and_addenda_count), Some(total_debit), Some(total_credit)) => Ok(
                BatchControl {
                    record_type_code: text_field(line, 0, 1),
                    service_class_code: text_field(line, 1, 4),
                    entry_and_addenda_count,
                    entry_hash: text_field(line, 10, 20),
                    total_debit,
                    total_credit,
                    company_id: text_field(line, 44, 54),
                    message_authentication_code: text_field(line, 54, 73),
                    reserved: text_field(line, 73, 79),
                    originating_dfi_id: text_field(line, 79, 87),
                    batch_number: text_field(line, 87, 94),
                },
            ),
            _ => Err(DecodeError::FieldFormat),
        }
    }

    /// Decodes a batch control record from a line.
    pub fn parse(line: String) -> (r: Result<BatchControl, DecodeError>)
        ensures
            decoded(r) == batch_control_of(line@),
    {
        let chars = chars_of(line.as_str());
        Self::from_chars(&chars)
    }
}

/// A batch of the file: its header, its entries in the order in which they
/// were read, and its control record once that has been read.
#[derive(Debug)]
pub struct Batch {
    pub batch_header: BatchHeader,
    pub detail_entries: Vec<DetailEntry>,
    pub batch_control: Option<BatchControl>,
}

/// What a [`Batch`] holds, as mathematical values.
pub struct BatchView {
    pub batch_header: BatchHeaderView,
    pub detail_entries: Seq<DetailEntryView>,
    pub batch_control: Option<BatchControlView>,
}

impl View for Batch {
    type V = BatchView;

    open spec fn view(&self) -> BatchView {
        BatchView {
            batch_header: self.batch_header@,
            detail_entries: self.detail_entries@.map_values(|e: DetailEntry| e@),
            batch_control: match self.batch_control {
                Some(c) => Some(c@),
                None => None,
            },
        }
    }
}

/// A batch that has just been opened by `header`.
pub open spec fn opened_batch(header: BatchHeaderView) -> BatchView {
    BatchView { batch_header: header, detail_entries: Seq::empty(), batch_control: None }
}

/// The batch `b` with the entry `e` appended to its entries.
pub open spec fn batch_with_entry(b: BatchView, e: DetailEntryView) -> BatchView {
    BatchView { detail_entries: b.detail_entries.push(e), ..b }
}

/// The batch `b` with the addendum `a` appended to its last entry. A batch
/// without entries stays as it is.
pub open spec fn batch_with_addendum(b: BatchView, a: AddendumView) -> BatchView {
    if b.detail_entries.len() == 0 {
        b
    } else {
        BatchView {
            detail_entries: b.detail_entries.update(
                b.detail_entries.len() - 1,
                with_addendum(b.detail_entries.last(), a),
            ),
            ..b
        }
    }
}

/// The batch `b` closed by the control record `c`.
pub open spec fn batch_with_control(b: BatchView, c: BatchControlView) -> BatchView {
    BatchView { batch_control: Some(c), ..b }
}

impl Batch {
    /// Opens a batch: the header, no entries and no control record yet.
    pub fn open(header: BatchHeader) -> (b: Batch)
        ensures
            b@ == opened_batch(header@),
    {
        let b = Batch { batch_header: header, detail_entries: Vec::new(), batch_control: None };
        assert(b@.detail_entries =~= Seq::empty());
        b
    }

    /// Appends an already decoded entry to the batch.
    pub fn push_entry(&mut self, entry: DetailEntry)
        ensures
            final(self)@ == batch_with_entry(old(self)@, entry@),
    {
        self.detail_entries.push(entry);
        assert(final(self)@.detail_entries =~= old(self)@.detail_entries.push(entry@));
    }

    /// Decodes `line` as an entry detail record and appends it to the
    /// batch. A line that does not decode leaves the batch as it was.
    pub fn new_entry(&mut self, line: String) -> (r: Result<(), DecodeError>)
        ensures
            match r {
                Ok(()) => detail_entry_of(line@) matches Ok(e) && final(self)@
                    == batch_with_entry(old(self)@, e),
                Err(e) => detail_entry_of(line@) == Err::<DetailEntryView, DecodeError>(e)
                    && *final(self) == *old(self),
            },
    {
        match DetailEntry::parse(line) {
            Ok(entry) => {
                self.push_entry(entry);
                Ok(())
            },
            Err(e) => Err(e),
        }
    }

    /// Appends an already decoded addendum to the last entry of the batch.
    /// A batch without entries stays as it is.
    pub fn push_addendum(&mut self, addendum: Addendum)
        ensures
            final(self)@ == batch_with_addendum(old(self)@, addendum@),
    {
        if self.detail_entries.len() == 0 {
            return ;
        }
        let last = self.detail_entries.len() - 1;
        self.detail_entries[last].push_addendum(addendum);
        assert(final(self)@.detail_entries =~= old(self)@.detail_entries.update(
            last as int,
            with_addendum(old(self)@.detail_entries.last(), addendum@),
        ));
    }

    /// Closes the batch with an already decoded control record.
    pub fn set_control(&mut self, control: BatchControl)
        ensures
            final(self)@ == batch_with_control(old(self)@, control@),
    {
        self.batch_control = Some(control);
    }

    /// The entry that was appended last.
    pub fn last_entry(&mut self) -> (e: &mut DetailEntry)
        requires
            old(self)@.detail_entries.len() > 0,
        ensures
            *e == old(self).detail_entries@.last(),
            final(self).batch_header == old(self).batch_header,
            final(self).batch_control == old(self).batch_control,
            final(self).detail_entries@ == old(self).detail_entries@.update(
                old(self).detail_entries@.len() - 1,
                *final(e),
            ),
    {
        let last = self.detail_entries.len() - 1;
        &mut self.detail_entries[last]
    }
}

} // verus!
