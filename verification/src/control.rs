//! The file control record.

use crate::error::{decoded, DecodeError};
use crate::text::{chars_of, field, number_field, number_of, text_field, RECORD_WIDTH};
use vstd::prelude::*;

verus! {

/// The file control record (code `9`): the counts and totals of the whole file.
#[derive(Debug)]
pub struct FileControl {
    pub record_type_code: String,
    pub batch_count: u64,
    pub block_count: u64,
    pub entry_and_addenda_count: u64,
    pub entry_hash: String,
    pub total_debit: u64,
    pub total_credit: u64,
    pub reserved: String,
}

/// What a [`FileControl`] holds, as mathematical values.
pub struct FileControlView {
    pub record_type_code: Seq<char>,
    pub batch_count: u64,
    pub block_count: u64,
    pub entry_and_addenda_count: u64,
    pub entry_hash: Seq<char>,
    pub total_debit: u64,
    pub total_credit: u64,
    pub reserved: Seq<char>,
}

impl View for FileControl {
    type V = FileControlView;

    open spec fn view(&self) -> FileControlView {
        FileControlView {
            record_type_code: self.record_type_code@,
            batch_count: self.batch_count,
            block_count: self.block_count,
            entry_and_addenda_count: self.entry_and_addenda_count,
            entry_hash: self.entry_hash@,
            total_debit: self.total_debit,
            total_credit: self.total_credit,
            reserved: self.reserved@,
        }
    }
}

/// What a line decodes to when it is read as a file control record. The
/// counts and the totals are numbers; the entry hash and the reserved
/// columns are kept as text.
pub open spec fn file_control_of(line: Seq<char>) -> Result<FileControlView, DecodeError> {
    if line.len() < RECORD_WIDTH {
        Err(DecodeError::FieldRange)
    } else if number_of(field(line, 1, 7)) is None
        || number_of(field(line, 7, 13)) is None
        || number_of(field(line, 13, 21)) is None
        || number_of(field(line, 31, 43)) is None
        || number_of(field(line, 43, 55)) is None {
        Err(DecodeError::FieldFormat)
    } else {
        Ok(
            FileControlView {
                record_type_code: field(line, 0, 1),
                batch_count: number_of(field(line, 1, 7))->0,
                block_count: number_of(field(line, 7, 13))->0,
                entry_and_addenda_count: number_of(field(line, 13, 21))->0,
                entry_hash: field(line, 21, 31),
                total_debit: number_of(field(line, 31, 43))->0,
                total_credit: number_of(field(line, 43, 55))->0,
                reserved: field(line, 55, 94),
            },
        )
    }
}

/// A file control with no text and every number zero.
pub open spec fn blank_file_control() -> FileControlView {
    FileControlView {
        record_type_code: Seq::empty(),
        batch_count: 0,
        block_count: 0,
        entry_and_addenda_count: 0,
        entry_hash: Seq::empty(),
        total_debit: 0,
        total_credit: 0,
        reserved: Seq::empty(),
    }
}

impl FileControl {
    /// A file control with no text and every number zero.
    pub fn new() -> (c: FileControl)
        ensures
            c@ == blank_file_control(),
    {
        FileControl {
            record_type_code: String::new(),
            batch_count: 0,
            block_count: 0,
            entry_and_addenda_count: 0,
            entry_hash: String::new(),
            total_debit: 0,
            total_credit: 0,
            reserved: String::new(),
        }
    }

    /// Decodes a file control record from the characters of a line.
    pub fn from_chars(line: &Vec<char>) -> (r: Result<FileControl, DecodeError>)
        ensures
            decoded(r) == file_control_of(line@),
    {
        if line.len() < RECORD_WIDTH {
            return Err(DecodeError::FieldRange);
        }
        let batch_count = number_field(line, 1, 7);
        let block_count = number_field(line, 7, 13);
        let entry_and_addenda_count = number_field(line, 13, 21);
        let total_debit = number_field(line, 31, 43);
        let total_credit = number_field(line, 43, 55);
        match (batch_count, block_count, entry_and_addenda_count, total_debit, total_credit) {
            (
                Some(batch_count),
                Some(block_count),
                Some(entry_and_addenda_count),
                Some(total_debit),
                Some(total_credit),
            ) => Ok(
                FileControl {
                    record_type_code: text_field(line, 0, 1),
                    batch_count,
                    block_count,
                    entry_and_addenda_count,
                    entry_hash: text_field(line, 21, 31),
                    total_debit,
                    total_credit,
                    reserved: text_field(line, 55, 94),
                },
            ),
            _ => Err(DecodeError::FieldFormat),
        }
    }

    /// Decodes `line` as a file control record and stores it in `self`. A
    /// line that does not decode leaves `self` as it was.
    pub fn parse(&mut self, line: String) -> (r: Result<(), DecodeError>)
        ensures
            match r {
                Ok(()) => file_control_of(line@) == Ok::<FileControlView, DecodeError>(
                    final(self)@,
                ),
                Err(e) => file_control_of(line@) == Err::<FileControlView, DecodeError>(e)
                    && *final(self) == *old(self),
            },
    {
        let chars = chars_of(line.as_str());
        match Self::from_chars(&chars) {
            Ok(c) => {
                *self = c;
                Ok(())
            },
            Err(e) => Err(e),
        }
    }
}

} // verus!
