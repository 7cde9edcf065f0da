//! The file header record.

use crate::date::{naive_date_from_str, naive_time_from_str, parse_date, parse_time, Date, Time};
use crate::error::{decoded, DecodeError};
use crate::text::{chars_of, field, text_field, RECORD_WIDTH};
use vstd::prelude::*;

verus! {

/// The file header record (code `1`): who sends the file to whom, and when it was made.
#[derive(Debug)]
pub struct FileHeader {
    pub record_type_code: String,
    pub priority_code: String,
    pub immediate_destination: String,
    pub immediate_origin: String,
    pub file_creation_date: Option<Date>,
    pub file_creation_time: Option<Time>,
    pub file_id_modifier: String,
    pub record_size: String,
    pub blocking_factor: String,
    pub format_code: String,
    pub immediate_destination_name: String,
    pub immediate_origin_name: String,
    pub reference_code: String,
}

/// What a [`FileHeader`] holds, as mathematical values.
pub struct FileHeaderView {
    pub record_type_code: Seq<char>,
    pub priority_code: Seq<char>,
    pub immediate_destination: Seq<char>,
    pub immediate_origin: Seq<char>,
    pub file_creation_date: Option<Date>,
    pub file_creation_time: Option<Time>,
    pub file_id_modifier: Seq<char>,
    pub record_size: Seq<char>,
    pub blocking_factor: Seq<char>,
    pub format_code: Seq<char>,
    pub immediate_destination_name: Seq<char>,
    pub immediate_origin_name: Seq<char>,
    pub reference_code: Seq<char>,
}

impl View for FileHeader {
    type V = FileHeaderView;

    open spec fn view(&self) -> FileHeaderView {
        FileHeaderView {
            record_type_code: self.record_type_code@,
            priority_code: self.priority_code@,
            immediate_destination: self.immediate_destination@,
            immediate_origin: self.immediate_origin@,
            file_creation_date: self.file_creation_date,
            file_creation_time: self.file_creation_time,
            file_id_modifier: self.file_id_modifier@,
            record_size: self.record_size@,
            blocking_factor: self.blocking_factor@,
            format_code: self.format_code@,
            immediate_destination_name: self.immediate_destination_name@,
            immediate_origin_name: self.immediate_origin_name@,
            reference_code: self.reference_code@,
        }
    }
}

/// What a line decodes to when it is read as a file header record, given
/// what was read of its creation date, columns 23 to 29, and of its
/// creation time, columns 29 to 33. Every other field is the trimmed text of
/// its columns.
pub open spec fn file_header_with(
    line: Seq<char>,
    file_creation_date: Option<Date>,
    file_creation_time: Option<Time>,
) -> Result<FileHeaderView, DecodeError> {
    if line.len() < RECORD_WIDTH {
        Err(DecodeError::FieldRange)
    } else {
        Ok(
            FileHeaderView {
                record_type_code: field(line, 0, 1),
                priority_code: field(line, 1, 3),
                immediate_destination: field(line, 3, 13),
                immediate_origin: field(line, 13, 23),
                file_creation_date,
                file_creation_time,
                file_id_modifier: field(line, 33, 34),
                record_size: field(line, 34, 37),
                blocking_factor: field(line, 37, 39),
                format_code: field(line, 39, 40),
                immediate_destination_name: field(line, 40, 63),
                immediate_origin_name: field(line, 63, 86),
                reference_code: field(line, 86, 94),
            },
        )
    }
}

/// What a line decodes to when it is read as a file header record. The
/// creation date is read as two digits each of year, month and day, the
/// creation time as two digits each of hour and minute; one that cannot be
/// read is absent.
pub open spec fn file_header_of(line: Seq<char>) -> Result<FileHeaderView, DecodeError> {
    file_header_with(
        line,
        naive_date_from_str(field(line, 23, 29), "%y%m%d"@),
        naive_time_from_str(field(line, 29, 33), "%H%M"@),
    )
}

/// A file header with nothing in it.
pub open spec fn blank_file_header() -> FileHeaderView {
    FileHeaderView {
        record_type_code: Seq::empty(),
        priority_code: Seq::empty(),
        immediate_destination: Seq::empty(),
        immediate_origin: Seq::empty(),
        file_creation_date: None,
        file_creation_time: None,
        file_id_modifier: Seq::empty(),
        record_size: Seq::empty(),
        blocking_factor: Seq::empty(),
        format_code: Seq::empty(),
        immediate_destination_name: Seq::empty(),
        immediate_origin_name: Seq::empty(),
        reference_code: Seq::empty(),
    }
}

impl FileHeader {
    /// A file header with nothing in it.
    pub fn new() -> (h: FileHeader)
        ensures
            h@ == blank_file_header(),
    {
        FileHeader {
            record_type_code: String::new(),
            priority_code: String::new(),
            immediate_destination: String::new(),
            immediate_origin: String::new(),
            file_creation_date: None,
            file_creation_time: None,
            file_id_modifier: String::new(),
            record_size: String::new(),
            blocking_factor: String::new(),
            format_code: String::new(),
            immediate_destination_name: String::new(),
            immediate_origin_name: String::new(),
            reference_code: String::new(),
        }
    }

    /// Decodes a file header from the characters of a line and from the
    /// creation date and time that were read from it.
    pub fn with_dates(
        line: &Vec<char>,
        file_creation_date: Option<Date>,
        file_creation_time: Option<Time>,
    ) -> (r: Result<FileHeader, DecodeError>)
        ensures
            decoded(r) == file_header_with(line@, file_creation_date, file_creation_time),
    {
        if line.len() < RECORD_WIDTH {
            return Err(DecodeError::FieldRange);
        }
        Ok(
            FileHeader {
                record_type_code: text_field(line, 0, 1),
                priority_code: text_field(line, 1, 3),
                immediate_destination: text_field(line, 3, 13),
                immediate_origin: text_field(line, 13, 23),
                file_creation_date,
                file_creation_time,
                file_id_modifier: text_field(line, 33, 34),
                record_size: text_field(line, 34, 37),
                blocking_factor: text_field(line, 37, 39),
                format_code: text_field(line, 39, 40),
                immediate_destination_name: text_field(line, 40, 63),
                immediate_origin_name: text_field(line, 63, 86),
                reference_code: text_field(line, 86, 94),
            },
        )
    }

    /// Decodes a file header from the characters of a line.
    pub fn from_chars(line: &Vec<char>) -> (r: Result<FileHeader, DecodeError>)
        ensures
            decoded(r) == file_header_of(line@),
    {
        if line.len() < RECORD_WIDTH {
            return Err(DecodeError::FieldRange);
        }
        let file_creation_date_text = text_field(line, 23, 29);
        let file_creation_time_text = text_field(line, 29, 33);
        let file_creation_date = parse_date(file_creation_date_text.as_str(), "%y%m%d");
        let file_creation_time = parse_time(file_creation_time_text.as_str(), "%H%M");
        Self::with_dates(line, file_creation_date, file_creation_time)
    }

    /// Decodes `line` as a file header and stores it in `self`. A line that
    /// does not decode leaves `self` as it was.
    pub fn parse(&mut self, line: String) -> (r: Result<(), DecodeError>)
        ensures
            match r {
                Ok(()) => file_header_of(line@) == Ok::<FileHeaderView, DecodeError>(
                    final(self)@,
                ),
                Err(e) => file_header_of(line@) == Err::<FileHeaderView, DecodeError>(e)
                    && *final(self) == *old(self),
            },
    {
        let chars = chars_of(line.as_str());
        match Self::from_chars(&chars) {
            Ok(h) => {
                *self = h;
                Ok(())
            },
            Err(e) => Err(e),
        }
    }
}

} // verus!
