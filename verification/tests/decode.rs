use nacha::batch::{BatchControl, BatchHeader};
use nacha::control::FileControl;
use nacha::date::{Date, Time};
use nacha::entry::{Addendum, DetailEntry};
use nacha::error::DecodeError;
use nacha::header::FileHeader;
use nacha::text::{chars_of, number_field, split_lines, text_field};

fn header_line(date: &str, time: &str) -> String {
    format!(
        "{:<1}{:<2}{:<10}{:<10}{:<6}{:<4}{:<1}{:<3}{:<2}{:<1}{:<23}{:<23}{:<8}",
        "1", "01", " 123456789", " 987654321", date, time, "A", "094", "10", "1",
        "DEST BANK", "ORIGIN CO", "REF00001"
    )
}

fn batch_line(effective: &str, settlement: &str) -> String {
    format!(
        "{:<1}{:<3}{:<16}{:<20}{:<10}{:<3}{:<10}{:<6}{:<6}{:<3}{:<1}{:<8}{:<7}",
        "5", "200", "ACME CORP", "DISCRETIONARY", "1234567890", "PPD", "PAYROLL", "JAN 15",
        effective, settlement, "1", "12345678", "0000001"
    )
}

fn entry_line(amount: &str) -> String {
    format!(
        "{:<1}{:<2}{:<8}{:<1}{:<17}{:<10}{:<15}{:<22}{:<2}{:<1}{:<15}",
        "6", "22", "12345678", "0", "0123456789", amount, "ID0001", "JANE DOE", "DD", "1",
        "123456780000001"
    )
}

fn addendum_line(info: &str) -> String {
    format!("{:<1}{:<2}{:<80}{:<4}{:<7}", "7", "05", info, "0001", "0000001")
}

fn batch_control_line(count: &str, debit: &str, credit: &str) -> String {
    format!(
        "{:<1}{:<3}{:<6}{:<10}{:<12}{:<12}{:<10}{:<19}{:<6}{:<8}{:<7}",
        "8", "200", count, "0012345678", debit, credit, "1234567890", "", "", "12345678",
        "0000001"
    )
}

fn file_control_line(batches: &str, blocks: &str, entries: &str, debit: &str, credit: &str) -> String {
    format!(
        "{:<1}{:<6}{:<6}{:<8}{:<10}{:<12}{:<12}{:<39}",
        "9", batches, blocks, entries, "0012345678", debit, credit, ""
    )
}

#[test]
fn sample_lines_are_94_wide() {
    assert_eq!(header_line("230115", "1230").len(), 94);
    assert_eq!(batch_line("230116", "017").len(), 94);
    assert_eq!(entry_line("0000001000").len(), 94);
    assert_eq!(addendum_line("INVOICE 42").len(), 94);
    assert_eq!(batch_control_line("000002", "000000000000", "000000001000").len(), 94);
    assert_eq!(
        file_control_line("000001", "000001", "00000002", "000000000000", "000000001000").len(),
        94
    );
}

#[test]
fn file_header_fields_are_trimmed_text() {
    let mut h = FileHeader::new();
    assert_eq!(h.parse(header_line("230115", "1230")), Ok(()));
    assert_eq!(h.record_type_code, "1");
    assert_eq!(h.priority_code, "01");
    assert_eq!(h.immediate_destination, "123456789");
    assert_eq!(h.immediate_origin, "987654321");
    assert_eq!(h.file_id_modifier, "A");
    assert_eq!(h.record_size, "094");
    assert_eq!(h.blocking_factor, "10");
    assert_eq!(h.format_code, "1");
    assert_eq!(h.immediate_destination_name, "DEST BANK");
    assert_eq!(h.immediate_origin_name, "ORIGIN CO");
    assert_eq!(h.reference_code, "REF00001");
}

#[test]
fn file_header_reads_date_and_time() {
    let mut h = FileHeader::new();
    assert_eq!(h.parse(header_line("230115", "1230")), Ok(()));
    assert_eq!(h.file_creation_date, Some(Date { year: 2023, month: 1, day: 15 }));
    assert_eq!(h.file_creation_time, Some(Time { hour: 12, minute: 30 }));
}

#[test]
fn two_digit_years_from_70_are_in_the_last_century() {
    let h = FileHeader::from_chars(&chars_of(&header_line("991231", "2359"))).unwrap();
    assert_eq!(h.file_creation_date, Some(Date { year: 1999, month: 12, day: 31 }));
    assert_eq!(h.file_creation_time, Some(Time { hour: 23, minute: 59 }));
}

#[test]
fn unreadable_date_and_time_are_absent() {
    let mut h = FileHeader::new();
    assert_eq!(h.parse(header_line("231345", "2561")), Ok(()));
    assert_eq!(h.file_creation_date, None);
    assert_eq!(h.file_creation_time, None);
    assert_eq!(h.immediate_origin_name, "ORIGIN CO");
    let mut blank = FileHeader::new();
    assert_eq!(blank.parse(header_line("", "")), Ok(()));
    assert_eq!(blank.file_creation_date, None);
    assert_eq!(blank.file_creation_time, None);
}

#[test]
fn file_header_takes_the_dates_it_is_given() {
    let line = chars_of(&header_line("230115", "1230"));
    let date = Some(Date { year: 2001, month: 2, day: 3 });
    let time = Some(Time { hour: 4, minute: 5 });
    let h = FileHeader::with_dates(&line, date, time).unwrap();
    assert_eq!(h.file_creation_date, date);
    assert_eq!(h.file_creation_time, time);
    assert_eq!(h.immediate_destination, "123456789");
    let none = FileHeader::with_dates(&line, None, None).unwrap();
    assert_eq!(none.file_creation_date, None);
    assert_eq!(none.file_creation_time, None);
    assert_eq!(
        FileHeader::with_dates(&chars_of("1"), date, time).err(),
        Some(DecodeError::FieldRange)
    );
}

#[test]
fn short_file_header_leaves_the_header_alone() {
    let mut h = FileHeader::new();
    assert_eq!(h.parse(header_line("230115", "1230")), Ok(()));
    assert_eq!(h.parse("101 short".to_string()), Err(DecodeError::FieldRange));
    assert_eq!(h.immediate_destination_name, "DEST BANK");
    assert_eq!(h.file_creation_date, Some(Date { year: 2023, month: 1, day: 15 }));
}

#[test]
fn blank_file_header_is_blank() {
    let h = FileHeader::new();
    assert_eq!(h.record_type_code, "");
    assert_eq!(h.reference_code, "");
    assert_eq!(h.file_creation_date, None);
    assert_eq!(h.file_creation_time, None);
}

#[test]
fn batch_header_fields() {
    let b = BatchHeader::parse(batch_line("230116", "017")).unwrap();
    assert_eq!(b.record_type_code, "5");
    assert_eq!(b.service_class_code, "200");
    assert_eq!(b.company_name, "ACME CORP");
    assert_eq!(b.company_discretionary_data, "DISCRETIONARY");
    assert_eq!(b.company_id, "1234567890");
    assert_eq!(b.standard_entry_class_code, "PPD");
    assert_eq!(b.company_entry_description, "PAYROLL");
    assert_eq!(b.company_descriptive_date, "JAN 15");
    assert_eq!(b.effective_entry_date, Some(Date { year: 2023, month: 1, day: 16 }));
    assert_eq!(b.settlement_date, None);
    assert_eq!(b.originator_status_code, "1");
    assert_eq!(b.originating_dfi_id, "12345678");
    assert_eq!(b.batch_number, "0000001");
}

#[test]
fn batch_header_takes_the_dates_it_is_given() {
    let line = chars_of(&batch_line("230116", "017"));
    let d = Some(Date { year: 2030, month: 6, day: 7 });
    let b = BatchHeader::with_dates(&line, None, d).unwrap();
    assert_eq!(b.effective_entry_date, None);
    assert_eq!(b.settlement_date, d);
    assert_eq!(b.company_name, "ACME CORP");
}

#[test]
fn batch_header_too_short() {
    assert_eq!(BatchHeader::parse("5200ACME".to_string()).err(), Some(DecodeError::FieldRange));
}

#[test]
fn detail_entry_amount_is_cents() {
    let e = DetailEntry::parse(entry_line("0000001000")).unwrap();
    assert_eq!(e.amount, 1000);
    assert_eq!(e.record_type_code, "6");
    assert_eq!(e.transaction_code, "22");
    assert_eq!(e.receiving_dfi_id, "12345678");
    assert_eq!(e.check_digit, "0");
    assert_eq!(e.dfi_account_number, "0123456789");
    assert_eq!(e.individual_id_number, "ID0001");
    assert_eq!(e.individual_name, "JANE DOE");
    assert_eq!(e.discretionary_data, "DD");
    assert_eq!(e.addenda_record_indicator, "1");
    assert_eq!(e.trace_number, "123456780000001");
    assert!(e.addenda.is_empty());
    assert!(!e.has_addenda());
}

#[test]
fn detail_entry_largest_amount() {
    let e = DetailEntry::parse(entry_line("9999999999")).unwrap();
    assert_eq!(e.amount, 9_999_999_999);
}

#[test]
fn detail_entry_amount_may_be_padded_with_spaces() {
    let e = DetailEntry::parse(entry_line("    25    ")).unwrap();
    assert_eq!(e.amount, 25);
}

#[test]
fn detail_entry_bad_amount_is_a_format_error() {
    assert_eq!(DetailEntry::parse(entry_line("00000010A0")).err(), Some(DecodeError::FieldFormat));
    assert_eq!(DetailEntry::parse(entry_line("")).err(), Some(DecodeError::FieldFormat));
    assert_eq!(DetailEntry::parse(entry_line("-000000100")).err(), Some(DecodeError::FieldFormat));
    assert_eq!(DetailEntry::parse(entry_line("+000000100")).err(), Some(DecodeError::FieldFormat));
    assert_eq!(DetailEntry::parse(entry_line("12 34")).err(), Some(DecodeError::FieldFormat));
}

#[test]
fn short_line_is_a_range_error() {
    assert_eq!(DetailEntry::parse("6".to_string()).err(), Some(DecodeError::FieldRange));
    assert_eq!(DetailEntry::parse(String::new()).err(), Some(DecodeError::FieldRange));
    let mut almost = entry_line("0000001000");
    almost.pop();
    assert_eq!(almost.len(), 93);
    assert_eq!(DetailEntry::parse(almost).err(), Some(DecodeError::FieldRange));
}

#[test]
fn range_error_comes_before_format_error() {
    let mut line = entry_line("BAD AMOUNT");
    line.truncate(60);
    assert_eq!(DetailEntry::parse(line).err(), Some(DecodeError::FieldRange));
}

#[test]
fn columns_beyond_the_record_are_ignored() {
    let mut line = entry_line("0000001000");
    line.push_str("   trailing text");
    let e = DetailEntry::parse(line).unwrap();
    assert_eq!(e.trace_number, "123456780000001");
    assert_eq!(e.amount, 1000);
}

#[test]
fn columns_are_characters() {
    let line = format!("{:<1}{:<2}{:<80}{:<4}{:<7}", "7", "05", "CAFÉ MÜNCHEN", "0001", "0000001");
    assert_eq!(line.chars().count(), 94);
    let a = Addendum::parse(line).unwrap();
    assert_eq!(a.payment_related_info, "CAFÉ MÜNCHEN");
    assert_eq!(a.addenda_sequence_number, "0001");
    assert_eq!(a.entry_detail_sequence_number, "0000001");
}

#[test]
fn addendum_fields() {
    let a = Addendum::parse(addendum_line("  INVOICE 42 / PO 7  ")).unwrap();
    assert_eq!(a.record_type_code, "7");
    assert_eq!(a.addenda_type_code, "05");
    assert_eq!(a.payment_related_info, "INVOICE 42 / PO 7");
    assert_eq!(a.addenda_sequence_number, "0001");
    assert_eq!(a.entry_detail_sequence_number, "0000001");
    assert_eq!(Addendum::parse("705".to_string()).err(), Some(DecodeError::FieldRange));
}

#[test]
fn add_addenda_appends_in_order() {
    let mut e = DetailEntry::parse(entry_line("0000001000")).unwrap();
    assert_eq!(e.add_addenda(addendum_line("FIRST")), Ok(()));
    assert_eq!(e.add_addenda(addendum_line("SECOND")), Ok(()));
    assert_eq!(e.addenda.len(), 2);
    assert_eq!(e.addenda[0].payment_related_info, "FIRST");
    assert_eq!(e.addenda[1].payment_related_info, "SECOND");
    assert!(e.has_addenda());
    assert_eq!(e.add_addenda("7".to_string()), Err(DecodeError::FieldRange));
    assert_eq!(e.addenda.len(), 2);
    assert_eq!(e.amount, 1000);
}

#[test]
fn cloned_entry_keeps_everything() {
    let mut e = DetailEntry::parse(entry_line("0000001000")).unwrap();
    e.add_addenda(addendum_line("FIRST")).unwrap();
    let c = e.clone();
    assert_eq!(c.amount, 1000);
    assert_eq!(c.individual_name, "JANE DOE");
    assert_eq!(c.trace_number, "123456780000001");
    assert_eq!(c.addenda.len(), 1);
    assert_eq!(c.addenda[0].payment_related_info, "FIRST");
    let a = e.addenda[0].clone();
    assert_eq!(a.addenda_type_code, "05");
}

#[test]
fn batch_control_fields() {
    let c = BatchControl::parse(batch_control_line("000002", "000000000500", "000000001000"))
        .unwrap();
    assert_eq!(c.record_type_code, "8");
    assert_eq!(c.service_class_code, "200");
    assert_eq!(c.entry_and_addenda_count, 2);
    assert_eq!(c.entry_hash, "0012345678");
    assert_eq!(c.total_debit, 500);
    assert_eq!(c.total_credit, 1000);
    assert_eq!(c.company_id, "1234567890");
    assert_eq!(c.message_authentication_code, "");
    assert_eq!(c.reserved, "");
    assert_eq!(c.originating_dfi_id, "12345678");
    assert_eq!(c.batch_number, "0000001");
}

#[test]
fn batch_control_errors() {
    assert_eq!(
        BatchControl::parse(batch_control_line("00000X", "000000000500", "000000001000")).err(),
        Some(DecodeError::FieldFormat)
    );
    assert_eq!(
        BatchControl::parse(batch_control_line("000002", "", "000000001000")).err(),
        Some(DecodeError::FieldFormat)
    );
    assert_eq!(BatchControl::parse("8200".to_string()).err(), Some(DecodeError::FieldRange));
}

#[test]
fn file_control_fields() {
    let mut c = FileControl::new();
    assert_eq!(
        c.parse(file_control_line("000001", "000003", "00000002", "999999999999", "000000001000")),
        Ok(())
    );
    assert_eq!(c.record_type_code, "9");
    assert_eq!(c.batch_count, 1);
    assert_eq!(c.block_count, 3);
    assert_eq!(c.entry_and_addenda_count, 2);
    assert_eq!(c.entry_hash, "0012345678");
    assert_eq!(c.total_debit, 999_999_999_999);
    assert_eq!(c.total_credit, 1000);
    assert_eq!(c.reserved, "");
}

#[test]
fn blank_file_control_is_zero() {
    let c = FileControl::new();
    assert_eq!(c.record_type_code, "");
    assert_eq!(c.batch_count, 0);
    assert_eq!(c.block_count, 0);
    assert_eq!(c.entry_and_addenda_count, 0);
    assert_eq!(c.entry_hash, "");
    assert_eq!(c.total_debit, 0);
    assert_eq!(c.total_credit, 0);
    assert_eq!(c.reserved, "");
}

#[test]
fn file_control_errors_leave_it_alone() {
    let mut c = FileControl::new();
    c.parse(file_control_line("000001", "000003", "00000002", "000000000000", "000000001000"))
        .unwrap();
    assert_eq!(
        c.parse(file_control_line("00000A", "000003", "00000002", "000000000000", "000000001000")),
        Err(DecodeError::FieldFormat)
    );
    assert_eq!(
        c.parse(file_control_line("000001", "000003", "00000002", "000000000000", "1.00")),
        Err(DecodeError::FieldFormat)
    );
    assert_eq!(c.parse("9".to_string()), Err(DecodeError::FieldRange));
    assert_eq!(c.batch_count, 1);
    assert_eq!(c.total_credit, 1000);
}

#[test]
fn text_field_trims_both_ends() {
    let line = chars_of("ab  cd e\t \u{a0}fg");
    assert_eq!(text_field(&line, 2, 10), "cd e");
    assert_eq!(text_field(&line, 0, 2), "ab");
    assert_eq!(text_field(&line, 2, 4), "");
    assert_eq!(text_field(&line, 5, 5), "");
    assert_eq!(text_field(&line, 0, line.len()), "ab  cd e\t \u{a0}fg");
}

#[test]
fn number_field_reads_digits_only() {
    let line = chars_of(" 0042 18446744073709551615 18446744073709551616 4 2 ");
    assert_eq!(number_field(&line, 0, 6), Some(42));
    assert_eq!(number_field(&line, 6, 26), Some(u64::MAX));
    assert_eq!(number_field(&line, 27, 47), None);
    assert_eq!(number_field(&line, 47, 52), None);
    assert_eq!(number_field(&line, 0, 1), None);
    assert_eq!(number_field(&line, 3, 3), None);
    let other = chars_of("٣ 12");
    assert_eq!(number_field(&other, 0, 1), None);
    assert_eq!(number_field(&other, 1, 4), Some(12));
}

#[test]
fn lines_end_at_line_feeds() {
    let lines: Vec<String> =
        split_lines("ab\r\ncd\n\nef\r").iter().map(|l| l.iter().collect()).collect();
    assert_eq!(lines, vec!["ab", "cd", "", "ef\r"]);
    assert!(split_lines("").is_empty());
    assert_eq!(split_lines("\n").len(), 1);
    assert_eq!(split_lines("x\n").len(), 1);
    assert_eq!(split_lines("x\ny").len(), 2);
    let bare: Vec<String> = split_lines("a\rb\n").iter().map(|l| l.iter().collect()).collect();
    assert_eq!(bare, vec!["a\rb"]);
}

#[test]
fn chars_of_gives_every_character() {
    assert_eq!(chars_of("héllo"), vec!['h', 'é', 'l', 'l', 'o']);
    assert!(chars_of("").is_empty());
}
