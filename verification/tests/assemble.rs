use nacha::date::Date;
use nacha::document::{classify, Assembler, NachaFile, Phase, RecordKind};
use nacha::error::{ErrorKind, StructuralError};
use nacha::text::chars_of;

fn file_header() -> String {
    format!(
        "{:<1}{:<2}{:<10}{:<10}{:<6}{:<4}{:<1}{:<3}{:<2}{:<1}{:<23}{:<23}{:<8}",
        "1", "01", " 123456789", " 987654321", "230115", "1230", "A", "094", "10", "1",
        "DEST BANK", "ORIGIN CO", "REF00001"
    )
}

fn batch_header(company: &str) -> String {
    format!(
        "{:<1}{:<3}{:<16}{:<20}{:<10}{:<3}{:<10}{:<6}{:<6}{:<3}{:<1}{:<8}{:<7}",
        "5", "200", company, "", "1234567890", "PPD", "PAYROLL", "", "230116", "", "1",
        "12345678", "0000001"
    )
}

fn detail(name: &str, amount: &str) -> String {
    format!(
        "{:<1}{:<2}{:<8}{:<1}{:<17}{:<10}{:<15}{:<22}{:<2}{:<1}{:<15}",
        "6", "22", "12345678", "0", "0123456789", amount, "ID0001", name, "", "1",
        "123456780000001"
    )
}

fn addendum(info: &str) -> String {
    format!("{:<1}{:<2}{:<80}{:<4}{:<7}", "7", "05", info, "0001", "0000001")
}

fn batch_control(count: &str) -> String {
    format!(
        "{:<1}{:<3}{:<6}{:<10}{:<12}{:<12}{:<10}{:<19}{:<6}{:<8}{:<7}",
        "8", "200", count, "0012345678", "000000000000", "000000001000", "1234567890", "", "",
        "12345678", "0000001"
    )
}

fn file_control(batches: &str, entries: &str) -> String {
    format!(
        "{:<1}{:<6}{:<6}{:<8}{:<10}{:<12}{:<12}{:<39}",
        "9", batches, "000001", entries, "0012345678", "000000000000", "000000001000", ""
    )
}

fn unknown(code: &str) -> String {
    format!("{:<94}", code)
}

fn joined(lines: &[String]) -> String {
    let mut s = lines.join("\n");
    s.push('\n');
    s
}

#[test]
fn minimal_file_end_to_end() {
    let content = joined(&[
        file_header(),
        batch_header("ACME CORP"),
        detail("JANE DOE", "0000001000"),
        addendum("INVOICE 42"),
        file_control("000001", "00000002"),
    ]);
    let file = NachaFile::new(content).unwrap();
    assert_eq!(file.batches.len(), 1);
    assert_eq!(file.batches[0].detail_entries.len(), 1);
    assert_eq!(file.batches[0].detail_entries[0].amount, 1000);
    assert_eq!(file.batches[0].detail_entries[0].addenda.len(), 1);
    assert_eq!(file.batches[0].detail_entries[0].addenda[0].payment_related_info, "INVOICE 42");
    assert_eq!(file.batches[0].batch_header.company_name, "ACME CORP");
    assert!(file.batches[0].batch_control.is_none());
    assert_eq!(file.file_control.batch_count, 1);
    assert_eq!(file.file_control.entry_and_addenda_count, 2);
    assert_eq!(file.file_header.immediate_origin_name, "ORIGIN CO");
    assert_eq!(file.file_header.file_creation_date, Some(Date { year: 2023, month: 1, day: 15 }));
}

#[test]
fn entry_before_batch_header_is_fatal() {
    let content = joined(&[
        file_header(),
        detail("JANE DOE", "0000001000"),
        batch_header("ACME CORP"),
        file_control("000001", "00000001"),
    ]);
    let e = NachaFile::new(content).unwrap_err();
    assert_eq!(e.kind, ErrorKind::Structure(StructuralError::MissingBatchHeader));
    assert_eq!(e.line_number, 2);
    assert_eq!(e.line, detail("JANE DOE", "0000001000"));
}

#[test]
fn entry_as_first_line_is_fatal() {
    let e = NachaFile::new(joined(&[detail("JANE DOE", "0000001000")])).unwrap_err();
    assert_eq!(e.kind, ErrorKind::Structure(StructuralError::MissingBatchHeader));
    assert_eq!(e.line_number, 1);
}

#[test]
fn addendum_before_entry_is_fatal() {
    let content = joined(&[
        file_header(),
        batch_header("ACME CORP"),
        addendum("INVOICE 42"),
        detail("JANE DOE", "0000001000"),
        file_control("000001", "00000002"),
    ]);
    let e = NachaFile::new(content).unwrap_err();
    assert_eq!(e.kind, ErrorKind::Structure(StructuralError::MissingDetailEntry));
    assert_eq!(e.line_number, 3);
    assert_eq!(e.line, addendum("INVOICE 42"));
}

#[test]
fn addendum_does_not_reach_into_the_batch_before() {
    let content = joined(&[
        file_header(),
        batch_header("FIRST"),
        detail("JANE DOE", "0000001000"),
        batch_header("SECOND"),
        addendum("INVOICE 42"),
        file_control("000002", "00000002"),
    ]);
    let e = NachaFile::new(content).unwrap_err();
    assert_eq!(e.kind, ErrorKind::Structure(StructuralError::MissingDetailEntry));
    assert_eq!(e.line_number, 5);
}

#[test]
fn addendum_without_any_batch_is_fatal() {
    let e = NachaFile::new(joined(&[file_header(), addendum("INVOICE 42")])).unwrap_err();
    assert_eq!(e.kind, ErrorKind::Structure(StructuralError::MissingDetailEntry));
    assert_eq!(e.line_number, 2);
}

#[test]
fn batch_control_before_batch_header_is_fatal() {
    let e = NachaFile::new(joined(&[file_header(), batch_control("000001")])).unwrap_err();
    assert_eq!(e.kind, ErrorKind::Structure(StructuralError::MissingBatchHeader));
    assert_eq!(e.line_number, 2);
}

#[test]
fn unknown_code_is_skipped() {
    let content = joined(&[
        file_header(),
        batch_header("ACME CORP"),
        unknown("4 something else"),
        detail("JANE DOE", "0000001000"),
        unknown("4"),
        addendum("INVOICE 42"),
        file_control("000001", "00000002"),
    ]);
    let file = NachaFile::new(content).unwrap();
    assert_eq!(file.batches.len(), 1);
    assert_eq!(file.batches[0].detail_entries.len(), 1);
    assert_eq!(file.batches[0].detail_entries[0].individual_name, "JANE DOE");
    assert_eq!(file.batches[0].detail_entries[0].addenda.len(), 1);
}

#[test]
fn unknown_code_keeps_the_cursors() {
    let mut a = Assembler::new();
    a.feed(&chars_of(&file_header())).unwrap();
    a.feed(&chars_of(&batch_header("ACME CORP"))).unwrap();
    assert_eq!(a.current_batch(), Some(0));
    assert_eq!(a.current_entry(), None);
    assert_eq!(a.feed(&chars_of(&unknown("4"))), Ok(()));
    assert_eq!(a.current_batch(), Some(0));
    assert_eq!(a.current_entry(), None);
    a.feed(&chars_of(&detail("JANE DOE", "0000001000"))).unwrap();
    assert_eq!(a.current_entry(), Some(0));
    assert_eq!(a.feed(&chars_of("")), Ok(()));
    assert_eq!(a.feed(&chars_of("x")), Ok(()));
    assert_eq!(a.current_batch(), Some(0));
    assert_eq!(a.current_entry(), Some(0));
    assert_eq!(a.file.batches[0].detail_entries.len(), 1);
}

#[test]
fn blank_lines_are_skipped() {
    let content = format!(
        "{}\n\n{}\n\n{}\n{}\n",
        file_header(),
        batch_header("ACME CORP"),
        detail("JANE DOE", "0000000001"),
        file_control("000001", "00000001")
    );
    let file = NachaFile::new(content).unwrap();
    assert_eq!(file.batches.len(), 1);
    assert_eq!(file.batches[0].detail_entries[0].amount, 1);
}

#[test]
fn parsing_stops_at_file_control() {
    let content = joined(&[
        file_header(),
        batch_header("ACME CORP"),
        detail("JANE DOE", "0000001000"),
        file_control("000001", "00000001"),
        unknown(&"9".repeat(94)),
        detail("TOO LATE", "0000000001"),
        addendum("short"),
        "6".to_string(),
        file_control("000007", "00000007"),
    ]);
    let file = NachaFile::new(content).unwrap();
    assert_eq!(file.batches.len(), 1);
    assert_eq!(file.batches[0].detail_entries.len(), 1);
    assert_eq!(file.batches[0].detail_entries[0].individual_name, "JANE DOE");
    assert_eq!(file.file_control.batch_count, 1);
    assert_eq!(file.file_control.entry_and_addenda_count, 1);
}

#[test]
fn terminated_assembler_ignores_lines() {
    let mut a = Assembler::new();
    assert_eq!(a.phase, Phase::ExpectingFileHeader);
    assert!(!a.is_terminated());
    a.feed(&chars_of(&file_header())).unwrap();
    assert_eq!(a.phase, Phase::InFile);
    a.feed(&chars_of(&file_control("000000", "00000000"))).unwrap();
    assert_eq!(a.phase, Phase::Terminated);
    assert!(a.is_terminated());
    assert_eq!(a.feed(&chars_of(&detail("TOO LATE", "0000000001"))), Ok(()));
    assert_eq!(a.feed(&chars_of("7")), Ok(()));
    let file = a.finish();
    assert!(file.batches.is_empty());
    assert_eq!(file.file_control.record_type_code, "9");
}

#[test]
fn entries_attach_to_the_latest_batch() {
    let content = joined(&[
        file_header(),
        batch_header("FIRST"),
        detail("A1", "0000000001"),
        addendum("a1 first"),
        addendum("a1 second"),
        detail("A2", "0000000002"),
        batch_control("000004"),
        batch_header("SECOND"),
        detail("B1", "0000000003"),
        addendum("b1 first"),
        batch_control("000002"),
        file_control("000002", "00000006"),
    ]);
    let file = NachaFile::new(content).unwrap();
    assert_eq!(file.batches.len(), 2);
    let first = &file.batches[0];
    let second = &file.batches[1];
    assert_eq!(first.batch_header.company_name, "FIRST");
    assert_eq!(second.batch_header.company_name, "SECOND");
    assert_eq!(first.detail_entries.len(), 2);
    assert_eq!(second.detail_entries.len(), 1);
    assert_eq!(first.detail_entries[0].addenda.len(), 2);
    assert_eq!(first.detail_entries[0].addenda[0].payment_related_info, "a1 first");
    assert_eq!(first.detail_entries[0].addenda[1].payment_related_info, "a1 second");
    assert_eq!(first.detail_entries[1].addenda.len(), 0);
    assert_eq!(second.detail_entries[0].addenda.len(), 1);
    assert_eq!(second.detail_entries[0].addenda[0].payment_related_info, "b1 first");
    assert_eq!(first.batch_control.as_ref().unwrap().entry_and_addenda_count, 4);
    assert_eq!(second.batch_control.as_ref().unwrap().entry_and_addenda_count, 2);
    assert_eq!(file.file_control.batch_count, 2);
}

#[test]
fn malformed_amount_is_fatal_with_its_line() {
    let bad = detail("JANE DOE", "00000010.0");
    let content = joined(&[file_header(), batch_header("ACME CORP"), bad.clone()]);
    let e = NachaFile::new(content).unwrap_err();
    assert_eq!(e.kind, ErrorKind::FieldFormat);
    assert_eq!(e.line_number, 3);
    assert_eq!(e.line, bad);
}

#[test]
fn short_record_is_fatal_with_its_line() {
    let content = format!("{}\n5200 SHORT\n", file_header());
    let e = NachaFile::new(content).unwrap_err();
    assert_eq!(e.kind, ErrorKind::FieldRange);
    assert_eq!(e.line_number, 2);
    assert_eq!(e.line, "5200 SHORT");
}

#[test]
fn structure_is_checked_before_the_fields() {
    let e = NachaFile::new("6 short\n".to_string()).unwrap_err();
    assert_eq!(e.kind, ErrorKind::Structure(StructuralError::MissingBatchHeader));
}

#[test]
fn failed_line_leaves_the_assembler_alone() {
    let mut a = Assembler::new();
    a.feed(&chars_of(&file_header())).unwrap();
    assert_eq!(
        a.feed(&chars_of(&detail("JANE DOE", "0000001000"))),
        Err(ErrorKind::Structure(StructuralError::MissingBatchHeader))
    );
    assert_eq!(a.phase, Phase::InFile);
    assert!(a.file.batches.is_empty());
    a.feed(&chars_of(&batch_header("ACME CORP"))).unwrap();
    assert_eq!(a.feed(&chars_of(&detail("JANE DOE", "x"))), Err(ErrorKind::FieldFormat));
    assert_eq!(a.feed(&chars_of("6")), Err(ErrorKind::FieldRange));
    assert_eq!(a.file.batches.len(), 1);
    assert!(a.file.batches[0].detail_entries.is_empty());
}

#[test]
fn carriage_returns_end_lines_too() {
    let content = [
        file_header(),
        batch_header("ACME CORP"),
        detail("JANE DOE", "0000001000"),
        file_control("000001", "00000001"),
    ]
    .join("\r\n");
    let file = NachaFile::new(content).unwrap();
    assert_eq!(file.batches.len(), 1);
    assert_eq!(file.batches[0].detail_entries[0].trace_number, "123456780000001");
    assert_eq!(file.file_control.batch_count, 1);
}

#[test]
fn empty_text_gives_a_blank_document() {
    let file = NachaFile::new(String::new()).unwrap();
    assert!(file.batches.is_empty());
    assert_eq!(file.file_header.record_type_code, "");
    assert_eq!(file.file_control.batch_count, 0);
}

#[test]
fn from_lines_agrees_with_new() {
    let lines = vec![
        chars_of(&file_header()),
        chars_of(&batch_header("ACME CORP")),
        chars_of(&detail("JANE DOE", "0000001000")),
        chars_of(&file_control("000001", "00000001")),
    ];
    let file = NachaFile::from_lines(&lines).unwrap();
    assert_eq!(file.batches.len(), 1);
    assert_eq!(file.batches[0].detail_entries[0].amount, 1000);
    let bad = vec![chars_of(&file_header()), chars_of(&addendum("x"))];
    let e = NachaFile::from_lines(&bad).unwrap_err();
    assert_eq!(e.line_number, 2);
    assert_eq!(e.line, addendum("x"));
}

#[test]
fn second_file_header_replaces_the_first() {
    let other = file_header().replace("ORIGIN CO", "OTHER ONE");
    let file = NachaFile::new(joined(&[file_header(), other])).unwrap();
    assert_eq!(file.file_header.immediate_origin_name, "OTHER ONE");
}

#[test]
fn last_batch_and_last_entry_reach_the_newest() {
    let content = joined(&[
        file_header(),
        batch_header("FIRST"),
        detail("A1", "0000000001"),
        batch_header("SECOND"),
        detail("B1", "0000000002"),
        detail("B2", "0000000003"),
    ]);
    let mut file = NachaFile::new(content).unwrap();
    assert_eq!(file.last_batch().batch_header.company_name, "SECOND");
    assert_eq!(file.last_batch().last_entry().individual_name, "B2");
    file.last_batch().last_entry().add_addenda(addendum("late")).unwrap();
    file.last_batch().new_entry(detail("B3", "0000000004")).unwrap();
    assert_eq!(file.batches[1].detail_entries.len(), 3);
    assert_eq!(file.batches[1].detail_entries[1].addenda.len(), 1);
    assert_eq!(file.batches[1].detail_entries[2].amount, 4);
    assert_eq!(file.batches[0].detail_entries.len(), 1);
}

#[test]
fn first_character_tells_the_kind() {
    assert_eq!(classify(&chars_of("1")), RecordKind::FileHeader);
    assert_eq!(classify(&chars_of("5x")), RecordKind::BatchHeader);
    assert_eq!(classify(&chars_of("6")), RecordKind::DetailEntry);
    assert_eq!(classify(&chars_of("7")), RecordKind::Addendum);
    assert_eq!(classify(&chars_of("8")), RecordKind::BatchControl);
    assert_eq!(classify(&chars_of("9")), RecordKind::FileControl);
    assert_eq!(classify(&chars_of("4")), RecordKind::Unrecognized);
    assert_eq!(classify(&chars_of(" 1")), RecordKind::Unrecognized);
    assert_eq!(classify(&chars_of("")), RecordKind::Unrecognized);
}
