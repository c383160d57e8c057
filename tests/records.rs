use sndb_utils::program::Column;
use sndb_utils::{
    file_contents, row_to_string, CellColor, Dataset, DbConnParams, JobShipment, JobShipmentParseError,
    Program, ProgramRecord, ProgramState, RecordError, SapConsumptionConfig, Timestamp, Wbs, HEADER,
};

#[test]
fn wbs_parse_and_text() {
    assert_eq!(Wbs::try_from("D-1234567-00042"), Ok(Wbs::Hd { project: 1234567, id: 42 }));
    assert_eq!(Wbs::try_from("x S-0000123-2-07 y"), Ok(Wbs::Legacy { project: 123, shipment: 7 }));
    assert_eq!(
        Wbs::try_from("S-1111111-2-01 D-2222222-33333"),
        Ok(Wbs::Hd { project: 2222222, id: 33333 })
    );
    assert_eq!(
        Wbs::try_from("D-12"),
        Err(String::from(
            "WBS element `D-12` does not match either of the expected patterns `D-#######-#####` or `S-#######-2-##`"
        ))
    );
    assert_eq!(Wbs::Hd { project: 1234567, id: 42 }.to_string(), "D-1234567-42");
    assert_eq!(Wbs::Legacy { project: 123, shipment: 7 }.to_string(), "S-123-2-07");
}

#[test]
fn job_shipment_parse_and_text() {
    let j = JobShipment::from_str("1234567a-12").unwrap();
    assert_eq!(j.job(), "1234567A");
    assert_eq!(j.shipment(), 12);
    assert_eq!(j.to_string(), "1234567A-12");
    assert_eq!(
        JobShipment::from_str("1234567A-99999999999").unwrap_err(),
        JobShipmentParseError::InvalidShipment
    );
    assert_eq!(JobShipment::from_str("123456A-1").unwrap_err(), JobShipmentParseError::ExpectedPatternMismatch);
    assert_eq!(JobShipment::from_str("1234567A-").unwrap_err(), JobShipmentParseError::ExpectedPatternMismatch);
    assert_eq!(JobShipment::from_str("1234567A-1x").unwrap_err(), JobShipmentParseError::ExpectedPatternMismatch);
    assert_eq!(JobShipmentParseError::InvalidShipment.message(), "shipment is expected to be a number");
}

fn ts() -> Timestamp {
    Timestamp::new(2024, 3, 5, 14, 7, 9).unwrap()
}

#[test]
fn timestamp_formats() {
    assert_eq!(ts().compact(), "20240305140709");
    assert_eq!(ts().display(), " 5.Mar.2024 14:07 pm");
    let t = Timestamp::new(987, 12, 25, 9, 30, 0).unwrap();
    assert_eq!(t.display(), "25.Dec.0987  9:30 am");
    assert_eq!(t.compact(), "09871225093000");
    assert!(Timestamp::new(2024, 13, 1, 0, 0, 0).is_none());
    assert!(Timestamp::new(2024, 1, 1, 24, 0, 0).is_none());
}

fn record(status: &str) -> ProgramRecord {
    ProgramRecord {
        program_name: Some(String::from("12345")),
        status: Some(String::from(status)),
        timestamp: Some(ts()),
        sheet_name: Some(String::from("S00012")),
        material_master: Some(String::from("50W-0001")),
        heat_number: Some(String::from("H1")),
        po_number: Some(String::from("PO9")),
        wbs: Some(String::from("D-1234567-00042")),
        operator: Some(String::from("kim")),
    }
}

#[test]
fn program_from_record_and_row() {
    let p = Program::from_record(record("Updated")).unwrap();
    assert_eq!(p.sheet.wbs, Some(Wbs::Hd { project: 1234567, id: 42 }));
    let texts: Vec<String> = p.cells().into_iter().map(|c| c.text).collect();
    assert_eq!(
        texts,
        vec!["12345", "Updated", " 5.Mar.2024 14:07 pm", "50W-0001", "H1", "PO9", "S00012", "kim"]
    );
    assert_eq!(p.cells()[1].color, CellColor::Green);

    let a = Program::from_record(record("Active")).unwrap();
    assert!(matches!(a.state, ProgramState::Active(_)));
    let texts: Vec<String> = a.cells().into_iter().map(|c| c.text).collect();
    assert_eq!(texts, vec!["12345", "Active", " 5.Mar.2024 14:07 pm", "50W-0001", "", "", "S00012"]);
    assert_eq!(a.cells()[1].color, CellColor::Blue);
    assert!(a.sheet.wbs.is_none());

    let d = Program::from_record(record("Deleted")).unwrap();
    assert_eq!(d.cells()[1].text, "Deleted");
    assert_eq!(d.cells()[1].color, CellColor::Red);
}

#[test]
fn program_record_errors() {
    let mut r = record("Active");
    r.timestamp = None;
    assert!(matches!(Program::from_record(r), Err(RecordError::Missing(Column::Timestamp))));
    let mut r = record("Active");
    r.status = None;
    assert!(matches!(Program::from_record(r), Err(RecordError::Missing(Column::Status))));
    assert!(matches!(Program::from_record(record("Gone")), Err(RecordError::UnexpectedStatus(s)) if s == "Gone"));
    let mut r = record("Active");
    r.program_name = None;
    assert!(matches!(Program::from_record(r), Err(RecordError::Missing(Column::ProgramName))));
    let mut r = record("Deleted");
    r.sheet_name = None;
    assert!(matches!(Program::from_record(r), Err(RecordError::Missing(Column::SheetName))));
    let mut r = record("Updated");
    r.wbs = Some(String::from("nope"));
    assert!(matches!(Program::from_record(r), Err(RecordError::InvalidWbs(_))));
    let mut r = record("Active");
    r.wbs = Some(String::from("nope"));
    r.material_master = None;
    let p = Program::from_record(r).unwrap();
    assert_eq!(p.sheet.mm, "");
}

#[test]
fn header_columns() {
    assert_eq!(sndb_utils::program::header(), HEADER.to_vec());
    assert_eq!(HEADER.len(), 8);
}

#[test]
fn rows_to_text() {
    let row = vec![String::from("a"), String::from("1"), String::from("")];
    assert_eq!(row_to_string(&row), "a\t1");
    assert_eq!(row_to_string(&vec![]), "");
    let rows = vec![row, vec![String::from("b "), String::from("2")]];
    assert_eq!(file_contents(&rows), "a\t1\nb \t2");
    assert_eq!(file_contents(&vec![]), "");
}

#[test]
fn dataset_names() {
    assert_eq!(Dataset::Production.name(), "Production");
    assert_eq!(Dataset::Issue.query(), "EXEC SapIssueData_SinceLastRun @End = @P1");
    assert_eq!(Dataset::Production.file_name(&ts()), "Production_20240305140709.ready");
    assert_eq!(Dataset::Issue.runtime_name(), "SapIssueData");
}

#[test]
fn default_configs() {
    let d = DbConnParams::default();
    assert_eq!(d.server, "<server>");
    assert_eq!(d.database, "<database>");
    let c = SapConsumptionConfig::default();
    assert_eq!(c.database.server, "<server>");
    assert_eq!(c.output_dir, "\\\\<server>\\<path to where .ready files are placed>");
}

#[test]
fn start_of_hour_and_fields() {
    let t = ts().start_of_hour();
    assert_eq!(t.fields(), (2024, 3, 5, 14, 0, 0));
    assert_eq!(t.compact(), "20240305140000");
}
