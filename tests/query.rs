use sndb_utils::{Query, QueryKind};

fn kind(value: &str) -> Result<QueryKind, String> {
    Query::classify(value).map(|q| q.query_kind())
}

#[test]
fn classifier_examples() {
    assert_eq!(kind("12345-A"), Ok(QueryKind::ProgramStatus));
    assert_eq!(kind("S00012"), Ok(QueryKind::SheetStatus));
    assert_eq!(kind("50-1234"), Ok(QueryKind::MaterialStatus));
    assert_eq!(
        kind("???"),
        Err(String::from("No query pattern matched for value `???`"))
    );
}

#[test]
fn classified_query_keeps_the_identifier() {
    let q = Query::classify("S00012-3").unwrap();
    assert_eq!(q.identifier(), "S00012-3");
    assert!(matches!(q, Query::SheetStatus(_)));
}

#[test]
fn program_shape_needs_five_digits() {
    assert_eq!(kind("12345"), Ok(QueryKind::ProgramStatus));
    assert_eq!(kind("1234567_b-2"), Ok(QueryKind::ProgramStatus));
    assert!(kind("x12345").is_err());
    assert!(kind("1234").is_err());
    assert!(kind("").is_err());
    assert!(kind("12345-").is_err());
    assert!(kind("12345--a").is_err());
}

#[test]
fn sheet_shape_letters() {
    assert_eq!(kind("X00012"), Ok(QueryKind::SheetStatus));
    assert_eq!(kind("W54321"), Ok(QueryKind::SheetStatus));
    assert_eq!(kind("S00012_ab-c"), Ok(QueryKind::SheetStatus));
    assert!(kind("s00012").is_err());
    assert!(kind("S0001").is_err());
    assert!(kind("S000123").is_err());
}

#[test]
fn stock_material_variants() {
    assert_eq!(kind("9-HPS50W-1234"), Ok(QueryKind::MaterialStatus));
    assert_eq!(kind("50WT2-1234AB"), Ok(QueryKind::MaterialStatus));
    assert_eq!(kind("HPS50F3-9876"), Ok(QueryKind::MaterialStatus));
    assert!(kind("50T4-1234").is_err());
    assert!(kind("50-123").is_err());
    assert!(kind("51-1234").is_err());
    assert!(kind("50-1234x1").is_err());
}

#[test]
fn part_and_project_material() {
    assert_eq!(kind("1234567A-1"), Ok(QueryKind::PartStatus));
    assert_eq!(kind("1234567A-B12-3"), Ok(QueryKind::PartStatus));
    assert!(kind("1234567A-B-12").is_err());
    assert_eq!(kind("1234567A12-12345"), Ok(QueryKind::MaterialStatus));
    assert_eq!(kind("1234567A12-12345XY"), Ok(QueryKind::MaterialStatus));
    assert!(kind("1234567A12-1234").is_err());
}

#[test]
fn procedures_per_kind() {
    assert_eq!(Query::classify("12345").unwrap().procedure(), "EXEC GetProgramStatus @ProgramName=@P1");
    assert_eq!(Query::classify("1234567A-1").unwrap().procedure(), "EXEC GetPartStatus @ProgramName=@P1");
    assert_eq!(Query::classify("S00012").unwrap().procedure(), "EXEC GetSheetStatus @ProgramName=@P1");
    assert_eq!(Query::classify("50-1234").unwrap().procedure(), "EXEC GetMaterialStatus @ProgramName=@P1");
}
