use hvrecord::cursor::fetch_record;
use hvrecord::cursor::Cursor;
use hvrecord::marshal::Descriptor;
use hvrecord::outcome::BuildError;
use hvrecord::outcome::Policy;
use hvrecord::query::build_query;
use hvrecord::query::escape_key;
use hvrecord::row::Attr;
use hvrecord::row::AttrValue;
use hvrecord::row::Row;
use hvrecord::shapes::query_from_cursor;
use hvrecord::shapes::HyperVVmSettings;
use hvrecord::shapes::HyperVVmStatus;
use hvrecord::shapes::WmiRowConstructable;

fn text_attr(name: &str, value: &str) -> Attr {
    Attr { name: name.to_string(), value: AttrValue::Text(value.to_string()) }
}

fn tolerant(name: &str) -> Descriptor {
    Descriptor { name: name.to_string(), policy: Policy::UseDefault }
}

#[test]
fn zero_rows_is_record_not_found() {
    let mut cursor = Cursor::new(vec![]);
    let r = fetch_record(&mut cursor, &vec![tolerant("A")]);
    assert!(matches!(r, Err(BuildError::RecordNotFound)));
}

#[test]
fn zero_rows_is_not_a_record_of_defaults() {
    // The empty result set must be reported as "not found", never marshalled
    // into an all-default record.
    let mut cursor = Cursor::new(vec![]);
    let r: Result<HyperVVmSettings, BuildError> = query_from_cursor(&mut cursor);
    match r {
        Err(BuildError::RecordNotFound) => {},
        Err(other) => panic!("expected RecordNotFound, got {other:?}"),
        Ok(_) => panic!("expected RecordNotFound, got a record"),
    }
}

#[test]
fn only_the_first_row_is_read() {
    let first = Row::new(vec![text_attr("A", "first")]);
    let second = Row::new(vec![text_attr("A", "second")]);
    let mut cursor = Cursor::new(vec![first, second]);
    let fields = fetch_record(&mut cursor, &vec![tolerant("A")]).expect("build must succeed");
    assert_eq!(fields, vec![Some("first".to_string())]);
    // Advanced exactly once; the second row stays with the cursor.
    assert_eq!(cursor.advance_count(), 1);
    assert_eq!(cursor.remaining(), 1);
}

#[test]
fn an_empty_cursor_is_advanced_once_and_keeps_nothing() {
    let mut cursor = Cursor::new(vec![]);
    assert!(cursor.next().is_none());
    assert_eq!(cursor.advance_count(), 1);
    assert_eq!(cursor.remaining(), 0);
}

#[test]
fn a_faulty_first_row_fails_the_fetch_fatally() {
    let row = Row::with_fault(vec![], "link lost".to_string());
    let mut cursor = Cursor::new(vec![row]);
    let r: Result<HyperVVmStatus, BuildError> = query_from_cursor(&mut cursor);
    match r {
        Err(BuildError::Fatal(c)) => assert_eq!(c, "link lost"),
        other => panic!("expected Fatal, got {other:?}"),
    }
}

#[test]
fn settings_query_selects_by_element_name() {
    let q = HyperVVmSettings::query_one("alpine");
    assert_eq!(
        q,
        "SELECT * FROM Msvm_VirtualSystemSettingData WHERE ElementName='alpine'"
    );
}

#[test]
fn status_query_selects_by_element_name() {
    let q = HyperVVmStatus::query_one("alpine");
    assert_eq!(q, "SELECT * FROM Msvm_ComputerSystem WHERE ElementName='alpine'");
}

#[test]
fn the_key_is_escaped_inside_the_query() {
    let q = HyperVVmSettings::query_one("al'pine");
    assert_eq!(
        q,
        "SELECT * FROM Msvm_VirtualSystemSettingData WHERE ElementName='al\\'pine'"
    );
}

#[test]
fn escape_key_escapes_quotes_and_backslashes() {
    assert_eq!(escape_key("alpine"), "alpine");
    assert_eq!(escape_key(""), "");
    assert_eq!(escape_key("a'b"), "a\\'b");
    assert_eq!(escape_key("a\\b"), "a\\\\b");
    assert_eq!(escape_key("'\\"), "\\'\\\\");
}

#[test]
fn build_query_joins_class_and_escaped_key() {
    let q = build_query("Msvm_ComputerSystem", "o'brien");
    assert_eq!(q, "SELECT * FROM Msvm_ComputerSystem WHERE ElementName='o\\'brien'");
}
