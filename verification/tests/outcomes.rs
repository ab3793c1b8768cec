use hvrecord::outcome::apply_policy;
use hvrecord::outcome::BuildError;
use hvrecord::outcome::FetchOutcome;
use hvrecord::outcome::Policy;
use hvrecord::row::read_attribute;
use hvrecord::row::Attr;
use hvrecord::row::AttrValue;
use hvrecord::row::FetchRaw;
use hvrecord::row::Row;

fn text_attr(name: &str, value: &str) -> Attr {
    Attr { name: name.to_string(), value: AttrValue::Text(value.to_string()) }
}

fn opaque_attr(name: &str) -> Attr {
    Attr { name: name.to_string(), value: AttrValue::Opaque }
}

#[test]
fn present_text_is_kept_verbatim() {
    let r = apply_policy(
        FetchOutcome::Present("True".to_string()),
        Policy::UseDefault,
        &"SecureBootEnabled".to_string(),
    );
    assert_eq!(r.unwrap(), Some("True".to_string()));
}

#[test]
fn absent_defaults_under_tolerant_policy() {
    let r = apply_policy(FetchOutcome::Absent, Policy::UseDefault, &"Version".to_string());
    assert_eq!(r.unwrap(), None);
}

#[test]
fn mismatch_is_handled_exactly_like_absent_when_tolerated() {
    let name = "Roles".to_string();
    let absent = apply_policy(FetchOutcome::Absent, Policy::UseDefault, &name);
    let mismatch = apply_policy(FetchOutcome::TypeMismatch, Policy::UseDefault, &name);
    assert_eq!(absent.unwrap(), mismatch.unwrap());
}

#[test]
fn absent_aborts_under_required_policy() {
    let r = apply_policy(FetchOutcome::Absent, Policy::Fail, &"Name".to_string());
    match r {
        Err(BuildError::AttributeAbsent(n)) => assert_eq!(n, "Name"),
        other => panic!("expected AttributeAbsent, got {other:?}"),
    }
}

#[test]
fn mismatch_aborts_under_required_policy() {
    let r = apply_policy(FetchOutcome::TypeMismatch, Policy::Fail, &"Name".to_string());
    match r {
        Err(BuildError::AttributeTypeMismatch(n)) => assert_eq!(n, "Name"),
        other => panic!("expected AttributeTypeMismatch, got {other:?}"),
    }
}

#[test]
fn provider_fault_aborts_under_every_policy() {
    let tolerant = apply_policy(
        FetchOutcome::Fatal("link lost".to_string()),
        Policy::UseDefault,
        &"Name".to_string(),
    );
    match tolerant {
        Err(BuildError::Fatal(c)) => assert_eq!(c, "link lost"),
        other => panic!("expected Fatal, got {other:?}"),
    }
    let required = apply_policy(
        FetchOutcome::Fatal("link lost".to_string()),
        Policy::Fail,
        &"Name".to_string(),
    );
    assert!(matches!(required, Err(BuildError::Fatal(_))));
}

#[test]
fn reading_a_renderable_attribute_yields_its_text() {
    let mut row = Row::new(vec![text_attr("ElementName", "alpine")]);
    let o = read_attribute(&mut row, &"ElementName".to_string());
    match o {
        FetchOutcome::Present(t) => assert_eq!(t, "alpine"),
        other => panic!("expected Present, got {other:?}"),
    }
}

#[test]
fn reading_a_missing_attribute_yields_absent() {
    let mut row = Row::new(vec![text_attr("ElementName", "alpine")]);
    let o = read_attribute(&mut row, &"Version".to_string());
    assert!(matches!(o, FetchOutcome::Absent));
}

#[test]
fn reading_an_unrenderable_attribute_yields_type_mismatch() {
    let mut row = Row::new(vec![opaque_attr("Dedicated")]);
    let o = read_attribute(&mut row, &"Dedicated".to_string());
    assert!(matches!(o, FetchOutcome::TypeMismatch));
}

#[test]
fn reading_on_a_lost_connection_yields_fatal_with_cause() {
    let mut row = Row::with_fault(vec![text_attr("Name", "x")], "rpc unavailable".to_string());
    let o = read_attribute(&mut row, &"Name".to_string());
    match o {
        FetchOutcome::Fatal(c) => assert_eq!(c, "rpc unavailable"),
        other => panic!("expected Fatal, got {other:?}"),
    }
}

#[test]
fn raw_value_released_exactly_once_on_every_outcome() {
    let mut row = Row::new(vec![text_attr("A", "1"), opaque_attr("B")]);

    // Renderable value: fetched once, released once.
    read_attribute(&mut row, &"A".to_string());
    assert_eq!(row.fetched_count(), 1);
    assert_eq!(row.released_count(), 1);
    assert_eq!(row.outstanding(), 0);

    // Unrenderable value: still fetched once and released once.
    read_attribute(&mut row, &"B".to_string());
    assert_eq!(row.fetched_count(), 2);
    assert_eq!(row.released_count(), 2);
    assert_eq!(row.outstanding(), 0);

    // Missing attribute: nothing was handed out, nothing to release.
    read_attribute(&mut row, &"C".to_string());
    assert_eq!(row.fetched_count(), 2);
    assert_eq!(row.released_count(), 2);
    assert_eq!(row.outstanding(), 0);

    // Lost connection: the provider hands nothing out.
    let mut faulty = Row::with_fault(vec![text_attr("A", "1")], "gone".to_string());
    read_attribute(&mut faulty, &"A".to_string());
    assert_eq!(faulty.fetched_count(), 0);
    assert_eq!(faulty.released_count(), 0);
}

#[test]
fn fetch_and_release_account_for_outstanding_values() {
    let mut row = Row::new(vec![text_attr("A", "1")]);
    let got = row.fetch(&"A".to_string());
    assert_eq!(row.outstanding(), 1);
    match got {
        FetchRaw::Got(v) => {
            assert_eq!(v.render_text(), Some("1".to_string()));
            row.release(v);
        },
        other => panic!("expected Got, got {other:?}"),
    }
    assert_eq!(row.outstanding(), 0);
}

#[test]
fn fetch_reports_missing_names_and_faults() {
    let mut row = Row::new(vec![text_attr("A", "1")]);
    assert!(matches!(row.fetch(&"B".to_string()), FetchRaw::NoSuchAttribute));

    let mut faulty = Row::with_fault(vec![], "down".to_string());
    match faulty.fetch(&"A".to_string()) {
        FetchRaw::Fault(c) => assert_eq!(c, "down"),
        other => panic!("expected Fault, got {other:?}"),
    }
}

#[test]
fn opaque_values_render_no_text() {
    let mut row = Row::new(vec![opaque_attr("B")]);
    match row.fetch(&"B".to_string()) {
        FetchRaw::Got(v) => {
            assert_eq!(v.render_text(), None);
            row.release(v);
        },
        other => panic!("expected Got, got {other:?}"),
    }
}

#[test]
fn error_labels_name_each_variant() {
    assert_eq!(BuildError::RecordNotFound.label(), "record not found");
    assert_eq!(BuildError::ConnectionError("x".to_string()).label(), "connection error");
    assert_eq!(BuildError::QueryError("x".to_string()).label(), "query error");
    assert_eq!(BuildError::AttributeAbsent("x".to_string()).label(), "attribute absent");
    assert_eq!(
        BuildError::AttributeTypeMismatch("x".to_string()).label(),
        "attribute type mismatch"
    );
    assert_eq!(BuildError::Fatal("x".to_string()).label(), "provider failure");
    assert_eq!(BuildError::MarshallingError("x".to_string()).label(), "marshalling error");
}
