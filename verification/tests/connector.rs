use fieldmid::connector::{FieldMidConnector, READ_ONLY_UPLOAD_MESSAGE};

#[test]
fn credentials_are_handed_over_unchanged() {
    let c = FieldMidConnector::new("https://example.com".to_string(), "t".to_string());
    assert_eq!(c.credentials(), ("https://example.com".to_string(), "t".to_string()));
}

#[test]
fn uploads_are_refused_as_read_only() {
    let c = FieldMidConnector::new("https://example.com".to_string(), "t".to_string());
    let err = c.upload_refusal();
    assert_eq!(err, READ_ONLY_UPLOAD_MESSAGE);
    assert!(err.contains("read-only"));
}

#[test]
fn demo_seeding_is_refused() {
    let err = fieldmid::demo::insert_demo_critical().unwrap_err();
    assert!(err.message().contains("strict read-only"));
}
