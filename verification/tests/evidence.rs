use device_detection_51deg::evidence::{contains_nul, Evidence, EvidenceKind};
use device_detection_51deg::fiftyone_degrees::{
    EVIDENCE_PREFIX_COOKIE, EVIDENCE_PREFIX_HEADER_IP_ADDRESSES, EVIDENCE_PREFIX_HEADER_STRING,
    EVIDENCE_PREFIX_QUERY, EVIDENCE_PREFIX_SERVER,
};

const UA: &str = "Mozilla/5.0 (iPhone; CPU iPhone OS 16_2 like Mac OS X) AppleWebKit/605.1.15 (KHTML, like Gecko) Version/16.2 Mobile/15E148 Safari/604.1";

#[test]
fn default_evidence_is_empty() {
    let evidence = Evidence::default();
    assert_eq!(evidence.len(), 0);
}

#[test]
fn user_agent_only_has_one_item() {
    let evidence = Evidence::new_with_user_agent(UA);
    assert_eq!(evidence.len(), 1);
    let (prefix, field, value) = evidence.prefixed_item(0);
    assert_eq!(prefix, EVIDENCE_PREFIX_HEADER_STRING);
    assert_eq!(field, "user-agent");
    assert_eq!(value, UA);
}

#[test]
fn user_agent_then_typed_item_gives_two_items() {
    let mut evidence = Evidence::new_with_user_agent(UA);
    evidence.add(EvidenceKind::Query, "k", "v").unwrap();
    assert_eq!(evidence.len(), 2);
    let (prefix, field, value) = evidence.prefixed_item(0);
    assert_eq!(prefix, EVIDENCE_PREFIX_HEADER_STRING);
    assert_eq!(field, "user-agent");
    assert_eq!(value, UA);
    let (prefix, field, value) = evidence.prefixed_item(1);
    assert_eq!(prefix, EVIDENCE_PREFIX_QUERY);
    assert_eq!(field, "k");
    assert_eq!(value, "v");
}

#[test]
fn add_keeps_insertion_order() {
    let mut evidence = Evidence::default();
    evidence
        .add(EvidenceKind::HeaderString, "sec-ch-ua", "\"Chromium\";v=1")
        .unwrap();
    evidence.add(EvidenceKind::Cookie, "session", "abc123").unwrap();
    evidence.add(EvidenceKind::Server, "REMOTE_ADDR", "10.0.0.1").unwrap();
    assert_eq!(evidence.len(), 3);
    let (prefix, field, _) = evidence.prefixed_item(0);
    assert_eq!((prefix, field.as_str()), (EVIDENCE_PREFIX_HEADER_STRING, "sec-ch-ua"));
    let (prefix, field, _) = evidence.prefixed_item(1);
    assert_eq!((prefix, field.as_str()), (EVIDENCE_PREFIX_COOKIE, "session"));
    let (prefix, field, value) = evidence.prefixed_item(2);
    assert_eq!(
        (prefix, field.as_str(), value.as_str()),
        (EVIDENCE_PREFIX_SERVER, "REMOTE_ADDR", "10.0.0.1")
    );
}

#[test]
fn add_rejects_nul_in_field() {
    let mut evidence = Evidence::default();
    let r = evidence.add(EvidenceKind::Query, "k\0ey", "v");
    assert!(r.is_err());
    assert_eq!(evidence.len(), 0);
}

#[test]
fn add_rejects_nul_in_value() {
    let mut evidence = Evidence::new_with_user_agent(UA);
    let r = evidence.add(EvidenceKind::Query, "key", "a\0b");
    assert!(r.is_err());
    // the failed add corrupts nothing: still the shorthand, still usable
    assert_eq!(evidence.len(), 1);
    evidence.add(EvidenceKind::Query, "key", "ab").unwrap();
    assert_eq!(evidence.len(), 2);
    let (_, field, value) = evidence.prefixed_item(1);
    assert_eq!((field.as_str(), value.as_str()), ("key", "ab"));
}

#[test]
fn kind_prefix_tags() {
    assert_eq!(EvidenceKind::HeaderString.to_prefix(), EVIDENCE_PREFIX_HEADER_STRING);
    assert_eq!(
        EvidenceKind::HeaderIPAddresses.to_prefix(),
        EVIDENCE_PREFIX_HEADER_IP_ADDRESSES
    );
    assert_eq!(EvidenceKind::Server.to_prefix(), EVIDENCE_PREFIX_SERVER);
    assert_eq!(EvidenceKind::Query.to_prefix(), EVIDENCE_PREFIX_QUERY);
    assert_eq!(EvidenceKind::Cookie.to_prefix(), EVIDENCE_PREFIX_COOKIE);
}

#[test]
fn contains_nul_finds_embedded_terminator() {
    assert!(contains_nul("a\0b"));
    assert!(contains_nul("\0"));
    assert!(!contains_nul(""));
    assert!(!contains_nul("user-agent"));
}
