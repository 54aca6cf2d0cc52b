use tork_governance::{detect_pii, generate_receipt_id, hash_text, GovernanceAction, PIIType, Tork};
#[test]
fn test_detect_ssn() {
    let result = detect_pii("My SSN is 123-45-6789");
    assert!(result.has_pii);
    assert!(result.types.contains(&PIIType::Ssn));
    assert_eq!(result.redacted_text, "My SSN is [SSN_REDACTED]");
}

#[test]
fn test_detect_email() {
    let result = detect_pii("Contact: john@example.com");
    assert!(result.has_pii);
    assert!(result.types.contains(&PIIType::Email));
}

#[test]
fn test_detect_credit_card() {
    let result = detect_pii("Card: 4111-1111-1111-1111");
    assert!(result.has_pii);
    assert!(result.types.contains(&PIIType::CreditCard));
}

#[test]
fn test_detect_phone() {
    let result = detect_pii("Call 555-123-4567");
    assert!(result.has_pii);
    assert!(result.types.contains(&PIIType::Phone));
}

#[test]
fn test_no_pii() {
    let result = detect_pii("Hello world, no sensitive data here.");
    assert!(!result.has_pii);
    assert_eq!(result.count, 0);
}

#[test]
fn test_multiple_pii_types() {
    let result = detect_pii("SSN: 123-45-6789, Email: test@test.com");
    assert!(result.has_pii);
    assert!(result.types.contains(&PIIType::Ssn));
    assert!(result.types.contains(&PIIType::Email));
    assert_eq!(result.count, 2);
}

#[test]
fn lib_test_tork_govern_with_pii() {
    let mut tork = Tork::new();
    let result = tork.govern("My SSN is 123-45-6789");
    assert_eq!(result.action, GovernanceAction::Redact);
    assert_eq!(result.output, "My SSN is [SSN_REDACTED]");
    assert!(result.pii.has_pii);
}

#[test]
fn test_tork_govern_without_pii() {
    let mut tork = Tork::new();
    let result = tork.govern("Hello world");
    assert_eq!(result.action, GovernanceAction::Allow);
    assert_eq!(result.output, "Hello world");
}

#[test]
fn test_tork_receipt_generation() {
    let mut tork = Tork::new();
    let result = tork.govern("Test input");
    assert!(result.receipt.receipt_id.starts_with("rcpt_"));
    assert!(result.receipt.input_hash.starts_with("sha256:"));
    assert!(!result.receipt.timestamp.to_string().is_empty());
}

#[test]
fn test_tork_statistics() {
    let mut tork = Tork::new();
    tork.govern("Text 1");
    tork.govern("SSN: 123-45-6789");
    tork.govern("Text 3");

    let stats = tork.get_stats();
    assert_eq!(stats.total_calls, 3);
    assert_eq!(stats.total_pii_detected, 1);
}

#[test]
fn test_hash_text_consistency() {
    let hash1 = hash_text("test");
    let hash2 = hash_text("test");
    assert_eq!(hash1, hash2);
    assert!(hash1.starts_with("sha256:"));
    assert_eq!(hash1.len(), 7 + 64); // "sha256:" + 64 hex chars
}

#[test]
fn test_receipt_id_uniqueness() {
    let id1 = generate_receipt_id();
    let id2 = generate_receipt_id();
    assert_ne!(id1, id2);
    assert!(id1.starts_with("rcpt_"));
}
