use tork_governance::middleware::{
    extract_content, governs_request, process_request, should_block, should_protect_path,
    should_skip_path, ErrorResponse, MiddlewareConfig, TorkGuard,
};
use tork_governance::{GovernanceAction, GovernanceResult, PIIType, Tork, TorkConfig};

fn process(config: &MiddlewareConfig, method: &str, path: &str, body: &str) -> Option<GovernanceResult> {
    let mut tork = Tork::new();
    process_request(&mut tork, config, method, path, body)
}

#[test]
fn test_middleware_creation() {
    let config = MiddlewareConfig::default();
    assert_eq!(config.protected_paths, vec!["/api/"]);
}

#[test]
fn test_layer_creation() {
    let config = MiddlewareConfig::default();
    assert_eq!(config.protected_paths, vec!["/api/"]);
}

#[test]
fn test_fairing_creation() {
    let config = MiddlewareConfig::default();
    assert_eq!(config.protected_paths, vec!["/api/"]);
}

#[test]
fn actix_test_process_post_with_pii() {
    let result = process(
        &MiddlewareConfig::default(),
        "POST",
        "/api/chat",
        r#"{"content": "My SSN is 123-45-6789"}"#,
    );
    assert!(result.is_some());
    let result = result.unwrap();
    assert!(result.pii.has_pii);
}

#[test]
fn actix_test_skip_get_request() {
    let result = process(&MiddlewareConfig::default(), "GET", "/api/chat", r#"{"content": "test"}"#);
    assert!(result.is_none());
}

#[test]
fn test_skip_unprotected_path() {
    let result = process(&MiddlewareConfig::default(), "POST", "/health", r#"{"content": "test"}"#);
    assert!(result.is_none());
}

#[test]
fn axum_test_process_post_with_pii() {
    let result = process(
        &MiddlewareConfig::default(),
        "POST",
        "/api/chat",
        r#"{"content": "My email is test@example.com"}"#,
    );
    assert!(result.is_some());
    let result = result.unwrap();
    assert!(result.pii.has_pii);
}

#[test]
fn axum_test_skip_get_request() {
    let result = process(&MiddlewareConfig::default(), "GET", "/api/chat", r#"{"content": "test"}"#);
    assert!(result.is_none());
}

#[test]
fn test_custom_config() {
    let config = MiddlewareConfig {
        protected_paths: vec!["/v1/".to_string()],
        skip_paths: vec!["/v1/health".to_string()],
        content_fields: vec!["data".to_string()],
    };
    let result = process(&config, "POST", "/v1/chat", r#"{"data": "SSN: 123-45-6789"}"#);
    assert!(result.is_some());
}

#[test]
fn rocket_test_process_post_with_pii() {
    let result = process(
        &MiddlewareConfig::default(),
        "POST",
        "/api/chat",
        r#"{"content": "Card: 4111-1111-1111-1111"}"#,
    );
    assert!(result.is_some());
    let result = result.unwrap();
    assert!(result.pii.has_pii);
}

#[test]
fn test_guard_methods() {
    let mut tork = Tork::new();
    let result = tork.govern("SSN: 123-45-6789");
    let guard = TorkGuard::new(Some(result));

    assert!(guard.has_result());
    assert!(guard.is_redacted());
    assert!(!guard.is_denied());
    assert!(guard.output().is_some());
    assert!(guard.receipt_id().is_some());
}

#[test]
fn test_guard_empty() {
    let guard = TorkGuard::new(None);

    assert!(!guard.has_result());
    assert!(guard.is_allowed());
    assert!(!guard.is_denied());
}

#[test]
fn guard_output_and_into_result() {
    let mut tork = Tork::new();
    let result = tork.govern("My SSN is 123-45-6789");
    let guard = TorkGuard::new(Some(result));
    assert_eq!(guard.output(), Some("My SSN is [SSN_REDACTED]"));
    assert!(!guard.is_allowed());
    assert_eq!(guard.result().unwrap().action, GovernanceAction::Redact);
    let id = guard.receipt_id().unwrap().to_string();
    let back = guard.into_result().unwrap();
    assert_eq!(back.receipt.receipt_id, id);
}

#[test]
fn skip_and_protect_prefixes() {
    let config = MiddlewareConfig {
        protected_paths: vec!["/api/".to_string(), "/v2/".to_string()],
        skip_paths: vec!["/api/health".to_string()],
        content_fields: vec!["content".to_string()],
    };
    assert!(should_protect_path("/api/chat", &config));
    assert!(should_protect_path("/v2/x", &config));
    assert!(!should_protect_path("/apix", &config));
    assert!(!should_protect_path("", &config));
    assert!(should_skip_path("/api/health/live", &config));
    assert!(!should_skip_path("/api/chat", &config));
    assert!(!should_skip_path("/api/chat", &MiddlewareConfig::default()));
}

#[test]
fn governed_methods_and_paths() {
    let config = MiddlewareConfig {
        protected_paths: vec!["/api/".to_string()],
        skip_paths: vec!["/api/health".to_string()],
        content_fields: vec!["content".to_string()],
    };
    assert!(governs_request("POST", "/api/chat", &config));
    assert!(governs_request("PUT", "/api/chat", &config));
    assert!(governs_request("PATCH", "/api/chat", &config));
    assert!(!governs_request("GET", "/api/chat", &config));
    assert!(!governs_request("DELETE", "/api/chat", &config));
    assert!(!governs_request("post", "/api/chat", &config));
    assert!(!governs_request("POST", "/api/health", &config));
    assert!(!governs_request("POST", "/other", &config));
}

#[test]
fn extract_content_first_field_wins() {
    let config = MiddlewareConfig::default();
    assert_eq!(
        extract_content(r#"{"text": "third", "message": "second"}"#, &config),
        Some("second".to_string())
    );
    assert_eq!(
        extract_content(r#"{"content": "", "prompt": "p"}"#, &config),
        Some("p".to_string())
    );
    assert_eq!(
        extract_content(r#"{"content": 5, "input": "i"}"#, &config),
        Some("i".to_string())
    );
    assert_eq!(extract_content(r#"{"other": "x"}"#, &config), None);
    assert_eq!(extract_content(r#"["content"]"#, &config), None);
    assert_eq!(extract_content("not json", &config), None);
    assert_eq!(extract_content("", &config), None);
}

#[test]
fn process_request_without_content_leaves_engine_alone() {
    let mut tork = Tork::new();
    let config = MiddlewareConfig::default();
    assert!(process_request(&mut tork, &config, "POST", "/api/chat", r#"{"content": ""}"#).is_none());
    assert!(process_request(&mut tork, &config, "POST", "/api/chat", "garbage").is_none());
    assert_eq!(tork.get_stats().total_calls, 0);
    let r = process_request(&mut tork, &config, "PUT", "/api/x", r#"{"query": "hello"}"#).unwrap();
    assert_eq!(r.action, GovernanceAction::Allow);
    assert_eq!(r.output, "hello");
    assert_eq!(tork.get_stats().total_calls, 1);
}

#[test]
fn error_response_and_blocking() {
    let config = TorkConfig {
        policy_version: "1.0.0".to_string(),
        default_action: GovernanceAction::Deny,
    };
    let mut tork = Tork::with_config(config);
    let result = tork.govern("SSN: 123-45-6789, Email: test@test.com");
    assert!(should_block(&result));
    let resp = ErrorResponse::from_result(&result);
    assert_eq!(resp.error, "Request blocked by governance policy");
    assert_eq!(resp.receipt_id, result.receipt.receipt_id);
    let mut names = resp.pii_types.clone();
    names.sort();
    assert_eq!(names, vec!["email".to_string(), "ssn".to_string()]);

    let mut allow = Tork::new();
    let clean = allow.govern("nothing here");
    assert!(!should_block(&clean));
}

#[test]
fn lowercase_category_names() {
    assert_eq!(PIIType::CreditCard.lowercase_name(), "creditcard");
    assert_eq!(PIIType::DateOfBirth.lowercase_name(), "dateofbirth");
    assert_eq!(PIIType::DriversLicense.lowercase_name(), "driverslicense");
    assert_eq!(PIIType::IpAddress.lowercase_name(), "ipaddress");
}
