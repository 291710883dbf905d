use github_rs::auth::{build_auth_headers, AuthToken, EnvVarError};

#[test]
fn test_auth_token_creation() {
    let token = "test_token".to_string();
    let auth = AuthToken::new(token.clone());
    assert_eq!(auth.as_str(), token);
}

#[test]
fn test_build_auth_headers() {
    let token = "test_token";
    let headers = build_auth_headers(token);
    assert_eq!(headers.authorization, format!("token {}", token));
    assert_eq!(headers.accept, "application/vnd.github.v3+json");
}

#[test]
fn test_build_auth_headers_empty_token() {
    let headers = build_auth_headers("");
    assert_eq!(headers.authorization, "token ");
}

#[test]
fn test_from_env_value_present() {
    let token = AuthToken::from_env_value(Some("abc123token".to_string())).unwrap();
    assert_eq!(token.as_str(), "abc123token");
}

#[test]
fn test_from_env_value_missing() {
    let result = AuthToken::from_env_value(None);
    assert!(matches!(result, Err(EnvVarError::NotPresent)));
}
