use notion_diary::env::{ConfigError, Env};

#[test]
fn test_both_values_present() {
    let env = Env::from_values(Some("db".to_string()), Some("token".to_string())).unwrap();
    assert_eq!(env.database_id, "db");
    assert_eq!(env.api_token, "token");
}

#[test]
fn test_missing_database_id_fails() {
    let result = Env::from_values(None, Some("token".to_string()));
    assert!(matches!(result, Err(ConfigError::MissingDatabaseId)));
    assert_eq!(
        result.unwrap_err().message(),
        "NOTION_DIARY_DATABASE_ID must be set."
    );
}

#[test]
fn test_missing_api_token_fails() {
    let result = Env::from_values(Some("db".to_string()), None);
    assert!(matches!(result, Err(ConfigError::MissingApiToken)));
    assert_eq!(result.unwrap_err().message(), "NOTION_API_TOKEN must be set.");
}

#[test]
fn test_both_values_missing_reports_the_database_id_first() {
    let result = Env::from_values(None, None);
    assert!(matches!(result, Err(ConfigError::MissingDatabaseId)));
}
