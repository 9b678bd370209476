use std::sync::Arc;
use yourwallet::services::AccountService;
use yourwallet::services::AppConfig;
use yourwallet::services::AppState;
use yourwallet::services::ServiceError;
use yourwallet::services::StatisticsService;
use yourwallet::services::TransactionService;
use yourwallet::services::UserService;

#[test]
fn default_config_uses_fallbacks() {
    let c = AppConfig::default();
    assert_eq!(c.database_url, "postgresql://localhost/yourwallet");
    assert_eq!(c.redis_url, "redis://localhost:6379");
    assert_eq!(c.port, 3000);
}

#[test]
fn config_from_texts_parses_the_port() {
    let c = AppConfig::from_setting_texts(Some("db".to_string()), None, None, Some("8080".to_string()));
    assert_eq!(c.database_url, "db");
    assert_eq!(c.redis_url, "redis://localhost:6379");
    assert_eq!(c.port, 8080);
    let c = AppConfig::from_setting_texts(None, None, Some("k".to_string()), Some("70000".to_string()));
    assert_eq!(c.port, 3000);
    assert_eq!(c.jwt_secret, "k");
    let c = AppConfig::from_setting_texts(None, None, None, Some("http".to_string()));
    assert_eq!(c.port, 3000);
}

#[test]
fn services_share_the_state() {
    let state = Arc::new(AppState::new(AppConfig::from_settings(None, None, None, Some(1))));
    assert_eq!(state.config.port, 1);
    let u = UserService::new(state.clone());
    let a = AccountService::new(state.clone());
    let t = TransactionService::new(state.clone());
    let s = StatisticsService::new(state.clone());
    assert!(Arc::ptr_eq(&u.state, &state));
    assert!(Arc::ptr_eq(&a.state, &state));
    assert!(Arc::ptr_eq(&t.state, &state));
    assert!(Arc::ptr_eq(&s.state, &state));
}

#[test]
fn error_messages() {
    assert_eq!(ServiceError::NotFound("user".to_string()).message(), "Not found: user");
    assert_eq!(ServiceError::Database("down".to_string()).message(), "Database error: down");
    assert_eq!(ServiceError::AuthenticationFailed.message(), "Authentication failed");
    assert_eq!(ServiceError::AuthorizationFailed.message(), "Authorization failed");
    assert_eq!(ServiceError::InvalidInput("x".to_string()).message(), "Invalid input: x");
    assert_eq!(ServiceError::Internal("y".to_string()).message(), "Internal server error: y");
}
