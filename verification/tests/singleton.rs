use design_patterns::singleton::auth::AuthenticationManager;
use design_patterns::singleton::cache::Cache;
use design_patterns::singleton::connection_pool::{ConnectionPool, DbConnection};
use design_patterns::singleton::service_config::Config;

#[test]
fn sessions_are_found_by_their_tokens() {
    let mut manager = AuthenticationManager::new();
    assert!(!manager.validate_token("nothing"));
    let token = manager.create_session("user123");
    assert_eq!(token.chars().count(), 36);
    assert!(manager.validate_token(&token));
    assert_eq!(manager.get_user_id(&token), Some("user123".to_string()));
    let another = manager.create_session("user456");
    assert_ne!(token, another);
    assert_eq!(manager.get_user_id(&another), Some("user456".to_string()));
    assert_eq!(manager.get_user_id(&token), Some("user123".to_string()));
    assert_eq!(manager.get_user_id("unknown"), None);
}

#[test]
fn tokens_are_hyphenated_lower_case_uuids() {
    let mut manager = AuthenticationManager::new();
    let token = manager.create_session("u");
    let bytes = token.as_bytes();
    assert_eq!(bytes.len(), 36);
    for (i, b) in bytes.iter().enumerate() {
        if i == 8 || i == 13 || i == 18 || i == 23 {
            assert_eq!(*b, b'-');
        } else {
            assert!(b.is_ascii_digit() || (b'a'..=b'f').contains(b));
        }
    }
    assert_eq!(bytes[14], b'4');
}

#[test]
fn open_session_hands_a_token_over() {
    let mut manager = AuthenticationManager::new();
    manager.open_session("t".to_string(), "first");
    manager.open_session("t".to_string(), "second");
    manager.open_session("other".to_string(), "third");
    assert_eq!(manager.get_user_id("t"), Some("second".to_string()));
    assert_eq!(manager.get_user_id("other"), Some("third".to_string()));
}

#[test]
fn cache_entry_expires_after_its_time_to_live() {
    let mut cache = Cache::new();
    cache.set("key1".to_string(), "value1".to_string(), Some(5), 100);
    assert_eq!(cache.get("key1", 100), Some("value1".to_string()));
    assert_eq!(cache.get("key1", 105), Some("value1".to_string()));
    assert_eq!(cache.get("key1", 106), None);
    // the expired entry is gone, also for an earlier time
    assert_eq!(cache.get("key1", 100), None);
}

#[test]
fn cache_entry_without_time_to_live_stays() {
    let mut cache = Cache::new();
    cache.set("key2".to_string(), "value2".to_string(), None, 0);
    assert_eq!(cache.get("key2", u64::MAX), Some("value2".to_string()));
    assert_eq!(cache.get("missing", 0), None);
    cache.set("key2".to_string(), "newer".to_string(), Some(0), 10);
    assert_eq!(cache.get("key2", 10), Some("newer".to_string()));
    assert_eq!(cache.get("key2", 11), None);
}

#[test]
fn cache_time_to_live_beyond_the_clock_never_ends() {
    let mut cache = Cache::new();
    cache.set("k".to_string(), "v".to_string(), Some(u64::MAX), 1);
    assert_eq!(cache.get("k", u64::MAX), Some("v".to_string()));
}

#[test]
fn connection_pool_hands_out_oldest_first() {
    let mut pool = ConnectionPool::new();
    assert!(pool.get_connection().is_none());
    pool.add_connection(DbConnection {});
    pool.add_connection(DbConnection {});
    assert_eq!(pool.available(), 2);
    let conn = pool.get_connection().unwrap();
    assert_eq!(pool.available(), 1);
    pool.return_connection(conn);
    assert_eq!(pool.available(), 2);
    assert!(pool.get_connection().is_some());
    assert!(pool.get_connection().is_some());
    assert!(pool.get_connection().is_none());
    assert_eq!(pool.available(), 0);
}

#[test]
fn settings_start_with_the_default() {
    let mut manager = design_patterns::singleton::settings::ConfigManager::new();
    assert_eq!(manager.get_settings(), "Default settings");
    manager.set_settings("New settings".to_string());
    assert_eq!(manager.get_settings(), "New settings");
}

#[test]
fn global_config_starts_with_three_settings() {
    let mut manager = design_patterns::singleton::global_config::ConfigManager::new();
    assert_eq!(manager.get_setting("db_host"), Some("localhost".to_string()));
    assert_eq!(manager.get_setting("db_port"), Some("5432".to_string()));
    assert_eq!(manager.get_setting("api_key"), Some("123456".to_string()));
    assert_eq!(manager.get_setting("other"), None);
    manager.set_setting("db_host", "127.0.0.1");
    assert_eq!(manager.get_setting("db_host"), Some("127.0.0.1".to_string()));
    manager.set_setting("other", "x");
    assert_eq!(manager.get_setting("other"), Some("x".to_string()));
    assert_eq!(manager.get_setting("db_port"), Some("5432".to_string()));
}

#[test]
fn service_config_is_kept_once_loaded() {
    let mut manager = design_patterns::singleton::service_config::ConfigManager::new();
    assert!(!manager.is_loaded());
    manager.set_config(Config { database_url: "postgres://db".to_string(), cache_size: 64, max_connections: 8 });
    assert!(manager.is_loaded());
    let config = manager.get_config();
    assert_eq!(config.database_url, "postgres://db");
    assert_eq!(config.cache_size, 64);
    assert_eq!(config.max_connections, 8);
    manager.set_config(Config { database_url: "other".to_string(), cache_size: 1, max_connections: 2 });
    assert_eq!(manager.get_config().database_url, "other");
}
