use user_service::config::{base_config_file, mode_config_file, AppConfig, GrpcConfig, OracleConfig, ServerConfig};
use user_service::grammar::substitute_env_vars;

fn env(pairs: &[(&str, &str)]) -> Vec<(String, String)> {
    pairs.iter().map(|(k, v)| (k.to_string(), v.to_string())).collect()
}

#[test]
fn placeholders_take_the_variable_or_the_default() {
    let vars = env(&[("DB_URL", "oracle://db"), ("PORT", "50051")]);
    assert_eq!(substitute_env_vars("url: ${DB_URL}", &vars), "url: oracle://db");
    assert_eq!(substitute_env_vars("url: ${DB_URL:fallback}", &vars), "url: oracle://db");
    assert_eq!(substitute_env_vars("user: ${DB_USER:scott}", &vars), "user: scott");
    assert_eq!(substitute_env_vars("user: ${DB_USER}", &vars), "user: ");
    assert_eq!(substitute_env_vars("user: ${DB_USER:}", &vars), "user: ");
    assert_eq!(substitute_env_vars("${PORT}${PORT}", &vars), "5005150051");
    assert_eq!(substitute_env_vars("a: ${X:x:y/z}!", &vars), "a: x:y/z!");
}

#[test]
fn malformed_placeholders_are_left_alone() {
    let vars = env(&[("A", "1")]);
    assert_eq!(substitute_env_vars("${}", &vars), "${}");
    assert_eq!(substitute_env_vars("${A", &vars), "${A");
    assert_eq!(substitute_env_vars("${A:no-end", &vars), "${A:no-end");
    assert_eq!(substitute_env_vars("${A-B}", &vars), "${A-B}");
    assert_eq!(substitute_env_vars("$A {A}", &vars), "$A {A}");
    assert_eq!(substitute_env_vars("$${A}", &vars), "$1");
    assert_eq!(substitute_env_vars("plain text", &vars), "plain text");
    assert_eq!(substitute_env_vars("", &vars), "");
}

#[test]
fn first_variable_of_a_name_wins() {
    let vars = env(&[("A", "first"), ("A", "second")]);
    assert_eq!(substitute_env_vars("${A}", &vars), "first");
}

#[test]
fn config_files_follow_the_run_mode() {
    assert_eq!(base_config_file(), "config/application.yml");
    assert_eq!(mode_config_file(None), "config/application-local.yml");
    assert_eq!(mode_config_file(Some("prod".to_string())), "config/application-prod.yml");
}

#[test]
fn config_parts_are_kept() {
    let server = ServerConfig::new(50051, "0.0.0.0".to_string());
    assert_eq!(server.get_address(), "0.0.0.0:50051");
    let oracle = OracleConfig::new("oracle://x".to_string(), true, 1, 10);
    let grpc = GrpcConfig::new(32);
    let config = AppConfig::new(server, oracle, grpc);
    assert_eq!(config.get_server().get_port(), 50051);
    assert_eq!(config.get_server().get_host(), "0.0.0.0");
    assert_eq!(config.get_oracle().get_url(), "oracle://x");
    assert!(config.get_oracle().get_migration_enabled());
    assert_eq!(config.get_oracle().get_min_idle(), 1);
    assert_eq!(config.get_oracle().get_max_conn(), 10);
    assert_eq!(config.get_grpc().get_concurrency_limit_per_connection(), 32);
}
