use nodewatch::config::{
    bootstrap_config_path, load_bootstrap_config, load_bootstrap_config_from_env, load_env_config,
};
use nodewatch::EmailSender;

const ENV_TEXT: &str = "profiles:\n  active: dev\n";

const BOOTSTRAP_TEXT: &str = "server:\n  addr: 127.0.0.1:3000\nservices:\n  - name: auth\n    api: http://auth/health\n  - name: billing\n    api: http://billing/health\n";

#[test]
pub fn load_config_test() {
    match load_bootstrap_config("", "") {
        None => {
            println!("None");
        }
        Some(config) => {
            println!("{:#?}", config);
        }
    }
}

#[test]
fn env_config_extracts_active_profile() {
    let env = load_env_config(ENV_TEXT).expect("profile text must parse");
    assert_eq!(env.profiles.active, "dev");
}

#[test]
fn env_config_rejects_text_without_profiles() {
    assert!(load_env_config("server:\n  addr: x\n").is_none());
    assert!(load_env_config(": not yaml ::::").is_none());
}

#[test]
fn bootstrap_path_is_derived_from_active_profile() {
    assert_eq!(bootstrap_config_path("dev"), "application-dev.yml");
    assert_eq!(bootstrap_config_path("prod"), "application-prod.yml");
}

#[test]
fn bootstrap_config_extracts_server_and_services() {
    let config = load_bootstrap_config_from_env(BOOTSTRAP_TEXT).expect("bootstrap must parse");
    assert_eq!(config.server.addr, "127.0.0.1:3000");
    assert_eq!(config.services.len(), 2);
    assert_eq!(config.services[0].name, "auth");
    assert_eq!(config.services[0].api, "http://auth/health");
    assert_eq!(config.services[1].name, "billing");
    assert_eq!(config.services[1].api, "http://billing/health");
}

#[test]
fn bootstrap_config_rejects_incomplete_service_entries() {
    let text = "server:\n  addr: 127.0.0.1:3000\nservices:\n  - name: auth\n";
    assert!(load_bootstrap_config_from_env(text).is_none());
}

#[test]
fn full_load_needs_both_files() {
    let config = load_bootstrap_config(ENV_TEXT, BOOTSTRAP_TEXT).expect("both texts parse");
    assert_eq!(config.server.addr, "127.0.0.1:3000");
    assert!(load_bootstrap_config("not: profiles", BOOTSTRAP_TEXT).is_none());
}

#[test]
fn email_sender_holds_account_settings() {
    let sender = EmailSender::new(
        "user".to_string(),
        "placeholder".to_string(),
        "smtp.example.com".to_string(),
        587,
    );
    assert_eq!(sender.smtp_username(), "user");
    assert_eq!(sender.smtp_password(), "placeholder");
    assert_eq!(sender.smtp_server(), "smtp.example.com");
    assert_eq!(sender.smtp_port(), 587);
}
