use sylled::bind_address;
use sylled::util::config::{get_config, Config};

fn config(env: &str) -> Config {
    Config { env: env.to_string(), port: 8080, scylla_node: "127.0.0.1:9042".to_string() }
}

#[test]
fn development_is_dev() {
    assert!(config("development").is_dev());
}

#[test]
fn other_environments_are_not_dev() {
    assert!(!config("production").is_dev());
    assert!(!config("Development").is_dev());
    assert!(!config("development ").is_dev());
    assert!(!config("").is_dev());
}

#[test]
fn loaded_config_is_returned() {
    let loaded: &'static Result<Config, String> = Box::leak(Box::new(Ok(config("test"))));
    let got = get_config(loaded);
    assert_eq!(got.env, "test");
    assert_eq!(got.port, 8080);
    assert_eq!(got.scylla_node, "127.0.0.1:9042");
}

#[test]
fn bind_addresses() {
    assert_eq!(bind_address(8080), "0.0.0.0:8080");
    assert_eq!(bind_address(0), "0.0.0.0:0");
    assert_eq!(bind_address(65535), "0.0.0.0:65535");
}
