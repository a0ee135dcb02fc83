use kubos_config::address::Address;
use kubos_config::args::{config_path, resolve_path};
use kubos_config::config::{parse_config, Config, ConfigError};
use serde_json::Value;

const DOC: &str = r#"{
    "telemetry-service": {
        "addr": {"ip": "10.0.0.5", "port": 9000},
        "storage": "/var/db"
    },
    "broken-port": {
        "addr": {"ip": "10.0.0.6", "port": "9001"},
        "retries": 3
    },
    "no-addr": {
        "retries": 5
    },
    "as-array": {
        "addr": ["192.168.1.1", 80]
    }
}"#;

fn args(list: &[&str]) -> Vec<String> {
    list.iter().map(|s| s.to_string()).collect()
}

fn is_default(c: &Config) -> bool {
    c.hosturl() == "127.0.0.1:8080" && c.raw == Value::String(String::new())
}

#[test]
fn default_config_is_localhost() {
    let c = Config::default();
    assert_eq!(c.hosturl(), "127.0.0.1:8080");
    assert_eq!(c.raw, Value::String(String::new()));
}

#[test]
fn default_address_url() {
    let c = Config::new("anything", None);
    assert_eq!(c.hosturl(), "127.0.0.1:8080");
}

#[test]
fn absent_service_gets_defaults() {
    let c = Config::new("unknown-service", Some(DOC.to_string()));
    assert!(is_default(&c));
}

#[test]
fn absent_service_in_non_object_document() {
    let c = Config::new("svc", Some("[1, 2, 3]".to_string()));
    assert!(is_default(&c));
}

#[test]
fn configured_address_url() {
    let c = Config::new("telemetry-service", Some(DOC.to_string()));
    assert_eq!(c.hosturl(), "10.0.0.5:9000");
    assert_eq!(c.raw["storage"], Value::String("/var/db".to_string()));
}

#[test]
fn string_port_falls_back_keeping_raw() {
    let c = Config::new("broken-port", Some(DOC.to_string()));
    assert_eq!(c.hosturl(), "127.0.0.1:8080");
    assert_eq!(c.raw["retries"].as_u64(), Some(3));
    assert_eq!(c.raw["addr"]["ip"], Value::String("10.0.0.6".to_string()));
}

#[test]
fn missing_addr_keeps_raw() {
    let c = Config::new("no-addr", Some(DOC.to_string()));
    assert_eq!(c.hosturl(), "127.0.0.1:8080");
    assert_eq!(c.raw["retries"].as_u64(), Some(5));
}

#[test]
fn array_addr_is_read() {
    let c = Config::new("as-array", Some(DOC.to_string()));
    assert_eq!(c.hosturl(), "192.168.1.1:80");
}

#[test]
fn empty_file_gives_defaults() {
    let c = Config::new("telemetry-service", Some(String::new()));
    assert!(is_default(&c));
}

#[test]
fn missing_file_gives_defaults() {
    let c = Config::new("telemetry-service", None);
    assert!(is_default(&c));
}

#[test]
fn invalid_json_gives_defaults() {
    let c = Config::new("telemetry-service", Some("{\"telemetry-service\": ".to_string()));
    assert!(is_default(&c));
}

#[test]
fn parse_config_rejects_invalid_json() {
    assert!(matches!(parse_config("svc", "not json"), Err(ConfigError::InvalidJson)));
    assert!(matches!(parse_config("svc", ""), Err(ConfigError::InvalidJson)));
}

#[test]
fn parse_config_reads_section() {
    let c = parse_config("telemetry-service", DOC).unwrap();
    assert_eq!(c.hosturl(), "10.0.0.5:9000");
    let expected: Value = serde_json::from_str(DOC).unwrap();
    assert_eq!(c.raw, expected["telemetry-service"]);
}

#[test]
fn loading_twice_gives_same_config() {
    let a = Config::new("broken-port", Some(DOC.to_string()));
    let b = Config::new("broken-port", Some(DOC.to_string()));
    assert_eq!(a.hosturl(), b.hosturl());
    assert_eq!(a.raw, b.raw);
}

#[test]
fn port_out_of_range_falls_back() {
    let text = r#"{"svc": {"addr": {"ip": "10.1.1.1", "port": 70000}}}"#;
    assert_eq!(Config::new("svc", Some(text.to_string())).hosturl(), "127.0.0.1:8080");
}

#[test]
fn negative_port_falls_back() {
    let text = r#"{"svc": {"addr": {"ip": "10.1.1.1", "port": -1}}}"#;
    assert_eq!(Config::new("svc", Some(text.to_string())).hosturl(), "127.0.0.1:8080");
}

#[test]
fn fractional_port_falls_back() {
    let text = r#"{"svc": {"addr": {"ip": "10.1.1.1", "port": 80.5}}}"#;
    assert_eq!(Config::new("svc", Some(text.to_string())).hosturl(), "127.0.0.1:8080");
}

#[test]
fn missing_ip_falls_back() {
    let text = r#"{"svc": {"addr": {"port": 81}}}"#;
    assert_eq!(Config::new("svc", Some(text.to_string())).hosturl(), "127.0.0.1:8080");
}

#[test]
fn extremes_of_port_range() {
    let text = r#"{"a": {"addr": {"ip": "h", "port": 0}}, "b": {"addr": {"ip": "h", "port": 65535}}}"#;
    assert_eq!(Config::new("a", Some(text.to_string())).hosturl(), "h:0");
    assert_eq!(Config::new("b", Some(text.to_string())).hosturl(), "h:65535");
}

#[test]
fn address_from_json_object_and_array() {
    let obj: Value = serde_json::from_str(r#"{"ip": "1.2.3.4", "port": 22, "extra": true}"#).unwrap();
    assert_eq!(Address::from_json(&obj).unwrap().hosturl(), "1.2.3.4:22");
    let arr: Value = serde_json::from_str(r#"["1.2.3.4", 23]"#).unwrap();
    assert_eq!(Address::from_json(&arr).unwrap().hosturl(), "1.2.3.4:23");
    let long: Value = serde_json::from_str(r#"["1.2.3.4", 23, 1]"#).unwrap();
    assert!(Address::from_json(&long).is_none());
    let text: Value = serde_json::from_str(r#""1.2.3.4:23""#).unwrap();
    assert!(Address::from_json(&text).is_none());
}

#[test]
fn address_default_url() {
    assert_eq!(Address::default().hosturl(), "127.0.0.1:8080");
}

#[test]
fn config_option_overrides_default_path() {
    let path = config_path(&args(&["-c", "/tmp/alt.json"])).unwrap();
    assert_eq!(path, "/tmp/alt.json");
    let alt = r#"{"svc": {"addr": {"ip": "10.9.9.9", "port": 1234}}}"#;
    let main = r#"{"svc": {"addr": {"ip": "10.0.0.1", "port": 4321}}}"#;
    let contents = if path == "/tmp/alt.json" { alt } else { main };
    assert_eq!(Config::new("svc", Some(contents.to_string())).hosturl(), "10.9.9.9:1234");
}

#[test]
fn long_config_option() {
    assert_eq!(config_path(&args(&["--config", "/etc/x.json"])).unwrap(), "/etc/x.json");
    assert_eq!(config_path(&args(&["--config=/etc/y.json", "-h"])).unwrap(), "/etc/y.json");
}

#[test]
fn no_option_gives_default_path() {
    assert_eq!(config_path(&args(&[])).unwrap(), "/home/system/etc/config.json");
    assert_eq!(config_path(&args(&["-h"])).unwrap(), "/home/system/etc/config.json");
}

#[test]
fn bad_command_line_is_usage_error() {
    assert!(matches!(config_path(&args(&["-x"])), Err(ConfigError::Usage(_))));
    assert!(matches!(config_path(&args(&["-c"])), Err(ConfigError::Usage(_))));
}

#[test]
fn resolve_path_choices() {
    assert_eq!(resolve_path(None), "/home/system/etc/config.json");
    assert_eq!(resolve_path(Some("/a/b.json".to_string())), "/a/b.json");
}

#[test]
fn repeated_config_option_is_usage_error() {
    assert!(matches!(config_path(&args(&["-c", "/a", "-c", "/b"])), Err(ConfigError::Usage(_))));
}

#[test]
fn help_with_value_is_usage_error() {
    assert!(matches!(config_path(&args(&["--help=yes"])), Err(ConfigError::Usage(_))));
}

#[test]
fn free_arguments_are_accepted() {
    assert_eq!(config_path(&args(&["extra", "-c", "/x.json"])).unwrap(), "/x.json");
}
