use wordcut_server::conf::{ConfigError, config_of};
use wordcut_server::lifecycle::{ServiceAction, StartupError, plan_boot, service_main};

fn pairs(entries: &[(&str, &str)]) -> Vec<(String, String)> {
    entries
        .iter()
        .map(|(k, v)| (k.to_string(), v.to_string()))
        .collect()
}

fn full_config() -> Vec<(String, String)> {
    pairs(&[
        ("bind_addr", "127.0.0.1:3000"),
        ("num_threads", "4"),
        ("dict_path", "/tmp/dict.txt"),
    ])
}

#[test]
fn valid_config_accepted() {
    let config = config_of(&full_config()).unwrap();
    assert_eq!(config.bind_addr, "127.0.0.1:3000");
    assert_eq!(config.num_threads, 4);
    assert_eq!(config.dict_path, "/tmp/dict.txt");
}

#[test]
fn ipv6_style_bind_addr_accepted() {
    let mut entries = full_config();
    entries[0].1 = "[::1]:8080".to_string();
    let config = config_of(&entries).unwrap();
    assert_eq!(config.bind_addr, "[::1]:8080");
}

#[test]
fn missing_keys_rejected_in_order() {
    let missing_bind = pairs(&[("num_threads", "4"), ("dict_path", "d")]);
    assert_eq!(config_of(&missing_bind), Err(ConfigError::MissingBindAddr));

    let missing_threads = pairs(&[("bind_addr", "127.0.0.1:1"), ("dict_path", "d")]);
    assert_eq!(config_of(&missing_threads), Err(ConfigError::MissingNumThreads));

    let missing_dict = pairs(&[("bind_addr", "127.0.0.1:1"), ("num_threads", "4")]);
    assert_eq!(config_of(&missing_dict), Err(ConfigError::MissingDictPath));
}

#[test]
fn bad_bind_addr_rejected() {
    for addr in [
        "nocolon",
        ":8080",
        "host:",
        "host:abc",
        "host:70000",
        "host:80a",
        "example.com:8080",
        "127.00.0.1:80",
        "256.0.0.1:80",
        "1.2.3:80",
        "1.2.3.4.5:80",
        "127.0.0.1:",
        "[zz]:80",
        "[:1]:80",
        "[]:80",
    ] {
        let mut entries = full_config();
        entries[0].1 = addr.to_string();
        assert_eq!(config_of(&entries), Err(ConfigError::BadBindAddr), "{}", addr);
    }
}

#[test]
fn address_literal_hosts_accepted() {
    for addr in ["0.0.0.0:80", "255.255.255.255:65535", "10.0.0.1:1", "[::]:80", "[fe80::1]:3000"] {
        let mut entries = full_config();
        entries[0].1 = addr.to_string();
        let config = config_of(&entries).unwrap();
        assert_eq!(config.bind_addr, addr);
    }
}

#[test]
fn bad_num_threads_rejected() {
    for threads in ["0", "", "four", "-1", "99999999999999999999"] {
        let mut entries = full_config();
        entries[1].1 = threads.to_string();
        assert_eq!(config_of(&entries), Err(ConfigError::BadNumThreads), "{}", threads);
    }
}

#[test]
fn first_occurrence_of_a_repeated_key_wins() {
    let mut entries = full_config();
    entries.push(("num_threads".to_string(), "8".to_string()));
    let config = config_of(&entries).unwrap();
    assert_eq!(config.num_threads, 4);
}

#[test]
fn service_main_honours_stop_signal() {
    let args = vec!["conf.toml".to_string()];
    assert!(matches!(service_main(&args, true), ServiceAction::Exit { code: 0 }));
}

#[test]
fn service_main_picks_config_path() {
    let args = vec!["conf.toml".to_string()];
    match service_main(&args, false) {
        ServiceAction::RunServer { config_path } => assert_eq!(config_path, "conf.toml"),
        _ => panic!("expected a run decision"),
    }
    match service_main(&Vec::new(), false) {
        ServiceAction::RunServer { config_path } => assert_eq!(config_path, "."),
        _ => panic!("expected a run decision"),
    }
}

#[test]
fn boot_requires_readable_config() {
    let words = vec!["hello".to_string()];
    let r = plan_boot(None, Some(&words));
    assert!(matches!(
        r,
        Err(StartupError::Config(ConfigError::CannotReadConfig))
    ));
}

#[test]
fn boot_reports_rejected_config() {
    let words = vec!["hello".to_string()];
    let entries = pairs(&[("bind_addr", "bad"), ("num_threads", "4"), ("dict_path", "d")]);
    let r = plan_boot(Some(&entries), Some(&words));
    assert!(matches!(r, Err(StartupError::Config(ConfigError::BadBindAddr))));
}

#[test]
fn boot_never_listens_without_dictionary() {
    let r = plan_boot(Some(&full_config()), None);
    assert!(matches!(r, Err(StartupError::CannotLoadDict)));
}

#[test]
fn boot_brings_up_a_working_server() {
    let words = vec!["hello".to_string()];
    let (config, server) = plan_boot(Some(&full_config()), Some(&words)).ok().unwrap();
    assert_eq!(config.bind_addr, "127.0.0.1:3000");
    assert_eq!(config.num_threads, 4);
    let body: Vec<u8> = b"{\"text\": \"hello\"}".to_vec();
    let resp = server.call(
        wordcut_server::pipeline::Method::Post,
        "/wordseg",
        Some(&body),
    );
    assert_eq!(resp.status, 200);
    assert_eq!(resp.body, "{\"words\":[\"hello\"]}");
}
