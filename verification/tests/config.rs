use executor::config::ExecutorConfig;

#[test]
fn test_relayer_config_compile_cmd() {
    let config = ExecutorConfig {
        production: true,
        rpc_url: "http://example.com".to_string(),
        account_id: "test.near".to_string(),
        key_path: "/path/to/key".to_string(),
    };

    let cmd = config.compile_cmd();

    assert_eq!(cmd[0], "run-args");
    assert!(cmd.contains(&"--production".to_string()));
    assert!(cmd.contains(&"--rpc-url".to_string()));
    assert!(cmd.contains(&"http://example.com".to_string()));
    assert!(cmd.contains(&"--da-account-id".to_string()));
    assert!(cmd.contains(&"test.near".to_string()));
}

#[test]
fn compile_cmd_production_is_exact() {
    let config = ExecutorConfig {
        production: true,
        rpc_url: "http://example.com".to_string(),
        account_id: "test.near".to_string(),
        key_path: "/path/to/key".to_string(),
    };
    assert_eq!(
        config.compile_cmd(),
        vec![
            "run-args",
            "--production",
            "--rpc-url",
            "http://example.com",
            "--da-account-id",
            "test.near",
            "--key-path",
            "/path/to/key",
        ]
    );
}

#[test]
fn compile_cmd_without_production_has_no_flag() {
    let config = ExecutorConfig {
        production: false,
        rpc_url: "wss://node".to_string(),
        account_id: "acc".to_string(),
        key_path: "k".to_string(),
    };
    let cmd = config.compile_cmd();
    assert_eq!(
        cmd,
        vec!["run-args", "--rpc-url", "wss://node", "--da-account-id", "acc", "--key-path", "k"]
    );
    assert!(!cmd.contains(&"--production".to_string()));
}
