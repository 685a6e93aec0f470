use node_supervisor::config::ApeNodeArgs;
use node_supervisor::decimal::{render_signed, render_unsigned};

fn sample() -> ApeNodeArgs {
    ApeNodeArgs {
        impersonated_account: "0xabc".to_string(),
        web3_rpc: "wss://x".to_string(),
        listen_host_port: "0.0.0.0:9000".to_string(),
        key_cache_file_path: String::new(),
        log_file_path: "/tmp/n.log".to_string(),
        batch_size: 50,
    }
}

fn strings(tokens: &[&str]) -> Vec<String> {
    tokens.iter().map(|t| t.to_string()).collect()
}

#[test]
fn args_without_key_cache() {
    let expected = strings(&[
        "-account",
        "0xabc",
        "-logpath",
        "/tmp/n.log",
        "-upstream",
        "wss://x",
        "-listen",
        "0.0.0.0:9000",
        "-batchsize",
        "50",
    ]);
    let args = sample().to_args();
    assert_eq!(args, expected);
    assert!(!args.iter().any(|t| t == "-keycache"));
}

#[test]
fn args_with_key_cache() {
    let mut config = sample();
    config.key_cache_file_path = "/var/cache/keys.db".to_string();
    let expected = strings(&[
        "-account",
        "0xabc",
        "-logpath",
        "/tmp/n.log",
        "-upstream",
        "wss://x",
        "-listen",
        "0.0.0.0:9000",
        "-keycache",
        "/var/cache/keys.db",
        "-batchsize",
        "50",
    ]);
    assert_eq!(config.to_args(), expected);
}

#[test]
fn args_key_cache_pair_follows_the_path() {
    let paths = ["", " ", "k", "/a/b", "-keycache"];
    for path in paths {
        let mut config = sample();
        config.key_cache_file_path = path.to_string();
        let args = config.to_args();
        if path.is_empty() {
            assert_eq!(args.len(), 10);
            assert_eq!(args[8], "-batchsize");
        } else {
            assert_eq!(args.len(), 12);
            assert_eq!(args[8], "-keycache");
            assert_eq!(args[9], path);
            assert_eq!(args[10], "-batchsize");
        }
    }
}

#[test]
fn args_are_the_same_every_time() {
    let config = sample();
    let first = config.to_args();
    let second = config.to_args();
    let third = config.clone().to_args();
    assert_eq!(first, second);
    assert_eq!(first, third);
}

#[test]
fn args_keep_empty_values_of_other_fields() {
    let config = ApeNodeArgs {
        impersonated_account: String::new(),
        web3_rpc: String::new(),
        listen_host_port: String::new(),
        key_cache_file_path: String::new(),
        log_file_path: String::new(),
        batch_size: 0,
    };
    let expected = strings(&[
        "-account",
        "",
        "-logpath",
        "",
        "-upstream",
        "",
        "-listen",
        "",
        "-batchsize",
        "0",
    ]);
    assert_eq!(config.to_args(), expected);
}

#[test]
fn args_of_the_default_configuration() {
    let expected = strings(&[
        "-account",
        "0x0000000000000000000000000000000000000000",
        "-logpath",
        "",
        "-upstream",
        "wss://mainnet.infura.io/ws/v3/547e677c41724f8fa8c4bfde1aecef20",
        "-listen",
        "127.0.0.1:10545",
        "-batchsize",
        "100",
    ]);
    assert_eq!(ApeNodeArgs::default_config().to_args(), expected);
}

#[test]
fn args_negative_batch_size() {
    let mut config = sample();
    config.batch_size = -7;
    let args = config.to_args();
    assert_eq!(args[args.len() - 1], "-7");
}

#[test]
fn default_configuration_fields() {
    let config = ApeNodeArgs::default_config();
    assert_eq!(config.impersonated_account, "0x0000000000000000000000000000000000000000");
    assert_eq!(
        config.web3_rpc,
        "wss://mainnet.infura.io/ws/v3/547e677c41724f8fa8c4bfde1aecef20"
    );
    assert_eq!(config.listen_host_port, "127.0.0.1:10545");
    assert_eq!(config.key_cache_file_path, "");
    assert_eq!(config.log_file_path, "");
    assert_eq!(config.batch_size, 100);
}

#[test]
fn clone_is_equal() {
    let mut config = sample();
    config.key_cache_file_path = "k".to_string();
    assert_eq!(config.clone(), config);
}

#[test]
fn decimal_of_small_numbers() {
    assert_eq!(render_unsigned(0), "0");
    assert_eq!(render_unsigned(7), "7");
    assert_eq!(render_unsigned(10), "10");
    assert_eq!(render_unsigned(1234567890), "1234567890");
    assert_eq!(render_signed(0), "0");
    assert_eq!(render_signed(50), "50");
    assert_eq!(render_signed(-1), "-1");
    assert_eq!(render_signed(-1050), "-1050");
}

#[test]
fn decimal_of_the_limits() {
    assert_eq!(render_unsigned(u64::MAX), "18446744073709551615");
    assert_eq!(render_signed(i64::MAX), "9223372036854775807");
    assert_eq!(render_signed(i64::MIN), "-9223372036854775808");
    assert_eq!(render_signed(i64::MIN + 1), "-9223372036854775807");
}

#[test]
fn decimal_agrees_with_the_standard_text() {
    let mut n: i64 = -5000;
    while n <= 5000 {
        assert_eq!(render_signed(n), n.to_string());
        n += 1;
    }
    let mut m: i64 = 1;
    let mut k = 0;
    while k < 62 {
        assert_eq!(render_signed(m), m.to_string());
        assert_eq!(render_signed(-m), (-m).to_string());
        assert_eq!(render_signed(m - 1), (m - 1).to_string());
        assert_eq!(render_unsigned(m as u64), (m as u64).to_string());
        m *= 2;
        k += 1;
    }
}
