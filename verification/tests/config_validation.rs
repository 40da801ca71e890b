use create2_vanity::config::{parse_init_code, Config, ConfigError};
use create2_vanity::pattern::PatternRule;

fn rule(start: &str, end: &str) -> PatternRule {
    PatternRule {
        start_with: String::from(start),
        end_with: String::from(end),
    }
}

fn valid_config() -> Config {
    Config {
        abi: serde_json::Value::Null,
        bytecode: String::from("0x608060405234"),
        operator: String::from("0x00000000219ab540356cbb839cbe05303d7705fa"),
        create2: String::from("0x4e59b44847b379578588920ca78fbf26c0b4956c"),
        entrypoint: String::from("0x5ff137d4b0fdcd49dca30c7cf57e578a026d2789"),
        rpc: String::from("https://example.invalid/rpc"),
        batch_size: None,
        threads: None,
        rules: vec![rule("0x0000", "dead")],
    }
}

#[test]
fn valid_configuration_passes() {
    assert!(valid_config().validate().is_ok());
}

#[test]
fn operator_must_be_prefixed_forty_hex_digits() {
    let mut c = valid_config();
    c.operator = String::from("00000000219ab540356cbb839cbe05303d7705fa");
    match c.validate() {
        Err(ConfigError::InvalidOperator(s)) => assert_eq!(s, c.operator),
        other => panic!("unexpected: {:?}", other),
    }

    let mut c = valid_config();
    c.operator = String::from("0x00000000219ab540356cbb839cbe05303d7705f");
    assert!(matches!(c.validate(), Err(ConfigError::InvalidOperator(_))));

    let mut c = valid_config();
    c.operator = String::from("0x00000000219ab540356cbb839cbe05303d7705fg");
    assert!(matches!(c.validate(), Err(ConfigError::InvalidOperator(_))));
}

#[test]
fn create2_field_is_validated_separately() {
    let mut c = valid_config();
    c.create2 = String::from("0xnot-an-address-at-all-but-42-characters-x");
    assert!(matches!(c.validate(), Err(ConfigError::InvalidCreate2(_))));
}

#[test]
fn entrypoint_is_validated() {
    let mut c = valid_config();
    c.entrypoint = String::from("0x123");
    assert!(matches!(c.validate(), Err(ConfigError::InvalidEntryPoint(_))));
}

#[test]
fn uppercase_hex_addresses_are_accepted() {
    let mut c = valid_config();
    c.operator = String::from("0x00000000219AB540356CBB839CBE05303D7705FA");
    assert!(c.validate().is_ok());
}

#[test]
fn bytecode_must_be_prefixed_and_nonempty() {
    let mut c = valid_config();
    c.bytecode = String::from("");
    assert!(matches!(c.validate(), Err(ConfigError::InvalidBytecode)));

    let mut c = valid_config();
    c.bytecode = String::from("608060");
    assert!(matches!(c.validate(), Err(ConfigError::InvalidBytecode)));
}

#[test]
fn rpc_must_look_like_an_http_endpoint() {
    let mut c = valid_config();
    c.rpc = String::from("ftp://example.invalid");
    assert!(matches!(c.validate(), Err(ConfigError::InvalidRPC)));

    let mut c = valid_config();
    c.rpc = String::from("http://a");
    assert!(matches!(c.validate(), Err(ConfigError::InvalidRPC)));
}

#[test]
fn rule_list_must_be_nonempty() {
    let mut c = valid_config();
    c.rules = Vec::new();
    assert!(matches!(c.validate(), Err(ConfigError::NoRules)));
}

#[test]
fn rule_fields_must_be_nonempty() {
    let mut c = valid_config();
    c.rules = vec![rule("0x00", "")];
    assert!(matches!(c.validate(), Err(ConfigError::InvalidRule)));

    let mut c = valid_config();
    c.rules = vec![rule("", "00")];
    assert!(matches!(c.validate(), Err(ConfigError::InvalidRule)));
}

#[test]
fn batch_size_and_threads_default() {
    let c = valid_config();
    assert_eq!(c.get_batch_size(), 10000);
    assert_eq!(c.get_threads(), 8);

    let mut c = valid_config();
    c.batch_size = Some(2500);
    c.threads = Some(3);
    assert_eq!(c.get_batch_size(), 2500);
    assert_eq!(c.get_threads(), 3);
}

#[test]
fn accessors_return_the_parsed_address_bytes() {
    let c = valid_config();
    let deployer = c.get_create2_address();
    let mut expected = [0u8; 20];
    expected[..].copy_from_slice(&hex::decode("00000000219ab540356cbb839cbe05303d7705fa").unwrap());
    assert_eq!(deployer.bytes, expected);

    let (entry, op) = c.get_args_addresses();
    assert_eq!(op.bytes, expected);
    let mut entry_expected = [0u8; 20];
    entry_expected[..]
        .copy_from_slice(&hex::decode("5ff137d4b0fdcd49dca30c7cf57e578a026d2789").unwrap());
    assert_eq!(entry.bytes, entry_expected);
}

#[test]
fn init_code_parsing_decodes_and_strips_the_prefix() {
    assert_eq!(
        parse_init_code("0xdeadbeef").unwrap(),
        vec![0xde, 0xad, 0xbe, 0xef]
    );
    assert_eq!(parse_init_code("0x").unwrap(), Vec::<u8>::new());
    assert_eq!(parse_init_code("abcd").unwrap(), vec![0xab, 0xcd]);
    // Every leading 0x repetition is stripped, not only the first.
    assert_eq!(parse_init_code("0x0x00").unwrap(), vec![0x00]);
    assert_eq!(parse_init_code("0xDEADBEEF").unwrap(), vec![0xde, 0xad, 0xbe, 0xef]);
}

#[test]
fn init_code_parsing_rejects_bad_hex() {
    assert!(matches!(
        parse_init_code("0x123"),
        Err(ConfigError::InvalidBytecode)
    ));
    assert!(matches!(
        parse_init_code("0xzz"),
        Err(ConfigError::InvalidBytecode)
    ));
}

#[test]
fn error_messages_name_the_fault() {
    assert_eq!(
        ConfigError::InvalidOperator(String::from("0xabc")).message(),
        "Invalid operator address: 0xabc"
    );
    assert_eq!(
        ConfigError::InvalidBytecode.message(),
        "Bytecode is empty or invalid"
    );
    assert_eq!(ConfigError::InvalidRPC.message(), "Invalid RPC URL");
    assert_eq!(ConfigError::NoRules.message(), "No pattern rules defined");
    assert_eq!(ConfigError::InvalidRule.message(), "Invalid pattern rule");
    assert_eq!(
        ConfigError::InvalidThreads.message(),
        "Thread count must be positive"
    );
    assert_eq!(
        ConfigError::FileError(String::from("gone")).message(),
        "Failed to read config file: gone"
    );
    assert_eq!(
        ConfigError::JsonError(String::from("bad token")).message(),
        "Failed to parse JSON: bad token"
    );
}
