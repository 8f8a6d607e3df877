use task_creator::address::{ContractAddress, Credential};
use task_creator::deployment::{address_from_deployment, address_from_field, ConfigError};
use task_creator::submission::{resolve_credential, SubmitError};

const ADDR: &str = "0xABCDEF0123456789abcdef0123456789ABCDEF01";
const ADDR_BYTES: [u8; 20] = [
    0xab, 0xcd, 0xef, 0x01, 0x23, 0x45, 0x67, 0x89, 0xab, 0xcd, 0xef, 0x01, 0x23, 0x45, 0x67, 0x89,
    0xab, 0xcd, 0xef, 0x01,
];

fn deployment(addr: &str) -> String {
    format!(
        "{{\"lastUpdate\":{{\"timestamp\":\"1\"}},\"addresses\":{{\"proxyAdmin\":\"0x00\",\"trappistServiceManager\":\"{}\"}}}}",
        addr
    )
}

#[test]
fn parse_address_with_prefix() {
    let a = ContractAddress::parse(ADDR).unwrap();
    assert_eq!(a.bytes, ADDR_BYTES);
}

#[test]
fn parse_address_without_prefix_or_upper_prefix() {
    assert_eq!(ContractAddress::parse(&ADDR[2..]).unwrap().bytes, ADDR_BYTES);
    let upper = format!("0X{}", &ADDR[2..]);
    assert_eq!(ContractAddress::parse(&upper).unwrap().bytes, ADDR_BYTES);
}

#[test]
fn parse_address_rejects_bad_text() {
    assert!(ContractAddress::parse("").is_none());
    assert!(ContractAddress::parse("0x").is_none());
    assert!(ContractAddress::parse(&ADDR[..41]).is_none());
    assert!(ContractAddress::parse(&format!("{}00", ADDR)).is_none());
    assert!(ContractAddress::parse("0xGBCDEF0123456789abcdef0123456789ABCDEF01").is_none());
}

#[test]
fn deployment_gives_its_address() {
    let a = address_from_deployment(&deployment(ADDR)).unwrap();
    assert_eq!(a.bytes, ADDR_BYTES);
}

#[test]
fn deployment_not_json() {
    assert_eq!(address_from_deployment("not json {"), Err(ConfigError::NotJson));
    assert_eq!(address_from_deployment(""), Err(ConfigError::NotJson));
}

#[test]
fn deployment_without_address_field() {
    assert_eq!(address_from_deployment("{\"addresses\":{}}"), Err(ConfigError::MissingAddress));
    assert_eq!(address_from_deployment("{}"), Err(ConfigError::MissingAddress));
    assert_eq!(
        address_from_deployment("{\"addresses\":{\"trappistServiceManager\":7}}"),
        Err(ConfigError::MissingAddress)
    );
}

#[test]
fn deployment_with_malformed_address() {
    assert_eq!(address_from_deployment(&deployment("0x1234")), Err(ConfigError::BadAddress));
}

#[test]
fn field_cases() {
    assert_eq!(address_from_field(None), Err(ConfigError::MissingAddress));
    assert_eq!(address_from_field(Some("xyz".to_string())), Err(ConfigError::BadAddress));
    assert_eq!(address_from_field(Some(ADDR.to_string())).unwrap().bytes, ADDR_BYTES);
}

#[test]
fn credential_accepts_a_valid_scalar() {
    let key = format!("0x{}01", "00".repeat(31));
    let c = Credential::from_key(key.clone()).unwrap();
    assert_eq!(c.key, key);
    assert!(resolve_credential(Some(key)).is_ok());
}

#[test]
fn credential_rejects_zero_short_and_missing() {
    assert!(Credential::from_key("00".repeat(32)).is_none());
    assert!(Credential::from_key("0x0102".to_string()).is_none());
    assert!(Credential::from_key("ff".repeat(32)).is_none());
    assert_eq!(resolve_credential(None).err(), Some(SubmitError::Credential));
    assert_eq!(resolve_credential(Some("nope".to_string())).err(), Some(SubmitError::Credential));
}
