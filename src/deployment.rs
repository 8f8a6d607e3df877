//! The deployment metadata: a JSON document that holds, under
//! `addresses.trappistServiceManager`, the address of the task manager
//! contract.
use crate::address::{hex_bytes, is_hex_of_len, ContractAddress, ADDRESS_BYTES};
use vstd::prelude::*;

verus! {

/// Why the contract address could not be configured.
#[derive(Clone, Copy, Debug, PartialEq, Eq, Structural)]
pub enum ConfigError {
    /// The deployment file could not be read.
    Unreadable,
    /// The deployment file is not JSON.
    NotJson,
    /// The document has no string at the address field.
    MissingAddress,
    /// The address field does not hold a twenty-byte hexadecimal address.
    BadAddress,
}

/// The JSON pointer of the task manager's address in the deployment document.
pub open spec fn address_pointer() -> Seq<char> {
    "/addresses/trappistServiceManager"@
}

/// What serde_json finds at `pointer` in `text`: `None` where `text` is not
/// JSON, `Some(None)` where no string stands there, else `Some(Some(s))`.
pub uninterp spec fn json_string_at(text: Seq<char>, pointer: Seq<char>) -> Option<Option<Seq<char>>>;

/// The characters of an optional string.
pub open spec fn option_chars(o: Option<String>) -> Option<Seq<char>> {
    match o {
        Some(s) => Some(s@),
        None => None,
    }
}

#[verifier::external_type_specification]
#[verifier::external_body]
pub struct ExJsonError(serde_json::Error);

/// Relies on `serde_json::from_str` into a `serde_json::Value`, then
/// `Value::pointer` (RFC 6901): the string value found at `pointer`, if any.
#[verifier::external_body]
fn read_json_string(text: &str, pointer: &str) -> (r: Result<Option<String>, serde_json::Error>)
    ensures
        r is Err <==> json_string_at(text@, pointer@) is None,
        r matches Ok(f) ==> json_string_at(text@, pointer@) == Some(option_chars(f)),
{
    let value: serde_json::Value = serde_json::from_str(text)?;
    match value.pointer(pointer) {
        Some(serde_json::Value::String(s)) => Ok(Some(s.clone())),
        _ => Ok(None),
    }
}

/// The address that the field `field` gives, or why it gives none.
pub open spec fn field_address(field: Option<Seq<char>>) -> Result<Seq<u8>, ConfigError> {
    match field {
        None => Err(ConfigError::MissingAddress),
        Some(s) => if is_hex_of_len(s, ADDRESS_BYTES as nat) {
            Ok(hex_bytes(s))
        } else {
            Err(ConfigError::BadAddress)
        },
    }
}

/// The address that the deployment document `text` gives, or why it gives none.
pub open spec fn deployment_address(text: Seq<char>) -> Result<Seq<u8>, ConfigError> {
    match json_string_at(text, address_pointer()) {
        None => Err(ConfigError::NotJson),
        Some(field) => field_address(field),
    }
}

/// A configured address as its bytes.
pub open spec fn address_outcome(r: Result<ContractAddress, ConfigError>) -> Result<Seq<u8>, ConfigError> {
    match r {
        Ok(a) => Ok(a@),
        Err(e) => Err(e),
    }
}

fn address_pointer_str() -> (r: &'static str)
    ensures
        r@ == address_pointer(),
{
    "/addresses/trappistServiceManager"
}

/// The contract address held by the address field's value `field`.
pub fn address_from_field(field: Option<String>) -> (r: Result<ContractAddress, ConfigError>)
    ensures
        address_outcome(r) == field_address(option_chars(field)),
{
    match field {
        None => Err(ConfigError::MissingAddress),
        Some(s) => match ContractAddress::parse(s.as_str()) {
            Some(a) => Ok(a),
            None => Err(ConfigError::BadAddress),
        },
    }
}

/// The contract address held by the deployment document `text`.
pub fn address_from_deployment(text: &str) -> (r: Result<ContractAddress, ConfigError>)
    ensures
        address_outcome(r) == deployment_address(text@),
{
    match read_json_string(text, address_pointer_str()) {
        Err(_) => Err(ConfigError::NotJson),
        Ok(field) => address_from_field(field),
    }
}

} // verus!
