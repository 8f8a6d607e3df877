//! Hexadecimal byte strings: contract addresses and signing keys.
use alloy::primitives::hex::FromHexError;
use alloy::primitives::Address;
use alloy::signers::local::PrivateKeySigner;
use std::str::FromStr;
use vstd::prelude::*;

verus! {

/// Number of bytes in a contract address.
pub const ADDRESS_BYTES: usize = 20;

/// Number of bytes in a signing key.
pub const KEY_BYTES: usize = 32;

/// `c` is a hexadecimal digit, in either case.
pub open spec fn is_hex_digit(c: char) -> bool {
    ('0' <= c && c <= '9') || ('a' <= c && c <= 'f') || ('A' <= c && c <= 'F')
}

/// The value of the hexadecimal digit `c`.
pub open spec fn hex_value(c: char) -> nat {
    if '0' <= c && c <= '9' {
        (c as nat - '0' as nat) as nat
    } else if 'a' <= c && c <= 'f' {
        (c as nat - 'a' as nat + 10) as nat
    } else {
        (c as nat - 'A' as nat + 10) as nat
    }
}

/// `s` without a leading `0x` or `0X`, where it has one.
pub open spec fn strip_hex_prefix(s: Seq<char>) -> Seq<char> {
    if s.len() >= 2 && s[0] == '0' && (s[1] == 'x' || s[1] == 'X') {
        s.subrange(2, s.len() as int)
    } else {
        s
    }
}

/// `s` spells exactly `n` bytes in hexadecimal, after an optional `0x`.
pub open spec fn is_hex_of_len(s: Seq<char>, n: nat) -> bool {
    let d = strip_hex_prefix(s);
    &&& d.len() == 2 * n
    &&& forall|i: int| 0 <= i < d.len() ==> is_hex_digit(#[trigger] d[i])
}

/// The bytes that `s` spells, two digits each, the high half first.
pub open spec fn hex_bytes(s: Seq<char>) -> Seq<u8> {
    let d = strip_hex_prefix(s);
    Seq::new(
        d.len() / 2,
        |i: int| (hex_value(d[2 * i]) * 16 + hex_value(d[2 * i + 1])) as u8,
    )
}

/// The address of a deployed contract.
#[derive(Clone, Copy, Debug, PartialEq, Eq)]
pub struct ContractAddress {
    pub bytes: [u8; 20],
}

impl View for ContractAddress {
    type V = Seq<u8>;

    open spec fn view(&self) -> Seq<u8> {
        self.bytes@
    }
}

#[verifier::external_type_specification]
#[verifier::external_body]
pub struct ExFromHexError(FromHexError);

/// Relies on alloy's `Address::from_str`, which decodes with
/// `const_hex::decode_to_array`: an optional `0x` or `0X`, then exactly forty
/// hexadecimal digits of either case, two to a byte, the high half first.
#[verifier::external_body]
fn decode_address(s: &str) -> (r: Result<[u8; 20], FromHexError>)
    ensures
        r is Ok <==> is_hex_of_len(s@, ADDRESS_BYTES as nat),
        r matches Ok(b) ==> b@ == hex_bytes(s@),
{
    Address::from_str(s).map(|a| a.0.0)
}

/// Whether alloy's local signer takes `key` as a secret key.
pub uninterp spec fn signer_accepts(key: Seq<char>) -> bool;

/// Relies on alloy's `PrivateKeySigner::from_str`: it decodes thirty-two
/// bytes of hexadecimal with `const_hex::decode_to_array`, then accepts them
/// when they form a valid secp256k1 secret scalar.
#[verifier::external_body]
fn signing_key_accepted(key: &str) -> (r: bool)
    ensures
        r == signer_accepts(key@),
        r ==> is_hex_of_len(key@, KEY_BYTES as nat),
{
    PrivateKeySigner::from_str(key).is_ok()
}

impl ContractAddress {
    /// Reads an address written in hexadecimal, with or without `0x`.
    pub fn parse(s: &str) -> (r: Option<ContractAddress>)
        ensures
            r is Some <==> is_hex_of_len(s@, ADDRESS_BYTES as nat),
            r matches Some(a) ==> a@ == hex_bytes(s@),
    {
        match decode_address(s) {
            Ok(bytes) => Some(ContractAddress { bytes }),
            Err(_) => None,
        }
    }
}

/// The secret key that signs every transaction.
pub struct Credential {
    pub key: String,
}

impl Credential {
    /// Takes `key` as the signing credential when the signer accepts it.
    pub fn from_key(key: String) -> (r: Option<Credential>)
        ensures
            r is Some <==> signer_accepts(key@),
            r matches Some(c) ==> c.key@ == key@,
            r matches Some(c) ==> is_hex_of_len(c.key@, KEY_BYTES as nat),
    {
        if signing_key_accepted(key.as_str()) {
            Some(Credential { key })
        } else {
            None
        }
    }
}

} // verus!
