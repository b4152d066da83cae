//! Locking scripts rebuilt from base58 addresses.
//!
//! A hook that names a P2PKH or P2SH address is matched by rebuilding the
//! canonical locking script of that address and comparing its hexadecimal text
//! with the script of every output.
use vstd::prelude::*;
use crate::hex::{hex_text, to_hex};

verus! {

pub const OP_DUP: u8 = 0x76;

pub const OP_EQUAL: u8 = 0x87;

pub const OP_EQUALVERIFY: u8 = 0x88;

pub const OP_HASH160: u8 = 0xa9;

pub const OP_CHECKSIG: u8 = 0xac;

/// The number of bytes of the hash that an address carries.
pub const ADDRESS_HASH_LENGTH: usize = 20;

/// The longest address, in characters, that is handed to the base58 decoder.
pub const MAX_ADDRESS_LENGTH: usize = 128;

/// The script `Builder` of the bitcoin crate, as a type that is not looked
/// into.
#[verifier::external_type_specification]
#[verifier::external_body]
pub struct ExScriptBuilder(bitcoincore_rpc::bitcoin::blockdata::script::Builder);

/// The bytes that a script builder holds.
pub uninterp spec fn builder_bytes(
    builder: bitcoincore_rpc::bitcoin::blockdata::script::Builder,
) -> Seq<u8>;

/// The bytes that `base58::FromBase58::from_base58` decodes a text to, or
/// nothing where it rejects the text.
pub uninterp spec fn base58_decoding(text: Seq<char>) -> Option<Seq<u8>>;

/// `Builder::new` of the bitcoin crate: a builder that holds no byte.
#[verifier::external_body]
fn builder_new() -> (builder: bitcoincore_rpc::bitcoin::blockdata::script::Builder)
    ensures
        builder_bytes(builder) == Seq::<u8>::empty(),
{
    bitcoincore_rpc::bitcoin::blockdata::script::Builder::new()
}

/// `Builder::push_opcode` of the bitcoin crate, with the opcode of the given
/// byte: that byte is appended.
#[verifier::external_body]
fn builder_push_opcode(
    builder: bitcoincore_rpc::bitcoin::blockdata::script::Builder,
    code: u8,
) -> (extended: bitcoincore_rpc::bitcoin::blockdata::script::Builder)
    ensures
        builder_bytes(extended) == builder_bytes(builder).push(code),
{
    builder.push_opcode(bitcoincore_rpc::bitcoin::blockdata::opcodes::All::from(code))
}

/// `Builder::push_slice` of the bitcoin crate, for data shorter than 76 bytes:
/// the length is appended as one byte, then the data.
#[verifier::external_body]
fn builder_push_slice(
    builder: bitcoincore_rpc::bitcoin::blockdata::script::Builder,
    data: &[u8],
) -> (extended: bitcoincore_rpc::bitcoin::blockdata::script::Builder)
    requires
        data@.len() < 76,
    ensures
        builder_bytes(extended) == builder_bytes(builder).push(data@.len() as u8) + data@,
{
    builder.push_slice(data)
}

/// `Builder::into_script` and `Script::into_bytes` of the bitcoin crate: the bytes
/// that the builder holds.
#[verifier::external_body]
fn builder_into_bytes(builder: bitcoincore_rpc::bitcoin::blockdata::script::Builder) -> (bytes:
    Vec<u8>)
    ensures
        bytes@ == builder_bytes(builder),
{
    builder.into_script().into_bytes()
}

/// `base58::FromBase58::from_base58` on a text of at most 128 characters, the
/// length up to which the crate works: the decoded bytes, or nothing where the
/// text is rejected.
#[verifier::external_body]
fn base58_decode(text: &str) -> (bytes: Option<Vec<u8>>)
    requires
        text@.len() <= MAX_ADDRESS_LENGTH,
    ensures
        bytes is Some <==> base58_decoding(text@) is Some,
        bytes matches Some(decoded) ==> base58_decoding(text@) == Some(decoded@),
{
    base58::FromBase58::from_base58(text).ok()
}

/// The canonical P2PKH locking script of a public key hash:
/// `OP_DUP OP_HASH160 <hash> OP_EQUALVERIFY OP_CHECKSIG`.
pub open spec fn p2pkh_script(hash: Seq<u8>) -> Seq<u8> {
    seq![OP_DUP, OP_HASH160, hash.len() as u8] + hash + seq![OP_EQUALVERIFY, OP_CHECKSIG]
}

/// The canonical P2SH locking script of a script hash:
/// `OP_HASH160 <hash> OP_EQUAL`.
pub open spec fn p2sh_script(hash: Seq<u8>) -> Seq<u8> {
    seq![OP_HASH160, hash.len() as u8] + hash + seq![OP_EQUAL]
}

/// The hash in the bytes of a decoded address: the twenty bytes behind the
/// version byte. Fewer than twenty-one bytes hold none.
pub open spec fn decoded_address_hash(bytes: Seq<u8>) -> Option<Seq<u8>> {
    if bytes.len() >= 1 + ADDRESS_HASH_LENGTH {
        Some(bytes.subrange(1, 1 + ADDRESS_HASH_LENGTH as int))
    } else {
        None
    }
}

/// The hash that a base58 address carries. An address that is too long or
/// that the decoder rejects carries none.
pub open spec fn address_hash(address: Seq<char>) -> Option<Seq<u8>> {
    if address.len() > MAX_ADDRESS_LENGTH {
        None
    } else {
        match base58_decoding(address) {
            Some(bytes) => decoded_address_hash(bytes),
            None => None,
        }
    }
}

/// The hexadecimal text of the P2PKH script of an address, where the address
/// carries a hash.
pub open spec fn p2pkh_script_hex(address: Seq<char>) -> Option<Seq<char>> {
    match address_hash(address) {
        Some(hash) => Some(hex_text(p2pkh_script(hash))),
        None => None,
    }
}

/// The hexadecimal text of the P2SH script of an address, where the address
/// carries a hash.
pub open spec fn p2sh_script_hex(address: Seq<char>) -> Option<Seq<char>> {
    match address_hash(address) {
        Some(hash) => Some(hex_text(p2sh_script(hash))),
        None => None,
    }
}

/// Builds the canonical P2PKH locking script of a twenty-byte hash.
pub fn build_p2pkh_script(hash: &[u8]) -> (script: Vec<u8>)
    requires
        hash@.len() == ADDRESS_HASH_LENGTH,
    ensures
        script@ == p2pkh_script(hash@),
{
    let builder = builder_new();
    let builder = builder_push_opcode(builder, OP_DUP);
    let builder = builder_push_opcode(builder, OP_HASH160);
    let builder = builder_push_slice(builder, hash);
    let builder = builder_push_opcode(builder, OP_EQUALVERIFY);
    let builder = builder_push_opcode(builder, OP_CHECKSIG);
    let script = builder_into_bytes(builder);
    assert(script@ =~= p2pkh_script(hash@));
    script
}

/// Builds the canonical P2SH locking script of a twenty-byte hash.
pub fn build_p2sh_script(hash: &[u8]) -> (script: Vec<u8>)
    requires
        hash@.len() == ADDRESS_HASH_LENGTH,
    ensures
        script@ == p2sh_script(hash@),
{
    let builder = builder_new();
    let builder = builder_push_opcode(builder, OP_HASH160);
    let builder = builder_push_slice(builder, hash);
    let builder = builder_push_opcode(builder, OP_EQUAL);
    let script = builder_into_bytes(builder);
    assert(script@ =~= p2sh_script(hash@));
    script
}

/// Extracts the hash from the bytes of a decoded address.
pub fn hash_of_decoded_address(bytes: &[u8]) -> (hash: Option<Vec<u8>>)
    ensures
        hash is Some <==> decoded_address_hash(bytes@) is Some,
        hash matches Some(found) ==> decoded_address_hash(bytes@) == Some(found@),
{
    if bytes.len() < 1 + ADDRESS_HASH_LENGTH {
        return None;
    }
    let mut hash: Vec<u8> = Vec::new();
    let mut i: usize = 1;
    while i < 1 + ADDRESS_HASH_LENGTH
        invariant
            1 <= i <= 1 + ADDRESS_HASH_LENGTH,
            bytes@.len() >= 1 + ADDRESS_HASH_LENGTH,
            hash@ == bytes@.subrange(1, i as int),
        decreases 1 + ADDRESS_HASH_LENGTH - i,
    {
        hash.push(bytes[i]);
        assert(hash@ =~= bytes@.subrange(1, i + 1));
        i += 1;
    }
    Some(hash)
}

/// Extracts the hash that a base58 address carries.
pub fn decode_address_hash(address: &str) -> (hash: Option<Vec<u8>>)
    ensures
        hash is Some <==> address_hash(address@) is Some,
        hash matches Some(bytes) ==> address_hash(address@) == Some(bytes@),
{
    if address.unicode_len() > MAX_ADDRESS_LENGTH {
        return None;
    }
    match base58_decode(address) {
        Some(bytes) => hash_of_decoded_address(bytes.as_slice()),
        None => None,
    }
}

/// The hexadecimal text of the P2PKH script of an address, where the address
/// carries a hash.
pub fn p2pkh_script_hex_of(address: &str) -> (script: Option<String>)
    ensures
        script is Some <==> p2pkh_script_hex(address@) is Some,
        script matches Some(text) ==> p2pkh_script_hex(address@) == Some(text@),
{
    match decode_address_hash(address) {
        Some(hash) => {
            let script = build_p2pkh_script(hash.as_slice());
            Some(to_hex(script.as_slice()))
        },
        None => None,
    }
}

/// The hexadecimal text of the P2SH script of an address, where the address
/// carries a hash.
pub fn p2sh_script_hex_of(address: &str) -> (script: Option<String>)
    ensures
        script is Some <==> p2sh_script_hex(address@) is Some,
        script matches Some(text) ==> p2sh_script_hex(address@) == Some(text@),
{
    match decode_address_hash(address) {
        Some(hash) => {
            let script = build_p2sh_script(hash.as_slice());
            Some(to_hex(script.as_slice()))
        },
        None => None,
    }
}

} // verus!
