//! Keys, signatures, hexadecimal and random identifiers.
use vstd::prelude::*;

use k256::ecdsa::signature::hazmat::PrehashSigner;
use k256::ecdsa::{Signature, SigningKey};

use crate::par::copy_bytes;
use crate::rho_type::blob_view;

verus! {

/// A public key, as its holder writes it.
#[derive(Debug, PartialEq, Eq)]
pub struct PublicKey {
    pub bytes: Vec<u8>,
}

impl PublicKey {
    pub fn from_bytes(bytes: &Vec<u8>) -> (r: PublicKey)
        ensures
            r.bytes@ == bytes@,
    {
        PublicKey { bytes: copy_bytes(bytes) }
    }
}

impl Clone for PublicKey {
    fn clone(&self) -> (r: PublicKey)
        ensures
            r.bytes@ == self.bytes@,
    {
        PublicKey::from_bytes(&self.bytes)
    }
}

/// The number that bytes write, the highest first.
pub open spec fn big_endian(bytes: Seq<u8>) -> nat
    decreases bytes.len(),
{
    if bytes.len() == 0 {
        0
    } else {
        big_endian(bytes.drop_last()) * 256 + bytes.last() as nat
    }
}

/// The order of the group in which secp256k1 keys are drawn.
pub open spec fn secp256k1_order() -> nat {
    0xffff_ffff_ffff_ffff_ffff_ffff_ffff_fffe_baae_dce6_af48_a03b_bfd2_5e8c_d036_4141nat
}

/// Whether bytes write a private key: a number of the group, and not zero.
pub open spec fn is_secp256k1_key(key: Seq<u8>) -> bool {
    0 < big_endian(key) < secp256k1_order()
}

/// Calls `SigningKey::from_slice` of `k256`, which takes thirty-two bytes for a key
/// exactly if they write a number of the group other than zero. The key is dropped.
#[verifier::external_body]
pub(crate) fn check_secp256k1_key(key: &Vec<u8>) -> (r: bool)
    requires
        key@.len() == 32,
    ensures
        r == is_secp256k1_key(key@),
{
    SigningKey::from_slice(key).is_ok()
}

/// The secp256k1 signature of a hash under a private key, in DER; `None` where
/// there is none.
pub uninterp spec fn secp256k1_der_signature(key: Seq<u8>, hash: Seq<u8>) -> Option<Seq<u8>>;

/// Calls `SigningKey::from_slice`, `sign_prehash` and `Signature::to_der` of
/// `k256`, one after the other. The signature is that of RFC 6979, so the key and
/// the hash determine it; it is named. There is none for bytes that are no key, and
/// for a hash of under sixteen bytes. That there is one for every other key and
/// hash is left unsaid: a signature with a component that is zero is refused, and
/// no bytes are known that lead to one.
#[verifier::external_body]
pub(crate) fn sign_secp256k1(key: &Vec<u8>, hash: &Vec<u8>) -> (r: Option<Vec<u8>>)
    requires
        key@.len() == 32,
    ensures
        blob_view(r) == secp256k1_der_signature(key@, hash@),
        !is_secp256k1_key(key@) || hash@.len() < 16 ==> r is None,
{
    let signing_key = SigningKey::from_slice(key).ok()?;
    let signature: Signature = signing_key.sign_prehash(hash).ok()?;
    Some(signature.to_der().as_bytes().to_vec())
}

/// What a hexadecimal digit stands for.
pub open spec fn hex_value(c: char) -> Option<int> {
    if '0' <= c <= '9' {
        Some(c as int - '0' as int)
    } else if 'a' <= c <= 'f' {
        Some(c as int - 'a' as int + 10)
    } else if 'A' <= c <= 'F' {
        Some(c as int - 'A' as int + 10)
    } else {
        None
    }
}

pub open spec fn is_hex(text: Seq<char>) -> bool {
    &&& text.len() % 2 == 0
    &&& forall|i: int| 0 <= i < text.len() ==> hex_value(#[trigger] text[i]) is Some
}

/// The bytes that hexadecimal digits write, two to a byte.
pub open spec fn hex_bytes(text: Seq<char>) -> Seq<u8> {
    Seq::new(
        text.len() / 2,
        |i: int| (hex_value(text[2 * i])->0 * 16 + hex_value(text[2 * i + 1])->0) as u8,
    )
}

/// Calls `hex::decode`: the bytes, where the text has an even number of
/// characters and each is a hexadecimal digit, and an error otherwise. The
/// error is dropped.
#[verifier::external_body]
pub(crate) fn decode_hex(text: &str) -> (r: Option<Vec<u8>>)
    ensures
        match r {
            Some(bytes) => is_hex(text@) && bytes@ == hex_bytes(text@),
            None => !is_hex(text@),
        },
{
    hex::decode(text).ok()
}

pub open spec fn is_lower_hex(c: char) -> bool {
    '0' <= c <= '9' || 'a' <= c <= 'f'
}

/// A random UUID as it is written: groups of eight, four, four, four and twelve
/// lower-case hexadecimal digits, with the version at the head of the third
/// group and the variant at the head of the fourth.
pub open spec fn is_uuid_v4(text: Seq<char>) -> bool {
    &&& text.len() == 36
    &&& text[8] == '-' && text[13] == '-' && text[18] == '-' && text[23] == '-'
    &&& forall|i: int|
        0 <= i < 36 && i != 8 && i != 13 && i != 18 && i != 23 ==> is_lower_hex(#[trigger] text[i])
    &&& text[14] == '4'
    &&& text[19] == '8' || text[19] == '9' || text[19] == 'a' || text[19] == 'b'
}

/// There are random UUIDs.
pub proof fn lemma_some_uuid()
    ensures
        exists|id: Seq<char>| is_uuid_v4(id),
{
    let id: Seq<char> = Seq::new(
        36,
        |i: int|
            if i == 8 || i == 13 || i == 18 || i == 23 {
                '-'
            } else if i == 14 {
                '4'
            } else {
                '8'
            },
    );
    assert(is_uuid_v4(id));
}

/// Calls `uuid::Uuid::new_v4` and writes the result. It is drawn at random, so
/// only its form is told. It needs a system that has randomness to give.
#[verifier::external_body]
pub(crate) fn new_uuid() -> (r: String)
    ensures
        is_uuid_v4(r@),
{
    uuid::Uuid::new_v4().to_string()
}

} // verus!
