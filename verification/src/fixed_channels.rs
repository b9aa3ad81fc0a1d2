//! The channels on which system processes listen, and the numbers of their
//! bodies.
use std::collections::HashSet;
use vstd::prelude::*;

use crate::par::{GPrivate, Par, ParView};
use crate::rho_type::{name_par, RhoName};

verus! {

/// The private name that is one byte.
pub open spec fn byte_channel(b: u8) -> ParView {
    name_par(seq![b])
}

/// The private name that is one byte.
pub fn byte_name(b: u8) -> (r: Par)
    ensures
        r@ == byte_channel(b),
{
    let mut id: Vec<u8> = Vec::new();
    id.push(b);
    assert(id@ =~= seq![b]);
    RhoName::create_par(GPrivate { id })
}

pub struct FixedChannels;

impl FixedChannels {
    pub fn stdout() -> (r: Par)
        ensures
            r@ == byte_channel(0),
    {
        byte_name(0)
    }

    pub fn stdout_ack() -> (r: Par)
        ensures
            r@ == byte_channel(1),
    {
        byte_name(1)
    }

    pub fn stderr() -> (r: Par)
        ensures
            r@ == byte_channel(2),
    {
        byte_name(2)
    }

    pub fn stderr_ack() -> (r: Par)
        ensures
            r@ == byte_channel(3),
    {
        byte_name(3)
    }

    pub fn ed25519_verify() -> (r: Par)
        ensures
            r@ == byte_channel(4),
    {
        byte_name(4)
    }

    pub fn sha256_hash() -> (r: Par)
        ensures
            r@ == byte_channel(5),
    {
        byte_name(5)
    }

    pub fn keccak256_hash() -> (r: Par)
        ensures
            r@ == byte_channel(6),
    {
        byte_name(6)
    }

    pub fn blake2b256_hash() -> (r: Par)
        ensures
            r@ == byte_channel(7),
    {
        byte_name(7)
    }

    pub fn secp256k1_verify() -> (r: Par)
        ensures
            r@ == byte_channel(8),
    {
        byte_name(8)
    }

    pub fn get_block_data() -> (r: Par)
        ensures
            r@ == byte_channel(10),
    {
        byte_name(10)
    }

    pub fn get_invalid_blocks() -> (r: Par)
        ensures
            r@ == byte_channel(11),
    {
        byte_name(11)
    }

    pub fn vault_address() -> (r: Par)
        ensures
            r@ == byte_channel(12),
    {
        byte_name(12)
    }

    pub fn deployer_id_ops() -> (r: Par)
        ensures
            r@ == byte_channel(13),
    {
        byte_name(13)
    }

    pub fn reg_lookup() -> (r: Par)
        ensures
            r@ == byte_channel(14),
    {
        byte_name(14)
    }

    pub fn reg_insert_random() -> (r: Par)
        ensures
            r@ == byte_channel(15),
    {
        byte_name(15)
    }

    pub fn reg_insert_signed() -> (r: Par)
        ensures
            r@ == byte_channel(16),
    {
        byte_name(16)
    }

    pub fn reg_ops() -> (r: Par)
        ensures
            r@ == byte_channel(17),
    {
        byte_name(17)
    }

    pub fn sys_authtoken_ops() -> (r: Par)
        ensures
            r@ == byte_channel(18),
    {
        byte_name(18)
    }

    /// The versioned registry's own channel.
    pub fn reg_v1_internal() -> (r: Par)
        ensures
            r@ == byte_channel(19),
    {
        byte_name(19)
    }

    pub fn gpt4() -> (r: Par)
        ensures
            r@ == byte_channel(20),
    {
        byte_name(20)
    }

    pub fn dalle3() -> (r: Par)
        ensures
            r@ == byte_channel(21),
    {
        byte_name(21)
    }

    pub fn text_to_audio() -> (r: Par)
        ensures
            r@ == byte_channel(22),
    {
        byte_name(22)
    }

    /// Helpers for versioned URNs, beside those of `reg_ops`.
    pub fn reg_ops_v1() -> (r: Par)
        ensures
            r@ == byte_channel(23),
    {
        byte_name(23)
    }

    /// The public entry to the versioned registry.
    pub fn reg_v1() -> (r: Par)
        ensures
            r@ == byte_channel(24),
    {
        byte_name(24)
    }

    pub fn grpc_tell() -> (r: Par)
        ensures
            r@ == byte_channel(25),
    {
        byte_name(25)
    }

    pub fn dev_null() -> (r: Par)
        ensures
            r@ == byte_channel(26),
    {
        byte_name(26)
    }

    pub fn abort() -> (r: Par)
        ensures
            r@ == byte_channel(27),
    {
        byte_name(27)
    }

    pub fn ollama_chat() -> (r: Par)
        ensures
            r@ == byte_channel(28),
    {
        byte_name(28)
    }

    pub fn ollama_generate() -> (r: Par)
        ensures
            r@ == byte_channel(29),
    {
        byte_name(29)
    }

    pub fn ollama_models() -> (r: Par)
        ensures
            r@ == byte_channel(30),
    {
        byte_name(30)
    }

    pub fn deploy_data() -> (r: Par)
        ensures
            r@ == byte_channel(31),
    {
        byte_name(31)
    }

    pub fn chroma_create_collection() -> (r: Par)
        ensures
            r@ == byte_channel(32),
    {
        byte_name(32)
    }

    pub fn chroma_get_collection_meta() -> (r: Par)
        ensures
            r@ == byte_channel(33),
    {
        byte_name(33)
    }

    pub fn chroma_upsert_entries() -> (r: Par)
        ensures
            r@ == byte_channel(34),
    {
        byte_name(34)
    }

    pub fn chroma_query() -> (r: Par)
        ensures
            r@ == byte_channel(35),
    {
        byte_name(35)
    }

    pub fn chroma_delete_documents() -> (r: Par)
        ensures
            r@ == byte_channel(36),
    {
        byte_name(36)
    }

    /// Where any URN is resolved.
    pub fn registry_lookup() -> (r: Par)
        ensures
            r@ == byte_channel(37),
    {
        byte_name(37)
    }

    pub fn swipl_execute_petta() -> (r: Par)
        ensures
            r@ == byte_channel(38),
    {
        byte_name(38)
    }
}

pub struct BodyRefs;

impl BodyRefs {
    pub const STDOUT: i64 = 0;

    pub const STDOUT_ACK: i64 = 1;

    pub const STDERR: i64 = 2;

    pub const STDERR_ACK: i64 = 3;

    pub const ED25519_VERIFY: i64 = 4;

    pub const SHA256_HASH: i64 = 5;

    pub const KECCAK256_HASH: i64 = 6;

    pub const BLAKE2B256_HASH: i64 = 7;

    pub const SECP256K1_VERIFY: i64 = 9;

    pub const GET_BLOCK_DATA: i64 = 11;

    pub const GET_INVALID_BLOCKS: i64 = 12;

    pub const VAULT_ADDRESS: i64 = 13;

    pub const DEPLOYER_ID_OPS: i64 = 14;

    pub const REG_OPS: i64 = 15;

    pub const SYS_AUTHTOKEN_OPS: i64 = 16;

    pub const REG_OPS_V1: i64 = 17;

    pub const GPT4: i64 = 18;

    pub const DALLE3: i64 = 19;

    pub const TEXT_TO_AUDIO: i64 = 20;

    pub const GRPC_TELL: i64 = 23;

    pub const DEV_NULL: i64 = 24;

    pub const ABORT: i64 = 25;

    pub const OLLAMA_CHAT: i64 = 26;

    pub const OLLAMA_GENERATE: i64 = 27;

    pub const OLLAMA_MODELS: i64 = 28;

    pub const DEPLOY_DATA: i64 = 29;

    pub const CHROMA_CREATE_COLLECTION: i64 = 32;

    pub const CHROMA_GET_COLLECTION_META: i64 = 33;

    pub const CHROMA_UPSERT_ENTRIES: i64 = 34;

    pub const CHROMA_QUERY: i64 = 35;

    pub const CHROMA_DELETE_DOCUMENTS: i64 = 36;

    pub const REGISTRY_LOOKUP: i64 = 30;

    pub const SWIPL_EXECUTE_PETTA: i64 = 37;
}

/// The bodies whose outcome is not a function of what they are called with.
pub open spec fn non_deterministic() -> Set<i64> {
    set![
        BodyRefs::GPT4,
        BodyRefs::DALLE3,
        BodyRefs::TEXT_TO_AUDIO,
        BodyRefs::OLLAMA_CHAT,
        BodyRefs::OLLAMA_GENERATE,
        BodyRefs::OLLAMA_MODELS,
        BodyRefs::GRPC_TELL,
        BodyRefs::CHROMA_QUERY,
        BodyRefs::SWIPL_EXECUTE_PETTA,
    ]
}

/// The bodies whose outcome is not a function of what they are called with, so
/// that it is recorded, and a replay repeats the record.
pub fn non_deterministic_ops() -> (r: HashSet<i64>)
    ensures
        r@ == non_deterministic(),
{
    broadcast use vstd::std_specs::hash::group_hash_axioms;

    let mut ops: HashSet<i64> = HashSet::new();
    ops.insert(BodyRefs::GPT4);
    ops.insert(BodyRefs::DALLE3);
    ops.insert(BodyRefs::TEXT_TO_AUDIO);
    ops.insert(BodyRefs::OLLAMA_CHAT);
    ops.insert(BodyRefs::OLLAMA_GENERATE);
    ops.insert(BodyRefs::OLLAMA_MODELS);
    ops.insert(BodyRefs::GRPC_TELL);
    ops.insert(BodyRefs::CHROMA_QUERY);
    ops.insert(BodyRefs::SWIPL_EXECUTE_PETTA);
    assert(ops@ =~= non_deterministic());
    ops
}

} // verus!
