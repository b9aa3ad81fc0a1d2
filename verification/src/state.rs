//! What system processes know: the block and the deploy that they run in, the
//! blocks found invalid, and the tables of URNs.
use vstd::hash_map::StringHashMap;
use vstd::prelude::*;

use crate::crypto::{decode_hex, hex_bytes, hex_value, is_hex, PublicKey};
use crate::par::{copy_bytes, Par, ParView};
use crate::rho_type::nil;

verus! {

/// A table from URNs to processes.
pub struct UrnMap {
    entries: StringHashMap<Par>,
}

impl View for UrnMap {
    type V = Map<Seq<char>, ParView>;

    closed spec fn view(&self) -> Map<Seq<char>, ParView> {
        self.entries@.map_values(|p: Par| p@)
    }
}

impl UrnMap {
    pub fn new() -> (r: UrnMap)
        ensures
            r@ == Map::<Seq<char>, ParView>::empty(),
    {
        let r = UrnMap { entries: StringHashMap::new() };
        assert(r@ =~= Map::<Seq<char>, ParView>::empty());
        r
    }

    pub fn insert(&mut self, urn: String, par: Par)
        ensures
            final(self)@ == old(self)@.insert(urn@, par@),
    {
        self.entries.insert(urn, par);
        assert(self@ =~= old(self)@.insert(urn@, par@));
    }

    pub fn get(&self, urn: &str) -> (r: Option<&Par>)
        ensures
            match r {
                Some(p) => self@.contains_key(urn@) && self@[urn@] == p@,
                None => !self@.contains_key(urn@),
            },
    {
        self.entries.get(urn)
    }
}

/// The blocks found invalid. There is one such record for a whole runtime: what is
/// set is seen by all who look, so that it is passed on by reference and never
/// copied.
#[derive(Debug, PartialEq, Eq)]
pub struct InvalidBlocks {
    pub invalid_blocks: Par,
}

impl InvalidBlocks {
    /// No invalid blocks are known: `Nil`.
    pub fn new() -> (r: InvalidBlocks)
        ensures
            r.invalid_blocks@ == nil(),
    {
        InvalidBlocks { invalid_blocks: Par::default() }
    }

    pub fn set_params(&mut self, invalid_blocks: Par)
        ensures
            final(self).invalid_blocks@ == invalid_blocks@,
    {
        self.invalid_blocks = invalid_blocks;
    }
}

/// A block, as far as system processes tell of it.
#[derive(Debug, PartialEq, Eq)]
pub struct BlockMessage {
    pub timestamp: i64,
    pub block_number: i64,
    pub sender: Vec<u8>,
    pub seq_num: i32,
}

/// The block in which a system process runs.
#[derive(Debug, PartialEq, Eq)]
pub struct BlockData {
    pub time_stamp: i64,
    pub block_number: i64,
    pub sender: PublicKey,
    pub seq_num: i32,
}

#[verifier::ext_equal]
pub struct BlockDataView {
    pub time_stamp: i64,
    pub block_number: i64,
    pub sender: Seq<u8>,
    pub seq_num: i32,
}

impl View for BlockData {
    type V = BlockDataView;

    open spec fn view(&self) -> BlockDataView {
        BlockDataView {
            time_stamp: self.time_stamp,
            block_number: self.block_number,
            sender: self.sender.bytes@,
            seq_num: self.seq_num,
        }
    }
}

impl BlockData {
    /// No block: zeros, from a sender whose key is one zero byte.
    pub fn empty() -> (r: BlockData)
        ensures
            r@ == (BlockDataView { time_stamp: 0, block_number: 0, sender: seq![0u8], seq_num: 0 }),
    {
        let decoded = decode_hex("00");
        proof {
            reveal_strlit("00");
            assert(is_hex("00"@));
            assert(hex_value("00"@[0]) == Some(0int) && hex_value("00"@[1]) == Some(0int));
            assert(hex_bytes("00"@) =~= seq![0u8]);
        }
        let bytes: Vec<u8> = decoded.unwrap();
        BlockData {
            block_number: 0,
            sender: PublicKey::from_bytes(&bytes),
            seq_num: 0,
            time_stamp: 0,
        }
    }

    pub fn from_block(template: &BlockMessage) -> (r: BlockData)
        ensures
            r@ == (BlockDataView {
                time_stamp: template.timestamp,
                block_number: template.block_number,
                sender: template.sender@,
                seq_num: template.seq_num,
            }),
    {
        BlockData {
            time_stamp: template.timestamp,
            block_number: template.block_number,
            sender: PublicKey::from_bytes(&template.sender),
            seq_num: template.seq_num,
        }
    }
}

impl Clone for BlockData {
    fn clone(&self) -> (r: BlockData)
        ensures
            r@ == self@,
    {
        BlockData {
            time_stamp: self.time_stamp,
            block_number: self.block_number,
            sender: self.sender.clone(),
            seq_num: self.seq_num,
        }
    }
}

/// A signed deploy, as far as system processes tell of it.
#[derive(Debug, PartialEq, Eq)]
pub struct SignedDeploy {
    pub time_stamp: i64,
    pub pk: PublicKey,
    pub sig: Vec<u8>,
}

/// The deploy in which a system process runs.
#[derive(Debug, PartialEq, Eq)]
pub struct DeployData {
    pub timestamp: i64,
    pub deployer_id: PublicKey,
    pub deploy_id: Vec<u8>,
}

#[verifier::ext_equal]
pub struct DeployDataView {
    pub timestamp: i64,
    pub deployer_id: Seq<u8>,
    pub deploy_id: Seq<u8>,
}

impl View for DeployData {
    type V = DeployDataView;

    open spec fn view(&self) -> DeployDataView {
        DeployDataView {
            timestamp: self.timestamp,
            deployer_id: self.deployer_id.bytes@,
            deploy_id: self.deploy_id@,
        }
    }
}

impl DeployData {
    /// No deploy: at time zero, with one zero byte for its key and its signature.
    pub fn empty() -> (r: DeployData)
        ensures
            r@ == (DeployDataView {
                timestamp: 0,
                deployer_id: seq![0u8],
                deploy_id: seq![0u8],
            }),
    {
        let mut zero: Vec<u8> = Vec::new();
        zero.push(0);
        assert(zero@ =~= seq![0u8]);
        DeployData { timestamp: 0, deployer_id: PublicKey::from_bytes(&zero), deploy_id: zero }
    }

    /// A deploy is identified by its signature, and its deployer by their key.
    pub fn from_deploy(template: &SignedDeploy) -> (r: DeployData)
        ensures
            r@ == (DeployDataView {
                timestamp: template.time_stamp,
                deployer_id: template.pk.bytes@,
                deploy_id: template.sig@,
            }),
    {
        DeployData {
            timestamp: template.time_stamp,
            deployer_id: template.pk.clone(),
            deploy_id: copy_bytes(&template.sig),
        }
    }
}

impl Clone for DeployData {
    fn clone(&self) -> (r: DeployData)
        ensures
            r@ == self@,
    {
        DeployData {
            timestamp: self.timestamp,
            deployer_id: self.deployer_id.clone(),
            deploy_id: copy_bytes(&self.deploy_id),
        }
    }
}

} // verus!
