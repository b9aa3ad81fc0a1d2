//! System processes that hash and verify signatures.
use vstd::prelude::*;

use crate::contract_call::{call_view, refuse, refused};
use crate::contract_call::{CallView, ContractArgs, ContractCall};
use crate::exchange::{Action, ActionView, HashAlgorithm, Pending, PendingView};
use crate::exchange::{SignatureAlgorithm, Step, StepView};
use crate::rho_type::{bytes_of, RhoByteArray};
use crate::system_processes::SystemProcesses;

verus! {

/// A hash is asked for where there are bytes to hash and a channel to answer on.
pub open spec fn hash_step(call: CallView, name: Seq<char>, algorithm: HashAlgorithm) -> StepView {
    match call.exactly(2) {
        Some(a) => match bytes_of(a[0]) {
            Some(data) => StepView::Perform(
                ActionView::Hash { algorithm, data },
                PendingView::Hashed { ack: a[1] },
            ),
            None => refused(name),
        },
        None => refused(name),
    }
}

/// A verification is asked for where there are data, a signature and a key, all
/// of them bytes, and a channel to answer on.
pub open spec fn verify_step(
    call: CallView,
    name: Seq<char>,
    algorithm: SignatureAlgorithm,
) -> StepView {
    match call.exactly(4) {
        Some(a) => match (bytes_of(a[0]), bytes_of(a[1]), bytes_of(a[2])) {
            (Some(data), Some(signature), Some(key)) => StepView::Perform(
                ActionView::Verify { algorithm, data, signature, key },
                PendingView::Verified { ack: a[3] },
            ),
            _ => refused(name),
        },
        None => refused(name),
    }
}

fn verify_signature_contract(
    contract_args: ContractArgs,
    name: &str,
    algorithm: SignatureAlgorithm,
) -> (r: Step)
    ensures
        r@ == verify_step(call_view(contract_args), name@, algorithm),
{
    let call = match ContractCall::exactly(contract_args, 4) {
        Some(call) => call,
        None => return refuse(name),
    };
    let data: Vec<u8> = match RhoByteArray::unapply(&call.args[0]) {
        Some(b) => b,
        None => return refuse(name),
    };
    let signature: Vec<u8> = match RhoByteArray::unapply(&call.args[1]) {
        Some(b) => b,
        None => return refuse(name),
    };
    let key: Vec<u8> = match RhoByteArray::unapply(&call.args[2]) {
        Some(b) => b,
        None => return refuse(name),
    };
    Step::Perform(
        Action::Verify { algorithm, data, signature, key },
        Pending::Verified { ack: call.args[3].clone() },
    )
}

fn hash_contract(contract_args: ContractArgs, name: &str, algorithm: HashAlgorithm) -> (r: Step)
    ensures
        r@ == hash_step(call_view(contract_args), name@, algorithm),
{
    let call = match ContractCall::exactly(contract_args, 2) {
        Some(call) => call,
        None => return refuse(name),
    };
    match RhoByteArray::unapply(&call.args[0]) {
        Some(data) => Step::Perform(
            Action::Hash { algorithm, data },
            Pending::Hashed { ack: call.args[1].clone() },
        ),
        None => refuse(name),
    }
}

impl SystemProcesses {
    pub fn secp256k1_verify(&self, contract_args: ContractArgs) -> (r: Step)
        ensures
            r@ == verify_step(
                call_view(contract_args),
                "secp256k1Verify"@,
                SignatureAlgorithm::Secp256k1,
            ),
    {
        verify_signature_contract(contract_args, "secp256k1Verify", SignatureAlgorithm::Secp256k1)
    }

    pub fn ed25519_verify(&self, contract_args: ContractArgs) -> (r: Step)
        ensures
            r@ == verify_step(
                call_view(contract_args),
                "ed25519Verify"@,
                SignatureAlgorithm::Ed25519,
            ),
    {
        verify_signature_contract(contract_args, "ed25519Verify", SignatureAlgorithm::Ed25519)
    }

    pub fn sha256_hash(&self, contract_args: ContractArgs) -> (r: Step)
        ensures
            r@ == hash_step(call_view(contract_args), "sha256Hash"@, HashAlgorithm::Sha256),
    {
        hash_contract(contract_args, "sha256Hash", HashAlgorithm::Sha256)
    }

    pub fn keccak256_hash(&self, contract_args: ContractArgs) -> (r: Step)
        ensures
            r@ == hash_step(call_view(contract_args), "keccak256Hash"@, HashAlgorithm::Keccak256),
    {
        hash_contract(contract_args, "keccak256Hash", HashAlgorithm::Keccak256)
    }

    pub fn blake2b256_hash(&self, contract_args: ContractArgs) -> (r: Step)
        ensures
            r@ == hash_step(call_view(contract_args), "blake2b256Hash"@, HashAlgorithm::Blake2b256),
    {
        hash_contract(contract_args, "blake2b256Hash", HashAlgorithm::Blake2b256)
    }
}

} // verus!
