//! Which system processes there are, and under what names they are found.
use std::sync::Arc;
use vstd::prelude::*;

use crate::contract_call::{call_view, CallView, ContractArgs};
use crate::crypto::{is_uuid_v4, lemma_some_uuid};
use crate::crypto_processes::{hash_step, verify_step};
use crate::exchange::{HashAlgorithm, SignatureAlgorithm, Step, StepView, Stream};
use crate::fixed_channels::{byte_channel, byte_name};
use crate::par::{lemma_parts, lemma_same_parts, Bundle, BundleView, Par, ParView};
use crate::registry_processes::{deployer_id_ops_step, registry_lookup_step, registry_ops_step};
use crate::registry_processes::{registry_ops_v1_step, sys_auth_token_ops_step, vault_address_step};
use crate::rho_type::nil;
use crate::service_processes::{chroma_create_collection_step, chroma_delete_documents_step};
use crate::service_processes::{chroma_get_collection_meta_step, chroma_query_step};
use crate::service_processes::{chroma_upsert_entries_step, grpc_tell_step, ollama_chat_step};
use crate::service_processes::{ollama_generate_step, ollama_models_step, petta_execute_step};
use crate::service_processes::{prompt_step, text_to_audio_step, Prompted};
use crate::state::{BlockData, BlockDataView, DeployData, DeployDataView, InvalidBlocks, UrnMap};
use crate::system_processes::{abort_step, dev_null_step, get_block_data_step};
use crate::system_processes::{get_deploy_data_step, invalid_blocks_step, print_ack_step};
use crate::system_processes::{print_step, SystemProcesses};
use crate::test_processes::{block_data_after, block_data_set_step, casper_invalid_blocks_set_step};
use crate::test_processes::{deployer_id_make_step, handle_message_step, invalid_blocks_after};
use crate::test_processes::{sign_step, signing_fault, std_log_step, sys_auth_token_make_step};
use crate::test_processes::SigningFault;

verus! {

/// The channel that a contract listens on.
pub type Name = Par;

/// How many arguments a contract takes.
pub type Arity = i32;

/// The number of a contract's body.
pub type BodyRef = i64;

/// What a contract does with arguments beyond its arity.
pub type Remainder = Option<Var>;

#[derive(Debug, Clone, Copy, PartialEq, Eq, Structural)]
pub enum Var {
    BoundVar(i32),
    FreeVar(i32),
    Wildcard,
}

// ---------------------------------------------------------------------------
// The context of a call
// ---------------------------------------------------------------------------
/// What a system process finds when it is called.
pub struct ProcessContext {
    pub invalid_blocks: InvalidBlocks,
    pub system_processes: SystemProcesses,
}

#[verifier::ext_equal]
pub struct ContextView {
    pub block_data: BlockDataView,
    pub deploy_data: DeployDataView,
    pub invalid_blocks: ParView,
    pub urn_map: Map<Seq<char>, ParView>,
    pub urn_to_channel: Map<Seq<char>, ParView>,
}

impl View for ProcessContext {
    type V = ContextView;

    open spec fn view(&self) -> ContextView {
        ContextView {
            block_data: self.system_processes.block_data@,
            deploy_data: self.system_processes.deploy_data@,
            invalid_blocks: self.invalid_blocks.invalid_blocks@,
            urn_map: self.system_processes.urn_map@,
            urn_to_channel: self.system_processes.urn_to_channel@,
        }
    }
}

impl ProcessContext {
    pub fn create(
        block_data: BlockData,
        invalid_blocks: InvalidBlocks,
        deploy_data: DeployData,
        urn_map: Arc<UrnMap>,
        urn_to_channel: Arc<UrnMap>,
    ) -> (r: ProcessContext)
        ensures
            r@ == (ContextView {
                block_data: block_data@,
                deploy_data: deploy_data@,
                invalid_blocks: invalid_blocks.invalid_blocks@,
                urn_map: urn_map@,
                urn_to_channel: urn_to_channel@,
            }),
    {
        let system_processes = SystemProcesses::create(
            block_data,
            deploy_data,
            urn_map,
            urn_to_channel,
        );
        ProcessContext { invalid_blocks, system_processes }
    }
}

// ---------------------------------------------------------------------------
// Handlers
// ---------------------------------------------------------------------------
/// A system process.
#[derive(Debug, Clone, Copy, PartialEq, Eq, Structural)]
pub enum Handler {
    StdOut,
    StdOutAck,
    StdErr,
    StdErrAck,
    VaultAddress,
    DeployerIdOps,
    RegistryOps,
    RegistryOpsV1,
    RegistryLookup,
    SysAuthTokenOps,
    Secp256k1Verify,
    Ed25519Verify,
    Sha256Hash,
    Keccak256Hash,
    Blake2b256Hash,
    GetBlockData,
    GetDeployData,
    GetInvalidBlocks,
    Gpt4,
    Dalle3,
    TextToAudio,
    OllamaChat,
    OllamaGenerate,
    OllamaModels,
    GrpcTell,
    DevNull,
    Abort,
    HandleMessage,
    StdLog,
    DeployerIdMake,
    Secp256k1Sign,
    SysAuthTokenMake,
    BlockDataSet,
    CasperInvalidBlocksSet,
    ChromaCreateCollection,
    ChromaGetCollectionMeta,
    ChromaUpsertEntries,
    ChromaQuery,
    ChromaDeleteDocuments,
    PettaExecute,
}

impl Handler {
    /// What a call does first. There is no step for a signature that does not
    /// exist. `id` names the file for speech.
    pub open spec fn step(self, context: ContextView, call: CallView, id: Seq<char>) -> Option<
        StepView,
    > {
        match self {
            Handler::StdOut => Some(print_step(call, "std_out"@, Stream::Output)),
            Handler::StdOutAck => Some(print_ack_step(call, "std_out_ack"@, Stream::Output)),
            Handler::StdErr => Some(print_step(call, "std_err"@, Stream::Errors)),
            Handler::StdErrAck => Some(print_ack_step(call, "std_err_ack"@, Stream::Errors)),
            Handler::VaultAddress => Some(vault_address_step(call)),
            Handler::DeployerIdOps => Some(deployer_id_ops_step(call)),
            Handler::RegistryOps => Some(registry_ops_step(call)),
            Handler::RegistryOpsV1 => Some(registry_ops_v1_step(call)),
            Handler::RegistryLookup => Some(registry_lookup_step(call, context.urn_map)),
            Handler::SysAuthTokenOps => Some(sys_auth_token_ops_step(call)),
            Handler::Secp256k1Verify => Some(
                verify_step(call, "secp256k1Verify"@, SignatureAlgorithm::Secp256k1),
            ),
            Handler::Ed25519Verify => Some(
                verify_step(call, "ed25519Verify"@, SignatureAlgorithm::Ed25519),
            ),
            Handler::Sha256Hash => Some(hash_step(call, "sha256Hash"@, HashAlgorithm::Sha256)),
            Handler::Keccak256Hash => Some(
                hash_step(call, "keccak256Hash"@, HashAlgorithm::Keccak256),
            ),
            Handler::Blake2b256Hash => Some(
                hash_step(call, "blake2b256Hash"@, HashAlgorithm::Blake2b256),
            ),
            Handler::GetBlockData => Some(get_block_data_step(call, context.block_data)),
            Handler::GetDeployData => Some(get_deploy_data_step(call, context.deploy_data)),
            Handler::GetInvalidBlocks => Some(invalid_blocks_step(call, context.invalid_blocks)),
            Handler::Gpt4 => Some(prompt_step(call, "gpt4"@, Prompted::Gpt4)),
            Handler::Dalle3 => Some(prompt_step(call, "dalle3"@, Prompted::Dalle3)),
            Handler::TextToAudio => Some(text_to_audio_step(call, id)),
            Handler::OllamaChat => Some(ollama_chat_step(call)),
            Handler::OllamaGenerate => Some(ollama_generate_step(call)),
            Handler::OllamaModels => Some(ollama_models_step(call)),
            Handler::GrpcTell => Some(grpc_tell_step(call)),
            Handler::DevNull => Some(dev_null_step(call)),
            Handler::Abort => Some(abort_step(call)),
            Handler::HandleMessage => Some(handle_message_step(call)),
            Handler::StdLog => Some(std_log_step(call)),
            Handler::DeployerIdMake => Some(deployer_id_make_step(call)),
            Handler::Secp256k1Sign => sign_step(call),
            Handler::SysAuthTokenMake => Some(sys_auth_token_make_step(call)),
            Handler::BlockDataSet => Some(block_data_set_step(call)),
            Handler::CasperInvalidBlocksSet => Some(casper_invalid_blocks_set_step(call)),
            Handler::ChromaCreateCollection => Some(chroma_create_collection_step(call)),
            Handler::ChromaGetCollectionMeta => Some(chroma_get_collection_meta_step(call)),
            Handler::ChromaUpsertEntries => Some(chroma_upsert_entries_step(call)),
            Handler::ChromaQuery => Some(chroma_query_step(call)),
            Handler::ChromaDeleteDocuments => Some(chroma_delete_documents_step(call)),
            Handler::PettaExecute => Some(petta_execute_step(call)),
        }
    }

    /// What a call leaves behind.
    pub open spec fn context_after(self, context: ContextView, call: CallView) -> ContextView {
        match self {
            Handler::BlockDataSet => ContextView {
                block_data: block_data_after(call, context.block_data),
                ..context
            },
            Handler::CasperInvalidBlocksSet => ContextView {
                invalid_blocks: invalid_blocks_after(call, context.invalid_blocks),
                ..context
            },
            _ => context,
        }
    }

    /// Calls the process, or tells why a hash is not signed.
    pub fn call(&self, context: &mut ProcessContext, args: ContractArgs) -> (r: Result<
        Step,
        SigningFault,
    >)
        ensures
            final(context)@ == self.context_after(old(context)@, call_view(args)),
            exists|id: Seq<char>|
                is_uuid_v4(id) && match #[trigger] self.step(old(context)@, call_view(args), id) {
                    Some(s) => r matches Ok(step) && step@ == s,
                    None => r matches Err(fault) && fault == signing_fault(call_view(args)),
                },
    {
        let ghost before = context@;
        let ghost sent = call_view(args);
        let sp = &mut context.system_processes;
        let step = match self {
            Handler::StdOut => sp.std_out(args),
            Handler::StdOutAck => sp.std_out_ack(args),
            Handler::StdErr => sp.std_err(args),
            Handler::StdErrAck => sp.std_err_ack(args),
            Handler::VaultAddress => sp.vault_address(args),
            Handler::DeployerIdOps => sp.deployer_id_ops(args),
            Handler::RegistryOps => sp.registry_ops(args),
            Handler::RegistryOpsV1 => sp.registry_ops_v1(args),
            Handler::RegistryLookup => sp.registry_lookup(args),
            Handler::SysAuthTokenOps => sp.sys_auth_token_ops(args),
            Handler::Secp256k1Verify => sp.secp256k1_verify(args),
            Handler::Ed25519Verify => sp.ed25519_verify(args),
            Handler::Sha256Hash => sp.sha256_hash(args),
            Handler::Keccak256Hash => sp.keccak256_hash(args),
            Handler::Blake2b256Hash => sp.blake2b256_hash(args),
            Handler::GetBlockData => sp.get_block_data(args, &sp.block_data),
            Handler::GetDeployData => sp.get_deploy_data(args, &sp.deploy_data),
            Handler::GetInvalidBlocks => sp.invalid_blocks(args, &context.invalid_blocks),
            Handler::Gpt4 => sp.gpt4(args),
            Handler::Dalle3 => sp.dalle3(args),
            Handler::TextToAudio => sp.text_to_audio(args),
            Handler::OllamaChat => sp.ollama_chat(args),
            Handler::OllamaGenerate => sp.ollama_generate(args),
            Handler::OllamaModels => sp.ollama_models(args),
            Handler::GrpcTell => sp.grpc_tell(args),
            Handler::DevNull => sp.dev_null(args),
            Handler::Abort => sp.abort(args),
            Handler::HandleMessage => sp.handle_message(args),
            Handler::StdLog => sp.std_log(args),
            Handler::DeployerIdMake => sp.deployer_id_make(args),
            Handler::Secp256k1Sign => match sp.try_secp256k1_sign(args) {
                Ok(step) => step,
                Err(fault) => {
                    proof {
                        lemma_some_uuid();
                        let id = choose|id: Seq<char>| is_uuid_v4(id);
                        assert(self.step(before, sent, id) is None);
                    }
                    return Err(fault);
                },
            },
            Handler::SysAuthTokenMake => sp.sys_auth_token_make(args),
            Handler::BlockDataSet => sp.block_data_set(args),
            Handler::CasperInvalidBlocksSet => sp.casper_invalid_blocks_set(
                args,
                &mut context.invalid_blocks,
            ),
            Handler::ChromaCreateCollection => sp.chroma_create_collection(args),
            Handler::ChromaGetCollectionMeta => sp.chroma_get_collection_meta(args),
            Handler::ChromaUpsertEntries => sp.chroma_upsert_entries(args),
            Handler::ChromaQuery => sp.chroma_query(args),
            Handler::ChromaDeleteDocuments => sp.chroma_delete_documents(args),
            Handler::PettaExecute => sp.petta_execute(args),
        };
        proof {
            lemma_some_uuid();
            let id = if *self == Handler::TextToAudio {
                choose|id: Seq<char>| is_uuid_v4(id) && step@ == text_to_audio_step(sent, id)
            } else {
                choose|id: Seq<char>| is_uuid_v4(id)
            };
            assert(self.step(before, sent, id) == Some(step@));
        }
        Ok(step)
    }
}

// ---------------------------------------------------------------------------
// Definitions
// ---------------------------------------------------------------------------
/// A system process, with the names under which it is found.
#[derive(Debug, PartialEq, Eq)]
pub struct Definition {
    pub urn: String,
    pub fixed_channel: Name,
    pub arity: Arity,
    pub body_ref: BodyRef,
    pub handler: Handler,
    pub remainder: Remainder,
}

#[verifier::ext_equal]
pub struct DefinitionView {
    pub urn: Seq<char>,
    pub fixed_channel: ParView,
    pub arity: i32,
    pub body_ref: i64,
    pub handler: Handler,
    pub remainder: Option<Var>,
}

/// A process that can only be written to.
pub open spec fn write_only(p: ParView) -> ParView {
    ParView {
        bundles: seq![BundleView { body: p, write_flag: true, read_flag: false }],
        ..nil()
    }
}

impl View for Definition {
    type V = DefinitionView;

    open spec fn view(&self) -> DefinitionView {
        DefinitionView {
            urn: self.urn@,
            fixed_channel: self.fixed_channel@,
            arity: self.arity,
            body_ref: self.body_ref,
            handler: self.handler,
            remainder: self.remainder,
        }
    }
}

impl Definition {
    pub fn new(
        urn: String,
        fixed_channel: Name,
        arity: Arity,
        body_ref: BodyRef,
        handler: Handler,
        remainder: Remainder,
    ) -> (r: Definition)
        ensures
            r@ == (DefinitionView {
                urn: urn@,
                fixed_channel: fixed_channel@,
                arity,
                body_ref,
                handler,
                remainder,
            }),
    {
        Definition { urn, fixed_channel, arity, body_ref, handler, remainder }
    }

    /// The process, under the number of its body.
    pub fn to_dispatch_table(&self) -> (r: (BodyRef, Handler))
        ensures
            r == (self.body_ref, self.handler),
    {
        (self.body_ref, self.handler)
    }

    /// The channel, under its URN. A contract that looks it up can write to it, and
    /// not read from it.
    pub fn to_urn_map(&self) -> (r: (String, Par))
        ensures
            r.0@ == self.urn@,
            r.1@ == write_only(self.fixed_channel@),
    {
        let mut bundle = Par::default();
        bundle.bundles.push(
            Bundle { body: self.fixed_channel.clone(), write_flag: true, read_flag: false },
        );
        proof {
            lemma_parts(&bundle);
            lemma_same_parts(bundle@, write_only(self.fixed_channel@));
        }
        (self.urn.clone(), bundle)
    }

    /// What a runtime needs to install the process.
    pub fn to_proc_defs(&self) -> (r: (Name, Arity, Remainder, BodyRef))
        ensures
            r.0@ == self.fixed_channel@,
            r.1 == self.arity,
            r.2 == self.remainder,
            r.3 == self.body_ref,
    {
        (self.fixed_channel.clone(), self.arity, self.remainder, self.body_ref)
    }
}

pub open spec fn definitions_view(ds: Seq<Definition>) -> Seq<DefinitionView> {
    Seq::new(ds.len(), |i: int| ds[i]@)
}

/// The definition of a process for tests, which is found under one number.
pub open spec fn test_definition(
    urn: Seq<char>,
    number: u8,
    arity: i32,
    handler: Handler,
) -> DefinitionView {
    DefinitionView {
        urn,
        fixed_channel: byte_channel(number),
        arity,
        body_ref: number as i64,
        handler,
        remainder: None,
    }
}

/// The system processes that tests of contracts use.
pub open spec fn test_framework() -> Seq<DefinitionView> {
    seq![
        test_definition("rho:test:assertAck"@, 101, 5, Handler::HandleMessage),
        test_definition("rho:test:testSuiteCompleted"@, 102, 1, Handler::HandleMessage),
        test_definition("rho:io:stdlog"@, 103, 2, Handler::StdLog),
        test_definition("rho:test:deployerId:make"@, 104, 3, Handler::DeployerIdMake),
        test_definition("rho:test:crypto:secp256k1Sign"@, 105, 3, Handler::Secp256k1Sign),
        test_definition("sys:test:authToken:make"@, 106, 1, Handler::SysAuthTokenMake),
        test_definition("rho:test:block:data:set"@, 107, 3, Handler::BlockDataSet),
        test_definition(
            "rho:test:casper:invalidBlocks:set"@,
            108,
            2,
            Handler::CasperInvalidBlocksSet,
        ),
    ]
}

fn define_test(urn: &str, number: u8, arity: Arity, handler: Handler) -> (r: Definition)
    ensures
        r@ == test_definition(urn@, number, arity, handler),
{
    Definition::new(urn.to_owned(), byte_name(number), arity, number as i64, handler, None)
}

/// The system processes that tests of contracts use.
pub fn test_framework_contracts() -> (r: Vec<Definition>)
    ensures
        definitions_view(r@) == test_framework(),
{
    let mut ds: Vec<Definition> = Vec::new();
    ds.push(define_test("rho:test:assertAck", 101, 5, Handler::HandleMessage));
    ds.push(define_test("rho:test:testSuiteCompleted", 102, 1, Handler::HandleMessage));
    ds.push(define_test("rho:io:stdlog", 103, 2, Handler::StdLog));
    ds.push(define_test("rho:test:deployerId:make", 104, 3, Handler::DeployerIdMake));
    ds.push(define_test("rho:test:crypto:secp256k1Sign", 105, 3, Handler::Secp256k1Sign));
    ds.push(define_test("sys:test:authToken:make", 106, 1, Handler::SysAuthTokenMake));
    ds.push(define_test("rho:test:block:data:set", 107, 3, Handler::BlockDataSet));
    ds.push(
        define_test("rho:test:casper:invalidBlocks:set", 108, 2, Handler::CasperInvalidBlocksSet),
    );
    assert(definitions_view(ds@) =~= test_framework());
    ds
}

} // verus!
