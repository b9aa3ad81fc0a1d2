use std::collections::HashSet;
use std::sync::Arc;

use k256::ecdsa::signature::hazmat::PrehashVerifier;
use k256::ecdsa::{Signature, SigningKey, VerifyingKey};
use rho_system_processes::contract_call::ContractArgs;
use rho_system_processes::crypto::PublicKey;
use rho_system_processes::definitions::{
    test_framework_contracts, Definition, Handler, ProcessContext, Var,
};
use rho_system_processes::errors::InterpreterError;
use rho_system_processes::exchange::{
    Action, ListParWithRandom, LogLevel, ParsedUrn, Reply, Step,
};
use rho_system_processes::fixed_channels::{
    byte_name, non_deterministic_ops, BodyRefs, FixedChannels,
};
use rho_system_processes::par::{Bundle, Par};
use rho_system_processes::registry_processes::parsed_urn_to_tuple;
use rho_system_processes::rho_type::{
    RhoBoolean, RhoByteArray, RhoDeployerId, RhoNil, RhoNumber, RhoString, RhoSysAuthToken,
    RhoTuple,
};
use rho_system_processes::state::{
    BlockData, BlockMessage, DeployData, InvalidBlocks, SignedDeploy, UrnMap,
};
use rho_system_processes::test_processes::{RhoTestAssertion, SigningFault};
use rho_system_processes::test_utils::{
    collection_proc_visit_inputs_and_env, name_visit_inputs_and_env, proc_visit_inputs_and_env,
    proc_visit_inputs_with_updated_bound_map_chain,
    proc_visit_inputs_with_updated_vec_bound_map_chain, should_skip_petta_test,
    unmet_prerequisite, Prerequisites, SourcePos, VarSort,
};

fn s(text: &str) -> Par {
    RhoString::create_par(text.to_string())
}

fn n(number: i64) -> Par {
    RhoNumber::create_par(number)
}

fn yes(b: bool) -> Par {
    RhoBoolean::create_par(b)
}

fn bytes(b: &[u8]) -> Par {
    RhoByteArray::create_par(b.to_vec())
}

fn ack() -> Par {
    byte_name(200)
}

fn args(pars: Vec<Par>) -> ContractArgs {
    (
        vec![ListParWithRandom {
            pars,
            random_state: vec![],
        }],
        false,
        vec![],
    )
}

fn context() -> ProcessContext {
    ProcessContext::create(
        BlockData::empty(),
        InvalidBlocks::new(),
        DeployData::empty(),
        Arc::new(UrnMap::new()),
        Arc::new(UrnMap::new()),
    )
}

fn call(handler: Handler, context: &mut ProcessContext, pars: Vec<Par>) -> Step {
    handler.call(context, args(pars)).unwrap()
}

fn answer(step: Step, reply: Reply) -> Step {
    match step {
        Step::Perform(_, pending) => {
            assert!(pending.accepts(&reply));
            context().system_processes.resume(pending, reply)
        }
        other => panic!("nothing is awaited: {:?}", other),
    }
}

fn assert_sends(step: Step, data: Vec<Par>) -> Step {
    match &step {
        Step::Perform(a, _) => assert_eq!(
            *a,
            Action::Produce {
                data,
                channel: ack()
            }
        ),
        other => panic!("nothing is sent: {:?}", other),
    }
    step
}

fn sent() -> Reply {
    Reply::Produced(vec![])
}

fn refused(name: &str) -> Step {
    Step::Finished(Err(InterpreterError::IllegalArgumentError(
        name.to_string(),
    )))
}

fn assertion(a: Par) -> Step {
    call(
        Handler::HandleMessage,
        &mut context(),
        vec![s("a test"), n(2), a, s("the clue"), ack()],
    )
}

fn comparison(expected: Par, operator: &str, actual: Par) -> Par {
    RhoTuple::create_par(vec![expected, s(operator), actual])
}

fn rendered(actual: &str, expected: &str) -> Reply {
    Reply::Rendered {
        actual: actual.to_string(),
        expected: expected.to_string(),
    }
}

fn failed_test() -> Step {
    Step::AssertionFailed("the clue (test attempt: 2)".to_string())
}

#[test]
fn equal_processes_pass() {
    let step = assert_sends(assertion(comparison(n(1), "==", n(1))), vec![yes(true)]);
    let step = answer(step, sent());
    assert!(matches!(&step, Step::Perform(Action::Render { .. }, _)));
    assert_eq!(
        answer(step, rendered("1", "1")),
        Step::Finished(Ok(vec![yes(true)]))
    );
    let step = assert_sends(assertion(comparison(n(1), "==", n(2))), vec![yes(false)]);
    let step = answer(step, sent());
    assert_eq!(answer(step, rendered("2", "1")), failed_test());
}

#[test]
fn different_processes_pass_when_they_should_differ() {
    let step = assert_sends(assertion(comparison(n(1), "!=", n(2))), vec![yes(true)]);
    let step = answer(step, sent());
    assert_eq!(
        answer(step, rendered("2", "1")),
        Step::Finished(Ok(vec![yes(true)]))
    );
    let step = assert_sends(assertion(comparison(n(1), "!=", n(1))), vec![yes(false)]);
    let step = answer(step, sent());
    assert_eq!(answer(step, rendered("1", "1")), failed_test());
    let step = answer(assertion(comparison(n(1), "!=", n(2))), sent());
    assert_eq!(answer(step, rendered("same", "same")), failed_test());
}

#[test]
fn conditions_pass_when_they_hold() {
    let step = assert_sends(assertion(yes(true)), vec![yes(true)]);
    assert_eq!(answer(step, sent()), Step::Finished(Ok(vec![yes(true)])));
    let step = assert_sends(assertion(yes(false)), vec![yes(false)]);
    assert_eq!(answer(step, sent()), failed_test());
    let failed = InterpreterError::Host("down".to_string());
    assert_eq!(
        answer(assertion(yes(false)), Reply::Failed(failed)),
        Step::Finished(Err(InterpreterError::Host("down".to_string())))
    );
}

#[test]
fn an_assertion_that_cannot_be_read_is_an_error() {
    let step = assert_sends(assertion(n(7)), vec![yes(false)]);
    let step = answer(step, sent());
    assert!(matches!(&step, Step::Perform(Action::Describe(p), _) if *p == n(7)));
    assert_eq!(
        answer(step, Reply::Text("Par 7".to_string())),
        Step::Finished(Err(InterpreterError::BugFoundError(
            "Failed to evaluate assertion: Par 7".to_string()
        )))
    );
    assert_eq!(
        assertion(comparison(n(1), "<", n(2))),
        refused("handle_message")
    );
}

#[test]
fn a_suite_finishes() {
    let finish = |p: Par| call(Handler::HandleMessage, &mut context(), vec![p]);
    assert_eq!(finish(yes(true)), Step::Finished(Ok(vec![])));
    assert_eq!(finish(n(1)), refused("handle_message"));
}

#[test]
fn assertions_hold_or_do_not() {
    let equals = |a: Par, b: Par| RhoTestAssertion::RhoAssertEquals {
        test_name: "t".to_string(),
        expected: a,
        actual: b,
        clue: "c".to_string(),
    };
    let not_equals = |a: Par, b: Par| RhoTestAssertion::RhoAssertNotEquals {
        test_name: "t".to_string(),
        unexpected: a,
        actual: b,
        clue: "c".to_string(),
    };
    assert!(equals(n(1), n(1)).is_success());
    assert!(!equals(n(1), s("1")).is_success());
    assert!(!not_equals(n(1), n(1)).is_success());
    assert!(not_equals(n(1), RhoNil::create_par()).is_success());
    for b in [false, true] {
        let a = RhoTestAssertion::RhoAssertTrue {
            test_name: "t".to_string(),
            is_success: b,
            clue: "c".to_string(),
        };
        assert_eq!(a.is_success(), b);
    }
}

#[test]
fn levels_are_logged() {
    for (word, level) in [
        ("trace", LogLevel::Trace),
        ("debug", LogLevel::Debug),
        ("info", LogLevel::Info),
        ("warn", LogLevel::Warn),
        ("error", LogLevel::Error),
    ] {
        let step = call(Handler::StdLog, &mut context(), vec![s(word), n(1)]);
        assert!(matches!(
            &step,
            Step::Perform(Action::Log { level: l, message }, _) if *l == level && *message == n(1)
        ));
        assert_eq!(answer(step, Reply::Done), Step::Finished(Ok(vec![])));
    }
    assert_eq!(
        call(Handler::StdLog, &mut context(), vec![s("loud"), n(1)]),
        refused("std_log")
    );
    assert_eq!(
        call(Handler::StdLog, &mut context(), vec![n(1), n(1)]),
        refused("std_log")
    );
}

#[test]
fn an_identity_gives_its_key_back() {
    let mut c = context();
    let step = call(
        Handler::DeployerIdMake,
        &mut c,
        vec![s("deployerId"), bytes(&[4, 2]), ack()],
    );
    assert_sends(step, vec![RhoDeployerId::create_par(vec![4, 2])]);
    let step = call(
        Handler::DeployerIdOps,
        &mut c,
        vec![
            s("pubKeyBytes"),
            RhoDeployerId::create_par(vec![4, 2]),
            ack(),
        ],
    );
    assert_sends(step, vec![bytes(&[4, 2])]);
    for bad in [
        vec![s("other"), bytes(&[4]), ack()],
        vec![s("deployerId"), n(4), ack()],
        vec![],
    ] {
        assert_eq!(
            call(Handler::DeployerIdMake, &mut c, bad),
            refused("deployer_id_make")
        );
    }
}

#[test]
fn a_token_is_recognised() {
    let mut c = context();
    let step = call(Handler::SysAuthTokenMake, &mut c, vec![ack()]);
    assert_sends(step, vec![RhoSysAuthToken::create_par()]);
    let step = call(
        Handler::SysAuthTokenOps,
        &mut c,
        vec![s("check"), RhoSysAuthToken::create_par(), ack()],
    );
    assert_sends(step, vec![yes(true)]);
    assert_eq!(
        call(Handler::SysAuthTokenMake, &mut c, vec![]),
        refused("sys_auth_token_make")
    );
}

fn unhex(text: &str) -> Vec<u8> {
    hex::decode(text).unwrap()
}

fn signature_of(hash: &[u8], key: &[u8]) -> Option<Vec<u8>> {
    let step = Handler::Secp256k1Sign.call(
        &mut context(),
        args(vec![bytes(hash), bytes(key), ack()]),
    );
    let step = step.ok()?;
    match step {
        Step::Perform(Action::Produce { data, .. }, _) => RhoByteArray::unapply(&data[0]),
        other => panic!("nothing is sent: {:?}", other),
    }
}

#[test]
fn a_hash_is_signed() {
    let mut key = vec![0u8; 32];
    key[31] = 1;
    let hash = unhex("a0dc65ffca799873cbea0ac274015b9526505daaaed385155425f7337704883e");
    assert_eq!(
        signature_of(&hash, &key),
        Some(unhex(
            "3045022100934b1ea10a4b3c1757e2b0c017d0b6143ce3c9a7e6a4a49860d7a6ab210ee3d8\
             02202442ce9d2b916064108014783e923ec36b49743e2ffa1c4496f01a512aafd9e5"
        ))
    );
}

#[test]
fn a_signature_verifies() {
    let (key, hash) = (vec![7u8; 32], vec![9u8; 32]);
    let der = signature_of(&hash, &key).unwrap();
    assert_eq!(signature_of(&hash, &key), Some(der.clone()));
    let verifying = VerifyingKey::from(&SigningKey::from_slice(&key).unwrap());
    let signature = Signature::from_der(&der).unwrap();
    assert!(verifying.verify_prehash(&hash, &signature).is_ok());
    assert!(verifying.verify_prehash(&[8u8; 32], &signature).is_err());
}

#[test]
fn some_keys_and_hashes_have_no_signature() {
    let order = "fffffffffffffffffffffffffffffffebaaedce6af48a03bbfd25e8cd0364141";
    assert_eq!(signature_of(&[9u8; 32], &[0u8; 32]), None);
    assert_eq!(signature_of(&[9u8; 32], &unhex(order)), None);
    assert_eq!(signature_of(&[9u8; 15], &[7u8; 32]), None);
    assert!(signature_of(&[9u8; 16], &[7u8; 32]).is_some());
    let fault = |hash: &[u8], key: &[u8]| {
        context()
            .system_processes
            .try_secp256k1_sign(args(vec![bytes(hash), bytes(key), ack()]))
            .unwrap_err()
    };
    assert_eq!(fault(&[9u8; 32], &[0u8; 32]), SigningFault::InvalidKey);
    assert_eq!(fault(&[9u8; 15], &unhex(order)), SigningFault::InvalidKey);
    assert_eq!(fault(&[9u8; 15], &[7u8; 32]), SigningFault::NotSigned);
    assert_eq!(SigningFault::InvalidKey.text(), "Invalid private key");
    assert_eq!(SigningFault::NotSigned.text(), "Failed to sign prehash");
}

#[test]
fn keys_have_their_length() {
    let sign = |pars: Vec<Par>| {
        context()
            .system_processes
            .try_secp256k1_sign(args(pars))
            .unwrap()
    };
    assert_eq!(
        sign(vec![bytes(&[9; 32]), bytes(&[7; 31]), ack()]),
        Step::Finished(Err(InterpreterError::BugFoundError(
            "Invalid private key length: must be 32 bytes, got 31".to_string()
        )))
    );
    assert_eq!(
        sign(vec![s("hash"), bytes(&[7; 32]), ack()]),
        refused("secp256k1_sign")
    );
    assert_eq!(sign(vec![]), refused("secp256k1_sign"));
    let step = context().system_processes.secp256k1_sign(args(vec![
        bytes(&[9; 32]),
        bytes(&[7; 32]),
        ack(),
    ]));
    let signature = signature_of(&[9; 32], &[7; 32]).unwrap();
    let step = assert_sends(step, vec![bytes(&signature)]);
    assert_eq!(
        answer(step, sent()),
        Step::Finished(Ok(vec![bytes(&signature)]))
    );
}

#[test]
fn block_data_is_set_and_read_back() {
    let mut c = context();
    let told = |c: &mut ProcessContext| match call(Handler::GetBlockData, c, vec![ack()]) {
        Step::Perform(Action::Produce { data, .. }, _) => data,
        other => panic!("{:?}", other),
    };
    assert_eq!(told(&mut c), vec![n(0), n(0), bytes(&[0])]);
    let step = call(
        Handler::BlockDataSet,
        &mut c,
        vec![s("sender"), bytes(&[5]), ack()],
    );
    assert_sends(step, vec![RhoNil::create_par()]);
    assert_eq!(told(&mut c), vec![n(0), n(0), bytes(&[5])]);
    let step = call(
        Handler::BlockDataSet,
        &mut c,
        vec![s("blockNumber"), n(-3), ack()],
    );
    assert_sends(step, vec![RhoNil::create_par()]);
    assert_eq!(told(&mut c), vec![n(-3), n(0), bytes(&[5])]);
    for bad in [
        vec![s("sender"), n(1), ack()],
        vec![s("blockNumber"), bytes(&[1]), ack()],
        vec![s("time"), n(1), ack()],
        vec![n(1), n(1), ack()],
        vec![],
    ] {
        assert_eq!(
            call(Handler::BlockDataSet, &mut c, bad),
            refused("block_data_set")
        );
        assert_eq!(told(&mut c), vec![n(-3), n(0), bytes(&[5])]);
    }
}

#[test]
fn invalid_blocks_are_set_and_read_back() {
    let mut c = context();
    let step = call(Handler::GetInvalidBlocks, &mut c, vec![ack()]);
    assert_sends(step, vec![RhoNil::create_par()]);
    let step = call(Handler::CasperInvalidBlocksSet, &mut c, vec![n(8), ack()]);
    assert_sends(step, vec![RhoNil::create_par()]);
    let step = call(Handler::GetInvalidBlocks, &mut c, vec![ack()]);
    assert_sends(step, vec![n(8)]);
    assert_eq!(
        call(Handler::CasperInvalidBlocksSet, &mut c, vec![]),
        refused("casper_invalid_blocks_set")
    );
    assert_eq!(c.invalid_blocks.invalid_blocks, n(8));
}

#[test]
fn every_process_needs_one_message() {
    for handler in [
        Handler::StdOut,
        Handler::VaultAddress,
        Handler::Gpt4,
        Handler::Abort,
        Handler::TextToAudio,
        Handler::Secp256k1Sign,
        Handler::PettaExecute,
        Handler::ChromaQuery,
        Handler::BlockDataSet,
    ] {
        let step = handler.call(&mut context(), (vec![], true, vec![n(1)])).unwrap();
        assert!(matches!(step, Step::Finished(Err(_))), "{:?}", handler);
    }
}

#[test]
fn blocks_and_deploys_are_read() {
    assert_eq!(
        BlockData::empty(),
        BlockData {
            time_stamp: 0,
            block_number: 0,
            sender: PublicKey { bytes: vec![0] },
            seq_num: 0
        }
    );
    let block = BlockMessage {
        timestamp: 1,
        block_number: 2,
        sender: vec![3],
        seq_num: 4,
    };
    assert_eq!(
        BlockData::from_block(&block),
        BlockData {
            time_stamp: 1,
            block_number: 2,
            sender: PublicKey { bytes: vec![3] },
            seq_num: 4
        }
    );
    assert_eq!(
        DeployData::empty(),
        DeployData {
            timestamp: 0,
            deployer_id: PublicKey { bytes: vec![0] },
            deploy_id: vec![0]
        }
    );
    let deploy = SignedDeploy {
        time_stamp: 5,
        pk: PublicKey { bytes: vec![6] },
        sig: vec![7, 8],
    };
    assert_eq!(
        DeployData::from_deploy(&deploy),
        DeployData {
            timestamp: 5,
            deployer_id: PublicKey { bytes: vec![6] },
            deploy_id: vec![7, 8]
        }
    );
}

#[test]
fn channels_and_bodies_have_their_numbers() {
    assert_eq!(FixedChannels::stdout(), byte_name(0));
    assert_eq!(FixedChannels::secp256k1_verify(), byte_name(8));
    assert_eq!(FixedChannels::get_block_data(), byte_name(10));
    assert_eq!(FixedChannels::reg_v1_internal(), byte_name(19));
    assert_eq!(FixedChannels::deploy_data(), byte_name(31));
    assert_eq!(FixedChannels::swipl_execute_petta(), byte_name(38));
    assert!(FixedChannels::stdout() != FixedChannels::stdout_ack());
    assert_eq!(
        non_deterministic_ops(),
        HashSet::from([18, 19, 20, 26, 27, 28, 23, 35, 37])
    );
    assert!(!non_deterministic_ops().contains(&BodyRefs::STDOUT));
    assert_eq!(BodyRefs::REGISTRY_LOOKUP, 30);
}

#[test]
fn bodies_have_different_numbers() {
    let refs = [
        BodyRefs::STDOUT,
        BodyRefs::STDOUT_ACK,
        BodyRefs::STDERR,
        BodyRefs::STDERR_ACK,
        BodyRefs::ED25519_VERIFY,
        BodyRefs::SHA256_HASH,
        BodyRefs::KECCAK256_HASH,
        BodyRefs::BLAKE2B256_HASH,
        BodyRefs::SECP256K1_VERIFY,
        BodyRefs::GET_BLOCK_DATA,
        BodyRefs::GET_INVALID_BLOCKS,
        BodyRefs::VAULT_ADDRESS,
        BodyRefs::DEPLOYER_ID_OPS,
        BodyRefs::REG_OPS,
        BodyRefs::SYS_AUTHTOKEN_OPS,
        BodyRefs::REG_OPS_V1,
        BodyRefs::GPT4,
        BodyRefs::DALLE3,
        BodyRefs::TEXT_TO_AUDIO,
        BodyRefs::GRPC_TELL,
        BodyRefs::DEV_NULL,
        BodyRefs::ABORT,
        BodyRefs::OLLAMA_CHAT,
        BodyRefs::OLLAMA_GENERATE,
        BodyRefs::OLLAMA_MODELS,
        BodyRefs::DEPLOY_DATA,
        BodyRefs::REGISTRY_LOOKUP,
        BodyRefs::CHROMA_CREATE_COLLECTION,
        BodyRefs::CHROMA_GET_COLLECTION_META,
        BodyRefs::CHROMA_UPSERT_ENTRIES,
        BodyRefs::CHROMA_QUERY,
        BodyRefs::CHROMA_DELETE_DOCUMENTS,
        BodyRefs::SWIPL_EXECUTE_PETTA,
    ];
    let mut all: HashSet<i64> = HashSet::from(refs);
    assert_eq!(all.len(), refs.len());
    for d in test_framework_contracts() {
        assert!(all.insert(d.body_ref));
    }
}

#[test]
fn the_parts_of_a_urn_are_told_apart() {
    let urn = |key: Option<&str>, project: Option<&str>| {
        parsed_urn_to_tuple(ParsedUrn {
            namespace: "lib".to_string(),
            service_version: "1".to_string(),
            pub_key: key.map(str::to_string),
            project_id: project.map(str::to_string),
            project_version: None,
        })
    };
    assert!(urn(Some("k"), None) != urn(None, Some("k")));
    assert!(urn(Some(""), None) != urn(None, None));
    assert_eq!(urn(Some("k"), None), urn(Some("k"), None));
    assert_eq!(RhoTuple::unapply(&urn(None, None)).unwrap().len(), 5);
}

#[test]
fn definitions_are_laid_out() {
    let d = Definition::new(
        "rho:io:stdout".to_string(),
        FixedChannels::stdout(),
        1,
        BodyRefs::STDOUT,
        Handler::StdOut,
        Some(Var::Wildcard),
    );
    assert_eq!(d.to_dispatch_table(), (0, Handler::StdOut));
    let (urn, par) = d.to_urn_map();
    assert_eq!(urn, "rho:io:stdout");
    let mut expected = RhoNil::create_par();
    expected.bundles.push(Bundle {
        body: byte_name(0),
        write_flag: true,
        read_flag: false,
    });
    assert_eq!(par, expected);
    assert_eq!(
        d.to_proc_defs(),
        (byte_name(0), 1, Some(Var::Wildcard), 0)
    );
}

#[test]
fn a_defined_process_is_looked_up() {
    let mut urns = UrnMap::new();
    let definitions = test_framework_contracts();
    for d in &definitions {
        let (urn, par) = d.to_urn_map();
        urns.insert(urn, par);
    }
    assert!(urns.get("rho:io:stdout").is_none());
    let mut c = ProcessContext::create(
        BlockData::empty(),
        InvalidBlocks::new(),
        DeployData::empty(),
        Arc::new(urns),
        Arc::new(UrnMap::new()),
    );
    let step = call(
        Handler::RegistryLookup,
        &mut c,
        vec![s("rho:io:stdlog"), ack()],
    );
    assert_sends(step, vec![definitions[2].to_urn_map().1]);
}

#[test]
fn the_test_framework_is_complete() {
    let seen: Vec<(String, Par, i32, i64, Handler)> = test_framework_contracts()
        .into_iter()
        .map(|d| {
            assert_eq!(d.remainder, None);
            (d.urn, d.fixed_channel, d.arity, d.body_ref, d.handler)
        })
        .collect();
    let expected: Vec<(String, Par, i32, i64, Handler)> = vec![
        ("rho:test:assertAck", 5, 101, Handler::HandleMessage),
        ("rho:test:testSuiteCompleted", 1, 102, Handler::HandleMessage),
        ("rho:io:stdlog", 2, 103, Handler::StdLog),
        ("rho:test:deployerId:make", 3, 104, Handler::DeployerIdMake),
        ("rho:test:crypto:secp256k1Sign", 3, 105, Handler::Secp256k1Sign),
        ("sys:test:authToken:make", 1, 106, Handler::SysAuthTokenMake),
        ("rho:test:block:data:set", 3, 107, Handler::BlockDataSet),
        (
            "rho:test:casper:invalidBlocks:set",
            2,
            108,
            Handler::CasperInvalidBlocksSet,
        ),
    ]
    .into_iter()
    .map(|(urn, arity, number, handler)| {
        (
            urn.to_string(),
            byte_name(number as u8),
            arity,
            number as i64,
            handler,
        )
    })
    .collect();
    assert_eq!(seen, expected);
}

#[test]
fn missing_prerequisites_are_told() {
    let all = Prerequisites {
        petta_script: true,
        petta_dir: true,
        cache_dir: true,
        sandbox_lib_path: true,
        swipl: true,
    };
    assert_eq!(unmet_prerequisite(&all), None);
    assert!(!should_skip_petta_test(&all, true));
    let prefix = "PeTTa test prerequisite unmet: ";
    let cases = [
        (
            Prerequisites {
                petta_script: false,
                petta_dir: false,
                ..all
            },
            "petta.sh script is missing",
        ),
        (
            Prerequisites {
                petta_dir: false,
                cache_dir: false,
                ..all
            },
            "PETTA_DIR environment variable not set",
        ),
        (
            Prerequisites {
                cache_dir: false,
                sandbox_lib_path: false,
                ..all
            },
            "CACHE_DIR environment variable not set",
        ),
        (
            Prerequisites {
                sandbox_lib_path: false,
                swipl: false,
                ..all
            },
            "SANDBOX_LIB_PATH environment variable not set",
        ),
        (
            Prerequisites {
                swipl: false,
                ..all
            },
            "swipl is missing",
        ),
    ];
    for (p, text) in cases {
        assert_eq!(unmet_prerequisite(&p), Some(format!("{}{}", prefix, text)));
        assert!(should_skip_petta_test(&p, false));
    }
}

#[test]
fn normalizer_inputs_are_made() {
    let pos = SourcePos { line: 1, col: 1 };
    let (names, env) = name_visit_inputs_and_env();
    assert!(names.bound_map_chain.bindings.is_empty());
    assert!(names.free_map.bindings.is_empty());
    assert!(env.get("x").is_none());
    let (procs, _) = proc_visit_inputs_and_env();
    assert!(procs.par.is_nil());
    assert!(procs.bound_map_chain.bindings.is_empty());
    let one = proc_visit_inputs_with_updated_bound_map_chain(procs, "y", VarSort::NameSort);
    let more = proc_visit_inputs_with_updated_vec_bound_map_chain(
        one,
        vec![
            ("z".to_string(), VarSort::ProcSort),
            ("y".to_string(), VarSort::ProcSort),
        ],
    );
    assert_eq!(
        more.bound_map_chain.bindings,
        vec![
            ("y".to_string(), VarSort::NameSort, pos),
            ("z".to_string(), VarSort::ProcSort, pos),
            ("y".to_string(), VarSort::ProcSort, pos),
        ]
    );
    let (collection, _) = collection_proc_visit_inputs_and_env();
    assert_eq!(
        collection.bound_map_chain.bindings,
        vec![
            ("P".to_string(), VarSort::ProcSort, pos),
            ("x".to_string(), VarSort::NameSort, pos),
        ]
    );
}
