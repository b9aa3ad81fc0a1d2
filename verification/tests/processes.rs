use std::sync::Arc;

use rho_system_processes::contract_call::{ContractArgs, ContractCall};
use rho_system_processes::crypto::PublicKey;
use rho_system_processes::errors::InterpreterError;
use rho_system_processes::exchange::{
    About, Action, ChatMessage, HashAlgorithm, ListParWithRandom, LogLevel, Note, ParsedUrn,
    Pending, Reply, SignatureAlgorithm, Step, Stream,
};
use rho_system_processes::fixed_channels::{byte_name, FixedChannels};
use rho_system_processes::par::{GPrivate, KeyValuePair, Par};
use rho_system_processes::rho_type::{
    RhoBoolean, RhoByteArray, RhoDeployId, RhoDeployerId, RhoList, RhoMap, RhoName, RhoNil,
    RhoNumber, RhoString, RhoSysAuthToken, RhoTuple, RhoUri,
};
use rho_system_processes::state::{BlockData, DeployData, InvalidBlocks, UrnMap};
use rho_system_processes::swi_prolog_service::Frame;
use rho_system_processes::system_processes::SystemProcesses;

fn s(text: &str) -> Par {
    RhoString::create_par(text.to_string())
}

fn n(number: i64) -> Par {
    RhoNumber::create_par(number)
}

fn bytes(b: &[u8]) -> Par {
    RhoByteArray::create_par(b.to_vec())
}

fn ack() -> Par {
    byte_name(200)
}

fn args(pars: Vec<Par>) -> ContractArgs {
    (
        vec![ListParWithRandom {
            pars,
            random_state: vec![1, 2, 3],
        }],
        false,
        vec![],
    )
}

fn replayed(pars: Vec<Par>, previous_output: Vec<Par>) -> ContractArgs {
    let (messages, _, _) = args(pars);
    (messages, true, previous_output)
}

fn processes() -> SystemProcesses {
    let mut urns = UrnMap::new();
    urns.insert("rho:io:stdout".to_string(), n(1));
    let mut channels = UrnMap::new();
    channels.insert("rho:io:stdout".to_string(), FixedChannels::stdout());
    channels.insert("rho:io:stderr".to_string(), FixedChannels::stderr());
    SystemProcesses::create(
        BlockData::empty(),
        DeployData::empty(),
        Arc::new(urns),
        Arc::new(channels),
    )
}

fn refused(name: &str) -> Step {
    Step::Finished(Err(InterpreterError::IllegalArgumentError(
        name.to_string(),
    )))
}

fn host_error() -> InterpreterError {
    InterpreterError::Host("down".to_string())
}

fn marked(e: InterpreterError) -> InterpreterError {
    InterpreterError::NonDeterministicProcessFailure {
        cause: Box::new(e),
        output_not_produced: vec![],
    }
}

/// Goes on with a process that waits.
fn answer(step: Step, reply: Reply) -> Step {
    match step {
        Step::Perform(_, pending) => {
            assert!(pending.accepts(&reply), "{:?} for {:?}", reply, pending);
            processes().resume(pending, reply)
        }
        other => panic!("nothing is awaited: {:?}", other),
    }
}

fn action(step: &Step) -> &Action {
    match step {
        Step::Perform(a, _) => a,
        other => panic!("nothing is asked for: {:?}", other),
    }
}

/// The process asks for a note, and then goes on.
fn assert_notes(step: Step, level: LogLevel, text: &str, about: About) -> Step {
    assert_eq!(
        *action(&step),
        Action::Note(Note {
            level,
            text: text.to_string(),
            about
        })
    );
    answer(step, Reply::Done)
}

/// The process asks to send, and what it comes to if that goes well or not.
fn assert_sends(step: Step, data: Vec<Par>, channel: Par) -> Step {
    assert_eq!(*action(&step), Action::Produce { data, channel });
    step
}

fn sent() -> Reply {
    Reply::Produced(vec![n(99)])
}

#[test]
fn a_call_is_one_message() {
    assert!(ContractCall::unapply((vec![], false, vec![])).is_none());
    let two = vec![
        ListParWithRandom {
            pars: vec![n(1)],
            random_state: vec![],
        },
        ListParWithRandom {
            pars: vec![n(2)],
            random_state: vec![],
        },
    ];
    assert!(ContractCall::unapply((two, false, vec![])).is_none());
    let call = ContractCall::unapply(replayed(vec![n(1), n(2)], vec![n(3)])).unwrap();
    assert!(call.is_replay);
    assert_eq!(call.previous_output, vec![n(3)]);
    assert_eq!(call.args, vec![n(1), n(2)]);
}

#[test]
fn printing_asks_and_is_done() {
    let step = processes().std_out(args(vec![n(5)]));
    assert_eq!(
        *action(&step),
        Action::Print {
            stream: Stream::Output,
            message: n(5)
        }
    );
    assert_eq!(answer(step, Reply::Done), Step::Finished(Ok(vec![])));
    let step = processes().std_err(args(vec![n(5)]));
    assert_eq!(
        *action(&step),
        Action::Print {
            stream: Stream::Errors,
            message: n(5)
        }
    );
    assert_eq!(processes().std_out(args(vec![])), refused("std_out"));
    assert_eq!(
        processes().std_err(args(vec![n(1), n(2)])),
        refused("std_err")
    );
}

#[test]
fn printing_is_acknowledged_with_nil() {
    let step = processes().std_out_ack(args(vec![n(5), ack()]));
    let step = assert_sends(answer(step, Reply::Done), vec![RhoNil::create_par()], ack());
    assert_eq!(
        answer(step, sent()),
        Step::Finished(Ok(vec![RhoNil::create_par()]))
    );
    let step = processes().std_err_ack(args(vec![n(5), ack()]));
    assert_eq!(
        *action(&step),
        Action::Print {
            stream: Stream::Errors,
            message: n(5)
        }
    );
    let step = answer(step, Reply::Done);
    assert_eq!(
        answer(step, Reply::Failed(host_error())),
        Step::Finished(Err(host_error()))
    );
    assert_eq!(processes().std_out_ack(args(vec![n(1)])), refused("std_out_ack"));
    assert_eq!(processes().std_err_ack(args(vec![n(1)])), refused("std_err_ack"));
}

#[test]
fn hashes_are_asked_for_and_sent() {
    let step = processes().sha256_hash(args(vec![bytes(&[1, 2]), ack()]));
    assert_eq!(
        *action(&step),
        Action::Hash {
            algorithm: HashAlgorithm::Sha256,
            data: vec![1, 2]
        }
    );
    let step = assert_sends(answer(step, Reply::Bytes(vec![9])), vec![bytes(&[9])], ack());
    assert_eq!(answer(step, sent()), Step::Finished(Ok(vec![bytes(&[9])])));
    let step = processes().keccak256_hash(args(vec![bytes(&[1]), ack()]));
    assert!(matches!(
        action(&step),
        Action::Hash {
            algorithm: HashAlgorithm::Keccak256,
            ..
        }
    ));
    let step = processes().blake2b256_hash(args(vec![bytes(&[1]), ack()]));
    assert!(matches!(
        action(&step),
        Action::Hash {
            algorithm: HashAlgorithm::Blake2b256,
            ..
        }
    ));
    assert_eq!(
        processes().sha256_hash(args(vec![s("no bytes"), ack()])),
        refused("sha256Hash")
    );
    assert_eq!(processes().keccak256_hash(args(vec![])), refused("keccak256Hash"));
    assert_eq!(
        processes().blake2b256_hash(args(vec![n(1), ack()])),
        refused("blake2b256Hash")
    );
}

#[test]
fn signatures_are_verified_and_the_outcome_is_sent() {
    let pars = || vec![bytes(&[1]), bytes(&[2]), bytes(&[3]), ack()];
    let step = processes().secp256k1_verify(args(pars()));
    assert_eq!(
        *action(&step),
        Action::Verify {
            algorithm: SignatureAlgorithm::Secp256k1,
            data: vec![1],
            signature: vec![2],
            key: vec![3]
        }
    );
    let step = answer(step, Reply::Flag(false));
    let step = assert_sends(step, vec![RhoBoolean::create_par(false)], ack());
    assert_eq!(
        answer(step, sent()),
        Step::Finished(Ok(vec![RhoBoolean::create_par(false)]))
    );
    let step = processes().ed25519_verify(args(pars()));
    assert!(matches!(
        action(&step),
        Action::Verify {
            algorithm: SignatureAlgorithm::Ed25519,
            ..
        }
    ));
    for i in 0..3 {
        let mut bad = pars();
        bad[i] = s("no bytes");
        assert_eq!(processes().secp256k1_verify(args(bad)), refused("secp256k1Verify"));
    }
    assert_eq!(processes().ed25519_verify(args(vec![])), refused("ed25519Verify"));
}

#[test]
fn block_data_is_told() {
    let data = BlockData {
        time_stamp: 7,
        block_number: 8,
        sender: PublicKey { bytes: vec![4, 5] },
        seq_num: 2,
    };
    let output = || vec![n(8), n(7), bytes(&[4, 5])];
    let step = processes().get_block_data(args(vec![ack()]), &data);
    let step = assert_sends(step, output(), ack());
    assert_eq!(answer(step, sent()), Step::Finished(Ok(output())));
    assert_eq!(
        processes().get_block_data(args(vec![]), &data),
        refused("get_block_data")
    );
}

#[test]
fn deploy_data_is_told() {
    let data = DeployData {
        timestamp: 7,
        deployer_id: PublicKey { bytes: vec![4] },
        deploy_id: vec![5, 6],
    };
    let output = || {
        vec![
            n(7),
            RhoDeployerId::create_par(vec![4]),
            RhoDeployId::create_par(vec![5, 6]),
        ]
    };
    let step = processes().get_deploy_data(args(vec![ack()]), &data);
    let step = assert_sends(step, output(), ack());
    assert_eq!(answer(step, sent()), Step::Finished(Ok(output())));
    assert_eq!(
        processes().get_deploy_data(args(vec![]), &data),
        refused("get_deploy_data expects exactly 1 argument (ack channel)")
    );
    assert_eq!(
        processes().get_deploy_data((vec![], false, vec![]), &data),
        refused("get_deploy_data: invalid contract call pattern")
    );
}

#[test]
fn invalid_blocks_are_told() {
    let mut blocks = InvalidBlocks::new();
    assert!(blocks.invalid_blocks.is_nil());
    blocks.set_params(n(3));
    let step = processes().invalid_blocks(args(vec![ack()]), &blocks);
    let step = assert_sends(step, vec![n(3)], ack());
    assert_eq!(answer(step, sent()), Step::Finished(Ok(vec![n(3)])));
    assert_eq!(
        processes().invalid_blocks(args(vec![]), &blocks),
        refused("invalid_blocks")
    );
}

#[test]
fn dev_null_takes_anything() {
    assert_eq!(
        processes().dev_null(args(vec![n(1), n(2)])),
        Step::Finished(Ok(vec![]))
    );
    assert_eq!(
        processes().dev_null((vec![], false, vec![])),
        refused("dev_null")
    );
}

#[test]
fn an_abort_aborts() {
    let aborted = || Step::Finished(Err(InterpreterError::UserAbortError));
    let step = processes().abort(args(vec![s("why")]));
    assert_eq!(*action(&step), Action::LogAbort(s("why")));
    assert_eq!(answer(step, Reply::Done), aborted());
    assert_eq!(processes().abort(args(vec![])), aborted());
    assert_eq!(processes().abort((vec![], false, vec![])), aborted());
}

#[test]
fn vault_addresses_are_asked_for() {
    let ask = |command: &str, argument: Par| {
        processes().vault_address(args(vec![s(command), argument, ack()]))
    };
    let step = ask("validate", s("1111"));
    assert_eq!(*action(&step), Action::ParseAddress("1111".to_string()));
    let invalid = Reply::MaybeText(Some("Invalid address".to_string()));
    assert_sends(answer(step, invalid), vec![s("Invalid address")], ack());
    let step = answer(ask("validate", s("1111")), Reply::MaybeText(None));
    let step = assert_sends(step, vec![RhoNil::create_par()], ack());
    assert_eq!(answer(step, sent()), Step::Finished(Ok(vec![n(99)])));

    let step = ask("fromPublicKey", bytes(&[1]));
    assert_eq!(*action(&step), Action::AddressOfKey(vec![1]));
    let step = ask("fromDeployerId", RhoDeployerId::create_par(vec![2]));
    assert_eq!(*action(&step), Action::AddressOfDeployer(vec![2]));
    let step = ask("fromUnforgeable", RhoName::create_par(GPrivate { id: vec![3] }));
    assert_eq!(*action(&step), Action::AddressOfName(vec![3]));
    let address = Reply::MaybeText(Some("1abc".to_string()));
    let step = assert_sends(answer(step, address), vec![s("1abc")], ack());
    assert_eq!(
        answer(step, Reply::Failed(host_error())),
        Step::Finished(Err(host_error()))
    );

    for command in ["validate", "fromPublicKey", "fromDeployerId", "fromUnforgeable"] {
        assert_sends(ask(command, n(1)), vec![RhoNil::create_par()], ack());
    }
    assert_eq!(ask("burn", s("1111")), refused("vault_address"));
    assert_eq!(
        processes().vault_address(args(vec![n(1), n(2), ack()])),
        refused("vault_address")
    );
    assert_eq!(processes().vault_address(args(vec![])), refused("vault_address"));
}

#[test]
fn deployers_and_tokens_are_read() {
    let step = processes().deployer_id_ops(args(vec![
        s("pubKeyBytes"),
        RhoDeployerId::create_par(vec![8]),
        ack(),
    ]));
    assert_sends(step, vec![bytes(&[8])], ack());
    let step = processes().deployer_id_ops(args(vec![s("pubKeyBytes"), n(1), ack()]));
    assert_sends(step, vec![RhoNil::create_par()], ack());
    assert_eq!(
        processes().deployer_id_ops(args(vec![s("other"), n(1), ack()])),
        refused("deployer_id_ops")
    );

    let step = processes().sys_auth_token_ops(args(vec![
        s("check"),
        RhoSysAuthToken::create_par(),
        ack(),
    ]));
    assert_sends(step, vec![RhoBoolean::create_par(true)], ack());
    let step = processes().sys_auth_token_ops(args(vec![s("check"), n(1), ack()]));
    assert_sends(step, vec![RhoBoolean::create_par(false)], ack());
    assert_eq!(
        processes().sys_auth_token_ops(args(vec![s("make"), n(1), ack()])),
        refused("sys_auth_token_ops")
    );
}

#[test]
fn registry_uris_are_hashed_and_written() {
    for v1 in [false, true] {
        let ask = |op: &str, argument: Par| {
            let a = args(vec![s(op), argument, ack()]);
            if v1 {
                processes().registry_ops_v1(a)
            } else {
                processes().registry_ops(a)
            }
        };
        let step = ask("buildUri", bytes(&[1]));
        assert_eq!(
            *action(&step),
            Action::Hash {
                algorithm: HashAlgorithm::Blake2b256,
                data: vec![1]
            }
        );
        let step = answer(step, Reply::Bytes(vec![2, 3]));
        assert_eq!(*action(&step), Action::BuildUri(vec![2, 3]));
        let step = answer(step, Reply::Text("rho:id:x".to_string()));
        assert_sends(
            step,
            vec![RhoUri::create_par("rho:id:x".to_string())],
            ack(),
        );
        assert_sends(ask("buildUri", n(1)), vec![RhoNil::create_par()], ack());
    }
    assert_eq!(
        processes().registry_ops(args(vec![s("parseVersionedUri"), s("x"), ack()])),
        refused("registry_ops")
    );
    assert_eq!(
        processes().registry_ops_v1(args(vec![s("other"), s("x"), ack()])),
        refused("registry_ops_v1")
    );
    assert_eq!(
        processes().registry_ops_v1(args(vec![n(1), s("x"), ack()])),
        refused("registry_ops_v1")
    );
}

fn parsed() -> ParsedUrn {
    ParsedUrn {
        namespace: "registry".to_string(),
        service_version: "1.0.0".to_string(),
        pub_key: None,
        project_id: Some("p".to_string()),
        project_version: None,
    }
}

#[test]
fn versioned_uris_are_taken_apart() {
    let ask = |argument: Par| {
        processes().registry_ops_v1(args(vec![s("parseVersionedUri"), argument, ack()]))
    };
    let step = ask(s("rho:registry:1.0.0"));
    assert_eq!(
        *action(&step),
        Action::ParseUrn("rho:registry:1.0.0".to_string())
    );
    let tuple = RhoTuple::create_par(vec![
        s("registry"),
        s("1.0.0"),
        RhoNil::create_par(),
        s("p"),
        RhoNil::create_par(),
    ]);
    assert_sends(answer(step, Reply::Urn(Some(parsed()))), vec![tuple], ack());
    let step = answer(ask(s("junk")), Reply::Urn(None));
    assert_sends(step, vec![RhoNil::create_par()], ack());
    assert_sends(ask(n(1)), vec![RhoNil::create_par()], ack());
}

#[test]
fn versions_are_matched() {
    let ask = |argument: Par| {
        processes().registry_ops_v1(args(vec![s("matchesVersion"), argument, ack()]))
    };
    let pair = || RhoTuple::create_par(vec![s("1.*"), s("1.2.0")]);
    let no = || vec![RhoBoolean::create_par(false)];
    let step = ask(pair());
    assert_eq!(
        *action(&step),
        Action::ReadVersions {
            pattern: "1.*".to_string(),
            versions: vec!["1.2.0".to_string()]
        }
    );
    let read = |pattern: bool, version: bool| Reply::Versions {
        pattern,
        versions: vec![version],
    };
    let step = answer(step, read(true, true));
    assert_eq!(
        *action(&step),
        Action::MatchVersion {
            pattern: "1.*".to_string(),
            version: "1.2.0".to_string()
        }
    );
    assert_sends(
        answer(step, Reply::Flag(true)),
        vec![RhoBoolean::create_par(true)],
        ack(),
    );
    assert_sends(answer(ask(pair()), read(false, true)), no(), ack());
    assert_sends(answer(ask(pair()), read(true, false)), no(), ack());
    assert_sends(ask(s("1.*")), no(), ack());
    assert_sends(ask(RhoTuple::create_par(vec![s("1.*")])), no(), ack());
    assert_sends(ask(RhoTuple::create_par(vec![s("1.*"), n(1)])), no(), ack());
    assert_sends(ask(RhoTuple::create_par(vec![n(1), s("1")])), no(), ack());
}

#[test]
fn the_best_version_is_selected() {
    let ask = |argument: Par| {
        processes().registry_ops_v1(args(vec![s("selectBestVersion"), argument, ack()]))
    };
    let pair = || {
        RhoTuple::create_par(vec![
            s("1.*"),
            RhoList::create_par(vec![s("1.0.0"), n(4), s("junk"), s("1.2.0")]),
        ])
    };
    let step = ask(pair());
    assert_eq!(
        *action(&step),
        Action::ReadVersions {
            pattern: "1.*".to_string(),
            versions: vec![
                "1.0.0".to_string(),
                "junk".to_string(),
                "1.2.0".to_string()
            ]
        }
    );
    let step = answer(
        step,
        Reply::Versions {
            pattern: true,
            versions: vec![true, false, true],
        },
    );
    assert_eq!(
        *action(&step),
        Action::BestVersion {
            pattern: "1.*".to_string(),
            versions: vec!["1.0.0".to_string(), "1.2.0".to_string()]
        }
    );
    let best = Reply::MaybeText(Some("1.2.0".to_string()));
    assert_sends(answer(step, best), vec![s("1.2.0")], ack());
    let step = answer(
        ask(pair()),
        Reply::Versions {
            pattern: false,
            versions: vec![true, true, true],
        },
    );
    assert_sends(step, vec![RhoNil::create_par()], ack());
    for malformed in [
        s("1.*"),
        RhoTuple::create_par(vec![n(1), RhoList::create_par(vec![])]),
        RhoTuple::create_par(vec![s("1.*"), s("1.0.0")]),
    ] {
        assert_sends(ask(malformed), vec![RhoNil::create_par()], ack());
    }
}

#[test]
fn urns_are_looked_up() {
    let ret = byte_name(201);
    for urn in [
        s("rho:io:stdout"),
        RhoUri::create_par("rho:io:stdout".to_string()),
    ] {
        let step = processes().registry_lookup(args(vec![urn, ret.clone()]));
        let step = assert_sends(step, vec![n(1)], ret.clone());
        assert_eq!(answer(step, sent()), Step::Finished(Ok(vec![])));
    }
    let lib = || RhoUri::create_par("rho:lib:x".to_string());
    let step = processes().registry_lookup(args(vec![lib(), ret.clone()]));
    assert_eq!(*action(&step), Action::ParseUrn("rho:lib:x".to_string()));
    let step = assert_sends(
        answer(step, Reply::Urn(Some(parsed()))),
        vec![
            s("lookupVersion"),
            s("rho:lib:x"),
            RhoNil::create_par(),
            ret.clone(),
        ],
        FixedChannels::reg_v1_internal(),
    );
    assert_eq!(answer(step, sent()), Step::Finished(Ok(vec![])));
    let step = processes().registry_lookup(args(vec![lib(), ret.clone()]));
    assert_eq!(
        answer(step, Reply::Urn(None)),
        Step::Finished(Err(InterpreterError::ReduceError(
            "registry_lookup: unknown URN: rho:lib:x".to_string()
        )))
    );
    assert_eq!(
        processes().registry_lookup(args(vec![n(1), ret])),
        refused("registry_lookup: urn arg must be a String or Uri")
    );
    assert_eq!(
        processes().registry_lookup(args(vec![n(1)])),
        refused("registry_lookup")
    );
}

#[test]
fn prompts_are_put_to_services() {
    let pars = || vec![s("a cat"), ack()];
    for image in [false, true] {
        let ask = |a: ContractArgs| {
            if image {
                processes().dalle3(a)
            } else {
                processes().gpt4(a)
            }
        };
        let name = if image { "dalle3" } else { "gpt4" };
        let step = ask(args(pars()));
        let expected = if image {
            Action::Dalle3("a cat".to_string())
        } else {
            Action::Gpt4("a cat".to_string())
        };
        assert_eq!(*action(&step), expected);
        let step = answer(step, Reply::Text("meow".to_string()));
        let step = assert_sends(step, vec![s("meow")], ack());
        assert_eq!(answer(step, sent()), Step::Finished(Ok(vec![s("meow")])));

        let step = answer(ask(args(pars())), Reply::Failed(host_error()));
        assert_eq!(step, Step::Finished(Err(marked(host_error()))));

        let step = answer(ask(args(pars())), Reply::Text("meow".to_string()));
        assert_eq!(
            answer(step, Reply::Failed(host_error())),
            Step::Finished(Err(InterpreterError::ProduceFailureWithOutput {
                cause: Box::new(host_error()),
                output_not_produced: vec![s("meow")],
            }))
        );

        let step = ask(replayed(pars(), vec![s("before")]));
        let step = assert_sends(step, vec![s("before")], ack());
        assert_eq!(answer(step, sent()), Step::Finished(Ok(vec![s("before")])));

        assert_eq!(ask(args(vec![n(1), ack()])), refused(name));
        assert_eq!(ask(replayed(vec![n(1), ack()], vec![])), refused(name));
        assert_eq!(ask(args(vec![])), refused(name));
    }
}

#[test]
fn speech_goes_to_a_file_of_its_own() {
    let path = || {
        let step = processes().text_to_audio(args(vec![s("hi"), ack()]));
        match action(&step) {
            Action::Speak { input, path } => {
                assert_eq!(input, "hi");
                path.clone()
            }
            other => panic!("{:?}", other),
        }
    };
    let (a, b) = (path(), path());
    assert!(a != b);
    for p in [a, b] {
        let id: Vec<char> = p["audio_".len()..p.len() - ".mp3".len()].chars().collect();
        assert!(p.starts_with("audio_") && p.ends_with(".mp3"));
        assert_eq!(id.len(), 36);
        assert_eq!((id[8], id[13], id[18], id[23]), ('-', '-', '-', '-'));
        assert_eq!(id[14], '4');
        assert!(id
            .iter()
            .all(|c| *c == '-' || c.is_ascii_digit() || ('a'..='f').contains(c)));
    }
}

#[test]
fn speech_is_sent_as_bytes() {
    let step = processes().text_to_audio_as(args(vec![s("hi"), ack()]), "7");
    assert_eq!(
        *action(&step),
        Action::Speak {
            input: "hi".to_string(),
            path: "audio_7.mp3".to_string()
        }
    );
    let step = answer(step, Reply::Bytes(vec![1, 2]));
    assert_sends(step, vec![bytes(&[1, 2])], ack());
    let step = processes().text_to_audio(replayed(vec![s("hi"), ack()], vec![bytes(&[3])]));
    assert_sends(step, vec![bytes(&[3])], ack());
    assert_eq!(
        processes().text_to_audio(args(vec![n(1), ack()])),
        refused("text_to_audio")
    );
}

#[test]
fn models_are_asked() {
    let step = processes().ollama_chat(args(vec![s("m"), s("hi"), ack()]));
    assert_eq!(
        *action(&step),
        Action::OllamaChat {
            model: "m".to_string(),
            messages: vec![ChatMessage {
                role: "user".to_string(),
                content: "hi".to_string()
            }]
        }
    );
    assert_sends(
        answer(step, Reply::Text("yo".to_string())),
        vec![s("yo")],
        ack(),
    );
    let step = processes().ollama_generate(args(vec![s("m"), s("hi"), ack()]));
    assert_eq!(
        *action(&step),
        Action::OllamaGenerate {
            model: "m".to_string(),
            prompt: "hi".to_string()
        }
    );
    assert_eq!(
        processes().ollama_chat(args(vec![n(1), n(2), ack()])),
        refused("ollama_chat: model must be a string")
    );
    assert_eq!(
        processes().ollama_chat(args(vec![s("m"), n(2), ack()])),
        refused("ollama_chat: prompt must be a string")
    );
    assert_eq!(
        processes().ollama_generate(args(vec![n(1), n(2), ack()])),
        refused("ollama_generate: model must be a string")
    );
    assert_eq!(
        processes().ollama_generate(args(vec![s("m"), n(2), ack()])),
        refused("ollama_generate: prompt must be a string")
    );
    assert_eq!(processes().ollama_chat(args(vec![])), refused("ollama_chat"));
    assert_eq!(
        processes().ollama_generate(args(vec![])),
        refused("ollama_generate")
    );
    let step = processes().ollama_chat(replayed(vec![n(1), n(2), ack()], vec![s("x")]));
    assert_sends(step, vec![s("x")], ack());
    let step = processes().ollama_generate(replayed(vec![n(1), n(2), ack()], vec![s("x")]));
    assert_sends(step, vec![s("x")], ack());
}

#[test]
fn models_are_listed() {
    let step = processes().ollama_models(args(vec![ack()]));
    assert_eq!(*action(&step), Action::OllamaModels);
    let models = Reply::Texts(vec!["a".to_string(), "b".to_string()]);
    assert_sends(
        answer(step, models),
        vec![RhoList::create_par(vec![s("a"), s("b")])],
        ack(),
    );
    let step = processes().ollama_models(replayed(vec![ack()], vec![s("x")]));
    assert_sends(step, vec![s("x")], ack());
    assert_eq!(
        processes().ollama_models(args(vec![])),
        refused("ollama_models")
    );
}

#[test]
fn grpc_clients_are_told() {
    let tell = |port: i64| processes().grpc_tell(args(vec![s("host"), n(port), s("hi")]));
    let step = tell(i64::MAX);
    assert_eq!(
        *action(&step),
        Action::Tell {
            host: "host".to_string(),
            port: 9223372036854775807,
            payload: "hi".to_string()
        }
    );
    let step = assert_notes(
        answer(step, Reply::Done),
        LogLevel::Debug,
        "grpcTell: successfully sent to host:9223372036854775807",
        About::Nothing,
    );
    assert_eq!(step, Step::Finished(Ok(vec![RhoNil::create_par()])));
    let step = assert_notes(
        answer(tell(1), Reply::Fault("gone".to_string())),
        LogLevel::Warn,
        "GrpcClient error: gone",
        About::Nothing,
    );
    assert_eq!(
        step,
        Step::Finished(Err(marked(InterpreterError::BugFoundError(
            "gRPC client error: gone".to_string()
        ))))
    );
    assert_eq!(
        tell(-1),
        Step::Finished(Err(InterpreterError::BugFoundError(
            "Invalid port number: must be non-negative".to_string()
        )))
    );
}

#[test]
fn bad_grpc_calls_are_noted() {
    let wrong = || vec![s("host"), s("1"), s("hi")];
    let step = assert_notes(
        processes().grpc_tell(args(wrong())),
        LogLevel::Warn,
        "grpcTell: invalid argument types: ",
        About::Args(wrong()),
    );
    assert_eq!(step, refused("grpc_tell"));
    let step = assert_notes(
        processes().grpc_tell(args(vec![s("host")])),
        LogLevel::Warn,
        "grpcTell: isReplay false invalid arguments (expected 3): ",
        About::Args(vec![s("host")]),
    );
    assert_eq!(step, refused("grpc_tell"));
    let step = assert_notes(
        processes().grpc_tell(replayed(vec![s("host")], vec![n(4)])),
        LogLevel::Debug,
        "grpcTell (replay): args: ",
        About::Args(vec![s("host")]),
    );
    assert_eq!(step, Step::Finished(Ok(vec![n(4)])));
    assert_eq!(
        processes().grpc_tell((vec![], false, vec![])),
        refused("grpc_tell")
    );
}

#[test]
fn failures_of_models_are_noted() {
    let pars = || vec![s("m"), s("hi"), ack()];
    for (step, text) in [
        (
            processes().ollama_chat(args(pars())),
            "Ollama chat request failed",
        ),
        (
            processes().ollama_generate(args(pars())),
            "Ollama generate request failed",
        ),
        (
            processes().ollama_models(args(vec![ack()])),
            "Ollama models list request failed",
        ),
    ] {
        let nested = || marked(host_error());
        let step = assert_notes(
            answer(step, Reply::Failed(nested())),
            LogLevel::Error,
            text,
            About::Error(nested()),
        );
        assert_eq!(step, Step::Finished(Err(marked(nested()))));
    }
}

#[test]
fn collections_are_made() {
    let make = |meta: Par| {
        processes().chroma_create_collection(args(vec![
            s("c"),
            RhoBoolean::create_par(true),
            meta,
            ack(),
        ]))
    };
    let step = make(RhoNil::create_par());
    assert_eq!(
        *action(&step),
        Action::CreateCollection {
            name: "c".to_string(),
            update: true,
            metadata: None
        }
    );
    let step = assert_sends(answer(step, Reply::Done), vec![RhoNil::create_par()], ack());
    assert_eq!(
        answer(step, sent()),
        Step::Finished(Ok(vec![RhoNil::create_par()]))
    );
    let meta = || {
        RhoMap::create_par(vec![KeyValuePair {
            key: s("k"),
            value: n(1),
        }])
    };
    let step = make(meta());
    assert!(matches!(action(&step), Action::CreateCollection { metadata: Some(m), .. } if *m == meta()));
    assert_eq!(
        answer(step, Reply::Malformed),
        refused("chroma_create_collection")
    );
    assert_eq!(
        answer(make(meta()), Reply::Failed(host_error())),
        Step::Finished(Err(host_error()))
    );
    assert_eq!(
        processes().chroma_create_collection(args(vec![s("c"), n(1), n(2), ack()])),
        refused("chroma_create_collection")
    );
}

#[test]
fn collections_are_described() {
    let ask = || processes().chroma_get_collection_meta(args(vec![s("c"), ack()]));
    assert_eq!(*action(&ask()), Action::CollectionMeta("c".to_string()));
    assert_sends(
        answer(ask(), Reply::MaybePar(Some(n(6)))),
        vec![n(6)],
        ack(),
    );
    assert_sends(
        answer(ask(), Reply::MaybePar(None)),
        vec![RhoNil::create_par()],
        ack(),
    );
    assert_eq!(
        answer(ask(), Reply::Failed(host_error())),
        Step::Finished(Err(host_error()))
    );
    let step = processes().chroma_get_collection_meta(replayed(vec![s("c"), ack()], vec![n(7)]));
    assert_sends(step, vec![n(7)], ack());
    assert_eq!(
        processes().chroma_get_collection_meta(args(vec![n(1), ack()])),
        refused("chroma_get_collection_meta")
    );
}

#[test]
fn documents_are_stored_found_and_deleted() {
    let step = processes().chroma_upsert_entries(args(vec![s("c"), n(1), ack()]));
    assert_eq!(
        *action(&step),
        Action::UpsertEntries {
            name: "c".to_string(),
            entries: n(1)
        }
    );
    assert_sends(answer(step, Reply::Done), vec![s("c")], ack());
    let step = processes().chroma_upsert_entries(args(vec![s("c"), n(1), ack()]));
    assert_eq!(answer(step, Reply::Malformed), refused("chroma_upsert_entries"));

    let texts = || RhoList::create_par(vec![s("x"), s("y")]);
    let step = processes().chroma_query(args(vec![s("c"), texts(), ack()]));
    assert_eq!(
        *action(&step),
        Action::QueryCollection {
            name: "c".to_string(),
            texts: vec!["x".to_string(), "y".to_string()]
        }
    );
    assert_sends(
        answer(step, Reply::Pars(vec![n(1), n(2)])),
        vec![RhoList::create_par(vec![n(1), n(2)])],
        ack(),
    );
    let step = processes().chroma_query(replayed(vec![s("c"), texts(), ack()], vec![n(9)]));
    assert_sends(step, vec![n(9)], ack());
    let mixed = RhoList::create_par(vec![s("x"), n(1)]);
    assert_eq!(
        processes().chroma_query(args(vec![s("c"), mixed, ack()])),
        refused("chroma_query")
    );

    let step = processes().chroma_delete_documents(args(vec![s("c"), texts(), ack()]));
    assert_eq!(
        *action(&step),
        Action::DeleteDocuments {
            name: "c".to_string(),
            ids: vec!["x".to_string(), "y".to_string()]
        }
    );
    assert_sends(answer(step, Reply::Done), vec![s("c")], ack());
    assert_eq!(
        processes().chroma_delete_documents(args(vec![s("c"), s("x"), ack()])),
        refused("chroma_delete_documents")
    );
}

fn frame(channel: &str, arguments: Vec<Par>) -> Frame {
    Frame {
        channel: channel.to_string(),
        arguments,
    }
}

#[test]
fn frames_are_forwarded_in_order() {
    let step = processes().petta_execute(args(vec![s("!(+ 1 2)"), ack()]));
    assert_eq!(*action(&step), Action::RunPetta("!(+ 1 2)".to_string()));
    let mut step = answer(
        step,
        Reply::Petta {
            frames: vec![
                frame("rho:io:stdout", vec![s("a"), s("b")]),
                frame("rho:unknown", vec![s("lost")]),
                frame("rho:io:stderr", vec![s("c")]),
            ],
            result: n(3),
        },
    );
    for (argument, channel) in [
        ("a", FixedChannels::stdout()),
        ("b", FixedChannels::stdout()),
        ("c", FixedChannels::stderr()),
    ] {
        if argument == "c" {
            step = assert_notes(
                step,
                LogLevel::Warn,
                "Unknown channel URN in frame: rho:unknown",
                About::Petta,
            );
        }
        assert_eq!(
            *action(&step),
            Action::Emit {
                message: ListParWithRandom {
                    pars: vec![s(argument)],
                    random_state: vec![1, 2, 3]
                },
                channel
            }
        );
        step = answer(step, Reply::Done);
    }
    let step = assert_sends(step, vec![n(3)], ack());
    assert_eq!(answer(step, sent()), Step::Finished(Ok(vec![n(3)])));
}

#[test]
fn a_program_fails_as_a_service_does() {
    let run = || processes().petta_execute(args(vec![s("code"), ack()]));
    assert_eq!(
        answer(run(), Reply::Failed(host_error())),
        Step::Finished(Err(marked(host_error())))
    );
    let step = answer(
        run(),
        Reply::Petta {
            frames: vec![frame("rho:io:stdout", vec![s("a")])],
            result: n(3),
        },
    );
    assert_eq!(
        answer(step, Reply::Fault("full".to_string())),
        Step::Finished(Err(marked(marked(InterpreterError::SwiplError(
            "Failed to produce on channel rho:io:stdout: full".to_string()
        )))))
    );
    let step = answer(
        run(),
        Reply::Petta {
            frames: vec![],
            result: n(3),
        },
    );
    assert_eq!(
        answer(step, Reply::Failed(host_error())),
        Step::Finished(Err(InterpreterError::ProduceFailureWithOutput {
            cause: Box::new(host_error()),
            output_not_produced: vec![n(3)],
        }))
    );
    assert_eq!(
        processes().petta_execute(args(vec![n(1), ack()])),
        refused("petta_execute")
    );
    assert_eq!(
        processes().petta_execute((vec![], false, vec![])),
        refused("petta_execute")
    );
}

#[test]
fn a_replay_does_not_run_the_program() {
    let step = processes().petta_execute(replayed(vec![s("code"), ack()], vec![n(3)]));
    let step = assert_sends(step, vec![n(3)], ack());
    assert_eq!(answer(step, sent()), Step::Finished(Ok(vec![n(3)])));
}

#[test]
fn services_answer_in_kind() {
    let text = || Reply::Text("t".to_string());
    let prompted = processes().gpt4(args(vec![s("p"), ack()]));
    let spoken = processes().text_to_audio_as(args(vec![s("p"), ack()]), "1");
    let deleted = processes().chroma_delete_documents(args(vec![
        s("c"),
        RhoList::create_par(vec![]),
        ack(),
    ]));
    let accepts = |step: &Step, reply: Reply| match step {
        Step::Perform(_, pending) => pending.accepts(&reply),
        _ => false,
    };
    assert!(accepts(&prompted, text()));
    assert!(!accepts(&prompted, Reply::Bytes(vec![])));
    assert!(accepts(&spoken, Reply::Bytes(vec![])));
    assert!(!accepts(&spoken, text()));
    assert!(accepts(&deleted, Reply::Done));
    assert!(!accepts(&deleted, Reply::Malformed));
}

#[test]
fn answers_that_do_not_fit_are_told() {
    assert!(!Pending::Printed.accepts(&Reply::Malformed));
    assert!(!Pending::Hashed { ack: ack() }.accepts(&Reply::Done));
    assert!(!Pending::Passing.accepts(&Reply::Done));
    let two = Reply::Versions {
        pattern: true,
        versions: vec![true, true],
    };
    assert!(!Pending::VersionRead {
        pattern: "p".to_string(),
        version: "v".to_string(),
        ack: ack()
    }
    .accepts(&two));
    assert!(Pending::VersionsRead {
        pattern: "p".to_string(),
        candidates: vec!["v".to_string(), "w".to_string()],
        ack: ack()
    }
    .accepts(&two));
}
