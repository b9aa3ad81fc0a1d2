//! System processes for tests of contracts: assertions, logging, and the means
//! to set up what a contract under test sees.
use vstd::prelude::*;

use crate::contract_call::{call_view, finish, lemma_pars, none, one, refuse, send};
use crate::contract_call::{finished, refused, return_on, CallView, ContractArgs, ContractCall};
use crate::crypto::{check_secp256k1_key, is_secp256k1_key, secp256k1_der_signature};
use crate::crypto::{sign_secp256k1, PublicKey};
use crate::errors::{ErrorView, InterpreterError};
use crate::exchange::{Action, ActionView, LogLevel, Pending, PendingView, Step, StepView};
use crate::par::{copy_pars, pars_view, Par, ParView};
use crate::rho_type::{bool_of, bool_par, bytes_of, bytes_par, deployer_id_par, nil, number_of};
use crate::rho_type::{string_of, sys_auth_token_par, tuple_of};
use crate::rho_type::{RhoBoolean, RhoByteArray, RhoDeployerId, RhoNumber, RhoString};
use crate::rho_type::{RhoSysAuthToken, RhoTuple};
use crate::state::{BlockDataView, InvalidBlocks};
use crate::system_processes::SystemProcesses;
use crate::text::{i64_text, int_text, is_text, join, nat_text, u64_text};

verus! {

// ---------------------------------------------------------------------------
// Assertions
// ---------------------------------------------------------------------------
/// An assertion of a test, as it is sent.
#[verifier::ext_equal]
pub struct AssertView {
    pub test_name: Seq<char>,
    pub attempt: i64,
    pub assertion: ParView,
    pub clue: Seq<char>,
    pub ack: ParView,
}

/// The name of a test, its attempt, an assertion, a clue and a channel.
pub open spec fn assert_of(a: Seq<ParView>) -> Option<AssertView> {
    if a.len() == 5 {
        match (string_of(a[0]), number_of(a[1]), string_of(a[3])) {
            (Some(test_name), Some(attempt), Some(clue)) => Some(
                AssertView { test_name, attempt, assertion: a[2], clue, ack: a[4] },
            ),
            _ => None,
        }
    } else {
        None
    }
}

/// What is expected, an operator, and what is there.
pub open spec fn comparison_of(p: ParView) -> Option<(ParView, Seq<char>, ParView)> {
    match tuple_of(p) {
        Some(ps) => if ps.len() == 3 {
            match string_of(ps[1]) {
                Some(operator) => Some((ps[0], operator, ps[2])),
                None => None,
            }
        } else {
            None
        },
        None => None,
    }
}

/// The word that a suite of tests has finished.
pub open spec fn set_finished_of(a: Seq<ParView>) -> Option<bool> {
    if a.len() == 1 {
        bool_of(a[0])
    } else {
        None
    }
}

pub struct IsAssert;

impl IsAssert {
    pub fn unapply(p: Vec<Par>) -> (r: Option<(String, i64, Par, String, Par)>)
        ensures
            match r {
                Some((test_name, attempt, assertion, clue, ack)) => assert_of(pars_view(p@))
                    == Some(
                    AssertView {
                        test_name: test_name@,
                        attempt,
                        assertion: assertion@,
                        clue: clue@,
                        ack: ack@,
                    },
                ),
                None => assert_of(pars_view(p@)) is None,
            },
    {
        proof {
            lemma_pars(p@);
        }
        if p.len() != 5 {
            return None;
        }
        proof {
            let a = pars_view(p@);
            assert(a[0] == p@[0]@ && a[1] == p@[1]@ && a[2] == p@[2]@ && a[3] == p@[3]@ && a[4]
                == p@[4]@);
        }
        match (RhoString::unapply(&p[0]), RhoNumber::unapply(&p[1]), RhoString::unapply(&p[3])) {
            (Some(test_name), Some(attempt), Some(clue)) => Some(
                (test_name, attempt, p[2].clone(), clue, p[4].clone()),
            ),
            _ => None,
        }
    }
}

pub struct IsComparison;

impl IsComparison {
    pub fn unapply(p: Par) -> (r: Option<(Par, String, Par)>)
        ensures
            match r {
                Some((expected, operator, actual)) => comparison_of(p@) == Some(
                    (expected@, operator@, actual@),
                ),
                None => comparison_of(p@) is None,
            },
    {
        let ps: Vec<Par> = match RhoTuple::unapply(&p) {
            Some(ps) => ps,
            None => return None,
        };
        proof {
            lemma_pars(ps@);
        }
        if ps.len() != 3 {
            return None;
        }
        proof {
            let a = pars_view(ps@);
            assert(a[0] == ps@[0]@ && a[1] == ps@[1]@ && a[2] == ps@[2]@);
        }
        match RhoString::unapply(&ps[1]) {
            Some(operator) => Some((ps[0].clone(), operator, ps[2].clone())),
            None => None,
        }
    }
}

pub struct IsSetFinished;

impl IsSetFinished {
    pub fn unapply(p: Vec<Par>) -> (r: Option<bool>)
        ensures
            r == set_finished_of(pars_view(p@)),
    {
        proof {
            lemma_pars(p@);
        }
        if p.len() == 1 {
            assert(pars_view(p@)[0] == p@[0]@);
            RhoBoolean::unapply(&p[0])
        } else {
            None
        }
    }
}

#[derive(Debug, PartialEq, Eq)]
pub enum RhoTestAssertion {
    RhoAssertTrue { test_name: String, is_success: bool, clue: String },
    RhoAssertEquals { test_name: String, expected: Par, actual: Par, clue: String },
    RhoAssertNotEquals { test_name: String, unexpected: Par, actual: Par, clue: String },
}

impl RhoTestAssertion {
    pub open spec fn holds(&self) -> bool {
        match self {
            RhoTestAssertion::RhoAssertTrue { is_success, .. } => *is_success,
            RhoTestAssertion::RhoAssertEquals { expected, actual, .. } => actual@ == expected@,
            RhoTestAssertion::RhoAssertNotEquals { unexpected, actual, .. } => actual@
                != unexpected@,
        }
    }

    pub fn is_success(&self) -> (r: bool)
        ensures
            r == self.holds(),
    {
        match self {
            RhoTestAssertion::RhoAssertTrue { is_success, .. } => *is_success,
            RhoTestAssertion::RhoAssertEquals { expected, actual, .. } => actual.same(expected),
            RhoTestAssertion::RhoAssertNotEquals { unexpected, actual, .. } => !actual.same(
                unexpected,
            ),
        }
    }
}

/// A test's clue, with the attempt that it belongs to.
pub open spec fn clue_text(clue: Seq<char>, attempt: i64) -> Seq<char> {
    clue + " (test attempt: "@ + int_text(attempt as int) + ")"@
}

/// Whether two processes are the same, or else differ, is sent; then it is
/// checked on their text and on themselves.
pub open spec fn comparison_step(
    t: AssertView,
    expected: ParView,
    actual: ParView,
    wanted: bool,
) -> StepView {
    let output = seq![bool_par((actual == expected) == wanted)];
    StepView::Perform(
        ActionView::Produce { data: output, channel: t.ack },
        PendingView::Comparing {
            expected,
            actual,
            wanted,
            message: clue_text(t.clue, t.attempt),
            output,
        },
    )
}

pub open spec fn assertion_step(t: AssertView) -> StepView {
    match comparison_of(t.assertion) {
        Some((expected, operator, actual)) => if operator == "=="@ {
            comparison_step(t, expected, actual, true)
        } else if operator == "!="@ {
            comparison_step(t, expected, actual, false)
        } else {
            refused("handle_message"@)
        },
        None => match bool_of(t.assertion) {
            Some(condition) => StepView::Perform(
                ActionView::Produce { data: seq![bool_par(condition)], channel: t.ack },
                PendingView::Asserting {
                    condition,
                    message: clue_text(t.clue, t.attempt),
                    output: seq![bool_par(condition)],
                },
            ),
            None => StepView::Perform(
                ActionView::Produce { data: seq![bool_par(false)], channel: t.ack },
                PendingView::Unreadable { assertion: t.assertion },
            ),
        },
    }
}

pub open spec fn handle_message_step(call: CallView) -> StepView {
    match call.args() {
        Some(a) => match assert_of(a) {
            Some(t) => assertion_step(t),
            None => match set_finished_of(a) {
                Some(_) => finished(Seq::empty()),
                None => refused("handle_message"@),
            },
        },
        None => refused("handle_message"@),
    }
}

fn clue_msg(clue: &String, attempt: i64) -> (r: String)
    ensures
        r@ == clue_text(clue@, attempt),
{
    let mut r: String = join(clue.as_str(), " (test attempt: ");
    let digits: String = i64_text(attempt);
    r.append(digits.as_str());
    r.append(")");
    r
}

fn compare(
    assertion: &RhoTestAssertion,
    expected: Par,
    actual: Par,
    wanted: bool,
    message: String,
    ack: Par,
) -> (r: Step)
    requires
        assertion.holds() == ((actual@ == expected@) == wanted),
    ensures
        ({
            let output = seq![bool_par((actual@ == expected@) == wanted)];
            r@ == StepView::Perform(
                ActionView::Produce { data: output, channel: ack@ },
                PendingView::Comparing {
                    expected: expected@,
                    actual: actual@,
                    wanted,
                    message: message@,
                    output,
                },
            )
        }),
{
    let output: Vec<Par> = one(RhoBoolean::create_par(assertion.is_success()));
    let data: Vec<Par> = copy_pars(&output);
    Step::Perform(
        Action::Produce { data, channel: ack },
        Pending::Comparing { expected, actual, wanted, message, output },
    )
}

// ---------------------------------------------------------------------------
// Logging, identities, signatures
// ---------------------------------------------------------------------------
pub open spec fn level_of(p: ParView) -> Option<LogLevel> {
    match string_of(p) {
        Some(s) => if s == "trace"@ {
            Some(LogLevel::Trace)
        } else if s == "debug"@ {
            Some(LogLevel::Debug)
        } else if s == "info"@ {
            Some(LogLevel::Info)
        } else if s == "warn"@ {
            Some(LogLevel::Warn)
        } else if s == "error"@ {
            Some(LogLevel::Error)
        } else {
            None
        },
        None => None,
    }
}

pub open spec fn std_log_step(call: CallView) -> StepView {
    match call.exactly(2) {
        Some(a) => match level_of(a[0]) {
            Some(level) => StepView::Perform(
                ActionView::Log { level, message: a[1] },
                PendingView::Printed,
            ),
            None => refused("std_log"@),
        },
        None => refused("std_log"@),
    }
}

pub open spec fn deployer_id_make_step(call: CallView) -> StepView {
    match call.exactly(3) {
        Some(a) => match bytes_of(a[1]) {
            Some(key) => if string_of(a[0]) == Some("deployerId"@) {
                return_on(seq![deployer_id_par(key)], a[2])
            } else {
                refused("deployer_id_make"@)
            },
            None => refused("deployer_id_make"@),
        },
        None => refused("deployer_id_make"@),
    }
}

/// A signature is sent. There is no step where the key and the hash have no
/// signature.
pub open spec fn sign_step(call: CallView) -> Option<StepView> {
    match call.exactly(3) {
        Some(a) => match (bytes_of(a[0]), bytes_of(a[1])) {
            (Some(hash), Some(key)) => if key.len() != 32 {
                Some(
                    StepView::Finished(
                        Err(
                            ErrorView::BugFoundError(
                                "Invalid private key length: must be 32 bytes, got "@ + nat_text(
                                    key.len(),
                                ),
                            ),
                        ),
                    ),
                )
            } else {
                match secp256k1_der_signature(key, hash) {
                    Some(signature) => Some(return_on(seq![bytes_par(signature)], a[2])),
                    None => None,
                }
            },
            _ => Some(refused("secp256k1_sign"@)),
        },
        None => Some(refused("secp256k1_sign"@)),
    }
}

/// Why a hash is not signed.
#[derive(Debug, Clone, Copy, PartialEq, Eq, Structural)]
pub enum SigningFault {
    InvalidKey,
    NotSigned,
}

impl SigningFault {
    pub open spec fn words(self) -> Seq<char> {
        match self {
            SigningFault::InvalidKey => "Invalid private key"@,
            SigningFault::NotSigned => "Failed to sign prehash"@,
        }
    }

    pub fn text(&self) -> (r: String)
        ensures
            r@ == self.words(),
    {
        match self {
            SigningFault::InvalidKey => "Invalid private key".to_owned(),
            SigningFault::NotSigned => "Failed to sign prehash".to_owned(),
        }
    }
}

/// Why there is no step for a signature: the key is none, or else the hash has no
/// signature under it.
pub open spec fn signing_fault(call: CallView) -> SigningFault {
    if is_secp256k1_key(bytes_of(call.exactly(3)->0[1])->0) {
        SigningFault::NotSigned
    } else {
        SigningFault::InvalidKey
    }
}

pub open spec fn sys_auth_token_make_step(call: CallView) -> StepView {
    match call.exactly(1) {
        Some(a) => return_on(seq![sys_auth_token_par()], a[0]),
        None => refused("sys_auth_token_make"@),
    }
}

// ---------------------------------------------------------------------------
// Setting up
// ---------------------------------------------------------------------------
/// The block data after a call that sets the sender or the block number; a call
/// that is refused changes nothing.
pub open spec fn block_data_after(call: CallView, data: BlockDataView) -> BlockDataView {
    match call.exactly(3) {
        Some(a) => if string_of(a[0]) == Some("sender"@) && bytes_of(a[1]) is Some {
            BlockDataView { sender: bytes_of(a[1])->0, ..data }
        } else if string_of(a[0]) == Some("blockNumber"@) && number_of(a[1]) is Some {
            BlockDataView { block_number: number_of(a[1])->0, ..data }
        } else {
            data
        },
        None => data,
    }
}

pub open spec fn block_data_set_step(call: CallView) -> StepView {
    match call.exactly(3) {
        Some(a) => if (string_of(a[0]) == Some("sender"@) && bytes_of(a[1]) is Some) || (string_of(
            a[0],
        ) == Some("blockNumber"@) && number_of(a[1]) is Some) {
            return_on(seq![nil()], a[2])
        } else {
            refused("block_data_set"@)
        },
        None => refused("block_data_set"@),
    }
}

/// The blocks found invalid, after a call that sets them; a call that is refused
/// changes nothing.
pub open spec fn invalid_blocks_after(call: CallView, blocks: ParView) -> ParView {
    match call.exactly(2) {
        Some(a) => a[0],
        None => blocks,
    }
}

pub open spec fn casper_invalid_blocks_set_step(call: CallView) -> StepView {
    match call.exactly(2) {
        Some(a) => return_on(seq![nil()], a[1]),
        None => refused("casper_invalid_blocks_set"@),
    }
}

/// Answers with a signature.
pub fn send_signature(signature: Vec<u8>, ack: Par) -> (r: Step)
    ensures
        r@ == return_on(seq![bytes_par(signature@)], ack@),
{
    send(one(RhoByteArray::create_par(signature)), ack)
}

impl SystemProcesses {
    /// Takes an assertion of a test, or the word that a suite has finished.
    pub fn handle_message(&self, message: ContractArgs) -> (r: Step)
        ensures
            r@ == handle_message_step(call_view(message)),
    {
        let call = match ContractCall::unapply(message) {
            Some(call) => call,
            None => return refuse("handle_message"),
        };
        let assert_par: Vec<Par> = copy_pars(&call.args);
        let (test_name, attempt, assertion, clue, ack) = match IsAssert::unapply(assert_par) {
            Some(t) => t,
            None => return match IsSetFinished::unapply(call.args) {
                Some(_) => finish(none()),
                None => refuse("handle_message"),
            },
        };
        let text: String = clue_msg(&clue, attempt);
        match IsComparison::unapply(assertion.clone()) {
            Some((expected, operator, actual)) => {
                if is_text(&operator, "==") {
                    let test = RhoTestAssertion::RhoAssertEquals {
                        test_name,
                        expected: expected.clone(),
                        actual: actual.clone(),
                        clue,
                    };
                    compare(&test, expected, actual, true, text, ack)
                } else if is_text(&operator, "!=") {
                    let test = RhoTestAssertion::RhoAssertNotEquals {
                        test_name,
                        unexpected: expected.clone(),
                        actual: actual.clone(),
                        clue,
                    };
                    compare(&test, expected, actual, false, text, ack)
                } else {
                    refuse("handle_message")
                }
            },
            None => match RhoBoolean::unapply(&assertion) {
                Some(condition) => Step::Perform(
                    Action::Produce {
                        data: one(RhoBoolean::create_par(condition)),
                        channel: ack,
                    },
                    Pending::Asserting {
                        condition,
                        message: text,
                        output: one(RhoBoolean::create_par(condition)),
                    },
                ),
                None => Step::Perform(
                    Action::Produce { data: one(RhoBoolean::create_par(false)), channel: ack },
                    Pending::Unreadable { assertion },
                ),
            },
        }
    }

    /// Logs a process at a level.
    pub fn std_log(&self, message: ContractArgs) -> (r: Step)
        ensures
            r@ == std_log_step(call_view(message)),
    {
        let call = match ContractCall::exactly(message, 2) {
            Some(call) => call,
            None => return refuse("std_log"),
        };
        let log_level: String = match RhoString::unapply(&call.args[0]) {
            Some(s) => s,
            None => return refuse("std_log"),
        };
        let level = if is_text(&log_level, "trace") {
            LogLevel::Trace
        } else if is_text(&log_level, "debug") {
            LogLevel::Debug
        } else if is_text(&log_level, "info") {
            LogLevel::Info
        } else if is_text(&log_level, "warn") {
            LogLevel::Warn
        } else if is_text(&log_level, "error") {
            LogLevel::Error
        } else {
            return refuse("std_log");
        };
        Step::Perform(Action::Log { level, message: call.args[1].clone() }, Pending::Printed)
    }

    /// Makes the identity of a deployer from their key.
    pub fn deployer_id_make(&self, message: ContractArgs) -> (r: Step)
        ensures
            r@ == deployer_id_make_step(call_view(message)),
    {
        let call = match ContractCall::exactly(message, 3) {
            Some(call) => call,
            None => return refuse("deployer_id_make"),
        };
        match (RhoString::unapply(&call.args[0]), RhoByteArray::unapply(&call.args[1])) {
            (Some(word), Some(key)) => {
                if is_text(&word, "deployerId") {
                    send(one(RhoDeployerId::create_par(key)), call.args[2].clone())
                } else {
                    refuse("deployer_id_make")
                }
            },
            _ => refuse("deployer_id_make"),
        }
    }

    /// Signs a hash with a private key of thirty-two bytes.
    pub fn secp256k1_sign(&self, message: ContractArgs) -> (r: Step)
        requires
            sign_step(call_view(message)) is Some,
        ensures
            sign_step(call_view(message)) == Some(r@),
    {
        let call = match ContractCall::exactly(message, 3) {
            Some(call) => call,
            None => return refuse("secp256k1_sign"),
        };
        let hash: Vec<u8> = match RhoByteArray::unapply(&call.args[0]) {
            Some(b) => b,
            None => return refuse("secp256k1_sign"),
        };
        let secret_key: Vec<u8> = match RhoByteArray::unapply(&call.args[1]) {
            Some(b) => b,
            None => return refuse("secp256k1_sign"),
        };
        if secret_key.len() != 32 {
            let digits: String = u64_text(secret_key.len() as u64);
            let text: String = join(
                "Invalid private key length: must be 32 bytes, got ",
                digits.as_str(),
            );
            return Step::Finished(Err(InterpreterError::BugFoundError(text)));
        }
        let signature: Vec<u8> = sign_secp256k1(&secret_key, &hash).unwrap();
        send_signature(signature, call.args[2].clone())
    }

    /// Signs a hash with a private key, or tells why there is no signature.
    pub fn try_secp256k1_sign(&self, message: ContractArgs) -> (r: Result<Step, SigningFault>)
        ensures
            match r {
                Ok(step) => sign_step(call_view(message)) == Some(step@),
                Err(fault) => sign_step(call_view(message)) is None && fault == signing_fault(
                    call_view(message),
                ),
            },
    {
        if message.0.len() == 1 && message.0[0].pars.len() == 3 {
            let ghost a = pars_view(message.0@[0].pars@);
            proof {
                lemma_pars(message.0@[0].pars@);
                assert(call_view(message).messages[0] == message.0@[0]@);
                assert(call_view(message).exactly(3) == Some(a));
                assert(a[0] == message.0@[0].pars@[0]@ && a[1] == message.0@[0].pars@[1]@);
            }
            match (
                RhoByteArray::unapply(&message.0[0].pars[0]),
                RhoByteArray::unapply(&message.0[0].pars[1]),
            ) {
                (Some(hash), Some(secret_key)) => {
                    if secret_key.len() == 32 {
                        match sign_secp256k1(&secret_key, &hash) {
                            Some(_) => {},
                            None => return if check_secp256k1_key(&secret_key) {
                                Err(SigningFault::NotSigned)
                            } else {
                                Err(SigningFault::InvalidKey)
                            },
                        }
                    }
                },
                _ => {},
            }
        } else {
            proof {
                if message.0@.len() == 1 {
                    lemma_pars(message.0@[0].pars@);
                    assert(call_view(message).messages[0] == message.0@[0]@);
                }
            }
        }
        Ok(self.secp256k1_sign(message))
    }

    /// Makes the system's authentication token.
    pub fn sys_auth_token_make(&self, message: ContractArgs) -> (r: Step)
        ensures
            r@ == sys_auth_token_make_step(call_view(message)),
    {
        match ContractCall::exactly(message, 1) {
            Some(call) => {
                send(one(RhoSysAuthToken::create_par()), call.args[0].clone())
            },
            None => refuse("sys_auth_token_make"),
        }
    }

    /// Sets the sender or the number of the block that a contract runs in.
    pub fn block_data_set(&mut self, message: ContractArgs) -> (r: Step)
        ensures
            r@ == block_data_set_step(call_view(message)),
            final(self).block_data@ == block_data_after(call_view(message), old(self).block_data@),
            final(self).deploy_data == old(self).deploy_data,
            final(self).urn_map == old(self).urn_map,
            final(self).urn_to_channel == old(self).urn_to_channel,
    {
        proof {
            reveal_strlit("sender");
            reveal_strlit("blockNumber");
            assert("sender"@.len() != "blockNumber"@.len());
        }
        let call = match ContractCall::exactly(message, 3) {
            Some(call) => call,
            None => return refuse("block_data_set"),
        };
        let key: String = match RhoString::unapply(&call.args[0]) {
            Some(s) => s,
            None => return refuse("block_data_set"),
        };
        if is_text(&key, "sender") {
            match RhoByteArray::unapply(&call.args[1]) {
                Some(bytes) => {
                    self.block_data.sender = PublicKey { bytes };
                },
                None => return refuse("block_data_set"),
            }
        } else if is_text(&key, "blockNumber") {
            match RhoNumber::unapply(&call.args[1]) {
                Some(block_number) => {
                    self.block_data.block_number = block_number;
                },
                None => return refuse("block_data_set"),
            }
        } else {
            return refuse("block_data_set");
        }
        send(one(Par::default()), call.args[2].clone())
    }

    /// Sets the blocks found invalid.
    pub fn casper_invalid_blocks_set(
        &self,
        message: ContractArgs,
        invalid_blocks: &mut InvalidBlocks,
    ) -> (r: Step)
        ensures
            r@ == casper_invalid_blocks_set_step(call_view(message)),
            final(invalid_blocks).invalid_blocks@ == invalid_blocks_after(
                call_view(message),
                old(invalid_blocks).invalid_blocks@,
            ),
    {
        match ContractCall::exactly(message, 2) {
            Some(call) => {
                invalid_blocks.set_params(call.args[0].clone());
                send(one(Par::default()), call.args[1].clone())
            },
            None => refuse("casper_invalid_blocks_set"),
        }
    }
}

} // verus!
