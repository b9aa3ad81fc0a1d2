//! The system processes: printing, and telling of the block and the deploy that
//! a contract runs in.
use std::sync::Arc;
use vstd::prelude::*;

use crate::contract_call::{call_view, finish, lemma_pars, none, one, refuse, send};
use crate::contract_call::{finished, refused, return_on, CallView, ContractArgs, ContractCall};
use crate::errors::{ErrorView, InterpreterError};
use crate::exchange::{Action, ActionView, Pending, PendingView, Step, StepView, Stream};
use crate::par::{copy_bytes, pars_view, Par, ParView};
use crate::rho_type::{bytes_par, deploy_id_par, deployer_id_par, number_par};
use crate::rho_type::{RhoByteArray, RhoDeployId, RhoDeployerId, RhoNumber};
use crate::state::{BlockData, BlockDataView, DeployData, DeployDataView, InvalidBlocks, UrnMap};

verus! {

/// What the system processes of a runtime share. There is one for all of them: what
/// one process sets, the others find, so that it is passed on by reference and
/// never copied.
pub struct SystemProcesses {
    pub block_data: BlockData,
    pub deploy_data: DeployData,
    /// What the URNs of the runtime are bound to.
    pub urn_map: Arc<UrnMap>,
    /// The channels that a MeTTa program may print on.
    pub urn_to_channel: Arc<UrnMap>,
}

// ---------------------------------------------------------------------------
// What each call does first
// ---------------------------------------------------------------------------
pub open spec fn print_step(call: CallView, name: Seq<char>, stream: Stream) -> StepView {
    match call.exactly(1) {
        Some(a) => StepView::Perform(
            ActionView::Print { stream, message: a[0] },
            PendingView::Printed,
        ),
        None => refused(name),
    }
}

pub open spec fn print_ack_step(call: CallView, name: Seq<char>, stream: Stream) -> StepView {
    match call.exactly(2) {
        Some(a) => StepView::Perform(
            ActionView::Print { stream, message: a[0] },
            PendingView::PrintedThenAck { ack: a[1] },
        ),
        None => refused(name),
    }
}

/// What is told of a block: its number, its time and its sender.
pub open spec fn block_data_output(data: BlockDataView) -> Seq<ParView> {
    seq![number_par(data.block_number), number_par(data.time_stamp), bytes_par(data.sender)]
}

pub open spec fn get_block_data_step(call: CallView, data: BlockDataView) -> StepView {
    match call.exactly(1) {
        Some(a) => return_on(block_data_output(data), a[0]),
        None => refused("get_block_data"@),
    }
}

/// What is told of a deploy: its time, its deployer and its identity.
pub open spec fn deploy_data_output(data: DeployDataView) -> Seq<ParView> {
    seq![number_par(data.timestamp), deployer_id_par(data.deployer_id), deploy_id_par(
        data.deploy_id,
    )]
}

pub open spec fn get_deploy_data_step(call: CallView, data: DeployDataView) -> StepView {
    match call.args() {
        None => refused("get_deploy_data: invalid contract call pattern"@),
        Some(a) => if a.len() == 1 {
            return_on(deploy_data_output(data), a[0])
        } else {
            refused("get_deploy_data expects exactly 1 argument (ack channel)"@)
        },
    }
}

pub open spec fn invalid_blocks_step(call: CallView, blocks: ParView) -> StepView {
    match call.exactly(1) {
        Some(a) => return_on(seq![blocks], a[0]),
        None => refused("invalid_blocks"@),
    }
}

pub open spec fn dev_null_step(call: CallView) -> StepView {
    match call.args() {
        Some(_) => finished(Seq::empty()),
        None => refused("dev_null"@),
    }
}

/// Whatever it is called with, an abort aborts; a reason is noted first.
pub open spec fn abort_step(call: CallView) -> StepView {
    match call.args() {
        Some(a) => if a.len() > 0 {
            StepView::Perform(ActionView::LogAbort(a[0]), PendingView::Aborting)
        } else {
            StepView::Finished(Err(ErrorView::UserAbortError))
        },
        None => StepView::Finished(Err(ErrorView::UserAbortError)),
    }
}

fn print(contract_args: ContractArgs, name: &str, stream: Stream) -> (r: Step)
    ensures
        r@ == print_step(call_view(contract_args), name@, stream),
{
    match ContractCall::exactly(contract_args, 1) {
        Some(call) => {
            Step::Perform(
                Action::Print { stream, message: call.args[0].clone() },
                Pending::Printed,
            )
        },
        None => refuse(name),
    }
}

fn print_ack(contract_args: ContractArgs, name: &str, stream: Stream) -> (r: Step)
    ensures
        r@ == print_ack_step(call_view(contract_args), name@, stream),
{
    match ContractCall::exactly(contract_args, 2) {
        Some(call) => {
            Step::Perform(
                Action::Print { stream, message: call.args[0].clone() },
                Pending::PrintedThenAck { ack: call.args[1].clone() },
            )
        },
        None => refuse(name),
    }
}

impl SystemProcesses {
    pub fn create(
        block_data: BlockData,
        deploy_data: DeployData,
        urn_map: Arc<UrnMap>,
        urn_to_channel: Arc<UrnMap>,
    ) -> (r: SystemProcesses)
        ensures
            r.block_data == block_data,
            r.deploy_data == deploy_data,
            r.urn_map == urn_map,
            r.urn_to_channel == urn_to_channel,
    {
        SystemProcesses { block_data, deploy_data, urn_map, urn_to_channel }
    }

    /// Prints a process.
    pub fn std_out(&self, contract_args: ContractArgs) -> (r: Step)
        ensures
            r@ == print_step(call_view(contract_args), "std_out"@, Stream::Output),
    {
        print(contract_args, "std_out", Stream::Output)
    }

    /// Prints a process, and acknowledges it with `Nil`.
    pub fn std_out_ack(&self, contract_args: ContractArgs) -> (r: Step)
        ensures
            r@ == print_ack_step(call_view(contract_args), "std_out_ack"@, Stream::Output),
    {
        print_ack(contract_args, "std_out_ack", Stream::Output)
    }

    /// Prints a process among the errors.
    pub fn std_err(&self, contract_args: ContractArgs) -> (r: Step)
        ensures
            r@ == print_step(call_view(contract_args), "std_err"@, Stream::Errors),
    {
        print(contract_args, "std_err", Stream::Errors)
    }

    /// Prints a process among the errors, and acknowledges it with `Nil`.
    pub fn std_err_ack(&self, contract_args: ContractArgs) -> (r: Step)
        ensures
            r@ == print_ack_step(call_view(contract_args), "std_err_ack"@, Stream::Errors),
    {
        print_ack(contract_args, "std_err_ack", Stream::Errors)
    }

    /// Tells of the block that a contract runs in.
    pub fn get_block_data(&self, contract_args: ContractArgs, block_data: &BlockData) -> (r: Step)
        ensures
            r@ == get_block_data_step(call_view(contract_args), block_data@),
    {
        match ContractCall::exactly(contract_args, 1) {
            Some(call) => {
                let mut output: Vec<Par> = Vec::new();
                output.push(RhoNumber::create_par(block_data.block_number));
                output.push(RhoNumber::create_par(block_data.time_stamp));
                output.push(RhoByteArray::create_par(copy_bytes(&block_data.sender.bytes)));
                proof {
                    lemma_pars(output@);
                    assert(pars_view(output@) =~= block_data_output(block_data@));
                }
                send(output, call.args[0].clone())
            },
            None => refuse("get_block_data"),
        }
    }

    /// Tells of the deploy that a contract runs in.
    pub fn get_deploy_data(&self, contract_args: ContractArgs, deploy_data: &DeployData) -> (r:
        Step)
        ensures
            r@ == get_deploy_data_step(call_view(contract_args), deploy_data@),
    {
        match ContractCall::unapply(contract_args) {
            Some(call) => {
                if call.args.len() != 1 {
                    return refuse("get_deploy_data expects exactly 1 argument (ack channel)");
                }
                let mut output: Vec<Par> = Vec::new();
                output.push(RhoNumber::create_par(deploy_data.timestamp));
                output.push(RhoDeployerId::create_par(copy_bytes(&deploy_data.deployer_id.bytes)));
                output.push(RhoDeployId::create_par(copy_bytes(&deploy_data.deploy_id)));
                proof {
                    lemma_pars(output@);
                    assert(pars_view(output@) =~= deploy_data_output(deploy_data@));
                }
                send(output, call.args[0].clone())
            },
            None => refuse("get_deploy_data: invalid contract call pattern"),
        }
    }

    /// Tells of the blocks found invalid.
    pub fn invalid_blocks(&self, contract_args: ContractArgs, invalid_blocks: &InvalidBlocks) -> (r:
        Step)
        ensures
            r@ == invalid_blocks_step(
                call_view(contract_args),
                invalid_blocks.invalid_blocks@,
            ),
    {
        match ContractCall::exactly(contract_args, 1) {
            Some(call) => {
                send(one(invalid_blocks.invalid_blocks.clone()), call.args[0].clone())
            },
            None => refuse("invalid_blocks"),
        }
    }

    /// Takes a message, and does nothing.
    pub fn dev_null(&self, contract_args: ContractArgs) -> (r: Step)
        ensures
            r@ == dev_null_step(call_view(contract_args)),
    {
        match ContractCall::unapply(contract_args) {
            Some(_) => finish(none()),
            None => refuse("dev_null"),
        }
    }

    /// Ends the execution of the contract that calls it.
    pub fn abort(&self, contract_args: ContractArgs) -> (r: Step)
        ensures
            r@ == abort_step(call_view(contract_args)),
    {
        match ContractCall::unapply(contract_args) {
            Some(call) => {
                if call.args.len() > 0 {
                    Step::Perform(Action::LogAbort(call.args[0].clone()), Pending::Aborting)
                } else {
                    Step::Finished(Err(InterpreterError::UserAbortError))
                }
            },
            None => Step::Finished(Err(InterpreterError::UserAbortError)),
        }
    }
}

} // verus!
