//! How a system process is called, and the steps that calls share.
use vstd::prelude::*;

use crate::errors::{illegal_argument, illegal_argument_error, InterpreterError};
use crate::exchange::{messages_view, Action, ActionView, ListParWithRandom, MessageView};
use crate::exchange::{Pending, PendingView, Step, StepView};
use crate::par::{copy_pars, pars_view, Par, ParView};

verus! {

/// What a system process is called with: the messages that it was sent, whether
/// the call is a replay, and if so, what the call that is replayed came to.
pub type ContractArgs = (Vec<ListParWithRandom>, bool, Vec<Par>);

#[verifier::ext_equal]
pub struct CallView {
    pub messages: Seq<MessageView>,
    pub is_replay: bool,
    pub previous_output: Seq<ParView>,
}

pub open spec fn call_view(args: ContractArgs) -> CallView {
    CallView {
        messages: messages_view(args.0@),
        is_replay: args.1,
        previous_output: pars_view(args.2@),
    }
}

impl CallView {
    /// A call's arguments, if it is one: a single message was sent.
    pub open spec fn args(self) -> Option<Seq<ParView>> {
        if self.messages.len() == 1 {
            Some(self.messages[0].pars)
        } else {
            None
        }
    }

    /// A call's arguments, if there are so many.
    pub open spec fn exactly(self, n: nat) -> Option<Seq<ParView>> {
        match self.args() {
            Some(a) => if a.len() == n {
                Some(a)
            } else {
                None
            },
            None => None,
        }
    }
}

/// A call of a system process, unpacked.
pub struct ContractCall {
    pub is_replay: bool,
    pub previous_output: Vec<Par>,
    pub args: Vec<Par>,
}

impl ContractCall {
    /// The arguments and their models are the same, one for one.
    pub open spec fn mirrored(&self) -> bool {
        &&& pars_view(self.args@).len() == self.args@.len()
        &&& forall|i: int|
            0 <= i < self.args@.len() ==> #[trigger] pars_view(self.args@)[i] == self.args@[i]@
    }

    /// Unpacks a call, if it is one: a single message was sent.
    pub fn unapply(contract_args: ContractArgs) -> (r: Option<ContractCall>)
        ensures
            match r {
                Some(call) => call_view(contract_args).args() == Some(pars_view(call.args@))
                    && call.mirrored() && call.is_replay == contract_args.1 && pars_view(
                    call.previous_output@,
                ) == pars_view(contract_args.2@),
                None => call_view(contract_args).args() is None,
            },
    {
        let (mut messages, is_replay, previous_output) = contract_args;
        if messages.len() != 1 {
            return None;
        }
        assert(messages_view(messages@)[0] == messages@[0]@);
        match messages.pop() {
            Some(message) => {
                let call = ContractCall { is_replay, previous_output, args: message.pars };
                proof {
                    lemma_pars(call.args@);
                }
                Some(call)
            },
            None => None,
        }
    }

    /// Unpacks a call, if it has so many arguments.
    pub(crate) fn exactly(contract_args: ContractArgs, n: usize) -> (r: Option<ContractCall>)
        ensures
            match r {
                Some(call) => call_view(contract_args).exactly(n as nat) == Some(
                    pars_view(call.args@),
                ) && call.args@.len() == n && call.mirrored() && call.is_replay == contract_args.1
                    && pars_view(call.previous_output@) == pars_view(contract_args.2@),
                None => call_view(contract_args).exactly(n as nat) is None,
            },
    {
        match ContractCall::unapply(contract_args) {
            Some(call) => {
                if call.args.len() == n {
                    Some(call)
                } else {
                    None
                }
            },
            None => None,
        }
    }
}

/// Processes and their models, one for one.
pub proof fn lemma_pars(ps: Seq<Par>)
    ensures
        pars_view(ps).len() == ps.len(),
        forall|i: int| 0 <= i < ps.len() ==> #[trigger] pars_view(ps)[i] == ps[i]@,
{
}

// ---------------------------------------------------------------------------
// Steps
// ---------------------------------------------------------------------------
/// The call is refused.
pub open spec fn refused(name: Seq<char>) -> StepView {
    StepView::Finished(Err(illegal_argument(name)))
}

pub open spec fn finished(output: Seq<ParView>) -> StepView {
    StepView::Finished(Ok(output))
}

/// An output is sent, and returned.
pub open spec fn return_on(output: Seq<ParView>, ack: ParView) -> StepView {
    StepView::Perform(
        ActionView::Produce { data: output, channel: ack },
        PendingView::Returning { output },
    )
}

/// A response is sent, and what comes of that is returned.
pub open spec fn pass_on(response: ParView, ack: ParView) -> StepView {
    StepView::Perform(
        ActionView::Produce { data: seq![response], channel: ack },
        PendingView::Passing,
    )
}

/// An output is sent, and returned; if it cannot be sent, the error keeps it.
pub open spec fn keep_on(output: Seq<ParView>, ack: ParView) -> StepView {
    StepView::Perform(
        ActionView::Produce { data: output, channel: ack },
        PendingView::Keeping { output },
    )
}

/// A list of one process.
pub(crate) fn one(p: Par) -> (r: Vec<Par>)
    ensures
        pars_view(r@) == seq![p@],
{
    let mut r: Vec<Par> = Vec::new();
    r.push(p);
    proof {
        lemma_pars(r@);
        assert(pars_view(r@) =~= seq![p@]);
    }
    r
}

/// A list of no process.
pub(crate) fn none() -> (r: Vec<Par>)
    ensures
        pars_view(r@) == Seq::<ParView>::empty(),
{
    let r: Vec<Par> = Vec::new();
    assert(pars_view(r@) =~= Seq::<ParView>::empty());
    r
}

pub(crate) fn refuse(name: &str) -> (r: Step)
    ensures
        r@ == refused(name@),
{
    Step::Finished(Err(illegal_argument_error(name)))
}

pub(crate) fn finish(output: Vec<Par>) -> (r: Step)
    ensures
        r@ == finished(pars_view(output@)),
{
    Step::Finished(Ok(output))
}

pub(crate) fn fail(e: InterpreterError) -> (r: Step)
    ensures
        r@ == StepView::Finished(Err(e@)),
{
    Step::Finished(Err(e))
}

pub(crate) fn send(output: Vec<Par>, ack: Par) -> (r: Step)
    ensures
        r@ == return_on(pars_view(output@), ack@),
{
    let data: Vec<Par> = copy_pars(&output);
    Step::Perform(Action::Produce { data, channel: ack }, Pending::Returning { output })
}

pub(crate) fn respond(response: Par, ack: Par) -> (r: Step)
    ensures
        r@ == pass_on(response@, ack@),
{
    Step::Perform(Action::Produce { data: one(response), channel: ack }, Pending::Passing)
}

pub(crate) fn send_kept(output: Vec<Par>, ack: Par) -> (r: Step)
    ensures
        r@ == keep_on(pars_view(output@), ack@),
{
    let data: Vec<Par> = copy_pars(&output);
    Step::Perform(Action::Produce { data, channel: ack }, Pending::Keeping { output })
}

} // verus!
