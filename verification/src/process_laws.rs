//! What holds of the system processes as a whole.
use vstd::prelude::*;

use crate::contract_call::{finished, keep_on, return_on, CallView};
use crate::definitions::{ContextView, Handler};
use crate::errors::{service_failure, unsent, ErrorView};
use crate::exchange::{answers, ActionView, Awaited, ForwardingView, MessageView};
use crate::exchange::{PendingView, ReplyView, StepView};
use crate::par::ParView;
use crate::resume::{emission_failure, next, service_output};
use crate::rho_type::bool_par;
use crate::service_processes::{forward_step, forwardings, frame_forwardings};
use crate::service_processes::unknown_channel_note;
use crate::swi_prolog_service::{framed_next, told, CollectorView, FrameView, FramedView};
use crate::swi_prolog_service::{LineView, RunEvent};

verus! {

/// Where a process gets to when its host answers, one answer after the other.
pub open spec fn run(
    urns: Map<Seq<char>, ParView>,
    s: StepView,
    replies: Seq<ReplyView>,
) -> StepView
    decreases replies.len(),
{
    match s {
        StepView::Perform(_, p) => if replies.len() == 0 {
            s
        } else {
            run(urns, next(urns, p, replies[0]), replies.drop_first())
        },
        _ => s,
    }
}

// ---------------------------------------------------------------------------
// Steps
// ---------------------------------------------------------------------------
/// Whether an action is what a process waits for. Where it waits for something
/// to be sent, so that it can return it, it is that which is sent.
pub open spec fn coherent(s: StepView) -> bool {
    match s {
        StepView::Perform(a, p) => match p {
            PendingView::Printed => a is Print || a is Log,
            PendingView::PrintedThenAck { .. } => a is Print,
            PendingView::Aborting => a is LogAbort,
            PendingView::Hashed { .. } | PendingView::UriHashed { .. } => a is Hash,
            PendingView::Verified { .. } => a is Verify,
            PendingView::UriBuilt { .. } => a is BuildUri,
            PendingView::TextOrNil { .. } => a is ParseAddress || a is AddressOfKey || a
                is AddressOfDeployer || a is AddressOfName || a is BestVersion,
            PendingView::UrnParsed { .. } => a is ParseUrn,
            PendingView::LookupParsed { urn, .. } => a == ActionView::ParseUrn(urn),
            PendingView::VersionRead { pattern, version, .. } => a == (ActionView::ReadVersions {
                pattern,
                versions: seq![version],
            }),
            PendingView::VersionMatched { .. } => a is MatchVersion,
            PendingView::VersionsRead { pattern, candidates, .. } => a
                == (ActionView::ReadVersions { pattern, versions: candidates }),
            PendingView::Serviced { awaited, .. } => match awaited {
                Awaited::Text => a is Gpt4 || a is Dalle3 || a is OllamaChat || a
                    is OllamaGenerate,
                Awaited::Bytes => a is Speak,
                Awaited::Texts => a is OllamaModels,
            },
            PendingView::Told { host, port } => a matches ActionView::Tell {
                host: h,
                port: p,
                ..
            } && h == host && p == port,
            PendingView::Noted { .. } | PendingView::Skipping { .. } => a is Note,
            PendingView::Stored { readable, .. } => match a {
                ActionView::CreateCollection { metadata, .. } => readable == (metadata is None),
                ActionView::UpsertEntries { .. } => !readable,
                ActionView::DeleteDocuments { .. } => readable,
                _ => false,
            },
            PendingView::MetaFetched { .. } => a is CollectionMeta,
            PendingView::QueryFetched { .. } => a is QueryCollection,
            PendingView::PettaRan { .. } => a is RunPetta,
            PendingView::Emitting { .. } => a is Emit,
            PendingView::Returning { output } => a matches ActionView::Produce { data, .. } && (
            output == data || output.len() == 0),
            PendingView::Passing => a is Produce,
            PendingView::Keeping { output } => a matches ActionView::Produce { data, .. } && output
                == data,
            PendingView::Asserting { condition, output, .. } => a matches ActionView::Produce {
                data,
                ..
            } && output == data && data == seq![bool_par(condition)],
            PendingView::Comparing { expected, actual, wanted, output, .. } => a
                matches ActionView::Produce { data, .. } && output == data && data == seq![
                bool_par((actual == expected) == wanted),
            ],
            PendingView::Compared { .. } => a is Render,
            PendingView::Unreadable { .. } => a matches ActionView::Produce { data, .. } && data
                == seq![bool_par(false)],
            PendingView::Described => a is Describe,
        },
        _ => true,
    }
}

/// Every process asks for what it waits for, when it is called and whenever it
/// goes on. So an output that is returned is one that was sent, or is empty.
pub proof fn law_steps_are_coherent(
    h: Handler,
    context: ContextView,
    call: CallView,
    id: Seq<char>,
    urns: Map<Seq<char>, ParView>,
    p: PendingView,
    r: ReplyView,
)
    ensures
        h.step(context, call, id) matches Some(s) ==> coherent(s),
        answers(p, r) ==> coherent(next(urns, p, r)),
{
}

/// How far a process is from its end: the stage that it is in, and how much is
/// left to do in it.
pub open spec fn stage(p: PendingView) -> nat {
    match p {
        PendingView::VersionsRead { .. } | PendingView::VersionRead { .. }
        | PendingView::UriHashed { .. } | PendingView::PettaRan { .. } => 4,
        PendingView::Emitting { .. } | PendingView::Skipping { .. } => 3,
        PendingView::UriBuilt { .. } | PendingView::TextOrNil { .. } | PendingView::VersionMatched {
            ..
        } => 3,
        PendingView::Comparing { .. } | PendingView::Unreadable { .. } => 1,
        PendingView::Printed | PendingView::Aborting | PendingView::Noted { .. }
        | PendingView::Passing | PendingView::Returning { .. } | PendingView::Keeping { .. } | PendingView::Asserting {
            ..
        } | PendingView::Compared { .. } | PendingView::Described => 0,
        _ => 2,
    }
}

pub open spec fn left(p: PendingView) -> nat {
    match p {
        PendingView::Emitting { rest, .. } => rest.len(),
        PendingView::Skipping { rest, .. } => rest.len(),
        _ => 0,
    }
}

/// With every answer a process comes closer to its end, so that every process
/// ends.
pub proof fn law_every_answer_is_progress(
    urns: Map<Seq<char>, ParView>,
    p: PendingView,
    r: ReplyView,
)
    requires
        answers(p, r),
    ensures
        next(urns, p, r) matches StepView::Perform(_, q) ==> stage(q) < stage(p) || (stage(q)
            == stage(p) && left(q) < left(p)),
{
}

/// A call that is refused leaves everything as it was.
pub proof fn law_refused_call_changes_nothing(
    h: Handler,
    context: ContextView,
    call: CallView,
    id: Seq<char>,
)
    requires
        h.step(context, call, id) matches Some(StepView::Finished(Err(_))),
    ensures
        h.context_after(context, call) == context,
{
}

/// Only one message makes a call: without it every process fails at once.
pub proof fn law_one_message_makes_a_call(
    h: Handler,
    context: ContextView,
    call: CallView,
    id: Seq<char>,
)
    requires
        call.messages.len() != 1,
    ensures
        h.step(context, call, id) matches Some(StepView::Finished(Err(_))),
{
}

/// An abort ends in the same error whatever it is called with, and sends
/// nothing.
pub proof fn law_abort_always_aborts(
    urns: Map<Seq<char>, ParView>,
    context: ContextView,
    call: CallView,
    id: Seq<char>,
)
    ensures
        ({
            let s = Handler::Abort.step(context, call, id)->0;
            &&& !(s matches StepView::Perform(ActionView::Produce { .. }, _))
            &&& run(urns, s, seq![ReplyView::Done]) == StepView::Finished(
                Err(ErrorView::UserAbortError),
            )
        }),
{
    lemma_run_one(urns, Handler::Abort.step(context, call, id)->0, ReplyView::Done);
}

// ---------------------------------------------------------------------------
// Services and replay
// ---------------------------------------------------------------------------
/// The processes whose outcome is not a function of what they are called with.
pub open spec fn is_recorded(h: Handler) -> bool {
    match h {
        Handler::Gpt4 | Handler::Dalle3 | Handler::TextToAudio | Handler::OllamaChat
        | Handler::OllamaGenerate | Handler::OllamaModels | Handler::GrpcTell
        | Handler::ChromaQuery | Handler::PettaExecute => true,
        _ => false,
    }
}

/// The same call, when it is replayed.
pub open spec fn replay(call: CallView, output: Seq<ParView>) -> CallView {
    CallView { is_replay: true, previous_output: output, ..call }
}

/// A replay never asks for anything but to send what was recorded. Where there is
/// no channel to send it on, it is noted and what was recorded is returned.
pub proof fn law_replay_only_repeats_the_record(
    h: Handler,
    context: ContextView,
    call: CallView,
    id: Seq<char>,
)
    requires
        is_recorded(h) || h == Handler::ChromaGetCollectionMeta,
        call.is_replay,
    ensures
        match h.step(context, call, id)->0 {
            StepView::Perform(ActionView::Produce { data, .. }, p) => data == call.previous_output
                && (p == (PendingView::Returning { output: call.previous_output }) || p == (
            PendingView::Keeping { output: call.previous_output })),
            StepView::Perform(a, p) => h == Handler::GrpcTell && a is Note && p == (
            PendingView::Noted { outcome: Ok(call.previous_output) }),
            StepView::Finished(Err(e)) => e is IllegalArgumentError,
            _ => false,
        },
{
}

/// A service is asked; its answer is sent and returned; a replay with what was
/// returned sends the same on the same channel and returns the same, without
/// asking.
pub proof fn law_replay_repeats_what_a_service_answered(
    h: Handler,
    urns: Map<Seq<char>, ParView>,
    context: ContextView,
    call: CallView,
    id: Seq<char>,
    other_id: Seq<char>,
    answer: ReplyView,
    sent: Seq<ParView>,
)
    requires
        is_recorded(h) || h == Handler::ChromaGetCollectionMeta,
        h != Handler::GrpcTell,
        h != Handler::PettaExecute,
        !call.is_replay,
        h.step(context, call, id)->0 matches StepView::Perform(_, p) && answers(p, answer),
        !(answer is Failed),
    ensures
        ({
            let s = h.step(context, call, id)->0;
            let after = next(urns, s->Perform_1, answer);
            &&& after matches StepView::Perform(ActionView::Produce { data, channel }, _)
            &&& run(urns, after, seq![ReplyView::Produced(sent)]) == finished(data)
            &&& h.step(context, replay(call, data), other_id) == Some(return_on(data, channel))
            &&& run(urns, return_on(data, channel), seq![ReplyView::Produced(sent)]) == finished(
                data,
            )
        }),
{
    let s = h.step(context, call, id)->0;
    let after = next(urns, s->Perform_1, answer);
    let data = after->Perform_0->Produce_data;
    let channel = after->Perform_0->Produce_channel;
    assert(call.exactly(1) == replay(call, data).exactly(1));
    assert(call.exactly(2) == replay(call, data).exactly(2));
    assert(call.exactly(3) == replay(call, data).exactly(3));
    lemma_run_one(urns, after, ReplyView::Produced(sent));
    lemma_run_one(urns, return_on(data, channel), ReplyView::Produced(sent));
}

/// One answer takes a process that waits one step further.
pub proof fn lemma_run_one(urns: Map<Seq<char>, ParView>, s: StepView, r: ReplyView)
    ensures
        run(urns, s, seq![r]) == match s {
            StepView::Perform(_, p) => next(urns, p, r),
            _ => s,
        },
{
    match s {
        StepView::Perform(_, p) => {
            let t = next(urns, p, r);
            assert(seq![r].drop_first() =~= Seq::<ReplyView>::empty());
            assert(run(urns, t, Seq::empty()) == t);
        },
        _ => {},
    }
}

/// A service that fails leads to an error that marks it. Nothing is sent; at most
/// the failure is noted.
pub proof fn law_service_failure_sends_nothing(
    urns: Map<Seq<char>, ParView>,
    p: PendingView,
    r: ReplyView,
)
    requires
        p is Serviced || p is PettaRan || p is Told,
        answers(p, r),
        r is Failed || r is Fault,
    ensures
        ({
            let cause = match r {
                ReplyView::Failed(e) => e,
                _ => ErrorView::BugFoundError("gRPC client error: "@ + r->Fault_0),
            };
            &&& next(urns, p, r) matches StepView::Perform(a, _) ==> a is Note
            &&& run(urns, next(urns, p, r), seq![ReplyView::Done]) == StepView::Finished(
                Err(service_failure(cause)),
            )
        }),
{
    lemma_run_one(urns, next(urns, p, r), ReplyView::Done);
}

/// What a service answered is not lost when it cannot be sent: the error keeps
/// it.
pub proof fn law_unsent_answer_is_kept(
    urns: Map<Seq<char>, ParView>,
    p: PendingView,
    answer: ReplyView,
    e: ErrorView,
)
    requires
        p is Serviced,
        answers(p, answer),
        !(answer is Failed),
    ensures
        run(urns, next(urns, p, answer), seq![ReplyView::Failed(e)]) == StepView::Finished(
            Err(unsent(e, seq![service_output(answer)])),
        ),
{
    lemma_run_one(urns, next(urns, p, answer), ReplyView::Failed(e));
}

/// A process that calls on a service fails only where nothing was sent on its
/// channel: what has been sent is returned.
pub proof fn law_a_failure_means_that_nothing_was_sent(
    urns: Map<Seq<char>, ParView>,
    p: PendingView,
    r: ReplyView,
)
    requires
        answers(p, r),
        p is Serviced || p is Told || p is PettaRan || p is Emitting || p is Skipping || p
            is Keeping || p is Returning,
        next(urns, p, r) matches StepView::Finished(Err(_)) || next(
            urns,
            p,
            r,
        ) matches StepView::Perform(_, PendingView::Noted { outcome: Err(_) }),
    ensures
        r is Failed || r is Fault,
{
}

// ---------------------------------------------------------------------------
// MeTTa programs
// ---------------------------------------------------------------------------
/// The frames among lines, in their order.
pub open spec fn frames_among(lines: Seq<LineView>) -> Seq<FrameView>
    decreases lines.len(),
{
    if lines.len() == 0 {
        Seq::empty()
    } else {
        match lines.last() {
            LineView::Frame(f) => frames_among(lines.drop_last()).push(f),
            LineView::Result(_) => frames_among(lines.drop_last()),
        }
    }
}

/// The result among lines: the last, if there are several.
pub open spec fn result_among(lines: Seq<LineView>) -> Option<ParView>
    decreases lines.len(),
{
    if lines.len() == 0 {
        None
    } else {
        match lines.last() {
            LineView::Frame(_) => result_among(lines.drop_last()),
            LineView::Result(p) => Some(p),
        }
    }
}

/// Output is separated into its frames, none of them lost and in their order,
/// and its result.
pub proof fn law_output_is_separated(lines: Seq<LineView>)
    ensures
        CollectorView::nothing().take_all(lines) == (CollectorView {
            frames: frames_among(lines),
            result: result_among(lines),
        }),
    decreases lines.len(),
{
    if lines.len() > 0 {
        law_output_is_separated(lines.drop_last());
    }
}

/// A run after lines, one after the other, from its start.
pub open spec fn after_lines(lines: Seq<String>) -> FramedView
    decreases lines.len(),
{
    if lines.len() == 0 {
        FramedView::Reading(CollectorView::nothing())
    } else {
        match after_lines(lines.drop_last()) {
            FramedView::Reading(c) => framed_next(
                FramedView::Reading(c),
                RunEvent::Line(lines.last()),
            ),
            over => over,
        }
    }
}

/// What lines tell, those of white space left out.
pub open spec fn all_told(lines: Seq<String>) -> Seq<LineView>
    decreases lines.len(),
{
    if lines.len() == 0 {
        Seq::empty()
    } else {
        match told(lines.last()@) {
            Some(Ok(l)) => all_told(lines.drop_last()).push(l),
            _ => all_told(lines.drop_last()),
        }
    }
}

/// Whether each line can be read.
pub open spec fn readable(lines: Seq<String>) -> bool {
    forall|i: int| 0 <= i < lines.len() ==> !(told((#[trigger] lines[i])@) matches Some(Err(_)))
}

proof fn lemma_after_lines(lines: Seq<String>)
    ensures
        readable(lines) ==> after_lines(lines) == FramedView::Reading(
            CollectorView::nothing().take_all(all_told(lines)),
        ),
        !readable(lines) ==> after_lines(lines) matches FramedView::Ended(Err(_)),
    decreases lines.len(),
{
    if lines.len() > 0 {
        let before = lines.drop_last();
        lemma_after_lines(before);
        if readable(lines) {
            assert forall|i: int| 0 <= i < before.len() implies !(told(
                (#[trigger] before[i])@,
            ) matches Some(Err(_))) by {
                assert(before[i] == lines[i]);
            }
            assert(!(told(lines[lines.len() - 1]@) matches Some(Err(_))));
            match told(lines.last()@) {
                Some(Ok(l)) => {
                    let ts = all_told(before).push(l);
                    assert(ts.drop_last() =~= all_told(before));
                    assert(ts.last() == l);
                },
                _ => {},
            }
        } else if readable(before) {
            let i = choose|i: int|
                0 <= i < lines.len() && (told((#[trigger] lines[i])@) matches Some(Err(_)));
            if i < before.len() {
                assert(before[i] == lines[i]);
            }
        }
    }
}

/// A run of a program yields all its frames in their order and its last result,
/// exactly if every line can be read, there is a result, and the interpreter
/// exits well. Otherwise it is an error.
pub proof fn law_outcome_of_a_run(lines: Seq<String>, success: bool, stderr: String)
    ensures
        readable(lines) && result_among(all_told(lines)) is Some && success ==> framed_next(
            framed_next(after_lines(lines), RunEvent::EndOfOutput),
            RunEvent::Exited { success, stderr },
        ) == FramedView::Ended(
            Ok((frames_among(all_told(lines)), result_among(all_told(lines))->0)),
        ),
        !readable(lines) ==> after_lines(lines) matches FramedView::Ended(Err(_)),
        readable(lines) && result_among(all_told(lines)) is None ==> framed_next(
            after_lines(lines),
            RunEvent::EndOfOutput,
        ) matches FramedView::Ended(Err(_)),
        readable(lines) && result_among(all_told(lines)) is Some && !success ==> framed_next(
            framed_next(after_lines(lines), RunEvent::EndOfOutput),
            RunEvent::Exited { success, stderr },
        ) matches FramedView::Ended(Err(_)),
{
    lemma_after_lines(lines);
    law_output_is_separated(all_told(lines));
}

/// The frames for channels that are known.
pub open spec fn known(fs: Seq<FrameView>, urns: Map<Seq<char>, ParView>) -> Seq<FrameView>
    decreases fs.len(),
{
    if fs.len() == 0 {
        Seq::empty()
    } else if urns.contains_key(fs.last().channel) {
        known(fs.drop_last(), urns).push(fs.last())
    } else {
        known(fs.drop_last(), urns)
    }
}

/// The things that are sent, in their order.
pub open spec fn sent_among(fs: Seq<ForwardingView>) -> Seq<ForwardingView>
    decreases fs.len(),
{
    if fs.len() == 0 {
        Seq::empty()
    } else if fs.last() is Emit {
        sent_among(fs.drop_last()).push(fs.last())
    } else {
        sent_among(fs.drop_last())
    }
}

proof fn lemma_sent_among_concat(a: Seq<ForwardingView>, b: Seq<ForwardingView>)
    ensures
        sent_among(a + b) == sent_among(a) + sent_among(b),
    decreases b.len(),
{
    if b.len() == 0 {
        assert(a + b =~= a);
        assert(sent_among(a) + sent_among(b) =~= sent_among(a));
    } else {
        assert((a + b).drop_last() =~= a + b.drop_last());
        assert((a + b).last() == b.last());
        lemma_sent_among_concat(a, b.drop_last());
        assert(sent_among(a + b) =~= sent_among(a) + sent_among(b));
    }
}

proof fn lemma_all_sent(b: Seq<ForwardingView>)
    requires
        forall|i: int| 0 <= i < b.len() ==> #[trigger] b[i] is Emit,
    ensures
        sent_among(b) == b,
    decreases b.len(),
{
    if b.len() > 0 {
        let before = b.drop_last();
        assert forall|i: int| 0 <= i < before.len() implies #[trigger] before[i] is Emit by {
            assert(before[i] == b[i]);
        }
        lemma_all_sent(before);
        assert(b[b.len() - 1] is Emit);
        assert(before.push(b.last()) =~= b);
    }
}

/// A frame for a channel that is not known is passed over, and what is sent of
/// the others is not affected.
pub proof fn law_unknown_channels_are_passed_over(
    fs: Seq<FrameView>,
    urns: Map<Seq<char>, ParView>,
)
    ensures
        sent_among(forwardings(fs, urns)) == forwardings(known(fs, urns), urns),
        forall|i: int|
            0 <= i < known(fs, urns).len() ==> urns.contains_key(
                (#[trigger] known(fs, urns)[i]).channel,
            ),
    decreases fs.len(),
{
    if fs.len() > 0 {
        let before = fs.drop_last();
        let last = frame_forwardings(fs.last(), urns);
        law_unknown_channels_are_passed_over(before, urns);
        lemma_sent_among_concat(forwardings(before, urns), last);
        if urns.contains_key(fs.last().channel) {
            let k = known(before, urns).push(fs.last());
            assert(k.drop_last() =~= known(before, urns));
            assert(k.last() == fs.last());
            lemma_all_sent(last);
        } else {
            assert(last.drop_last() =~= Seq::<ForwardingView>::empty());
            assert(last.last() is Skip);
            reveal_with_fuel(sent_among, 2);
            assert(sent_among(last) =~= Seq::<ForwardingView>::empty());
            assert(sent_among(forwardings(fs, urns)) =~= forwardings(known(before, urns), urns));
        }
    }
}

/// Everything that is sent goes where a frame's URN leads, and is an argument of
/// that frame. Whatever is passed over is a frame whose URN leads nowhere.
pub proof fn law_forwardings_come_from_frames(
    fs: Seq<FrameView>,
    urns: Map<Seq<char>, ParView>,
    i: int,
)
    requires
        0 <= i < forwardings(fs, urns).len(),
    ensures
        match forwardings(fs, urns)[i] {
            ForwardingView::Emit { urn, channel, argument } => urns.contains_key(urn) && urns[urn]
                == channel && exists|f: int, k: int|
                0 <= f < fs.len() && 0 <= k < fs[f].arguments.len() && fs[f].channel == urn
                    && #[trigger] fs[f].arguments[k] == argument,
            ForwardingView::Skip { urn } => !urns.contains_key(urn) && exists|f: int|
                0 <= f < fs.len() && #[trigger] fs[f].channel == urn,
        },
    decreases fs.len(),
{
    let before = fs.drop_last();
    let n = forwardings(before, urns).len();
    if i < n {
        law_forwardings_come_from_frames(before, urns, i);
        let e = forwardings(before, urns)[i];
        assert(forwardings(fs, urns)[i] == e);
        match e {
            ForwardingView::Emit { urn, argument, .. } => {
                let (f, k) = choose|f: int, k: int|
                    0 <= f < before.len() && 0 <= k < before[f].arguments.len()
                        && before[f].channel == urn && #[trigger] before[f].arguments[k]
                        == argument;
                assert(fs[f].arguments[k] == argument);
            },
            ForwardingView::Skip { urn } => {
                let f = choose|f: int| 0 <= f < before.len() && #[trigger] before[f].channel == urn;
                assert(fs[f].channel == urn);
            },
        }
    } else {
        let f = fs.last();
        let e = frame_forwardings(f, urns)[i - n];
        assert(forwardings(fs, urns)[i] == e);
        if urns.contains_key(f.channel) {
            assert(fs[fs.len() - 1].arguments[i - n] == e->argument);
        } else {
            assert(fs[fs.len() - 1].channel == f.channel);
        }
    }
}

pub open spec fn all_done(n: nat) -> Seq<ReplyView> {
    Seq::new(n, |i: int| ReplyView::Done)
}

/// What a program printed is dealt with thing by thing, in order: sent, or noted
/// as going nowhere. Only then its result is sent.
pub proof fn law_forwardings_go_out_in_order(
    urns: Map<Seq<char>, ParView>,
    fs: Seq<ForwardingView>,
    random_state: Seq<u8>,
    output: Seq<ParView>,
    ack: ParView,
    k: nat,
)
    requires
        k <= fs.len(),
    ensures
        ({
            let at = run(urns, forward_step(fs, random_state, output, ack), all_done(k));
            if k < fs.len() {
                at matches StepView::Perform(a, _) && a == match fs[k as int] {
                    ForwardingView::Emit { channel, argument, .. } => ActionView::Emit {
                        message: MessageView { pars: seq![argument], random_state },
                        channel,
                    },
                    ForwardingView::Skip { urn } => ActionView::Note(unknown_channel_note(urn)),
                }
            } else {
                at == keep_on(output, ack)
            }
        }),
    decreases k,
{
    let s = forward_step(fs, random_state, output, ack);
    if k > 0 {
        let rest = fs.drop_first();
        assert(all_done(k).drop_first() =~= all_done((k - 1) as nat));
        law_forwardings_go_out_in_order(urns, rest, random_state, output, ack, (k - 1) as nat);
        assert(next(urns, s->Perform_1, ReplyView::Done) == forward_step(
            rest,
            random_state,
            output,
            ack,
        ));
        if k < fs.len() {
            assert(fs[k as int] == rest[k - 1]);
        }
    }
}

/// When something that a program printed cannot be sent, the process fails there
/// and does not send the result.
pub proof fn law_failed_emission_ends_the_process(
    urns: Map<Seq<char>, ParView>,
    urn: Seq<char>,
    rest: Seq<ForwardingView>,
    random_state: Seq<u8>,
    output: Seq<ParView>,
    ack: ParView,
    text: Seq<char>,
)
    ensures
        next(
            urns,
            PendingView::Emitting { urn, rest, random_state, output, ack },
            ReplyView::Fault(text),
        ) == StepView::Finished(Err(emission_failure(urn, text))),
{
}

/// A MeTTa program is run, what it printed is sent, and its result is sent and
/// returned. A replay with what was returned sends the same on the same channel
/// and returns the same, and runs nothing.
pub proof fn law_replay_repeats_a_program(
    urns: Map<Seq<char>, ParView>,
    context: ContextView,
    call: CallView,
    id: Seq<char>,
    frames: Seq<FrameView>,
    result: ParView,
    sent: Seq<ParView>,
)
    requires
        !call.is_replay,
        Handler::PettaExecute.step(context, call, id)->0 is Perform,
    ensures
        ({
            let s = Handler::PettaExecute.step(context, call, id)->0;
            let ack = s->Perform_1->PettaRan_ack;
            let ran = next(urns, s->Perform_1, ReplyView::Petta { frames, result });
            let last = run(urns, ran, all_done(forwardings(frames, urns).len()));
            let sends = keep_on(seq![result], ack);
            &&& s->Perform_0 is RunPetta && s->Perform_1 is PettaRan
            &&& last == sends
            &&& Handler::PettaExecute.step(context, replay(call, seq![result]), id) == Some(sends)
            &&& run(urns, sends, seq![ReplyView::Produced(sent)]) == finished(seq![result])
        }),
{
    let s = Handler::PettaExecute.step(context, call, id)->0;
    let ack = s->Perform_1->PettaRan_ack;
    let es = forwardings(frames, urns);
    law_forwardings_go_out_in_order(
        urns,
        es,
        s->Perform_1->PettaRan_random_state,
        seq![result],
        ack,
        es.len(),
    );
    assert(call.exactly(2) == replay(call, seq![result]).exactly(2));
    lemma_run_one(urns, keep_on(seq![result], ack), ReplyView::Produced(sent));
}

} // verus!
