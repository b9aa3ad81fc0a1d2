//! How a system process goes on when its host has answered.
use vstd::prelude::*;

use crate::contract_call::{fail, finish, keep_on, none, one, pass_on, refuse, respond};
use crate::contract_call::{finished, lemma_pars, refused, return_on, send, send_kept};
use crate::errors::{not_sent, service_failed, service_failure, unsent, ErrorView};
use crate::errors::InterpreterError;
use crate::exchange::{answers, texts_view, Action, ActionView, Pending};
use crate::exchange::{About, AboutView, LogLevel, Note, NoteView};
use crate::exchange::{PendingView, Reply, ReplyView, Step, StepView};
use crate::fixed_channels::{byte_channel, FixedChannels};
use crate::par::{pars_view, Par, ParView};
use crate::registry_processes::{parsed_urn_to_tuple, string_or_nil, text_or_nil, urn_tuple};
use crate::rho_type::{bool_par, bytes_par, list_par, nil, string_par, uri_par};
use crate::rho_type::{RhoBoolean, RhoByteArray, RhoList, RhoString, RhoUri};
use crate::service_processes::{forward, forward_step, forwardings, note_step, noted};
use crate::system_processes::SystemProcesses;
use crate::text::{join, join3, nat_text, u64_text};

verus! {

/// What came of sending decides: it went well, or it failed.
pub open spec fn when_sent(r: ReplyView, then_step: StepView) -> StepView {
    match r {
        ReplyView::Failed(e) => StepView::Finished(Err(e)),
        _ => then_step,
    }
}

/// The candidates that are versions, in their order.
pub open spec fn versions_among(candidates: Seq<Seq<char>>, are: Seq<bool>) -> Seq<Seq<char>>
    decreases candidates.len(),
{
    if candidates.len() == 0 {
        Seq::empty()
    } else {
        let before = versions_among(candidates.drop_last(), are);
        if are[candidates.len() - 1] {
            before.push(candidates.last())
        } else {
            before
        }
    }
}

/// The request that the versioned registry answers on `ret`.
pub open spec fn lookup_request(urn: Seq<char>, ret: ParView) -> Seq<ParView> {
    seq![string_par("lookupVersion"@), string_par(urn), nil(), ret]
}

/// What a service answered, as a process.
pub open spec fn service_output(r: ReplyView) -> ParView {
    match r {
        ReplyView::Text(t) => string_par(t),
        ReplyView::Bytes(b) => bytes_par(b),
        ReplyView::Texts(ts) => list_par(Seq::new(ts.len(), |i: int| string_par(ts[i]))),
        _ => arbitrary(),
    }
}

/// What is said of an emission that could not be sent.
pub open spec fn emission_failure(urn: Seq<char>, text: Seq<char>) -> ErrorView {
    service_failure(
        service_failure(
            ErrorView::SwiplError("Failed to produce on channel "@ + urn + ": "@ + text),
        ),
    )
}

/// How a process that waits goes on with an answer. What it does with an answer
/// that it does not wait for is left open.
pub open spec fn next(
    urns: Map<Seq<char>, ParView>,
    p: PendingView,
    r: ReplyView,
) -> StepView {
    match p {
        PendingView::Printed => finished(Seq::empty()),
        PendingView::PrintedThenAck { ack } => return_on(seq![nil()], ack),
        PendingView::Aborting => StepView::Finished(Err(ErrorView::UserAbortError)),
        PendingView::Hashed { ack } => match r {
            ReplyView::Bytes(hash) => return_on(seq![bytes_par(hash)], ack),
            _ => arbitrary(),
        },
        PendingView::Verified { ack } => match r {
            ReplyView::Flag(verified) => return_on(seq![bool_par(verified)], ack),
            _ => arbitrary(),
        },
        PendingView::UriHashed { ack } => match r {
            ReplyView::Bytes(hash) => StepView::Perform(
                ActionView::BuildUri(hash),
                PendingView::UriBuilt { ack },
            ),
            _ => arbitrary(),
        },
        PendingView::UriBuilt { ack } => match r {
            ReplyView::Text(uri) => pass_on(uri_par(uri), ack),
            _ => arbitrary(),
        },
        PendingView::TextOrNil { ack } => match r {
            ReplyView::MaybeText(o) => pass_on(string_or_nil(o), ack),
            _ => arbitrary(),
        },
        PendingView::UrnParsed { ack } => match r {
            ReplyView::Urn(Some(u)) => pass_on(urn_tuple(u), ack),
            ReplyView::Urn(None) => pass_on(nil(), ack),
            _ => arbitrary(),
        },
        PendingView::LookupParsed { urn, ret } => match r {
            ReplyView::Urn(Some(_)) => StepView::Perform(
                ActionView::Produce {
                    data: lookup_request(urn, ret),
                    channel: byte_channel(19),
                },
                PendingView::Returning { output: Seq::empty() },
            ),
            ReplyView::Urn(None) => StepView::Finished(
                Err(ErrorView::ReduceError("registry_lookup: unknown URN: "@ + urn)),
            ),
            _ => arbitrary(),
        },
        PendingView::VersionRead { pattern, version, ack } => match r {
            ReplyView::Versions { pattern: is_pattern, versions } => if is_pattern && versions[0] {
                StepView::Perform(
                    ActionView::MatchVersion { pattern, version },
                    PendingView::VersionMatched { ack },
                )
            } else {
                pass_on(bool_par(false), ack)
            },
            _ => arbitrary(),
        },
        PendingView::VersionMatched { ack } => match r {
            ReplyView::Flag(matched) => pass_on(bool_par(matched), ack),
            _ => arbitrary(),
        },
        PendingView::VersionsRead { pattern, candidates, ack } => match r {
            ReplyView::Versions { pattern: is_pattern, versions } => if is_pattern {
                StepView::Perform(
                    ActionView::BestVersion {
                        pattern,
                        versions: versions_among(candidates, versions),
                    },
                    PendingView::TextOrNil { ack },
                )
            } else {
                pass_on(nil(), ack)
            },
            _ => arbitrary(),
        },
        PendingView::Serviced { complaint, ack, .. } => match r {
            ReplyView::Failed(e) => match complaint {
                Some(text) => note_step(
                    NoteView { level: LogLevel::Error, text, about: AboutView::Error(e) },
                    Err(service_failure(e)),
                ),
                None => StepView::Finished(Err(service_failure(e))),
            },
            _ => keep_on(seq![service_output(r)], ack),
        },
        PendingView::Told { host, port } => match r {
            ReplyView::Fault(text) => note_step(
                NoteView {
                    level: LogLevel::Warn,
                    text: "GrpcClient error: "@ + text,
                    about: AboutView::Nothing,
                },
                Err(service_failure(ErrorView::BugFoundError("gRPC client error: "@ + text))),
            ),
            _ => note_step(
                NoteView {
                    level: LogLevel::Debug,
                    text: "grpcTell: successfully sent to "@ + host + ":"@ + nat_text(port as nat),
                    about: AboutView::Nothing,
                },
                Ok(seq![nil()]),
            ),
        },
        PendingView::Noted { outcome } => StepView::Finished(outcome),
        PendingView::Stored { name, output, ack, .. } => match r {
            ReplyView::Malformed => refused(name),
            _ => when_sent(r, return_on(output, ack)),
        },
        PendingView::MetaFetched { ack } => match r {
            ReplyView::MaybePar(Some(meta)) => return_on(seq![meta], ack),
            ReplyView::MaybePar(None) => return_on(seq![nil()], ack),
            ReplyView::Failed(e) => StepView::Finished(Err(e)),
            _ => arbitrary(),
        },
        PendingView::QueryFetched { ack } => match r {
            ReplyView::Pars(found) => return_on(seq![list_par(found)], ack),
            ReplyView::Failed(e) => StepView::Finished(Err(e)),
            _ => arbitrary(),
        },
        PendingView::PettaRan { random_state, ack } => match r {
            ReplyView::Petta { frames, result } => forward_step(
                forwardings(frames, urns),
                random_state,
                seq![result],
                ack,
            ),
            ReplyView::Failed(e) => StepView::Finished(Err(service_failure(e))),
            _ => arbitrary(),
        },
        PendingView::Emitting { urn, rest, random_state, output, ack } => match r {
            ReplyView::Fault(text) => StepView::Finished(Err(emission_failure(urn, text))),
            _ => forward_step(rest, random_state, output, ack),
        },
        PendingView::Skipping { rest, random_state, output, ack } => forward_step(
            rest,
            random_state,
            output,
            ack,
        ),
        PendingView::Returning { output } => when_sent(r, finished(output)),
        PendingView::Passing => match r {
            ReplyView::Produced(came) => finished(came),
            ReplyView::Failed(e) => StepView::Finished(Err(e)),
            _ => arbitrary(),
        },
        PendingView::Keeping { output } => match r {
            ReplyView::Failed(e) => StepView::Finished(Err(unsent(e, output))),
            _ => finished(output),
        },
        PendingView::Asserting { condition, message, output } => when_sent(
            r,
            if condition {
                finished(output)
            } else {
                StepView::AssertionFailed(message)
            },
        ),
        PendingView::Comparing { expected, actual, wanted, message, output } => when_sent(
            r,
            StepView::Perform(
                ActionView::Render { actual, expected },
                PendingView::Compared { same: actual == expected, wanted, message, output },
            ),
        ),
        PendingView::Compared { same, wanted, message, output } => match r {
            ReplyView::Rendered { actual, expected } => if (actual == expected) == wanted && same
                == wanted {
                finished(output)
            } else {
                StepView::AssertionFailed(message)
            },
            _ => arbitrary(),
        },
        PendingView::Unreadable { assertion } => when_sent(
            r,
            StepView::Perform(ActionView::Describe(assertion), PendingView::Described),
        ),
        PendingView::Described => match r {
            ReplyView::Text(text) => StepView::Finished(
                Err(ErrorView::BugFoundError("Failed to evaluate assertion: "@ + text)),
            ),
            _ => arbitrary(),
        },
    }
}

/// The candidates that are versions, in their order.
fn keep_versions(candidates: &Vec<String>, are: &Vec<bool>) -> (r: Vec<String>)
    requires
        are@.len() == candidates@.len(),
    ensures
        texts_view(r@) == versions_among(texts_view(candidates@), are@),
{
    let ghost all = texts_view(candidates@);
    let mut kept: Vec<String> = Vec::new();
    let n: usize = candidates.len();
    proof {
        assert(all.take(0) =~= Seq::<Seq<char>>::empty());
        assert(texts_view(kept@) =~= versions_among(all.take(0), are@));
    }
    for i in 0..n
        invariant
            n == candidates.len(),
            n == are.len(),
            all == texts_view(candidates@),
            texts_view(kept@) == versions_among(all.take(i as int), are@),
    {
        let ghost before = kept@;
        proof {
            assert(all.take(i + 1).drop_last() =~= all.take(i as int));
            assert(all.take(i + 1).last() == candidates@[i as int]@);
        }
        if are[i] {
            kept.push(candidates[i].clone());
            assert(texts_view(kept@) =~= texts_view(before).push(candidates@[i as int]@));
        }
    }
    assert(all.take(n as int) =~= all);
    kept
}

/// Texts as a list of strings.
fn strings_par(ts: &Vec<String>) -> (r: Par)
    ensures
        r@ == service_output(ReplyView::Texts(texts_view(ts@))),
{
    let mut ps: Vec<Par> = Vec::new();
    let n: usize = ts.len();
    for i in 0..n
        invariant
            n == ts.len(),
            ps.len() == i,
            forall|k: int| 0 <= k < i ==> (#[trigger] ps@[k])@ == string_par(ts@[k]@),
    {
        ps.push(RhoString::create_par(ts[i].clone()));
    }
    proof {
        lemma_pars(ps@);
        let seen = texts_view(ts@);
        assert(pars_view(ps@) =~= Seq::new(seen.len(), |i: int| string_par(seen[i])));
    }
    RhoList::create_par(ps)
}

fn ask_registry(urn: String, ret: Par) -> (r: Step)
    ensures
        r@ == StepView::Perform(
            ActionView::Produce { data: lookup_request(urn@, ret@), channel: byte_channel(19) },
            PendingView::Returning { output: Seq::empty() },
        ),
{
    let mut data: Vec<Par> = Vec::new();
    data.push(RhoString::create_par("lookupVersion".to_owned()));
    data.push(RhoString::create_par(urn));
    data.push(Par::default());
    data.push(ret);
    proof {
        lemma_pars(data@);
        assert(pars_view(data@) =~= lookup_request(urn@, ret@));
    }
    Step::Perform(
        Action::Produce { data, channel: FixedChannels::reg_v1_internal() },
        Pending::Returning { output: none() },
    )
}

impl SystemProcesses {
    /// Goes on with a process that waits, once its host has answered.
    pub fn resume(&self, pending: Pending, reply: Reply) -> (r: Step)
        requires
            answers(pending@, reply@),
        ensures
            r@ == next(self.urn_to_channel@, pending@, reply@),
    {
        match (pending, reply) {
            (Pending::Printed, _) => finish(none()),
            (Pending::PrintedThenAck { ack }, _) => send(one(Par::default()), ack),
            (Pending::Aborting, _) => fail(InterpreterError::UserAbortError),
            (Pending::Hashed { ack }, Reply::Bytes(hash)) => send(
                one(RhoByteArray::create_par(hash)),
                ack,
            ),
            (Pending::Verified { ack }, Reply::Flag(verified)) => send(
                one(RhoBoolean::create_par(verified)),
                ack,
            ),
            (Pending::UriHashed { ack }, Reply::Bytes(hash)) => Step::Perform(
                Action::BuildUri(hash),
                Pending::UriBuilt { ack },
            ),
            (Pending::UriBuilt { ack }, Reply::Text(uri)) => respond(RhoUri::create_par(uri), ack),
            (Pending::TextOrNil { ack }, Reply::MaybeText(o)) => respond(text_or_nil(o), ack),
            (Pending::UrnParsed { ack }, Reply::Urn(o)) => match o {
                Some(u) => respond(parsed_urn_to_tuple(u), ack),
                None => respond(Par::default(), ack),
            },
            (Pending::LookupParsed { urn, ret }, Reply::Urn(o)) => match o {
                Some(_) => ask_registry(urn, ret),
                None => fail(
                    InterpreterError::ReduceError(
                        join("registry_lookup: unknown URN: ", urn.as_str()),
                    ),
                ),
            },
            (
                Pending::VersionRead { pattern, version, ack },
                Reply::Versions { pattern: is_pattern, versions },
            ) => {
                if is_pattern && versions[0] {
                    Step::Perform(
                        Action::MatchVersion { pattern, version },
                        Pending::VersionMatched { ack },
                    )
                } else {
                    respond(RhoBoolean::create_par(false), ack)
                }
            },
            (Pending::VersionMatched { ack }, Reply::Flag(matched)) => respond(
                RhoBoolean::create_par(matched),
                ack,
            ),
            (
                Pending::VersionsRead { pattern, candidates, ack },
                Reply::Versions { pattern: is_pattern, versions },
            ) => {
                if is_pattern {
                    let kept: Vec<String> = keep_versions(&candidates, &versions);
                    Step::Perform(
                        Action::BestVersion { pattern, versions: kept },
                        Pending::TextOrNil { ack },
                    )
                } else {
                    respond(Par::default(), ack)
                }
            },
            (Pending::Serviced { ack, .. }, Reply::Text(t)) => send_kept(
                one(RhoString::create_par(t)),
                ack,
            ),
            (Pending::Serviced { ack, .. }, Reply::Bytes(b)) => send_kept(
                one(RhoByteArray::create_par(b)),
                ack,
            ),
            (Pending::Serviced { ack, .. }, Reply::Texts(ts)) => send_kept(
                one(strings_par(&ts)),
                ack,
            ),
            (Pending::Serviced { complaint, .. }, Reply::Failed(e)) => match complaint {
                Some(text) => {
                    let about = About::Error(e.clone());
                    noted(Note { level: LogLevel::Error, text, about }, Err(service_failed(e)))
                },
                None => fail(service_failed(e)),
            },
            (Pending::Told { host, port }, Reply::Done) => {
                let mut text: String = join3(
                    "grpcTell: successfully sent to ",
                    host.as_str(),
                    ":",
                );
                let digits: String = u64_text(port);
                text.append(digits.as_str());
                noted(
                    Note { level: LogLevel::Debug, text, about: About::Nothing },
                    Ok(one(Par::default())),
                )
            },
            (Pending::Told { .. }, Reply::Fault(text)) => {
                let note = Note {
                    level: LogLevel::Warn,
                    text: join("GrpcClient error: ", text.as_str()),
                    about: About::Nothing,
                };
                let cause = InterpreterError::BugFoundError(
                    join("gRPC client error: ", text.as_str()),
                );
                noted(note, Err(service_failed(cause)))
            },
            (Pending::Noted { outcome }, _) => Step::Finished(outcome),
            (Pending::Stored { output, ack, .. }, Reply::Done) => send(output, ack),
            (Pending::Stored { name, .. }, Reply::Malformed) => refuse(name.as_str()),
            (Pending::Stored { .. }, Reply::Failed(e)) => fail(e),
            (Pending::MetaFetched { ack }, Reply::MaybePar(o)) => match o {
                Some(meta) => send(one(meta), ack),
                None => send(one(Par::default()), ack),
            },
            (Pending::MetaFetched { .. }, Reply::Failed(e)) => fail(e),
            (Pending::QueryFetched { ack }, Reply::Pars(found)) => send(
                one(RhoList::create_par(found)),
                ack,
            ),
            (Pending::QueryFetched { .. }, Reply::Failed(e)) => fail(e),
            (Pending::PettaRan { random_state, ack }, Reply::Petta { frames, result }) => {
                let to_forward = self.forward_frames(&frames);
                forward(to_forward, random_state, one(result), ack)
            },
            (Pending::PettaRan { .. }, Reply::Failed(e)) => fail(service_failed(e)),
            (Pending::Emitting { rest, random_state, output, ack, .. }, Reply::Done) => forward(
                rest,
                random_state,
                output,
                ack,
            ),
            (Pending::Skipping { rest, random_state, output, ack }, _) => forward(
                rest,
                random_state,
                output,
                ack,
            ),
            (Pending::Emitting { urn, .. }, Reply::Fault(text)) => {
                let mut t: String = join3("Failed to produce on channel ", urn.as_str(), ": ");
                t.append(text.as_str());
                fail(service_failed(service_failed(InterpreterError::SwiplError(t))))
            },
            (Pending::Returning { output }, Reply::Produced(_)) => finish(output),
            (Pending::Returning { .. }, Reply::Failed(e)) => fail(e),
            (Pending::Passing, Reply::Produced(came)) => finish(came),
            (Pending::Passing, Reply::Failed(e)) => fail(e),
            (Pending::Keeping { output }, Reply::Produced(_)) => finish(output),
            (Pending::Keeping { output }, Reply::Failed(e)) => fail(not_sent(e, output)),
            (Pending::Asserting { condition, message, output }, Reply::Produced(_)) => {
                if condition {
                    finish(output)
                } else {
                    Step::AssertionFailed(message)
                }
            },
            (Pending::Asserting { .. }, Reply::Failed(e)) => fail(e),
            (
                Pending::Comparing { expected, actual, wanted, message, output },
                Reply::Produced(_),
            ) => {
                let same: bool = actual.same(&expected);
                Step::Perform(
                    Action::Render { actual, expected },
                    Pending::Compared { same, wanted, message, output },
                )
            },
            (Pending::Comparing { .. }, Reply::Failed(e)) => fail(e),
            (
                Pending::Compared { same, wanted, message, output },
                Reply::Rendered { actual, expected },
            ) => {
                let reads_same: bool = actual == expected;
                if reads_same == wanted && same == wanted {
                    finish(output)
                } else {
                    Step::AssertionFailed(message)
                }
            },
            (Pending::Unreadable { assertion }, Reply::Produced(_)) => Step::Perform(
                Action::Describe(assertion),
                Pending::Described,
            ),
            (Pending::Unreadable { .. }, Reply::Failed(e)) => fail(e),
            (Pending::Described, Reply::Text(text)) => fail(
                InterpreterError::BugFoundError(
                    join("Failed to evaluate assertion: ", text.as_str()),
                ),
            ),
            _ => vstd::pervasive::unreached(),
        }
    }
}

} // verus!
