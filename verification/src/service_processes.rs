//! System processes that call on services: language models, a gRPC client, a
//! store of documents, and the MeTTa interpreter.
use vstd::prelude::*;

use crate::contract_call::{call_view, keep_on, lemma_pars, one, refuse, send};
use crate::contract_call::{refused, return_on, send_kept};
use crate::contract_call::{CallView, ContractArgs, ContractCall};
use crate::crypto::{is_uuid_v4, lemma_some_uuid, new_uuid};
use crate::errors::{illegal_argument, illegal_argument_error, ErrorView, InterpreterError};
use crate::exchange::{chat_view, forwardings_view, messages_view, outcome_view, texts_view};
use crate::exchange::{About, AboutView, Action, ActionView, Awaited, ChatMessage, ChatView};
use crate::exchange::{Forwarding, ForwardingView, ListParWithRandom, LogLevel, MessageView};
use crate::exchange::{Note, NoteView, Pending, PendingView, Step, StepView};
use crate::par::{copy_bytes, pars_view, Par, ParView};
use crate::rho_type::{bool_of, list_of, nil, number_of, string_of, string_par};
use crate::rho_type::{RhoBoolean, RhoList, RhoNumber, RhoString};
use crate::swi_prolog_service::{frames_view, Frame, FrameView};
use crate::system_processes::SystemProcesses;
use crate::text::{join, join3};

verus! {

// ---------------------------------------------------------------------------
// Language models
// ---------------------------------------------------------------------------
/// A service that turns a text into something else.
pub enum Prompted {
    Gpt4,
    Dalle3,
}

pub open spec fn prompt_action(service: Prompted, prompt: Seq<char>) -> ActionView {
    match service {
        Prompted::Gpt4 => ActionView::Gpt4(prompt),
        Prompted::Dalle3 => ActionView::Dalle3(prompt),
    }
}

/// A prompt is put to a service; a replay repeats what came of it.
pub open spec fn prompt_step(call: CallView, name: Seq<char>, service: Prompted) -> StepView {
    match call.exactly(2) {
        Some(a) => match string_of(a[0]) {
            Some(prompt) => if call.is_replay {
                return_on(call.previous_output, a[1])
            } else {
                StepView::Perform(
                    prompt_action(service, prompt),
                    PendingView::Serviced { awaited: Awaited::Text, complaint: None, ack: a[1] },
                )
            },
            None => refused(name),
        },
        None => refused(name),
    }
}

/// The file that speech is stored in.
pub open spec fn audio_path(id: Seq<char>) -> Seq<char> {
    "audio_"@ + id + ".mp3"@
}

/// A text is spoken, into the file that an identifier gives; a replay repeats
/// what came of it.
pub open spec fn text_to_audio_step(call: CallView, id: Seq<char>) -> StepView {
    match call.exactly(2) {
        Some(a) => match string_of(a[0]) {
            Some(input) => if call.is_replay {
                return_on(call.previous_output, a[1])
            } else {
                speak_step(input, id, a[1])
            },
            None => refused("text_to_audio"@),
        },
        None => refused("text_to_audio"@),
    }
}

/// A prompt is put to a model as a chat of one message; a replay repeats what
/// came of it.
pub open spec fn ollama_chat_step(call: CallView) -> StepView {
    match call.exactly(3) {
        Some(a) => if call.is_replay {
            return_on(call.previous_output, a[2])
        } else {
            match (string_of(a[0]), string_of(a[1])) {
                (None, _) => refused("ollama_chat: model must be a string"@),
                (Some(_), None) => refused("ollama_chat: prompt must be a string"@),
                (Some(model), Some(prompt)) => StepView::Perform(
                    ActionView::OllamaChat {
                        model,
                        messages: seq![ChatView { role: "user"@, content: prompt }],
                    },
                    PendingView::Serviced {
                        awaited: Awaited::Text,
                        complaint: Some("Ollama chat request failed"@),
                        ack: a[2],
                    },
                ),
            }
        },
        None => refused("ollama_chat"@),
    }
}

/// A prompt is put to a model; a replay repeats what came of it.
pub open spec fn ollama_generate_step(call: CallView) -> StepView {
    match call.exactly(3) {
        Some(a) => if call.is_replay {
            return_on(call.previous_output, a[2])
        } else {
            match (string_of(a[0]), string_of(a[1])) {
                (None, _) => refused("ollama_generate: model must be a string"@),
                (Some(_), None) => refused("ollama_generate: prompt must be a string"@),
                (Some(model), Some(prompt)) => StepView::Perform(
                    ActionView::OllamaGenerate { model, prompt },
                    PendingView::Serviced {
                        awaited: Awaited::Text,
                        complaint: Some("Ollama generate request failed"@),
                        ack: a[2],
                    },
                ),
            }
        },
        None => refused("ollama_generate"@),
    }
}

/// The models are asked for; a replay repeats what came of it.
pub open spec fn ollama_models_step(call: CallView) -> StepView {
    match call.exactly(1) {
        Some(a) => if call.is_replay {
            return_on(call.previous_output, a[0])
        } else {
            StepView::Perform(
                ActionView::OllamaModels,
                PendingView::Serviced {
                    awaited: Awaited::Texts,
                    complaint: Some("Ollama models list request failed"@),
                    ack: a[0],
                },
            )
        },
        None => refused("ollama_models"@),
    }
}

// ---------------------------------------------------------------------------
// The gRPC client
// ---------------------------------------------------------------------------
/// Something is noted for the log, and then the process is done.
pub open spec fn note_step(note: NoteView, outcome: Result<Seq<ParView>, ErrorView>) -> StepView {
    StepView::Perform(ActionView::Note(note), PendingView::Noted { outcome })
}

/// What is noted of a replay.
pub open spec fn replay_note(args: Seq<ParView>) -> NoteView {
    NoteView {
        level: LogLevel::Debug,
        text: "grpcTell (replay): args: "@,
        about: AboutView::Args(args),
    }
}

/// What is noted of arguments that are not three. It is never a replay that gets
/// this far.
pub open spec fn count_note(args: Seq<ParView>) -> NoteView {
    NoteView {
        level: LogLevel::Warn,
        text: "grpcTell: isReplay false invalid arguments (expected 3): "@,
        about: AboutView::Args(args),
    }
}

/// What is noted of arguments that are not a text, a number and a text.
pub open spec fn types_note(args: Seq<ParView>) -> NoteView {
    NoteView {
        level: LogLevel::Warn,
        text: "grpcTell: invalid argument types: "@,
        about: AboutView::Args(args),
    }
}

/// A client is notified. There is no channel to answer on, so that a replay has
/// nothing to do.
pub open spec fn grpc_tell_step(call: CallView) -> StepView {
    match call.args() {
        None => refused("grpc_tell"@),
        Some(a) => if call.is_replay {
            note_step(replay_note(a), Ok(call.previous_output))
        } else if a.len() != 3 {
            note_step(count_note(a), Err(illegal_argument("grpc_tell"@)))
        } else {
            match (string_of(a[0]), number_of(a[1]), string_of(a[2])) {
                (Some(host), Some(port), Some(payload)) => if port < 0 {
                    StepView::Finished(
                        Err(ErrorView::BugFoundError("Invalid port number: must be non-negative"@)),
                    )
                } else {
                    StepView::Perform(
                        ActionView::Tell { host, port: port as u64, payload },
                        PendingView::Told { host, port: port as u64 },
                    )
                },
                _ => note_step(types_note(a), Err(illegal_argument("grpc_tell"@))),
            }
        },
    }
}

// ---------------------------------------------------------------------------
// The store of documents
// ---------------------------------------------------------------------------
/// The strings of a list that holds nothing else.
pub open spec fn strings_of(p: ParView) -> Option<Seq<Seq<char>>> {
    match list_of(p) {
        Some(ps) => if forall|i: int| 0 <= i < ps.len() ==> string_of(#[trigger] ps[i]) is Some {
            Some(Seq::new(ps.len(), |i: int| string_of(ps[i])->0))
        } else {
            None
        },
        None => None,
    }
}

pub open spec fn chroma_create_collection_step(call: CallView) -> StepView {
    match call.exactly(4) {
        Some(a) => match (string_of(a[0]), bool_of(a[1])) {
            (Some(name), Some(update)) => StepView::Perform(
                ActionView::CreateCollection {
                    name,
                    update,
                    metadata: if a[2] == nil() {
                        None
                    } else {
                        Some(a[2])
                    },
                },
                PendingView::Stored {
                    name: "chroma_create_collection"@,
                    readable: a[2] == nil(),
                    output: seq![nil()],
                    ack: a[3],
                },
            ),
            _ => refused("chroma_create_collection"@),
        },
        None => refused("chroma_create_collection"@),
    }
}

pub open spec fn chroma_get_collection_meta_step(call: CallView) -> StepView {
    match call.exactly(2) {
        Some(a) => match string_of(a[0]) {
            Some(name) => if call.is_replay {
                return_on(call.previous_output, a[1])
            } else {
                StepView::Perform(
                    ActionView::CollectionMeta(name),
                    PendingView::MetaFetched { ack: a[1] },
                )
            },
            None => refused("chroma_get_collection_meta"@),
        },
        None => refused("chroma_get_collection_meta"@),
    }
}

pub open spec fn chroma_upsert_entries_step(call: CallView) -> StepView {
    match call.exactly(3) {
        Some(a) => match string_of(a[0]) {
            Some(name) => StepView::Perform(
                ActionView::UpsertEntries { name, entries: a[1] },
                PendingView::Stored {
                    name: "chroma_upsert_entries"@,
                    readable: false,
                    output: seq![string_par(name)],
                    ack: a[2],
                },
            ),
            None => refused("chroma_upsert_entries"@),
        },
        None => refused("chroma_upsert_entries"@),
    }
}

pub open spec fn chroma_query_step(call: CallView) -> StepView {
    match call.exactly(3) {
        Some(a) => match (string_of(a[0]), strings_of(a[1])) {
            (Some(name), Some(texts)) => if call.is_replay {
                return_on(call.previous_output, a[2])
            } else {
                StepView::Perform(
                    ActionView::QueryCollection { name, texts },
                    PendingView::QueryFetched { ack: a[2] },
                )
            },
            _ => refused("chroma_query"@),
        },
        None => refused("chroma_query"@),
    }
}

pub open spec fn chroma_delete_documents_step(call: CallView) -> StepView {
    match call.exactly(3) {
        Some(a) => match (string_of(a[0]), strings_of(a[1])) {
            (Some(name), Some(ids)) => StepView::Perform(
                ActionView::DeleteDocuments { name, ids },
                PendingView::Stored {
                    name: "chroma_delete_documents"@,
                    readable: true,
                    output: seq![string_par(name)],
                    ack: a[2],
                },
            ),
            _ => refused("chroma_delete_documents"@),
        },
        None => refused("chroma_delete_documents"@),
    }
}

// ---------------------------------------------------------------------------
// The MeTTa interpreter
// ---------------------------------------------------------------------------
/// A program is run; a replay sends what it came to, and does not run it.
pub open spec fn petta_execute_step(call: CallView) -> StepView {
    match call.exactly(2) {
        Some(a) => match string_of(a[0]) {
            Some(code) => if call.is_replay {
                keep_on(call.previous_output, a[1])
            } else {
                StepView::Perform(
                    ActionView::RunPetta(code),
                    PendingView::PettaRan {
                        random_state: call.messages[0].random_state,
                        ack: a[1],
                    },
                )
            },
            None => refused("petta_execute"@),
        },
        None => refused("petta_execute"@),
    }
}

/// What becomes of a frame: each argument is sent on its channel by itself, in
/// order. For a channel that is not known, nothing is sent.
pub open spec fn frame_forwardings(f: FrameView, urns: Map<Seq<char>, ParView>) -> Seq<
    ForwardingView,
> {
    if urns.contains_key(f.channel) {
        Seq::new(
            f.arguments.len(),
            |i: int|
                ForwardingView::Emit {
                    urn: f.channel,
                    channel: urns[f.channel],
                    argument: f.arguments[i],
                },
        )
    } else {
        seq![ForwardingView::Skip { urn: f.channel }]
    }
}

/// What becomes of frames, in order.
pub open spec fn forwardings(fs: Seq<FrameView>, urns: Map<Seq<char>, ParView>) -> Seq<
    ForwardingView,
>
    decreases fs.len(),
{
    if fs.len() == 0 {
        Seq::empty()
    } else {
        forwardings(fs.drop_last(), urns) + frame_forwardings(fs.last(), urns)
    }
}

/// What is noted of a channel that is not known.
pub open spec fn unknown_channel_note(urn: Seq<char>) -> NoteView {
    NoteView {
        level: LogLevel::Warn,
        text: "Unknown channel URN in frame: "@ + urn,
        about: AboutView::Petta,
    }
}

/// What a program printed is dealt with one thing at a time, and then its result
/// is sent.
pub open spec fn forward_step(
    rest: Seq<ForwardingView>,
    random_state: Seq<u8>,
    output: Seq<ParView>,
    ack: ParView,
) -> StepView {
    if rest.len() == 0 {
        keep_on(output, ack)
    } else {
        match rest[0] {
            ForwardingView::Emit { urn, channel, argument } => StepView::Perform(
                ActionView::Emit {
                    message: MessageView { pars: seq![argument], random_state },
                    channel,
                },
                PendingView::Emitting {
                    urn,
                    rest: rest.drop_first(),
                    random_state,
                    output,
                    ack,
                },
            ),
            ForwardingView::Skip { urn } => StepView::Perform(
                ActionView::Note(unknown_channel_note(urn)),
                PendingView::Skipping { rest: rest.drop_first(), random_state, output, ack },
            ),
        }
    }
}

/// Notes something for the log, and then the process is done.
pub(crate) fn noted(note: Note, outcome: Result<Vec<Par>, InterpreterError>) -> (r: Step)
    ensures
        r@ == note_step(note@, outcome_view(outcome)),
{
    Step::Perform(Action::Note(note), Pending::Noted { outcome })
}

fn prompt(contract_args: ContractArgs, name: &str, service: Prompted) -> (r: Step)
    ensures
        r@ == prompt_step(call_view(contract_args), name@, service),
{
    let call = match ContractCall::exactly(contract_args, 2) {
        Some(call) => call,
        None => return refuse(name),
    };
    let prompt: String = match RhoString::unapply(&call.args[0]) {
        Some(s) => s,
        None => return refuse(name),
    };
    let ack: Par = call.args[1].clone();
    if call.is_replay {
        return send(call.previous_output, ack);
    }
    let action = match service {
        Prompted::Gpt4 => Action::Gpt4(prompt),
        Prompted::Dalle3 => Action::Dalle3(prompt),
    };
    Step::Perform(action, Pending::Serviced { awaited: Awaited::Text, complaint: None, ack })
}

/// A text is spoken, into the file that an identifier gives.
pub open spec fn speak_step(input: Seq<char>, id: Seq<char>, ack: ParView) -> StepView {
    StepView::Perform(
        ActionView::Speak { input, path: audio_path(id) },
        PendingView::Serviced { awaited: Awaited::Bytes, complaint: None, ack },
    )
}

fn speak(input: String, id: &str, ack: Par) -> (r: Step)
    ensures
        r@ == speak_step(input@, id@, ack@),
{
    let path: String = join3("audio_", id, ".mp3");
    Step::Perform(
        Action::Speak { input, path },
        Pending::Serviced { awaited: Awaited::Bytes, complaint: None, ack },
    )
}

/// What a call asks to be spoken, and the channel to answer on; or the step of a
/// call that asks for nothing new.
fn speech(contract_args: ContractArgs) -> (r: Result<(String, Par), Step>)
    ensures
        match r {
            Ok((input, ack)) => forall|id: Seq<char>| #[trigger]
                text_to_audio_step(call_view(contract_args), id) == speak_step(input@, id, ack@),
            Err(step) => forall|id: Seq<char>| #[trigger]
                text_to_audio_step(call_view(contract_args), id) == step@,
        },
{
    let call = match ContractCall::exactly(contract_args, 2) {
        Some(call) => call,
        None => return Err(refuse("text_to_audio")),
    };
    let input: String = match RhoString::unapply(&call.args[0]) {
        Some(s) => s,
        None => return Err(refuse("text_to_audio")),
    };
    let ack: Par = call.args[1].clone();
    if call.is_replay {
        Err(send(call.previous_output, ack))
    } else {
        Ok((input, ack))
    }
}

/// The strings of a list that holds nothing else.
fn unapply_strings(p: &Par) -> (r: Option<Vec<String>>)
    ensures
        match r {
            Some(ts) => strings_of(p@) == Some(texts_view(ts@)),
            None => strings_of(p@) is None,
        },
{
    let ps: Vec<Par> = match RhoList::unapply(p) {
        Some(ps) => ps,
        None => return None,
    };
    let ghost seen = pars_view(ps@);
    proof {
        lemma_pars(ps@);
    }
    let mut ts: Vec<String> = Vec::new();
    let n: usize = ps.len();
    for i in 0..n
        invariant
            n == ps.len(),
            seen == pars_view(ps@),
            seen.len() == n,
            list_of(p@) == Some(seen),
            forall|k: int| 0 <= k < n ==> #[trigger] seen[k] == ps@[k]@,
            ts.len() == i,
            forall|k: int| 0 <= k < i ==> string_of(#[trigger] seen[k]) == Some(ts@[k]@),
    {
        assert(seen[i as int] == ps@[i as int]@);
        match RhoString::unapply(&ps[i]) {
            Some(s) => ts.push(s),
            None => return None,
        }
    }
    assert(texts_view(ts@) =~= strings_of(p@)->0);
    Some(ts)
}

/// What a program printed is dealt with one thing at a time, and then its result
/// is sent.
pub(crate) fn forward(
    rest: Vec<Forwarding>,
    random_state: Vec<u8>,
    output: Vec<Par>,
    ack: Par,
) -> (r: Step)
    ensures
        r@ == forward_step(forwardings_view(rest@), random_state@, pars_view(output@), ack@),
{
    if rest.len() == 0 {
        return send_kept(output, ack);
    }
    let mut rest = rest;
    let ghost all = rest@;
    let first: Forwarding = rest.remove(0);
    proof {
        assert(forwardings_view(all)[0] == first@);
        assert(forwardings_view(rest@) =~= forwardings_view(all).drop_first());
    }
    match first {
        Forwarding::Emit { urn, channel, argument } => {
            let message = ListParWithRandom {
                pars: one(argument),
                random_state: copy_bytes(&random_state),
            };
            Step::Perform(
                Action::Emit { message, channel },
                Pending::Emitting { urn, rest, random_state, output, ack },
            )
        },
        Forwarding::Skip { urn } => {
            let note = Note {
                level: LogLevel::Warn,
                text: join("Unknown channel URN in frame: ", urn.as_str()),
                about: About::Petta,
            };
            Step::Perform(
                Action::Note(note),
                Pending::Skipping { rest, random_state, output, ack },
            )
        },
    }
}

impl SystemProcesses {
    /// Asks a language model to answer a prompt.
    pub fn gpt4(&self, contract_args: ContractArgs) -> (r: Step)
        ensures
            r@ == prompt_step(call_view(contract_args), "gpt4"@, Prompted::Gpt4),
    {
        prompt(contract_args, "gpt4", Prompted::Gpt4)
    }

    /// Asks for an image that a prompt describes.
    pub fn dalle3(&self, contract_args: ContractArgs) -> (r: Step)
        ensures
            r@ == prompt_step(call_view(contract_args), "dalle3"@, Prompted::Dalle3),
    {
        prompt(contract_args, "dalle3", Prompted::Dalle3)
    }

    /// Asks for a text to be spoken, into a file that a new random identifier
    /// names.
    pub fn text_to_audio(&self, contract_args: ContractArgs) -> (r: Step)
        ensures
            exists|id: Seq<char>|
                is_uuid_v4(id) && r@ == #[trigger] text_to_audio_step(call_view(contract_args), id),
    {
        let ghost call = call_view(contract_args);
        match speech(contract_args) {
            Ok((input, ack)) => {
                let id: String = new_uuid();
                let r = speak(input, id.as_str(), ack);
                assert(r@ == text_to_audio_step(call, id@));
                r
            },
            Err(r) => {
                proof {
                    lemma_some_uuid();
                    let id = choose|id: Seq<char>| is_uuid_v4(id);
                    assert(r@ == text_to_audio_step(call, id));
                }
                r
            },
        }
    }

    /// Asks for a text to be spoken, into the file that an identifier names.
    pub fn text_to_audio_as(&self, contract_args: ContractArgs, id: &str) -> (r: Step)
        ensures
            r@ == text_to_audio_step(call_view(contract_args), id@),
    {
        match speech(contract_args) {
            Ok((input, ack)) => speak(input, id, ack),
            Err(r) => r,
        }
    }

    /// Asks a model to chat.
    pub fn ollama_chat(&self, contract_args: ContractArgs) -> (r: Step)
        ensures
            r@ == ollama_chat_step(call_view(contract_args)),
    {
        let call = match ContractCall::exactly(contract_args, 3) {
            Some(call) => call,
            None => return refuse("ollama_chat"),
        };
        let ack: Par = call.args[2].clone();
        if call.is_replay {
            return send(call.previous_output, ack);
        }
        let model: String = match RhoString::unapply(&call.args[0]) {
            Some(s) => s,
            None => return refuse("ollama_chat: model must be a string"),
        };
        let prompt: String = match RhoString::unapply(&call.args[1]) {
            Some(s) => s,
            None => return refuse("ollama_chat: prompt must be a string"),
        };
        let mut messages: Vec<ChatMessage> = Vec::new();
        messages.push(ChatMessage { role: "user".to_owned(), content: prompt });
        assert(chat_view(messages@) =~= seq![ChatView { role: "user"@, content: prompt@ }]);
        Step::Perform(
            Action::OllamaChat { model, messages },
            Pending::Serviced {
                awaited: Awaited::Text,
                complaint: Some("Ollama chat request failed".to_owned()),
                ack,
            },
        )
    }

    /// Asks a model to complete a prompt.
    pub fn ollama_generate(&self, contract_args: ContractArgs) -> (r: Step)
        ensures
            r@ == ollama_generate_step(call_view(contract_args)),
    {
        let call = match ContractCall::exactly(contract_args, 3) {
            Some(call) => call,
            None => return refuse("ollama_generate"),
        };
        let ack: Par = call.args[2].clone();
        if call.is_replay {
            return send(call.previous_output, ack);
        }
        let model: String = match RhoString::unapply(&call.args[0]) {
            Some(s) => s,
            None => return refuse("ollama_generate: model must be a string"),
        };
        let prompt: String = match RhoString::unapply(&call.args[1]) {
            Some(s) => s,
            None => return refuse("ollama_generate: prompt must be a string"),
        };
        Step::Perform(
            Action::OllamaGenerate { model, prompt },
            Pending::Serviced {
                awaited: Awaited::Text,
                complaint: Some("Ollama generate request failed".to_owned()),
                ack,
            },
        )
    }

    /// Asks which models there are.
    pub fn ollama_models(&self, contract_args: ContractArgs) -> (r: Step)
        ensures
            r@ == ollama_models_step(call_view(contract_args)),
    {
        let call = match ContractCall::exactly(contract_args, 1) {
            Some(call) => call,
            None => return refuse("ollama_models"),
        };
        let ack: Par = call.args[0].clone();
        if call.is_replay {
            return send(call.previous_output, ack);
        }
        Step::Perform(
            Action::OllamaModels,
            Pending::Serviced {
                awaited: Awaited::Texts,
                complaint: Some("Ollama models list request failed".to_owned()),
                ack,
            },
        )
    }

    /// Notifies a gRPC client, and does not wait for an answer.
    pub fn grpc_tell(&self, contract_args: ContractArgs) -> (r: Step)
        ensures
            r@ == grpc_tell_step(call_view(contract_args)),
    {
        let call = match ContractCall::unapply(contract_args) {
            Some(call) => call,
            None => return refuse("grpc_tell"),
        };
        if call.is_replay {
            let note = Note {
                level: LogLevel::Debug,
                text: "grpcTell (replay): args: ".to_owned(),
                about: About::Args(call.args),
            };
            return noted(note, Ok(call.previous_output));
        }
        if call.args.len() != 3 {
            let note = Note {
                level: LogLevel::Warn,
                text: "grpcTell: isReplay false invalid arguments (expected 3): ".to_owned(),
                about: About::Args(call.args),
            };
            return noted(note, Err(illegal_argument_error("grpc_tell")));
        }
        match (
            RhoString::unapply(&call.args[0]),
            RhoNumber::unapply(&call.args[1]),
            RhoString::unapply(&call.args[2]),
        ) {
            (Some(host), Some(port), Some(payload)) => {
                if port < 0 {
                    return Step::Finished(
                        Err(
                            InterpreterError::BugFoundError(
                                "Invalid port number: must be non-negative".to_owned(),
                            ),
                        ),
                    );
                }
                let port: u64 = port as u64;
                Step::Perform(
                    Action::Tell { host: host.clone(), port, payload },
                    Pending::Told { host, port },
                )
            },
            _ => {
                let note = Note {
                    level: LogLevel::Warn,
                    text: "grpcTell: invalid argument types: ".to_owned(),
                    about: About::Args(call.args),
                };
                noted(note, Err(illegal_argument_error("grpc_tell")))
            },
        }
    }

    /// Makes a collection of documents, with metadata or, for `Nil`, without.
    pub fn chroma_create_collection(&self, contract_args: ContractArgs) -> (r: Step)
        ensures
            r@ == chroma_create_collection_step(call_view(contract_args)),
    {
        let call = match ContractCall::exactly(contract_args, 4) {
            Some(call) => call,
            None => return refuse("chroma_create_collection"),
        };
        let name: String = match RhoString::unapply(&call.args[0]) {
            Some(s) => s,
            None => return refuse("chroma_create_collection"),
        };
        let update: bool = match RhoBoolean::unapply(&call.args[1]) {
            Some(b) => b,
            None => return refuse("chroma_create_collection"),
        };
        let readable: bool = call.args[2].is_nil();
        let metadata: Option<Par> = if readable {
            None
        } else {
            Some(call.args[2].clone())
        };
        Step::Perform(
            Action::CreateCollection { name, update, metadata },
            Pending::Stored {
                name: "chroma_create_collection".to_owned(),
                readable,
                output: one(Par::default()),
                ack: call.args[3].clone(),
            },
        )
    }

    /// Asks for the metadata of a collection.
    pub fn chroma_get_collection_meta(&self, contract_args: ContractArgs) -> (r: Step)
        ensures
            r@ == chroma_get_collection_meta_step(call_view(contract_args)),
    {
        let call = match ContractCall::exactly(contract_args, 2) {
            Some(call) => call,
            None => return refuse("chroma_get_collection_meta"),
        };
        let name: String = match RhoString::unapply(&call.args[0]) {
            Some(s) => s,
            None => return refuse("chroma_get_collection_meta"),
        };
        let ack: Par = call.args[1].clone();
        if call.is_replay {
            return send(call.previous_output, ack);
        }
        Step::Perform(Action::CollectionMeta(name), Pending::MetaFetched { ack })
    }

    /// Stores documents in a collection.
    pub fn chroma_upsert_entries(&self, contract_args: ContractArgs) -> (r: Step)
        ensures
            r@ == chroma_upsert_entries_step(call_view(contract_args)),
    {
        let call = match ContractCall::exactly(contract_args, 3) {
            Some(call) => call,
            None => return refuse("chroma_upsert_entries"),
        };
        let name: String = match RhoString::unapply(&call.args[0]) {
            Some(s) => s,
            None => return refuse("chroma_upsert_entries"),
        };
        let output: Vec<Par> = one(RhoString::create_par(name.clone()));
        Step::Perform(
            Action::UpsertEntries { name, entries: call.args[1].clone() },
            Pending::Stored {
                name: "chroma_upsert_entries".to_owned(),
                readable: false,
                output,
                ack: call.args[2].clone(),
            },
        )
    }

    /// Looks for documents of a collection.
    pub fn chroma_query(&self, contract_args: ContractArgs) -> (r: Step)
        ensures
            r@ == chroma_query_step(call_view(contract_args)),
    {
        let call = match ContractCall::exactly(contract_args, 3) {
            Some(call) => call,
            None => return refuse("chroma_query"),
        };
        let name: String = match RhoString::unapply(&call.args[0]) {
            Some(s) => s,
            None => return refuse("chroma_query"),
        };
        let texts: Vec<String> = match unapply_strings(&call.args[1]) {
            Some(ts) => ts,
            None => return refuse("chroma_query"),
        };
        let ack: Par = call.args[2].clone();
        if call.is_replay {
            return send(call.previous_output, ack);
        }
        Step::Perform(Action::QueryCollection { name, texts }, Pending::QueryFetched { ack })
    }

    /// Deletes documents of a collection.
    pub fn chroma_delete_documents(&self, contract_args: ContractArgs) -> (r: Step)
        ensures
            r@ == chroma_delete_documents_step(call_view(contract_args)),
    {
        let call = match ContractCall::exactly(contract_args, 3) {
            Some(call) => call,
            None => return refuse("chroma_delete_documents"),
        };
        let name: String = match RhoString::unapply(&call.args[0]) {
            Some(s) => s,
            None => return refuse("chroma_delete_documents"),
        };
        let ids: Vec<String> = match unapply_strings(&call.args[1]) {
            Some(ts) => ts,
            None => return refuse("chroma_delete_documents"),
        };
        let output: Vec<Par> = one(RhoString::create_par(name.clone()));
        Step::Perform(
            Action::DeleteDocuments { name, ids },
            Pending::Stored {
                name: "chroma_delete_documents".to_owned(),
                readable: true,
                output,
                ack: call.args[2].clone(),
            },
        )
    }

    /// Runs a MeTTa program, and answers with what it comes to.
    ///
    /// The outcome is not a function of the program, so it is recorded, and a
    /// replay sends the record: it never runs the program again.
    pub fn petta_execute(&self, contract_args: ContractArgs) -> (r: Step)
        ensures
            r@ == petta_execute_step(call_view(contract_args)),
    {
        let random_state: Vec<u8> = if contract_args.0.len() > 0 {
            assert(messages_view(contract_args.0@)[0] == contract_args.0@[0]@);
            copy_bytes(&contract_args.0[0].random_state)
        } else {
            Vec::new()
        };
        let call = match ContractCall::exactly(contract_args, 2) {
            Some(call) => call,
            None => return refuse("petta_execute"),
        };
        let metta_code: String = match RhoString::unapply(&call.args[0]) {
            Some(s) => s,
            None => return refuse("petta_execute"),
        };
        let ack: Par = call.args[1].clone();
        if call.is_replay {
            return send_kept(call.previous_output, ack);
        }
        Step::Perform(Action::RunPetta(metta_code), Pending::PettaRan { random_state, ack })
    }

    /// What becomes of the frames of a program, in order. A frame for a channel that
    /// is not known is passed over, with a note.
    pub fn forward_frames(&self, frames: &Vec<Frame>) -> (r: Vec<Forwarding>)
        ensures
            forwardings_view(r@) == forwardings(frames_view(frames@), self.urn_to_channel@),
    {
        let ghost fs = frames_view(frames@);
        let ghost urns = self.urn_to_channel@;
        let mut es: Vec<Forwarding> = Vec::new();
        let n: usize = frames.len();
        proof {
            assert(fs.take(0) =~= Seq::<FrameView>::empty());
            assert(forwardings_view(es@) =~= forwardings(fs.take(0), urns));
        }
        for i in 0..n
            invariant
                n == frames.len(),
                fs == frames_view(frames@),
                urns == self.urn_to_channel@,
                forwardings_view(es@) == forwardings(fs.take(i as int), urns),
        {
            let ghost before = forwardings(fs.take(i as int), urns);
            proof {
                assert(fs.take(i + 1).drop_last() =~= fs.take(i as int));
                assert(fs.take(i + 1).last() == fs[i as int]);
                assert(fs[i as int] == frames@[i as int]@);
            }
            match self.urn_to_channel.get(frames[i].channel.as_str()) {
                Some(channel) => {
                    let m: usize = frames[i].arguments.len();
                    let ghost args = fs[i as int].arguments;
                    let ghost added = frame_forwardings(fs[i as int], urns);
                    proof {
                        lemma_pars(frames@[i as int].arguments@);
                        assert(added.take(0) =~= Seq::<ForwardingView>::empty());
                        assert(before + added.take(0) =~= before);
                    }
                    for j in 0..m
                        invariant
                            i < frames.len(),
                            m == frames@[i as int].arguments@.len(),
                            urns.contains_key(frames@[i as int].channel@),
                            urns[frames@[i as int].channel@] == channel@,
                            fs[i as int] == frames@[i as int]@,
                            args == fs[i as int].arguments,
                            args.len() == m,
                            forall|k: int|
                                0 <= k < m ==> #[trigger] args[k]
                                    == frames@[i as int].arguments@[k]@,
                            added == frame_forwardings(fs[i as int], urns),
                            forwardings_view(es@) == before + added.take(j as int),
                    {
                        let e = Forwarding::Emit {
                            urn: frames[i].channel.clone(),
                            channel: channel.clone(),
                            argument: frames[i].arguments[j].clone(),
                        };
                        let ghost old_es = es@;
                        es.push(e);
                        proof {
                            assert(args[j as int] == frames@[i as int].arguments@[j as int]@);
                            assert(e@ == added[j as int]);
                            assert(forwardings_view(es@) =~= forwardings_view(old_es).push(e@));
                            assert(added.take(j + 1) =~= added.take(j as int).push(e@));
                            assert(before + added.take(j + 1) =~= (before + added.take(
                                j as int,
                            )).push(e@));
                        }
                    }
                    assert(added.take(m as int) =~= added);
                },
                None => {
                    let e = Forwarding::Skip { urn: frames[i].channel.clone() };
                    let ghost old_es = es@;
                    es.push(e);
                    proof {
                        assert(forwardings_view(es@) =~= forwardings_view(old_es).push(e@));
                        assert(before + frame_forwardings(fs[i as int], urns) =~= before.push(e@));
                    }
                },
            }
        }
        assert(fs.take(n as int) =~= fs);
        es
    }
}

} // verus!
