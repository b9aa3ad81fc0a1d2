//! What each process that calls on a service asks of it, and what it answers for every
//! answer of the service: language models, notifications, the store of documents,
//! MeTTa programs.
use vstd::prelude::*;

use crate::answer_laws::{after, asks, called_with, does, done, refuses, sends_back};
use crate::answer_laws::{sends_or_keeps, takes};
use crate::contract_call::CallView;
use crate::definitions::{ContextView, Handler};
use crate::errors::ErrorView;
use crate::exchange::{AboutView, ActionView, ChatView, ForwardingView, LogLevel, MessageView};
use crate::exchange::{NoteView, ReplyView, StepView};
use crate::par::ParView;
use crate::process_laws::{all_done, run};
use crate::resume::next;
use crate::rho_type::{bool_of, bytes_par, list_of, list_par, nil, number_of, string_of};
use crate::rho_type::string_par;
use crate::service_processes::{forward_step, forwardings, strings_of};
use crate::swi_prolog_service::FrameView;
use crate::text::nat_text;

verus! {

// ---------------------------------------------------------------------------
// Services
// ---------------------------------------------------------------------------
/// The error for a service that failed, with nothing sent.
pub open spec fn failed(cause: ErrorView) -> ErrorView {
    ErrorView::NonDeterministicProcessFailure {
        cause: Box::new(cause),
        output_not_produced: Seq::empty(),
    }
}

/// The process asks a service for this. It sends what the service answers and returns
/// it, or keeps it where it cannot be sent. A failure of the service is an error that
/// holds the cause; it is noted first, in these words, where there are any.
pub open spec fn asks_service(
    urns: Map<Seq<char>, ParView>,
    s: StepView,
    a: ActionView,
    answer: ReplyView,
    output: ParView,
    ack: ParView,
    words: Option<Seq<char>>,
    e: ErrorView,
) -> bool {
    let refused = after(urns, s, ReplyView::Failed(e));
    let over = StepView::Finished(Err(failed(e)));
    &&& asks(s, a)
    &&& takes(s, answer) && takes(s, ReplyView::Failed(e))
    &&& sends_or_keeps(urns, after(urns, s, answer), seq![output], ack)
    &&& match words {
        Some(text) => does(
            urns,
            refused,
            ActionView::Note(
                NoteView { level: LogLevel::Error, text, about: AboutView::Error(e) },
            ),
            over,
        ),
        None => refused == over,
    }
}

/// A prompt goes to the service as it is, and what the service answers is sent on the
/// channel, as a string. A replay sends and returns what was recorded. What is no string
/// is refused.
pub proof fn law_a_prompt_is_answered(
    h: Handler,
    urns: Map<Seq<char>, ParView>,
    context: ContextView,
    call: CallView,
    id: Seq<char>,
    p: ParView,
    ack: ParView,
    answer: Seq<char>,
    e: ErrorView,
)
    requires
        h == Handler::Gpt4 || h == Handler::Dalle3,
        called_with(call, seq![p, ack]),
    ensures
        h.step(context, call, id) matches Some(s) && match string_of(p) {
            Some(prompt) => if call.is_replay {
                sends_back(urns, s, call.previous_output, ack)
            } else {
                asks_service(
                    urns,
                    s,
                    if h == Handler::Gpt4 {
                        ActionView::Gpt4(prompt)
                    } else {
                        ActionView::Dalle3(prompt)
                    },
                    ReplyView::Text(answer),
                    string_par(answer),
                    ack,
                    None,
                    e,
                )
            },
            None => refuses(
                s,
                if h == Handler::Gpt4 {
                    "gpt4"@
                } else {
                    "dalle3"@
                },
            ),
        },
{
}

/// A text is spoken as it is, into a file that the identifier names, and the bytes of
/// the speech are sent on the channel. A replay sends and returns what was recorded. What
/// is no string is refused.
pub proof fn law_a_text_is_spoken(
    urns: Map<Seq<char>, ParView>,
    context: ContextView,
    call: CallView,
    id: Seq<char>,
    p: ParView,
    ack: ParView,
    speech: Seq<u8>,
    e: ErrorView,
)
    requires
        called_with(call, seq![p, ack]),
    ensures
        Handler::TextToAudio.step(context, call, id) matches Some(s) && match string_of(p) {
            Some(input) => if call.is_replay {
                sends_back(urns, s, call.previous_output, ack)
            } else {
                asks_service(
                    urns,
                    s,
                    ActionView::Speak { input, path: "audio_"@ + id + ".mp3"@ },
                    ReplyView::Bytes(speech),
                    bytes_par(speech),
                    ack,
                    None,
                    e,
                )
            },
            None => refuses(s, "text_to_audio"@),
        },
{
}

/// A model is given a prompt: in a chat, as the one message of a user; otherwise as it
/// is. What it answers is sent on the channel, as a string. A replay sends and returns
/// what was recorded. What is no string is refused, in words that tell which it is.
pub proof fn law_a_model_answers(
    h: Handler,
    urns: Map<Seq<char>, ParView>,
    context: ContextView,
    call: CallView,
    id: Seq<char>,
    m: ParView,
    p: ParView,
    ack: ParView,
    answer: Seq<char>,
    e: ErrorView,
)
    requires
        h == Handler::OllamaChat || h == Handler::OllamaGenerate,
        called_with(call, seq![m, p, ack]),
    ensures
        h.step(context, call, id) matches Some(s) && if call.is_replay {
            sends_back(urns, s, call.previous_output, ack)
        } else {
            match (string_of(m), string_of(p)) {
                (Some(model), Some(prompt)) => if h == Handler::OllamaChat {
                    asks_service(
                        urns,
                        s,
                        ActionView::OllamaChat {
                            model,
                            messages: seq![ChatView { role: "user"@, content: prompt }],
                        },
                        ReplyView::Text(answer),
                        string_par(answer),
                        ack,
                        Some("Ollama chat request failed"@),
                        e,
                    )
                } else {
                    asks_service(
                        urns,
                        s,
                        ActionView::OllamaGenerate { model, prompt },
                        ReplyView::Text(answer),
                        string_par(answer),
                        ack,
                        Some("Ollama generate request failed"@),
                        e,
                    )
                },
                (None, _) => refuses(
                    s,
                    if h == Handler::OllamaChat {
                        "ollama_chat: model must be a string"@
                    } else {
                        "ollama_generate: model must be a string"@
                    },
                ),
                (Some(_), None) => refuses(
                    s,
                    if h == Handler::OllamaChat {
                        "ollama_chat: prompt must be a string"@
                    } else {
                        "ollama_generate: prompt must be a string"@
                    },
                ),
            }
        },
{
}

/// The models that there are are sent on the channel as a list of strings, each of them
/// and in their order. A replay sends and returns what was recorded.
pub proof fn law_the_models_are_listed(
    urns: Map<Seq<char>, ParView>,
    context: ContextView,
    call: CallView,
    id: Seq<char>,
    ack: ParView,
    models: Seq<Seq<char>>,
    e: ErrorView,
)
    requires
        called_with(call, seq![ack]),
    ensures
        Handler::OllamaModels.step(context, call, id) matches Some(s) && if call.is_replay {
            sends_back(urns, s, call.previous_output, ack)
        } else {
            asks_service(
                urns,
                s,
                ActionView::OllamaModels,
                ReplyView::Texts(models),
                list_par(models.map_values(|m: Seq<char>| string_par(m))),
                ack,
                Some("Ollama models list request failed"@),
                e,
            )
        },
{
    let listed = Seq::new(models.len(), |i: int| string_par(models[i]));
    assert(listed =~= models.map_values(|m: Seq<char>| string_par(m)));
}

/// A client is notified at the host and the port that are told, with the payload as it
/// is. That it was, or was not, is noted; the first comes to `Nil`, the second to an error
/// that holds the cause. A port below zero is an error. Arguments of another kind are
/// noted and refused. A replay is noted, and returns what was recorded.
pub proof fn law_a_client_is_notified(
    urns: Map<Seq<char>, ParView>,
    context: ContextView,
    call: CallView,
    id: Seq<char>,
    args: Seq<ParView>,
    text: Seq<char>,
)
    requires
        called_with(call, args),
        args.len() == 3 || call.is_replay,
    ensures
        Handler::GrpcTell.step(context, call, id) matches Some(s) && if call.is_replay {
            does(
                urns,
                s,
                ActionView::Note(
                    NoteView {
                        level: LogLevel::Debug,
                        text: "grpcTell (replay): args: "@,
                        about: AboutView::Args(args),
                    },
                ),
                done(call.previous_output),
            )
        } else {
            match (string_of(args[0]), number_of(args[1]), string_of(args[2])) {
                (Some(host), Some(port), Some(payload)) => if port < 0 {
                    s == StepView::Finished(
                        Err(ErrorView::BugFoundError("Invalid port number: must be non-negative"@)),
                    )
                } else {
                    let told = after(urns, s, ReplyView::Done);
                    let not_told = after(urns, s, ReplyView::Fault(text));
                    &&& asks(s, ActionView::Tell { host, port: port as u64, payload })
                    &&& takes(s, ReplyView::Done) && takes(s, ReplyView::Fault(text))
                    &&& does(
                        urns,
                        told,
                        ActionView::Note(
                            NoteView {
                                level: LogLevel::Debug,
                                text: "grpcTell: successfully sent to "@ + host + ":"@ + nat_text(
                                    port as nat,
                                ),
                                about: AboutView::Nothing,
                            },
                        ),
                        done(seq![nil()]),
                    )
                    &&& does(
                        urns,
                        not_told,
                        ActionView::Note(
                            NoteView {
                                level: LogLevel::Warn,
                                text: "GrpcClient error: "@ + text,
                                about: AboutView::Nothing,
                            },
                        ),
                        StepView::Finished(
                            Err(failed(ErrorView::BugFoundError("gRPC client error: "@ + text))),
                        ),
                    )
                },
                _ => does(
                    urns,
                    s,
                    ActionView::Note(
                        NoteView {
                            level: LogLevel::Warn,
                            text: "grpcTell: invalid argument types: "@,
                            about: AboutView::Args(args),
                        },
                    ),
                    StepView::Finished(Err(ErrorView::IllegalArgumentError("grpc_tell"@))),
                ),
            }
        },
{
}

// ---------------------------------------------------------------------------
// The store of documents
// ---------------------------------------------------------------------------
/// The process asks the store for a change. Once it is made, this is sent on the channel
/// and returned; where it fails, the process does, with the same error.
pub open spec fn changes_store(
    urns: Map<Seq<char>, ParView>,
    s: StepView,
    a: ActionView,
    output: ParView,
    ack: ParView,
    e: ErrorView,
) -> bool {
    &&& asks(s, a)
    &&& takes(s, ReplyView::Done) && takes(s, ReplyView::Failed(e))
    &&& sends_back(urns, after(urns, s, ReplyView::Done), seq![output], ack)
    &&& after(urns, s, ReplyView::Failed(e)) == StepView::Finished(Err(e))
}

/// What the store cannot read is refused.
pub open spec fn may_be_unreadable(
    urns: Map<Seq<char>, ParView>,
    s: StepView,
    words: Seq<char>,
) -> bool {
    takes(s, ReplyView::Malformed) && refuses(after(urns, s, ReplyView::Malformed), words)
}

/// A collection is made under its name, anew or over an old one as is told, with the
/// metadata that come, or without where they are `Nil`; it is acknowledged with `Nil`.
/// Metadata that the store cannot read are refused, and so are arguments of another kind.
pub proof fn law_a_collection_is_made(
    urns: Map<Seq<char>, ParView>,
    context: ContextView,
    call: CallView,
    id: Seq<char>,
    name: ParView,
    update: ParView,
    metadata: ParView,
    ack: ParView,
    e: ErrorView,
)
    requires
        called_with(call, seq![name, update, metadata, ack]),
    ensures
        Handler::ChromaCreateCollection.step(context, call, id) matches Some(s) && match (
            string_of(name),
            bool_of(update),
        ) {
            (Some(n), Some(u)) => {
                let given = if metadata == nil() {
                    None
                } else {
                    Some(metadata)
                };
                &&& changes_store(
                    urns,
                    s,
                    ActionView::CreateCollection { name: n, update: u, metadata: given },
                    nil(),
                    ack,
                    e,
                )
                &&& metadata != nil() ==> may_be_unreadable(urns, s, "chroma_create_collection"@)
                &&& metadata == nil() ==> !takes(s, ReplyView::Malformed)
            },
            _ => refuses(s, "chroma_create_collection"@),
        },
{
}

/// Entries are stored in the collection of their name, as they come, and documents are
/// deleted from it by their names; both are acknowledged with the collection's name. What
/// the store cannot read is refused, and so are arguments of another kind.
pub proof fn law_a_collection_is_changed(
    urns: Map<Seq<char>, ParView>,
    context: ContextView,
    call: CallView,
    id: Seq<char>,
    name: ParView,
    p: ParView,
    ack: ParView,
    e: ErrorView,
)
    requires
        called_with(call, seq![name, p, ack]),
    ensures
        Handler::ChromaUpsertEntries.step(context, call, id) matches Some(s) && match string_of(
            name,
        ) {
            Some(n) => changes_store(
                urns,
                s,
                ActionView::UpsertEntries { name: n, entries: p },
                string_par(n),
                ack,
                e,
            ) && may_be_unreadable(urns, s, "chroma_upsert_entries"@),
            None => refuses(s, "chroma_upsert_entries"@),
        },
        Handler::ChromaDeleteDocuments.step(context, call, id) matches Some(s) && match (
            string_of(name),
            strings_of(p),
        ) {
            (Some(n), Some(ids)) => changes_store(
                urns,
                s,
                ActionView::DeleteDocuments { name: n, ids },
                string_par(n),
                ack,
                e,
            ) && !takes(s, ReplyView::Malformed),
            _ => refuses(s, "chroma_delete_documents"@),
        },
{
}

/// The metadata of the collection of a name are sent on the channel, and `Nil` where it
/// has none. A replay sends and returns what was recorded. What is no string is refused.
pub proof fn law_metadata_are_told(
    urns: Map<Seq<char>, ParView>,
    context: ContextView,
    call: CallView,
    id: Seq<char>,
    name: ParView,
    ack: ParView,
    metadata: ParView,
    e: ErrorView,
)
    requires
        called_with(call, seq![name, ack]),
    ensures
        Handler::ChromaGetCollectionMeta.step(context, call, id) matches Some(s) && match string_of(
            name,
        ) {
            Some(n) => if call.is_replay {
                sends_back(urns, s, call.previous_output, ack)
            } else {
                let some = ReplyView::MaybePar(Some(metadata));
                let none = ReplyView::MaybePar(None);
                &&& asks(s, ActionView::CollectionMeta(n))
                &&& takes(s, some) && takes(s, none) && takes(s, ReplyView::Failed(e))
                &&& sends_back(urns, after(urns, s, some), seq![metadata], ack)
                &&& sends_back(urns, after(urns, s, none), seq![nil()], ack)
                &&& after(urns, s, ReplyView::Failed(e)) == StepView::Finished(Err(e))
            },
            None => refuses(s, "chroma_get_collection_meta"@),
        },
{
}

/// The collection of a name is asked for each of the texts, and what it finds is sent on
/// the channel as a list, all of it and in its order. A replay sends and returns what was
/// recorded. Arguments of another kind are refused.
pub proof fn law_documents_are_found(
    urns: Map<Seq<char>, ParView>,
    context: ContextView,
    call: CallView,
    id: Seq<char>,
    name: ParView,
    p: ParView,
    ack: ParView,
    found: Seq<ParView>,
    e: ErrorView,
)
    requires
        called_with(call, seq![name, p, ack]),
    ensures
        Handler::ChromaQuery.step(context, call, id) matches Some(s) && match (
            string_of(name),
            strings_of(p),
        ) {
            (Some(n), Some(texts)) => if call.is_replay {
                sends_back(urns, s, call.previous_output, ack)
            } else {
                &&& asks(s, ActionView::QueryCollection { name: n, texts })
                &&& takes(s, ReplyView::Pars(found)) && takes(s, ReplyView::Failed(e))
                &&& sends_back(
                    urns,
                    after(urns, s, ReplyView::Pars(found)),
                    seq![list_par(found)],
                    ack,
                )
                &&& after(urns, s, ReplyView::Failed(e)) == StepView::Finished(Err(e))
            },
            _ => refuses(s, "chroma_query"@),
        },
{
}

/// Strings are read from a list exactly if it holds nothing else: as many, in their
/// order, each as it is.
pub proof fn law_strings_of_a_list(p: ParView, ps: Seq<ParView>, texts: Seq<Seq<char>>)
    ensures
        list_of(p) is None ==> strings_of(p) is None,
        list_of(p) == Some(ps) ==> (strings_of(p) == Some(texts) <==> texts.len() == ps.len() && (
        forall|i: int| 0 <= i < ps.len() ==> string_of(#[trigger] ps[i]) == Some(texts[i]))),
{
    if list_of(p) == Some(ps) && texts.len() == ps.len() && (forall|i: int|
        0 <= i < ps.len() ==> string_of(#[trigger] ps[i]) == Some(texts[i])) {
        assert(strings_of(p)->0 =~= texts);
    }
}

// ---------------------------------------------------------------------------
// MeTTa programs
// ---------------------------------------------------------------------------
/// A frame more is dealt with behind those before it: each of its arguments is sent by
/// itself and in order where its channel leads, and nothing is where it leads nowhere.
pub proof fn law_what_one_more_frame_adds(
    fs: Seq<FrameView>,
    f: FrameView,
    urns: Map<Seq<char>, ParView>,
    i: int,
)
    ensures
        forwardings(Seq::empty(), urns) == Seq::<ForwardingView>::empty(),
        ({
            let before = forwardings(fs, urns);
            let all = forwardings(fs.push(f), urns);
            &&& 0 <= i < before.len() ==> all[i] == before[i]
            &&& if urns.contains_key(f.channel) {
                &&& all.len() == before.len() + f.arguments.len()
                &&& 0 <= i < f.arguments.len() ==> all[before.len() + i] == (ForwardingView::Emit {
                    urn: f.channel,
                    channel: urns[f.channel],
                    argument: f.arguments[i],
                })
            } else {
                &&& all.len() == before.len() + 1
                &&& all[before.len() as int] == (ForwardingView::Skip { urn: f.channel })
            }
        }),
{
    assert(fs.push(f).drop_last() =~= fs);
    assert(fs.push(f).last() == f);
}

proof fn lemma_forwarding(
    urns: Map<Seq<char>, ParView>,
    fs: Seq<ForwardingView>,
    random_state: Seq<u8>,
    output: Seq<ParView>,
    ack: ParView,
    k: nat,
)
    requires
        k <= fs.len(),
    ensures
        run(urns, forward_step(fs, random_state, output, ack), all_done(k)) == forward_step(
            fs.skip(k as int),
            random_state,
            output,
            ack,
        ),
    decreases k,
{
    let s = forward_step(fs, random_state, output, ack);
    if k > 0 {
        let rest = fs.drop_first();
        assert(all_done(k).drop_first() =~= all_done((k - 1) as nat));
        lemma_forwarding(urns, rest, random_state, output, ack, (k - 1) as nat);
        assert(next(urns, s->Perform_1, ReplyView::Done) == forward_step(
            rest,
            random_state,
            output,
            ack,
        ));
        assert(rest.skip(k - 1) =~= fs.skip(k as int));
    } else {
        assert(fs.skip(0) =~= fs);
    }
}

/// A program is run as it is. What it printed is dealt with thing by thing, in order:
/// sent by itself, with the randomness of the call, or noted as going nowhere. Only then
/// its result is sent on the channel of the call, and returned, or kept where it cannot
/// be sent. Where something that it printed cannot be sent, that is an error that tells
/// where it was to go, and the result is not sent.
pub proof fn law_a_program_is_run(
    urns: Map<Seq<char>, ParView>,
    context: ContextView,
    call: CallView,
    id: Seq<char>,
    p: ParView,
    ack: ParView,
    code: Seq<char>,
    frames: Seq<FrameView>,
    result: ParView,
    k: nat,
    text: Seq<char>,
    e: ErrorView,
)
    requires
        called_with(call, seq![p, ack]),
        string_of(p) == Some(code),
        !call.is_replay,
        k <= forwardings(frames, urns).len(),
    ensures
        ({
            let s = Handler::PettaExecute.step(context, call, id)->0;
            let reply = ReplyView::Petta { frames, result };
            let fs = forwardings(frames, urns);
            let at = run(urns, after(urns, s, reply), all_done(k));
            &&& Handler::PettaExecute.step(context, call, id) is Some
            &&& asks(s, ActionView::RunPetta(code))
            &&& takes(s, reply) && takes(s, ReplyView::Failed(e))
            &&& after(urns, s, ReplyView::Failed(e)) == StepView::Finished(Err(failed(e)))
            &&& if k == fs.len() {
                sends_or_keeps(urns, at, seq![result], ack)
            } else {
                match fs[k as int] {
                    ForwardingView::Emit { urn, channel, argument } => {
                        &&& asks(
                            at,
                            ActionView::Emit {
                                message: MessageView {
                                    pars: seq![argument],
                                    random_state: call.messages[0].random_state,
                                },
                                channel,
                            },
                        )
                        &&& takes(at, ReplyView::Done) && takes(at, ReplyView::Fault(text))
                        &&& after(urns, at, ReplyView::Fault(text)) == StepView::Finished(
                            Err(
                                failed(
                                    failed(
                                        ErrorView::SwiplError(
                                            "Failed to produce on channel "@ + urn + ": "@ + text,
                                        ),
                                    ),
                                ),
                            ),
                        )
                    },
                    ForwardingView::Skip { urn } => asks(
                        at,
                        ActionView::Note(
                            NoteView {
                                level: LogLevel::Warn,
                                text: "Unknown channel URN in frame: "@ + urn,
                                about: AboutView::Petta,
                            },
                        ),
                    ) && takes(at, ReplyView::Done),
                }
            }
        }),
{
    let fs = forwardings(frames, urns);
    lemma_forwarding(urns, fs, call.messages[0].random_state, seq![result], ack, k);
    if k < fs.len() {
        assert(fs.skip(k as int)[0] == fs[k as int]);
    }
}

/// A replay runs nothing: it sends what was recorded on the channel of the call and
/// returns it, or keeps it where it cannot be sent. What is no string is refused.
pub proof fn law_a_program_is_not_run_again(
    urns: Map<Seq<char>, ParView>,
    context: ContextView,
    call: CallView,
    id: Seq<char>,
    p: ParView,
    ack: ParView,
)
    requires
        called_with(call, seq![p, ack]),
    ensures
        Handler::PettaExecute.step(context, call, id) matches Some(s) && if string_of(p) is None {
            refuses(s, "petta_execute"@)
        } else {
            call.is_replay ==> sends_or_keeps(urns, s, call.previous_output, ack)
        },
{
}

} // verus!
