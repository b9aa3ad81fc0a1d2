//! What a system process and its host say to each other.
//!
//! A system process decides, and its host acts: it sends on channels, prints,
//! calls services and runs programs. A call of a system process yields a [`Step`].
//! Where the step asks for an action, the host performs it and resumes the
//! process with the [`Reply`], until a step is the last.
use vstd::prelude::*;

use crate::errors::{ErrorView, InterpreterError};
use crate::par::{pars_view, Par, ParView};
use crate::rho_type::{par_opt_view, text_view};
use crate::swi_prolog_service::{frames_view, Frame, FrameView};

verus! {

/// What was sent on a channel, with the state of the randomness that it brings.
#[derive(Debug, PartialEq, Eq)]
pub struct ListParWithRandom {
    pub pars: Vec<Par>,
    pub random_state: Vec<u8>,
}

#[verifier::ext_equal]
pub struct MessageView {
    pub pars: Seq<ParView>,
    pub random_state: Seq<u8>,
}

impl View for ListParWithRandom {
    type V = MessageView;

    open spec fn view(&self) -> MessageView {
        MessageView { pars: pars_view(self.pars@), random_state: self.random_state@ }
    }
}

pub open spec fn messages_view(ms: Seq<ListParWithRandom>) -> Seq<MessageView> {
    Seq::new(ms.len(), |i: int| ms[i]@)
}

pub open spec fn texts_view(ts: Seq<String>) -> Seq<Seq<char>> {
    Seq::new(ts.len(), |i: int| ts[i]@)
}

#[derive(Debug, Clone, Copy, PartialEq, Eq, Structural)]
pub enum HashAlgorithm {
    Sha256,
    Keccak256,
    Blake2b256,
}

#[derive(Debug, Clone, Copy, PartialEq, Eq, Structural)]
pub enum SignatureAlgorithm {
    Secp256k1,
    Ed25519,
}

#[derive(Debug, Clone, Copy, PartialEq, Eq, Structural)]
pub enum Stream {
    Output,
    Errors,
}

#[derive(Debug, Clone, Copy, PartialEq, Eq, Structural)]
pub enum LogLevel {
    Trace,
    Debug,
    Info,
    Warn,
    Error,
}

/// A message in a chat with a language model.
#[derive(Debug, PartialEq, Eq)]
pub struct ChatMessage {
    pub role: String,
    pub content: String,
}

#[verifier::ext_equal]
pub struct ChatView {
    pub role: Seq<char>,
    pub content: Seq<char>,
}

impl View for ChatMessage {
    type V = ChatView;

    open spec fn view(&self) -> ChatView {
        ChatView { role: self.role@, content: self.content@ }
    }
}

pub open spec fn chat_view(ms: Seq<ChatMessage>) -> Seq<ChatView> {
    Seq::new(ms.len(), |i: int| ms[i]@)
}

/// The parts of a versioned URN. One that names the registry has no key and no
/// project.
#[derive(Debug, PartialEq, Eq)]
pub struct ParsedUrn {
    pub namespace: String,
    pub service_version: String,
    pub pub_key: Option<String>,
    pub project_id: Option<String>,
    pub project_version: Option<String>,
}

#[verifier::ext_equal]
pub struct UrnView {
    pub namespace: Seq<char>,
    pub service_version: Seq<char>,
    pub pub_key: Option<Seq<char>>,
    pub project_id: Option<Seq<char>>,
    pub project_version: Option<Seq<char>>,
}

impl View for ParsedUrn {
    type V = UrnView;

    open spec fn view(&self) -> UrnView {
        UrnView {
            namespace: self.namespace@,
            service_version: self.service_version@,
            pub_key: text_view(self.pub_key),
            project_id: text_view(self.project_id),
            project_version: text_view(self.project_version),
        }
    }
}

pub open spec fn urn_opt_view(o: Option<ParsedUrn>) -> Option<UrnView> {
    match o {
        Some(u) => Some(u@),
        None => None,
    }
}

/// What a note for the log is about, beyond its words.
#[derive(Debug, PartialEq, Eq)]
pub enum About {
    Nothing,
    /// A MeTTa program, whose notes are kept apart.
    Petta,
    /// The arguments of a call, to be written in full behind the words.
    Args(Vec<Par>),
    /// An error, to be written in full beside the words.
    Error(InterpreterError),
}

#[verifier::ext_equal]
pub enum AboutView {
    Nothing,
    Petta,
    Args(Seq<ParView>),
    Error(ErrorView),
}

impl View for About {
    type V = AboutView;

    open spec fn view(&self) -> AboutView {
        match self {
            About::Nothing => AboutView::Nothing,
            About::Petta => AboutView::Petta,
            About::Args(ps) => AboutView::Args(pars_view(ps@)),
            About::Error(e) => AboutView::Error(e@),
        }
    }
}

/// A note for the log of the node.
#[derive(Debug, PartialEq, Eq)]
pub struct Note {
    pub level: LogLevel,
    pub text: String,
    pub about: About,
}

#[verifier::ext_equal]
pub struct NoteView {
    pub level: LogLevel,
    pub text: Seq<char>,
    pub about: AboutView,
}

impl View for Note {
    type V = NoteView;

    open spec fn view(&self) -> NoteView {
        NoteView { level: self.level, text: self.text@, about: self.about@ }
    }
}

/// What a host is asked to do.
#[derive(Debug, PartialEq, Eq)]
pub enum Action {
    /// Send on a channel, on behalf of the call.
    Produce { data: Vec<Par>, channel: Par },
    /// Send what a program printed on a channel. It is sent once: it does not persist
    /// when it is received.
    Emit { message: ListParWithRandom, channel: Par },
    /// Print a process as a line.
    Print { stream: Stream, message: Par },
    Log { level: LogLevel, message: Par },
    /// Note why an execution was aborted.
    LogAbort(Par),
    /// Note something about the call.
    Note(Note),
    Hash { algorithm: HashAlgorithm, data: Vec<u8> },
    Verify {
        algorithm: SignatureAlgorithm,
        data: Vec<u8>,
        signature: Vec<u8>,
        key: Vec<u8>,
    },
    /// Write a hash as a registry URI.
    BuildUri(Vec<u8>),
    /// Parse a vault address, and tell what is wrong with it.
    ParseAddress(String),
    /// Write the vault address of a public key.
    AddressOfKey(Vec<u8>),
    /// Write the vault address of a deployer.
    AddressOfDeployer(Vec<u8>),
    /// Write the vault address of a private name.
    AddressOfName(Vec<u8>),
    ParseUrn(String),
    /// Tell whether a text is a version pattern, and which texts are versions.
    ReadVersions { pattern: String, versions: Vec<String> },
    /// Tell whether a version satisfies a pattern.
    MatchVersion { pattern: String, version: String },
    /// Write the highest version that satisfies a pattern.
    BestVersion { pattern: String, versions: Vec<String> },
    Gpt4(String),
    Dalle3(String),
    /// Speak a text, into a file and as bytes.
    Speak { input: String, path: String },
    OllamaChat { model: String, messages: Vec<ChatMessage> },
    OllamaGenerate { model: String, prompt: String },
    OllamaModels,
    /// Notify a gRPC client.
    Tell { host: String, port: u64, payload: String },
    CreateCollection { name: String, update: bool, metadata: Option<Par> },
    CollectionMeta(String),
    UpsertEntries { name: String, entries: Par },
    QueryCollection { name: String, texts: Vec<String> },
    DeleteDocuments { name: String, ids: Vec<String> },
    /// Run a MeTTa program.
    RunPetta(String),
    /// Print two processes as text.
    Render { actual: Par, expected: Par },
    /// Print a process in full detail.
    Describe(Par),
}

#[verifier::ext_equal]
pub enum ActionView {
    Produce { data: Seq<ParView>, channel: ParView },
    Emit { message: MessageView, channel: ParView },
    Print { stream: Stream, message: ParView },
    Log { level: LogLevel, message: ParView },
    LogAbort(ParView),
    Note(NoteView),
    Hash { algorithm: HashAlgorithm, data: Seq<u8> },
    Verify {
        algorithm: SignatureAlgorithm,
        data: Seq<u8>,
        signature: Seq<u8>,
        key: Seq<u8>,
    },
    BuildUri(Seq<u8>),
    ParseAddress(Seq<char>),
    AddressOfKey(Seq<u8>),
    AddressOfDeployer(Seq<u8>),
    AddressOfName(Seq<u8>),
    ParseUrn(Seq<char>),
    ReadVersions { pattern: Seq<char>, versions: Seq<Seq<char>> },
    MatchVersion { pattern: Seq<char>, version: Seq<char> },
    BestVersion { pattern: Seq<char>, versions: Seq<Seq<char>> },
    Gpt4(Seq<char>),
    Dalle3(Seq<char>),
    Speak { input: Seq<char>, path: Seq<char> },
    OllamaChat { model: Seq<char>, messages: Seq<ChatView> },
    OllamaGenerate { model: Seq<char>, prompt: Seq<char> },
    OllamaModels,
    Tell { host: Seq<char>, port: u64, payload: Seq<char> },
    CreateCollection { name: Seq<char>, update: bool, metadata: Option<ParView> },
    CollectionMeta(Seq<char>),
    UpsertEntries { name: Seq<char>, entries: ParView },
    QueryCollection { name: Seq<char>, texts: Seq<Seq<char>> },
    DeleteDocuments { name: Seq<char>, ids: Seq<Seq<char>> },
    RunPetta(Seq<char>),
    Render { actual: ParView, expected: ParView },
    Describe(ParView),
}

impl View for Action {
    type V = ActionView;

    open spec fn view(&self) -> ActionView {
        match self {
            Action::Produce { data, channel } => ActionView::Produce {
                data: pars_view(data@),
                channel: channel@,
            },
            Action::Emit { message, channel } => ActionView::Emit {
                message: message@,
                channel: channel@,
            },
            Action::Print { stream, message } => ActionView::Print {
                stream: *stream,
                message: message@,
            },
            Action::Log { level, message } => ActionView::Log { level: *level, message: message@ },
            Action::LogAbort(p) => ActionView::LogAbort(p@),
            Action::Note(n) => ActionView::Note(n@),
            Action::Hash { algorithm, data } => ActionView::Hash {
                algorithm: *algorithm,
                data: data@,
            },
            Action::Verify { algorithm, data, signature, key } => ActionView::Verify {
                algorithm: *algorithm,
                data: data@,
                signature: signature@,
                key: key@,
            },
            Action::BuildUri(b) => ActionView::BuildUri(b@),
            Action::ParseAddress(s) => ActionView::ParseAddress(s@),
            Action::AddressOfKey(b) => ActionView::AddressOfKey(b@),
            Action::AddressOfDeployer(b) => ActionView::AddressOfDeployer(b@),
            Action::AddressOfName(b) => ActionView::AddressOfName(b@),
            Action::ParseUrn(s) => ActionView::ParseUrn(s@),
            Action::ReadVersions { pattern, versions } => ActionView::ReadVersions {
                pattern: pattern@,
                versions: texts_view(versions@),
            },
            Action::MatchVersion { pattern, version } => ActionView::MatchVersion {
                pattern: pattern@,
                version: version@,
            },
            Action::BestVersion { pattern, versions } => ActionView::BestVersion {
                pattern: pattern@,
                versions: texts_view(versions@),
            },
            Action::Gpt4(s) => ActionView::Gpt4(s@),
            Action::Dalle3(s) => ActionView::Dalle3(s@),
            Action::Speak { input, path } => ActionView::Speak { input: input@, path: path@ },
            Action::OllamaChat { model, messages } => ActionView::OllamaChat {
                model: model@,
                messages: chat_view(messages@),
            },
            Action::OllamaGenerate { model, prompt } => ActionView::OllamaGenerate {
                model: model@,
                prompt: prompt@,
            },
            Action::OllamaModels => ActionView::OllamaModels,
            Action::Tell { host, port, payload } => ActionView::Tell {
                host: host@,
                port: *port,
                payload: payload@,
            },
            Action::CreateCollection { name, update, metadata } => ActionView::CreateCollection {
                name: name@,
                update: *update,
                metadata: par_opt_view(*metadata),
            },
            Action::CollectionMeta(s) => ActionView::CollectionMeta(s@),
            Action::UpsertEntries { name, entries } => ActionView::UpsertEntries {
                name: name@,
                entries: entries@,
            },
            Action::QueryCollection { name, texts } => ActionView::QueryCollection {
                name: name@,
                texts: texts_view(texts@),
            },
            Action::DeleteDocuments { name, ids } => ActionView::DeleteDocuments {
                name: name@,
                ids: texts_view(ids@),
            },
            Action::RunPetta(s) => ActionView::RunPetta(s@),
            Action::Render { actual, expected } => ActionView::Render {
                actual: actual@,
                expected: expected@,
            },
            Action::Describe(p) => ActionView::Describe(p@),
        }
    }
}

/// What a host answers.
#[derive(Debug, PartialEq, Eq)]
pub enum Reply {
    Done,
    /// Sent, with what the runtime made of it.
    Produced(Vec<Par>),
    Failed(InterpreterError),
    /// A failure, by its text.
    Fault(String),
    /// An argument that the service cannot read, so that nothing was done.
    Malformed,
    Bytes(Vec<u8>),
    Text(String),
    Texts(Vec<String>),
    Flag(bool),
    MaybeText(Option<String>),
    Urn(Option<ParsedUrn>),
    /// Whether the pattern is one, and for each version whether it is one.
    Versions { pattern: bool, versions: Vec<bool> },
    MaybePar(Option<Par>),
    Pars(Vec<Par>),
    /// What a MeTTa program printed, and what it came to.
    Petta { frames: Vec<Frame>, result: Par },
    Rendered { actual: String, expected: String },
}

#[verifier::ext_equal]
pub enum ReplyView {
    Done,
    Produced(Seq<ParView>),
    Failed(ErrorView),
    Fault(Seq<char>),
    Malformed,
    Bytes(Seq<u8>),
    Text(Seq<char>),
    Texts(Seq<Seq<char>>),
    Flag(bool),
    MaybeText(Option<Seq<char>>),
    Urn(Option<UrnView>),
    Versions { pattern: bool, versions: Seq<bool> },
    MaybePar(Option<ParView>),
    Pars(Seq<ParView>),
    Petta { frames: Seq<FrameView>, result: ParView },
    Rendered { actual: Seq<char>, expected: Seq<char> },
}

impl View for Reply {
    type V = ReplyView;

    open spec fn view(&self) -> ReplyView {
        match self {
            Reply::Done => ReplyView::Done,
            Reply::Produced(ps) => ReplyView::Produced(pars_view(ps@)),
            Reply::Failed(e) => ReplyView::Failed(e@),
            Reply::Fault(s) => ReplyView::Fault(s@),
            Reply::Malformed => ReplyView::Malformed,
            Reply::Bytes(b) => ReplyView::Bytes(b@),
            Reply::Text(s) => ReplyView::Text(s@),
            Reply::Texts(ts) => ReplyView::Texts(texts_view(ts@)),
            Reply::Flag(b) => ReplyView::Flag(*b),
            Reply::MaybeText(o) => ReplyView::MaybeText(text_view(*o)),
            Reply::Urn(o) => ReplyView::Urn(urn_opt_view(*o)),
            Reply::Versions { pattern, versions } => ReplyView::Versions {
                pattern: *pattern,
                versions: versions@,
            },
            Reply::MaybePar(o) => ReplyView::MaybePar(par_opt_view(*o)),
            Reply::Pars(ps) => ReplyView::Pars(pars_view(ps@)),
            Reply::Petta { frames, result } => ReplyView::Petta {
                frames: frames_view(frames@),
                result: result@,
            },
            Reply::Rendered { actual, expected } => ReplyView::Rendered {
                actual: actual@,
                expected: expected@,
            },
        }
    }
}

/// What kind of answer a service gives.
#[derive(Debug, Clone, Copy, PartialEq, Eq, Structural)]
pub enum Awaited {
    Text,
    Bytes,
    Texts,
}

/// What becomes of something that a program printed.
#[derive(Debug, PartialEq, Eq)]
pub enum Forwarding {
    /// One thing is sent on a channel. The URN is what the program calls it.
    Emit { urn: String, channel: Par, argument: Par },
    /// A channel is not known, so that nothing is sent.
    Skip { urn: String },
}

#[verifier::ext_equal]
pub enum ForwardingView {
    Emit { urn: Seq<char>, channel: ParView, argument: ParView },
    Skip { urn: Seq<char> },
}

impl View for Forwarding {
    type V = ForwardingView;

    open spec fn view(&self) -> ForwardingView {
        match self {
            Forwarding::Emit { urn, channel, argument } => ForwardingView::Emit {
                urn: urn@,
                channel: channel@,
                argument: argument@,
            },
            Forwarding::Skip { urn } => ForwardingView::Skip { urn: urn@ },
        }
    }
}

pub open spec fn forwardings_view(fs: Seq<Forwarding>) -> Seq<ForwardingView> {
    Seq::new(fs.len(), |i: int| fs[i]@)
}

pub open spec fn outcome_view(r: Result<Vec<Par>, InterpreterError>) -> Result<
    Seq<ParView>,
    ErrorView,
> {
    match r {
        Ok(ps) => Ok(pars_view(ps@)),
        Err(e) => Err(e@),
    }
}

/// What a system process waits for, and what it needs to go on.
#[derive(Debug, PartialEq, Eq)]
pub enum Pending {
    /// Printing or logging, and then nothing.
    Printed,
    /// Printing, and then an acknowledgement.
    PrintedThenAck { ack: Par },
    /// Logging why an execution is aborted.
    Aborting,
    /// A hash to send.
    Hashed { ack: Par },
    /// The outcome of a verification to send.
    Verified { ack: Par },
    /// A hash to make a URI of.
    UriHashed { ack: Par },
    /// A URI to send.
    UriBuilt { ack: Par },
    /// A text to send, or `Nil` in its place.
    TextOrNil { ack: Par },
    /// The parts of a URN to send.
    UrnParsed { ack: Par },
    /// Whether a URN that no table knows is a versioned one.
    LookupParsed { urn: String, ret: Par },
    /// Whether a pattern and a version are such.
    VersionRead { pattern: String, version: String, ack: Par },
    /// Whether a version satisfies a pattern.
    VersionMatched { ack: Par },
    /// Whether a pattern is one, and which candidates are versions.
    VersionsRead { pattern: String, candidates: Vec<String>, ack: Par },
    /// The answer of a service. A failure is noted, where there are words for it.
    Serviced { awaited: Awaited, complaint: Option<String>, ack: Par },
    /// A notification.
    Told { host: String, port: u64 },
    /// A note, and then this is what the process came to.
    Noted { outcome: Result<Vec<Par>, InterpreterError> },
    /// A change to a collection, to be acknowledged with an output. Where it is
    /// not readable, the store may find that it cannot read what it is given.
    Stored { name: String, readable: bool, output: Vec<Par>, ack: Par },
    /// The metadata of a collection.
    MetaFetched { ack: Par },
    /// The documents that a query found.
    QueryFetched { ack: Par },
    /// A MeTTa program.
    PettaRan { random_state: Vec<u8>, ack: Par },
    /// Sending what a program printed, one thing after the other.
    Emitting {
        urn: String,
        rest: Vec<Forwarding>,
        random_state: Vec<u8>,
        output: Vec<Par>,
        ack: Par,
    },
    /// Noting that something a program printed is not sent, and then the rest.
    Skipping { rest: Vec<Forwarding>, random_state: Vec<u8>, output: Vec<Par>, ack: Par },
    /// Sending, and then the output is returned.
    Returning { output: Vec<Par> },
    /// Sending, and then what came of it is returned.
    Passing,
    /// Sending what cannot be had again.
    Keeping { output: Vec<Par> },
    /// Sending the outcome of a test.
    Asserting { condition: bool, message: String, output: Vec<Par> },
    /// Sending the outcome of a comparison.
    Comparing {
        expected: Par,
        actual: Par,
        wanted: bool,
        message: String,
        output: Vec<Par>,
    },
    /// The two sides of a comparison as text.
    Compared { same: bool, wanted: bool, message: String, output: Vec<Par> },
    /// Sending that a test could not be read.
    Unreadable { assertion: Par },
    /// The test that could not be read, in full detail.
    Described,
}

#[verifier::ext_equal]
pub enum PendingView {
    Printed,
    PrintedThenAck { ack: ParView },
    Aborting,
    Hashed { ack: ParView },
    Verified { ack: ParView },
    UriHashed { ack: ParView },
    UriBuilt { ack: ParView },
    TextOrNil { ack: ParView },
    UrnParsed { ack: ParView },
    LookupParsed { urn: Seq<char>, ret: ParView },
    VersionRead { pattern: Seq<char>, version: Seq<char>, ack: ParView },
    VersionMatched { ack: ParView },
    VersionsRead { pattern: Seq<char>, candidates: Seq<Seq<char>>, ack: ParView },
    Serviced { awaited: Awaited, complaint: Option<Seq<char>>, ack: ParView },
    Told { host: Seq<char>, port: u64 },
    Noted { outcome: Result<Seq<ParView>, ErrorView> },
    Stored { name: Seq<char>, readable: bool, output: Seq<ParView>, ack: ParView },
    MetaFetched { ack: ParView },
    QueryFetched { ack: ParView },
    PettaRan { random_state: Seq<u8>, ack: ParView },
    Emitting {
        urn: Seq<char>,
        rest: Seq<ForwardingView>,
        random_state: Seq<u8>,
        output: Seq<ParView>,
        ack: ParView,
    },
    Skipping {
        rest: Seq<ForwardingView>,
        random_state: Seq<u8>,
        output: Seq<ParView>,
        ack: ParView,
    },
    Returning { output: Seq<ParView> },
    Passing,
    Keeping { output: Seq<ParView> },
    Asserting { condition: bool, message: Seq<char>, output: Seq<ParView> },
    Comparing {
        expected: ParView,
        actual: ParView,
        wanted: bool,
        message: Seq<char>,
        output: Seq<ParView>,
    },
    Compared { same: bool, wanted: bool, message: Seq<char>, output: Seq<ParView> },
    Unreadable { assertion: ParView },
    Described,
}

impl View for Pending {
    type V = PendingView;

    open spec fn view(&self) -> PendingView {
        match self {
            Pending::Printed => PendingView::Printed,
            Pending::PrintedThenAck { ack } => PendingView::PrintedThenAck { ack: ack@ },
            Pending::Aborting => PendingView::Aborting,
            Pending::Hashed { ack } => PendingView::Hashed { ack: ack@ },
            Pending::Verified { ack } => PendingView::Verified { ack: ack@ },
            Pending::UriHashed { ack } => PendingView::UriHashed { ack: ack@ },
            Pending::UriBuilt { ack } => PendingView::UriBuilt { ack: ack@ },
            Pending::TextOrNil { ack } => PendingView::TextOrNil { ack: ack@ },
            Pending::UrnParsed { ack } => PendingView::UrnParsed { ack: ack@ },
            Pending::LookupParsed { urn, ret } => PendingView::LookupParsed {
                urn: urn@,
                ret: ret@,
            },
            Pending::VersionRead { pattern, version, ack } => PendingView::VersionRead {
                pattern: pattern@,
                version: version@,
                ack: ack@,
            },
            Pending::VersionMatched { ack } => PendingView::VersionMatched { ack: ack@ },
            Pending::VersionsRead { pattern, candidates, ack } => PendingView::VersionsRead {
                pattern: pattern@,
                candidates: texts_view(candidates@),
                ack: ack@,
            },
            Pending::Serviced { awaited, complaint, ack } => PendingView::Serviced {
                awaited: *awaited,
                complaint: text_view(*complaint),
                ack: ack@,
            },
            Pending::Told { host, port } => PendingView::Told { host: host@, port: *port },
            Pending::Noted { outcome } => PendingView::Noted { outcome: outcome_view(*outcome) },
            Pending::Stored { name, readable, output, ack } => PendingView::Stored {
                name: name@,
                readable: *readable,
                output: pars_view(output@),
                ack: ack@,
            },
            Pending::MetaFetched { ack } => PendingView::MetaFetched { ack: ack@ },
            Pending::QueryFetched { ack } => PendingView::QueryFetched { ack: ack@ },
            Pending::PettaRan { random_state, ack } => PendingView::PettaRan {
                random_state: random_state@,
                ack: ack@,
            },
            Pending::Emitting { urn, rest, random_state, output, ack } => PendingView::Emitting {
                urn: urn@,
                rest: forwardings_view(rest@),
                random_state: random_state@,
                output: pars_view(output@),
                ack: ack@,
            },
            Pending::Skipping { rest, random_state, output, ack } => PendingView::Skipping {
                rest: forwardings_view(rest@),
                random_state: random_state@,
                output: pars_view(output@),
                ack: ack@,
            },
            Pending::Returning { output } => PendingView::Returning {
                output: pars_view(output@),
            },
            Pending::Passing => PendingView::Passing,
            Pending::Keeping { output } => PendingView::Keeping { output: pars_view(output@) },
            Pending::Asserting { condition, message, output } => PendingView::Asserting {
                condition: *condition,
                message: message@,
                output: pars_view(output@),
            },
            Pending::Comparing { expected, actual, wanted, message, output } => {
                PendingView::Comparing {
                    expected: expected@,
                    actual: actual@,
                    wanted: *wanted,
                    message: message@,
                    output: pars_view(output@),
                }
            },
            Pending::Compared { same, wanted, message, output } => PendingView::Compared {
                same: *same,
                wanted: *wanted,
                message: message@,
                output: pars_view(output@),
            },
            Pending::Unreadable { assertion } => PendingView::Unreadable { assertion: assertion@ },
            Pending::Described => PendingView::Described,
        }
    }
}

/// Whether an answer is one that a waiting process can go on with.
pub open spec fn answers(p: PendingView, r: ReplyView) -> bool {
    match p {
        PendingView::Printed | PendingView::PrintedThenAck { .. } | PendingView::Aborting
        | PendingView::Noted { .. } | PendingView::Skipping { .. } => r is Done,
        PendingView::Hashed { .. } | PendingView::UriHashed { .. } => r is Bytes,
        PendingView::Verified { .. } | PendingView::VersionMatched { .. } => r is Flag,
        PendingView::UriBuilt { .. } | PendingView::Described => r is Text,
        PendingView::TextOrNil { .. } => r is MaybeText,
        PendingView::UrnParsed { .. } | PendingView::LookupParsed { .. } => r is Urn,
        PendingView::VersionRead { .. } => r matches ReplyView::Versions { versions, .. }
            && versions.len() == 1,
        PendingView::VersionsRead { candidates, .. } => r matches ReplyView::Versions {
            versions,
            ..
        } && versions.len() == candidates.len(),
        PendingView::Serviced { awaited, .. } => r is Failed || match awaited {
            Awaited::Text => r is Text,
            Awaited::Bytes => r is Bytes,
            Awaited::Texts => r is Texts,
        },
        PendingView::Told { .. } => r is Done || r is Fault,
        PendingView::Stored { readable, .. } => r is Done || r is Failed || (!readable && r
            is Malformed),
        PendingView::MetaFetched { .. } => r is MaybePar || r is Failed,
        PendingView::QueryFetched { .. } => r is Pars || r is Failed,
        PendingView::PettaRan { .. } => r is Petta || r is Failed,
        PendingView::Emitting { .. } => r is Done || r is Fault,
        PendingView::Returning { .. } | PendingView::Passing | PendingView::Keeping { .. }
        | PendingView::Asserting { .. } | PendingView::Comparing { .. }
        | PendingView::Unreadable { .. } => r is Produced || r is Failed,
        PendingView::Compared { .. } => r is Rendered,
    }
}

impl Pending {
    /// Whether the process can go on with an answer.
    pub fn accepts(&self, reply: &Reply) -> (r: bool)
        ensures
            r == answers(self@, reply@),
    {
        match self {
            Pending::Printed | Pending::PrintedThenAck { .. } | Pending::Aborting
            | Pending::Noted { .. } | Pending::Skipping { .. } => match reply {
                Reply::Done => true,
                _ => false,
            },
            Pending::Hashed { .. } | Pending::UriHashed { .. } => match reply {
                Reply::Bytes(_) => true,
                _ => false,
            },
            Pending::Verified { .. } | Pending::VersionMatched { .. } => match reply {
                Reply::Flag(_) => true,
                _ => false,
            },
            Pending::UriBuilt { .. } | Pending::Described => match reply {
                Reply::Text(_) => true,
                _ => false,
            },
            Pending::TextOrNil { .. } => match reply {
                Reply::MaybeText(_) => true,
                _ => false,
            },
            Pending::UrnParsed { .. } | Pending::LookupParsed { .. } => match reply {
                Reply::Urn(_) => true,
                _ => false,
            },
            Pending::VersionRead { .. } => match reply {
                Reply::Versions { versions, .. } => versions.len() == 1,
                _ => false,
            },
            Pending::VersionsRead { candidates, .. } => match reply {
                Reply::Versions { versions, .. } => versions.len() == candidates.len(),
                _ => false,
            },
            Pending::Serviced { awaited, .. } => match (reply, awaited) {
                (Reply::Failed(_), _) => true,
                (Reply::Text(_), Awaited::Text) => true,
                (Reply::Bytes(_), Awaited::Bytes) => true,
                (Reply::Texts(_), Awaited::Texts) => true,
                _ => false,
            },
            Pending::Told { .. } | Pending::Emitting { .. } => match reply {
                Reply::Done | Reply::Fault(_) => true,
                _ => false,
            },
            Pending::Stored { readable, .. } => match reply {
                Reply::Done | Reply::Failed(_) => true,
                Reply::Malformed => !*readable,
                _ => false,
            },
            Pending::MetaFetched { .. } => match reply {
                Reply::MaybePar(_) | Reply::Failed(_) => true,
                _ => false,
            },
            Pending::QueryFetched { .. } => match reply {
                Reply::Pars(_) | Reply::Failed(_) => true,
                _ => false,
            },
            Pending::PettaRan { .. } => match reply {
                Reply::Petta { .. } | Reply::Failed(_) => true,
                _ => false,
            },
            Pending::Returning { .. } | Pending::Passing | Pending::Keeping { .. }
            | Pending::Asserting { .. } | Pending::Comparing { .. } | Pending::Unreadable { .. } => {
                match reply {
                    Reply::Produced(_) | Reply::Failed(_) => true,
                    _ => false,
                }
            },
            Pending::Compared { .. } => match reply {
                Reply::Rendered { .. } => true,
                _ => false,
            },
        }
    }
}

/// What a system process does next.
#[derive(Debug, PartialEq, Eq)]
pub enum Step {
    /// It is done.
    Finished(Result<Vec<Par>, InterpreterError>),
    /// A test failed, which stops the node that runs it. Tells the test's clue.
    AssertionFailed(String),
    /// It asks for an action, and then waits.
    Perform(Action, Pending),
}

#[verifier::ext_equal]
pub enum StepView {
    Finished(Result<Seq<ParView>, ErrorView>),
    AssertionFailed(Seq<char>),
    Perform(ActionView, PendingView),
}

impl View for Step {
    type V = StepView;

    open spec fn view(&self) -> StepView {
        match self {
            Step::Finished(r) => StepView::Finished(outcome_view(*r)),
            Step::AssertionFailed(s) => StepView::AssertionFailed(s@),
            Step::Perform(a, p) => StepView::Perform(a@, p@),
        }
    }
}

} // verus!
