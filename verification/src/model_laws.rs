//! What the models of values show: every part of a value, in its place.
use vstd::prelude::*;

use crate::contract_call::{call_view, ContractArgs};
use crate::definitions::{Definition, ProcessContext};
use crate::errors::{ErrorView, InterpreterError};
use crate::exchange::{chat_view, forwardings_view, messages_view, outcome_view, texts_view};
use crate::exchange::{About, AboutView, Action, ActionView, ChatMessage, Forwarding};
use crate::exchange::{ForwardingView, ListParWithRandom, Note, ParsedUrn, Reply, ReplyView, Step};
use crate::exchange::{Pending, StepView};
use crate::json::{fields_view, number_text, values_view, Json, JsonNumber, JsonView, NumberView};
use crate::par::{entries_view, pars_view, Bundle, Expr, ExprView, GPrivate, GUnforgeable};
use crate::par::{KeyValuePair, Par, ParView, UnforgeableView};
use crate::rho_type::{blob_view, par_opt_view, pars_opt_view, text_view};
use crate::state::{BlockData, DeployData};
use crate::swi_prolog_service::{frames_view, line_result, par_result, parsed_view, vars_view};
use crate::swi_prolog_service::{Collector, Frame, FramedRun, FramedView, Line, LineView};
use crate::test_utils::{bindings_view, bound_first, first_pos, unmet, BoundMapChain, IdContextPos};
use crate::test_utils::{Prerequisites, VarSort};
use crate::text::{int_text, nat_text};

verus! {

// ---------------------------------------------------------------------------
// Processes
// ---------------------------------------------------------------------------
/// Models of processes, one for one.
pub open spec fn shows_pars(ps: Seq<Par>, ms: Seq<ParView>) -> bool {
    &&& ms.len() == ps.len()
    &&& forall|i: int| 0 <= i < ps.len() ==> #[trigger] ms[i] == ps[i]@
}

/// Models of texts, one for one.
pub open spec fn shows_texts(ts: Seq<String>, ms: Seq<Seq<char>>) -> bool {
    &&& ms.len() == ts.len()
    &&& forall|i: int| 0 <= i < ts.len() ==> #[trigger] ms[i] == ts[i]@
}

/// The model of a process shows its parts, kind by kind and one for one.
pub proof fn law_a_process_is_shown_part_by_part(p: Par, i: int)
    ensures
        p@.processes.len() == p.processes@.len() && p@.exprs.len() == p.exprs@.len(),
        p@.unforgeables.len() == p.unforgeables@.len() && p@.bundles.len() == p.bundles@.len(),
        p@.connectives.len() == p.connectives@.len(),
        0 <= i < p.processes@.len() ==> p@.processes[i] == p.processes@[i]@,
        0 <= i < p.exprs@.len() ==> p@.exprs[i] == p.exprs@[i]@,
        0 <= i < p.unforgeables@.len() ==> p@.unforgeables[i] == p.unforgeables@[i]@,
        0 <= i < p.bundles@.len() ==> p@.bundles[i] == p.bundles@[i]@,
        0 <= i < p.connectives@.len() ==> p@.connectives[i] == p.connectives@[i]@,
{
}

/// The model of an expression, of a name, of an entry and of a bundle is of the same
/// kind and shows what it holds.
pub proof fn law_an_expression_is_shown(
    b: bool,
    n: i64,
    s: String,
    bytes: Vec<u8>,
    ps: Vec<Par>,
    kvs: Vec<KeyValuePair>,
    i: int,
)
    ensures
        Expr::GBool(b)@ == ExprView::GBool(b),
        Expr::GInt(n)@ == ExprView::GInt(n),
        Expr::GString(s)@ == ExprView::GString(s@),
        Expr::GUri(s)@ == ExprView::GUri(s@),
        Expr::GByteArray(bytes)@ == ExprView::GByteArray(bytes@),
        Expr::Other(bytes)@ == ExprView::Other(bytes@),
        Expr::EListBody(ps)@ matches ExprView::EListBody(ms) && shows_pars(ps@, ms),
        Expr::ETupleBody(ps)@ matches ExprView::ETupleBody(ms) && shows_pars(ps@, ms),
        Expr::EMapBody(kvs)@ matches ExprView::EMapBody(ms) && ms.len() == kvs@.len() && (0 <= i
            < ms.len() ==> ms[i] == (kvs@[i].key@, kvs@[i].value@)),
{
    assert(Expr::EListBody(ps)@ == ExprView::EListBody(pars_view(ps@)));
    assert(Expr::ETupleBody(ps)@ == ExprView::ETupleBody(pars_view(ps@)));
    assert(Expr::EMapBody(kvs)@ == ExprView::EMapBody(entries_view(kvs@)));
}

/// An unforgeable name, an entry of a map and a bundle are shown as they are.
pub proof fn law_a_name_is_shown(g: GPrivate, bytes: Vec<u8>, kv: KeyValuePair, bundle: Bundle)
    ensures
        GUnforgeable::GPrivateBody(g)@ == UnforgeableView::GPrivateBody(g.id@),
        GUnforgeable::GDeployIdBody(bytes)@ == UnforgeableView::GDeployIdBody(bytes@),
        GUnforgeable::GDeployerIdBody(bytes)@ == UnforgeableView::GDeployerIdBody(bytes@),
        GUnforgeable::GSysAuthTokenBody@ == UnforgeableView::GSysAuthTokenBody,
        kv@ == (kv.key@, kv.value@),
        bundle@.body == bundle.body@ && bundle@.write_flag == bundle.write_flag
            && bundle@.read_flag == bundle.read_flag,
{
}

/// Lists are shown one for one, in their order.
pub proof fn law_lists_are_shown_one_for_one(
    ps: Seq<Par>,
    ts: Seq<String>,
    ms: Seq<ListParWithRandom>,
    cs: Seq<ChatMessage>,
    fs: Seq<Frame>,
    gs: Seq<Forwarding>,
    i: int,
)
    ensures
        shows_pars(ps, pars_view(ps)),
        shows_texts(ts, texts_view(ts)),
        messages_view(ms).len() == ms.len() && (0 <= i < ms.len() ==> messages_view(ms)[i]
            == ms[i]@),
        chat_view(cs).len() == cs.len() && (0 <= i < cs.len() ==> chat_view(cs)[i] == cs[i]@),
        frames_view(fs).len() == fs.len() && (0 <= i < fs.len() ==> frames_view(fs)[i] == fs[i]@),
        forwardings_view(gs).len() == gs.len() && (0 <= i < gs.len() ==> forwardings_view(gs)[i]
            == gs[i]@),
{
}

/// What may be missing is shown exactly if it is there.
pub proof fn law_what_may_be_missing_is_shown(
    t: Option<String>,
    b: Option<Vec<u8>>,
    p: Option<Par>,
    ps: Option<Vec<Par>>,
)
    ensures
        text_view(t) is Some <==> t is Some,
        t is Some ==> text_view(t)->0 == t->0@,
        blob_view(b) is Some <==> b is Some,
        b is Some ==> blob_view(b)->0 == b->0@,
        par_opt_view(p) is Some <==> p is Some,
        p is Some ==> par_opt_view(p)->0 == p->0@,
        pars_opt_view(ps) is Some <==> ps is Some,
        ps is Some ==> shows_pars(ps->0@, pars_opt_view(ps)->0),
{
}

// ---------------------------------------------------------------------------
// Exchanges
// ---------------------------------------------------------------------------
/// What a host is asked to do is what the model of it shows: the same action, and every
/// part of it in its place.
pub proof fn law_an_action_is_shown_in_full(a: Action)
    ensures
        match a {
            Action::Produce { data, channel } => a@ matches ActionView::Produce {
                data: d,
                channel: c,
            } && shows_pars(data@, d) && c == channel@,
            Action::Emit { message, channel } => a@ matches ActionView::Emit {
                message: m,
                channel: c,
            } && shows_pars(message.pars@, m.pars) && m.random_state == message.random_state@ && c
                == channel@,
            Action::Print { stream, message } => a@ == (ActionView::Print {
                stream,
                message: message@,
            }),
            Action::Log { level, message } => a@ == (ActionView::Log { level, message: message@ }),
            Action::LogAbort(p) => a@ == ActionView::LogAbort(p@),
            Action::Note(n) => a@ matches ActionView::Note(m) && m.level == n.level && m.text
                == n.text@ && m.about == n.about@,
            Action::Hash { algorithm, data } => a@ == (ActionView::Hash {
                algorithm,
                data: data@,
            }),
            Action::Verify { algorithm, data, signature, key } => a@ == (ActionView::Verify {
                algorithm,
                data: data@,
                signature: signature@,
                key: key@,
            }),
            Action::BuildUri(b) => a@ == ActionView::BuildUri(b@),
            Action::ParseAddress(s) => a@ == ActionView::ParseAddress(s@),
            Action::AddressOfKey(b) => a@ == ActionView::AddressOfKey(b@),
            Action::AddressOfDeployer(b) => a@ == ActionView::AddressOfDeployer(b@),
            Action::AddressOfName(b) => a@ == ActionView::AddressOfName(b@),
            Action::ParseUrn(s) => a@ == ActionView::ParseUrn(s@),
            Action::ReadVersions { pattern, versions } => a@ matches ActionView::ReadVersions {
                pattern: p,
                versions: v,
            } && p == pattern@ && shows_texts(versions@, v),
            Action::MatchVersion { pattern, version } => a@ == (ActionView::MatchVersion {
                pattern: pattern@,
                version: version@,
            }),
            Action::BestVersion { pattern, versions } => a@ matches ActionView::BestVersion {
                pattern: p,
                versions: v,
            } && p == pattern@ && shows_texts(versions@, v),
            Action::Gpt4(s) => a@ == ActionView::Gpt4(s@),
            Action::Dalle3(s) => a@ == ActionView::Dalle3(s@),
            Action::Speak { input, path } => a@ == (ActionView::Speak {
                input: input@,
                path: path@,
            }),
            Action::OllamaChat { model, messages } => a@ matches ActionView::OllamaChat {
                model: m,
                messages: c,
            } && m == model@ && c.len() == messages@.len() && forall|i: int|
                0 <= i < c.len() ==> (#[trigger] c[i]).role == messages@[i].role@ && c[i].content
                    == messages@[i].content@,
            Action::OllamaGenerate { model, prompt } => a@ == (ActionView::OllamaGenerate {
                model: model@,
                prompt: prompt@,
            }),
            Action::OllamaModels => a@ == ActionView::OllamaModels,
            Action::Tell { host, port, payload } => a@ == (ActionView::Tell {
                host: host@,
                port,
                payload: payload@,
            }),
            Action::CreateCollection { name, update, metadata } => a@
                matches ActionView::CreateCollection { name: n, update: u, metadata: m } && n
                == name@ && u == update && (m is Some <==> metadata is Some) && (m is Some ==> m->0
                == metadata->0@),
            Action::CollectionMeta(s) => a@ == ActionView::CollectionMeta(s@),
            Action::UpsertEntries { name, entries } => a@ == (ActionView::UpsertEntries {
                name: name@,
                entries: entries@,
            }),
            Action::QueryCollection { name, texts } => a@ matches ActionView::QueryCollection {
                name: n,
                texts: t,
            } && n == name@ && shows_texts(texts@, t),
            Action::DeleteDocuments { name, ids } => a@ matches ActionView::DeleteDocuments {
                name: n,
                ids: t,
            } && n == name@ && shows_texts(ids@, t),
            Action::RunPetta(s) => a@ == ActionView::RunPetta(s@),
            Action::Render { actual, expected } => a@ == (ActionView::Render {
                actual: actual@,
                expected: expected@,
            }),
            Action::Describe(p) => a@ == ActionView::Describe(p@),
        },
{
}

/// What a host answers is what the model of it shows.
pub proof fn law_an_answer_is_shown_in_full(r: Reply)
    ensures
        match r {
            Reply::Done => r@ == ReplyView::Done,
            Reply::Produced(ps) => r@ matches ReplyView::Produced(ms) && shows_pars(ps@, ms),
            Reply::Failed(e) => r@ == ReplyView::Failed(e@),
            Reply::Fault(s) => r@ == ReplyView::Fault(s@),
            Reply::Malformed => r@ == ReplyView::Malformed,
            Reply::Bytes(b) => r@ == ReplyView::Bytes(b@),
            Reply::Text(s) => r@ == ReplyView::Text(s@),
            Reply::Texts(ts) => r@ matches ReplyView::Texts(ms) && shows_texts(ts@, ms),
            Reply::Flag(b) => r@ == ReplyView::Flag(b),
            Reply::MaybeText(o) => r@ matches ReplyView::MaybeText(m) && (m is Some <==> o is Some)
                && (m is Some ==> m->0 == o->0@),
            Reply::Urn(o) => r@ matches ReplyView::Urn(m) && (m is Some <==> o is Some) && (m
                is Some ==> m->0 == o->0@),
            Reply::Versions { pattern, versions } => r@ == (ReplyView::Versions {
                pattern,
                versions: versions@,
            }),
            Reply::MaybePar(o) => r@ matches ReplyView::MaybePar(m) && (m is Some <==> o is Some)
                && (m is Some ==> m->0 == o->0@),
            Reply::Pars(ps) => r@ matches ReplyView::Pars(ms) && shows_pars(ps@, ms),
            Reply::Petta { frames, result } => r@ matches ReplyView::Petta {
                frames: fs,
                result: m,
            } && m == result@ && fs.len() == frames@.len() && forall|i: int|
                0 <= i < fs.len() ==> #[trigger] fs[i] == frames@[i]@,
            Reply::Rendered { actual, expected } => r@ == (ReplyView::Rendered {
                actual: actual@,
                expected: expected@,
            }),
        },
{
}

/// A step is what its model shows: that the process is done, and with what; that a test
/// failed, and in what words; or what the process asks for and waits for.
pub proof fn law_a_step_is_shown(
    output: Vec<Par>,
    e: InterpreterError,
    s: String,
    a: Action,
    p: Pending,
)
    ensures
        Step::Finished(Ok(output))@ matches StepView::Finished(Ok(ms)) && shows_pars(output@, ms),
        Step::Finished(Err(e))@ == StepView::Finished(Err(e@)),
        Step::AssertionFailed(s)@ == StepView::AssertionFailed(s@),
        Step::Perform(a, p)@ == StepView::Perform(a@, p@),
{
    assert(Step::Finished(Ok(output))@ == StepView::Finished(Ok(pars_view(output@))));
}

/// A note, what it is about, and the parts of a URN are shown as they are.
pub proof fn law_a_note_is_shown(n: Note, ps: Vec<Par>, e: InterpreterError, u: ParsedUrn)
    ensures
        n@.level == n.level && n@.text == n.text@ && n@.about == n.about@,
        About::Nothing@ == AboutView::Nothing && About::Petta@ == AboutView::Petta,
        About::Args(ps)@ matches AboutView::Args(ms) && shows_pars(ps@, ms),
        About::Error(e)@ == AboutView::Error(e@),
        u@.namespace == u.namespace@ && u@.service_version == u.service_version@,
        u@.pub_key is Some <==> u.pub_key is Some,
        u.pub_key is Some ==> u@.pub_key->0 == u.pub_key->0@,
        u@.project_id is Some <==> u.project_id is Some,
        u.project_id is Some ==> u@.project_id->0 == u.project_id->0@,
        u@.project_version is Some <==> u.project_version is Some,
        u.project_version is Some ==> u@.project_version->0 == u.project_version->0@,
{
    assert(About::Args(ps)@ == AboutView::Args(pars_view(ps@)));
}

/// An error is shown in its own kind, with its words, its cause and what was not sent.
pub proof fn law_an_error_is_shown(s: String, cause: Box<InterpreterError>, ps: Vec<Par>)
    ensures
        InterpreterError::IllegalArgumentError(s)@ == ErrorView::IllegalArgumentError(s@),
        InterpreterError::SwiplError(s)@ == ErrorView::SwiplError(s@),
        InterpreterError::ReduceError(s)@ == ErrorView::ReduceError(s@),
        InterpreterError::BugFoundError(s)@ == ErrorView::BugFoundError(s@),
        InterpreterError::UserAbortError@ == ErrorView::UserAbortError,
        InterpreterError::Host(s)@ == ErrorView::Host(s@),
        (InterpreterError::NonDeterministicProcessFailure { cause, output_not_produced: ps })@
            matches ErrorView::NonDeterministicProcessFailure { cause: c, output_not_produced: ms }
            && *c == (*cause)@ && shows_pars(ps@, ms),
        (InterpreterError::ProduceFailureWithOutput { cause, output_not_produced: ps })@
            matches ErrorView::ProduceFailureWithOutput { cause: c, output_not_produced: ms } && *c
            == (*cause)@ && shows_pars(ps@, ms),
{
    let e = InterpreterError::NonDeterministicProcessFailure { cause, output_not_produced: ps };
    let f = InterpreterError::ProduceFailureWithOutput { cause, output_not_produced: ps };
    assert(e@ == ErrorView::NonDeterministicProcessFailure {
        cause: Box::new((*cause)@),
        output_not_produced: pars_view(ps@),
    });
    assert(f@ == ErrorView::ProduceFailureWithOutput {
        cause: Box::new((*cause)@),
        output_not_produced: pars_view(ps@),
    });
}

/// A call shows what it was made with: its messages with their arguments and their
/// randomness, whether it is a replay, and what was recorded.
pub proof fn law_a_call_is_shown(args: ContractArgs, i: int)
    ensures
        call_view(args).messages.len() == args.0@.len(),
        0 <= i < args.0@.len() ==> shows_pars(
            args.0@[i].pars@,
            call_view(args).messages[i].pars,
        ) && call_view(args).messages[i].random_state == args.0@[i].random_state@,
        call_view(args).is_replay == args.1,
        shows_pars(args.2@, call_view(args).previous_output),
{
    if 0 <= i < args.0@.len() {
        assert(call_view(args).messages[i] == args.0@[i]@);
    }
}

/// A context shows the block, the deploy, the blocks found invalid and the two tables.
pub proof fn law_a_context_is_shown(c: ProcessContext, b: BlockData, d: DeployData)
    ensures
        c@.block_data == c.system_processes.block_data@,
        c@.deploy_data == c.system_processes.deploy_data@,
        c@.invalid_blocks == c.invalid_blocks.invalid_blocks@,
        c@.urn_map == c.system_processes.urn_map@,
        c@.urn_to_channel == c.system_processes.urn_to_channel@,
        b@.time_stamp == b.time_stamp && b@.block_number == b.block_number,
        b@.sender == b.sender.bytes@ && b@.seq_num == b.seq_num,
        d@.timestamp == d.timestamp && d@.deployer_id == d.deployer_id.bytes@,
        d@.deploy_id == d.deploy_id@,
{
}

/// A definition shows its names, its arity, its number and its process.
pub proof fn law_a_definition_is_shown(d: Definition)
    ensures
        d@.urn == d.urn@ && d@.fixed_channel == d.fixed_channel@,
        d@.arity == d.arity && d@.body_ref == d.body_ref,
        d@.handler == d.handler && d@.remainder == d.remainder,
{
}

// ---------------------------------------------------------------------------
// Output of the interpreter
// ---------------------------------------------------------------------------
/// A JSON value is shown as it is, and its parts one for one; a number is told in
/// decimal, or by its own text.
pub proof fn law_a_json_value_is_shown(
    b: bool,
    u: u64,
    n: i64,
    s: String,
    vs: Vec<Json>,
    fs: Vec<(String, Json)>,
    i: int,
)
    ensures
        Json::Null@ == JsonView::Null && Json::Bool(b)@ == JsonView::Bool(b),
        Json::Number(JsonNumber::PosInt(u))@ == JsonView::Number(NumberView::PosInt(u)),
        Json::Number(JsonNumber::NegInt(n))@ == JsonView::Number(NumberView::NegInt(n)),
        Json::Number(JsonNumber::Float(s))@ == JsonView::Number(NumberView::Float(s@)),
        Json::String(s)@ == JsonView::String(s@),
        Json::Array(vs)@ matches JsonView::Array(ms) && ms.len() == vs@.len() && (0 <= i < ms.len()
            ==> ms[i] == vs@[i]@),
        Json::Object(fs)@ matches JsonView::Object(ms) && ms.len() == fs@.len() && (0 <= i
            < ms.len() ==> ms[i] == (fs@[i].0@, fs@[i].1@)),
        number_text(NumberView::PosInt(u)) == nat_text(u as nat),
        number_text(NumberView::NegInt(n)) == int_text(n as int),
        number_text(NumberView::Float(s@)) == s@,
{
    assert(Json::Array(vs)@ == JsonView::Array(values_view(vs@)));
    assert(Json::Object(fs)@ == JsonView::Object(fields_view(fs@)));
}

/// A frame, a line, what is collected of them, and what becomes of a frame are shown as
/// they are.
pub proof fn law_a_frame_is_shown(f: Frame, p: Par, c: Collector, urn: String, channel: Par)
    ensures
        f@.channel == f.channel@ && shows_pars(f.arguments@, f@.arguments),
        Line::Frame(f)@ == LineView::Frame(f@) && Line::Result(p)@ == LineView::Result(p@),
        c@.frames == frames_view(c.frames@),
        c@.result is Some <==> c.result is Some,
        c.result is Some ==> c@.result->0 == c.result->0@,
        (Forwarding::Emit { urn, channel, argument: p })@ == (ForwardingView::Emit {
            urn: urn@,
            channel: channel@,
            argument: p@,
        }),
        (Forwarding::Skip { urn })@ == (ForwardingView::Skip { urn: urn@ }),
{
}

/// A run is shown as it stands: what has been read, what it exits with, or what it came
/// to.
pub proof fn law_a_run_is_shown(c: Collector, frames: Vec<Frame>, p: Par, e: InterpreterError)
    ensures
        FramedRun::Reading(c)@ == FramedView::Reading(c@),
        (FramedRun::Exiting { frames, result: p })@ == (FramedView::Exiting {
            frames: frames_view(frames@),
            result: p@,
        }),
        FramedRun::Ended(Ok((frames, p)))@ == FramedView::Ended(Ok((frames_view(frames@), p@))),
        FramedRun::Ended(Err(e))@ == FramedView::Ended(Err(e@)),
{
}

/// An outcome is shown as it is: what came of it, or the error.
pub proof fn law_an_outcome_is_shown(
    p: Par,
    e: InterpreterError,
    l: Line,
    j: Json,
    s: String,
    output: Vec<Par>,
)
    ensures
        par_result(Ok(p)) == Ok::<ParView, ErrorView>(p@),
        par_result(Err(e)) == Err::<ParView, ErrorView>(e@),
        line_result(Ok(l)) == Ok::<LineView, ErrorView>(l@),
        line_result(Err(e)) == Err::<LineView, ErrorView>(e@),
        parsed_view(Ok(j)) == Ok::<JsonView, Seq<char>>(j@),
        parsed_view(Err(s)) == Err::<JsonView, Seq<char>>(s@),
        outcome_view(Ok(output)) matches Ok(ms) && shows_pars(output@, ms),
        outcome_view(Err(e)) == Err::<Seq<ParView>, ErrorView>(e@),
{
}

// ---------------------------------------------------------------------------
// What tests are given
// ---------------------------------------------------------------------------
/// A test can run exactly if nothing that it needs is missing; otherwise the first that
/// is missing is told.
pub proof fn law_what_a_test_needs(p: Prerequisites)
    ensures
        unmet(p) is None <==> p.petta_script && p.petta_dir && p.cache_dir && p.sandbox_lib_path
            && p.swipl,
        !p.petta_script ==> unmet(p) == Some(
            "PeTTa test prerequisite unmet: petta.sh script is missing"@,
        ),
        p.petta_script && !p.petta_dir ==> unmet(p) == Some(
            "PeTTa test prerequisite unmet: PETTA_DIR environment variable not set"@,
        ),
        p.petta_script && p.petta_dir && !p.cache_dir ==> unmet(p) == Some(
            "PeTTa test prerequisite unmet: CACHE_DIR environment variable not set"@,
        ),
        p.petta_script && p.petta_dir && p.cache_dir && !p.sandbox_lib_path ==> unmet(p) == Some(
            "PeTTa test prerequisite unmet: SANDBOX_LIB_PATH environment variable not set"@,
        ),
        p.petta_script && p.petta_dir && p.cache_dir && p.sandbox_lib_path && !p.swipl ==> unmet(p)
            == Some("PeTTa test prerequisite unmet: swipl is missing"@),
{
}

/// Variables are shown as they are bound, in their order, and those that tests bind
/// stand at the first column of the first line.
pub proof fn law_bindings_are_shown(
    bs: Seq<IdContextPos>,
    chain: BoundMapChain,
    vars: Seq<(String, String)>,
    name: Seq<char>,
    sort: VarSort,
    i: int,
)
    ensures
        bindings_view(bs).len() == bs.len(),
        0 <= i < bs.len() ==> bindings_view(bs)[i].name == bs[i].0@ && bindings_view(bs)[i].sort
            == bs[i].1 && bindings_view(bs)[i].pos == bs[i].2,
        chain@ == bindings_view(chain.bindings@),
        bound_first(name, sort).name == name && bound_first(name, sort).sort == sort,
        bound_first(name, sort).pos == first_pos(),
        first_pos().line == 1 && first_pos().col == 1,
        vars_view(vars).len() == vars.len(),
        0 <= i < vars.len() ==> vars_view(vars)[i] == (vars[i].0@, vars[i].1@),
{
}

} // verus!
