//! What holds of names: channels, bodies, URNs and the registry; and of what
//! tests set up and check.
use vstd::prelude::*;

use crate::answer_laws::{after, asks, asks_for_text, called_with, does, done, refuses, responds};
use crate::answer_laws::{sends_back, takes};
use crate::contract_call::{finished, pass_on, return_on, CallView};
use crate::crypto::{is_secp256k1_key, secp256k1_der_signature};
use crate::definitions::{test_framework, write_only, ContextView, Handler};
use crate::errors::ErrorView;
use crate::exchange::{ActionView, HashAlgorithm, LogLevel, ReplyView, StepView, UrnView};
use crate::fixed_channels::{byte_channel, non_deterministic, BodyRefs};
use crate::par::{BundleView, ExprView, Par, ParView, UnforgeableView};
use crate::process_laws::{lemma_run_one, run};
use crate::registry_processes::{registry_lookup_step, registry_ops_step, registry_ops_v1_step};
use crate::registry_processes::{pair_of, string_or_nil, strings_among, urn_of, urn_tuple};
use crate::resume::{lookup_request, next, versions_among};
use crate::rho_type::{bool_of, bool_par, bytes_of, bytes_par, deployer_id_par, list_of, name_of};
use crate::rho_type::{name_par, nil, number_of, number_par, string_of, string_par};
use crate::rho_type::{sys_auth_token_par, tuple_of, tuple_par, uri_of, uri_par};
use crate::state::BlockDataView;
use crate::system_processes::block_data_output;
use crate::test_processes::{assert_of, clue_text, comparison_of, handle_message_step};
use crate::test_processes::{set_finished_of, signing_fault, AssertView, RhoTestAssertion};
use crate::test_processes::SigningFault;
use crate::text::{int_text, nat_text};
use crate::value_laws::{is_expr, is_unforgeable};

verus! {

/// A call with the given arguments.
pub open spec fn call_with(call: CallView, args: Seq<ParView>) -> bool {
    call.args() == Some(args)
}

// ---------------------------------------------------------------------------
// Channels and bodies
// ---------------------------------------------------------------------------
/// The bytes that name the fixed channels.
pub open spec fn fixed_bytes() -> Set<u8> {
    Set::new(|b: u8| b <= 38 && b != 9)
}

/// The bytes that name the channels for tests.
pub open spec fn test_bytes() -> Set<u8> {
    Set::new(|b: u8| 101 <= b <= 108)
}

/// Different bytes name different channels. So no two fixed channels are the
/// same, and none is a channel for tests.
pub proof fn law_bytes_name_different_channels(a: u8, b: u8)
    ensures
        byte_channel(a) == byte_channel(b) <==> a == b,
        fixed_bytes().contains(a) && test_bytes().contains(b) ==> byte_channel(a) != byte_channel(
            b,
        ),
{
    assert(name_of(byte_channel(a)) == Some(seq![a]));
    assert(name_of(byte_channel(b)) == Some(seq![b]));
    assert(seq![a][0] == a && seq![b][0] == b);
}

/// The numbers of the bodies.
pub open spec fn body_refs() -> Seq<i64> {
    seq![
        BodyRefs::STDOUT,
        BodyRefs::STDOUT_ACK,
        BodyRefs::STDERR,
        BodyRefs::STDERR_ACK,
        BodyRefs::ED25519_VERIFY,
        BodyRefs::SHA256_HASH,
        BodyRefs::KECCAK256_HASH,
        BodyRefs::BLAKE2B256_HASH,
        BodyRefs::SECP256K1_VERIFY,
        BodyRefs::GET_BLOCK_DATA,
        BodyRefs::GET_INVALID_BLOCKS,
        BodyRefs::VAULT_ADDRESS,
        BodyRefs::DEPLOYER_ID_OPS,
        BodyRefs::REG_OPS,
        BodyRefs::SYS_AUTHTOKEN_OPS,
        BodyRefs::REG_OPS_V1,
        BodyRefs::GPT4,
        BodyRefs::DALLE3,
        BodyRefs::TEXT_TO_AUDIO,
        BodyRefs::GRPC_TELL,
        BodyRefs::DEV_NULL,
        BodyRefs::ABORT,
        BodyRefs::OLLAMA_CHAT,
        BodyRefs::OLLAMA_GENERATE,
        BodyRefs::OLLAMA_MODELS,
        BodyRefs::DEPLOY_DATA,
        BodyRefs::REGISTRY_LOOKUP,
        BodyRefs::CHROMA_CREATE_COLLECTION,
        BodyRefs::CHROMA_GET_COLLECTION_META,
        BodyRefs::CHROMA_UPSERT_ENTRIES,
        BodyRefs::CHROMA_QUERY,
        BodyRefs::CHROMA_DELETE_DOCUMENTS,
        BodyRefs::SWIPL_EXECUTE_PETTA,
    ]
}

/// No two bodies have the same number, and none has that of a process for tests.
pub proof fn law_bodies_have_different_numbers(i: int, j: int, k: int)
    requires
        0 <= i < j < body_refs().len(),
        0 <= k < test_framework().len(),
    ensures
        body_refs()[i] < body_refs()[j],
        body_refs()[i] != test_framework()[k].body_ref,
        body_refs()[j] != test_framework()[k].body_ref,
{
    let s = body_refs();
    assert(forall|x: int, y: int| 0 <= x < y < s.len() ==> #[trigger] s[x] < #[trigger] s[y]);
    assert(forall|x: int| 0 <= x < s.len() ==> #[trigger] s[x] <= 37);
}

/// The numbers of the bodies run from zero to thirty-seven; five of these have been
/// given up.
pub proof fn law_numbers_of_bodies(n: i64)
    ensures
        body_refs().contains(n) <==> 0 <= n <= 37 && n != 8 && n != 10 && n != 21 && n != 22 && n
            != 31,
{
    let s = body_refs();
    if 0 <= n <= 7 {
        assert(s[n as int] == n);
    } else if n == 9 {
        assert(s[8] == n);
    } else if 11 <= n <= 20 {
        assert(s[n - 2] == n);
    } else if 23 <= n <= 30 {
        assert(s[n - 4] == n);
    } else if 32 <= n <= 37 {
        assert(s[n - 5] == n);
    }
    assert(forall|k: int|
        0 <= k < s.len() ==> 0 <= #[trigger] s[k] <= 37 && s[k] != 8 && s[k] != 10 && s[k] != 21
            && s[k] != 22 && s[k] != 31);
}

/// Of the bodies, nine are recorded; printing, hashing, verifying and telling of
/// the block are not.
pub proof fn law_what_is_recorded(r: i64)
    ensures
        non_deterministic().contains(r) <==> r == BodyRefs::GPT4 || r == BodyRefs::DALLE3 || r
            == BodyRefs::TEXT_TO_AUDIO || r == BodyRefs::OLLAMA_CHAT || r
            == BodyRefs::OLLAMA_GENERATE || r == BodyRefs::OLLAMA_MODELS || r == BodyRefs::GRPC_TELL
            || r == BodyRefs::CHROMA_QUERY || r == BodyRefs::SWIPL_EXECUTE_PETTA,
        non_deterministic().len() == 9,
        r <= BodyRefs::REG_OPS_V1 ==> !non_deterministic().contains(r),
{
    let s0 = Set::<i64>::empty();
    let s1 = s0.insert(BodyRefs::GPT4);
    let s2 = s1.insert(BodyRefs::DALLE3);
    let s3 = s2.insert(BodyRefs::TEXT_TO_AUDIO);
    let s4 = s3.insert(BodyRefs::OLLAMA_CHAT);
    let s5 = s4.insert(BodyRefs::OLLAMA_GENERATE);
    let s6 = s5.insert(BodyRefs::OLLAMA_MODELS);
    let s7 = s6.insert(BodyRefs::GRPC_TELL);
    let s8 = s7.insert(BodyRefs::CHROMA_QUERY);
    let s9 = s8.insert(BodyRefs::SWIPL_EXECUTE_PETTA);
    assert(s9 =~= non_deterministic());
}

/// The processes for tests have different URNs, different channels and different
/// numbers, and each is found under one number.
pub proof fn law_test_processes_are_told_apart(i: int, j: int)
    requires
        0 <= i < j < test_framework().len(),
    ensures
        test_framework()[i].urn != test_framework()[j].urn,
        test_framework()[i].fixed_channel != test_framework()[j].fixed_channel,
        test_framework()[i].body_ref != test_framework()[j].body_ref,
        test_framework()[i].fixed_channel == byte_channel(test_framework()[i].body_ref as u8),
{
    reveal_strlit("rho:test:assertAck");
    reveal_strlit("rho:test:testSuiteCompleted");
    reveal_strlit("rho:io:stdlog");
    reveal_strlit("rho:test:deployerId:make");
    reveal_strlit("rho:test:crypto:secp256k1Sign");
    reveal_strlit("sys:test:authToken:make");
    reveal_strlit("rho:test:block:data:set");
    reveal_strlit("rho:test:casper:invalidBlocks:set");
    let t = test_framework();
    assert(t[0].urn.len() == 18 && t[1].urn.len() == 27 && t[2].urn.len() == 13);
    assert(t[3].urn.len() == 24 && t[4].urn.len() == 29 && t[5].urn.len() == 23);
    assert(t[6].urn.len() == 23 && t[7].urn.len() == 33);
    assert(t[5].urn[0] == 's' && t[6].urn[0] == 'r');
    law_bytes_name_different_channels(t[i].body_ref as u8, t[j].body_ref as u8);
}

// ---------------------------------------------------------------------------
// URNs and the registry
// ---------------------------------------------------------------------------
/// What the runtime has bound a URN to is sent, whatever else the URN may be.
pub proof fn law_lookup_of_a_bound_urn(
    call: CallView,
    urns: Map<Seq<char>, ParView>,
    channels: Map<Seq<char>, ParView>,
    urn: Seq<char>,
    ret: ParView,
    sent: Seq<ParView>,
)
    requires
        call_with(call, seq![string_par(urn), ret]),
        urns.contains_key(urn),
    ensures
        registry_lookup_step(call, urns) matches StepView::Perform(a, _) && a
            == (ActionView::Produce { data: seq![urns[urn]], channel: ret }),
        run(channels, registry_lookup_step(call, urns), seq![ReplyView::Produced(sent)])
            == finished(Seq::empty()),
{
    assert(string_of(string_par(urn)) == Some(urn));
    lemma_run_one(channels, registry_lookup_step(call, urns), ReplyView::Produced(sent));
}

/// A process that was defined is found by its URN: its channel, to write to.
pub proof fn law_a_defined_process_is_found(
    call: CallView,
    urns: Map<Seq<char>, ParView>,
    urn: Seq<char>,
    channel: ParView,
    ret: ParView,
)
    requires
        call_with(call, seq![string_par(urn), ret]),
    ensures
        registry_lookup_step(call, urns.insert(urn, write_only(channel))) matches StepView::Perform(
            a,
            _,
        ) && a == (ActionView::Produce { data: seq![write_only(channel)], channel: ret }),
{
    assert(string_of(string_par(urn)) == Some(urn));
}

/// A URN is looked up alike whether it comes as a string or as a URI.
pub proof fn law_lookup_by_string_or_uri(
    by_string: CallView,
    by_uri: CallView,
    urns: Map<Seq<char>, ParView>,
    urn: Seq<char>,
    ret: ParView,
)
    requires
        call_with(by_string, seq![string_par(urn), ret]),
        call_with(by_uri, seq![uri_par(urn), ret]),
    ensures
        registry_lookup_step(by_string, urns) == registry_lookup_step(by_uri, urns),
{
    assert(urn_of(string_par(urn)) == Some(urn));
    assert(urn_of(uri_par(urn)) == Some(urn));
}

/// A URN that is not bound goes to the versioned registry, if it is a versioned
/// one. The registry gets it as a string, with the channel to answer on. Any
/// other URN is an error.
pub proof fn law_lookup_of_an_unbound_urn(
    call: CallView,
    urns: Map<Seq<char>, ParView>,
    channels: Map<Seq<char>, ParView>,
    urn: Seq<char>,
    ret: ParView,
    parts: UrnView,
)
    requires
        call_with(call, seq![uri_par(urn), ret]) || call_with(call, seq![string_par(urn), ret]),
        !urns.contains_key(urn),
    ensures
        run(channels, registry_lookup_step(call, urns), seq![ReplyView::Urn(Some(parts))])
            matches StepView::Perform(a, _) && a == (ActionView::Produce {
            data: lookup_request(urn, ret),
            channel: byte_channel(19),
        }),
        run(channels, registry_lookup_step(call, urns), seq![ReplyView::Urn(None)])
            == StepView::Finished(
            Err(ErrorView::ReduceError("registry_lookup: unknown URN: "@ + urn)),
        ),
{
    assert(urn_of(string_par(urn)) == Some(urn));
    assert(urn_of(uri_par(urn)) == Some(urn));
    let s = registry_lookup_step(call, urns);
    lemma_run_one(channels, s, ReplyView::Urn(Some(parts)));
    lemma_run_one(channels, s, ReplyView::Urn(None));
}

/// A URI is written alike through either of the registry's helpers.
pub proof fn law_helpers_write_the_same_uri(call: CallView, argument: ParView, ack: ParView)
    requires
        call_with(call, seq![string_par("buildUri"@), argument, ack]),
    ensures
        registry_ops_step(call) == registry_ops_v1_step(call),
{
    assert(string_of(string_par("buildUri"@)) == Some("buildUri"@));
}

/// The tuple of a versioned URN has five parts, each in its place, and determines the
/// URN. A part is `Nil` exactly if it is missing.
pub proof fn law_urn_tuple(u: UrnView, v: UrnView)
    ensures
        tuple_of(urn_tuple(u)) matches Some(ps) && ps.len() == 5 && (ps[2] == nil() <==> u.pub_key
            is None) && (ps[3] == nil() <==> u.project_id is None) && (ps[4] == nil()
            <==> u.project_version is None),
        urn_tuple(u) == urn_tuple(v) ==> u == v,
        tuple_of(urn_tuple(u)) matches Some(ps) && is_expr(urn_tuple(u), ExprView::ETupleBody(ps))
            && string_of(ps[0]) == Some(u.namespace) && string_of(ps[1]) == Some(u.service_version)
            && string_of(ps[2]) == u.pub_key && string_of(ps[3]) == u.project_id && string_of(
            ps[4],
        ) == u.project_version,
{
    let a = tuple_of(urn_tuple(u))->0;
    let b = tuple_of(urn_tuple(v))->0;
    assert(a[0] == string_par(u.namespace) && b[0] == string_par(v.namespace));
    assert(a[1] == string_par(u.service_version) && b[1] == string_par(v.service_version));
    assert(a[2] == string_or_nil(u.pub_key) && b[2] == string_or_nil(v.pub_key));
    assert(a[3] == string_or_nil(u.project_id) && b[3] == string_or_nil(v.project_id));
    assert(a[4] == string_or_nil(u.project_version) && b[4] == string_or_nil(v.project_version));
    assert forall|s: Seq<char>, t: Seq<char>| #[trigger]
        string_par(s) == #[trigger] string_par(t) implies s == t by {
        assert(string_of(string_par(s)) == Some(s) && string_of(string_par(t)) == Some(t));
    }
    assert forall|s: Seq<char>| #[trigger] string_par(s) != nil() by {
        assert(string_of(string_par(s)) == Some(s) && string_of(nil()) is None);
    }
    if a == b {
        assert(u.namespace == v.namespace && u.service_version == v.service_version);
        assert(u.pub_key == v.pub_key && u.project_id == v.project_id && u.project_version
            == v.project_version);
    }
}

/// What is no pattern matches nothing, and what is no version is matched by
/// nothing: the answer is `false`, not an error.
pub proof fn law_malformed_versions_do_not_match(
    channels: Map<Seq<char>, ParView>,
    call: CallView,
    argument: ParView,
    ack: ParView,
    pattern: bool,
    version: bool,
)
    requires
        call_with(call, seq![string_par("matchesVersion"@), argument, ack]),
    ensures
        match registry_ops_v1_step(call) {
            StepView::Perform(ActionView::ReadVersions { .. }, p) => !(pattern && version) ==> next(
                channels,
                p,
                ReplyView::Versions { pattern, versions: seq![version] },
            ) == pass_on(bool_par(false), ack),
            s => s == pass_on(bool_par(false), ack),
        },
{
    lemma_registry_words();
}

/// What is no pattern has no best version, and what is no list offers none: the
/// answer is `Nil`, not an error. A best version is answered as a string.
pub proof fn law_best_version_or_nil(
    channels: Map<Seq<char>, ParView>,
    call: CallView,
    argument: ParView,
    ack: ParView,
    pattern: bool,
    are: Seq<bool>,
    best: Option<Seq<char>>,
)
    requires
        call_with(call, seq![string_par("selectBestVersion"@), argument, ack]),
    ensures
        match registry_ops_v1_step(call) {
            StepView::Perform(ActionView::ReadVersions { .. }, p) => {
                let s = next(channels, p, ReplyView::Versions { pattern, versions: are });
                if pattern {
                    s matches StepView::Perform(ActionView::BestVersion { .. }, q) && next(
                        channels,
                        q,
                        ReplyView::MaybeText(best),
                    ) == pass_on(string_or_nil(best), ack)
                } else {
                    s == pass_on(nil(), ack)
                }
            },
            s => s == pass_on(nil(), ack),
        },
{
    lemma_registry_words();
}

/// What is no versioned URN is answered with `Nil`, not with an error; what is
/// one, with its parts.
pub proof fn law_versioned_uri_or_nil(
    channels: Map<Seq<char>, ParView>,
    call: CallView,
    argument: ParView,
    ack: ParView,
    parts: UrnView,
)
    requires
        call_with(call, seq![string_par("parseVersionedUri"@), argument, ack]),
    ensures
        match registry_ops_v1_step(call) {
            StepView::Perform(ActionView::ParseUrn(_), p) => next(
                channels,
                p,
                ReplyView::Urn(None),
            ) == pass_on(nil(), ack) && next(channels, p, ReplyView::Urn(Some(parts))) == pass_on(
                urn_tuple(parts),
                ack,
            ),
            s => s == pass_on(nil(), ack),
        },
{
    lemma_registry_words();
}

/// The words for the operations of the registry's helper differ.
proof fn lemma_registry_words()
    ensures
        "matchesVersion"@ != "buildUri"@,
        "matchesVersion"@ != "parseVersionedUri"@,
        "selectBestVersion"@ != "buildUri"@,
        "selectBestVersion"@ != "parseVersionedUri"@,
        "selectBestVersion"@ != "matchesVersion"@,
        "parseVersionedUri"@ != "buildUri"@,
        forall|s: Seq<char>| string_of(#[trigger] string_par(s)) == Some(s),
{
    reveal_strlit("matchesVersion");
    reveal_strlit("buildUri");
    reveal_strlit("parseVersionedUri");
    reveal_strlit("selectBestVersion");
    assert("matchesVersion"@.len() == 14 && "buildUri"@.len() == 8);
    assert("parseVersionedUri"@.len() == 17 && "selectBestVersion"@.len() == 17);
    assert("parseVersionedUri"@[0] == 'p' && "selectBestVersion"@[0] == 's');
}

/// The registry URI of bytes is written from their hash, and is the response. What is
/// not bytes has none: the response is `Nil`.
pub proof fn law_a_uri_is_built_from_a_hash(
    h: Handler,
    channels: Map<Seq<char>, ParView>,
    context: ContextView,
    call: CallView,
    id: Seq<char>,
    op: ParView,
    argument: ParView,
    ack: ParView,
    hash: Seq<u8>,
    uri: Seq<char>,
)
    requires
        h == Handler::RegistryOps || h == Handler::RegistryOpsV1,
        string_of(op) == Some("buildUri"@),
        called_with(call, seq![op, argument, ack]),
    ensures
        h.step(context, call, id) matches Some(s) && match bytes_of(argument) {
            Some(data) => {
                let hashed = after(channels, s, ReplyView::Bytes(hash));
                &&& asks(s, ActionView::Hash { algorithm: HashAlgorithm::Blake2b256, data })
                &&& takes(s, ReplyView::Bytes(hash))
                &&& asks(hashed, ActionView::BuildUri(hash))
                &&& takes(hashed, ReplyView::Text(uri))
                &&& responds(
                    channels,
                    after(channels, hashed, ReplyView::Text(uri)),
                    uri_par(uri),
                    ack,
                )
            },
            None => responds(channels, s, nil(), ack),
        },
{
}

/// A versioned URN is taken apart, and the response is the tuple of its parts; `Nil`
/// for what is none.
pub proof fn law_a_versioned_urn_is_taken_apart(
    channels: Map<Seq<char>, ParView>,
    context: ContextView,
    call: CallView,
    id: Seq<char>,
    op: ParView,
    argument: ParView,
    ack: ParView,
    parts: UrnView,
)
    requires
        string_of(op) == Some("parseVersionedUri"@),
        called_with(call, seq![op, argument, ack]),
    ensures
        Handler::RegistryOpsV1.step(context, call, id) matches Some(s) && match string_of(argument) {
            Some(urn) => {
                &&& asks(s, ActionView::ParseUrn(urn))
                &&& takes(s, ReplyView::Urn(Some(parts))) && takes(s, ReplyView::Urn(None))
                &&& responds(
                    channels,
                    after(channels, s, ReplyView::Urn(Some(parts))),
                    urn_tuple(parts),
                    ack,
                )
                &&& responds(channels, after(channels, s, ReplyView::Urn(None)), nil(), ack)
            },
            None => responds(channels, s, nil(), ack),
        },
{
    lemma_registry_words();
}

/// A pattern and a version are matched with each other where both are such, and the
/// response is `true` exactly if the version satisfies the pattern. Where one is none,
/// or the argument is no pair of strings, the response is `false`.
pub proof fn law_a_match_is_told_to_be_what_it_is(
    channels: Map<Seq<char>, ParView>,
    context: ContextView,
    call: CallView,
    id: Seq<char>,
    op: ParView,
    argument: ParView,
    ack: ParView,
    parts: Seq<ParView>,
    is_pattern: bool,
    is_version: bool,
    satisfied: bool,
)
    requires
        string_of(op) == Some("matchesVersion"@),
        called_with(call, seq![op, argument, ack]),
    ensures
        ({
            let s = Handler::RegistryOpsV1.step(context, call, id)->0;
            let reply = ReplyView::Versions { pattern: is_pattern, versions: seq![is_version] };
            let read = after(channels, s, reply);
            &&& Handler::RegistryOpsV1.step(context, call, id) is Some
            &&& tuple_of(argument) == Some(parts) && parts.len() == 2 && string_of(parts[0]) is Some
                && string_of(parts[1]) is Some ==> {
                let pattern = string_of(parts[0])->0;
                let version = string_of(parts[1])->0;
                &&& asks(s, ActionView::ReadVersions { pattern, versions: seq![version] })
                &&& takes(s, reply)
                &&& if is_pattern && is_version {
                    &&& asks(read, ActionView::MatchVersion { pattern, version })
                    &&& takes(read, ReplyView::Flag(satisfied))
                    &&& responds(
                        channels,
                        after(channels, read, ReplyView::Flag(satisfied)),
                        bool_par(satisfied),
                        ack,
                    )
                } else {
                    responds(channels, read, bool_par(false), ack)
                }
            }
            &&& tuple_of(argument) is None || (tuple_of(argument) == Some(parts) && (parts.len()
                != 2 || string_of(parts[0]) is None || string_of(parts[1]) is None)) ==> responds(
                channels,
                s,
                bool_par(false),
                ack,
            )
        }),
{
    lemma_registry_words();
}

/// Of a pattern and a list, the strings in the list are looked at, and the versions
/// among them are offered to the pattern; the response is the best of them, or `Nil`
/// where there is none. It is `Nil`, too, for what is no pattern, and where the
/// argument is no pair of a string and a list.
pub proof fn law_the_best_version_is_told(
    channels: Map<Seq<char>, ParView>,
    context: ContextView,
    call: CallView,
    id: Seq<char>,
    op: ParView,
    argument: ParView,
    ack: ParView,
    parts: Seq<ParView>,
    listed: Seq<ParView>,
    is_pattern: bool,
    are: Seq<bool>,
    best: Option<Seq<char>>,
)
    requires
        string_of(op) == Some("selectBestVersion"@),
        called_with(call, seq![op, argument, ack]),
    ensures
        ({
            let s = Handler::RegistryOpsV1.step(context, call, id)->0;
            let reply = ReplyView::Versions { pattern: is_pattern, versions: are };
            let read = after(channels, s, reply);
            &&& Handler::RegistryOpsV1.step(context, call, id) is Some
            &&& tuple_of(argument) == Some(parts) && parts.len() == 2 && string_of(parts[0]) is Some
                && list_of(parts[1]) == Some(listed) && are.len() == strings_among(listed).len()
                ==> {
                let pattern = string_of(parts[0])->0;
                let candidates = strings_among(listed);
                &&& asks(s, ActionView::ReadVersions { pattern, versions: candidates })
                &&& takes(s, reply)
                &&& if is_pattern {
                    asks_for_text(
                        channels,
                        read,
                        ActionView::BestVersion {
                            pattern,
                            versions: versions_among(candidates, are),
                        },
                        best,
                        ack,
                    )
                } else {
                    responds(channels, read, nil(), ack)
                }
            }
            &&& tuple_of(argument) is None || (tuple_of(argument) == Some(parts) && (parts.len()
                != 2 || string_of(parts[0]) is None || list_of(parts[1]) is None)) ==> responds(
                channels,
                s,
                nil(),
                ack,
            )
        }),
{
    lemma_registry_words();
}

/// Any other operation of the registry's helpers is refused.
pub proof fn law_other_registry_operations_are_refused(
    context: ContextView,
    call: CallView,
    id: Seq<char>,
    op: ParView,
    argument: ParView,
    ack: ParView,
)
    requires
        called_with(call, seq![op, argument, ack]),
        string_of(op) != Some("buildUri"@),
    ensures
        Handler::RegistryOps.step(context, call, id) matches Some(s) && refuses(s, "registry_ops"@),
        string_of(op) != Some("parseVersionedUri"@) && string_of(op) != Some("matchesVersion"@)
            && string_of(op) != Some("selectBestVersion"@) ==> (Handler::RegistryOpsV1.step(
            context,
            call,
            id,
        ) matches Some(s) && refuses(s, "registry_ops_v1"@)),
{
}

/// A list of nothing offers nothing; one more thing in a list, or one more candidate,
/// is offered behind the others exactly if it is a string, or a version.
pub proof fn law_what_one_more_candidate_adds(
    ps: Seq<ParView>,
    p: ParView,
    candidates: Seq<Seq<char>>,
    are: Seq<bool>,
    c: Seq<char>,
    is_version: bool,
)
    requires
        are.len() == candidates.len(),
    ensures
        strings_among(Seq::empty()) == Seq::<Seq<char>>::empty(),
        strings_among(ps.push(p)) == match string_of(p) {
            Some(s) => strings_among(ps).push(s),
            None => strings_among(ps),
        },
        versions_among(Seq::empty(), Seq::empty()) == Seq::<Seq<char>>::empty(),
        versions_among(candidates.push(c), are.push(is_version)) == if is_version {
            versions_among(candidates, are).push(c)
        } else {
            versions_among(candidates, are)
        },
{
    assert(ps.push(p).drop_last() =~= ps);
    let more = candidates.push(c);
    assert(more.drop_last() =~= candidates);
    assert(more.last() == c);
    assert(are.push(is_version)[candidates.len() as int] == is_version);
    lemma_flags_behind_do_not_count(candidates, are.push(is_version), are);
}

proof fn lemma_flags_behind_do_not_count(
    candidates: Seq<Seq<char>>,
    are: Seq<bool>,
    other: Seq<bool>,
)
    requires
        forall|i: int| 0 <= i < candidates.len() ==> are[i] == other[i],
    ensures
        versions_among(candidates, are) == versions_among(candidates, other),
    decreases candidates.len(),
{
    if candidates.len() > 0 {
        lemma_flags_behind_do_not_count(candidates.drop_last(), are, other);
        assert(are[candidates.len() - 1] == other[candidates.len() - 1]);
    }
}

/// What a URN is bound to is sent on the channel, and nothing is returned. A URN that
/// is not bound is parsed: a versioned one goes to the versioned registry, as a string
/// and with the channel to answer on; any other is an error that tells it.
pub proof fn law_a_urn_is_resolved(
    channels: Map<Seq<char>, ParView>,
    context: ContextView,
    call: CallView,
    id: Seq<char>,
    p: ParView,
    ret: ParView,
    urn: Seq<char>,
    parts: UrnView,
    came: Seq<ParView>,
    e: ErrorView,
)
    requires
        called_with(call, seq![p, ret]),
        string_of(p) == Some(urn) || (string_of(p) is None && uri_of(p) == Some(urn)),
    ensures
        ({
            let s = Handler::RegistryLookup.step(context, call, id)->0;
            let sends = if context.urn_map.contains_key(urn) {
                s
            } else {
                after(channels, s, ReplyView::Urn(Some(parts)))
            };
            &&& Handler::RegistryLookup.step(context, call, id) is Some
            &&& if context.urn_map.contains_key(urn) {
                asks(
                    s,
                    ActionView::Produce { data: seq![context.urn_map[urn]], channel: ret },
                )
            } else {
                &&& asks(s, ActionView::ParseUrn(urn))
                &&& takes(s, ReplyView::Urn(None)) && takes(s, ReplyView::Urn(Some(parts)))
                &&& after(channels, s, ReplyView::Urn(None)) == StepView::Finished(
                    Err(ErrorView::ReduceError("registry_lookup: unknown URN: "@ + urn)),
                )
                &&& asks(
                    sends,
                    ActionView::Produce {
                        data: seq![string_par("lookupVersion"@), string_par(urn), nil(), ret],
                        channel: name_par(seq![19u8]),
                    },
                )
            }
            &&& takes(sends, ReplyView::Produced(came)) && takes(sends, ReplyView::Failed(e))
            &&& after(channels, sends, ReplyView::Produced(came)) == done(Seq::empty())
            &&& after(channels, sends, ReplyView::Failed(e)) == StepView::Finished(Err(e))
        }),
{
}

/// What is neither a string nor a URI is not looked up.
pub proof fn law_what_is_no_urn_is_refused(
    context: ContextView,
    call: CallView,
    id: Seq<char>,
    p: ParView,
    ret: ParView,
)
    requires
        called_with(call, seq![p, ret]),
        string_of(p) is None,
        uri_of(p) is None,
    ensures
        Handler::RegistryLookup.step(context, call, id) matches Some(s) && refuses(
            s,
            "registry_lookup: urn arg must be a String or Uri"@,
        ),
{
}

/// A channel that is named by a byte is the private name of that byte alone; a process
/// is found as a bundle of its channel that can be written to and not read from.
pub proof fn law_channels(b: u8, p: ParView)
    ensures
        is_unforgeable(byte_channel(b), UnforgeableView::GPrivateBody(seq![b])),
        write_only(p).bundles == seq![BundleView { body: p, write_flag: true, read_flag: false }],
        write_only(p).processes.len() == 0 && write_only(p).exprs.len() == 0,
        write_only(p).unforgeables.len() == 0 && write_only(p).connectives.len() == 0,
{
}

/// The versions that are offered to a pattern are those of the candidates that
/// are versions, and no other.
pub proof fn law_only_versions_are_offered(
    candidates: Seq<Seq<char>>,
    are: Seq<bool>,
    c: Seq<char>,
)
    requires
        are.len() == candidates.len(),
    ensures
        versions_among(candidates, are).contains(c) <==> exists|i: int|
            0 <= i < candidates.len() && #[trigger] candidates[i] == c && are[i],
{
    lemma_versions_among(candidates, are, c);
}

proof fn lemma_versions_among(candidates: Seq<Seq<char>>, are: Seq<bool>, c: Seq<char>)
    requires
        candidates.len() <= are.len(),
    ensures
        versions_among(candidates, are).contains(c) <==> exists|i: int|
            0 <= i < candidates.len() && #[trigger] candidates[i] == c && are[i],
    decreases candidates.len(),
{
    if candidates.len() > 0 {
        let before = candidates.drop_last();
        let n = candidates.len() - 1;
        lemma_versions_among(before, are, c);
        let v = versions_among(before, are);
        let w = versions_among(candidates, are);
        if w.contains(c) {
            let k = choose|k: int| 0 <= k < w.len() && w[k] == c;
            if k < v.len() {
                assert(v[k] == c);
                assert(v.contains(c));
                let i = choose|i: int|
                    0 <= i < before.len() && #[trigger] before[i] == c && are[i];
                assert(candidates[i] == c);
            } else {
                assert(candidates[n] == c);
            }
        }
        if exists|i: int|
            0 <= i < candidates.len() && #[trigger] candidates[i] == c && are[i] {
            let i = choose|i: int|
                0 <= i < candidates.len() && #[trigger] candidates[i] == c && are[i];
            if i < n {
                assert(before[i] == c);
                assert(v.contains(c));
                let k = choose|k: int| 0 <= k < v.len() && v[k] == c;
                assert(w[k] == c);
            } else {
                assert(w[w.len() - 1] == c);
            }
        }
    }
}

// ---------------------------------------------------------------------------
// What tests set up
// ---------------------------------------------------------------------------
/// A sender that is set is the sender that is told, and nothing else changes;
/// likewise for the block number.
pub proof fn law_block_data_is_read_back(
    context: ContextView,
    set_sender: CallView,
    set_number: CallView,
    get: CallView,
    key: Seq<u8>,
    number: i64,
    ack: ParView,
    ret: ParView,
    id: Seq<char>,
)
    requires
        call_with(set_sender, seq![string_par("sender"@), bytes_par(key), ack]),
        call_with(
            set_number,
            seq![string_par("blockNumber"@), number_par(number), ack],
        ),
        call_with(get, seq![ret]),
    ensures
        ({
            let h = Handler::BlockDataSet;
            let after = h.context_after(context, set_sender);
            &&& after == (ContextView {
                block_data: BlockDataView { sender: key, ..context.block_data },
                ..context
            })
            &&& Handler::GetBlockData.step(after, get, id) == Some(
                return_on(
                    block_data_output(BlockDataView { sender: key, ..context.block_data }),
                    ret,
                ),
            )
        }),
        ({
            let after = Handler::BlockDataSet.context_after(context, set_number);
            &&& after == (ContextView {
                block_data: BlockDataView { block_number: number, ..context.block_data },
                ..context
            })
            &&& Handler::GetBlockData.step(after, get, id) == Some(
                return_on(
                    block_data_output(
                        BlockDataView { block_number: number, ..context.block_data },
                    ),
                    ret,
                ),
            )
        }),
{
    reveal_strlit("sender");
    reveal_strlit("blockNumber");
    assert("sender"@.len() != "blockNumber"@.len());
    assert(string_of(string_par("sender"@)) == Some("sender"@));
    assert(string_of(string_par("blockNumber"@)) == Some("blockNumber"@));
    assert(bytes_of(bytes_par(key)) == Some(key));
    assert(number_of(number_par(number)) == Some(number));
}

/// The invalid blocks that are set are those that are told, and nothing else
/// changes.
pub proof fn law_invalid_blocks_are_read_back(
    context: ContextView,
    set: CallView,
    get: CallView,
    blocks: ParView,
    ack: ParView,
    ret: ParView,
    id: Seq<char>,
)
    requires
        call_with(set, seq![blocks, ack]),
        call_with(get, seq![ret]),
    ensures
        ({
            let after = Handler::CasperInvalidBlocksSet.context_after(context, set);
            &&& after == (ContextView { invalid_blocks: blocks, ..context })
            &&& Handler::GetInvalidBlocks.step(after, get, id) == Some(
                return_on(seq![blocks], ret),
            )
        }),
{
}

/// The identity that is made from a key gives the key back, and the token that
/// is made is recognised.
pub proof fn law_what_is_made_is_recognised(
    context: ContextView,
    make_id: CallView,
    ask_id: CallView,
    make_token: CallView,
    ask_token: CallView,
    key: Seq<u8>,
    ack: ParView,
    ret: ParView,
    id: Seq<char>,
)
    requires
        call_with(make_id, seq![string_par("deployerId"@), bytes_par(key), ack]),
        call_with(ask_id, seq![string_par("pubKeyBytes"@), deployer_id_par(key), ret]),
        call_with(make_token, seq![ack]),
        call_with(ask_token, seq![string_par("check"@), sys_auth_token_par(), ret]),
    ensures
        Handler::DeployerIdMake.step(context, make_id, id) == Some(
            return_on(seq![deployer_id_par(key)], ack),
        ),
        Handler::DeployerIdOps.step(context, ask_id, id) == Some(pass_on(bytes_par(key), ret)),
        Handler::SysAuthTokenMake.step(context, make_token, id) == Some(
            return_on(seq![sys_auth_token_par()], ack),
        ),
        Handler::SysAuthTokenOps.step(context, ask_token, id) == Some(
            pass_on(bool_par(true), ret),
        ),
{
    assert(string_of(string_par("deployerId"@)) == Some("deployerId"@));
    assert(string_of(string_par("pubKeyBytes"@)) == Some("pubKeyBytes"@));
    assert(string_of(string_par("check"@)) == Some("check"@));
    assert(bytes_of(bytes_par(key)) == Some(key));
}

// ---------------------------------------------------------------------------
// Assertions of tests
// ---------------------------------------------------------------------------
/// The arguments of an assertion that compares.
pub open spec fn comparison_args(
    test_name: Seq<char>,
    attempt: i64,
    expected: ParView,
    operator: Seq<char>,
    actual: ParView,
    clue: Seq<char>,
    ack: ParView,
) -> Seq<ParView> {
    seq![
        string_par(test_name),
        number_par(attempt),
        tuple_par(seq![expected, string_par(operator), actual]),
        string_par(clue),
        ack,
    ]
}

/// A comparison answers whether two processes are the same, or differ. The test
/// goes on exactly if they are, or do, and read so; otherwise it fails with its
/// clue. For the same two processes, one of the two comparisons answers `true`.
pub proof fn law_comparisons(
    urns: Map<Seq<char>, ParView>,
    call: CallView,
    test_name: Seq<char>,
    attempt: i64,
    expected: ParView,
    wanted: bool,
    actual: ParView,
    clue: Seq<char>,
    ack: ParView,
    sent: Seq<ParView>,
    actual_text: Seq<char>,
    expected_text: Seq<char>,
)
    requires
        call_with(
            call,
            comparison_args(
                test_name,
                attempt,
                expected,
                if wanted {
                    "=="@
                } else {
                    "!="@
                },
                actual,
                clue,
                ack,
            ),
        ),
    ensures
        ({
            let s = handle_message_step(call);
            let output = seq![bool_par((actual == expected) == wanted)];
            let replies = seq![
                ReplyView::Produced(sent),
                ReplyView::Rendered { actual: actual_text, expected: expected_text },
            ];
            &&& s matches StepView::Perform(a, _) && a == (ActionView::Produce {
                data: output,
                channel: ack,
            })
            &&& run(urns, s, replies) == if (actual == expected) == wanted && (actual_text
                == expected_text) == wanted {
                finished(output)
            } else {
                StepView::AssertionFailed(clue_text(clue, attempt))
            }
        }),
{
    reveal_strlit("==");
    reveal_strlit("!=");
    assert("=="@[0] != "!="@[0]);
    let operator = if wanted {
        "=="@
    } else {
        "!="@
    };
    let parts = seq![expected, string_par(operator), actual];
    assert(tuple_of(tuple_par(parts)) == Some(parts));
    assert(string_of(string_par(operator)) == Some(operator));
    assert(comparison_of(tuple_par(parts)) == Some((expected, operator, actual)));
    assert(string_of(string_par(test_name)) == Some(test_name));
    assert(string_of(string_par(clue)) == Some(clue));
    assert(number_of(number_par(attempt)) == Some(attempt));
    let s = handle_message_step(call);
    let p = s->Perform_1;
    let r0 = ReplyView::Produced(sent);
    let r1 = ReplyView::Rendered { actual: actual_text, expected: expected_text };
    let replies = seq![r0, r1];
    assert(replies.drop_first() =~= seq![r1]);
    let s1 = next(urns, p, r0);
    assert(run(urns, s, replies) == run(urns, s1, seq![r1]));
    lemma_run_one(urns, s1, r1);
}

/// A condition is answered as it is. The test goes on exactly if it holds.
pub proof fn law_conditions(
    urns: Map<Seq<char>, ParView>,
    call: CallView,
    test_name: Seq<char>,
    attempt: i64,
    condition: bool,
    clue: Seq<char>,
    ack: ParView,
    sent: Seq<ParView>,
)
    requires
        call_with(
            call,
            seq![
                string_par(test_name),
                number_par(attempt),
                bool_par(condition),
                string_par(clue),
                ack,
            ],
        ),
    ensures
        handle_message_step(call) matches StepView::Perform(a, _) && a == (ActionView::Produce {
            data: seq![bool_par(condition)],
            channel: ack,
        }),
        run(urns, handle_message_step(call), seq![ReplyView::Produced(sent)]) == if condition {
            finished(seq![bool_par(condition)])
        } else {
            StepView::AssertionFailed(clue_text(clue, attempt))
        },
{
    assert(string_of(string_par(test_name)) == Some(test_name));
    assert(string_of(string_par(clue)) == Some(clue));
    assert(number_of(number_par(attempt)) == Some(attempt));
    assert(tuple_of(bool_par(condition)) is None);
    lemma_run_one(urns, handle_message_step(call), ReplyView::Produced(sent));
}

/// An assertion is read from five arguments of the right kinds, and a comparison from a
/// tuple of three with a string between the two sides: each part from its own place. The
/// word that a suite has finished is a boolean by itself.
pub proof fn law_how_assertions_are_read(
    args: Seq<ParView>,
    t: AssertView,
    p: ParView,
    expected: ParView,
    operator: Seq<char>,
    actual: ParView,
    word: bool,
)
    ensures
        assert_of(args) == Some(t) <==> args.len() == 5 && string_of(args[0]) == Some(t.test_name)
            && number_of(args[1]) == Some(t.attempt) && args[2] == t.assertion && string_of(args[3])
            == Some(t.clue) && args[4] == t.ack,
        comparison_of(p) == Some((expected, operator, actual)) <==> (tuple_of(p) is Some
            && tuple_of(p)->0.len() == 3 && tuple_of(p)->0[0] == expected && string_of(
            tuple_of(p)->0[1],
        ) == Some(operator) && tuple_of(p)->0[2] == actual),
        set_finished_of(args) == Some(word) <==> args.len() == 1 && bool_of(args[0]) == Some(word),
{
}

/// An assertion of a test holds exactly if what it says is so.
pub proof fn law_when_an_assertion_holds(
    test_name: String,
    is_success: bool,
    one: Par,
    actual: Par,
    clue: String,
)
    ensures
        (RhoTestAssertion::RhoAssertTrue { test_name, is_success, clue }).holds() == is_success,
        (RhoTestAssertion::RhoAssertEquals { test_name, expected: one, actual, clue }).holds() == (
        actual@ == one@),
        (RhoTestAssertion::RhoAssertNotEquals { test_name, unexpected: one, actual, clue }).holds()
            == (actual@ != one@),
{
}

/// A pair is read from a tuple of two, in its order; a URN from a string or from a URI;
/// and a text is answered as a string, or as `Nil` where there is none.
pub proof fn law_how_pairs_and_urns_are_read(
    p: ParView,
    x: ParView,
    y: ParView,
    urn: Seq<char>,
    o: Option<Seq<char>>,
)
    ensures
        pair_of(p) == Some((x, y)) <==> (tuple_of(p) is Some && tuple_of(p)->0.len() == 2
            && tuple_of(p)->0[0] == x && tuple_of(p)->0[1] == y),
        urn_of(p) == Some(urn) <==> string_of(p) == Some(urn) || (string_of(p) is None && uri_of(p)
            == Some(urn)),
        string_or_nil(o) == (if o is Some {
            string_par(o->0)
        } else {
            nil()
        }),
{
}

/// An assertion that is neither a comparison nor a condition is answered with `false`,
/// and then it is an error that shows the assertion in full.
pub proof fn law_an_assertion_that_cannot_be_read(
    urns: Map<Seq<char>, ParView>,
    context: ContextView,
    call: CallView,
    id: Seq<char>,
    args: Seq<ParView>,
    came: Seq<ParView>,
    e: ErrorView,
    text: Seq<char>,
)
    requires
        called_with(call, args),
        args.len() == 5,
        string_of(args[0]) is Some && number_of(args[1]) is Some && string_of(args[3]) is Some,
        bool_of(args[2]) is None,
        tuple_of(args[2]) matches Some(parts) ==> parts.len() != 3 || string_of(parts[1]) is None,
    ensures
        ({
            let s = Handler::HandleMessage.step(context, call, id)->0;
            let told = after(urns, s, ReplyView::Produced(came));
            &&& Handler::HandleMessage.step(context, call, id) is Some
            &&& asks(s, ActionView::Produce { data: seq![bool_par(false)], channel: args[4] })
            &&& takes(s, ReplyView::Produced(came)) && takes(s, ReplyView::Failed(e))
            &&& after(urns, s, ReplyView::Failed(e)) == StepView::Finished(Err(e))
            &&& asks(told, ActionView::Describe(args[2]))
            &&& takes(told, ReplyView::Text(text))
            &&& after(urns, told, ReplyView::Text(text)) == StepView::Finished(
                Err(ErrorView::BugFoundError("Failed to evaluate assertion: "@ + text)),
            )
        }),
{
}

/// A test claims that something holds, that two processes are the same, or that they
/// differ. The claim is answered on its channel: `true` exactly if it is so. Where it is
/// not, the test fails, with its clue and the number of the attempt; it fails
/// only there, or where two processes read otherwise than they are.
pub proof fn law_a_claim_is_answered_for_what_it_is(
    urns: Map<Seq<char>, ParView>,
    context: ContextView,
    call: CallView,
    id: Seq<char>,
    args: Seq<ParView>,
    came: Seq<ParView>,
    e: ErrorView,
    text: Seq<char>,
    other: Seq<char>,
    holds: bool,
)
    requires
        called_with(call, args),
        args.len() == 5,
        string_of(args[0]) is Some && number_of(args[1]) is Some && string_of(args[3]) is Some,
        match tuple_of(args[2]) {
            Some(parts) => parts.len() == 3 && ((string_of(parts[1]) == Some("=="@) && holds == (
            parts[2] == parts[0])) || (string_of(parts[1]) == Some("!="@) && holds == (parts[2]
                != parts[0]))),
            None => bool_of(args[2]) == Some(holds),
        },
    ensures
        ({
            let s = Handler::HandleMessage.step(context, call, id)->0;
            let output = seq![bool_par(holds)];
            let failure = StepView::AssertionFailed(
                string_of(args[3])->0 + " (test attempt: "@ + int_text(
                    number_of(args[1])->0 as int,
                ) + ")"@,
            );
            let told = after(urns, s, ReplyView::Produced(came));
            let reply = ReplyView::Rendered { actual: text, expected: other };
            &&& Handler::HandleMessage.step(context, call, id) is Some
            &&& asks(s, ActionView::Produce { data: output, channel: args[4] })
            &&& takes(s, ReplyView::Produced(came)) && takes(s, ReplyView::Failed(e))
            &&& after(urns, s, ReplyView::Failed(e)) == StepView::Finished(Err(e))
            &&& match tuple_of(args[2]) {
                None => told == if holds {
                    done(output)
                } else {
                    failure
                },
                Some(parts) => {
                    &&& asks(
                        told,
                        ActionView::Render { actual: parts[2], expected: parts[0] },
                    )
                    &&& takes(told, reply)
                    &&& after(urns, told, reply) == if holds && (text == other) == (string_of(
                        parts[1],
                    ) == Some("=="@)) {
                        done(output)
                    } else {
                        failure
                    }
                },
            }
        }),
{
    reveal_strlit("==");
    reveal_strlit("!=");
    assert("=="@[0] != "!="@[0]);
}

/// The word that a suite has finished is taken, whichever it is. A comparison by another
/// operator is refused, and so is anything that is neither an assertion nor that word.
pub proof fn law_other_words_of_tests(
    context: ContextView,
    call: CallView,
    id: Seq<char>,
    args: Seq<ParView>,
    finished_well: bool,
    parts: Seq<ParView>,
)
    requires
        called_with(call, args),
    ensures
        args.len() == 1 && bool_of(args[0]) == Some(finished_well) ==> Handler::HandleMessage.step(
            context,
            call,
            id,
        ) == Some(done(Seq::empty())),
        args.len() == 5 && string_of(args[0]) is Some && number_of(args[1]) is Some && string_of(
            args[3],
        ) is Some && tuple_of(args[2]) == Some(parts) && parts.len() == 3 && string_of(parts[1])
            is Some && string_of(parts[1]) != Some("=="@) && string_of(parts[1]) != Some("!="@) ==> (
        Handler::HandleMessage.step(context, call, id) matches Some(s) && refuses(
            s,
            "handle_message"@,
        )),
        (args.len() != 5 && args.len() != 1) || (args.len() == 1 && bool_of(args[0]) is None) || (
        args.len() == 5 && (string_of(args[0]) is None || number_of(args[1]) is None || string_of(
            args[3],
        ) is None)) ==> (Handler::HandleMessage.step(context, call, id) matches Some(s) && refuses(
            s,
            "handle_message"@,
        )),
{
}

/// A message is logged at the level that is asked for, and nothing comes of it. What is
/// no level is refused.
pub proof fn law_a_message_is_logged_at_its_level(
    urns: Map<Seq<char>, ParView>,
    context: ContextView,
    call: CallView,
    id: Seq<char>,
    level: ParView,
    message: ParView,
)
    requires
        called_with(call, seq![level, message]),
    ensures
        ({
            let s = Handler::StdLog.step(context, call, id)->0;
            let log_at = |l: LogLevel|
                does(urns, s, ActionView::Log { level: l, message }, done(Seq::empty()));
            let word = string_of(level);
            &&& Handler::StdLog.step(context, call, id) is Some
            &&& word == Some("trace"@) ==> log_at(LogLevel::Trace)
            &&& word == Some("debug"@) ==> log_at(LogLevel::Debug)
            &&& word == Some("info"@) ==> log_at(LogLevel::Info)
            &&& word == Some("warn"@) ==> log_at(LogLevel::Warn)
            &&& word == Some("error"@) ==> log_at(LogLevel::Error)
            &&& word != Some("trace"@) && word != Some("debug"@) && word != Some("info"@) && word
                != Some("warn"@) && word != Some("error"@) ==> refuses(s, "std_log"@)
        }),
{
    reveal_strlit("trace");
    reveal_strlit("debug");
    reveal_strlit("info");
    reveal_strlit("warn");
    reveal_strlit("error");
    assert("trace"@[0] == 't' && "debug"@[0] == 'd' && "info"@[0] == 'i');
    assert("warn"@[0] == 'w' && "error"@[0] == 'e');
}

/// The identity of the deployer with a key is made and sent, and so is the system's
/// token. What is asked for in other words, or without a key, is refused.
pub proof fn law_identities_are_made(
    urns: Map<Seq<char>, ParView>,
    context: ContextView,
    call: CallView,
    token: CallView,
    id: Seq<char>,
    word: ParView,
    key: ParView,
    ack: ParView,
)
    requires
        called_with(call, seq![word, key, ack]),
        called_with(token, seq![ack]),
    ensures
        Handler::DeployerIdMake.step(context, call, id) matches Some(s) && if string_of(word)
            == Some("deployerId"@) && bytes_of(key) is Some {
            sends_back(urns, s, seq![deployer_id_par(bytes_of(key)->0)], ack)
        } else {
            refuses(s, "deployer_id_make"@)
        },
        Handler::SysAuthTokenMake.step(context, token, id) matches Some(s) && sends_back(
            urns,
            s,
            seq![sys_auth_token_par()],
            ack,
        ),
{
}

/// The signature of a hash under a key is sent and returned. A key of another length
/// than thirty-two is an error that tells its length. Where there is no signature, it
/// is for want of a key, or else of a signature; what is not bytes is refused.
pub proof fn law_a_hash_is_signed(
    urns: Map<Seq<char>, ParView>,
    context: ContextView,
    call: CallView,
    id: Seq<char>,
    hash: ParView,
    key: ParView,
    ack: ParView,
)
    requires
        called_with(call, seq![hash, key, ack]),
    ensures
        match (bytes_of(hash), bytes_of(key)) {
            (Some(h), Some(k)) => if k.len() != 32 {
                Handler::Secp256k1Sign.step(context, call, id) == Some(
                    StepView::Finished(
                        Err::<Seq<ParView>, ErrorView>(
                            ErrorView::BugFoundError(
                                "Invalid private key length: must be 32 bytes, got "@ + nat_text(
                                    k.len(),
                                ),
                            ),
                        ),
                    ),
                )
            } else {
                match secp256k1_der_signature(k, h) {
                    Some(signature) => Handler::Secp256k1Sign.step(context, call, id) matches Some(
                        s,
                    ) && sends_back(urns, s, seq![bytes_par(signature)], ack),
                    None => Handler::Secp256k1Sign.step(context, call, id) is None
                        && signing_fault(call) == if is_secp256k1_key(k) {
                        SigningFault::NotSigned
                    } else {
                        SigningFault::InvalidKey
                    },
                }
            },
            _ => Handler::Secp256k1Sign.step(context, call, id) matches Some(s) && refuses(
                s,
                "secp256k1_sign"@,
            ),
        },
        SigningFault::NotSigned.words() == "Failed to sign prehash"@,
        SigningFault::InvalidKey.words() == "Invalid private key"@,
{
}

/// What is set of a block or of the blocks found invalid is acknowledged with `Nil`.
/// Setting the sender takes bytes and changes the sender alone, setting the number takes
/// a number and changes the number alone; anything else is refused.
pub proof fn law_what_is_set_is_acknowledged(
    urns: Map<Seq<char>, ParView>,
    context: ContextView,
    call: CallView,
    set: CallView,
    id: Seq<char>,
    word: ParView,
    value: ParView,
    ack: ParView,
)
    requires
        called_with(call, seq![word, value, ack]),
        called_with(set, seq![value, ack]),
    ensures
        ({
            let s = Handler::BlockDataSet.step(context, call, id)->0;
            let set_to = Handler::BlockDataSet.context_after(context, call);
            &&& Handler::BlockDataSet.step(context, call, id) is Some
            &&& if string_of(word) == Some("sender"@) && bytes_of(value) is Some {
                &&& sends_back(urns, s, seq![nil()], ack)
                &&& set_to.block_data.sender == bytes_of(value)->0
                &&& set_to == (ContextView {
                    block_data: BlockDataView {
                        sender: set_to.block_data.sender,
                        ..context.block_data
                    },
                    ..context
                })
            } else if string_of(word) == Some("blockNumber"@) && number_of(value) is Some {
                &&& sends_back(urns, s, seq![nil()], ack)
                &&& set_to.block_data.block_number == number_of(value)->0
                &&& set_to == (ContextView {
                    block_data: BlockDataView {
                        block_number: set_to.block_data.block_number,
                        ..context.block_data
                    },
                    ..context
                })
            } else {
                refuses(s, "block_data_set"@) && set_to == context
            }
        }),
        Handler::CasperInvalidBlocksSet.step(context, set, id) matches Some(s) && sends_back(
            urns,
            s,
            seq![nil()],
            ack,
        ),
        Handler::CasperInvalidBlocksSet.context_after(context, set) == (ContextView {
            invalid_blocks: value,
            ..context
        }),
{
}

/// No process but those two changes anything that the others find.
pub proof fn law_only_setting_changes_the_context(
    h: Handler,
    context: ContextView,
    call: CallView,
)
    requires
        h != Handler::BlockDataSet,
        h != Handler::CasperInvalidBlocksSet,
    ensures
        h.context_after(context, call) == context,
{
}

/// A process for tests takes as many arguments as its definition says: any other call of
/// it is refused, but that assertions and the word that a suite has finished are told
/// apart by how many arguments they have.
pub proof fn law_a_test_process_takes_what_its_definition_says(
    i: int,
    context: ContextView,
    call: CallView,
    id: Seq<char>,
    args: Seq<ParView>,
)
    requires
        0 <= i < test_framework().len(),
        called_with(call, args),
    ensures
        test_framework()[i].handler != Handler::HandleMessage && args.len()
            != test_framework()[i].arity ==> (test_framework()[i].handler.step(
            context,
            call,
            id,
        ) matches Some(s) && (s matches StepView::Finished(Err(ErrorView::IllegalArgumentError(
            _,
        ))))),
        i <= 1 ==> test_framework()[i].handler == Handler::HandleMessage,
        test_framework()[0].arity == 5 && test_framework()[1].arity == 1,
        test_framework()[i].remainder is None,
{
}

} // verus!
