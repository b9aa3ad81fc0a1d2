//! System processes around addresses, identities and the registry.
use vstd::prelude::*;

use crate::contract_call::{call_view, lemma_pars, pass_on, refuse, refused, respond};
use crate::contract_call::{one, CallView, ContractArgs, ContractCall};
use crate::exchange::{texts_view, Action, ActionView, HashAlgorithm, ParsedUrn, Pending};
use crate::exchange::{PendingView, Step, StepView, UrnView};
use crate::par::{pars_view, Par, ParView};
use crate::rho_type::{bool_par, bytes_of, bytes_par, deployer_id_of, is_sys_auth_token, list_of};
use crate::rho_type::{name_of, nil, string_of, string_par, text_view, tuple_of, tuple_par, uri_of};
use crate::rho_type::{RhoBoolean, RhoByteArray, RhoDeployerId, RhoList, RhoName, RhoString};
use crate::rho_type::{RhoSysAuthToken, RhoTuple, RhoUri};
use crate::system_processes::SystemProcesses;
use crate::text::is_text;

verus! {

// ---------------------------------------------------------------------------
// Addresses and identities
// ---------------------------------------------------------------------------
pub open spec fn vault_address_step(call: CallView) -> StepView {
    match call.exactly(3) {
        Some(a) => {
            let command = string_of(a[0]);
            let ack = a[2];
            let wait = PendingView::TextOrNil { ack };
            if command == Some("validate"@) {
                match string_of(a[1]) {
                    Some(address) => StepView::Perform(ActionView::ParseAddress(address), wait),
                    None => pass_on(nil(), ack),
                }
            } else if command == Some("fromPublicKey"@) {
                match bytes_of(a[1]) {
                    Some(key) => StepView::Perform(ActionView::AddressOfKey(key), wait),
                    None => pass_on(nil(), ack),
                }
            } else if command == Some("fromDeployerId"@) {
                match deployer_id_of(a[1]) {
                    Some(id) => StepView::Perform(ActionView::AddressOfDeployer(id), wait),
                    None => pass_on(nil(), ack),
                }
            } else if command == Some("fromUnforgeable"@) {
                match name_of(a[1]) {
                    Some(id) => StepView::Perform(ActionView::AddressOfName(id), wait),
                    None => pass_on(nil(), ack),
                }
            } else {
                refused("vault_address"@)
            }
        },
        None => refused("vault_address"@),
    }
}

pub open spec fn deployer_id_ops_step(call: CallView) -> StepView {
    match call.exactly(3) {
        Some(a) => if string_of(a[0]) == Some("pubKeyBytes"@) {
            pass_on(
                match deployer_id_of(a[1]) {
                    Some(key) => bytes_par(key),
                    None => nil(),
                },
                a[2],
            )
        } else {
            refused("deployer_id_ops"@)
        },
        None => refused("deployer_id_ops"@),
    }
}

pub open spec fn sys_auth_token_ops_step(call: CallView) -> StepView {
    match call.exactly(3) {
        Some(a) => if string_of(a[0]) == Some("check"@) {
            pass_on(bool_par(is_sys_auth_token(a[1])), a[2])
        } else {
            refused("sys_auth_token_ops"@)
        },
        None => refused("sys_auth_token_ops"@),
    }
}

// ---------------------------------------------------------------------------
// The registry
// ---------------------------------------------------------------------------
/// Bytes are hashed, so that the hash can be written as a URI. Anything else has
/// no URI.
pub open spec fn build_uri_step(argument: ParView, ack: ParView) -> StepView {
    match bytes_of(argument) {
        Some(data) => StepView::Perform(
            ActionView::Hash { algorithm: HashAlgorithm::Blake2b256, data },
            PendingView::UriHashed { ack },
        ),
        None => pass_on(nil(), ack),
    }
}

pub open spec fn registry_ops_step(call: CallView) -> StepView {
    match call.exactly(3) {
        Some(a) => if string_of(a[0]) == Some("buildUri"@) {
            build_uri_step(a[1], a[2])
        } else {
            refused("registry_ops"@)
        },
        None => refused("registry_ops"@),
    }
}

pub open spec fn parse_uri_step(argument: ParView, ack: ParView) -> StepView {
    match string_of(argument) {
        Some(urn) => StepView::Perform(
            ActionView::ParseUrn(urn),
            PendingView::UrnParsed { ack },
        ),
        None => pass_on(nil(), ack),
    }
}

/// The two parts of a pair.
pub open spec fn pair_of(p: ParView) -> Option<(ParView, ParView)> {
    match tuple_of(p) {
        Some(ps) => if ps.len() == 2 {
            Some((ps[0], ps[1]))
        } else {
            None
        },
        None => None,
    }
}

/// What stands in a pair of two strings.
pub open spec fn string_pair_of(p: ParView) -> Option<(Seq<char>, Seq<char>)> {
    match pair_of(p) {
        Some((x, y)) => match (string_of(x), string_of(y)) {
            (Some(s), Some(t)) => Some((s, t)),
            _ => None,
        },
        None => None,
    }
}

/// A pattern and a version are read; anything else does not match.
pub open spec fn matches_version_step(argument: ParView, ack: ParView) -> StepView {
    match string_pair_of(argument) {
        Some((pattern, version)) => StepView::Perform(
            ActionView::ReadVersions { pattern, versions: seq![version] },
            PendingView::VersionRead { pattern, version, ack },
        ),
        None => pass_on(bool_par(false), ack),
    }
}

/// The strings among processes, in their order.
pub open spec fn strings_among(ps: Seq<ParView>) -> Seq<Seq<char>>
    decreases ps.len(),
{
    if ps.len() == 0 {
        Seq::empty()
    } else {
        match string_of(ps.last()) {
            Some(s) => strings_among(ps.drop_last()).push(s),
            None => strings_among(ps.drop_last()),
        }
    }
}

/// A pattern, and the strings of a list.
pub open spec fn candidates_of(p: ParView) -> Option<(Seq<char>, Seq<Seq<char>>)> {
    match pair_of(p) {
        Some((x, y)) => match (string_of(x), list_of(y)) {
            (Some(pattern), Some(ps)) => Some((pattern, strings_among(ps))),
            _ => None,
        },
        None => None,
    }
}

/// A pattern and the strings of a list are read; with anything else there is no
/// best version.
pub open spec fn select_best_version_step(argument: ParView, ack: ParView) -> StepView {
    match candidates_of(argument) {
        Some((pattern, candidates)) => StepView::Perform(
            ActionView::ReadVersions { pattern, versions: candidates },
            PendingView::VersionsRead { pattern, candidates, ack },
        ),
        None => pass_on(nil(), ack),
    }
}

pub open spec fn registry_ops_v1_step(call: CallView) -> StepView {
    match call.exactly(3) {
        Some(a) => {
            let op = string_of(a[0]);
            if op == Some("buildUri"@) {
                build_uri_step(a[1], a[2])
            } else if op == Some("parseVersionedUri"@) {
                parse_uri_step(a[1], a[2])
            } else if op == Some("matchesVersion"@) {
                matches_version_step(a[1], a[2])
            } else if op == Some("selectBestVersion"@) {
                select_best_version_step(a[1], a[2])
            } else {
                refused("registry_ops_v1"@)
            }
        },
        None => refused("registry_ops_v1"@),
    }
}

/// A URN, written as a string or as a URI.
pub open spec fn urn_of(p: ParView) -> Option<Seq<char>> {
    match string_of(p) {
        Some(s) => Some(s),
        None => uri_of(p),
    }
}

/// What a URN is bound to is sent. Where it is bound to nothing, it may still be
/// a versioned one.
pub open spec fn registry_lookup_step(
    call: CallView,
    urns: Map<Seq<char>, ParView>,
) -> StepView {
    match call.exactly(2) {
        Some(a) => match urn_of(a[0]) {
            Some(urn) => if urns.contains_key(urn) {
                StepView::Perform(
                    ActionView::Produce { data: seq![urns[urn]], channel: a[1] },
                    PendingView::Returning { output: Seq::empty() },
                )
            } else {
                StepView::Perform(
                    ActionView::ParseUrn(urn),
                    PendingView::LookupParsed { urn, ret: a[1] },
                )
            },
            None => refused("registry_lookup: urn arg must be a String or Uri"@),
        },
        None => refused("registry_lookup"@),
    }
}

pub open spec fn string_or_nil(o: Option<Seq<char>>) -> ParView {
    match o {
        Some(s) => string_par(s),
        None => nil(),
    }
}

/// A versioned URN as a tuple of its parts. A part that is missing is `Nil`.
pub open spec fn urn_tuple(u: UrnView) -> ParView {
    tuple_par(
        seq![
            string_par(u.namespace),
            string_par(u.service_version),
            string_or_nil(u.pub_key),
            string_or_nil(u.project_id),
            string_or_nil(u.project_version),
        ],
    )
}

/// Whether a process is the given string.
fn is_string(p: &Par, s: &str) -> (r: bool)
    ensures
        r == (string_of(p@) == Some(s@)),
{
    match RhoString::unapply(p) {
        Some(t) => is_text(&t, s),
        None => false,
    }
}

/// The process of a text, or `Nil` where there is none.
pub(crate) fn text_or_nil(o: Option<String>) -> (r: Par)
    ensures
        r@ == string_or_nil(text_view(o)),
{
    match o {
        Some(s) => RhoString::create_par(s),
        None => Par::default(),
    }
}

/// A versioned URN as a tuple of its parts. A part that is missing is `Nil`.
pub fn parsed_urn_to_tuple(parsed: ParsedUrn) -> (r: Par)
    ensures
        r@ == urn_tuple(parsed@),
{
    let mut ps: Vec<Par> = Vec::new();
    ps.push(RhoString::create_par(parsed.namespace));
    ps.push(RhoString::create_par(parsed.service_version));
    ps.push(text_or_nil(parsed.pub_key));
    ps.push(text_or_nil(parsed.project_id));
    ps.push(text_or_nil(parsed.project_version));
    proof {
        lemma_pars(ps@);
        assert(pars_view(ps@) =~= urn_tuple(parsed@).exprs[0]->ETupleBody_0);
    }
    RhoTuple::create_par(ps)
}

/// The two parts of a pair.
pub fn unapply_tuple2(p: &Par) -> (r: Option<(Par, Par)>)
    ensures
        match r {
            Some((x, y)) => pair_of(p@) == Some((x@, y@)),
            None => pair_of(p@) is None,
        },
{
    match RhoTuple::unapply(p) {
        Some(ps) => {
            proof {
                lemma_pars(ps@);
            }
            if ps.len() == 2 {
                assert(pars_view(ps@)[0] == ps@[0]@ && pars_view(ps@)[1] == ps@[1]@);
                Some((ps[0].clone(), ps[1].clone()))
            } else {
                None
            }
        },
        None => None,
    }
}

/// The strings among processes, in their order.
fn collect_strings(ps: &Vec<Par>) -> (r: Vec<String>)
    ensures
        texts_view(r@) == strings_among(pars_view(ps@)),
{
    let ghost seen = pars_view(ps@);
    proof {
        lemma_pars(ps@);
        assert(seen.take(0) =~= Seq::<ParView>::empty());
    }
    let mut found: Vec<String> = Vec::new();
    let n: usize = ps.len();
    assert(texts_view(found@) =~= strings_among(seen.take(0)));
    for i in 0..n
        invariant
            n == ps.len(),
            seen == pars_view(ps@),
            seen.len() == n,
            forall|k: int| 0 <= k < n ==> #[trigger] seen[k] == ps@[k]@,
            texts_view(found@) == strings_among(seen.take(i as int)),
    {
        let ghost before = found@;
        proof {
            assert(seen.take(i + 1).drop_last() =~= seen.take(i as int));
            assert(seen.take(i + 1).last() == seen[i as int]);
        }
        match RhoString::unapply(&ps[i]) {
            Some(s) => {
                found.push(s);
                assert(texts_view(found@) =~= texts_view(before).push(s@));
            },
            None => {},
        }
    }
    assert(seen.take(n as int) =~= seen);
    found
}

/// Starts to find out whether a version satisfies a pattern.
pub fn matches_version(argument: &Par, ack: Par) -> (r: Step)
    ensures
        r@ == matches_version_step(argument@, ack@),
{
    let (pattern_par, version_par) = match unapply_tuple2(argument) {
        Some(pair) => pair,
        None => return respond(RhoBoolean::create_par(false), ack),
    };
    let pattern: String = match RhoString::unapply(&pattern_par) {
        Some(s) => s,
        None => return respond(RhoBoolean::create_par(false), ack),
    };
    let version: String = match RhoString::unapply(&version_par) {
        Some(s) => s,
        None => return respond(RhoBoolean::create_par(false), ack),
    };
    let mut versions: Vec<String> = Vec::new();
    versions.push(version.clone());
    assert(texts_view(versions@) =~= seq![version@]);
    Step::Perform(
        Action::ReadVersions { pattern: pattern.clone(), versions },
        Pending::VersionRead { pattern, version, ack },
    )
}

fn copy_texts(ts: &Vec<String>) -> (r: Vec<String>)
    ensures
        texts_view(r@) == texts_view(ts@),
{
    let mut r: Vec<String> = Vec::new();
    let n: usize = ts.len();
    for i in 0..n
        invariant
            n == ts.len(),
            r.len() == i,
            forall|k: int| 0 <= k < i ==> (#[trigger] r@[k])@ == ts@[k]@,
    {
        r.push(ts[i].clone());
    }
    assert(texts_view(r@) =~= texts_view(ts@));
    r
}

/// Starts to find out which version is the highest that satisfies a pattern.
pub fn select_best_version(argument: &Par, ack: Par) -> (r: Step)
    ensures
        r@ == select_best_version_step(argument@, ack@),
{
    let (pattern_par, versions_par) = match unapply_tuple2(argument) {
        Some(pair) => pair,
        None => return respond(Par::default(), ack),
    };
    let pattern: String = match RhoString::unapply(&pattern_par) {
        Some(s) => s,
        None => return respond(Par::default(), ack),
    };
    let version_list: Vec<Par> = match RhoList::unapply(&versions_par) {
        Some(ps) => ps,
        None => return respond(Par::default(), ack),
    };
    let candidates: Vec<String> = collect_strings(&version_list);
    Step::Perform(
        Action::ReadVersions { pattern: pattern.clone(), versions: copy_texts(&candidates) },
        Pending::VersionsRead { pattern, candidates, ack },
    )
}

fn build_uri(argument: &Par, ack: Par) -> (r: Step)
    ensures
        r@ == build_uri_step(argument@, ack@),
{
    match RhoByteArray::unapply(argument) {
        Some(data) => Step::Perform(
            Action::Hash { algorithm: HashAlgorithm::Blake2b256, data },
            Pending::UriHashed { ack },
        ),
        None => respond(Par::default(), ack),
    }
}

fn parse_versioned_uri(argument: &Par, ack: Par) -> (r: Step)
    ensures
        r@ == parse_uri_step(argument@, ack@),
{
    match RhoString::unapply(argument) {
        Some(urn) => Step::Perform(Action::ParseUrn(urn), Pending::UrnParsed { ack }),
        None => respond(Par::default(), ack),
    }
}

impl SystemProcesses {
    /// Checks vault addresses, and writes those of keys, deployers and names. What
    /// has no address is answered with `Nil`, and so is a valid address.
    pub fn vault_address(&self, contract_args: ContractArgs) -> (r: Step)
        ensures
            r@ == vault_address_step(call_view(contract_args)),
    {
        let call = match ContractCall::exactly(contract_args, 3) {
            Some(call) => call,
            None => return refuse("vault_address"),
        };
        let ack: Par = call.args[2].clone();
        let command: String = match RhoString::unapply(&call.args[0]) {
            Some(s) => s,
            None => return refuse("vault_address"),
        };
        let action: Option<Action> = if is_text(&command, "validate") {
            match RhoString::unapply(&call.args[1]) {
                Some(address) => Some(Action::ParseAddress(address)),
                None => None,
            }
        } else if is_text(&command, "fromPublicKey") {
            match RhoByteArray::unapply(&call.args[1]) {
                Some(key) => Some(Action::AddressOfKey(key)),
                None => None,
            }
        } else if is_text(&command, "fromDeployerId") {
            match RhoDeployerId::unapply(&call.args[1]) {
                Some(id) => Some(Action::AddressOfDeployer(id)),
                None => None,
            }
        } else if is_text(&command, "fromUnforgeable") {
            match RhoName::unapply(&call.args[1]) {
                Some(g) => Some(Action::AddressOfName(g.id)),
                None => None,
            }
        } else {
            return refuse("vault_address");
        };
        match action {
            Some(action) => Step::Perform(action, Pending::TextOrNil { ack }),
            None => respond(Par::default(), ack),
        }
    }

    /// Tells the public key of a deployer.
    pub fn deployer_id_ops(&self, contract_args: ContractArgs) -> (r: Step)
        ensures
            r@ == deployer_id_ops_step(call_view(contract_args)),
    {
        let call = match ContractCall::exactly(contract_args, 3) {
            Some(call) => call,
            None => return refuse("deployer_id_ops"),
        };
        if !is_string(&call.args[0], "pubKeyBytes") {
            return refuse("deployer_id_ops");
        }
        let response: Par = match RhoDeployerId::unapply(&call.args[1]) {
            Some(key) => RhoByteArray::create_par(key),
            None => Par::default(),
        };
        respond(response, call.args[2].clone())
    }

    /// Tells whether a process is the system's authentication token.
    pub fn sys_auth_token_ops(&self, contract_args: ContractArgs) -> (r: Step)
        ensures
            r@ == sys_auth_token_ops_step(call_view(contract_args)),
    {
        let call = match ContractCall::exactly(contract_args, 3) {
            Some(call) => call,
            None => return refuse("sys_auth_token_ops"),
        };
        if !is_string(&call.args[0], "check") {
            return refuse("sys_auth_token_ops");
        }
        let response: Par = RhoBoolean::create_par(RhoSysAuthToken::unapply(&call.args[1]));
        respond(response, call.args[2].clone())
    }

    /// Writes registry URIs.
    pub fn registry_ops(&self, contract_args: ContractArgs) -> (r: Step)
        ensures
            r@ == registry_ops_step(call_view(contract_args)),
    {
        let call = match ContractCall::exactly(contract_args, 3) {
            Some(call) => call,
            None => return refuse("registry_ops"),
        };
        if !is_string(&call.args[0], "buildUri") {
            return refuse("registry_ops");
        }
        build_uri(&call.args[1], call.args[2].clone())
    }

    /// Helps with versioned URNs.
    ///
    /// - `"buildUri"` writes the registry URI of bytes.
    /// - `"parseVersionedUri"` takes a versioned URN apart.
    /// - `"matchesVersion"` tells whether a version satisfies a pattern.
    /// - `"selectBestVersion"` picks the highest version of a list that satisfies
    ///   a pattern.
    pub fn registry_ops_v1(&self, contract_args: ContractArgs) -> (r: Step)
        ensures
            r@ == registry_ops_v1_step(call_view(contract_args)),
    {
        let call = match ContractCall::exactly(contract_args, 3) {
            Some(call) => call,
            None => return refuse("registry_ops_v1"),
        };
        let ack: Par = call.args[2].clone();
        let op: String = match RhoString::unapply(&call.args[0]) {
            Some(s) => s,
            None => return refuse("registry_ops_v1"),
        };
        if is_text(&op, "buildUri") {
            build_uri(&call.args[1], ack)
        } else if is_text(&op, "parseVersionedUri") {
            parse_versioned_uri(&call.args[1], ack)
        } else if is_text(&op, "matchesVersion") {
            matches_version(&call.args[1], ack)
        } else if is_text(&op, "selectBestVersion") {
            select_best_version(&call.args[1], ack)
        } else {
            refuse("registry_ops_v1")
        }
    }

    /// Resolves a URN.
    ///
    /// What the runtime has bound the URN to is sent. A versioned URN that it has
    /// not bound is handed to the versioned registry, which answers by itself. Any
    /// other URN is an error.
    pub fn registry_lookup(&self, contract_args: ContractArgs) -> (r: Step)
        ensures
            r@ == registry_lookup_step(call_view(contract_args), self.urn_map@),
    {
        let call = match ContractCall::exactly(contract_args, 2) {
            Some(call) => call,
            None => return refuse("registry_lookup"),
        };
        let ret: Par = call.args[1].clone();
        let urn: String = match RhoString::unapply(&call.args[0]) {
            Some(s) => s,
            None => match RhoUri::unapply(&call.args[0]) {
                Some(s) => s,
                None => return refuse("registry_lookup: urn arg must be a String or Uri"),
            },
        };
        match self.urn_map.get(urn.as_str()) {
            Some(stored) => {
                let output: Vec<Par> = Vec::new();
                assert(pars_view(output@) =~= Seq::<ParView>::empty());
                Step::Perform(
                    Action::Produce { data: one(stored.clone()), channel: ret },
                    Pending::Returning { output },
                )
            },
            None => Step::Perform(
                Action::ParseUrn(urn.clone()),
                Pending::LookupParsed { urn, ret },
            ),
        }
    }
}

} // verus!
