//! Rholang values inside processes: reading one out, and wrapping one up.
use vstd::prelude::*;

use crate::par::{copy_bytes, copy_pars, entries_view, lemma_parts, lemma_same_parts, pars_view};
use crate::par::{Expr, GPrivate, GUnforgeable, KeyValuePair, Par};
use crate::par::{ExprView, ParView, UnforgeableView};

verus! {

/// The process that does nothing.
pub open spec fn nil() -> ParView {
    ParView {
        processes: Seq::empty(),
        exprs: Seq::empty(),
        unforgeables: Seq::empty(),
        bundles: Seq::empty(),
        connectives: Seq::empty(),
    }
}

/// The process that is one expression.
pub open spec fn expr_par(e: ExprView) -> ParView {
    ParView { exprs: seq![e], ..nil() }
}

/// The process that is one unforgeable name.
pub open spec fn unforgeable_par(u: UnforgeableView) -> ParView {
    ParView { unforgeables: seq![u], ..nil() }
}

/// The expression of a process that has exactly one, with no process term and
/// no bundle beside it. Unforgeable names and connectives are not looked at.
pub open spec fn single_expr(p: ParView) -> Option<ExprView> {
    if p.processes.len() == 0 && p.bundles.len() == 0 && p.exprs.len() == 1 {
        Some(p.exprs[0])
    } else {
        None
    }
}

/// The unforgeable name of a process that has exactly one, with no process
/// term, no expression and no bundle beside it.
pub open spec fn single_unforgeable(p: ParView) -> Option<UnforgeableView> {
    if p.processes.len() == 0 && p.exprs.len() == 0 && p.bundles.len() == 0
        && p.unforgeables.len() == 1 {
        Some(p.unforgeables[0])
    } else {
        None
    }
}

pub open spec fn bool_of(p: ParView) -> Option<bool> {
    match single_expr(p) {
        Some(ExprView::GBool(b)) => Some(b),
        _ => None,
    }
}

pub open spec fn number_of(p: ParView) -> Option<i64> {
    match single_expr(p) {
        Some(ExprView::GInt(n)) => Some(n),
        _ => None,
    }
}

pub open spec fn string_of(p: ParView) -> Option<Seq<char>> {
    match single_expr(p) {
        Some(ExprView::GString(s)) => Some(s),
        _ => None,
    }
}

pub open spec fn uri_of(p: ParView) -> Option<Seq<char>> {
    match single_expr(p) {
        Some(ExprView::GUri(s)) => Some(s),
        _ => None,
    }
}

pub open spec fn bytes_of(p: ParView) -> Option<Seq<u8>> {
    match single_expr(p) {
        Some(ExprView::GByteArray(b)) => Some(b),
        _ => None,
    }
}

pub open spec fn list_of(p: ParView) -> Option<Seq<ParView>> {
    match single_expr(p) {
        Some(ExprView::EListBody(ps)) => Some(ps),
        _ => None,
    }
}

pub open spec fn tuple_of(p: ParView) -> Option<Seq<ParView>> {
    match single_expr(p) {
        Some(ExprView::ETupleBody(ps)) => Some(ps),
        _ => None,
    }
}

pub open spec fn name_of(p: ParView) -> Option<Seq<u8>> {
    match single_unforgeable(p) {
        Some(UnforgeableView::GPrivateBody(id)) => Some(id),
        _ => None,
    }
}

pub open spec fn deployer_id_of(p: ParView) -> Option<Seq<u8>> {
    match single_unforgeable(p) {
        Some(UnforgeableView::GDeployerIdBody(key)) => Some(key),
        _ => None,
    }
}

pub open spec fn is_sys_auth_token(p: ParView) -> bool {
    single_unforgeable(p) == Some(UnforgeableView::GSysAuthTokenBody)
}

pub open spec fn bool_par(b: bool) -> ParView {
    expr_par(ExprView::GBool(b))
}

pub open spec fn number_par(n: i64) -> ParView {
    expr_par(ExprView::GInt(n))
}

pub open spec fn string_par(s: Seq<char>) -> ParView {
    expr_par(ExprView::GString(s))
}

pub open spec fn uri_par(s: Seq<char>) -> ParView {
    expr_par(ExprView::GUri(s))
}

pub open spec fn bytes_par(b: Seq<u8>) -> ParView {
    expr_par(ExprView::GByteArray(b))
}

pub open spec fn list_par(ps: Seq<ParView>) -> ParView {
    expr_par(ExprView::EListBody(ps))
}

pub open spec fn tuple_par(ps: Seq<ParView>) -> ParView {
    expr_par(ExprView::ETupleBody(ps))
}

pub open spec fn map_par(kvs: Seq<(ParView, ParView)>) -> ParView {
    expr_par(ExprView::EMapBody(kvs))
}

pub open spec fn name_par(id: Seq<u8>) -> ParView {
    unforgeable_par(UnforgeableView::GPrivateBody(id))
}

pub open spec fn deploy_id_par(sig: Seq<u8>) -> ParView {
    unforgeable_par(UnforgeableView::GDeployIdBody(sig))
}

pub open spec fn deployer_id_par(key: Seq<u8>) -> ParView {
    unforgeable_par(UnforgeableView::GDeployerIdBody(key))
}

pub open spec fn sys_auth_token_par() -> ParView {
    unforgeable_par(UnforgeableView::GSysAuthTokenBody)
}

pub open spec fn text_view(o: Option<String>) -> Option<Seq<char>> {
    match o {
        Some(s) => Some(s@),
        None => None,
    }
}

pub open spec fn blob_view(o: Option<Vec<u8>>) -> Option<Seq<u8>> {
    match o {
        Some(b) => Some(b@),
        None => None,
    }
}

pub open spec fn par_opt_view(o: Option<Par>) -> Option<ParView> {
    match o {
        Some(p) => Some(p@),
        None => None,
    }
}

pub open spec fn pars_opt_view(o: Option<Vec<Par>>) -> Option<Seq<ParView>> {
    match o {
        Some(ps) => Some(pars_view(ps@)),
        None => None,
    }
}

impl Default for Par {
    /// `Nil`.
    fn default() -> (r: Par)
        ensures
            r@ == nil(),
    {
        let r = Par {
            processes: Vec::new(),
            exprs: Vec::new(),
            unforgeables: Vec::new(),
            bundles: Vec::new(),
            connectives: Vec::new(),
        };
        proof {
            lemma_parts(&r);
            lemma_same_parts(r@, nil());
        }
        r
    }
}

impl Par {
    pub fn with_expr(e: Expr) -> (r: Par)
        ensures
            r@ == expr_par(e@),
    {
        let mut r = Par::default();
        r.exprs.push(e);
        proof {
            lemma_parts(&r);
            lemma_same_parts(r@, expr_par(e@));
        }
        r
    }

    pub fn with_unforgeable(u: GUnforgeable) -> (r: Par)
        ensures
            r@ == unforgeable_par(u@),
    {
        let mut r = Par::default();
        r.unforgeables.push(u);
        proof {
            lemma_parts(&r);
            lemma_same_parts(r@, unforgeable_par(u@));
        }
        r
    }

    pub fn is_nil(&self) -> (r: bool)
        ensures
            r == (self@ == nil()),
    {
        let r = self.processes.len() == 0 && self.exprs.len() == 0 && self.unforgeables.len() == 0
            && self.bundles.len() == 0 && self.connectives.len() == 0;
        proof {
            lemma_parts(self);
            if r {
                lemma_same_parts(self@, nil());
            }
        }
        r
    }
}

fn expr_of(p: &Par) -> (r: Option<&Expr>)
    ensures
        match r {
            Some(e) => single_expr(p@) == Some(e@),
            None => single_expr(p@) is None,
        },
{
    proof {
        lemma_parts(p);
    }
    if p.processes.len() == 0 && p.bundles.len() == 0 && p.exprs.len() == 1 {
        assert(p@.exprs[0] == p.exprs[0]@);
        Some(&p.exprs[0])
    } else {
        None
    }
}

fn unforgeable_of(p: &Par) -> (r: Option<&GUnforgeable>)
    ensures
        match r {
            Some(u) => single_unforgeable(p@) == Some(u@),
            None => single_unforgeable(p@) is None,
        },
{
    proof {
        lemma_parts(p);
    }
    if p.processes.len() == 0 && p.exprs.len() == 0 && p.bundles.len() == 0
        && p.unforgeables.len() == 1 {
        assert(p@.unforgeables[0] == p.unforgeables[0]@);
        Some(&p.unforgeables[0])
    } else {
        None
    }
}

pub struct RhoNil;

impl RhoNil {
    pub fn create_par() -> (r: Par)
        ensures
            r@ == nil(),
    {
        Par::default()
    }
}

pub struct RhoBoolean;

impl RhoBoolean {
    pub fn unapply(p: &Par) -> (r: Option<bool>)
        ensures
            r == bool_of(p@),
    {
        match expr_of(p) {
            Some(Expr::GBool(x)) => Some(*x),
            _ => None,
        }
    }

    pub fn create_par(b: bool) -> (r: Par)
        ensures
            r@ == bool_par(b),
    {
        Par::with_expr(Expr::GBool(b))
    }
}

pub struct RhoNumber;

impl RhoNumber {
    pub fn unapply(p: &Par) -> (r: Option<i64>)
        ensures
            r == number_of(p@),
    {
        match expr_of(p) {
            Some(Expr::GInt(x)) => Some(*x),
            _ => None,
        }
    }

    pub fn create_par(n: i64) -> (r: Par)
        ensures
            r@ == number_par(n),
    {
        Par::with_expr(Expr::GInt(n))
    }
}

pub struct RhoString;

impl RhoString {
    pub fn unapply(p: &Par) -> (r: Option<String>)
        ensures
            text_view(r) == string_of(p@),
    {
        match expr_of(p) {
            Some(Expr::GString(x)) => Some(x.clone()),
            _ => None,
        }
    }

    pub fn create_par(s: String) -> (r: Par)
        ensures
            r@ == string_par(s@),
    {
        Par::with_expr(Expr::GString(s))
    }
}

pub struct RhoUri;

impl RhoUri {
    pub fn unapply(p: &Par) -> (r: Option<String>)
        ensures
            text_view(r) == uri_of(p@),
    {
        match expr_of(p) {
            Some(Expr::GUri(x)) => Some(x.clone()),
            _ => None,
        }
    }

    pub fn create_par(s: String) -> (r: Par)
        ensures
            r@ == uri_par(s@),
    {
        Par::with_expr(Expr::GUri(s))
    }
}

pub struct RhoByteArray;

impl RhoByteArray {
    pub fn unapply(p: &Par) -> (r: Option<Vec<u8>>)
        ensures
            blob_view(r) == bytes_of(p@),
    {
        match expr_of(p) {
            Some(Expr::GByteArray(x)) => Some(copy_bytes(x)),
            _ => None,
        }
    }

    pub fn create_par(bytes: Vec<u8>) -> (r: Par)
        ensures
            r@ == bytes_par(bytes@),
    {
        Par::with_expr(Expr::GByteArray(bytes))
    }
}

pub struct RhoList;

impl RhoList {
    pub fn unapply(p: &Par) -> (r: Option<Vec<Par>>)
        ensures
            pars_opt_view(r) == list_of(p@),
    {
        match expr_of(p) {
            Some(Expr::EListBody(x)) => Some(copy_pars(x)),
            _ => None,
        }
    }

    pub fn create_par(ps: Vec<Par>) -> (r: Par)
        ensures
            r@ == list_par(pars_view(ps@)),
    {
        Par::with_expr(Expr::EListBody(ps))
    }
}

pub struct RhoTuple;

impl RhoTuple {
    pub fn unapply(p: &Par) -> (r: Option<Vec<Par>>)
        ensures
            pars_opt_view(r) == tuple_of(p@),
    {
        match expr_of(p) {
            Some(Expr::ETupleBody(x)) => Some(copy_pars(x)),
            _ => None,
        }
    }

    pub fn create_par(ps: Vec<Par>) -> (r: Par)
        ensures
            r@ == tuple_par(pars_view(ps@)),
    {
        Par::with_expr(Expr::ETupleBody(ps))
    }
}

pub struct RhoMap;

impl RhoMap {
    pub fn create_par(kvs: Vec<KeyValuePair>) -> (r: Par)
        ensures
            r@ == map_par(entries_view(kvs@)),
    {
        Par::with_expr(Expr::EMapBody(kvs))
    }
}

pub struct RhoName;

impl RhoName {
    pub fn unapply(p: &Par) -> (r: Option<GPrivate>)
        ensures
            match r {
                Some(g) => name_of(p@) == Some(g.id@),
                None => name_of(p@) is None,
            },
    {
        match unforgeable_of(p) {
            Some(GUnforgeable::GPrivateBody(g)) => Some(g.clone()),
            _ => None,
        }
    }

    pub fn create_par(g: GPrivate) -> (r: Par)
        ensures
            r@ == name_par(g.id@),
    {
        Par::with_unforgeable(GUnforgeable::GPrivateBody(g))
    }
}

pub struct RhoDeployId;

impl RhoDeployId {
    pub fn create_par(sig: Vec<u8>) -> (r: Par)
        ensures
            r@ == deploy_id_par(sig@),
    {
        Par::with_unforgeable(GUnforgeable::GDeployIdBody(sig))
    }
}

pub struct RhoDeployerId;

impl RhoDeployerId {
    pub fn unapply(p: &Par) -> (r: Option<Vec<u8>>)
        ensures
            blob_view(r) == deployer_id_of(p@),
    {
        match unforgeable_of(p) {
            Some(GUnforgeable::GDeployerIdBody(key)) => Some(copy_bytes(key)),
            _ => None,
        }
    }

    pub fn create_par(key: Vec<u8>) -> (r: Par)
        ensures
            r@ == deployer_id_par(key@),
    {
        Par::with_unforgeable(GUnforgeable::GDeployerIdBody(key))
    }
}

pub struct RhoSysAuthToken;

impl RhoSysAuthToken {
    /// Whether the process is the system's authentication token.
    pub fn unapply(p: &Par) -> (r: bool)
        ensures
            r == is_sys_auth_token(p@),
    {
        match unforgeable_of(p) {
            Some(GUnforgeable::GSysAuthTokenBody) => true,
            _ => false,
        }
    }

    pub fn create_par() -> (r: Par)
        ensures
            r@ == sys_auth_token_par(),
    {
        Par::with_unforgeable(GUnforgeable::GSysAuthTokenBody)
    }
}

} // verus!
