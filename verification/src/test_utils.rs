//! Helpers for tests: whether the MeTTa interpreter can be tested, and inputs
//! for the normalizer.
use vstd::prelude::*;

use crate::par::{Par, ParView};
use crate::rho_type::nil;
use crate::state::UrnMap;

verus! {

// ---------------------------------------------------------------------------
// Testing the MeTTa interpreter
// ---------------------------------------------------------------------------
/// What tests of the MeTTa interpreter need, and whether it is there.
#[derive(Debug, Clone, Copy, PartialEq, Eq)]
pub struct Prerequisites {
    pub petta_script: bool,
    pub petta_dir: bool,
    pub cache_dir: bool,
    pub sandbox_lib_path: bool,
    pub swipl: bool,
}

/// The first thing that is not there.
pub open spec fn unmet(p: Prerequisites) -> Option<Seq<char>> {
    if !p.petta_script {
        Some("PeTTa test prerequisite unmet: petta.sh script is missing"@)
    } else if !p.petta_dir {
        Some("PeTTa test prerequisite unmet: PETTA_DIR environment variable not set"@)
    } else if !p.cache_dir {
        Some("PeTTa test prerequisite unmet: CACHE_DIR environment variable not set"@)
    } else if !p.sandbox_lib_path {
        Some("PeTTa test prerequisite unmet: SANDBOX_LIB_PATH environment variable not set"@)
    } else if !p.swipl {
        Some("PeTTa test prerequisite unmet: swipl is missing"@)
    } else {
        None
    }
}

/// Says what is not there, if anything is not.
pub fn unmet_prerequisite(p: &Prerequisites) -> (r: Option<String>)
    ensures
        match r {
            Some(text) => unmet(*p) == Some(text@),
            None => unmet(*p) is None,
        },
{
    if !p.petta_script {
        Some("PeTTa test prerequisite unmet: petta.sh script is missing".to_owned())
    } else if !p.petta_dir {
        Some("PeTTa test prerequisite unmet: PETTA_DIR environment variable not set".to_owned())
    } else if !p.cache_dir {
        Some("PeTTa test prerequisite unmet: CACHE_DIR environment variable not set".to_owned())
    } else if !p.sandbox_lib_path {
        Some(
            "PeTTa test prerequisite unmet: SANDBOX_LIB_PATH environment variable not set".to_owned(),
        )
    } else if !p.swipl {
        Some("PeTTa test prerequisite unmet: swipl is missing".to_owned())
    } else {
        None
    }
}

/// Whether a test is to be skipped because something is not there. Where tests
/// are mandatory, nothing may be missing.
pub fn should_skip_petta_test(p: &Prerequisites, mandatory: bool) -> (r: bool)
    requires
        mandatory ==> unmet(*p) is None,
    ensures
        r == (unmet(*p) is Some),
{
    match unmet_prerequisite(p) {
        Some(_) => true,
        None => false,
    }
}

// ---------------------------------------------------------------------------
// Inputs for the normalizer
// ---------------------------------------------------------------------------
/// What a variable stands for.
#[derive(Debug, Clone, Copy, PartialEq, Eq, Structural)]
pub enum VarSort {
    ProcSort,
    NameSort,
}

/// A place in a source text. Lines and columns count from one.
#[derive(Debug, Clone, Copy, PartialEq, Eq, Structural)]
pub struct SourcePos {
    pub line: usize,
    pub col: usize,
}

/// A variable that is bound, with its sort and where it is bound.
pub type IdContextPos = (String, VarSort, SourcePos);

#[verifier::ext_equal]
pub struct BindingView {
    pub name: Seq<char>,
    pub sort: VarSort,
    pub pos: SourcePos,
}

pub open spec fn bindings_view(bs: Seq<IdContextPos>) -> Seq<BindingView> {
    Seq::new(bs.len(), |i: int| BindingView { name: bs[i].0@, sort: bs[i].1, pos: bs[i].2 })
}

/// The variables that are bound, in the order in which they were.
#[derive(Debug, PartialEq, Eq)]
pub struct BoundMapChain {
    pub bindings: Vec<IdContextPos>,
}

impl View for BoundMapChain {
    type V = Seq<BindingView>;

    open spec fn view(&self) -> Seq<BindingView> {
        bindings_view(self.bindings@)
    }
}

impl BoundMapChain {
    /// Nothing is bound.
    pub fn new() -> (r: BoundMapChain)
        ensures
            r@ == Seq::<BindingView>::empty(),
    {
        let r = BoundMapChain { bindings: Vec::new() };
        assert(r@ =~= Seq::<BindingView>::empty());
        r
    }

    /// Binds one more variable.
    pub fn put_pos(self, binding: IdContextPos) -> (r: BoundMapChain)
        ensures
            r@ == self@.push(
                BindingView { name: binding.0@, sort: binding.1, pos: binding.2 },
            ),
    {
        let mut r = self;
        r.bindings.push(binding);
        assert(r@ =~= self@.push(
            BindingView { name: binding.0@, sort: binding.1, pos: binding.2 },
        ));
        r
    }

    /// Binds more variables, one after the other.
    pub fn put_all_pos(self, bindings: Vec<IdContextPos>) -> (r: BoundMapChain)
        ensures
            r@ == self@ + bindings_view(bindings@),
    {
        let mut r = self;
        let mut more = bindings;
        r.bindings.append(&mut more);
        assert(r@ =~= self@ + bindings_view(bindings@));
        r
    }
}

/// The variables that are free.
#[derive(Debug, PartialEq, Eq)]
pub struct FreeMap {
    pub bindings: Vec<IdContextPos>,
}

impl Default for FreeMap {
    fn default() -> (r: FreeMap)
        ensures
            r.bindings@ == Seq::<IdContextPos>::empty(),
    {
        FreeMap { bindings: Vec::new() }
    }
}

/// What the normalizer of names starts from.
#[derive(Debug, PartialEq, Eq)]
pub struct NameVisitInputs {
    pub bound_map_chain: BoundMapChain,
    pub free_map: FreeMap,
}

/// What the normalizer of processes starts from.
#[derive(Debug, PartialEq, Eq)]
pub struct ProcVisitInputs {
    pub par: Par,
    pub bound_map_chain: BoundMapChain,
    pub free_map: FreeMap,
}

pub open spec fn first_pos() -> SourcePos {
    SourcePos { line: 1, col: 1 }
}

/// A variable that is bound at the very first place.
pub open spec fn bound_first(name: Seq<char>, sort: VarSort) -> BindingView {
    BindingView { name, sort, pos: first_pos() }
}

/// Inputs in which nothing is bound and nothing is free, and no environment.
pub fn name_visit_inputs_and_env() -> (r: (NameVisitInputs, UrnMap))
    ensures
        r.0.bound_map_chain@ == Seq::<BindingView>::empty(),
        r.0.free_map.bindings@ == Seq::<IdContextPos>::empty(),
        r.1@ == Map::<Seq<char>, ParView>::empty(),
{
    let input = NameVisitInputs {
        bound_map_chain: BoundMapChain::new(),
        free_map: FreeMap::default(),
    };
    (input, UrnMap::new())
}

/// Inputs in which nothing is bound and nothing is free, and no environment.
pub fn proc_visit_inputs_and_env() -> (r: (ProcVisitInputs, UrnMap))
    ensures
        r.0.par@ == nil(),
        r.0.bound_map_chain@ == Seq::<BindingView>::empty(),
        r.0.free_map.bindings@ == Seq::<IdContextPos>::empty(),
        r.1@ == Map::<Seq<char>, ParView>::empty(),
{
    let inputs = ProcVisitInputs {
        par: Par::default(),
        bound_map_chain: BoundMapChain::new(),
        free_map: FreeMap::default(),
    };
    (inputs, UrnMap::new())
}

/// Inputs in which a process `P` and a name `x` are bound.
pub fn collection_proc_visit_inputs_and_env() -> (r: (ProcVisitInputs, UrnMap))
    ensures
        r.0.par@ == nil(),
        r.0.bound_map_chain@ == seq![
            bound_first("P"@, VarSort::ProcSort),
            bound_first("x"@, VarSort::NameSort),
        ],
        r.0.free_map.bindings@ == Seq::<IdContextPos>::empty(),
        r.1@ == Map::<Seq<char>, ParView>::empty(),
{
    let mut bindings: Vec<IdContextPos> = Vec::new();
    bindings.push(("P".to_owned(), VarSort::ProcSort, SourcePos { line: 1, col: 1 }));
    bindings.push(("x".to_owned(), VarSort::NameSort, SourcePos { line: 1, col: 1 }));
    let bound_map_chain = BoundMapChain::new().put_all_pos(bindings);
    assert(bound_map_chain@ =~= seq![
        bound_first("P"@, VarSort::ProcSort),
        bound_first("x"@, VarSort::NameSort),
    ]);
    let inputs = ProcVisitInputs {
        par: Par::default(),
        bound_map_chain,
        free_map: FreeMap::default(),
    };
    (inputs, UrnMap::new())
}

/// Binds one more variable, at the very first place.
pub fn proc_visit_inputs_with_updated_bound_map_chain(
    input: ProcVisitInputs,
    name: &str,
    vs_type: VarSort,
) -> (r: ProcVisitInputs)
    ensures
        r.par == input.par,
        r.bound_map_chain@ == input.bound_map_chain@.push(bound_first(name@, vs_type)),
        r.free_map == input.free_map,
{
    let binding: IdContextPos = (name.to_owned(), vs_type, SourcePos { line: 1, col: 1 });
    ProcVisitInputs {
        par: input.par,
        bound_map_chain: input.bound_map_chain.put_pos(binding),
        free_map: input.free_map,
    }
}

/// Binds more variables, all of them at the very first place.
pub fn proc_visit_inputs_with_updated_vec_bound_map_chain(
    input: ProcVisitInputs,
    new_bindings: Vec<(String, VarSort)>,
) -> (r: ProcVisitInputs)
    ensures
        r.par == input.par,
        r.bound_map_chain@ == input.bound_map_chain@ + Seq::new(
            new_bindings@.len(),
            |i: int| bound_first(new_bindings@[i].0@, new_bindings@[i].1),
        ),
        r.free_map == input.free_map,
{
    let mut bindings: Vec<IdContextPos> = Vec::new();
    let n: usize = new_bindings.len();
    for i in 0..n
        invariant
            n == new_bindings.len(),
            bindings.len() == i,
            forall|k: int|
                0 <= k < i ==> (#[trigger] bindings@[k]).0@ == new_bindings@[k].0@ && bindings@[k].1
                    == new_bindings@[k].1 && bindings@[k].2 == first_pos(),
    {
        bindings.push(
            (new_bindings[i].0.clone(), new_bindings[i].1, SourcePos { line: 1, col: 1 }),
        );
    }
    assert(bindings_view(bindings@) =~= Seq::new(
        new_bindings@.len(),
        |i: int| bound_first(new_bindings@[i].0@, new_bindings@[i].1),
    ));
    ProcVisitInputs {
        par: input.par,
        bound_map_chain: input.bound_map_chain.put_all_pos(bindings),
        free_map: input.free_map,
    }
}

} // verus!
