//! MeTTa programs, run by the PeTTa interpreter: how it is called, and what its
//! output means.
use vstd::prelude::*;
use vstd::string::*;
use vstd::utf8::*;

use crate::errors::{swipl_error, ErrorView, InterpreterError};
use crate::json::{fields_view, json_parse, number_text, parse_json, values_view};
use crate::json::{Json, JsonNumber, JsonView, NumberView};
use crate::par::{entries_view, pars_view, KeyValuePair, Par, ParView};
use crate::rho_type::{bool_par, list_par, map_par, nil, number_par, par_opt_view, string_par};
use crate::rho_type::{RhoBoolean, RhoList, RhoMap, RhoNil, RhoNumber, RhoString};
use crate::text::{from_utf8, from_utf8_lossy, i64_text, is_text, join, trim, u64_text};
use crate::text::{trimmed, utf8_lossy};

verus! {

// ---------------------------------------------------------------------------
// JSON values as processes
// ---------------------------------------------------------------------------
/// A number that Rholang has: an integer in the range of `i64`.
pub open spec fn fits(n: NumberView) -> bool {
    match n {
        NumberView::PosInt(u) => u <= i64::MAX,
        NumberView::NegInt(_) => true,
        NumberView::Float(_) => false,
    }
}

/// The numbers of a value, in the order in which they are read.
pub open spec fn numbers(j: JsonView) -> Seq<NumberView>
    decreases j, 0nat,
{
    match j {
        JsonView::Number(n) => seq![n],
        JsonView::Array(vs) => numbers_in_values(vs, vs.len()),
        JsonView::Object(fs) => numbers_in_fields(fs, fs.len()),
        _ => Seq::empty(),
    }
}

/// The numbers of the first `n` values.
pub open spec fn numbers_in_values(vs: Seq<JsonView>, n: nat) -> Seq<NumberView>
    decreases vs, n,
{
    if n == 0 || n > vs.len() {
        Seq::empty()
    } else {
        numbers_in_values(vs, (n - 1) as nat) + numbers(vs[n - 1])
    }
}

/// The numbers of the first `n` fields.
pub open spec fn numbers_in_fields(fs: Seq<(Seq<char>, JsonView)>, n: nat) -> Seq<NumberView>
    decreases fs, n,
{
    if n == 0 || n > fs.len() {
        Seq::empty()
    } else {
        numbers_in_fields(fs, (n - 1) as nat) + numbers(fs[n - 1].1)
    }
}

/// The first number that Rholang does not have.
pub open spec fn first_misfit(ns: Seq<NumberView>) -> Option<NumberView>
    decreases ns.len(),
{
    if ns.len() == 0 {
        None
    } else if !fits(ns[0]) {
        Some(ns[0])
    } else {
        first_misfit(ns.drop_first())
    }
}

/// What is said of a number that Rholang does not have.
pub open spec fn misfit_text(n: NumberView) -> Seq<char> {
    (match n {
        NumberView::Float(_) => "Floating-point numbers are not supported. Got: "@,
        _ => "Number exceeds i64 range. Got: "@,
    }) + number_text(n)
        + ". Only integers in the range -9223372036854775808 to 9223372036854775807 are allowed."@
}

/// The process that stands for a value. What stands for a number that Rholang
/// does not have is left open.
pub open spec fn model(j: JsonView) -> ParView
    decreases j,
{
    match j {
        JsonView::Null => nil(),
        JsonView::Bool(b) => bool_par(b),
        JsonView::Number(NumberView::PosInt(u)) => number_par(u as i64),
        JsonView::Number(NumberView::NegInt(i)) => number_par(i),
        JsonView::Number(NumberView::Float(_)) => arbitrary(),
        JsonView::String(s) => string_par(s),
        JsonView::Array(vs) => list_par(models(vs)),
        JsonView::Object(fs) => map_par(field_models(fs)),
    }
}

pub open spec fn models(vs: Seq<JsonView>) -> Seq<ParView>
    decreases vs,
{
    Seq::new(
        vs.len(),
        |i: int|
            if 0 <= i < vs.len() {
                model(vs[i])
            } else {
                arbitrary()
            },
    )
}

pub open spec fn field_models(fs: Seq<(Seq<char>, JsonView)>) -> Seq<(ParView, ParView)>
    decreases fs,
{
    Seq::new(
        fs.len(),
        |i: int|
            if 0 <= i < fs.len() {
                (string_par(fs[i].0), model(fs[i].1))
            } else {
                arbitrary()
            },
    )
}

/// What comes of converting a value: the process that stands for it, or what is
/// said of the first number that Rholang does not have.
pub open spec fn conversion(j: JsonView) -> Result<ParView, ErrorView> {
    match first_misfit(numbers(j)) {
        None => Ok(model(j)),
        Some(n) => Err(ErrorView::SwiplError(misfit_text(n))),
    }
}

pub open spec fn par_result(r: Result<Par, InterpreterError>) -> Result<ParView, ErrorView> {
    match r {
        Ok(p) => Ok(p@),
        Err(e) => Err(e@),
    }
}

/// The first misfit of two runs of numbers is that of the first run, if it has
/// one.
pub proof fn lemma_first_misfit_concat(a: Seq<NumberView>, b: Seq<NumberView>)
    ensures
        first_misfit(a + b) == (if first_misfit(a) is Some {
            first_misfit(a)
        } else {
            first_misfit(b)
        }),
    decreases a.len(),
{
    if a.len() == 0 {
        assert(a + b =~= b);
    } else {
        assert((a + b)[0] == a[0]);
        assert((a + b).drop_first() =~= a.drop_first() + b);
        lemma_first_misfit_concat(a.drop_first(), b);
    }
}

/// A misfit among the first values is the first misfit of all.
pub proof fn lemma_misfit_in_values(vs: Seq<JsonView>, k: nat, n: nat)
    requires
        k <= n <= vs.len(),
        first_misfit(numbers_in_values(vs, k)) is Some,
    ensures
        first_misfit(numbers_in_values(vs, n)) == first_misfit(numbers_in_values(vs, k)),
    decreases n - k,
{
    if k < n {
        lemma_misfit_in_values(vs, k, (n - 1) as nat);
        lemma_first_misfit_concat(numbers_in_values(vs, (n - 1) as nat), numbers(vs[n - 1]));
    }
}

/// A misfit among the first fields is the first misfit of all.
pub proof fn lemma_misfit_in_fields(fs: Seq<(Seq<char>, JsonView)>, k: nat, n: nat)
    requires
        k <= n <= fs.len(),
        first_misfit(numbers_in_fields(fs, k)) is Some,
    ensures
        first_misfit(numbers_in_fields(fs, n)) == first_misfit(numbers_in_fields(fs, k)),
    decreases n - k,
{
    if k < n {
        lemma_misfit_in_fields(fs, k, (n - 1) as nat);
        lemma_first_misfit_concat(numbers_in_fields(fs, (n - 1) as nat), numbers(fs[n - 1].1));
    }
}

fn misfit_error(n: &JsonNumber) -> (r: InterpreterError)
    ensures
        r@ == ErrorView::SwiplError(misfit_text(n@)),
{
    let mut text: String = match n {
        JsonNumber::Float(_) => "Floating-point numbers are not supported. Got: ".to_owned(),
        _ => "Number exceeds i64 range. Got: ".to_owned(),
    };
    let digits: String = match n {
        JsonNumber::PosInt(u) => u64_text(*u),
        JsonNumber::NegInt(i) => i64_text(*i),
        JsonNumber::Float(s) => s.clone(),
    };
    text.append(digits.as_str());
    text.append(
        ". Only integers in the range -9223372036854775808 to 9223372036854775807 are allowed.",
    );
    InterpreterError::SwiplError(text)
}

/// Converts a number, or hands it back where Rholang does not have it.
fn number_to_par(n: &JsonNumber) -> (r: Result<Par, &JsonNumber>)
    ensures
        match first_misfit(numbers(JsonView::Number(n@))) {
            None => r matches Ok(p) && p@ == model(JsonView::Number(n@)),
            Some(m) => r matches Err(e) && e@ == m,
        },
{
    proof {
        let ns = numbers(JsonView::Number(n@));
        assert(ns =~= seq![n@]);
        assert(ns.drop_first() =~= Seq::empty());
        assert(first_misfit(ns.drop_first()) is None);
    }
    match n {
        JsonNumber::PosInt(u) => {
            if *u <= i64::MAX as u64 {
                Ok(RhoNumber::create_par(*u as i64))
            } else {
                Err(n)
            }
        },
        JsonNumber::NegInt(i) => Ok(RhoNumber::create_par(*i)),
        JsonNumber::Float(_) => Err(n),
    }
}

/// Converts a JSON value to a process.
///
/// `null` becomes `Nil`; booleans, strings and integers in the range of `i64`
/// stand for themselves; arrays become lists, and objects maps from strings.
/// Any other number is refused, wherever in the value it stands.
pub fn value_to_par(v: Json) -> (r: Result<Par, InterpreterError>)
    ensures
        par_result(r) == conversion(v@),
{
    match json_to_par(&v) {
        Ok(p) => Ok(p),
        Err(n) => Err(misfit_error(n)),
    }
}

/// Converts a value, or hands back the first number that Rholang does not have.
fn json_to_par(v: &Json) -> (r: Result<Par, &JsonNumber>)
    ensures
        match first_misfit(numbers(v@)) {
            None => r matches Ok(p) && p@ == model(v@),
            Some(n) => r matches Err(e) && e@ == n,
        },
    decreases v,
{
    match v {
        Json::Null => Ok(RhoNil::create_par()),
        Json::Bool(b) => Ok(RhoBoolean::create_par(*b)),
        Json::Number(n) => number_to_par(n),
        Json::String(s) => Ok(RhoString::create_par(s.clone())),
        Json::Array(vs) => {
            match values_to_pars(vs) {
                Ok(ps) => Ok(RhoList::create_par(ps)),
                Err(e) => Err(e),
            }
        },
        Json::Object(fs) => {
            match fields_to_entries(fs) {
                Ok(kvs) => Ok(RhoMap::create_par(kvs)),
                Err(e) => Err(e),
            }
        },
    }
}

fn values_to_pars(vs: &Vec<Json>) -> (r: Result<Vec<Par>, &JsonNumber>)
    ensures
        match first_misfit(numbers_in_values(values_view(vs@), vs@.len())) {
            None => r matches Ok(ps) && pars_view(ps@) == models(values_view(vs@)),
            Some(n) => r matches Err(e) && e@ == n,
        },
    decreases vs,
{
    let ghost seen = values_view(vs@);
    let mut ps: Vec<Par> = Vec::new();
    let n: usize = vs.len();
    for i in 0..n
        invariant
            n == vs.len(),
            seen == values_view(vs@),
            seen.len() == n,
            forall|k: int| 0 <= k < n ==> #[trigger] seen[k] == vs@[k]@,
            ps.len() == i,
            first_misfit(numbers_in_values(seen, i as nat)) is None,
            forall|k: int| 0 <= k < i ==> (#[trigger] ps@[k])@ == model(seen[k]),
    {
        proof {
            assert(decreases_to!(vs => vs@[i as int]));
            assert(seen[i as int] == vs@[i as int]@);
            lemma_first_misfit_concat(
                numbers_in_values(seen, i as nat),
                numbers(seen[i as int]),
            );
        }
        match json_to_par(&vs[i]) {
            Ok(p) => ps.push(p),
            Err(e) => {
                proof {
                    lemma_misfit_in_values(seen, (i + 1) as nat, n as nat);
                }
                return Err(e);
            },
        }
    }
    assert(pars_view(ps@) =~= models(seen));
    Ok(ps)
}

fn fields_to_entries(fs: &Vec<(String, Json)>) -> (r: Result<Vec<KeyValuePair>, &JsonNumber>)
    ensures
        match first_misfit(numbers_in_fields(fields_view(fs@), fs@.len())) {
            None => r matches Ok(kvs) && entries_view(kvs@) == field_models(fields_view(fs@)),
            Some(n) => r matches Err(e) && e@ == n,
        },
    decreases fs,
{
    let ghost seen = fields_view(fs@);
    let mut kvs: Vec<KeyValuePair> = Vec::new();
    let n: usize = fs.len();
    for i in 0..n
        invariant
            n == fs.len(),
            seen == fields_view(fs@),
            seen.len() == n,
            forall|k: int| 0 <= k < n ==> #[trigger] seen[k] == (fs@[k].0@, fs@[k].1@),
            kvs.len() == i,
            first_misfit(numbers_in_fields(seen, i as nat)) is None,
            forall|k: int|
                0 <= k < i ==> (#[trigger] kvs@[k])@ == (string_par(seen[k].0), model(seen[k].1)),
    {
        proof {
            assert(decreases_to!(fs => fs@[i as int]));
            assert(decreases_to!(fs@[i as int] => fs@[i as int].1));
            assert(seen[i as int].1 == fs@[i as int].1@);
            lemma_first_misfit_concat(
                numbers_in_fields(seen, i as nat),
                numbers(seen[i as int].1),
            );
        }
        match json_to_par(&fs[i].1) {
            Ok(p) => {
                let kv = KeyValuePair { key: RhoString::create_par(fs[i].0.clone()), value: p };
                kvs.push(kv);
            },
            Err(e) => {
                proof {
                    lemma_misfit_in_fields(seen, (i + 1) as nat, n as nat);
                }
                return Err(e);
            },
        }
    }
    assert(entries_view(kvs@) =~= field_models(seen));
    Ok(kvs)
}

/// What is said of a run that told a number which Rholang does not have. An integer
/// that is out of range is not told again.
pub open spec fn run_misfit_text(n: NumberView) -> Seq<char> {
    match n {
        NumberView::Float(_) => misfit_text(n),
        _ => "Could not parse number as i64"@,
    }
}

/// What comes of a value that a run told.
pub open spec fn run_conversion(j: JsonView) -> Result<ParView, ErrorView> {
    match first_misfit(numbers(j)) {
        None => Ok(model(j)),
        Some(n) => Err(ErrorView::SwiplError(run_misfit_text(n))),
    }
}

/// What comes of several values that a run told.
pub open spec fn run_conversions(vs: Seq<JsonView>) -> Result<Seq<ParView>, ErrorView> {
    match first_misfit(numbers_in_values(vs, vs.len())) {
        None => Ok(models(vs)),
        Some(n) => Err(ErrorView::SwiplError(run_misfit_text(n))),
    }
}

fn run_misfit_error(n: &JsonNumber) -> (r: InterpreterError)
    ensures
        r@ == ErrorView::SwiplError(run_misfit_text(n@)),
{
    match n {
        JsonNumber::Float(_) => misfit_error(n),
        _ => swipl_error("Could not parse number as i64"),
    }
}

/// Converts a value that a run told.
fn run_value_to_par(v: &Json) -> (r: Result<Par, InterpreterError>)
    ensures
        par_result(r) == run_conversion(v@),
{
    match json_to_par(v) {
        Ok(p) => Ok(p),
        Err(n) => Err(run_misfit_error(n)),
    }
}

// ---------------------------------------------------------------------------
// How the interpreter is called
// ---------------------------------------------------------------------------
/// How long a program may run, in seconds.
pub const TIMEOUT_SECS: u64 = 10;

/// The environment variables that the interpreter's caller looks at; one that is
/// not set, or is no text, is `None`.
#[derive(Debug, PartialEq, Eq)]
pub struct EnvVars {
    /// `PETTA_SCRIPT_PATH`
    pub script_path: Option<String>,
    /// `PETTA_DIR`
    pub petta_dir: Option<String>,
    /// `CACHE_DIR`
    pub cache_dir: Option<String>,
    /// `SANDBOX_LIB_PATH`
    pub sandbox_lib_path: Option<String>,
    /// `PETTA_BLOCKED_PREDS`
    pub blocked_preds: Option<String>,
}

/// Where the interpreter and what it needs are found.
#[derive(Debug, PartialEq, Eq)]
pub struct PettaEnv {
    pub script_path: String,
    pub petta_dir: String,
    pub cache_dir: String,
    pub sandbox_lib_path: String,
    /// The predicates that a program may not use, separated by spaces.
    pub blocked_preds: Option<String>,
}

impl EnvVars {
    /// Where the script is looked for.
    pub open spec fn script(&self) -> Seq<char> {
        match self.script_path {
            Some(p) => p@,
            None => "./petta.sh"@,
        }
    }

    /// Where the script is looked for: `./petta.sh`, if nothing else is said.
    pub fn script_to_run(&self) -> (r: String)
        ensures
            r@ == self.script(),
    {
        match &self.script_path {
            Some(p) => p.clone(),
            None => "./petta.sh".to_owned(),
        }
    }
}

/// What keeps the interpreter from being called, if anything does.
pub open spec fn env_fault(vars: EnvVars, script_exists: bool) -> Option<Seq<char>> {
    if !script_exists {
        Some("Can't find petta.sh script."@)
    } else if vars.petta_dir is None {
        Some("PETTA_DIR environment variable not set"@)
    } else if vars.cache_dir is None {
        Some("CACHE_DIR environment variable not set"@)
    } else if vars.sandbox_lib_path is None {
        Some("SANDBOX_LIB_PATH environment variable not set"@)
    } else {
        None
    }
}

impl PettaEnv {
    /// Takes what is needed from the environment variables. `script_exists` says
    /// whether there is a file at `vars.script_to_run()`.
    pub fn from_env(vars: EnvVars, script_exists: bool) -> (r: Result<PettaEnv, InterpreterError>)
        ensures
            match env_fault(vars, script_exists) {
                None => r matches Ok(env) && env.script_path@ == vars.script() && vars.petta_dir
                    == Some(env.petta_dir) && vars.cache_dir == Some(env.cache_dir)
                    && vars.sandbox_lib_path == Some(env.sandbox_lib_path) && env.blocked_preds
                    == vars.blocked_preds,
                Some(text) => r matches Err(e) && e@ == ErrorView::SwiplError(text),
            },
    {
        if !script_exists {
            return Err(swipl_error("Can't find petta.sh script."));
        }
        let script_path: String = vars.script_to_run();
        let petta_dir: String = match vars.petta_dir {
            Some(d) => d,
            None => return Err(swipl_error("PETTA_DIR environment variable not set")),
        };
        let cache_dir: String = match vars.cache_dir {
            Some(d) => d,
            None => return Err(swipl_error("CACHE_DIR environment variable not set")),
        };
        let sandbox_lib_path: String = match vars.sandbox_lib_path {
            Some(d) => d,
            None => return Err(swipl_error("SANDBOX_LIB_PATH environment variable not set")),
        };
        Ok(
            PettaEnv {
                script_path,
                petta_dir,
                cache_dir,
                sandbox_lib_path,
                blocked_preds: vars.blocked_preds,
            },
        )
    }

    /// Puts another list of blocked predicates in the place of the one from the
    /// environment, where there is another.
    pub fn with_blocks(self, blocked_preds: Option<&str>) -> (r: PettaEnv)
        ensures
            r.script_path == self.script_path,
            r.petta_dir == self.petta_dir,
            r.cache_dir == self.cache_dir,
            r.sandbox_lib_path == self.sandbox_lib_path,
            match blocked_preds {
                Some(bp) => r.blocked_preds matches Some(b) && b@ == bp@,
                None => r.blocked_preds == self.blocked_preds,
            },
    {
        let mut r = self;
        match blocked_preds {
            Some(bp) => r.blocked_preds = Some(bp.to_owned()),
            None => {},
        }
        r
    }

    /// The variables that the script is given, name and value.
    pub open spec fn script_vars(&self, node_mode: bool) -> Seq<(Seq<char>, Seq<char>)> {
        (if node_mode {
            seq![("PETTA_MODE"@, "NODE"@)]
        } else {
            Seq::empty()
        }) + seq![
            ("PETTA_DIR"@, self.petta_dir@),
            ("CACHE_DIR"@, self.cache_dir@),
            ("SANDBOX_LIB_PATH"@, self.sandbox_lib_path@),
        ] + (match self.blocked_preds {
            Some(bp) => seq![("PETTA_BLOCKED_PREDS"@, bp@)],
            None => Seq::empty(),
        })
    }

    /// The call that runs the program in a file. In node mode the interpreter
    /// tells what the program prints line by line, as it runs.
    pub fn command(&self, metta_file_path: &str, node_mode: bool) -> (r: PettaCommand)
        ensures
            r.program@ == self.script_path@,
            r.argument@ == metta_file_path@,
            vars_view(r.vars@) == self.script_vars(node_mode),
    {
        let mut vars: Vec<(String, String)> = Vec::new();
        if node_mode {
            vars.push(("PETTA_MODE".to_owned(), "NODE".to_owned()));
        }
        vars.push(("PETTA_DIR".to_owned(), self.petta_dir.clone()));
        vars.push(("CACHE_DIR".to_owned(), self.cache_dir.clone()));
        vars.push(("SANDBOX_LIB_PATH".to_owned(), self.sandbox_lib_path.clone()));
        match &self.blocked_preds {
            Some(bp) => vars.push(("PETTA_BLOCKED_PREDS".to_owned(), bp.clone())),
            None => {},
        }
        assert(vars_view(vars@) =~= self.script_vars(node_mode));
        PettaCommand {
            program: self.script_path.clone(),
            argument: metta_file_path.to_owned(),
            vars,
        }
    }
}

/// A program to start, with its one argument and its environment variables.
#[derive(Debug, PartialEq, Eq)]
pub struct PettaCommand {
    pub program: String,
    pub argument: String,
    pub vars: Vec<(String, String)>,
}

pub open spec fn vars_view(vars: Seq<(String, String)>) -> Seq<(Seq<char>, Seq<char>)> {
    Seq::new(vars.len(), |i: int| (vars[i].0@, vars[i].1@))
}

fn has_quote(s: &str) -> (r: bool)
    ensures
        r == s@.contains('\''),
{
    let n: usize = s.unicode_len();
    let mut i: usize = 0;
    while i < n
        invariant
            n == s@.len(),
            i <= n,
            forall|k: int| 0 <= k < i ==> s@[k] != '\'',
        decreases n - i,
    {
        if s.get_char(i) == '\'' {
            assert(s@[i as int] == '\'');
            return true;
        }
        i = i + 1;
    }
    false
}

/// The path at which a program is stored, ready to be handed to the script.
/// `None` stands for a path that is no text.
pub fn checked_metta_path(path: Option<String>) -> (r: Result<String, InterpreterError>)
    ensures
        match path {
            None => r matches Err(e) && e@ == ErrorView::SwiplError(
                "Can't convert metta_file path to string"@,
            ),
            Some(p) => if p@.contains('\'') {
                r matches Err(e) && e@ == ErrorView::SwiplError(
                    "Temp file path contains unsafe character (single quote)"@,
                )
            } else {
                r == Ok::<String, InterpreterError>(p)
            },
        },
{
    match path {
        None => Err(swipl_error("Can't convert metta_file path to string")),
        Some(p) => {
            if has_quote(p.as_str()) {
                Err(swipl_error("Temp file path contains unsafe character (single quote)"))
            } else {
                Ok(p)
            }
        },
    }
}

// ---------------------------------------------------------------------------
// What can go wrong on the way
// ---------------------------------------------------------------------------
/// A step towards the interpreter's output that failed. Where a text is told, it
/// is what the failure displays.
#[derive(Debug, PartialEq, Eq)]
pub enum PettaFault {
    OpenFile,
    WriteFile,
    FlushFile,
    Join(String),
    /// A program that was to print once was stopped.
    Elapsed(String),
    Run(String),
    Spawn(String),
    NoStdout,
    ReadLine(String),
    /// A program that prints as it goes was stopped.
    TimedOut,
    Wait(String),
    /// The interpreter's own word of failure.
    Exit(String),
}

pub open spec fn fault_text(f: PettaFault) -> Seq<char> {
    match f {
        PettaFault::OpenFile => "Can't open temp file"@,
        PettaFault::WriteFile => "Can't write MeTTa code to temp file"@,
        PettaFault::FlushFile => "Can't flush MeTTa temp file"@,
        PettaFault::Join(e) => "Error while joining with the PeTTa task: "@ + e@,
        PettaFault::Elapsed(e) => "MeTTa execution timed out after "@ + e@,
        PettaFault::Run(e) => "MeTTa execution failed: "@ + e@,
        PettaFault::Spawn(e) => "Failed to spawn PeTTa process: "@ + e@,
        PettaFault::NoStdout => "Can't open PeTTa stdout pipe"@,
        PettaFault::ReadLine(e) => "Failed to read line from PeTTa stdout: "@ + e@,
        PettaFault::TimedOut => "MeTTa execution timed out after 10 seconds"@,
        PettaFault::Wait(e) => "Failed to wait for PeTTa child: "@ + e@,
        PettaFault::Exit(stderr) => "PeTTa execution failed. stderr: "@ + stderr@,
    }
}

impl PettaFault {
    /// The failure as an error.
    pub fn error(&self) -> (r: InterpreterError)
        ensures
            r@ == ErrorView::SwiplError(fault_text(*self)),
    {
        let text: String = match self {
            PettaFault::OpenFile => "Can't open temp file".to_owned(),
            PettaFault::WriteFile => "Can't write MeTTa code to temp file".to_owned(),
            PettaFault::FlushFile => "Can't flush MeTTa temp file".to_owned(),
            PettaFault::Join(e) => join("Error while joining with the PeTTa task: ", e.as_str()),
            PettaFault::Elapsed(e) => join("MeTTa execution timed out after ", e.as_str()),
            PettaFault::Run(e) => join("MeTTa execution failed: ", e.as_str()),
            PettaFault::Spawn(e) => join("Failed to spawn PeTTa process: ", e.as_str()),
            PettaFault::NoStdout => "Can't open PeTTa stdout pipe".to_owned(),
            PettaFault::ReadLine(e) => join("Failed to read line from PeTTa stdout: ", e.as_str()),
            PettaFault::TimedOut => "MeTTa execution timed out after 10 seconds".to_owned(),
            PettaFault::Wait(e) => join("Failed to wait for PeTTa child: ", e.as_str()),
            PettaFault::Exit(stderr) => join("PeTTa execution failed. stderr: ", stderr.as_str()),
        };
        InterpreterError::SwiplError(text)
    }
}

// ---------------------------------------------------------------------------
// A program that prints once
// ---------------------------------------------------------------------------
/// What the one printed text means, once it has been parsed.
pub open spec fn single_meaning(text: Seq<char>, parsed: Result<JsonView, Seq<char>>) -> Result<
    ParView,
    ErrorView,
> {
    match parsed {
        Ok(j) => run_conversion(j),
        Err(e) => Err(
            ErrorView::SwiplError(
                "Can't parse JSON output from PeTTa execution: "@ + e + ". Output was: "@ + text,
            ),
        ),
    }
}

/// What a run that ended by itself comes to.
pub open spec fn run_meaning(success: bool, stdout: Seq<u8>, stderr: Seq<u8>) -> Result<
    ParView,
    ErrorView,
> {
    if !success {
        Err(ErrorView::SwiplError("PeTTa execution failed. stderr: "@ + utf8_lossy(stderr)))
    } else if !valid_utf8(stdout) {
        Err(ErrorView::SwiplError("Can't interpret PeTTa output"@))
    } else {
        single_meaning(decode_utf8(stdout), json_parse(decode_utf8(stdout)))
    }
}

pub open spec fn parsed_view(r: Result<Json, String>) -> Result<JsonView, Seq<char>> {
    match r {
        Ok(j) => Ok(j@),
        Err(e) => Err(e@),
    }
}

/// Reads the text that a program printed. `parsed` is what a JSON parser makes
/// of it.
pub fn read_single(text: &str, parsed: Result<Json, String>) -> (r: Result<Par, InterpreterError>)
    ensures
        par_result(r) == single_meaning(text@, parsed_view(parsed)),
{
    match parsed {
        Ok(j) => run_value_to_par(&j),
        Err(e) => {
            let mut t: String = join(
                "Can't parse JSON output from PeTTa execution: ",
                e.as_str(),
            );
            t.append(". Output was: ");
            t.append(text);
            Err(InterpreterError::SwiplError(t))
        },
    }
}

/// Reads the output of a run that ended by itself: whether it succeeded, and
/// what it wrote.
pub fn read_output(success: bool, stdout: Vec<u8>, stderr: Vec<u8>) -> (r: Result<
    Par,
    InterpreterError,
>)
    ensures
        par_result(r) == run_meaning(success, stdout@, stderr@),
{
    if !success {
        return Err(PettaFault::Exit(from_utf8_lossy(&stderr)).error());
    }
    match from_utf8(stdout) {
        None => Err(swipl_error("Can't interpret PeTTa output")),
        Some(text) => {
            let parsed = parse_json(text.as_str());
            read_single(text.as_str(), parsed)
        },
    }
}

/// How a run of a program that prints once came to its end.
#[derive(Debug, PartialEq, Eq)]
pub enum RunEnd {
    Fault(PettaFault),
    Exited { success: bool, stdout: Vec<u8>, stderr: Vec<u8> },
}

/// What a program that prints once comes to.
pub fn petta_outcome(end: RunEnd) -> (r: Result<Par, InterpreterError>)
    ensures
        par_result(r) == match end {
            RunEnd::Fault(f) => Err(ErrorView::SwiplError(fault_text(f))),
            RunEnd::Exited { success, stdout, stderr } => run_meaning(success, stdout@, stderr@),
        },
{
    match end {
        RunEnd::Fault(f) => Err(f.error()),
        RunEnd::Exited { success, stdout, stderr } => read_output(success, stdout, stderr),
    }
}

// ---------------------------------------------------------------------------
// A program that prints as it goes
// ---------------------------------------------------------------------------
/// What a program printed on a channel.
#[derive(Debug, PartialEq, Eq)]
pub struct Frame {
    /// The channel, by its URN.
    pub channel: String,
    pub arguments: Vec<Par>,
}

#[verifier::ext_equal]
pub struct FrameView {
    pub channel: Seq<char>,
    pub arguments: Seq<ParView>,
}

impl View for Frame {
    type V = FrameView;

    open spec fn view(&self) -> FrameView {
        FrameView { channel: self.channel@, arguments: pars_view(self.arguments@) }
    }
}

pub open spec fn frames_view(fs: Seq<Frame>) -> Seq<FrameView> {
    Seq::new(fs.len(), |i: int| fs[i]@)
}

/// What one line of output tells.
#[derive(Debug, PartialEq, Eq)]
pub enum Line {
    Frame(Frame),
    Result(Par),
}

#[verifier::ext_equal]
pub enum LineView {
    Frame(FrameView),
    Result(ParView),
}

impl View for Line {
    type V = LineView;

    open spec fn view(&self) -> LineView {
        match self {
            Line::Frame(f) => LineView::Frame(f@),
            Line::Result(p) => LineView::Result(p@),
        }
    }
}

/// The value of an object's field.
pub open spec fn field(fs: Seq<(Seq<char>, JsonView)>, key: Seq<char>) -> Option<JsonView>
    decreases fs.len(),
{
    if fs.len() == 0 {
        None
    } else if fs[0].0 == key {
        Some(fs[0].1)
    } else {
        field(fs.drop_first(), key)
    }
}

pub open spec fn frame_meaning(fs: Seq<(Seq<char>, JsonView)>, channel: JsonView) -> Result<
    LineView,
    ErrorView,
> {
    match channel {
        JsonView::String(urn) => match field(fs, "arguments"@) {
            Some(JsonView::Array(vs)) => match run_conversions(vs) {
                Ok(ps) => Ok(LineView::Frame(FrameView { channel: urn, arguments: ps })),
                Err(e) => Err(e),
            },
            _ => Ok(LineView::Frame(FrameView { channel: urn, arguments: Seq::empty() })),
        },
        _ => Err(ErrorView::SwiplError("Frame missing 'channel' string field"@)),
    }
}

pub open spec fn result_meaning(r: Result<ParView, ErrorView>) -> Result<LineView, ErrorView> {
    match r {
        Ok(p) => Ok(LineView::Result(p)),
        Err(e) => Err(e),
    }
}

/// What a line means, once it has been parsed. An object with a channel is a
/// frame; one whose type is `result`, or that has results, is the result.
pub open spec fn line_meaning(text: Seq<char>, parsed: Result<JsonView, Seq<char>>) -> Result<
    LineView,
    ErrorView,
> {
    match parsed {
        Err(e) => Err(
            ErrorView::SwiplError(
                "Can't parse JSON frame from PeTTa: "@ + e + ". Line was: "@ + text,
            ),
        ),
        Ok(JsonView::Object(fs)) => if let Some(channel) = field(fs, "channel"@) {
            frame_meaning(fs, channel)
        } else if field(fs, "type"@) == Some(JsonView::String("result"@)) {
            match field(fs, "value"@) {
                Some(v) => result_meaning(run_conversion(v)),
                None => Err(ErrorView::SwiplError("Result frame missing 'value' field"@)),
            }
        } else if field(fs, "results"@) is Some {
            result_meaning(run_conversion(JsonView::Object(fs)))
        } else {
            Err(ErrorView::SwiplError("Unknown JSON frame from PeTTa: "@ + text))
        },
        Ok(_) => Err(ErrorView::SwiplError("Unknown JSON frame from PeTTa: "@ + text)),
    }
}

proof fn lemma_field_skip(fs: Seq<(Seq<char>, JsonView)>, key: Seq<char>, n: int)
    requires
        0 <= n <= fs.len(),
        forall|k: int| 0 <= k < n ==> (#[trigger] fs[k]).0 != key,
    ensures
        field(fs, key) == field(fs.skip(n), key),
    decreases n,
{
    if n > 0 {
        let rest = fs.drop_first();
        assert forall|k: int| 0 <= k < n - 1 implies (#[trigger] rest[k]).0 != key by {
            assert(rest[k] == fs[k + 1]);
        }
        assert(fs[0].0 != key);
        lemma_field_skip(rest, key, n - 1);
        assert(rest.skip(n - 1) =~= fs.skip(n));
    } else {
        assert(fs.skip(0) =~= fs);
    }
}

fn find_field<'a>(fs: &'a Vec<(String, Json)>, key: &str) -> (r: Option<&'a Json>)
    ensures
        match r {
            Some(v) => field(fields_view(fs@), key@) == Some(v@),
            None => field(fields_view(fs@), key@) is None,
        },
{
    let ghost seen = fields_view(fs@);
    let n: usize = fs.len();
    for i in 0..n
        invariant
            n == fs.len(),
            seen == fields_view(fs@),
            seen.len() == n,
            forall|k: int| 0 <= k < n ==> #[trigger] seen[k] == (fs@[k].0@, fs@[k].1@),
            forall|k: int| 0 <= k < i ==> (#[trigger] seen[k]).0 != key@,
    {
        assert(seen[i as int] == (fs@[i as int].0@, fs@[i as int].1@));
        if is_text(&fs[i].0, key) {
            proof {
                lemma_field_skip(seen, key@, i as int);
                assert(seen.skip(i as int)[0] == seen[i as int]);
            }
            return Some(&fs[i].1);
        }
    }
    proof {
        lemma_field_skip(seen, key@, n as int);
    }
    None
}

pub open spec fn line_result(r: Result<Line, InterpreterError>) -> Result<LineView, ErrorView> {
    match r {
        Ok(l) => Ok(l@),
        Err(e) => Err(e@),
    }
}

fn read_frame(fs: &Vec<(String, Json)>, channel: &Json) -> (r: Result<Line, InterpreterError>)
    ensures
        line_result(r) == frame_meaning(fields_view(fs@), channel@),
{
    match channel {
        Json::String(urn) => {
            let arguments: Vec<Par> = match find_field(fs, "arguments") {
                Some(Json::Array(vs)) => match values_to_pars(vs) {
                    Ok(ps) => ps,
                    Err(n) => return Err(run_misfit_error(n)),
                },
                _ => {
                    assert(pars_view(Seq::<Par>::empty()) =~= Seq::<ParView>::empty());
                    Vec::new()
                },
            };
            Ok(Line::Frame(Frame { channel: urn.clone(), arguments }))
        },
        _ => Err(swipl_error("Frame missing 'channel' string field")),
    }
}

fn read_result(v: &Json) -> (r: Result<Line, InterpreterError>)
    ensures
        line_result(r) == result_meaning(run_conversion(v@)),
{
    match run_value_to_par(v) {
        Ok(p) => Ok(Line::Result(p)),
        Err(e) => Err(e),
    }
}

fn is_result_type(fs: &Vec<(String, Json)>) -> (r: bool)
    ensures
        r == (field(fields_view(fs@), "type"@) == Some(JsonView::String("result"@))),
{
    match find_field(fs, "type") {
        Some(Json::String(s)) => is_text(s, "result"),
        _ => false,
    }
}

/// Reads a line of output, without white space around it. `parsed` is what a
/// JSON parser makes of it.
pub fn read_parsed_line(text: &str, parsed: Result<Json, String>) -> (r: Result<
    Line,
    InterpreterError,
>)
    ensures
        line_result(r) == line_meaning(text@, parsed_view(parsed)),
{
    let j: Json = match parsed {
        Ok(j) => j,
        Err(e) => {
            let mut t: String = join("Can't parse JSON frame from PeTTa: ", e.as_str());
            t.append(". Line was: ");
            t.append(text);
            return Err(InterpreterError::SwiplError(t));
        },
    };
    match &j {
        Json::Object(fs) => {
            match find_field(fs, "channel") {
                Some(channel) => return read_frame(fs, channel),
                None => {},
            }
            if is_result_type(fs) {
                return match find_field(fs, "value") {
                    Some(v) => read_result(v),
                    None => Err(swipl_error("Result frame missing 'value' field")),
                };
            }
            match find_field(fs, "results") {
                Some(_) => return read_result(&j),
                None => {},
            }
        },
        _ => {},
    }
    Err(InterpreterError::SwiplError(join("Unknown JSON frame from PeTTa: ", text)))
}

/// What has been read of the output so far.
#[derive(Debug, PartialEq, Eq)]
pub struct Collector {
    pub frames: Vec<Frame>,
    pub result: Option<Par>,
}

#[verifier::ext_equal]
pub struct CollectorView {
    pub frames: Seq<FrameView>,
    pub result: Option<ParView>,
}

impl CollectorView {
    pub open spec fn nothing() -> CollectorView {
        CollectorView { frames: Seq::empty(), result: None }
    }

    /// A frame comes behind those before it; a result takes the place of one
    /// before it.
    pub open spec fn take(self, line: LineView) -> CollectorView {
        match line {
            LineView::Frame(f) => CollectorView { frames: self.frames.push(f), ..self },
            LineView::Result(p) => CollectorView { result: Some(p), ..self },
        }
    }

    pub open spec fn take_all(self, lines: Seq<LineView>) -> CollectorView
        decreases lines.len(),
    {
        if lines.len() == 0 {
            self
        } else {
            self.take_all(lines.drop_last()).take(lines.last())
        }
    }
}

impl View for Collector {
    type V = CollectorView;

    open spec fn view(&self) -> CollectorView {
        CollectorView { frames: frames_view(self.frames@), result: par_opt_view(self.result) }
    }
}

impl Collector {
    pub fn new() -> (r: Collector)
        ensures
            r@ == CollectorView::nothing(),
    {
        let r = Collector { frames: Vec::new(), result: None };
        assert(r@ =~= CollectorView::nothing());
        r
    }

    pub fn take(&mut self, line: Line)
        ensures
            final(self)@ == old(self)@.take(line@),
    {
        match line {
            Line::Frame(f) => {
                self.frames.push(f);
            },
            Line::Result(p) => {
                self.result = Some(p);
            },
        }
        assert(self@ =~= old(self)@.take(line@));
    }

    /// Takes in a line as the interpreter wrote it. A line of white space tells
    /// nothing.
    pub fn take_text(&mut self, line: &str) -> (r: Result<(), InterpreterError>)
        ensures
            match told(line@) {
                None => r is Ok && final(self)@ == old(self)@,
                Some(Ok(l)) => r is Ok && final(self)@ == old(self)@.take(l),
                Some(Err(e)) => r matches Err(err) && err@ == e && final(self)@ == old(self)@,
            },
    {
        let text: &str = trim(line);
        if text.is_empty() {
            return Ok(());
        }
        let parsed = parse_json(text);
        match read_parsed_line(text, parsed) {
            Ok(l) => {
                self.take(l);
                Ok(())
            },
            Err(e) => Err(e),
        }
    }

    /// The frames and the result, once the output has come to its end.
    pub fn finish(self) -> (r: Result<(Vec<Frame>, Par), InterpreterError>)
        ensures
            match self@.result {
                Some(p) => r matches Ok((frames, result)) && frames_view(frames@) == self@.frames
                    && result@ == p,
                None => r matches Err(e) && e@ == ErrorView::SwiplError(
                    "No result line found in PeTTa output (expected line with type:'result')"@,
                ),
            },
    {
        match self.result {
            Some(p) => Ok((self.frames, p)),
            None => Err(
                swipl_error(
                    "No result line found in PeTTa output (expected line with type:'result')",
                ),
            ),
        }
    }
}

/// Whether a run that printed as it went ended well.
pub fn check_exit(success: bool, stderr: String) -> (r: Result<(), InterpreterError>)
    ensures
        if success {
            r is Ok
        } else {
            r matches Err(e) && e@ == ErrorView::SwiplError(
                "PeTTa execution failed. stderr: "@ + stderr@,
            )
        },
{
    if success {
        Ok(())
    } else {
        Err(PettaFault::Exit(stderr).error())
    }
}

/// What a line tells as the interpreter wrote it; a line of white space tells
/// nothing.
pub open spec fn told(line: Seq<char>) -> Option<Result<LineView, ErrorView>> {
    let text = trimmed(line);
    if text.len() == 0 {
        None
    } else {
        Some(line_meaning(text, json_parse(text)))
    }
}

/// What happens while a program runs that prints as it goes.
#[derive(Debug, PartialEq, Eq)]
pub enum RunEvent {
    Line(String),
    EndOfOutput,
    Fault(PettaFault),
    Exited { success: bool, stderr: String },
}

/// A run of a program that prints as it goes.
#[derive(Debug, PartialEq, Eq)]
pub enum FramedRun {
    /// Its output is read.
    Reading(Collector),
    /// Its output has ended, and its exit is awaited.
    Exiting { frames: Vec<Frame>, result: Par },
    /// It is over.
    Ended(Result<(Vec<Frame>, Par), InterpreterError>),
}

#[verifier::ext_equal]
pub enum FramedView {
    Reading(CollectorView),
    Exiting { frames: Seq<FrameView>, result: ParView },
    Ended(Result<(Seq<FrameView>, ParView), ErrorView>),
}

/// Whether an event can happen in a run.
pub open spec fn can_happen(run: FramedView, event: RunEvent) -> bool {
    match run {
        FramedView::Reading(_) => !(event is Exited),
        FramedView::Exiting { .. } => event is Exited || event is Fault,
        FramedView::Ended(_) => false,
    }
}

/// A run after an event. A fault ends it, and so does a line that cannot be
/// read. Output that ends must have told a result, and the interpreter must
/// exit well.
pub open spec fn framed_next(run: FramedView, event: RunEvent) -> FramedView {
    match (run, event) {
        (_, RunEvent::Fault(f)) => FramedView::Ended(Err(ErrorView::SwiplError(fault_text(f)))),
        (FramedView::Reading(c), RunEvent::Line(line)) => match told(line@) {
            None => FramedView::Reading(c),
            Some(Ok(l)) => FramedView::Reading(c.take(l)),
            Some(Err(e)) => FramedView::Ended(Err(e)),
        },
        (FramedView::Reading(c), RunEvent::EndOfOutput) => match c.result {
            Some(result) => FramedView::Exiting { frames: c.frames, result },
            None => FramedView::Ended(
                Err(
                    ErrorView::SwiplError(
                        "No result line found in PeTTa output (expected line with type:'result')"@,
                    ),
                ),
            ),
        },
        (FramedView::Exiting { frames, result }, RunEvent::Exited { success, stderr }) => {
            if success {
                FramedView::Ended(Ok((frames, result)))
            } else {
                FramedView::Ended(
                    Err(ErrorView::SwiplError("PeTTa execution failed. stderr: "@ + stderr@)),
                )
            }
        },
        _ => arbitrary(),
    }
}

impl View for FramedRun {
    type V = FramedView;

    open spec fn view(&self) -> FramedView {
        match self {
            FramedRun::Reading(c) => FramedView::Reading(c@),
            FramedRun::Exiting { frames, result } => FramedView::Exiting {
                frames: frames_view(frames@),
                result: result@,
            },
            FramedRun::Ended(Ok((frames, result))) => FramedView::Ended(
                Ok((frames_view(frames@), result@)),
            ),
            FramedRun::Ended(Err(e)) => FramedView::Ended(Err(e@)),
        }
    }
}

impl FramedRun {
    /// A run of which nothing has been read.
    pub fn new() -> (r: FramedRun)
        ensures
            r@ == FramedView::Reading(CollectorView::nothing()),
    {
        FramedRun::Reading(Collector::new())
    }

    /// Whether an event can happen.
    pub fn expects(&self, event: &RunEvent) -> (r: bool)
        ensures
            r == can_happen(self@, *event),
    {
        match (self, event) {
            (FramedRun::Reading(_), RunEvent::Exited { .. }) => false,
            (FramedRun::Reading(_), _) => true,
            (FramedRun::Exiting { .. }, RunEvent::Exited { .. }) => true,
            (FramedRun::Exiting { .. }, RunEvent::Fault(_)) => true,
            (FramedRun::Exiting { .. }, _) => false,
            (FramedRun::Ended(Ok(_)), _) => false,
            (FramedRun::Ended(Err(_)), _) => false,
        }
    }

    /// Goes on with an event.
    pub fn on(self, event: RunEvent) -> (r: FramedRun)
        requires
            can_happen(self@, event),
        ensures
            r@ == framed_next(self@, event),
    {
        match (self, event) {
            (_, RunEvent::Fault(f)) => FramedRun::Ended(Err(f.error())),
            (FramedRun::Reading(c), RunEvent::Line(line)) => {
                let mut c = c;
                match c.take_text(line.as_str()) {
                    Ok(()) => FramedRun::Reading(c),
                    Err(e) => FramedRun::Ended(Err(e)),
                }
            },
            (FramedRun::Reading(c), RunEvent::EndOfOutput) => match c.finish() {
                Ok((frames, result)) => FramedRun::Exiting { frames, result },
                Err(e) => FramedRun::Ended(Err(e)),
            },
            (FramedRun::Exiting { frames, result }, RunEvent::Exited { success, stderr }) => {
                match check_exit(success, stderr) {
                    Ok(()) => FramedRun::Ended(Ok((frames, result))),
                    Err(e) => FramedRun::Ended(Err(e)),
                }
            },
            _ => vstd::pervasive::unreached(),
        }
    }
}

} // verus!
