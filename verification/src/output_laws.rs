//! What holds of the interpreter: how it is called, and how its output is read.
use vstd::prelude::*;
use vstd::utf8::*;

use crate::errors::ErrorView;
use crate::json::{json_parse, JsonView};
use crate::par::ParView;
use crate::swi_prolog_service::{can_happen, conversion, env_fault, fault_text, field};
use crate::swi_prolog_service::{framed_next, line_meaning, models, numbers};
use crate::swi_prolog_service::{numbers_in_values, run_conversion, run_conversions, run_meaning};
use crate::swi_prolog_service::{single_meaning, told, CollectorView, EnvVars, FrameView};
use crate::swi_prolog_service::{FramedView, LineView, PettaEnv, PettaFault, RunEvent};
use crate::swi_prolog_service::TIMEOUT_SECS;
use crate::text::{is_white_space, nat_text, trimmed, utf8_lossy};
use crate::value_laws::{converted, is_trim, law_the_first_refusal_counts, law_trimmed};
use crate::value_laws::law_parts_are_converted_one_by_one;

verus! {

// ---------------------------------------------------------------------------
// Fields
// ---------------------------------------------------------------------------
/// No field has the key.
pub open spec fn absent(fs: Seq<(Seq<char>, JsonView)>, key: Seq<char>) -> bool {
    forall|i: int| 0 <= i < fs.len() ==> (#[trigger] fs[i]).0 != key
}

/// The field at `i` has the key, and none before it does.
pub open spec fn first_at(fs: Seq<(Seq<char>, JsonView)>, key: Seq<char>, i: int) -> bool {
    &&& 0 <= i < fs.len()
    &&& fs[i].0 == key
    &&& forall|k: int| 0 <= k < i ==> (#[trigger] fs[k]).0 != key
}

/// The value of a field is that of the first field with its key; there is none where
/// no field has the key.
pub proof fn law_the_first_field_counts(fs: Seq<(Seq<char>, JsonView)>, key: Seq<char>, i: int)
    ensures
        first_at(fs, key, i) ==> field(fs, key) == Some(fs[i].1),
        absent(fs, key) <==> field(fs, key) is None,
    decreases fs.len(),
{
    if fs.len() > 0 {
        let rest = fs.drop_first();
        law_the_first_field_counts(rest, key, i - 1);
        assert forall|k: int| 0 <= k < rest.len() implies #[trigger] rest[k] == fs[k + 1] by {}
        if first_at(fs, key, i) && i > 0 {
            assert(fs[0].0 != key);
            assert forall|k: int| 0 <= k < i - 1 implies (#[trigger] rest[k]).0 != key by {
                assert(rest[k] == fs[k + 1]);
            }
            assert(first_at(rest, key, i - 1));
        }
        if absent(fs, key) {
            assert(fs[0].0 != key);
            assert forall|k: int| 0 <= k < rest.len() implies (#[trigger] rest[k]).0 != key by {
                assert(rest[k] == fs[k + 1]);
            }
            assert(absent(rest, key));
        }
        if field(fs, key) is None {
            assert(absent(rest, key));
            assert forall|k: int| 0 <= k < fs.len() implies (#[trigger] fs[k]).0 != key by {
                if k > 0 {
                    assert(rest[k - 1].0 != key);
                }
            }
        }
    }
}

// ---------------------------------------------------------------------------
// Lines
// ---------------------------------------------------------------------------
/// What an object on a line is read as: by itself, and on every line that holds it
/// with white space around it.
pub open spec fn reads_as(
    text: Seq<char>,
    fs: Seq<(Seq<char>, JsonView)>,
    outcome: Result<LineView, ErrorView>,
) -> bool {
    &&& line_meaning(text, Ok(JsonView::Object(fs))) == outcome
    &&& forall|line: Seq<char>|
        trimmed(line) == text && text.len() > 0 && json_parse(text) == Ok::<JsonView, Seq<char>>(
            JsonView::Object(fs),
        ) ==> #[trigger] told(line) == Some(outcome)
}

/// An object that is not a frame and whose type is `result` tells its value: the
/// whole of it, as it is converted. It is refused exactly if its value is.
pub proof fn law_a_result_line_tells_its_value(
    text: Seq<char>,
    fs: Seq<(Seq<char>, JsonView)>,
    t: int,
    v: int,
)
    requires
        absent(fs, "channel"@),
        first_at(fs, "type"@, t),
        fs[t].1 == JsonView::String("result"@),
        first_at(fs, "value"@, v),
    ensures
        match conversion(fs[v].1) {
            Ok(p) => reads_as(text, fs, Ok(LineView::Result(p))),
            Err(_) => run_conversion(fs[v].1) matches Err(e) && reads_as(text, fs, Err(e)),
        },
{
    law_the_first_field_counts(fs, "channel"@, 0);
    law_the_first_field_counts(fs, "type"@, t);
    law_the_first_field_counts(fs, "value"@, v);
}

/// A result without a value is refused.
pub proof fn law_a_result_line_needs_a_value(
    text: Seq<char>,
    fs: Seq<(Seq<char>, JsonView)>,
    t: int,
)
    requires
        absent(fs, "channel"@),
        first_at(fs, "type"@, t),
        fs[t].1 == JsonView::String("result"@),
        absent(fs, "value"@),
    ensures
        reads_as(text, fs, Err(ErrorView::SwiplError("Result frame missing 'value' field"@))),
{
    law_the_first_field_counts(fs, "channel"@, 0);
    law_the_first_field_counts(fs, "type"@, t);
    law_the_first_field_counts(fs, "value"@, 0);
}

/// Whether an object says that its type is `result`.
pub open spec fn says_result(fs: Seq<(Seq<char>, JsonView)>) -> bool {
    exists|t: int| #[trigger] first_at(fs, "type"@, t) && fs[t].1 == JsonView::String("result"@)
}

proof fn lemma_says_result(fs: Seq<(Seq<char>, JsonView)>)
    ensures
        says_result(fs) <==> field(fs, "type"@) == Some(JsonView::String("result"@)),
{
    law_the_first_field_counts(fs, "type"@, 0);
    if says_result(fs) {
        let t = choose|t: int| #[trigger]
            first_at(fs, "type"@, t) && fs[t].1 == JsonView::String("result"@);
        law_the_first_field_counts(fs, "type"@, t);
    }
    if !absent(fs, "type"@) {
        let t = lemma_first(fs, "type"@);
        law_the_first_field_counts(fs, "type"@, t);
    }
}

/// Where a field has a key, one is the first that does.
proof fn lemma_first(fs: Seq<(Seq<char>, JsonView)>, key: Seq<char>) -> (t: int)
    requires
        !absent(fs, key),
    ensures
        first_at(fs, key, t),
    decreases fs.len(),
{
    if fs[0].0 == key {
        0
    } else {
        let rest = fs.drop_first();
        let w = choose|w: int| 0 <= w < fs.len() && (#[trigger] fs[w]).0 == key;
        assert(rest[w - 1] == fs[w]);
        let t = lemma_first(rest, key);
        assert forall|k: int| 0 <= k < t + 1 implies (#[trigger] fs[k]).0 != key by {
            if k > 0 {
                assert(rest[k - 1] == fs[k]);
            }
        }
        t + 1
    }
}

/// An object that is not a frame, does not say that it is a result, and has results,
/// tells all of itself. It is refused exactly if one of its values is.
pub proof fn law_results_are_told_whole(text: Seq<char>, fs: Seq<(Seq<char>, JsonView)>)
    requires
        absent(fs, "channel"@),
        !says_result(fs),
        !absent(fs, "results"@),
    ensures
        match conversion(JsonView::Object(fs)) {
            Ok(p) => reads_as(text, fs, Ok(LineView::Result(p))),
            Err(_) => run_conversion(JsonView::Object(fs)) matches Err(e) && reads_as(
                text,
                fs,
                Err(e),
            ),
        },
{
    law_the_first_field_counts(fs, "channel"@, 0);
    law_the_first_field_counts(fs, "results"@, 0);
    lemma_says_result(fs);
}

/// Any other object, any other value and anything that is no JSON is refused, in words
/// that repeat the line.
pub proof fn law_other_lines_are_refused(
    text: Seq<char>,
    line: Seq<char>,
    fs: Seq<(Seq<char>, JsonView)>,
    j: JsonView,
    e: Seq<char>,
)
    ensures
        absent(fs, "channel"@) && !says_result(fs) && absent(fs, "results"@) ==> reads_as(
            text,
            fs,
            Err(ErrorView::SwiplError("Unknown JSON frame from PeTTa: "@ + text)),
        ),
        !(j is Object) ==> line_meaning(text, Ok(j)) == Err::<LineView, ErrorView>(
            ErrorView::SwiplError("Unknown JSON frame from PeTTa: "@ + text),
        ),
        line_meaning(text, Err(e)) == Err::<LineView, ErrorView>(
            ErrorView::SwiplError(
                "Can't parse JSON frame from PeTTa: "@ + e + ". Line was: "@ + text,
            ),
        ),
        trimmed(line).len() > 0 ==> told(line) == Some(
            line_meaning(trimmed(line), json_parse(trimmed(line))),
        ),
{
    law_the_first_field_counts(fs, "channel"@, 0);
    law_the_first_field_counts(fs, "results"@, 0);
    lemma_says_result(fs);
}

/// A line tells nothing exactly if it is white space.
pub proof fn law_white_space_tells_nothing(line: Seq<char>)
    ensures
        told(line) is None <==> forall|i: int|
            0 <= i < line.len() ==> is_white_space(#[trigger] line[i]),
{
    law_trimmed(line);
    let t = trimmed(line);
    let (a, b) = choose|a: int, b: int| #[trigger] is_trim(line, t, a, b);
    if t.len() > 0 {
        assert(t[0] == line[a]);
    }
}

/// An object with a channel is a frame for it. It carries its arguments as they are
/// converted, each of them and in their order. It carries none where it has none, or
/// where they are not a list.
pub proof fn law_a_frame_carries_its_arguments(
    text: Seq<char>,
    fs: Seq<(Seq<char>, JsonView)>,
    c: int,
    urn: Seq<char>,
    a: int,
    vs: Seq<JsonView>,
    ps: Seq<ParView>,
)
    requires
        first_at(fs, "channel"@, c),
        fs[c].1 == JsonView::String(urn),
    ensures
        first_at(fs, "arguments"@, a) && fs[a].1 == JsonView::Array(vs) && converted(vs, ps)
            ==> reads_as(
            text,
            fs,
            Ok(LineView::Frame(FrameView { channel: urn, arguments: ps })),
        ),
        absent(fs, "arguments"@) || (first_at(fs, "arguments"@, a) && !(fs[a].1 is Array))
            ==> reads_as(
            text,
            fs,
            Ok(LineView::Frame(FrameView { channel: urn, arguments: Seq::empty() })),
        ),
{
    law_the_first_field_counts(fs, "channel"@, c);
    law_the_first_field_counts(fs, "arguments"@, a);
    if converted(vs, ps) {
        law_parts_are_converted_one_by_one(vs, Seq::new(vs.len(), |i: int| urn), ps);
        assert(numbers(JsonView::Array(vs)) == numbers_in_values(vs, vs.len()));
        assert forall|i: int| 0 <= i < vs.len() implies #[trigger] models(vs)[i] == ps[i] by {
            assert(conversion(vs[i]) == Ok::<ParView, ErrorView>(ps[i]));
        }
        assert(models(vs) =~= ps);
        assert(run_conversions(vs) == Ok::<Seq<ParView>, ErrorView>(ps));
    }
}

/// A frame of which an argument is refused is refused in the words for the first such
/// argument, and so is one whose channel is no string.
pub proof fn law_a_frame_is_refused(
    text: Seq<char>,
    fs: Seq<(Seq<char>, JsonView)>,
    c: int,
    a: int,
    vs: Seq<JsonView>,
    ps: Seq<ParView>,
    i: int,
)
    requires
        first_at(fs, "channel"@, c),
    ensures
        !(fs[c].1 is String) ==> reads_as(
            text,
            fs,
            Err(ErrorView::SwiplError("Frame missing 'channel' string field"@)),
        ),
        fs[c].1 is String && first_at(fs, "arguments"@, a) && fs[a].1 == JsonView::Array(vs) && 0
            <= i < vs.len() && converted(vs.take(i), ps) && conversion(vs[i]) is Err ==> (
        run_conversion(vs[i]) matches Err(e) && reads_as(text, fs, Err(e))),
{
    law_the_first_field_counts(fs, "channel"@, c);
    law_the_first_field_counts(fs, "arguments"@, a);
    if 0 <= i < vs.len() && converted(vs.take(i), ps) && conversion(vs[i]) is Err {
        law_the_first_refusal_counts(vs, Seq::new(vs.len(), |k: int| text), ps, i);
        assert(numbers(JsonView::Array(vs)) == numbers_in_values(vs, vs.len()));
    }
}

// ---------------------------------------------------------------------------
// Runs
// ---------------------------------------------------------------------------
/// A run that is read takes a line for what it tells: a frame comes behind those
/// before it, a result takes the place of one before it, white space changes nothing,
/// and a line that is refused ends the run. At first there is neither.
pub proof fn law_a_run_takes_what_a_line_tells(
    frames: Seq<FrameView>,
    result: Option<ParView>,
    line: String,
    f: FrameView,
    p: ParView,
    e: ErrorView,
)
    ensures
        ({
            let before = FramedView::Reading(CollectorView { frames, result });
            let after = framed_next(before, RunEvent::Line(line));
            &&& can_happen(before, RunEvent::Line(line))
            &&& told(line@) is None ==> after == before
            &&& told(line@) == Some(Ok::<LineView, ErrorView>(LineView::Frame(f))) ==> after
                == FramedView::Reading(CollectorView { frames: frames.push(f), result })
            &&& told(line@) == Some(Ok::<LineView, ErrorView>(LineView::Result(p))) ==> after
                == FramedView::Reading(CollectorView { frames, result: Some(p) })
            &&& told(line@) == Some(Err::<LineView, ErrorView>(e)) ==> after == FramedView::Ended(
                Err(e),
            )
        }),
        CollectorView::nothing().frames.len() == 0 && CollectorView::nothing().result is None,
{
}

/// Output that ends must have told a result, and then the interpreter must exit well:
/// the run comes to all frames and that result. Otherwise it is an error that says
/// so. A fault ends the run wherever it is.
pub proof fn law_how_a_run_ends(
    frames: Seq<FrameView>,
    p: ParView,
    result: Option<ParView>,
    stderr: String,
    fault: PettaFault,
)
    ensures
        ({
            let read = FramedView::Reading(CollectorView { frames, result: Some(p) });
            let exiting = framed_next(read, RunEvent::EndOfOutput);
            let well = RunEvent::Exited { success: true, stderr };
            let ill = RunEvent::Exited { success: false, stderr };
            &&& can_happen(read, RunEvent::EndOfOutput)
            &&& can_happen(exiting, well) && can_happen(exiting, ill)
            &&& framed_next(exiting, well) == FramedView::Ended(Ok((frames, p)))
            &&& framed_next(exiting, ill) == FramedView::Ended(
                Err(ErrorView::SwiplError("PeTTa execution failed. stderr: "@ + stderr@)),
            )
            &&& can_happen(exiting, RunEvent::Fault(fault))
            &&& framed_next(exiting, RunEvent::Fault(fault)) == FramedView::Ended(
                Err(ErrorView::SwiplError(fault_text(fault))),
            )
        }),
        framed_next(
            FramedView::Reading(CollectorView { frames, result: None }),
            RunEvent::EndOfOutput,
        ) == FramedView::Ended(
            Err(
                ErrorView::SwiplError(
                    "No result line found in PeTTa output (expected line with type:'result')"@,
                ),
            ),
        ),
        ({
            let reading = FramedView::Reading(CollectorView { frames, result });
            &&& can_happen(reading, RunEvent::Fault(fault))
            &&& framed_next(reading, RunEvent::Fault(fault)) == FramedView::Ended(
                Err(ErrorView::SwiplError(fault_text(fault))),
            )
            &&& !can_happen(reading, RunEvent::Exited { success: true, stderr })
            &&& !can_happen(reading, RunEvent::Exited { success: false, stderr })
        }),
{
}

/// Nothing happens in a run that is over, and nothing is read in one whose output has
/// ended.
pub proof fn law_what_cannot_happen(
    frames: Seq<FrameView>,
    p: ParView,
    outcome: Result<(Seq<FrameView>, ParView), ErrorView>,
    line: String,
    event: RunEvent,
)
    ensures
        !can_happen(FramedView::Ended(outcome), event),
        !can_happen(FramedView::Exiting { frames, result: p }, RunEvent::Line(line)),
        !can_happen(FramedView::Exiting { frames, result: p }, RunEvent::EndOfOutput),
{
}

/// A fault is told in the words for its kind, followed by its own where it has any.
pub proof fn law_words_for_faults(e: String)
    ensures
        fault_text(PettaFault::OpenFile) == "Can't open temp file"@,
        fault_text(PettaFault::WriteFile) == "Can't write MeTTa code to temp file"@,
        fault_text(PettaFault::FlushFile) == "Can't flush MeTTa temp file"@,
        fault_text(PettaFault::NoStdout) == "Can't open PeTTa stdout pipe"@,
        fault_text(PettaFault::TimedOut) == "MeTTa execution timed out after 10 seconds"@,
        fault_text(PettaFault::Join(e)) == "Error while joining with the PeTTa task: "@ + e@,
        fault_text(PettaFault::Elapsed(e)) == "MeTTa execution timed out after "@ + e@,
        fault_text(PettaFault::Run(e)) == "MeTTa execution failed: "@ + e@,
        fault_text(PettaFault::Spawn(e)) == "Failed to spawn PeTTa process: "@ + e@,
        fault_text(PettaFault::ReadLine(e)) == "Failed to read line from PeTTa stdout: "@ + e@,
        fault_text(PettaFault::Wait(e)) == "Failed to wait for PeTTa child: "@ + e@,
        fault_text(PettaFault::Exit(e)) == "PeTTa execution failed. stderr: "@ + e@,
{
}

/// A run that takes too long is told to have been stopped after the time that a program
/// may take.
pub proof fn law_the_time_limit_is_told()
    ensures
        fault_text(PettaFault::TimedOut) == "MeTTa execution timed out after "@ + nat_text(
            TIMEOUT_SECS as nat,
        ) + " seconds"@,
{
    reveal_strlit("MeTTa execution timed out after 10 seconds");
    reveal_strlit("MeTTa execution timed out after ");
    reveal_strlit(" seconds");
    reveal_with_fuel(nat_text, 2);
    assert(nat_text(10) =~= seq!['1', '0']);
    assert(fault_text(PettaFault::TimedOut) =~= "MeTTa execution timed out after "@ + nat_text(10)
        + " seconds"@);
}

/// A program that prints once comes to the value that it printed, the whole of it, as
/// it is converted: exactly if it exited well, and what it printed is text, and JSON,
/// and is converted. Otherwise the first of these that fails is told.
pub proof fn law_what_is_printed_once(
    success: bool,
    stdout: Seq<u8>,
    stderr: Seq<u8>,
    j: JsonView,
    e: Seq<char>,
)
    ensures
        ({
            let text = decode_utf8(stdout);
            let outcome = run_meaning(success, stdout, stderr);
            &&& !success ==> outcome == Err::<ParView, ErrorView>(
                ErrorView::SwiplError("PeTTa execution failed. stderr: "@ + utf8_lossy(stderr)),
            )
            &&& success && !valid_utf8(stdout) ==> outcome == Err::<ParView, ErrorView>(
                ErrorView::SwiplError("Can't interpret PeTTa output"@),
            )
            &&& success && valid_utf8(stdout) && json_parse(text) == Err::<JsonView, Seq<char>>(e)
                ==> outcome == Err::<ParView, ErrorView>(
                ErrorView::SwiplError(
                    "Can't parse JSON output from PeTTa execution: "@ + e + ". Output was: "@
                        + text,
                ),
            )
            &&& success && valid_utf8(stdout) && json_parse(text) == Ok::<JsonView, Seq<char>>(j)
                ==> (match conversion(j) {
                Ok(p) => outcome == Ok::<ParView, ErrorView>(p),
                Err(_) => outcome is Err && outcome == run_conversion(j),
            })
        }),
{
}

/// A text that was printed once is read for the value that a parser finds in it.
pub proof fn law_a_printed_text_tells_its_value(text: Seq<char>, j: JsonView, e: Seq<char>)
    ensures
        match conversion(j) {
            Ok(p) => single_meaning(text, Ok(j)) == Ok::<ParView, ErrorView>(p),
            Err(_) => single_meaning(text, Ok(j)) is Err && single_meaning(text, Ok(j))
                == run_conversion(j),
        },
        single_meaning(text, Err(e)) == Err::<ParView, ErrorView>(
            ErrorView::SwiplError(
                "Can't parse JSON output from PeTTa execution: "@ + e + ". Output was: "@ + text,
            ),
        ),
{
}

// ---------------------------------------------------------------------------
// Calling the interpreter
// ---------------------------------------------------------------------------
/// The interpreter can be called exactly if its script is there and the three
/// directories are set; otherwise the first that is missing is told. The script is
/// the one that is set, or the one in the working directory.
pub proof fn law_what_a_call_of_the_interpreter_needs(vars: EnvVars, script_exists: bool)
    ensures
        env_fault(vars, script_exists) is None <==> script_exists && vars.petta_dir is Some
            && vars.cache_dir is Some && vars.sandbox_lib_path is Some,
        !script_exists ==> env_fault(vars, script_exists) == Some("Can't find petta.sh script."@),
        script_exists && vars.petta_dir is None ==> env_fault(vars, script_exists) == Some(
            "PETTA_DIR environment variable not set"@,
        ),
        script_exists && vars.petta_dir is Some && vars.cache_dir is None ==> env_fault(
            vars,
            script_exists,
        ) == Some("CACHE_DIR environment variable not set"@),
        script_exists && vars.petta_dir is Some && vars.cache_dir is Some && vars.sandbox_lib_path
            is None ==> env_fault(vars, script_exists) == Some(
            "SANDBOX_LIB_PATH environment variable not set"@,
        ),
        vars.script_path is Some ==> vars.script() == vars.script_path->0@,
        vars.script_path is None ==> vars.script() == "./petta.sh"@,
{
}

/// The script is given its three directories, and the blocked predicates behind them
/// where there are any. In node mode, and only in it, the mode comes first.
pub proof fn law_what_the_script_is_given(env: PettaEnv)
    ensures
        env.script_vars(true) == seq![("PETTA_MODE"@, "NODE"@)] + env.script_vars(false),
        env.blocked_preds is None ==> env.script_vars(false) == seq![
            ("PETTA_DIR"@, env.petta_dir@),
            ("CACHE_DIR"@, env.cache_dir@),
            ("SANDBOX_LIB_PATH"@, env.sandbox_lib_path@),
        ],
        env.blocked_preds is Some ==> env.script_vars(false) == seq![
            ("PETTA_DIR"@, env.petta_dir@),
            ("CACHE_DIR"@, env.cache_dir@),
            ("SANDBOX_LIB_PATH"@, env.sandbox_lib_path@),
            ("PETTA_BLOCKED_PREDS"@, env.blocked_preds->0@),
        ],
{
    assert(env.script_vars(true) =~= seq![("PETTA_MODE"@, "NODE"@)] + env.script_vars(false));
}

} // verus!
