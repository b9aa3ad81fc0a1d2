use rho_system_processes::errors::InterpreterError;
use rho_system_processes::json::{Json, JsonNumber};
use rho_system_processes::par::KeyValuePair;
use rho_system_processes::rho_type::{RhoBoolean, RhoList, RhoMap, RhoNumber, RhoString};
use rho_system_processes::swi_prolog_service::{
    check_exit, checked_metta_path, petta_outcome, read_output, read_parsed_line, read_single,
    Collector, EnvVars, Frame, FramedRun, Line, PettaEnv, PettaFault, RunEnd, RunEvent,
    TIMEOUT_SECS,
};

fn swipl<T>(text: &str) -> Result<T, InterpreterError> {
    Err(InterpreterError::SwiplError(text.to_string()))
}

fn vars() -> EnvVars {
    EnvVars {
        script_path: None,
        petta_dir: Some("/petta".to_string()),
        cache_dir: Some("/cache".to_string()),
        sandbox_lib_path: Some("/lib/libsandbox.so".to_string()),
        blocked_preds: None,
    }
}

fn pairs(ps: Vec<(&str, &str)>) -> Vec<(String, String)> {
    ps.into_iter()
        .map(|(a, b)| (a.to_string(), b.to_string()))
        .collect()
}

#[test]
fn the_script_has_a_default() {
    assert_eq!(vars().script_to_run(), "./petta.sh");
    let mut other = vars();
    other.script_path = Some("/opt/petta.sh".to_string());
    assert_eq!(other.script_to_run(), "/opt/petta.sh");
    assert_eq!(
        PettaEnv::from_env(other, true).unwrap().script_path,
        "/opt/petta.sh"
    );
}

#[test]
fn what_is_missing_is_told_in_order() {
    let nothing = EnvVars {
        script_path: None,
        petta_dir: None,
        cache_dir: None,
        sandbox_lib_path: None,
        blocked_preds: None,
    };
    assert_eq!(
        PettaEnv::from_env(nothing, false),
        swipl("Can't find petta.sh script.")
    );
    let mut v = vars();
    v.petta_dir = None;
    v.cache_dir = None;
    assert_eq!(
        PettaEnv::from_env(v, true),
        swipl("PETTA_DIR environment variable not set")
    );
    let mut v = vars();
    v.cache_dir = None;
    v.sandbox_lib_path = None;
    assert_eq!(
        PettaEnv::from_env(v, true),
        swipl("CACHE_DIR environment variable not set")
    );
    let mut v = vars();
    v.sandbox_lib_path = None;
    assert_eq!(
        PettaEnv::from_env(v, true),
        swipl("SANDBOX_LIB_PATH environment variable not set")
    );
}

#[test]
fn the_script_is_called_with_its_variables() {
    let env = PettaEnv::from_env(vars(), true).unwrap();
    let once = env.command("/tmp/code", false);
    assert_eq!(once.program, "./petta.sh");
    assert_eq!(once.argument, "/tmp/code");
    assert_eq!(
        once.vars,
        pairs(vec![
            ("PETTA_DIR", "/petta"),
            ("CACHE_DIR", "/cache"),
            ("SANDBOX_LIB_PATH", "/lib/libsandbox.so"),
        ])
    );
    let framed = env.with_blocks(Some("readln! println!")).command("/tmp/code", true);
    assert_eq!(
        framed.vars,
        pairs(vec![
            ("PETTA_MODE", "NODE"),
            ("PETTA_DIR", "/petta"),
            ("CACHE_DIR", "/cache"),
            ("SANDBOX_LIB_PATH", "/lib/libsandbox.so"),
            ("PETTA_BLOCKED_PREDS", "readln! println!"),
        ])
    );
}

#[test]
fn blocks_of_the_environment_stay_unless_replaced() {
    let mut v = vars();
    v.blocked_preds = Some("readln!".to_string());
    let env = PettaEnv::from_env(v, true).unwrap().with_blocks(None);
    assert_eq!(env.blocked_preds, Some("readln!".to_string()));
    let env = env.with_blocks(Some(""));
    assert_eq!(env.blocked_preds, Some("".to_string()));
}

#[test]
fn paths_are_checked() {
    assert_eq!(
        checked_metta_path(None),
        swipl("Can't convert metta_file path to string")
    );
    assert_eq!(
        checked_metta_path(Some("/tmp/it's".to_string())),
        swipl("Temp file path contains unsafe character (single quote)")
    );
    assert_eq!(
        checked_metta_path(Some("/tmp/código".to_string())),
        Ok("/tmp/código".to_string())
    );
}

#[test]
fn faults_have_their_texts() {
    let e = || "boom".to_string();
    let texts = vec![
        (PettaFault::OpenFile, "Can't open temp file"),
        (PettaFault::WriteFile, "Can't write MeTTa code to temp file"),
        (PettaFault::FlushFile, "Can't flush MeTTa temp file"),
        (
            PettaFault::Join(e()),
            "Error while joining with the PeTTa task: boom",
        ),
        (
            PettaFault::Elapsed(e()),
            "MeTTa execution timed out after boom",
        ),
        (PettaFault::Run(e()), "MeTTa execution failed: boom"),
        (PettaFault::Spawn(e()), "Failed to spawn PeTTa process: boom"),
        (PettaFault::NoStdout, "Can't open PeTTa stdout pipe"),
        (
            PettaFault::ReadLine(e()),
            "Failed to read line from PeTTa stdout: boom",
        ),
        (
            PettaFault::TimedOut,
            "MeTTa execution timed out after 10 seconds",
        ),
        (PettaFault::Wait(e()), "Failed to wait for PeTTa child: boom"),
        (PettaFault::Exit(e()), "PeTTa execution failed. stderr: boom"),
    ];
    for (fault, text) in texts {
        assert_eq!(
            fault.error(),
            InterpreterError::SwiplError(text.to_string())
        );
    }
    assert_eq!(TIMEOUT_SECS, 10);
}

#[test]
fn results_come_as_a_map() {
    let read = read_output(true, b"{\"results\": [3, [\"Pair\", true]]}\n".to_vec(), vec![]);
    assert_eq!(
        read,
        Ok(RhoMap::create_par(vec![KeyValuePair {
            key: RhoString::create_par("results".to_string()),
            value: RhoList::create_par(vec![
                RhoNumber::create_par(3),
                RhoList::create_par(vec![
                    RhoString::create_par("Pair".to_string()),
                    RhoBoolean::create_par(true),
                ]),
            ]),
        }]))
    );
}

#[test]
fn a_failed_run_tells_its_errors() {
    assert_eq!(
        read_output(false, b"{}".to_vec(), vec![b'n', b'o', 0xff]),
        swipl("PeTTa execution failed. stderr: no\u{FFFD}")
    );
}

#[test]
fn output_must_be_text() {
    assert_eq!(
        read_output(true, vec![0xff, 0xfe], vec![]),
        swipl("Can't interpret PeTTa output")
    );
    assert_eq!(
        read_output(true, "\"é\"".as_bytes().to_vec(), vec![]),
        Ok(RhoString::create_par("é".to_string()))
    );
}

#[test]
fn output_must_be_json() {
    assert_eq!(
        read_output(true, b"nope".to_vec(), vec![]),
        swipl(
            "Can't parse JSON output from PeTTa execution: expected ident at line 1 column 2. \
             Output was: nope"
        )
    );
    assert_eq!(
        read_single("text", Err("bad".to_string())),
        swipl("Can't parse JSON output from PeTTa execution: bad. Output was: text")
    );
    assert_eq!(
        read_single("7", Ok(Json::Number(JsonNumber::PosInt(7)))),
        Ok(RhoNumber::create_par(7))
    );
}

fn field(k: &str, v: Json) -> (String, Json) {
    (k.to_string(), v)
}

fn text(s: &str) -> Json {
    Json::String(s.to_string())
}

#[test]
fn lines_are_told_apart() {
    let frame = Json::Object(vec![
        field("arguments", Json::Array(vec![text("hello")])),
        field("channel", text("rho:io:stdout")),
        field("type", text("result")),
    ]);
    assert_eq!(
        read_parsed_line("l", Ok(frame)),
        Ok(Line::Frame(Frame {
            channel: "rho:io:stdout".to_string(),
            arguments: vec![RhoString::create_par("hello".to_string())],
        }))
    );
    let bare = Json::Object(vec![field("channel", text("c"))]);
    assert_eq!(
        read_parsed_line("l", Ok(bare)),
        Ok(Line::Frame(Frame {
            channel: "c".to_string(),
            arguments: vec![],
        }))
    );
    let scalar = Json::Object(vec![
        field("arguments", text("x")),
        field("channel", text("c")),
    ]);
    assert_eq!(
        read_parsed_line("l", Ok(scalar)),
        Ok(Line::Frame(Frame {
            channel: "c".to_string(),
            arguments: vec![],
        }))
    );
    let result = Json::Object(vec![
        field("type", text("result")),
        field("value", Json::Bool(true)),
    ]);
    assert_eq!(
        read_parsed_line("l", Ok(result)),
        Ok(Line::Result(RhoBoolean::create_par(true)))
    );
    let results = Json::Object(vec![field("results", Json::Array(vec![]))]);
    assert_eq!(
        read_parsed_line("l", Ok(results)),
        Ok(Line::Result(RhoMap::create_par(vec![KeyValuePair {
            key: RhoString::create_par("results".to_string()),
            value: RhoList::create_par(vec![]),
        }])))
    );
}

#[test]
fn bad_lines_are_refused() {
    let no_text = Json::Object(vec![field("channel", Json::Null)]);
    assert_eq!(
        read_parsed_line("l", Ok(no_text)),
        swipl("Frame missing 'channel' string field")
    );
    let no_value = Json::Object(vec![field("type", text("result"))]);
    assert_eq!(
        read_parsed_line("l", Ok(no_value)),
        swipl("Result frame missing 'value' field")
    );
    let other = Json::Object(vec![field("type", text("log"))]);
    assert_eq!(
        read_parsed_line("l", Ok(other)),
        swipl("Unknown JSON frame from PeTTa: l")
    );
    assert_eq!(
        read_parsed_line("17", Ok(Json::Number(JsonNumber::PosInt(17)))),
        swipl("Unknown JSON frame from PeTTa: 17")
    );
    assert_eq!(
        read_parsed_line("x", Err("bad".to_string())),
        swipl("Can't parse JSON frame from PeTTa: bad. Line was: x")
    );
    let float = Json::Object(vec![
        field(
            "arguments",
            Json::Array(vec![Json::Number(JsonNumber::Float("0.5".to_string()))]),
        ),
        field("channel", text("c")),
    ]);
    assert!(read_parsed_line("l", Ok(float)).is_err());
}

#[test]
fn output_is_collected_line_by_line() {
    let mut c = Collector::new();
    assert_eq!(
        c.take_text("  {\"channel\":\"rho:io:stdout\",\"arguments\":[\"a\",1]}  \r"),
        Ok(())
    );
    assert_eq!(c.take_text("\u{3000} \t"), Ok(()));
    assert_eq!(c.take_text("{\"type\":\"result\",\"value\":[0]}"), Ok(()));
    assert_eq!(c.take_text("{\"channel\":\"b\",\"arguments\":[]}"), Ok(()));
    assert_eq!(c.take_text("{\"type\":\"result\",\"value\":[true]}"), Ok(()));
    assert_eq!(
        c.take_text(" [1] "),
        swipl("Unknown JSON frame from PeTTa: [1]")
    );
    assert_eq!(
        c.take_text(" {] "),
        swipl(
            "Can't parse JSON frame from PeTTa: key must be a string at line 1 column 2. \
             Line was: {]"
        )
    );
    let (frames, result) = c.finish().unwrap();
    assert_eq!(
        frames,
        vec![
            Frame {
                channel: "rho:io:stdout".to_string(),
                arguments: vec![
                    RhoString::create_par("a".to_string()),
                    RhoNumber::create_par(1),
                ],
            },
            Frame {
                channel: "b".to_string(),
                arguments: vec![],
            },
        ]
    );
    assert_eq!(
        result,
        RhoList::create_par(vec![RhoBoolean::create_par(true)])
    );
}

#[test]
fn output_without_a_result_is_refused() {
    assert_eq!(
        Collector::new().finish(),
        swipl("No result line found in PeTTa output (expected line with type:'result')")
    );
}

#[test]
fn exits_are_checked() {
    assert_eq!(check_exit(true, "noise".to_string()), Ok(()));
    assert_eq!(
        check_exit(false, "died".to_string()),
        swipl("PeTTa execution failed. stderr: died")
    );
}

fn line(text: &str) -> RunEvent {
    RunEvent::Line(text.to_string())
}

fn exited(success: bool) -> RunEvent {
    RunEvent::Exited {
        success,
        stderr: "why".to_string(),
    }
}

fn run(events: Vec<RunEvent>) -> FramedRun {
    let mut run = FramedRun::new();
    for event in events {
        assert!(run.expects(&event));
        run = run.on(event);
    }
    run
}

#[test]
fn a_run_yields_its_frames_and_its_result() {
    assert_eq!(
        run(vec![
            line("{\"channel\":\"rho:io:stdout\",\"arguments\":[\"hello\"]}"),
            line(""),
            line("{\"type\":\"result\",\"value\":[true]}"),
            RunEvent::EndOfOutput,
            exited(true),
        ]),
        FramedRun::Ended(Ok((
            vec![Frame {
                channel: "rho:io:stdout".to_string(),
                arguments: vec![RhoString::create_par("hello".to_string())],
            }],
            RhoList::create_par(vec![RhoBoolean::create_par(true)]),
        )))
    );
}

#[test]
fn a_run_ends_at_the_first_thing_that_goes_wrong() {
    let result = "{\"type\":\"result\",\"value\":1}";
    assert_eq!(
        run(vec![line("17")]),
        FramedRun::Ended(swipl("Unknown JSON frame from PeTTa: 17"))
    );
    assert_eq!(
        run(vec![RunEvent::EndOfOutput]),
        FramedRun::Ended(swipl(
            "No result line found in PeTTa output (expected line with type:'result')"
        ))
    );
    assert_eq!(
        run(vec![line(result), RunEvent::EndOfOutput, exited(false)]),
        FramedRun::Ended(swipl("PeTTa execution failed. stderr: why"))
    );
    assert_eq!(
        run(vec![line(result), RunEvent::Fault(PettaFault::TimedOut)]),
        FramedRun::Ended(swipl("MeTTa execution timed out after 10 seconds"))
    );
    assert_eq!(
        run(vec![
            line(result),
            RunEvent::EndOfOutput,
            RunEvent::Fault(PettaFault::Wait("gone".to_string())),
        ]),
        FramedRun::Ended(swipl("Failed to wait for PeTTa child: gone"))
    );
}

#[test]
fn events_have_their_time() {
    assert!(!FramedRun::new().expects(&exited(true)));
    let over = run(vec![RunEvent::EndOfOutput]);
    assert!(!over.expects(&exited(true)));
    let exiting = run(vec![
        line("{\"results\":[]}"),
        RunEvent::EndOfOutput,
    ]);
    assert!(!exiting.expects(&line("x")));
    assert!(exiting.expects(&exited(false)));
}

#[test]
fn a_single_run_comes_to_its_output_or_its_fault() {
    assert_eq!(
        petta_outcome(RunEnd::Exited {
            success: true,
            stdout: b"[55]".to_vec(),
            stderr: b"noise".to_vec(),
        }),
        Ok(RhoList::create_par(vec![RhoNumber::create_par(55)]))
    );
    assert_eq!(
        petta_outcome(RunEnd::Fault(PettaFault::Elapsed(
            "deadline has elapsed".to_string()
        ))),
        swipl("MeTTa execution timed out after deadline has elapsed")
    );
}

#[test]
fn an_integer_out_of_range_is_told_of_the_run() {
    let text = "Could not parse number as i64";
    assert_eq!(
        read_output(
            true,
            b"{\"results\": [9223372036854775808]}".to_vec(),
            vec![]
        ),
        swipl(text)
    );
    assert_eq!(
        read_single("n", Ok(Json::Number(JsonNumber::PosInt(u64::MAX)))),
        swipl(text)
    );
    for bad in [
        "{\"channel\":\"c\",\"arguments\":[1,9223372036854775808]}",
        "{\"type\":\"result\",\"value\":[9223372036854775808]}",
        "{\"results\":[9223372036854775808]}",
    ] {
        assert_eq!(run(vec![line(bad)]), FramedRun::Ended(swipl(text)));
    }
}

#[test]
fn a_float_is_told_in_full() {
    let text = "Floating-point numbers are not supported. Got: 1.5. Only integers in the range \
                -9223372036854775808 to 9223372036854775807 are allowed.";
    assert_eq!(read_output(true, b"[1.5]".to_vec(), vec![]), swipl(text));
    assert_eq!(
        run(vec![line("{\"type\":\"result\",\"value\":1.5}")]),
        FramedRun::Ended(swipl(text))
    );
}
