use ppb_gui_middle::backend::{
    backend_args, backend_dir_parts, backend_file_name, classify_exit, finish_text_io, text_io,
    OsFamily, ProcessOutcome,
};
use ppb_gui_middle::clock::RequestClock;
use ppb_gui_middle::error::BridgeError;
use ppb_gui_middle::files::write_outcome;
use ppb_gui_middle::payload::{append_decimal, append_quoted, ReqType};

fn strings(items: &[&str]) -> Vec<String> {
    items.iter().map(|s| s.to_string()).collect()
}

#[test]
fn payload_of_two_actions() {
    let req = ReqType::new(strings(&["login", "list"]), 1700000000);
    assert_eq!(
        req.to_backend_server_text(),
        "{\"actions\": [\"login\", \"list\"], \"timestamp\": 1700000000}"
    );
}

#[test]
fn payload_of_no_actions() {
    let req = ReqType::new(Vec::new(), 0);
    assert_eq!(req.to_backend_server_text(), "{\"actions\": [], \"timestamp\": 0}");
}

#[test]
fn payload_keeps_action_order() {
    let req = ReqType::new(strings(&["c", "a", "b"]), 5);
    assert_eq!(
        req.to_backend_server_text(),
        "{\"actions\": [\"c\", \"a\", \"b\"], \"timestamp\": 5}"
    );
}

#[test]
fn payload_matches_debug_layout_for_plain_actions() {
    let actions = strings(&["login", "list", "新增 密碼", "x=1&y=2"]);
    let req = ReqType::new(actions.clone(), 42);
    let expected = format!("{{\"actions\": {:?}, \"timestamp\": {}}}", actions, 42u64);
    assert_eq!(req.to_backend_server_text(), expected);
}

#[test]
fn decimal_of_largest_timestamp() {
    let mut out = String::from("t=");
    append_decimal(&mut out, u64::MAX);
    assert_eq!(out, "t=18446744073709551615");
}

#[test]
fn decimal_of_small_numbers() {
    for (n, text) in [(0u64, "0"), (7, "7"), (10, "10"), (1005, "1005")] {
        let mut out = String::new();
        append_decimal(&mut out, n);
        assert_eq!(out, text);
    }
}

#[test]
fn quote_and_backslash_are_escaped() {
    let mut out = String::new();
    append_quoted(&mut out, "a\"b\\c");
    assert_eq!(out, "\"a\\\"b\\\\c\"");
}

#[test]
fn control_characters_are_escaped() {
    let mut out = String::new();
    append_quoted(&mut out, "l1\nl2\r\t\u{1}\u{1f}");
    assert_eq!(out, "\"l1\\nl2\\r\\t\\u0001\\u001f\"");
}

#[test]
fn empty_action_is_two_quotes() {
    let mut out = String::new();
    append_quoted(&mut out, "");
    assert_eq!(out, "\"\"");
}

#[test]
fn clock_never_runs_backwards() {
    let mut clock = RequestClock::new();
    assert_eq!(clock.stamp(100), 100);
    assert_eq!(clock.stamp(90), 100);
    assert_eq!(clock.stamp(100), 100);
    assert_eq!(clock.stamp(130), 130);
    assert_eq!(clock.last_issued, 130);
}

#[test]
fn backend_names_by_family() {
    assert_eq!(backend_file_name(OsFamily::Windows), "ppb_backend_win.exe");
    assert_eq!(backend_file_name(OsFamily::Unix), "ppb_backend_linux.bin");
    assert_eq!(backend_dir_parts(), strings(&["addons", "ppb_backend"]));
}

#[test]
fn backend_arguments() {
    assert_eq!(
        backend_args("{}".to_string()),
        strings(&["server", "--server-text-arg", "{}"])
    );
}

#[test]
fn text_io_prepares_call() {
    let mut clock = RequestClock { last_issued: 200 };
    let call = text_io(&mut clock, strings(&["login"]), 150, OsFamily::Unix);
    assert_eq!(call.request.timestamp, 200);
    assert_eq!(call.request.actions, strings(&["login"]));
    assert_eq!(call.file_name, "ppb_backend_linux.bin");
    assert_eq!(
        call.args,
        strings(&["server", "--server-text-arg", "{\"actions\": [\"login\"], \"timestamp\": 200}"])
    );
    assert_eq!(clock.last_issued, 200);
}

#[test]
fn echoing_backend_returns_payload() {
    let mut clock = RequestClock::new();
    let call = text_io(&mut clock, strings(&["login", "list"]), 1700000123, OsFamily::Windows);
    let payload = call.request.to_backend_server_text();
    // A stub backend that prints its third argument.
    let outcome = ProcessOutcome::Exited {
        code: Some(0),
        stdout: call.args[2].clone().into_bytes(),
        stderr: Vec::new(),
    };
    let text = finish_text_io(outcome).unwrap();
    assert_eq!(text, payload);
    assert_eq!(text, "{\"actions\": [\"login\", \"list\"], \"timestamp\": 1700000123}");
}

#[test]
fn output_is_decoded_as_text() {
    let outcome = ProcessOutcome::Exited {
        code: Some(0),
        stdout: "密碼 ok".as_bytes().to_vec(),
        stderr: Vec::new(),
    };
    assert_eq!(finish_text_io(outcome), Ok("密碼 ok".to_string()));
}

#[test]
fn invalid_output_bytes_are_replaced() {
    let outcome = ProcessOutcome::Exited {
        code: Some(0),
        stdout: vec![b'a', 0xff, b'b'],
        stderr: Vec::new(),
    };
    assert_eq!(finish_text_io(outcome), Ok("a\u{fffd}b".to_string()));
}

#[test]
fn non_zero_exit_is_reported() {
    let outcome = ProcessOutcome::Exited {
        code: Some(3),
        stdout: b"partial".to_vec(),
        stderr: b"bad request".to_vec(),
    };
    assert_eq!(
        finish_text_io(outcome),
        Err(BridgeError::NonZeroExit { code: Some(3), stderr: "bad request".to_string() })
    );
}

#[test]
fn killed_backend_is_reported() {
    assert_eq!(
        classify_exit(None, String::new(), "killed".to_string()),
        Err(BridgeError::NonZeroExit { code: None, stderr: "killed".to_string() })
    );
}

#[test]
fn spawn_failure_is_reported() {
    let outcome = ProcessOutcome::SpawnFailed { cause: "not found".to_string() };
    assert_eq!(
        finish_text_io(outcome),
        Err(BridgeError::SpawnFailed { cause: "not found".to_string() })
    );
}

#[test]
fn write_success() {
    assert_eq!(write_outcome("/tmp/a.bin".to_string(), Ok(())), Ok(()));
}

#[test]
fn write_to_missing_path_reports_io_error() {
    assert_eq!(
        write_outcome(
            "/no/such/dir/a.bin".to_string(),
            Err("No such file or directory (os error 2)".to_string())
        ),
        Err(BridgeError::IoFailure {
            path: "/no/such/dir/a.bin".to_string(),
            cause: "No such file or directory (os error 2)".to_string(),
        })
    );
}
