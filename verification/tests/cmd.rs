use fwcloud_agent::errors::FwcError;
use fwcloud_agent::utils::cmd::{
    deliver, popen_failure, run_cmd, run_cmd_ws, spawn_failure, stream_result, CmdStream,
    LineAssembler, StreamEnd, FAILURE_DELAY,
};
use fwcloud_agent::utils::ws::WsData;

fn streamed(output: &[u8]) -> Vec<String> {
    let mut ws_data = WsData::new(0);
    run_cmd_ws(&output.to_vec(), StreamEnd::Eof, true, &mut ws_data, true).unwrap();
    ws_data.lines
}

#[test]
fn crlf_ends_one_line() {
    let mut ws_data = WsData::new(0);
    let output = "a\r\nb\n".as_bytes().to_vec();
    let res = run_cmd_ws(&output, StreamEnd::Eof, true, &mut ws_data, true);
    assert!(res.is_ok());
    assert_eq!(ws_data.lines, vec![String::from("a"), String::from("b")]);
    assert!(ws_data.finished);
}

#[test]
fn lines_end_at_cr_lf_and_the_end() {
    assert_eq!(streamed(b""), Vec::<String>::new());
    assert_eq!(streamed(b"a"), vec!["a"]);
    assert_eq!(streamed(b"a\n"), vec!["a"]);
    assert_eq!(streamed(b"a\rb"), vec!["a", "b"]);
    assert_eq!(streamed(b"a\rb\n"), vec!["a", "b"]);
    assert_eq!(streamed(b"a\n\nb"), vec!["a", "", "b"]);
    assert_eq!(streamed(b"a\r\rb"), vec!["a", "", "b"]);
    assert_eq!(streamed(b"a\n\rb"), vec!["a", "", "b"]);
    assert_eq!(streamed(b"a\r\n\r\nb"), vec!["a", "", "b"]);
    assert_eq!(streamed(b"\r\n"), vec![""]);
    assert_eq!(streamed(b"10%\r20%\r100%\n"), vec!["10%", "20%", "100%"]);
}

#[test]
fn bytes_that_are_no_text_are_replaced() {
    assert_eq!(streamed(&[b'a', 0xff, b'b', b'\n']), vec!["a\u{fffd}b"]);
    assert_eq!(streamed("gr\u{fc}n\n".as_bytes()), vec!["gr\u{fc}n"]);
}

#[test]
fn assembler_hands_on_lines_as_they_end() {
    let mut assembler = LineAssembler::new();
    assert_eq!(assembler.push_byte(b'a'), None);
    assert_eq!(assembler.push_byte(b'\r'), Some(String::from("a")));
    assert_eq!(assembler.push_byte(b'\n'), None);
    assert_eq!(assembler.push_byte(b'b'), None);
    assert_eq!(assembler.finish(), Some(String::from("b")));
    assert_eq!(assembler.finish(), None);
}

#[test]
fn streamed_lines_follow_those_queued() {
    let mut ws_data = WsData::new(5);
    ws_data.push_line(String::from("before"));
    let res = run_cmd_ws(&b"x\ny".to_vec(), StreamEnd::Eof, true, &mut ws_data, false);
    assert!(res.is_ok());
    assert_eq!(ws_data.lines, vec!["before", "x", "y"]);
    assert!(!ws_data.finished);
    assert_eq!(ws_data.created_at, 5);
}

#[test]
fn failed_command_still_delivers_its_output() {
    let mut ws_data = WsData::new(0);
    let res = run_cmd_ws(&b"x\npartial".to_vec(), StreamEnd::Eof, false, &mut ws_data, true);
    assert!(matches!(res, Err(FwcError::CmdExitStatusNotZero)));
    assert_eq!(ws_data.lines, vec!["x", "partial"]);
    assert!(ws_data.finished);
    assert_eq!(FAILURE_DELAY, 300);
}

#[test]
fn failed_reading_leaves_the_session_open() {
    let mut ws_data = WsData::new(0);
    let res = run_cmd_ws(
        &b"x\r\ny\npartial".to_vec(),
        StreamEnd::ReadFailed,
        true,
        &mut ws_data,
        true,
    );
    assert!(res.is_ok());
    assert_eq!(ws_data.lines, vec!["x", "y"]);
    assert!(!ws_data.finished);
}

#[test]
fn stream_steps_say_what_to_do() {
    let mut stream = CmdStream::new(true);
    let mut ws_data = WsData::new(0);
    let todo = stream.on_byte(b'a');
    assert_eq!(todo.line, None);
    assert!(!todo.finished && !todo.done);
    deliver(&mut ws_data, todo);
    let todo = stream.on_byte(b'\n');
    assert_eq!(todo.line, Some(String::from("a")));
    assert!(!todo.finished && !todo.done);
    deliver(&mut ws_data, todo);
    assert_eq!(ws_data.lines, vec!["a"]);
    stream.on_byte(b'b');
    let todo = stream.on_end();
    assert_eq!(todo.line, Some(String::from("b")));
    assert!(todo.finished && todo.done);
    deliver(&mut ws_data, todo);
    assert_eq!(ws_data.lines, vec!["a", "b"]);
    assert!(ws_data.finished);

    let mut stream = CmdStream::new(false);
    stream.on_byte(b'c');
    let todo = stream.on_read_error();
    assert_eq!(todo.line, None);
    assert!(!todo.finished && todo.done);
    let todo = stream.on_end();
    assert!(!todo.finished && todo.done);
}

#[test]
fn buffered_command_answers_with_its_output() {
    assert_eq!(
        run_cmd("sh", true, String::from("ENABLED\n")).unwrap(),
        "ENABLED\n"
    );
    assert!(matches!(
        run_cmd("sh", false, String::from("oops")),
        Err(FwcError::CmdExitStatusNotZero)
    ));
    assert_eq!(
        run_cmd("systemctl", false, String::from("inactive")).unwrap(),
        "inactive"
    );
}

#[test]
fn results_of_a_streamed_command() {
    assert!(stream_result(true).is_ok());
    assert!(matches!(
        stream_result(false),
        Err(FwcError::CmdExitStatusNotZero)
    ));
    match popen_failure() {
        FwcError::Internal(text) => assert_eq!(text, "Popen error"),
        _ => panic!("Internal error expected"),
    }
    match spawn_failure(String::from("No such file or directory (os error 2)")) {
        FwcError::PopenError(text) => assert_eq!(text, "No such file or directory (os error 2)"),
        _ => panic!("Popen error expected"),
    }
}
