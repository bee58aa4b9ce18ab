use git_remote_gemini::client::{receive, FetchError};
use git_remote_gemini::endpoint::{Endpoint, MAX_REQUEST_BYTES};
use git_remote_gemini::framing::FramedResponse;
use git_remote_gemini::helper::{
    deliver, respond, step, Request, Session, Status, Step, CAPABILITIES_REPLY,
};
use git_remote_gemini::command::Command;

/// What one run of the helper left behind.
struct Run {
    stdout: Vec<u8>,
    notes: Vec<String>,
    requested: Vec<String>,
    lines_read: usize,
    status: Status,
    error: Option<String>,
}

/// Drives a session over `lines` as the program does, with `server` in the
/// place of the network: it gets the request line and gives the outcome of
/// the connection.
fn run(base: &str, lines: &[&str], server: &dyn Fn(&str) -> Result<Vec<u8>, FetchError>) -> Run {
    let base = Endpoint::parse(base).unwrap();
    let mut session = Session::new();
    let mut out = Run {
        stdout: Vec::new(),
        notes: Vec::new(),
        requested: Vec::new(),
        lines_read: 0,
        status: Status::Awaiting,
        error: None,
    };
    for line in lines {
        let taken = match session.feed(line) {
            Some(taken) => taken,
            None => break,
        };
        out.lines_read += 1;
        match taken {
            Step::Reply(text) => out.stdout.extend_from_slice(text.as_bytes()),
            Step::Fetch(requests) => {
                for request in &requests {
                    let response = match request.endpoint(&base) {
                        Ok(target) => {
                            let line = target.request_line();
                            out.requested.push(line.clone());
                            receive(server(&line))
                        }
                        Err(failure) => Err(failure),
                    };
                    let delivery = deliver(request, response);
                    out.stdout.extend_from_slice(&delivery.output);
                    if let Some(note) = delivery.note {
                        out.notes.push(note);
                    }
                }
            }
            Step::Finish => break,
            Step::Abort(error) => {
                out.error = Some(error.message().to_string());
                break;
            }
        }
    }
    out.status = session.status();
    out
}

fn refused(_: &str) -> Result<Vec<u8>, FetchError> {
    Err(FetchError::Connect)
}

#[test]
fn capabilities_is_answered_with_import() {
    assert_eq!(CAPABILITIES_REPLY, "import\n\n");
    match step("capabilities") {
        Step::Reply(text) => assert_eq!(text, "import\n\n"),
        other => panic!("unexpected step {:?}", other),
    }
    match step("capabilities whatever else") {
        Step::Reply(text) => assert_eq!(text, "import\n\n"),
        other => panic!("unexpected step {:?}", other),
    }
}

#[test]
fn capabilities_keeps_the_session_waiting() {
    let mut session = Session::new();
    assert!(matches!(session.feed("capabilities"), Some(Step::Reply(_))));
    assert_eq!(session.status(), Status::Awaiting);
    assert!(matches!(session.feed("capabilities"), Some(Step::Reply(_))));
    assert_eq!(session.status(), Status::Awaiting);
}

#[test]
fn list_asks_for_the_list_without_a_note() {
    match step("list") {
        Step::Fetch(requests) => {
            assert_eq!(requests.len(), 1);
            assert_eq!(requests[0].query, "list");
            assert!(!requests[0].report);
        }
        other => panic!("unexpected step {:?}", other),
    }
}

#[test]
fn import_asks_for_each_ref_in_order() {
    match step("import refs/heads/main refs/tags/v1") {
        Step::Fetch(requests) => {
            assert_eq!(requests.len(), 2);
            assert_eq!(requests[0].query, "fast-export=refs/heads/main");
            assert_eq!(requests[1].query, "fast-export=refs/tags/v1");
            assert!(requests[0].report && requests[1].report);
        }
        other => panic!("unexpected step {:?}", other),
    }
}

#[test]
fn import_without_refs_asks_for_nothing() {
    match step("import") {
        Step::Fetch(requests) => assert!(requests.is_empty()),
        other => panic!("unexpected step {:?}", other),
    }
}

#[test]
fn respond_follows_the_command() {
    assert!(matches!(respond(Command::Terminate), Step::Finish));
    assert!(matches!(respond(Command::Capabilities), Step::Reply(_)));
    match respond(Command::Unrecognized("frobnicate".to_string())) {
        Step::Abort(error) => assert_eq!(error.message(), "unknown command from git"),
        other => panic!("unexpected step {:?}", other),
    }
    match respond(Command::Import(vec!["x".to_string()])) {
        Step::Fetch(requests) => assert_eq!(requests[0].query, "fast-export=x"),
        other => panic!("unexpected step {:?}", other),
    }
}

#[test]
fn request_endpoint_puts_the_query_to_the_base() {
    let base = Endpoint::parse("gemini://example.org/repo?old").unwrap();
    let request = Request { query: "fast-export=refs/heads/main".to_string(), report: true };
    assert_eq!(
        request.endpoint(&base).unwrap().as_str(),
        "gemini://example.org/repo?fast-export=refs/heads/main"
    );
}

#[test]
fn request_endpoint_fails_for_a_request_over_the_limit() {
    let base = Endpoint::parse("gemini://example.org/repo").unwrap();
    let request = Request { query: "r".repeat(MAX_REQUEST_BYTES), report: true };
    assert_eq!(request.endpoint(&base).unwrap_err(), FetchError::Resolve);
}

#[test]
fn deliver_passes_the_body_on() {
    let request = Request { query: "list".to_string(), report: false };
    let response = FramedResponse { header: Some(b"20 x".to_vec()), body: b"abc\r\ndef".to_vec() };
    let delivery = deliver(&request, Ok(response));
    assert_eq!(delivery.output, b"abc\r\ndef".to_vec());
    assert_eq!(delivery.note, None);
}

#[test]
fn deliver_notes_the_size_of_an_import() {
    let request = Request { query: "fast-export=a".to_string(), report: true };
    let response = FramedResponse { header: Some(Vec::new()), body: vec![7u8; 512] };
    let delivery = deliver(&request, Ok(response));
    assert_eq!(delivery.output, vec![7u8; 512]);
    assert_eq!(delivery.note, Some("remote: importing 512 bytes".to_string()));
}

#[test]
fn deliver_writes_nothing_for_a_failure() {
    for report in [false, true] {
        let request = Request { query: "list".to_string(), report };
        let delivery = deliver(&request, Err(FetchError::Connect));
        assert!(delivery.output.is_empty());
        assert_eq!(delivery.note, None);
    }
}

#[test]
fn empty_line_ends_the_session() {
    let mut session = Session::new();
    assert!(matches!(session.feed(""), Some(Step::Finish)));
    assert_eq!(session.status(), Status::Finished);
    assert!(session.feed("capabilities").is_none());
    assert!(session.feed("list").is_none());
    assert_eq!(session.status(), Status::Finished);
    let out = run("gemini://example.org/repo", &["", "capabilities"], &refused);
    assert!(out.stdout.is_empty());
    assert!(out.notes.is_empty());
    assert_eq!(out.error, None);
    assert_eq!(out.lines_read, 1);
}

#[test]
fn unknown_command_is_fatal() {
    let mut session = Session::new();
    match session.feed("frobnicate") {
        Some(Step::Abort(error)) => assert_eq!(error.message(), "unknown command from git"),
        other => panic!("unexpected step {:?}", other),
    }
    assert_eq!(session.status(), Status::Aborted);
    assert!(session.feed("capabilities").is_none());
    assert!(session.feed("").is_none());
    assert_eq!(session.status(), Status::Aborted);
    let out = run("gemini://example.org/repo", &["frobnicate", "capabilities", ""], &refused);
    assert_eq!(out.error, Some("unknown command from git".to_string()));
    assert!(out.stdout.is_empty());
    assert_eq!(out.lines_read, 1);
    assert_eq!(out.status, Status::Aborted);
}

#[test]
fn session_capabilities_then_list() {
    let server = |line: &str| -> Result<Vec<u8>, FetchError> {
        assert_eq!(line, "gemini://example.org/repo?list\r\n");
        Ok(b"20 text/gemini\r\nabc123 refs/heads/main\n".to_vec())
    };
    let out = run("gemini://example.org/repo", &["capabilities", "list", ""], &server);
    assert_eq!(out.stdout, b"import\n\nabc123 refs/heads/main\n".to_vec());
    assert!(out.notes.is_empty());
    assert_eq!(out.requested, vec!["gemini://example.org/repo?list\r\n"]);
    assert_eq!(out.error, None);
    assert_eq!(out.status, Status::Finished);
    assert_eq!(out.lines_read, 3);
}

#[test]
fn session_import_of_one_ref() {
    let mut stream = Vec::new();
    for i in 0..512usize {
        stream.push((i % 251) as u8);
    }
    let mut raw = b"20 application/octet-stream\r\n".to_vec();
    raw.extend_from_slice(&stream);
    let server = move |line: &str| -> Result<Vec<u8>, FetchError> {
        assert_eq!(line, "gemini://example.org/repo?fast-export=refs/heads/main\r\n");
        Ok(raw.clone())
    };
    let out = run("gemini://example.org/repo", &["import refs/heads/main", ""], &server);
    assert_eq!(out.stdout.len(), 512);
    assert_eq!(out.stdout, stream);
    assert_eq!(out.notes, vec!["remote: importing 512 bytes"]);
    assert_eq!(out.error, None);
    assert_eq!(out.status, Status::Finished);
}

#[test]
fn session_list_with_unreachable_endpoint() {
    let out = run("gemini://example.org/repo", &["list", "capabilities", ""], &refused);
    assert_eq!(out.requested, vec!["gemini://example.org/repo?list\r\n"]);
    assert_eq!(out.stdout, b"import\n\n".to_vec());
    assert!(out.notes.is_empty());
    assert_eq!(out.error, None);
    assert_eq!(out.lines_read, 3);
    assert_eq!(out.status, Status::Finished);
}

#[test]
fn session_import_of_two_refs_on_one_line() {
    let server = |line: &str| -> Result<Vec<u8>, FetchError> {
        if line == "gemini://example.org/repo?fast-export=a\r\n" {
            Ok(b"20 x\r\nAAAA".to_vec())
        } else if line == "gemini://example.org/repo?fast-export=b\r\n" {
            Ok(b"20 x\r\nBB".to_vec())
        } else {
            Err(FetchError::Connect)
        }
    };
    let out = run("gemini://example.org/repo", &["import a b", ""], &server);
    assert_eq!(
        out.requested,
        vec!["gemini://example.org/repo?fast-export=a\r\n", "gemini://example.org/repo?fast-export=b\r\n"]
    );
    assert_eq!(out.stdout, b"AAAABB".to_vec());
    assert_eq!(out.notes, vec!["remote: importing 4 bytes", "remote: importing 2 bytes"]);
    assert_eq!(out.status, Status::Finished);
}

#[test]
fn import_skips_a_ref_that_fails() {
    let server = |line: &str| -> Result<Vec<u8>, FetchError> {
        if line.contains("fast-export=bad") {
            Err(FetchError::Handshake)
        } else if line.contains("fast-export=unframed") {
            Ok(b"no delimiter".to_vec())
        } else {
            Ok(b"20 x\r\nok;".to_vec())
        }
    };
    let out = run("gemini://example.org/repo", &["import one bad unframed two", ""], &server);
    assert_eq!(out.requested.len(), 4);
    assert_eq!(out.stdout, b"ok;ok;".to_vec());
    assert_eq!(out.notes, vec!["remote: importing 3 bytes", "remote: importing 3 bytes"]);
    assert_eq!(out.error, None);
    assert_eq!(out.status, Status::Finished);
}

#[test]
fn one_import_line_after_another() {
    let server = |_: &str| -> Result<Vec<u8>, FetchError> { Ok(b"20 x\r\nZ".to_vec()) };
    let out = run(
        "gemini://example.org/repo",
        &["import refs/heads/a", "import refs/heads/b", ""],
        &server,
    );
    assert_eq!(
        out.requested,
        vec![
            "gemini://example.org/repo?fast-export=refs/heads/a\r\n",
            "gemini://example.org/repo?fast-export=refs/heads/b\r\n"
        ]
    );
    assert_eq!(out.stdout, b"ZZ".to_vec());
    assert_eq!(out.lines_read, 3);
}
