use crashie::http_echo::{
    compose_response, extract_path, http_step, is_blank_line, respond_at, status_of, token,
    HttpAction, HttpEvent, HttpState, Status, DEFAULT_PATH, HTTP_DATE_FORMAT, HTTP_DATE_MAX_SECS,
    HTTP_DATE_MIN_SECS, SERVER_NAME,
};

const PROBE: &str = "/health/live";

/// Feeds `lines` to a connection in `state`; returns the state at the end
/// and the statuses of the answers.
fn feed(mut state: HttpState, lines: &[&str]) -> (HttpState, Vec<Status>) {
    let mut answers: Vec<Status> = Vec::new();
    for line in lines {
        let (next, action) = http_step(state, HttpEvent::Line(line), PROBE);
        if let HttpAction::Respond(status) = action {
            answers.push(status);
        }
        state = next;
    }
    (state, answers)
}

#[test]
fn the_constants_of_the_answer() {
    assert_eq!(SERVER_NAME, "crashie");
    assert_eq!(DEFAULT_PATH, "/");
    assert_eq!(HTTP_DATE_FORMAT, "%a, %d %b %Y %T GMT");
}

#[test]
fn a_line_terminator_alone_is_blank() {
    assert!(is_blank_line("\r\n"));
    assert!(is_blank_line("\n"));
}

#[test]
fn other_lines_are_not_blank() {
    assert!(!is_blank_line(""));
    assert!(!is_blank_line("\r"));
    assert!(!is_blank_line(" \n"));
    assert!(!is_blank_line("\n\n"));
    assert!(!is_blank_line("\n\r"));
    assert!(!is_blank_line("\r\n\n"));
    assert!(!is_blank_line("Host: example\r\n"));
}

#[test]
fn the_path_is_the_second_token() {
    assert_eq!(extract_path("GET /health/live HTTP/1.1\r\n"), "/health/live");
    assert_eq!(extract_path("GET /other HTTP/1.1\r\n"), "/other");
    assert_eq!(extract_path("POST /a/b?c=d HTTP/1.0\n"), "/a/b?c=d");
}

#[test]
fn the_path_of_a_line_without_a_second_token_is_the_root() {
    assert_eq!(extract_path("GET\r\n"), "/");
    assert_eq!(extract_path("GET"), "/");
    assert_eq!(extract_path("   GET   \r\n"), "/");
    assert_eq!(extract_path(""), "/");
    assert_eq!(extract_path("   \t "), "/");
}

#[test]
fn any_white_space_parts_the_tokens() {
    assert_eq!(extract_path("GET\t/tab\tHTTP/1.1\r\n"), "/tab");
    assert_eq!(extract_path("  GET    /wide    HTTP/1.1"), "/wide");
    assert_eq!(extract_path("GET\u{a0}/nbsp\u{2003}HTTP/1.1"), "/nbsp");
    assert_eq!(extract_path("GET /last"), "/last");
    assert_eq!(extract_path("GET /last\r\n"), "/last");
    assert_eq!(extract_path("GET \u{e9}t\u{e9} HTTP/1.1"), "\u{e9}t\u{e9}");
}

#[test]
fn tokens_by_index() {
    let line = " GET /path  HTTP/1.1\r\n";
    assert_eq!(token(line, 0), Some(String::from("GET")));
    assert_eq!(token(line, 1), Some(String::from("/path")));
    assert_eq!(token(line, 2), Some(String::from("HTTP/1.1")));
    assert_eq!(token(line, 3), None);
    assert_eq!(token("", 0), None);
    assert_eq!(token(" \r\n", 0), None);
}

#[test]
fn tokens_are_those_of_split_whitespace() {
    for line in ["GET / HTTP/1.1\r\n", "a\tb\nc\u{3000}d  e", "  x", "x  ", "\u{85}y\u{2028}z"] {
        let expected: Vec<&str> = line.split_whitespace().collect();
        for index in 0..expected.len() {
            assert_eq!(token(line, index), Some(String::from(expected[index])));
        }
        assert_eq!(token(line, expected.len()), None);
    }
}

#[test]
fn the_probe_path_is_alive() {
    assert_eq!(status_of("/health/live", "/health/live"), Status::Success);
}

#[test]
fn another_path_has_no_content() {
    assert_eq!(status_of("/other", "/health/live"), Status::NoContent);
    assert_eq!(status_of("/health/live/", "/health/live"), Status::NoContent);
    assert_eq!(status_of("/HEALTH/LIVE", "/health/live"), Status::NoContent);
    assert_eq!(status_of("/", "/health/live"), Status::NoContent);
}

#[test]
fn a_probe_request_is_answered_with_200() {
    let (state, answers) =
        feed(HttpState::AwaitRequestLine, &["GET /health/live HTTP/1.1\r\n", "\r\n"]);
    assert_eq!(answers, vec![Status::Success]);
    assert!(matches!(state, HttpState::AwaitRequestLine));
}

#[test]
fn another_request_is_answered_with_204() {
    let (state, answers) = feed(HttpState::AwaitRequestLine, &["GET /other HTTP/1.1\r\n", "\r\n"]);
    assert_eq!(answers, vec![Status::NoContent]);
    assert!(matches!(state, HttpState::AwaitRequestLine));
}

#[test]
fn the_connection_takes_a_second_request() {
    let (state, answers) = feed(
        HttpState::AwaitRequestLine,
        &[
            "GET /health/live HTTP/1.1\r\n",
            "\r\n",
            "GET /other HTTP/1.1\r\n",
            "Host: localhost\r\n",
            "\r\n",
            "GET /health/live HTTP/1.1\n",
            "\n",
        ],
    );
    assert_eq!(answers, vec![Status::Success, Status::NoContent, Status::Success]);
    assert!(matches!(state, HttpState::AwaitRequestLine));
}

#[test]
fn blank_lines_before_a_request_are_skipped() {
    let (state, answers) = feed(
        HttpState::AwaitRequestLine,
        &["\r\n", "\n", "\r\n", "GET /health/live HTTP/1.1\r\n", "\r\n"],
    );
    assert_eq!(answers, vec![Status::Success]);
    assert!(matches!(state, HttpState::AwaitRequestLine));
}

#[test]
fn headers_are_dropped() {
    let (state, answers) = feed(
        HttpState::AwaitRequestLine,
        &[
            "GET /health/live HTTP/1.1\r\n",
            "Host: localhost\r\n",
            "Content-Length: 100\r\n",
            "GET /other HTTP/1.1\r\n",
            "\r\n",
        ],
    );
    assert_eq!(answers, vec![Status::Success]);
    assert!(matches!(state, HttpState::AwaitRequestLine));
}

#[test]
fn the_request_line_gives_the_path_to_wait_with() {
    let (next, action) =
        http_step(HttpState::AwaitRequestLine, HttpEvent::Line("GET /x HTTP/1.1\r\n"), PROBE);
    assert_eq!(action, HttpAction::ReadLine);
    match next {
        HttpState::AwaitHeaders(path) => assert_eq!(path, "/x"),
        _ => panic!("expected to wait for headers"),
    }
}

#[test]
fn a_request_line_without_a_path_asks_for_the_root() {
    let (state, answers) = feed(HttpState::AwaitRequestLine, &["GET\r\n", "\r\n"]);
    assert_eq!(answers, vec![Status::NoContent]);
    assert!(matches!(state, HttpState::AwaitRequestLine));
    let (next, action) = http_step(HttpState::AwaitRequestLine, HttpEvent::Line("GET\r\n"), "/");
    assert_eq!(action, HttpAction::ReadLine);
    let (_, action) = http_step(next, HttpEvent::Line("\r\n"), "/");
    assert_eq!(action, HttpAction::Respond(Status::Success));
}

#[test]
fn the_end_of_the_stream_ends_the_handler() {
    let (next, action) = http_step(HttpState::AwaitRequestLine, HttpEvent::EndOfStream, PROBE);
    assert_eq!(action, HttpAction::Close);
    assert!(matches!(next, HttpState::Closed));
    let waiting = HttpState::AwaitHeaders(String::from("/health/live"));
    let (next, action) = http_step(waiting, HttpEvent::EndOfStream, PROBE);
    assert_eq!(action, HttpAction::Close);
    assert!(matches!(next, HttpState::Closed));
}

#[test]
fn an_ended_handler_stays_ended() {
    let (next, action) = http_step(HttpState::Closed, HttpEvent::Line("\r\n"), PROBE);
    assert_eq!(action, HttpAction::Close);
    assert!(matches!(next, HttpState::Closed));
    let (next, action) = http_step(HttpState::Closed, HttpEvent::EndOfStream, PROBE);
    assert_eq!(action, HttpAction::Close);
    assert!(matches!(next, HttpState::Closed));
}

#[test]
fn the_answer_to_the_probe() {
    assert_eq!(
        compose_response(Status::Success, "1.2.3", "Wed, 28 Oct 2026 12:00:00 GMT"),
        "HTTP/1.1 200 OK\r\nServer: crashie/1.2.3\r\nDate: Wed, 28 Oct 2026 12:00:00 GMT\r\nContent-Length: 0\r\nCache-Control: no-cache, no-store\r\n\r\n"
    );
}

#[test]
fn the_answer_to_another_path() {
    assert_eq!(
        compose_response(Status::NoContent, "0.1.0", "Thu, 01 Jan 1970 00:00:00 GMT"),
        "HTTP/1.1 204 No Content\r\nServer: crashie/0.1.0\r\nDate: Thu, 01 Jan 1970 00:00:00 GMT\r\nContent-Length: 0\r\nCache-Control: no-cache, no-store\r\n\r\n"
    );
}

#[test]
fn the_answer_is_dated_at_the_second_given() {
    assert_eq!(
        respond_at(Status::Success, "9.9.9", 1_793_188_800),
        Some(String::from(
            "HTTP/1.1 200 OK\r\nServer: crashie/9.9.9\r\nDate: Wed, 28 Oct 2026 12:00:00 GMT\r\nContent-Length: 0\r\nCache-Control: no-cache, no-store\r\n\r\n"
        ))
    );
    assert_eq!(
        respond_at(Status::NoContent, "0.0.1", 0),
        Some(String::from(
            "HTTP/1.1 204 No Content\r\nServer: crashie/0.0.1\r\nDate: Thu, 01 Jan 1970 00:00:00 GMT\r\nContent-Length: 0\r\nCache-Control: no-cache, no-store\r\n\r\n"
        ))
    );
}

#[test]
fn the_date_of_a_second_before_1970() {
    let response = respond_at(Status::Success, "1", -1).unwrap();
    assert!(response.contains("\r\nDate: Wed, 31 Dec 1969 23:59:59 GMT\r\n"));
}

#[test]
fn the_date_of_a_leap_day() {
    let response = respond_at(Status::Success, "1", 951_868_799).unwrap();
    assert!(response.contains("\r\nDate: Tue, 29 Feb 2000 23:59:59 GMT\r\n"));
    let response = respond_at(Status::Success, "1", 1_431_648_000).unwrap();
    assert!(response.contains("\r\nDate: Fri, 15 May 2015 00:00:00 GMT\r\n"));
}

#[test]
fn the_date_is_that_of_the_clock_handed_in() {
    let now = chrono::Utc::now();
    let response = respond_at(Status::Success, "1", now.timestamp()).unwrap();
    let expected = format!("\r\nDate: {}\r\n", now.format("%a, %d %b %Y %H:%M:%S GMT"));
    assert!(response.contains(&expected));
    assert!(!response.contains('%'));
}

#[test]
fn the_first_and_the_last_second_with_a_date() {
    assert_eq!(HTTP_DATE_MIN_SECS, chrono::DateTime::<chrono::Utc>::MIN_UTC.timestamp());
    assert_eq!(HTTP_DATE_MAX_SECS, chrono::DateTime::<chrono::Utc>::MAX_UTC.timestamp());
    let first = respond_at(Status::Success, "1", HTTP_DATE_MIN_SECS).unwrap();
    assert!(first.contains("\r\nDate: Thu, 01 Jan -262143 00:00:00 GMT\r\n"));
    let last = respond_at(Status::Success, "1", HTTP_DATE_MAX_SECS).unwrap();
    assert!(last.contains("\r\nDate: Mon, 31 Dec +262142 23:59:59 GMT\r\n"));
}

#[test]
fn a_second_without_a_date_has_no_answer() {
    assert_eq!(respond_at(Status::Success, "1", HTTP_DATE_MIN_SECS - 1), None);
    assert_eq!(respond_at(Status::Success, "1", HTTP_DATE_MAX_SECS + 1), None);
    assert_eq!(respond_at(Status::NoContent, "1", i64::MIN), None);
    assert_eq!(respond_at(Status::NoContent, "1", i64::MAX), None);
}

fn listed_as_white_space(c: char) -> bool {
    matches!(
        c as u32,
        0x09..=0x0d
            | 0x20
            | 0x85
            | 0xa0
            | 0x1680
            | 0x2000..=0x200a
            | 0x2028
            | 0x2029
            | 0x202f
            | 0x205f
            | 0x3000
    )
}

#[test]
fn the_white_space_listed_is_that_of_the_standard_library() {
    let mut white: u32 = 0;
    for code in 0u32..=0x10ffff {
        if let Some(c) = char::from_u32(code) {
            assert_eq!(c.is_whitespace(), listed_as_white_space(c));
            if c.is_whitespace() {
                white += 1;
            }
        }
    }
    assert_eq!(white, 25);
}

#[test]
fn every_white_space_character_parts_tokens() {
    for code in 0u32..=0x3100 {
        if let Some(c) = char::from_u32(code) {
            let line = format!("a{c}b");
            if listed_as_white_space(c) {
                assert_eq!(token(&line, 0), Some(String::from("a")));
                assert_eq!(token(&line, 1), Some(String::from("b")));
            } else {
                assert_eq!(token(&line, 0), Some(line.clone()));
                assert_eq!(token(&line, 1), None);
            }
        }
    }
}

#[test]
fn no_other_character_parts_tokens() {
    let mut line = String::new();
    for code in 0u32..=0x10ffff {
        if let Some(c) = char::from_u32(code) {
            line.clear();
            line.push('a');
            line.push(c);
            line.push('b');
            assert_eq!(token(&line, 1).is_some(), listed_as_white_space(c));
        }
    }
}
