//! The HTTP probe handler: what one connection does next, and what it
//! answers.
//!
//! A connection reads a request line, takes the request path from it, reads
//! and drops header lines up to the empty line that ends them, answers
//! without a body, and waits for the next request. The answer is `200 OK` to
//! the liveness probe path and `204 No Content` to every other path.

use chrono::DateTime;
use chrono::Utc;
use vstd::prelude::*;

verus! {

broadcast use vstd::string::group_string_axioms;

/// The name that the `Server` header gives.
pub const SERVER_NAME: &'static str = "crashie";

/// The pattern of the `Date` header: weekday, day, month, year, time of day,
/// and the zone, which is always GMT.
pub const HTTP_DATE_FORMAT: &'static str = "%a, %d %b %Y %T GMT";

/// The path that a request line without a second token asks for.
pub const DEFAULT_PATH: &'static str = "/";

/// The first second, counted from the start of 1970, that has a date: the
/// start of the year -262143.
pub const HTTP_DATE_MIN_SECS: i64 = -8_334_601_228_800;

/// The last second, counted from the start of 1970, that has a date: the
/// end of the year 262142.
pub const HTTP_DATE_MAX_SECS: i64 = 8_210_266_876_799;

/// Whether `c` has the Unicode property White_Space: the space, the
/// controls from tab to carriage return, next line, the no-break space, the
/// ogham space mark, the spaces from en quad to hair space, the line and
/// paragraph separators, the narrow no-break space, the medium mathematical
/// space and the ideographic space.
pub open spec fn is_white_space(c: char) -> bool {
    let code = c as u32;
    ||| 0x09 <= code <= 0x0d
    ||| code == 0x20
    ||| code == 0x85
    ||| code == 0xa0
    ||| code == 0x1680
    ||| 0x2000 <= code <= 0x200a
    ||| code == 0x2028
    ||| code == 0x2029
    ||| code == 0x202f
    ||| code == 0x205f
    ||| code == 0x3000
}

/// Trusted: `char::is_whitespace`. The standard library documents it as
/// true exactly of the characters with the Unicode property White_Space,
/// which `is_white_space` lists.
#[verifier::external_body]
fn char_is_whitespace(c: char) -> (white: bool)
    ensures
        white == is_white_space(c),
{
    c.is_whitespace()
}

/// Whether the second `secs`, counted from the start of 1970, has a date.
pub open spec fn has_date(secs: int) -> bool {
    HTTP_DATE_MIN_SECS <= secs <= HTTP_DATE_MAX_SECS
}

/// The text of the date of the second `secs`, counted from the start of
/// 1970, in the pattern `HTTP_DATE_FORMAT`.
pub uninterp spec fn http_date_text(secs: int) -> Seq<char>;

/// Trusted: chrono's `DateTime::<Utc>::from_timestamp`, rendered by
/// `DateTime::format` with the pattern `fmt`. A second has a date exactly
/// when its year lies from -262143 to 262142, which `has_date` states in
/// seconds. The text depends on the second alone and goes by the name
/// `http_date_text`. An invalid pattern makes the rendering panic:
/// `requires` admits the one pattern that the library uses.
#[verifier::external_body]
fn format_http_date(secs: i64, fmt: &str) -> (date: Option<String>)
    requires
        fmt@ == HTTP_DATE_FORMAT@,
    ensures
        date is Some <==> has_date(secs as int),
        date is Some ==> date->Some_0@ == http_date_text(secs as int),
{
    match DateTime::<Utc>::from_timestamp(secs, 0) {
        Some(moment) => Some(moment.format(fmt).to_string()),
        None => None,
    }
}

/// The first position at or after `from` where `line` ends or holds a
/// character that is white space if `white` is false, and is none if `white`
/// is true: the end of the run of white space, or of other characters, that
/// starts at `from`.
pub open spec fn skip_run(line: Seq<char>, from: int, white: bool) -> int
    decreases line.len() - from,
{
    if 0 <= from < line.len() && is_white_space(line[from]) == white {
        skip_run(line, from + 1, white)
    } else {
        from
    }
}

/// The token of `line` with the given index, counted from 0 among the
/// tokens that start at or after `from`. Tokens are the longest runs of
/// characters that are not white space.
pub open spec fn token_at(line: Seq<char>, from: int, index: nat) -> Option<Seq<char>>
    decreases index,
{
    let start = skip_run(line, from, true);
    let end = skip_run(line, start, false);
    if !(0 <= start < line.len()) {
        None
    } else if index == 0 {
        Some(line.subrange(start, end))
    } else {
        token_at(line, end, (index - 1) as nat)
    }
}

/// The path that a request line asks for: its second token, or `/` where it
/// has none.
pub open spec fn request_path(line: Seq<char>) -> Seq<char> {
    match token_at(line, 0, 1) {
        Some(path) => path,
        None => DEFAULT_PATH@,
    }
}

/// Whether `line` is a line terminator and nothing else: CR LF, or LF.
pub open spec fn is_blank(line: Seq<char>) -> bool {
    line =~= seq!['\r', '\n'] || line =~= seq!['\n']
}

/// A run ends between its start and the end of the line, holds only
/// characters of its kind, and stops at a character of the other kind.
pub proof fn lemma_skip_run(line: Seq<char>, from: int, white: bool)
    requires
        0 <= from <= line.len(),
    ensures
        from <= skip_run(line, from, white) <= line.len(),
        forall|i: int|
            from <= i < skip_run(line, from, white) ==> is_white_space(#[trigger] line[i])
                == white,
        skip_run(line, from, white) < line.len() ==> is_white_space(
            line[skip_run(line, from, white)],
        ) != white,
    decreases line.len() - from,
{
    if from < line.len() && is_white_space(line[from]) == white {
        lemma_skip_run(line, from + 1, white);
    }
}

/// A token is never empty and holds no white space.
pub proof fn lemma_token_holds_no_white_space(line: Seq<char>, from: int, index: nat)
    requires
        0 <= from <= line.len(),
        token_at(line, from, index) is Some,
    ensures
        token_at(line, from, index)->Some_0.len() > 0,
        forall|i: int|
            0 <= i < token_at(line, from, index)->Some_0.len() ==> !is_white_space(
                #[trigger] token_at(line, from, index)->Some_0[i],
            ),
    decreases index,
{
    let start = skip_run(line, from, true);
    let end = skip_run(line, start, false);
    lemma_skip_run(line, from, true);
    lemma_skip_run(line, start, false);
    if index > 0 {
        lemma_token_holds_no_white_space(line, end, (index - 1) as nat);
    } else {
        assert(is_white_space(line[start]) != true);
        assert(skip_run(line, start, false) == skip_run(line, start + 1, false));
        lemma_skip_run(line, start + 1, false);
    }
}

/// The characters of `text`, one by one.
fn characters(text: &str) -> (chars: Vec<char>)
    ensures
        chars@ == text@,
{
    let mut chars: Vec<char> = Vec::new();
    for c in walk: text.chars()
        invariant
            walk.seq() == text@,
            chars@ =~= text@.take(walk.index()),
    {
        chars.push(c);
    }
    assert(text@.take(text@.len() as int) =~= text@);
    chars
}

/// The end of the run of white space, or of other characters, that starts
/// at `from`.
fn run_end(chars: &Vec<char>, from: usize, white: bool) -> (end: usize)
    requires
        from <= chars@.len(),
    ensures
        end == skip_run(chars@, from as int, white),
        from <= end <= chars@.len(),
{
    let mut end: usize = from;
    while end < chars.len() && char_is_whitespace(chars[end]) == white
        invariant
            from <= end <= chars@.len(),
            skip_run(chars@, from as int, white) == skip_run(chars@, end as int, white),
        decreases chars@.len() - end,
    {
        end += 1;
    }
    end
}

/// Tells whether `line` is a line terminator and nothing else.
pub fn is_blank_line(line: &str) -> (blank: bool)
    ensures
        blank == is_blank(line@),
{
    let chars = characters(line);
    if chars.len() == 1 {
        chars[0] == '\n'
    } else if chars.len() == 2 {
        chars[0] == '\r' && chars[1] == '\n'
    } else {
        false
    }
}

/// The token of `line` with the given index, counted from 0, where the line
/// has that many tokens.
pub fn token(line: &str, index: usize) -> (found: Option<String>)
    ensures
        found is Some <==> token_at(line@, 0, index as nat) is Some,
        found is Some ==> found->Some_0@ == token_at(line@, 0, index as nat)->Some_0,
{
    let chars = characters(line);
    let mut from: usize = 0;
    let mut left: usize = index;
    loop
        invariant
            chars@ == line@,
            from <= chars@.len(),
            left <= index,
            token_at(line@, 0, index as nat) == token_at(line@, from as int, left as nat),
        decreases left,
    {
        let start = run_end(&chars, from, true);
        if start >= chars.len() {
            return None;
        }
        let end = run_end(&chars, start, false);
        if left == 0 {
            return Some(line.substring_char(start, end).to_owned());
        }
        from = end;
        left -= 1;
    }
}

/// Takes the request path from a request line: the second token, or `/`.
pub fn extract_path(line: &str) -> (path: String)
    ensures
        path@ == request_path(line@),
{
    match token(line, 1) {
        Some(path) => path,
        None => DEFAULT_PATH.to_owned(),
    }
}

/// The status of an answer.
#[derive(Debug, Clone, Copy, PartialEq, Eq, Structural)]
pub enum Status {
    /// `200 OK`: the request asked for the liveness probe path.
    Success,
    /// `204 No Content`: the request asked for another path.
    NoContent,
}

/// Where a connection stands.
#[derive(Debug, Clone)]
pub enum HttpState {
    /// Waiting for a request line.
    AwaitRequestLine,
    /// Waiting for the end of the headers of a request for this path.
    AwaitHeaders(String),
    /// Finished: the handler has ended.
    Closed,
}

/// What a state holds, as plain values.
pub enum HttpStateView {
    /// Waiting for a request line.
    AwaitRequestLine,
    /// Waiting for the end of the headers of a request for this path.
    AwaitHeaders(Seq<char>),
    /// Finished: the handler has ended.
    Closed,
}

impl View for HttpState {
    type V = HttpStateView;

    open spec fn view(&self) -> HttpStateView {
        match self {
            HttpState::AwaitRequestLine => HttpStateView::AwaitRequestLine,
            HttpState::AwaitHeaders(path) => HttpStateView::AwaitHeaders(path@),
            HttpState::Closed => HttpStateView::Closed,
        }
    }
}

/// What happened on the connection.
#[derive(Debug, Clone, Copy)]
pub enum HttpEvent<'a> {
    /// A line was read, with its terminator where the stream had one.
    Line(&'a str),
    /// The stream ended, or a read failed.
    EndOfStream,
}

/// What an event holds, as plain values.
pub enum HttpEventView {
    /// A line was read.
    Line(Seq<char>),
    /// The stream ended, or a read failed.
    EndOfStream,
}

impl<'a> View for HttpEvent<'a> {
    type V = HttpEventView;

    open spec fn view(&self) -> HttpEventView {
        match self {
            HttpEvent::Line(line) => HttpEventView::Line(line@),
            HttpEvent::EndOfStream => HttpEventView::EndOfStream,
        }
    }
}

/// What the handler does next.
#[derive(Debug, Clone, Copy, PartialEq, Eq, Structural)]
pub enum HttpAction {
    /// Read the next line.
    ReadLine,
    /// Send an answer with this status, then read the next line.
    Respond(Status),
    /// End the handler.
    Close,
}

/// The status that a request for `path` is answered with.
pub open spec fn status_for(path: Seq<char>, probe_path: Seq<char>) -> Status {
    if path == probe_path {
        Status::Success
    } else {
        Status::NoContent
    }
}

/// The transition of a connection.
///
/// Where a request line is expected, a blank line is skipped and any other
/// line gives the request path. Where headers are expected, a blank line
/// ends them and brings the answer, and any other line is dropped. The end
/// of the stream ends the handler, which then stays ended.
pub open spec fn http_next(state: HttpStateView, event: HttpEventView, probe_path: Seq<char>) -> (
    HttpStateView,
    HttpAction,
) {
    match (state, event) {
        (HttpStateView::AwaitRequestLine, HttpEventView::Line(line)) => if is_blank(line) {
            (HttpStateView::AwaitRequestLine, HttpAction::ReadLine)
        } else {
            (HttpStateView::AwaitHeaders(request_path(line)), HttpAction::ReadLine)
        },
        (HttpStateView::AwaitHeaders(path), HttpEventView::Line(line)) => if is_blank(line) {
            (HttpStateView::AwaitRequestLine, HttpAction::Respond(status_for(path, probe_path)))
        } else {
            (HttpStateView::AwaitHeaders(path), HttpAction::ReadLine)
        },
        _ => (HttpStateView::Closed, HttpAction::Close),
    }
}

/// Tells the status that a request for `path` is answered with.
pub fn status_of(path: &str, probe_path: &str) -> (status: Status)
    ensures
        status == status_for(path@, probe_path@),
{
    let asked = path.to_owned();
    let probe = probe_path.to_owned();
    if asked == probe {
        Status::Success
    } else {
        Status::NoContent
    }
}

/// Decides what a connection in `state` does after `event`, where
/// `probe_path` is the liveness probe path.
pub fn http_step<'a>(state: HttpState, event: HttpEvent<'a>, probe_path: &str) -> (next: (
    HttpState,
    HttpAction,
))
    ensures
        (next.0@, next.1) == http_next(state@, event@, probe_path@),
{
    match event {
        HttpEvent::EndOfStream => (HttpState::Closed, HttpAction::Close),
        HttpEvent::Line(line) => match state {
            HttpState::AwaitRequestLine => {
                if is_blank_line(line) {
                    (HttpState::AwaitRequestLine, HttpAction::ReadLine)
                } else {
                    (HttpState::AwaitHeaders(extract_path(line)), HttpAction::ReadLine)
                }
            },
            HttpState::AwaitHeaders(path) => {
                if is_blank_line(line) {
                    let status = status_of(path.as_str(), probe_path);
                    (HttpState::AwaitRequestLine, HttpAction::Respond(status))
                } else {
                    (HttpState::AwaitHeaders(path), HttpAction::ReadLine)
                }
            },
            HttpState::Closed => (HttpState::Closed, HttpAction::Close),
        },
    }
}

/// The first line of an answer.
pub open spec fn status_line(status: Status) -> Seq<char> {
    match status {
        Status::Success => "HTTP/1.1 200 OK\r\n"@,
        Status::NoContent => "HTTP/1.1 204 No Content\r\n"@,
    }
}

/// The whole answer: the status line, the headers `Server`, `Date`,
/// `Content-Length` and `Cache-Control`, and the empty line. There is no
/// body.
pub open spec fn response_text(status: Status, version: Seq<char>, date: Seq<char>) -> Seq<char> {
    status_line(status) + "Server: "@ + SERVER_NAME@ + "/"@ + version + "\r\nDate: "@ + date
        + "\r\nContent-Length: 0\r\nCache-Control: no-cache, no-store\r\n\r\n"@
}

/// Writes the answer with the given status, for a server of the given
/// version, at the given date.
pub fn compose_response(status: Status, version: &str, date: &str) -> (response: String)
    ensures
        response@ == response_text(status, version@, date@),
{
    let mut response = match status {
        Status::Success => "HTTP/1.1 200 OK\r\n".to_owned(),
        Status::NoContent => "HTTP/1.1 204 No Content\r\n".to_owned(),
    };
    response.append("Server: ");
    response.append(SERVER_NAME);
    response.append("/");
    response.append(version);
    response.append("\r\nDate: ");
    response.append(date);
    response.append("\r\nContent-Length: 0\r\nCache-Control: no-cache, no-store\r\n\r\n");
    response
}

/// Writes the answer with the given status, for a server of the given
/// version, dated at the second `secs` counted from the start of 1970.
/// There is an answer exactly where that second has a date.
pub fn respond_at(status: Status, version: &str, secs: i64) -> (response: Option<String>)
    ensures
        response is Some <==> has_date(secs as int),
        response is Some ==> response->Some_0@ == response_text(
            status,
            version@,
            http_date_text(secs as int),
        ),
{
    match format_http_date(secs, HTTP_DATE_FORMAT) {
        Some(date) => Some(compose_response(status, version, date.as_str())),
        None => None,
    }
}

/// The state of a connection that started in `state` after `events`.
pub open spec fn http_state_after(
    state: HttpStateView,
    events: Seq<HttpEventView>,
    probe_path: Seq<char>,
) -> HttpStateView
    decreases events.len(),
{
    if events.len() == 0 {
        state
    } else {
        http_state_after(
            http_next(state, events[0], probe_path).0,
            events.drop_first(),
            probe_path,
        )
    }
}

/// The statuses of the answers that a connection that started in `state`
/// sends over `events`, in order.
pub open spec fn answers(
    state: HttpStateView,
    events: Seq<HttpEventView>,
    probe_path: Seq<char>,
) -> Seq<Status>
    decreases events.len(),
{
    if events.len() == 0 {
        Seq::empty()
    } else {
        let (next, action) = http_next(state, events[0], probe_path);
        let rest = answers(next, events.drop_first(), probe_path);
        match action {
            HttpAction::Respond(status) => seq![status] + rest,
            _ => rest,
        }
    }
}

/// The lines of the header block `headers`, then the blank line `end`.
pub open spec fn header_block(headers: Seq<Seq<char>>, end: Seq<char>) -> Seq<HttpEventView>
    decreases headers.len(),
{
    if headers.len() == 0 {
        seq![HttpEventView::Line(end)]
    } else {
        seq![HttpEventView::Line(headers[0])] + header_block(headers.drop_first(), end)
    }
}

/// Once the request line is read, the headers are dropped whatever they
/// hold, and the blank line that ends them brings exactly one answer, for
/// the path of the request line.
pub proof fn lemma_headers_end_in_one_answer(
    path: Seq<char>,
    headers: Seq<Seq<char>>,
    end: Seq<char>,
    probe_path: Seq<char>,
)
    requires
        is_blank(end),
        forall|i: int| 0 <= i < headers.len() ==> !is_blank(#[trigger] headers[i]),
    ensures
        answers(HttpStateView::AwaitHeaders(path), header_block(headers, end), probe_path)
            == seq![status_for(path, probe_path)],
        http_state_after(
            HttpStateView::AwaitHeaders(path),
            header_block(headers, end),
            probe_path,
        ) == HttpStateView::AwaitRequestLine,
    decreases headers.len(),
{
    let state = HttpStateView::AwaitHeaders(path);
    let events = header_block(headers, end);
    if headers.len() == 0 {
        assert(events.drop_first() =~= Seq::<HttpEventView>::empty());
        assert(answers(HttpStateView::AwaitRequestLine, events.drop_first(), probe_path)
            =~= Seq::<Status>::empty());
        assert(answers(state, events, probe_path) =~= seq![status_for(path, probe_path)]);
        assert(http_state_after(HttpStateView::AwaitRequestLine, events.drop_first(), probe_path)
            == HttpStateView::AwaitRequestLine);
    } else {
        lemma_headers_end_in_one_answer(path, headers.drop_first(), end, probe_path);
        assert(events.drop_first() =~= header_block(headers.drop_first(), end));
        assert(events[0] == HttpEventView::Line(headers[0]));
        assert(!is_blank(headers[0]));
    }
}

/// A request is answered once, with `200 OK` exactly when its path is the
/// liveness probe path and with `204 No Content` otherwise, and the
/// connection then waits for the next request.
pub proof fn lemma_request_is_answered_once(
    line: Seq<char>,
    headers: Seq<Seq<char>>,
    end: Seq<char>,
    probe_path: Seq<char>,
)
    requires
        !is_blank(line),
        is_blank(end),
        forall|i: int| 0 <= i < headers.len() ==> !is_blank(#[trigger] headers[i]),
    ensures
        answers(
            HttpStateView::AwaitRequestLine,
            seq![HttpEventView::Line(line)] + header_block(headers, end),
            probe_path,
        ) == seq![status_for(request_path(line), probe_path)],
        http_state_after(
            HttpStateView::AwaitRequestLine,
            seq![HttpEventView::Line(line)] + header_block(headers, end),
            probe_path,
        ) == HttpStateView::AwaitRequestLine,
{
    let events = seq![HttpEventView::Line(line)] + header_block(headers, end);
    lemma_headers_end_in_one_answer(request_path(line), headers, end, probe_path);
    assert(events.drop_first() =~= header_block(headers, end));
    assert(events[0] == HttpEventView::Line(line));
}

/// The end of the stream ends the handler in every state, and an ended
/// handler answers nothing more.
pub proof fn lemma_end_of_stream_ends_the_handler(
    state: HttpStateView,
    events: Seq<HttpEventView>,
    probe_path: Seq<char>,
)
    ensures
        http_next(state, HttpEventView::EndOfStream, probe_path) == (
            HttpStateView::Closed,
            HttpAction::Close,
        ),
        http_state_after(HttpStateView::Closed, events, probe_path) == HttpStateView::Closed,
        answers(HttpStateView::Closed, events, probe_path) == Seq::<Status>::empty(),
    decreases events.len(),
{
    if events.len() > 0 {
        lemma_end_of_stream_ends_the_handler(state, events.drop_first(), probe_path);
    }
}

} // verus!
