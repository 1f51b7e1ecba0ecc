//! The HTTP side of the server: reading requests, routing them and writing answers.

use crate::ids::SessionId;
use crate::json;
use crate::json::{parse_json_bytes, Json, JsonView};
use crate::mcp;
use crate::mcp::{session_updated, McpServer, McpStep};
use crate::scan;
use crate::text;
use crate::text::{bytes_of, cat2, cat3, decimal_text, same};
use vstd::prelude::*;

verus! {

/// The largest request body that is read: 16 MiB.
pub const MAX_REQUEST_BYTES: usize = 16777216;

/// What keeps an event stream open while there is nothing to report.
pub const SSE_KEEPALIVE: &'static str = ": keepalive\n\n";

/// The head of the answer that opens an event stream.
pub const SSE_HEAD: &'static str =
    "HTTP/1.1 200 OK\r\nContent-Type: text/event-stream; charset=utf-8\r\nCache-Control: no-cache\r\nConnection: keep-alive\r\n\r\n";

/// A header field.
#[derive(Debug)]
pub struct Header {
    pub name: String,
    pub value: String,
}

/// The header fields of a request. Of two fields with one name the later one counts.
#[derive(Debug)]
pub struct Headers {
    pub fields: Vec<Header>,
}

/// The header fields by name.
pub open spec fn header_map(fields: Seq<Header>) -> Map<Seq<char>, Seq<char>>
    decreases fields.len(),
{
    if fields.len() == 0 {
        Map::empty()
    } else {
        header_map(fields.drop_last()).insert(fields.last().name@, fields.last().value@)
    }
}

impl View for Headers {
    type V = Map<Seq<char>, Seq<char>>;

    open spec fn view(&self) -> Map<Seq<char>, Seq<char>> {
        header_map(self.fields@)
    }
}

/// What a map holds under a name.
pub open spec fn header_at(headers: Map<Seq<char>, Seq<char>>, name: Seq<char>) -> Option<
    Seq<char>,
> {
    if headers.contains_key(name) {
        Some(headers[name])
    } else {
        None
    }
}

/// The view of an optional text.
pub open spec fn text_opt(o: Option<&String>) -> Option<Seq<char>> {
    match o {
        Some(s) => Some(s@),
        None => None,
    }
}

impl Headers {
    /// No header fields.
    pub fn new() -> (r: Headers)
        ensures
            r@ == Map::<Seq<char>, Seq<char>>::empty(),
    {
        Headers { fields: Vec::new() }
    }

    /// Sets a field.
    pub fn insert(&mut self, name: String, value: String)
        ensures
            final(self)@ == old(self)@.insert(name@, value@),
    {
        self.fields.push(Header { name, value });
        assert(self.fields@.drop_last() =~= old(self).fields@);
    }

    /// The value of a field.
    pub fn get(&self, name: &str) -> (r: Option<&String>)
        ensures
            text_opt(r) == header_at(self@, name@),
    {
        let mut i: usize = self.fields.len();
        assert(self.fields@.take(i as int) =~= self.fields@);
        while i > 0
            invariant
                i <= self.fields@.len(),
                header_at(self@, name@) == header_at(
                    header_map(self.fields@.take(i as int)),
                    name@,
                ),
            decreases i,
        {
            let ghost rest = self.fields@.take(i as int);
            assert(rest.drop_last() =~= self.fields@.take(i as int - 1));
            assert(rest.last() == self.fields@[i as int - 1]);
            i -= 1;
            if same(self.fields[i].name.as_str(), name) {
                return Some(&self.fields[i].value);
            }
        }
        assert(self.fields@.take(0).len() == 0);
        None
    }
}

/// A request.
#[derive(Debug)]
pub struct HttpRequest {
    pub method: String,
    pub path: String,
    pub headers: Headers,
    pub body: Vec<u8>,
}

/// The mathematical form of a request.
#[verifier::ext_equal]
pub struct RequestView {
    pub method: Seq<char>,
    pub path: Seq<char>,
    pub headers: Map<Seq<char>, Seq<char>>,
    pub body: Seq<u8>,
}

impl View for HttpRequest {
    type V = RequestView;

    open spec fn view(&self) -> RequestView {
        RequestView {
            method: self.method@,
            path: self.path@,
            headers: self.headers@,
            body: self.body@,
        }
    }
}

/// An answer.
#[derive(Debug)]
pub struct HttpResponse {
    pub status: u16,
    pub content_type: Option<String>,
    pub headers: Vec<Header>,
    pub body: Vec<u8>,
}

/// The mathematical form of an answer.
#[verifier::ext_equal]
pub struct ResponseView {
    pub status: u16,
    pub content_type: Option<Seq<char>>,
    pub headers: Seq<(Seq<char>, Seq<char>)>,
    pub body: Seq<u8>,
}

/// The header fields of an answer, in order.
pub open spec fn pairs(fields: Seq<Header>) -> Seq<(Seq<char>, Seq<char>)> {
    fields.map_values(|h: Header| (h.name@, h.value@))
}

impl View for HttpResponse {
    type V = ResponseView;

    open spec fn view(&self) -> ResponseView {
        ResponseView {
            status: self.status,
            content_type: text::view_opt(self.content_type),
            headers: pairs(self.headers@),
            body: self.body@,
        }
    }
}

/// An answer that holds a JSON value.
pub open spec fn json_response(status: u16, value: JsonView) -> ResponseView {
    ResponseView {
        status,
        content_type: Some("application/json"@),
        headers: Seq::empty(),
        body: vstd::utf8::encode_utf8(json::compact_text(value)),
    }
}

/// An answer without a body.
pub open spec fn empty_response(status: u16) -> ResponseView {
    ResponseView { status, content_type: None, headers: Seq::empty(), body: Seq::empty() }
}

/// An answer that reports an error.
pub open spec fn failure_response(status: u16, message: Seq<char>) -> ResponseView {
    json_response(status, JsonView::object().with_text("error"@, message))
}

impl HttpResponse {
    /// An answer that holds a JSON value.
    pub fn json(status: u16, value: &Json) -> (r: HttpResponse)
        ensures
            r@ == json_response(status, value@),
    {
        let text = value.to_compact();
        let r = HttpResponse {
            status,
            content_type: Some("application/json".to_owned()),
            headers: Vec::new(),
            body: bytes_of(text.as_str()),
        };
        assert(r@ =~= json_response(status, value@));
        r
    }

    /// An answer without a body.
    pub fn empty(status: u16) -> (r: HttpResponse)
        ensures
            r@ == empty_response(status),
    {
        let r = HttpResponse {
            status,
            content_type: None,
            headers: Vec::new(),
            body: Vec::new(),
        };
        assert(r@ =~= empty_response(status));
        r
    }

    /// An answer that reports an error.
    pub fn failure(status: u16, message: &str) -> (r: HttpResponse)
        ensures
            r@ == failure_response(status, message@),
    {
        HttpResponse::json(status, &Json::object().with_text("error", message))
    }
}

/// The text that stands for a status.
pub open spec fn reason(status: u16) -> Seq<char> {
    if status == 200 {
        "OK"@
    } else if status == 202 {
        "Accepted"@
    } else if status == 400 {
        "Bad Request"@
    } else if status == 403 {
        "Forbidden"@
    } else if status == 404 {
        "Not Found"@
    } else if status == 405 {
        "Method Not Allowed"@
    } else if status == 413 {
        "Payload Too Large"@
    } else if status == 415 {
        "Unsupported Media Type"@
    } else {
        "Internal Server Error"@
    }
}

/// The text that stands for a status.
pub fn reason_phrase(status: u16) -> (r: &'static str)
    ensures
        r@ == reason(status),
{
    match status {
        200 => "OK",
        202 => "Accepted",
        400 => "Bad Request",
        403 => "Forbidden",
        404 => "Not Found",
        405 => "Method Not Allowed",
        413 => "Payload Too Large",
        415 => "Unsupported Media Type",
        _ => "Internal Server Error",
    }
}

/// The lines of the header fields of an answer.
pub open spec fn header_lines(headers: Seq<(Seq<char>, Seq<char>)>) -> Seq<char>
    decreases headers.len(),
{
    if headers.len() == 0 {
        Seq::empty()
    } else {
        header_lines(headers.drop_last()) + (headers.last().0 + ": "@ + headers.last().1 + "\r\n"@)
    }
}

/// What is sent in front of the body of an answer.
pub open spec fn response_head(r: ResponseView) -> Seq<char> {
    "HTTP/1.1 "@ + text::decimal(r.status as nat) + " "@ + reason(r.status)
        + "\r\nContent-Length: "@ + text::decimal(r.body.len()) + "\r\nConnection: close\r\n"@ + (
    match r.content_type {
        Some(t) => "Content-Type: "@ + t + "; charset=utf-8\r\n"@,
        None => Seq::empty(),
    }) + header_lines(r.headers) + "\r\n"@
}

/// What is sent in front of the body of an answer.
pub fn write_response_head(response: &HttpResponse) -> (r: String)
    ensures
        r@ == response_head(response@),
{
    let mut out = cat2("HTTP/1.1 ", decimal_text(response.status as u64).as_str());
    out.append(" ");
    out.append(reason_phrase(response.status));
    out.append("\r\nContent-Length: ");
    out.append(decimal_text(response.body.len() as u64).as_str());
    out.append("\r\nConnection: close\r\n");
    match &response.content_type {
        Some(content_type) => {
            out.append(
                cat3("Content-Type: ", content_type.as_str(), "; charset=utf-8\r\n").as_str(),
            );
        },
        None => {
            assert(out@ + Seq::<char>::empty() =~= out@);
        },
    }
    let ghost head = out@;
    let ghost all = pairs(response.headers@);
    let mut i: usize = 0;
    assert(header_lines(all.take(0)) =~= Seq::<char>::empty());
    assert(head + header_lines(all.take(0)) =~= head);
    while i < response.headers.len()
        invariant
            i <= response.headers@.len(),
            all == pairs(response.headers@),
            out@ == head + header_lines(all.take(i as int)),
        decreases response.headers@.len() - i,
    {
        let header = &response.headers[i];
        assert(all.take(i + 1).drop_last() =~= all.take(i as int));
        assert(all.take(i + 1).last() == (header.name@, header.value@));
        let mut line = cat3(header.name.as_str(), ": ", header.value.as_str());
        line.append("\r\n");
        let ghost before = out@;
        out.append(line.as_str());
        assert(out@ =~= head + (header_lines(all.take(i as int)) + line@));
        i += 1;
    }
    assert(all.take(i as int) =~= all);
    out.append("\r\n");
    out
}

/// Whether a content type is that of JSON.
pub open spec fn json_type(value: Option<Seq<char>>) -> bool {
    match value {
        Some(v) => scan::lower_all(scan::trim(scan::before(v, ';'))) == "application/json"@,
        None => false,
    }
}

/// Whether a content type is that of JSON: only the part in front of the parameters counts.
pub fn content_type_is_json(value: Option<&String>) -> (r: bool)
    ensures
        r == json_type(text_opt(value)),
{
    match value {
        Some(value) => {
            let head = scan::before_char(value.as_str(), ';');
            let kind = scan::lower_text(scan::trim_text(head.as_str()).as_str());
            same(kind.as_str(), "application/json")
        },
        None => false,
    }
}

/// Whether an address in lower case is that of a host: the host alone or with a port.
pub open spec fn names_host(origin: Seq<char>, host: Seq<char>) -> bool {
    origin == host || scan::starts(origin, host + ":"@)
}

/// Whether an address in lower case is one of this machine.
pub open spec fn local_origin(origin: Seq<char>) -> bool {
    ||| names_host(origin, "http://localhost"@)
    ||| names_host(origin, "https://localhost"@)
    ||| names_host(origin, "http://127.0.0.1"@)
    ||| names_host(origin, "https://127.0.0.1"@)
    ||| names_host(origin, "http://[::1]"@)
    ||| names_host(origin, "https://[::1]"@)
}

/// Whether requests from an origin are served: none is named, or it is this machine.
pub open spec fn allowed_origin(value: Option<Seq<char>>) -> bool {
    match value {
        Some(v) => scan::trim(v).len() == 0 || local_origin(scan::lower_all(scan::trim(v))),
        None => true,
    }
}

fn origin_names_host(origin: &str, host: &str) -> (r: bool)
    ensures
        r == names_host(origin@, host@),
{
    same(origin, host) || scan::starts_with(origin, cat2(host, ":").as_str())
}

/// Whether requests from an origin are served.
pub fn origin_is_allowed(value: Option<&String>) -> (r: bool)
    ensures
        r == allowed_origin(text_opt(value)),
{
    let trimmed = match value {
        Some(value) => scan::trim_text(value.as_str()),
        None => {
            return true;
        },
    };
    if trimmed.as_str().is_empty() {
        return true;
    }
    let lower = scan::lower_text(trimmed.as_str());
    let origin = lower.as_str();
    origin_names_host(origin, "http://localhost") || origin_names_host(origin, "https://localhost")
        || origin_names_host(origin, "http://127.0.0.1") || origin_names_host(
        origin,
        "https://127.0.0.1",
    ) || origin_names_host(origin, "http://[::1]") || origin_names_host(origin, "https://[::1]")
}

/// A request line.
#[derive(Debug)]
pub struct RequestLine {
    pub method: String,
    pub path: String,
}

/// What the first line of a request says, or what is wrong with it.
pub open spec fn request_line(line: Seq<char>) -> Result<(Seq<char>, Seq<char>), Seq<char>> {
    let words = scan::words(line);
    if scan::trim(line).len() == 0 {
        Err("empty request"@)
    } else if words.len() < 1 {
        Err("missing HTTP method"@)
    } else if words.len() < 2 {
        Err("missing HTTP path"@)
    } else if words.len() < 3 {
        Err("missing HTTP version"@)
    } else if !scan::starts(words[2], "HTTP/1."@) {
        Err("unsupported HTTP version"@)
    } else {
        Ok((words[0], words[1]))
    }
}

/// Reads the first line of a request.
pub fn read_request_line(line: &str) -> (r: Result<RequestLine, String>)
    ensures
        match r {
            Ok(l) => request_line(line@) == Ok::<(Seq<char>, Seq<char>), Seq<char>>(
                (l.method@, l.path@),
            ),
            Err(e) => request_line(line@) == Err::<(Seq<char>, Seq<char>), Seq<char>>(e@),
        },
{
    if scan::is_blank(line) {
        return Err("empty request".to_owned());
    }
    let words = scan::words_of(line);
    let ghost all = scan::words(line@);
    assert(all.len() == words@.len());
    assert(forall|i: int| 0 <= i < words@.len() ==> all[i] == (#[trigger] words@[i])@);
    if words.len() < 1 {
        return Err("missing HTTP method".to_owned());
    }
    if words.len() < 2 {
        return Err("missing HTTP path".to_owned());
    }
    if words.len() < 3 {
        return Err("missing HTTP version".to_owned());
    }
    if !scan::starts_with(words[2].as_str(), "HTTP/1.") {
        return Err("unsupported HTTP version".to_owned());
    }
    Ok(RequestLine { method: words[0].clone(), path: words[1].clone() })
}

/// What a line of the head after the first one says: nothing, which ends the head, or a
/// header field; or that it is wrong.
pub enum LineView {
    End,
    Field(Seq<char>, Seq<char>),
    Wrong,
}

/// What a line of the head after the first one says. The name of a field is in lower case.
pub open spec fn header_line(line: Seq<char>) -> LineView {
    let rest = scan::without_line_end(line);
    if rest.len() == 0 {
        LineView::End
    } else {
        match scan::split_at_first(rest, ':') {
            None => LineView::Wrong,
            Some((name, value)) => LineView::Field(
                scan::lower_all(scan::trim(name)),
                scan::trim(value),
            ),
        }
    }
}

/// The length of the body that the header fields announce, or what is wrong with it.
pub open spec fn announced_length(headers: Map<Seq<char>, Seq<char>>) -> Result<nat, Seq<char>> {
    match header_at(headers, "content-length"@) {
        None => Ok(0),
        Some(v) => match scan::parse_number(v, 10, usize::MAX as nat) {
            None => Err("invalid content length"@),
            Some(n) => if n > MAX_REQUEST_BYTES {
                Err("request body too large"@)
            } else {
                Ok(n)
            },
        },
    }
}

/// The length of the body that the header fields announce.
pub fn content_length(headers: &Headers) -> (r: Result<usize, String>)
    ensures
        match r {
            Ok(n) => announced_length(headers@) == Ok::<nat, Seq<char>>(n as nat),
            Err(e) => announced_length(headers@) == Err::<nat, Seq<char>>(e@),
        },
{
    match headers.get("content-length") {
        None => Ok(0),
        Some(value) => match scan::parse_text(value.as_str(), 10, usize::MAX as u64) {
            None => Err("invalid content length".to_owned()),
            Some(n) => if n > MAX_REQUEST_BYTES as u64 {
                Err("request body too large".to_owned())
            } else {
                Ok(n as usize)
            },
        },
    }
}

/// A request whose head is being read.
#[derive(Debug)]
pub struct RequestHead {
    pub method: String,
    pub path: String,
    pub headers: Headers,
}

/// What is needed next to read a request.
#[derive(Debug)]
pub enum ReadStep {
    /// One more line of the head.
    Line(RequestHead),
    /// A body of this length.
    Body(RequestHead, usize),
    /// Nothing: the request is wrong.
    Failed(String),
}

/// The mathematical form of a step.
pub enum ReadView {
    Line { method: Seq<char>, path: Seq<char>, headers: Map<Seq<char>, Seq<char>> },
    Body { method: Seq<char>, path: Seq<char>, headers: Map<Seq<char>, Seq<char>>, length: nat },
    Failed(Seq<char>),
}

impl View for ReadStep {
    type V = ReadView;

    open spec fn view(&self) -> ReadView {
        match *self {
            ReadStep::Line(h) => ReadView::Line {
                method: h.method@,
                path: h.path@,
                headers: h.headers@,
            },
            ReadStep::Body(h, n) => ReadView::Body {
                method: h.method@,
                path: h.path@,
                headers: h.headers@,
                length: n as nat,
            },
            ReadStep::Failed(e) => ReadView::Failed(e@),
        }
    }
}

/// What is needed after the first line.
pub open spec fn first_line(line: Seq<char>) -> ReadView {
    match request_line(line) {
        Ok((method, path)) => ReadView::Line { method, path, headers: Map::empty() },
        Err(e) => ReadView::Failed(e),
    }
}

/// What is needed after one more line; a step that wants no line stays as it is.
pub open spec fn next_line(step: ReadView, line: Seq<char>) -> ReadView {
    match step {
        ReadView::Line { method, path, headers } => match header_line(line) {
            LineView::Wrong => ReadView::Failed("invalid HTTP header"@),
            LineView::Field(name, value) => ReadView::Line {
                method,
                path,
                headers: headers.insert(name, value),
            },
            LineView::End => match announced_length(headers) {
                Ok(length) => ReadView::Body { method, path, headers, length },
                Err(e) => ReadView::Failed(e),
            },
        },
        _ => step,
    }
}

/// Takes the first line of a request in.
pub fn begin_request(line: &str) -> (r: ReadStep)
    ensures
        r@ == first_line(line@),
{
    match read_request_line(line) {
        Ok(first) => ReadStep::Line(
            RequestHead { method: first.method, path: first.path, headers: Headers::new() },
        ),
        Err(error) => ReadStep::Failed(error),
    }
}

/// Takes one more line of a request in.
pub fn continue_request(step: ReadStep, line: &str) -> (r: ReadStep)
    ensures
        r@ == next_line(step@, line@),
{
    match step {
        ReadStep::Line(head) => {
            let mut head = head;
            let rest = scan::cut_line_end(line);
            if rest.as_str().is_empty() {
                return match content_length(&head.headers) {
                    Ok(length) => ReadStep::Body(head, length),
                    Err(error) => ReadStep::Failed(error),
                };
            }
            match scan::split_once_at(rest.as_str(), ':') {
                None => ReadStep::Failed("invalid HTTP header".to_owned()),
                Some((name, value)) => {
                    let name = scan::lower_text(scan::trim_text(name.as_str()).as_str());
                    let value = scan::trim_text(value.as_str());
                    head.headers.insert(name, value);
                    ReadStep::Line(head)
                },
            }
        },
        other => other,
    }
}

/// Puts a request together.
pub fn finish_request(head: RequestHead, body: Vec<u8>) -> (r: HttpRequest)
    ensures
        r@ == (RequestView {
            method: head.method@,
            path: head.path@,
            headers: head.headers@,
            body: body@,
        }),
{
    HttpRequest { method: head.method, path: head.path, headers: head.headers, body }
}

/// What is needed after a list of lines.
pub open spec fn after_lines(lines: Seq<Seq<char>>) -> ReadView
    decreases lines.len(),
{
    if lines.len() <= 1 {
        first_line(lines[0])
    } else {
        next_line(after_lines(lines.drop_last()), lines.last())
    }
}

/// Whatever lines a client sends, a body is only ever read up to the limit.
pub proof fn body_is_limited(lines: Seq<Seq<char>>)
    requires
        lines.len() > 0,
    ensures
        after_lines(lines) matches ReadView::Body { length, .. } ==> length <= MAX_REQUEST_BYTES,
    decreases lines.len(),
{
    if lines.len() > 1 {
        body_is_limited(lines.drop_last());
    }
}

/// Whether a message is a notification.
pub fn is_jsonrpc_notification(message: &Json) -> (r: bool)
    ensures
        r == notification(message@),
{
    message.get("method").is_some() && message.get("id").is_none()
}

/// Whether a message is a notification: it names a method and has no id.
pub open spec fn notification(message: JsonView) -> bool {
    message.get("method"@) is Some && message.get("id"@) is None
}

/// Whether a message is an answer.
pub fn is_jsonrpc_response(message: &Json) -> (r: bool)
    ensures
        r == answer(message@),
{
    message.get("method").is_none() && message.get("id").is_some() && (message.get(
        "result",
    ).is_some() || message.get("error").is_some())
}

/// Whether a message is an answer: it has an id and a result or an error, and no method.
pub open spec fn answer(message: JsonView) -> bool {
    message.get("method"@) is None && message.get("id"@) is Some && (message.get("result"@) is Some
        || message.get("error"@) is Some)
}

/// What a request leads to.
#[derive(Debug)]
pub enum HttpStep {
    /// An answer.
    Respond(HttpResponse),
    /// Work for the protocol; its outcome is then the answer.
    Work(McpStep),
    /// An event stream, which is opened with this head.
    Stream(String),
}

/// The mathematical form of a step.
pub enum HttpStepView {
    Respond(ResponseView),
    Work(mcp::StepView),
    Stream(Seq<char>),
}

impl View for HttpStep {
    type V = HttpStepView;

    open spec fn view(&self) -> HttpStepView {
        match *self {
            HttpStep::Respond(r) => HttpStepView::Respond(r@),
            HttpStep::Work(s) => HttpStepView::Work(s@),
            HttpStep::Stream(s) => HttpStepView::Stream(s@),
        }
    }
}

/// The answer for a client when the protocol has its own.
pub open spec fn answered(reply: Option<JsonView>) -> ResponseView {
    match reply {
        Some(value) => json_response(200, value),
        None => empty_response(202),
    }
}

/// The answer for a client when the protocol has its own.
pub fn message_answered(reply: Option<Json>) -> (r: HttpResponse)
    ensures
        r@ == answered(mcp::json_opt(reply)),
{
    match reply {
        Some(value) => HttpResponse::json(200, &value),
        None => HttpResponse::empty(202),
    }
}

/// What a message leads to.
pub open spec fn message_leads_to(message: JsonView, server_version: Seq<char>) -> HttpStepView {
    if answer(message) || notification(message) {
        HttpStepView::Respond(empty_response(202))
    } else {
        match mcp::message_step(message, server_version) {
            mcp::StepView::Reply(reply) => HttpStepView::Respond(answered(reply)),
            step => HttpStepView::Work(step),
        }
    }
}

/// What a posted body that was read as JSON leads to.
pub fn message_posted(server: &McpServer, parsed: Result<Json, String>) -> (r: HttpStep)
    ensures
        r@ == match parsed {
            Ok(message) => message_leads_to(message@, server.version@),
            Err(e) => HttpStepView::Respond(failure_response(400, "parse error: "@ + e@)),
        },
{
    let message = match parsed {
        Ok(message) => message,
        Err(error) => {
            let text = cat2("parse error: ", error.as_str());
            return HttpStep::Respond(HttpResponse::failure(400, text.as_str()));
        },
    };
    if is_jsonrpc_response(&message) || is_jsonrpc_notification(&message) {
        return HttpStep::Respond(HttpResponse::empty(202));
    }
    match server.handle_message(&message) {
        McpStep::Reply(reply) => HttpStep::Respond(message_answered(reply)),
        step => HttpStep::Work(step),
    }
}

/// What a posted request leads to.
pub open spec fn post_leads_to(request: RequestView, server_version: Seq<char>) -> HttpStepView {
    if !json_type(header_at(request.headers, "content-type"@)) {
        HttpStepView::Respond(failure_response(415, "content type must be application/json"@))
    } else {
        match json::json_read_bytes(request.body) {
            Ok(message) => message_leads_to(message, server_version),
            Err(e) => HttpStepView::Respond(failure_response(400, "parse error: "@ + e)),
        }
    }
}

/// Handles a posted request.
pub fn handle_mcp_post(server: &McpServer, request: &HttpRequest) -> (r: HttpStep)
    ensures
        r@ == post_leads_to(request@, server.version@),
{
    if !content_type_is_json(request.headers.get("content-type")) {
        return HttpStep::Respond(
            HttpResponse::failure(415, "content type must be application/json"),
        );
    }
    message_posted(server, parse_json_bytes(request.body.as_slice()))
}

/// The path of a request without the query.
pub open spec fn bare_path(path: Seq<char>) -> Seq<char> {
    scan::before(path, '?')
}

/// What a request leads to when it opens no event stream.
pub open spec fn routed(request: RequestView, server_version: Seq<char>) -> HttpStepView {
    if !allowed_origin(header_at(request.headers, "origin"@)) {
        HttpStepView::Respond(failure_response(403, "forbidden origin"@))
    } else if request.method == "GET"@ && bare_path(request.path) == "/healthz"@ {
        HttpStepView::Respond(json_response(200, JsonView::object().with_text("status"@, "ok"@)))
    } else if request.method == "GET"@ && bare_path(request.path) == "/mcp"@ {
        HttpStepView::Respond(empty_response(405))
    } else if request.method == "POST"@ && bare_path(request.path) == "/mcp"@ {
        post_leads_to(request, server_version)
    } else {
        HttpStepView::Respond(failure_response(404, "not found"@))
    }
}

/// Routes a request that opens no event stream.
pub fn route_request(server: &McpServer, request: &HttpRequest) -> (r: HttpStep)
    ensures
        r@ == routed(request@, server.version@),
{
    if !origin_is_allowed(request.headers.get("origin")) {
        return HttpStep::Respond(HttpResponse::failure(403, "forbidden origin"));
    }
    let path = scan::before_char(request.path.as_str(), '?');
    let get = same(request.method.as_str(), "GET");
    if get && same(path.as_str(), "/healthz") {
        HttpStep::Respond(HttpResponse::json(200, &Json::object().with_text("status", "ok")))
    } else if get && same(path.as_str(), "/mcp") {
        HttpStep::Respond(HttpResponse::empty(405))
    } else if same(request.method.as_str(), "POST") && same(path.as_str(), "/mcp") {
        handle_mcp_post(server, request)
    } else {
        HttpStep::Respond(HttpResponse::failure(404, "not found"))
    }
}

/// Whether a request asks for an event stream.
pub open spec fn asks_for_stream(request: RequestView) -> bool {
    request.method == "GET"@ && bare_path(request.path) == "/mcp"@
}

/// Whether a request asks for an event stream.
pub fn is_mcp_sse_request(request: &HttpRequest) -> (r: bool)
    ensures
        r == asks_for_stream(request@),
{
    same(request.method.as_str(), "GET") && same(
        scan::before_char(request.path.as_str(), '?').as_str(),
        "/mcp",
    )
}

/// What a request on a connection leads to.
pub open spec fn served(request: RequestView, server_version: Seq<char>) -> HttpStepView {
    if !asks_for_stream(request) {
        routed(request, server_version)
    } else if !allowed_origin(header_at(request.headers, "origin"@)) {
        HttpStepView::Respond(failure_response(403, "forbidden origin"@))
    } else {
        HttpStepView::Stream(SSE_HEAD@)
    }
}

/// Serves a request on a connection.
pub fn handle_connection(server: &McpServer, request: &HttpRequest) -> (r: HttpStep)
    ensures
        r@ == served(request@, server.version@),
{
    if !is_mcp_sse_request(request) {
        return route_request(server, request);
    }
    if !origin_is_allowed(request.headers.get("origin")) {
        return HttpStep::Respond(HttpResponse::failure(403, "forbidden origin"));
    }
    HttpStep::Stream(SSE_HEAD.to_owned())
}

/// What happens to an open event stream.
#[derive(Debug)]
pub enum StreamEvent {
    /// A session changed.
    Updated(SessionId),
    /// Nothing happened for a while.
    Quiet,
    /// There will be no more changes.
    Closed,
}

/// The notification that a session changed.
pub open spec fn update_view(session_id: SessionId) -> JsonView {
    JsonView::object().with_text("jsonrpc"@, "2.0"@).with_text(
        "method"@,
        "notifications/resources/updated"@,
    ).with("params"@, JsonView::object().with_text("uri"@, mcp::session_uri(session_id)))
}

/// A value as an event of a stream.
pub open spec fn sse_event(value: JsonView) -> Seq<char> {
    "data: "@ + json::compact_text(value) + "\n\n"@
}

/// What is written to an open event stream; nothing closes it.
pub fn stream_step(event: StreamEvent) -> (r: Option<String>)
    ensures
        text::view_opt(r) == match event {
            StreamEvent::Updated(id) => Some(sse_event(update_view(id))),
            StreamEvent::Quiet => Some(SSE_KEEPALIVE@),
            StreamEvent::Closed => None,
        },
{
    match event {
        StreamEvent::Updated(session_id) => {
            let text = session_updated(session_id).to_compact();
            Some(cat3("data: ", text.as_str(), "\n\n"))
        },
        StreamEvent::Quiet => Some(SSE_KEEPALIVE.to_owned()),
        StreamEvent::Closed => None,
    }
}

/// A request from an origin that is not this machine is refused, whatever it asks for.
pub proof fn foreign_origin_is_refused(request: RequestView, server_version: Seq<char>)
    requires
        !allowed_origin(header_at(request.headers, "origin"@)),
    ensures
        served(request, server_version) == HttpStepView::Respond(
            failure_response(403, "forbidden origin"@),
        ),
        routed(request, server_version) == HttpStepView::Respond(
            failure_response(403, "forbidden origin"@),
        ),
{
}

/// A message that is a notification or an answer is accepted without a body and starts no work.
pub proof fn notifications_start_no_work(message: JsonView, server_version: Seq<char>)
    requires
        notification(message) || answer(message),
    ensures
        message_leads_to(message, server_version) == HttpStepView::Respond(empty_response(202)),
{
}

} // verus!
