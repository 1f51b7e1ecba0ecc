//! Laws of the HTTP side of the server.

use crate::http;
use crate::http::{
    begin_request, content_length, content_type_is_json, continue_request, finish_request,
    handle_connection, handle_mcp_post, is_jsonrpc_notification, is_jsonrpc_response,
    is_mcp_sse_request, message_answered, message_posted, origin_is_allowed, read_request_line,
    reason_phrase, route_request, stream_step, write_response_head, Headers, HttpRequest,
    HttpResponse, HttpStep, HttpStepView, ReadStep, ReadView, RequestHead, RequestLine,
    StreamEvent,
};
use crate::json;
use crate::json::{Json, JsonView};
use crate::mcp;
use crate::mcp::McpServer;
use crate::scan;
use crate::text;
use crate::text_laws;
use vstd::prelude::*;

verus! {

/// Each status that is answered has its text, and any other counts as a fault of the server.
pub proof fn statuses_have_their_texts(status: u16, r: &'static str)
    requires
        call_ensures(reason_phrase, (status,), r),
    ensures
        status == 200 ==> r@ == "OK"@,
        status == 202 ==> r@ == "Accepted"@,
        status == 400 ==> r@ == "Bad Request"@,
        status == 403 ==> r@ == "Forbidden"@,
        status == 404 ==> r@ == "Not Found"@,
        status == 405 ==> r@ == "Method Not Allowed"@,
        status == 413 ==> r@ == "Payload Too Large"@,
        status == 415 ==> r@ == "Unsupported Media Type"@,
        status >= 500 ==> r@ == "Internal Server Error"@,
{
}

/// Answers say their status, the length of their body and its type, and that the connection ends.
pub proof fn heads_say_what_follows(response: HttpResponse, r: String)
    requires
        response.headers@.len() == 0,
        call_ensures(write_response_head, (&response,), r),
    ensures
        response.status == 200 && response.content_type is None ==> r@ == "HTTP/1.1 "@
            + text::decimal(200) + " "@ + "OK"@ + "\r\nContent-Length: "@ + text::decimal(
            response.body@.len(),
        ) + "\r\nConnection: close\r\n"@ + "\r\n"@,
        response.status == 404 && response.content_type is None ==> r@ == "HTTP/1.1 "@
            + text::decimal(404) + " "@ + "Not Found"@ + "\r\nContent-Length: "@ + text::decimal(
            response.body@.len(),
        ) + "\r\nConnection: close\r\n"@ + "\r\n"@,
        response.status == 200 ==> (response.content_type matches Some(t) ==> r@ == "HTTP/1.1 "@
            + text::decimal(200) + " "@ + "OK"@ + "\r\nContent-Length: "@ + text::decimal(
            response.body@.len(),
        ) + "\r\nConnection: close\r\n"@ + ("Content-Type: "@ + t@ + "; charset=utf-8\r\n"@)
            + "\r\n"@),
{
    assert(http::pairs(response.headers@).len() == 0);
    let none = Seq::<char>::empty();
    assert(http::header_lines(http::pairs(response.headers@)) =~= none);
    let front = "HTTP/1.1 "@ + text::decimal(response.status as nat) + " "@ + http::reason(
        response.status,
    ) + "\r\nContent-Length: "@ + text::decimal(response.body@.len())
        + "\r\nConnection: close\r\n"@;
    assert(front + none =~= front);
    if let Some(t) = response.content_type {
        let kind = "Content-Type: "@ + t@ + "; charset=utf-8\r\n"@;
        assert(front + kind + none =~= front + kind);
    }
}

/// Answers that hold a value are JSON, those without one have no body, and failures say what is
/// wrong.
pub proof fn answers_hold_their_value(
    status: u16,
    value: Json,
    message: &str,
    full: HttpResponse,
    bare: HttpResponse,
    failed: HttpResponse,
)
    requires
        call_ensures(HttpResponse::json, (status, &value), full),
        call_ensures(HttpResponse::empty, (status,), bare),
        call_ensures(HttpResponse::failure, (status, message), failed),
    ensures
        full@.status == status && bare@.status == status && failed@.status == status,
        full@.content_type == Some("application/json"@),
        full@.body == vstd::utf8::encode_utf8(json::compact_text(value@)),
        full@.headers.len() == 0 && bare@.headers.len() == 0,
        bare@.content_type is None && bare@.body.len() == 0,
        failed@.content_type == Some("application/json"@),
        failed@.body == vstd::utf8::encode_utf8(
            json::compact_text(JsonView::object().with_text("error"@, message@)),
        ),
{
}

/// A content type is that of JSON in any size of letters, with blanks around it and whatever
/// parameters follow.
pub proof fn json_types_may_have_parameters(
    front: Seq<char>,
    core: Seq<char>,
    back: Seq<char>,
    parameters: Seq<char>,
    value: String,
    r: bool,
)
    requires
        text_laws::all_blank(front),
        text_laws::all_blank(back),
        core.len() > 0,
        !core.contains(';'),
        text_laws::shows(core[0]) && text_laws::shows(core.last()),
        value@ == front + core + back || value@ == (front + core + back).push(';') + parameters,
        call_ensures(content_type_is_json, (Some(&value),), r),
    ensures
        r == (scan::lower_all(core) == "application/json"@),
{
    let whole = front + core + back;
    assert forall|i: int| 0 <= i < whole.len() implies whole[i] != ';' by {
        if i < front.len() {
            assert(whole[i] == front[i]);
        } else if i < front.len() + core.len() {
            assert(whole[i] == core[i - front.len()]);
            assert(core.contains(core[i - front.len()]));
        } else {
            assert(whole[i] == back[i - front.len() - core.len()]);
        }
    }
    assert(!whole.contains(';'));
    if value@ == whole {
        scan::position_facts(whole, ';');
    } else {
        assert(value@[whole.len() as int] == ';');
        scan::position_is_first(value@, ';', whole.len() as int);
        assert(value@.take(whole.len() as int) =~= whole);
    }
    text_laws::blanks_around_a_text(front, core, back);
}

/// A request without a content type is not JSON, and one without an origin is served.
pub proof fn missing_fields_are_judged(none: Option<&String>, json_type: bool, allowed: bool)
    requires
        none is None,
        call_ensures(content_type_is_json, (none,), json_type),
        call_ensures(origin_is_allowed, (none,), allowed),
    ensures
        !json_type,
        allowed,
{
}

/// Requests from this machine are served, whichever of its names and whichever port they come from;
/// an origin that goes on behind the name without a port is another machine.
pub proof fn origins_of_this_machine_are_served(
    name: Seq<char>,
    more: Seq<char>,
    value: String,
    r: bool,
)
    requires
        name == "http://localhost"@ || name == "https://localhost"@ || name == "http://127.0.0.1"@
            || name == "https://127.0.0.1"@ || name == "http://[::1]"@ || name == "https://[::1]"@,
        call_ensures(origin_is_allowed, (Some(&value),), r),
        scan::lower_all(scan::trim(value@)) == name + more,
    ensures
        more.len() == 0 ==> r,
        more.len() > 0 && more[0] == ':' ==> r,
        more.len() > 0 && more[0] != ':' ==> !r,
{
    reveal_strlit("http://localhost");
    reveal_strlit("https://localhost");
    reveal_strlit("http://127.0.0.1");
    reveal_strlit("https://127.0.0.1");
    reveal_strlit("http://[::1]");
    reveal_strlit("https://[::1]");
    reveal_strlit(":");
    let origin = name + more;
    assert(scan::lower_all(scan::trim(value@)).len() == scan::trim(value@).len());
    if more.len() == 0 {
        assert(origin =~= name);
    } else if more[0] == ':' {
        assert(origin.take(name.len() as int + 1) =~= name + ":"@);
    } else {
        if name != "http://localhost"@ {
            assert(differs_early(name, "http://localhost"@, 4) || differs_early(name, "http://localhost"@, 7)
                || differs_early(name, "http://localhost"@, 8));
        }
        other_name_is_foreign(name, more, "http://localhost"@);
        if name != "https://localhost"@ {
            assert(differs_early(name, "https://localhost"@, 4) || differs_early(name, "https://localhost"@, 7)
                || differs_early(name, "https://localhost"@, 8));
        }
        other_name_is_foreign(name, more, "https://localhost"@);
        if name != "http://127.0.0.1"@ {
            assert(differs_early(name, "http://127.0.0.1"@, 4) || differs_early(name, "http://127.0.0.1"@, 7)
                || differs_early(name, "http://127.0.0.1"@, 8));
        }
        other_name_is_foreign(name, more, "http://127.0.0.1"@);
        if name != "https://127.0.0.1"@ {
            assert(differs_early(name, "https://127.0.0.1"@, 4) || differs_early(name, "https://127.0.0.1"@, 7)
                || differs_early(name, "https://127.0.0.1"@, 8));
        }
        other_name_is_foreign(name, more, "https://127.0.0.1"@);
        if name != "http://[::1]"@ {
            assert(differs_early(name, "http://[::1]"@, 4) || differs_early(name, "http://[::1]"@, 7)
                || differs_early(name, "http://[::1]"@, 8));
        }
        other_name_is_foreign(name, more, "http://[::1]"@);
        if name != "https://[::1]"@ {
            assert(differs_early(name, "https://[::1]"@, 4) || differs_early(name, "https://[::1]"@, 7)
                || differs_early(name, "https://[::1]"@, 8));
        }
        other_name_is_foreign(name, more, "https://[::1]"@);
    }
}

spec fn differs_early(a: Seq<char>, b: Seq<char>, i: int) -> bool {
    0 <= i < a.len() && i < b.len() && a[i] != b[i]
}

proof fn other_name_is_foreign(name: Seq<char>, more: Seq<char>, host: Seq<char>)
    requires
        more.len() > 0,
        more[0] != ':',
        name == host || exists|i: int| differs_early(name, host, i),
    ensures
        !http::names_host(name + more, host),
{
    reveal_strlit(":");
    let origin = name + more;
    if name == host {
        assert(origin[name.len() as int] == more[0]);
        if scan::starts(origin, host + ":"@) {
            assert(origin.take(host.len() as int + 1)[host.len() as int] == ':');
        }
    } else {
        let i = choose|i: int| differs_early(name, host, i);
        assert(origin[i] == name[i]);
        if scan::starts(origin, host + ":"@) {
            assert(origin.take(host.len() as int + 1)[i] == host[i]);
        }
    }
}

/// The first line of a request names a method and a path, in this order, and a version of the first
/// kind.
pub proof fn request_lines_name_method_and_path(
    line: &str,
    r: Result<RequestLine, String>,
    step: ReadStep,
)
    requires
        call_ensures(read_request_line, (line,), r),
        call_ensures(begin_request, (line,), step),
    ensures
        ({
            let words = scan::words(line@);
            &&& r matches Ok(l) ==> words.len() >= 3 && l.method@ == words[0] && l.path@ == words[1]
                && scan::starts(words[2], "HTTP/1."@)
            &&& r matches Ok(l) ==> step@ == (ReadView::Line {
                method: l.method@,
                path: l.path@,
                headers: Map::empty(),
            })
            &&& r matches Err(e) ==> step@ == ReadView::Failed(e@)
            &&& scan::trim(line@).len() > 0 && words.len() >= 3 ==> (r is Ok <==> scan::starts(
                words[2],
                "HTTP/1."@,
            ))
            &&& scan::trim(line@).len() == 0 ==> (r matches Err(e) && e@ == "empty request"@)
            &&& scan::trim(line@).len() > 0 && words.len() == 1 ==> (r matches Err(e) && e@
                == "missing HTTP path"@)
            &&& scan::trim(line@).len() > 0 && words.len() == 2 ==> (r matches Err(e) && e@
                == "missing HTTP version"@)
            &&& scan::trim(line@).len() > 0 && words.len() >= 3 ==> (r matches Err(e) ==> e@
                == "unsupported HTTP version"@)
        }),
{
}

/// Header fields are read by a name in small letters and without the blanks around them; a line
/// without a colon is wrong.
pub proof fn header_fields_are_read(
    head: RequestHead,
    name: Seq<char>,
    value: Seq<char>,
    line: &str,
    step: ReadStep,
)
    requires
        !name.contains(':'),
        value.len() > 0,
        value.last() != '\r' && value.last() != '\n',
        line@ == name.push(':') + value || line@ == name.push(':') + value + seq!['\r', '\n'],
        call_ensures(continue_request, (ReadStep::Line(head), line), step),
    ensures
        step@ == (ReadView::Line {
            method: head.method@,
            path: head.path@,
            headers: head.headers@.insert(scan::lower_all(scan::trim(name)), scan::trim(value)),
        }),
{
    let rest = name.push(':') + value;
    let end = seq!['\r', '\n'];
    assert(rest + Seq::<char>::empty() =~= rest);
    assert(rest.last() == value.last());
    text_laws::end_of_line_is_cut(rest, end);
    text_laws::end_of_line_is_cut(rest, Seq::empty());
    assert(rest[name.len() as int] == ':');
    assert forall|i: int| 0 <= i < name.len() implies rest[i] != ':' by {
        assert(rest[i] == name[i]);
        assert(name.contains(name[i]));
    }
    scan::position_is_first(rest, ':', name.len() as int);
    assert(rest.take(name.len() as int) =~= name);
    assert(rest.skip(name.len() as int + 1) =~= value);
}

/// An empty line ends the head; a body follows if its length is announced, and none without that.
pub proof fn heads_end_with_an_empty_line(
    head: RequestHead,
    line: &str,
    step: ReadStep,
    length: Result<usize, String>,
)
    requires
        line@ == Seq::<char>::empty() || line@ == seq!['\r', '\n'] || line@ == seq!['\n'],
        call_ensures(continue_request, (ReadStep::Line(head), line), step),
        call_ensures(content_length, (&head.headers,), length),
    ensures
        length matches Ok(n) ==> step@ == (ReadView::Body {
            method: head.method@,
            path: head.path@,
            headers: head.headers@,
            length: n as nat,
        }),
        length matches Err(e) ==> step@ == ReadView::Failed(e@),
        !head.headers@.contains_key("content-length"@) ==> length == Ok::<usize, String>(0),
        length matches Ok(n) ==> n <= 16777216,
{
    text_laws::end_of_line_is_cut(Seq::empty(), line@);
    assert(Seq::<char>::empty() + line@ =~= line@);
}

/// A line that is neither empty nor a field is wrong.
pub proof fn wrong_lines_fail_the_request(head: RequestHead, line: &str, step: ReadStep)
    requires
        line@.len() > 0,
        !line@.contains(':'),
        line@.last() != '\r' && line@.last() != '\n',
        call_ensures(continue_request, (ReadStep::Line(head), line), step),
    ensures
        step@ == ReadView::Failed("invalid HTTP header"@),
{
    text_laws::end_of_line_is_cut(line@, Seq::empty());
    assert(line@ + Seq::<char>::empty() =~= line@);
    scan::position_facts(line@, ':');
}

/// The length that is announced is the number written there, if it is not too large.
pub proof fn announced_lengths_are_read(
    headers: Headers,
    n: u64,
    r: Result<usize, String>,
)
    requires
        headers@.contains_key("content-length"@),
        headers@["content-length"@] == text::decimal(n as nat),
        call_ensures(content_length, (&headers,), r),
    ensures
        n <= 16777216 ==> r == Ok::<usize, String>(n as usize),
        n > 16777216 && n <= usize::MAX ==> (r matches Err(e) && e@ == "request body too large"@),
{
    scan::written_number_is_read_back(n as nat, 10, u64::MAX as nat);
    if n <= usize::MAX {
        scan::written_number_is_read_back(n as nat, 10, usize::MAX as nat);
    }
}

/// What is inserted last under a name is found under it, and nothing else changes.
pub proof fn fields_are_found_by_name(
    headers: &mut Headers,
    name: String,
    value: String,
    other: &str,
    unit: (),
    before: Option<&String>,
    after: Option<&String>,
)
    requires
        call_ensures(Headers::insert, (headers, name, value), unit),
        call_ensures(Headers::get, (old(headers), other), before),
        call_ensures(Headers::get, (&*final(headers), other), after),
    ensures
        other@ == name@ ==> (after matches Some(v) && v@ == value@),
        other@ != name@ ==> http::text_opt(after) == http::text_opt(before),
{
}

/// A message with an id that names no method is an answer if it holds a result or an error; one
/// that names a method and has no id is a notification.
pub proof fn messages_are_told_apart(message: Json, note: bool, reply: bool)
    requires
        call_ensures(is_jsonrpc_notification, (&message,), note),
        call_ensures(is_jsonrpc_response, (&message,), reply),
    ensures
        !(note && reply),
        note <==> message@.get("method"@) is Some && message@.get("id"@) is None,
        reply ==> message@.get("id"@) is Some && message@.get("method"@) is None,
        message@.get("method"@) is None && message@.get("id"@) is Some && message@.get("result"@)
            is Some ==> reply,
        message@.get("method"@) is None && message@.get("id"@) is Some && message@.get("error"@)
            is Some ==> reply,
        message@.get("result"@) is None && message@.get("error"@) is None ==> !reply,
{
}

/// A reply of the protocol is sent, and where there is none the message is only accepted.
pub proof fn replies_are_sent(reply: Option<Json>, r: HttpResponse)
    requires
        call_ensures(message_answered, (reply,), r),
    ensures
        reply matches Some(v) ==> r@.status == 200 && r@.content_type == Some("application/json"@)
            && r@.body == vstd::utf8::encode_utf8(json::compact_text(v@)),
        reply is None ==> r@.status == 202 && r@.body.len() == 0 && r@.content_type is None,
{
}

/// What is posted goes to the protocol if it is a request, is accepted if it is a notification or an
/// answer, and is refused if it cannot be read.
pub proof fn posts_go_to_the_protocol(
    server: McpServer,
    parsed: Result<Json, String>,
    r: HttpStep,
)
    requires
        call_ensures(message_posted, (&server, parsed), r),
    ensures
        parsed matches Err(e) ==> (r@ matches HttpStepView::Respond(a) && a.status == 400 && a.body
            == vstd::utf8::encode_utf8(
            json::compact_text(JsonView::object().with_text("error"@, "parse error: "@ + e@)),
        )),
        parsed matches Ok(m) ==> {
            &&& m@.get("method"@) is Some && m@.get("id"@) is None ==> (r@ matches
                HttpStepView::Respond(a) && a.status == 202 && a.body.len() == 0)
            &&& m@.get("method"@) is Some && m@.get("id"@) is Some ==> (match mcp::message_step(
                m@,
                server.version@,
            ) {
                mcp::StepView::Reply(Some(v)) => (r@ matches HttpStepView::Respond(a) && a.status
                    == 200 && a.body == vstd::utf8::encode_utf8(json::compact_text(v))),
                mcp::StepView::Reply(None) => (r@ matches HttpStepView::Respond(a) && a.status
                    == 202 && a.body.len() == 0),
                step => r@ == HttpStepView::Work(step),
            })
        },
{
}

/// Requests are routed by their method and their path without its query: health and messages are
/// served, a stream is opened, and anything else is not found.
pub proof fn requests_are_routed(
    server: McpServer,
    request: HttpRequest,
    path: Seq<char>,
    query: Seq<char>,
    routed: HttpStep,
    served: HttpStep,
    posted: HttpStep,
    stream: bool,
)
    requires
        !path.contains('?'),
        request.path@ == path || request.path@ == path.push('?') + query,
        !request.headers@.contains_key("origin"@),
        call_ensures(route_request, (&server, &request), routed),
        call_ensures(handle_connection, (&server, &request), served),
        call_ensures(handle_mcp_post, (&server, &request), posted),
        call_ensures(is_mcp_sse_request, (&request,), stream),
    ensures
        ({
            let method = request.method@;
            &&& stream <==> method == "GET"@ && path == "/mcp"@
            &&& method == "GET"@ && path == "/healthz"@ ==> (routed@ matches HttpStepView::Respond(a)
                && a.status == 200 && a.content_type == Some("application/json"@) && a.body
                == vstd::utf8::encode_utf8(
                json::compact_text(JsonView::object().with_text("status"@, "ok"@)),
            ) && served@ == routed@)
            &&& method == "GET"@ && path == "/mcp"@ ==> (routed@ matches HttpStepView::Respond(a)
                && a.status == 405 && a.body.len() == 0)
            &&& method == "GET"@ && path == "/mcp"@ ==> served@ == HttpStepView::Stream(
                "HTTP/1.1 200 OK\r\nContent-Type: text/event-stream; charset=utf-8\r\nCache-Control: no-cache\r\nConnection: keep-alive\r\n\r\n"@,
            )
            &&& method == "POST"@ && path == "/mcp"@ ==> routed@ == posted@ && served@ == posted@
            &&& method == "POST"@ && path == "/healthz"@ ==> (routed@ matches HttpStepView::Respond(
                a,
            ) && a.status == 404 && served@ == routed@)
            &&& method != "GET"@ && method != "POST"@ ==> (routed@ matches HttpStepView::Respond(a)
                && a.status == 404 && served@ == routed@)
            &&& path != "/mcp"@ && path != "/healthz"@ ==> (routed@ matches HttpStepView::Respond(a)
                && a.status == 404 && a.body == vstd::utf8::encode_utf8(
                json::compact_text(JsonView::object().with_text("error"@, "not found"@)),
            ) && served@ == routed@)
        }),
{
    reveal_strlit("GET");
    reveal_strlit("POST");
    reveal_strlit("/mcp");
    reveal_strlit("/healthz");
    assert("GET"@.len() != "POST"@.len());
    assert("/mcp"@.len() != "/healthz"@.len());
    let p = request.path@;
    if p == path {
        scan::position_facts(p, '?');
    } else {
        assert(p[path.len() as int] == '?');
        assert forall|i: int| 0 <= i < path.len() implies p[i] != '?' by {
            assert(p[i] == path[i]);
            assert(path.contains(path[i]));
        }
        scan::position_is_first(p, '?', path.len() as int);
        assert(p.take(path.len() as int) =~= path);
    }
}

/// A request from a foreign origin is refused, and posts that are not JSON are refused.
pub proof fn wrong_requests_are_refused(
    server: McpServer,
    request: HttpRequest,
    origin: Option<&String>,
    content_type: Option<&String>,
    allowed: bool,
    is_json: bool,
    served: HttpStep,
    posted: HttpStep,
)
    requires
        call_ensures(Headers::get, (&request.headers, "origin"), origin),
        call_ensures(Headers::get, (&request.headers, "content-type"), content_type),
        call_ensures(origin_is_allowed, (origin,), allowed),
        call_ensures(content_type_is_json, (content_type,), is_json),
        call_ensures(handle_connection, (&server, &request), served),
        call_ensures(handle_mcp_post, (&server, &request), posted),
    ensures
        !allowed ==> (served@ matches HttpStepView::Respond(a) && a.status == 403 && a.body
            == vstd::utf8::encode_utf8(
            json::compact_text(JsonView::object().with_text("error"@, "forbidden origin"@)),
        )),
        !is_json ==> (posted@ matches HttpStepView::Respond(a) && a.status == 415 && a.body
            == vstd::utf8::encode_utf8(
            json::compact_text(
                JsonView::object().with_text("error"@, "content type must be application/json"@),
            ),
        )),
        is_json ==> (match json::json_read_bytes(request.body@) {
            Ok(m) => m.get("method"@) is Some && m.get("id"@) is None ==> (posted@ matches
                HttpStepView::Respond(a) && a.status == 202),
            Err(_) => posted@ matches HttpStepView::Respond(a) && a.status == 400,
        }),
{
}

/// An open stream reports each change, is kept open while nothing happens and ends when there is
/// nothing more to come.
pub proof fn streams_report_changes(event: StreamEvent, r: Option<String>)
    requires
        call_ensures(stream_step, (event,), r),
    ensures
        event is Closed <==> r is None,
        event is Quiet ==> (r matches Some(s) && s@ == ": keepalive\n\n"@),
        event matches StreamEvent::Updated(id) ==> (r matches Some(s) && s@ == "data: "@
            + json::compact_text(http::update_view(id)) + "\n\n"@),
        event matches StreamEvent::Updated(id) ==> ({
            let note = http::update_view(id);
            &&& note.text_at("jsonrpc"@) == Some("2.0"@)
            &&& note.text_at("method"@) == Some("notifications/resources/updated"@)
            &&& note.get("params"@) matches Some(p) && p.text_at("uri"@) == Some(
                mcp::session_uri(id),
            )
        }),
{
    broadcast use json::added_members_are_found;

    reveal_strlit("jsonrpc");
    reveal_strlit("method");
    reveal_strlit("params");
    assert("jsonrpc"@.len() == 7);
    assert("method"@.len() == 6);
    assert("params"@.len() == 6);
    assert("method"@[0] == 'm');
    assert("params"@[0] == 'p');
}

/// A request is put together from its head and its body.
pub proof fn requests_are_put_together(head: RequestHead, body: Vec<u8>, r: HttpRequest)
    requires
        call_ensures(finish_request, (head, body), r),
    ensures
        r.method@ == head.method@,
        r.path@ == head.path@,
        r.headers@ == head.headers@,
        r.body@ == body@,
{
}

} // verus!
