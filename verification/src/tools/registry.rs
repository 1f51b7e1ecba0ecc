//! Dispatch of tool calls and the descriptors of analysis tools.

use crate::error::DbgFlowError;
use crate::json;
use crate::ida::model::{UpstreamToolDescriptor, UpstreamView};
use crate::json::{remove_field, set_field, Json, JsonField, JsonView};
use crate::scan;
use crate::scan::starts_with;
use crate::text;
use crate::text::{cat2, chars_of, same};
use crate::tools::schema;
use crate::tools::schema::{
    tool_descriptors, ADD_SYMBOLS, CLOSE_SESSION, CREATE_SESSION, EVAL, GET_SESSION,
    IDA_CLOSE_SESSION, IDA_CREATE_SESSION, IDA_GET_SESSION, IDA_LIST_SESSIONS, IDA_PREFIX,
    LIST_SESSIONS, RECORD_PROFILE, RECORD_TTD,
};
use vstd::prelude::*;

verus! {

/// Why a tool call failed.
#[derive(Debug)]
pub enum ToolCallError {
    /// The call names no tool or its arguments are wrong.
    InvalidRequest(String),
    /// The tool ran and failed.
    Execution(String),
}

impl ToolCallError {
    /// The call names no tool or its arguments are wrong.
    pub fn invalid_request(message: &str) -> (r: ToolCallError)
        ensures
            r matches ToolCallError::InvalidRequest(m) && m@ == message@,
    {
        ToolCallError::InvalidRequest(message.to_owned())
    }

    /// The arguments of the call cannot be decoded.
    pub fn invalid_arguments(error: &str) -> (r: ToolCallError)
        ensures
            r matches ToolCallError::InvalidRequest(m) && m@ == "invalid tool arguments: "@
                + error@,
    {
        ToolCallError::InvalidRequest(cat2("invalid tool arguments: ", error))
    }

    /// The tool ran and failed.
    pub fn execution(error: &DbgFlowError) -> (r: ToolCallError)
        ensures
            r matches ToolCallError::Execution(m) && m@ == error@.text(),
    {
        ToolCallError::Execution(error.message())
    }

    /// The text of the error.
    pub fn message(&self) -> (r: String)
        ensures
            r@ == match *self {
                ToolCallError::InvalidRequest(m) => m@,
                ToolCallError::Execution(m) => m@,
            },
    {
        match self {
            ToolCallError::InvalidRequest(m) => m.clone(),
            ToolCallError::Execution(m) => m.clone(),
        }
    }
}

/// What a tool name stands for.
#[derive(Debug)]
pub enum ToolRoute {
    CreateSession,
    GetSession,
    ListSessions,
    CloseSession,
    Eval,
    AddSymbols,
    RecordProfile,
    RecordTtd,
    IdaCreateSession,
    IdaGetSession,
    IdaListSessions,
    IdaCloseSession,
    /// A tool of the analysis backend, by its name there.
    IdaUpstream(String),
}

/// The mathematical form of a route.
pub enum RouteView {
    CreateSession,
    GetSession,
    ListSessions,
    CloseSession,
    Eval,
    AddSymbols,
    RecordProfile,
    RecordTtd,
    IdaCreateSession,
    IdaGetSession,
    IdaListSessions,
    IdaCloseSession,
    IdaUpstream(Seq<char>),
}

impl View for ToolRoute {
    type V = RouteView;

    open spec fn view(&self) -> RouteView {
        match *self {
            ToolRoute::CreateSession => RouteView::CreateSession,
            ToolRoute::GetSession => RouteView::GetSession,
            ToolRoute::ListSessions => RouteView::ListSessions,
            ToolRoute::CloseSession => RouteView::CloseSession,
            ToolRoute::Eval => RouteView::Eval,
            ToolRoute::AddSymbols => RouteView::AddSymbols,
            ToolRoute::RecordProfile => RouteView::RecordProfile,
            ToolRoute::RecordTtd => RouteView::RecordTtd,
            ToolRoute::IdaCreateSession => RouteView::IdaCreateSession,
            ToolRoute::IdaGetSession => RouteView::IdaGetSession,
            ToolRoute::IdaListSessions => RouteView::IdaListSessions,
            ToolRoute::IdaCloseSession => RouteView::IdaCloseSession,
            ToolRoute::IdaUpstream(name) => RouteView::IdaUpstream(name@),
        }
    }
}

/// The tool that a name stands for.
pub open spec fn route_of(name: Seq<char>) -> Option<RouteView> {
    if name == CREATE_SESSION@ {
        Some(RouteView::CreateSession)
    } else if name == GET_SESSION@ {
        Some(RouteView::GetSession)
    } else if name == LIST_SESSIONS@ {
        Some(RouteView::ListSessions)
    } else if name == CLOSE_SESSION@ {
        Some(RouteView::CloseSession)
    } else if name == EVAL@ {
        Some(RouteView::Eval)
    } else if name == ADD_SYMBOLS@ {
        Some(RouteView::AddSymbols)
    } else if name == RECORD_PROFILE@ {
        Some(RouteView::RecordProfile)
    } else if name == RECORD_TTD@ {
        Some(RouteView::RecordTtd)
    } else if name == IDA_CREATE_SESSION@ {
        Some(RouteView::IdaCreateSession)
    } else if name == IDA_GET_SESSION@ {
        Some(RouteView::IdaGetSession)
    } else if name == IDA_LIST_SESSIONS@ {
        Some(RouteView::IdaListSessions)
    } else if name == IDA_CLOSE_SESSION@ {
        Some(RouteView::IdaCloseSession)
    } else if scan::starts(name, IDA_PREFIX@) {
        Some(RouteView::IdaUpstream(name.skip(IDA_PREFIX@.len() as int)))
    } else {
        None
    }
}

/// Finds the tool that a name stands for.
pub fn route_tool(name: &str) -> (r: Result<ToolRoute, ToolCallError>)
    ensures
        match r {
            Ok(route) => route_of(name@) == Some(route@),
            Err(e) => route_of(name@) is None && (e matches ToolCallError::InvalidRequest(m) && m@
                == "unknown tool: "@ + name@),
        },
{
    if same(name, CREATE_SESSION) {
        Ok(ToolRoute::CreateSession)
    } else if same(name, GET_SESSION) {
        Ok(ToolRoute::GetSession)
    } else if same(name, LIST_SESSIONS) {
        Ok(ToolRoute::ListSessions)
    } else if same(name, CLOSE_SESSION) {
        Ok(ToolRoute::CloseSession)
    } else if same(name, EVAL) {
        Ok(ToolRoute::Eval)
    } else if same(name, ADD_SYMBOLS) {
        Ok(ToolRoute::AddSymbols)
    } else if same(name, RECORD_PROFILE) {
        Ok(ToolRoute::RecordProfile)
    } else if same(name, RECORD_TTD) {
        Ok(ToolRoute::RecordTtd)
    } else if same(name, IDA_CREATE_SESSION) {
        Ok(ToolRoute::IdaCreateSession)
    } else if same(name, IDA_GET_SESSION) {
        Ok(ToolRoute::IdaGetSession)
    } else if same(name, IDA_LIST_SESSIONS) {
        Ok(ToolRoute::IdaListSessions)
    } else if same(name, IDA_CLOSE_SESSION) {
        Ok(ToolRoute::IdaCloseSession)
    } else if starts_with(name, IDA_PREFIX) {
        let chars = chars_of(name);
        let prefix = chars_of(IDA_PREFIX);
        let upstream = scan::part(chars.as_slice(), prefix.len(), chars.len());
        assert(upstream@ =~= name@.skip(IDA_PREFIX@.len() as int));
        Ok(ToolRoute::IdaUpstream(upstream))
    } else {
        Err(ToolCallError::InvalidRequest(cat2("unknown tool: ", name)))
    }
}

/// The arguments that a tool decodes: none given count as an empty object.
pub fn tool_arguments(arguments: Json) -> (r: Json)
    ensures
        r@ == if arguments@ is Null {
            JsonView::object()
        } else {
            arguments@
        },
{
    match arguments {
        Json::Null => Json::object(),
        other => other,
    }
}

/// Whether a character is a control character.
pub open spec fn is_control(c: char) -> bool {
    c <= '\u{1f}' || '\u{7f}' <= c <= '\u{9f}'
}

/// Whether a symbol path holds a character that would end or break a debugger command.
pub open spec fn breaks_command(s: Seq<char>) -> bool {
    exists|i: int|
        0 <= i < s.len() && (is_control(#[trigger] s[i]) || s[i] == '\u{2028}' || s[i]
            == '\u{2029}')
}

/// What is wrong with a symbol path.
pub open spec fn symbol_path_error(path: Seq<char>) -> Option<Seq<char>> {
    if scan::trim(path).len() == 0 {
        Some("symbol path must not be empty"@)
    } else if breaks_command(path) {
        Some("symbol path contains unsupported control characters"@)
    } else {
        None
    }
}

/// The debugger command for a symbol path: the first one replaces what was there, and each
/// further one is appended.
pub open spec fn symbol_command_text(path: Seq<char>, first: bool) -> Seq<char> {
    (if first {
        ".sympath "@
    } else {
        ".sympath+ "@
    }) + path
}

/// The debugger command for a symbol path.
pub fn symbol_command(path: &str, first: bool) -> (r: Result<String, DbgFlowError>)
    ensures
        match r {
            Ok(command) => symbol_path_error(path@) is None && command@ == symbol_command_text(
                path@,
                first,
            ),
            Err(e) => symbol_path_error(path@) matches Some(m) && e@
                == crate::error::ErrorView::Backend(m),
        },
{
    if scan::is_blank(path) {
        return Err(DbgFlowError::backend("symbol path must not be empty"));
    }
    let chars = chars_of(path);
    let mut i: usize = 0;
    while i < chars.len()
        invariant
            i <= chars@.len(),
            chars@ == path@,
            scan::trim(path@).len() > 0,
            forall|j: int|
                0 <= j < i ==> !is_control(#[trigger] path@[j]) && path@[j] != '\u{2028}'
                    && path@[j] != '\u{2029}',
        decreases chars@.len() - i,
    {
        let c = chars[i];
        if c <= '\u{1f}' || ('\u{7f}' <= c && c <= '\u{9f}') || c == '\u{2028}' || c
            == '\u{2029}' {
            assert(path@[i as int] == c);
            return Err(
                DbgFlowError::backend("symbol path contains unsupported control characters"),
            );
        }
        i += 1;
    }
    if first {
        Ok(cat2(".sympath ", path))
    } else {
        Ok(cat2(".sympath+ ", path))
    }
}

/// The commands that set symbol paths, one for each path up to the first bad one, and what
/// is wrong where the list is empty or a path is bad.
#[derive(Debug)]
pub struct SymbolPlan {
    pub commands: Vec<String>,
    pub error: Option<DbgFlowError>,
}

/// The number of paths in front of the first bad one.
pub open spec fn good_prefix(paths: Seq<Seq<char>>) -> nat
    decreases paths.len(),
{
    if paths.len() == 0 || symbol_path_error(paths[0]) is Some {
        0
    } else {
        1 + good_prefix(paths.drop_first())
    }
}

/// Plans the commands that set symbol paths.
pub fn plan_add_symbols(paths: &[String]) -> (r: SymbolPlan)
    ensures
        ({
            let all = text::views(paths@);
            let good = good_prefix(all);
            &&& good <= all.len()
            &&& text::views(r.commands@) == Seq::new(
                good,
                |i: int| symbol_command_text(all[i], i == 0),
            )
            &&& if all.len() == 0 {
                r.error matches Some(e) && e@ == crate::error::ErrorView::Backend(
                    "at least one symbol path is required"@,
                )
            } else if good < all.len() {
                r.error matches Some(e) && e@ == crate::error::ErrorView::Backend(
                    symbol_path_error(all[good as int])->0,
                )
            } else {
                r.error is None
            }
        }),
{
    let ghost all = text::views(paths@);
    let mut commands: Vec<String> = Vec::new();
    if paths.len() == 0 {
        assert(text::views(commands@) =~= Seq::new(
            0,
            |i: int| symbol_command_text(all[i], i == 0),
        ));
        return SymbolPlan {
            commands,
            error: Some(DbgFlowError::backend("at least one symbol path is required")),
        };
    }
    let mut i: usize = 0;
    assert(all.skip(0) =~= all);
    while i < paths.len()
        invariant
            i <= paths@.len(),
            paths@.len() > 0,
            all == text::views(paths@),
            commands@.len() == i,
            good_prefix(all) == i + good_prefix(all.skip(i as int)),
            forall|j: int| 0 <= j < i ==> (#[trigger] commands@[j])@ == symbol_command_text(
                    all[j],
                    j == 0,
                ),
        decreases paths@.len() - i,
    {
        assert(all.skip(i as int)[0] == paths@[i as int]@);
        assert(all.skip(i as int).drop_first() =~= all.skip(i as int + 1));
        match symbol_command(paths[i].as_str(), i == 0) {
            Ok(command) => {
                commands.push(command);
            },
            Err(error) => {
                assert(good_prefix(all) == i);
                assert(text::views(commands@) =~= Seq::new(
                    i as nat,
                    |i: int| symbol_command_text(all[i], i == 0),
                ));
                return SymbolPlan { commands, error: Some(error) };
            },
        }
        i += 1;
    }
    assert(good_prefix(all) == paths@.len());
    assert(text::views(commands@) =~= Seq::new(
        all.len(),
        |i: int| symbol_command_text(all[i], i == 0),
    ));
    SymbolPlan { commands, error: None }
}

/// The schema of the session argument of backend tools.
pub open spec fn session_property() -> JsonView {
    JsonView::object().with_text("type"@, "string"@).with_text(
        "description"@,
        "dbgflow IDA session id returned by ida.create_session."@,
    )
}

/// The items without the text `database`.
pub open spec fn without_database(items: Seq<JsonView>) -> Seq<JsonView>
    decreases items.len(),
{
    if items.len() == 0 {
        Seq::empty()
    } else {
        let rest = without_database(items.drop_last());
        if items.last() == JsonView::Text("database"@) {
            rest
        } else {
            rest.push(items.last())
        }
    }
}

/// The required arguments: no database, but a session.
pub open spec fn required_with_session(items: Seq<JsonView>) -> Seq<JsonView> {
    let rest = without_database(items);
    if rest.contains(JsonView::Text("session_id"@)) {
        rest
    } else {
        rest.push(JsonView::Text("session_id"@))
    }
}

/// The members of an object, or none.
pub open spec fn members_of(value: Option<JsonView>) -> Seq<(Seq<char>, JsonView)> {
    match value {
        Some(JsonView::Object(fields)) => fields,
        _ => Seq::empty(),
    }
}

/// The items of a list, or none.
pub open spec fn items_of(value: Option<JsonView>) -> Seq<JsonView> {
    match value {
        Some(JsonView::List(items)) => items,
        _ => Seq::empty(),
    }
}

/// The schema of a backend tool as clients see it: an object that takes a session in place
/// of a backend database.
pub open spec fn with_session_argument(schema: JsonView) -> JsonView {
    let base = members_of(Some(schema));
    let kind = json::with_field(base, "type"@, JsonView::Text("object"@));
    let properties = json::with_field(
        json::without_field(members_of(json::lookup(kind, "properties"@)), "database"@),
        "session_id"@,
        session_property(),
    );
    let with_properties = json::with_field(kind, "properties"@, JsonView::Object(properties));
    JsonView::Object(
        json::with_field(
            with_properties,
            "required"@,
            JsonView::List(
                required_with_session(items_of(json::lookup(with_properties, "required"@))),
            ),
        ),
    )
}

fn copy_fields(v: &[JsonField]) -> (r: Vec<JsonField>)
    ensures
        json::fields_view(r@) == json::fields_view(v@),
{
    let mut out: Vec<JsonField> = Vec::new();
    let mut i: usize = 0;
    while i < v.len()
        invariant
            i <= v@.len(),
            out@.len() == i,
            forall|j: int|
                0 <= j < i ==> json::field_view(#[trigger] out@[j]) == json::field_view(v@[j]),
        decreases v@.len() - i,
    {
        out.push(JsonField { name: v[i].name.clone(), value: v[i].value.duplicate() });
        i += 1;
    }
    assert(json::fields_view(out@) =~= json::fields_view(v@));
    out
}

fn is_text(j: &Json, wanted: &str) -> (r: bool)
    ensures
        r == (j@ == JsonView::Text(wanted@)),
{
    match j {
        Json::Text(s) => same(s.as_str(), wanted),
        _ => false,
    }
}

fn required_arguments(items: &[Json]) -> (r: Json)
    ensures
        r@ == JsonView::List(required_with_session(json::items_view(items@))),
{
    let ghost all = json::items_view(items@);
    let mut out: Vec<Json> = Vec::new();
    let mut found = false;
    let mut i: usize = 0;
    assert(json::items_view(out@) =~= without_database(all.take(0)));
    while i < items.len()
        invariant
            i <= items@.len(),
            all == json::items_view(items@),
            json::items_view(out@) == without_database(all.take(i as int)),
            found == json::items_view(out@).contains(JsonView::Text("session_id"@)),
        decreases items@.len() - i,
    {
        let ghost before = json::items_view(out@);
        assert(all.take(i as int + 1).drop_last() =~= all.take(i as int));
        assert(all.take(i as int + 1).last() == items@[i as int]@);
        if !is_text(&items[i], "database") {
            let item = items[i].duplicate();
            let ghost iv = item@;
            let session = is_text(&item, "session_id");
            out.push(item);
            assert(json::items_view(out@) =~= before.push(iv));
            proof {
                let wanted = JsonView::Text("session_id"@);
                let now = before.push(iv);
                if before.contains(wanted) {
                    let k = choose|k: int| 0 <= k < before.len() && before[k] == wanted;
                    assert(now[k] == wanted);
                }
                if iv == wanted {
                    assert(now[before.len() as int] == wanted);
                }
                if now.contains(wanted) && iv != wanted {
                    let k = choose|k: int| 0 <= k < now.len() && now[k] == wanted;
                    assert(before[k] == wanted);
                }
            }
            found = found || session;
        }
        i += 1;
    }
    assert(all.take(all.len() as int) =~= all);
    if !found {
        let ghost before = json::items_view(out@);
        out.push(Json::text("session_id"));
        assert(json::items_view(out@) =~= before.push(JsonView::Text("session_id"@)));
    }
    Json::list(out)
}

/// Turns the schema of a backend tool into the one that clients see.
pub fn inject_session_id_schema(schema: &Json) -> (r: Json)
    ensures
        r@ == with_session_argument(schema@),
{
    let mut fields = match schema {
        Json::Object(v) => {
            proof {
                json::object_view(*v);
            }
            copy_fields(v.as_slice())
        },
        _ => Vec::new(),
    };
    assert(json::fields_view(fields@) =~= members_of(Some(schema@)));
    set_field(&mut fields, "type", Json::text("object"));
    let ghost kind = json::fields_view(fields@);
    let properties = match json::find_field(fields.as_slice(), "properties") {
        Some(Json::Object(v)) => {
            proof {
                json::object_view(*v);
            }
            copy_fields(v.as_slice())
        },
        _ => Vec::new(),
    };
    assert(json::fields_view(properties@) =~= members_of(json::lookup(kind, "properties"@)));
    let mut properties = remove_field(properties, "database");
    let session = Json::object().with_text("type", "string").with_text(
        "description",
        "dbgflow IDA session id returned by ida.create_session.",
    );
    set_field(&mut properties, "session_id", session);
    proof {
        json::object_view(properties);
    }
    set_field(&mut fields, "properties", Json::Object(properties));
    let ghost with_properties = json::fields_view(fields@);
    let required = match json::find_field(fields.as_slice(), "required") {
        Some(Json::List(v)) => {
            proof {
                json::list_view(*v);
            }
            required_arguments(v.as_slice())
        },
        _ => {
            let none: Vec<Json> = Vec::new();
            assert(json::items_view(none@) =~= Seq::<JsonView>::empty());
            required_arguments(none.as_slice())
        },
    };
    set_field(&mut fields, "required", required);
    proof {
        json::object_view(fields);
    }
    Json::Object(fields)
}

/// The descriptor of a backend tool as clients see it.
pub open spec fn upstream_value(tool: UpstreamView) -> JsonView {
    let head = JsonView::object().with_text("name"@, IDA_PREFIX@ + tool.name).with_text(
        "description"@,
        tool.description,
    ).with("inputSchema"@, with_session_argument(tool.input_schema));
    match tool.output_schema {
        Some(schema) => head.with("outputSchema"@, schema),
        None => head,
    }
}

/// The descriptor of a backend tool as clients see it.
pub fn upstream_tool_descriptor_value(tool: &UpstreamToolDescriptor) -> (r: Json)
    ensures
        r@ == upstream_value(tool@),
{
    let name = cat2(IDA_PREFIX, tool.name.as_str());
    let head = Json::object().with_text("name", name.as_str()).with_text(
        "description",
        tool.description.as_str(),
    ).with("inputSchema", inject_session_id_schema(&tool.input_schema));
    match &tool.output_schema {
        Some(schema) => head.with("outputSchema", schema.duplicate()),
        None => head,
    }
}

/// The descriptor of a tool of the server as clients see it.
pub open spec fn descriptor_value(tool: schema::DescriptorView) -> JsonView {
    JsonView::object().with_text("name"@, tool.name).with_text(
        "description"@,
        tool.description,
    ).with("inputSchema"@, tool.input_schema)
}

/// The descriptors of all tools: those of the server, then those of the analysis backend.
pub open spec fn all_descriptor_values(upstream: Seq<UpstreamView>) -> Seq<JsonView> {
    schema::descriptors().map_values(|d: schema::DescriptorView| descriptor_value(d))
        + upstream.map_values(|t: UpstreamView| upstream_value(t))
}

/// The descriptors of all tools as clients see them.
pub fn tool_descriptor_values(upstream: &[UpstreamToolDescriptor]) -> (r: Vec<Json>)
    ensures
        json::items_view(r@) == all_descriptor_values(
            upstream@.map_values(|t: UpstreamToolDescriptor| t@),
        ),
{
    let own = tool_descriptors();
    let ghost first = schema::descriptors().map_values(
        |d: schema::DescriptorView| descriptor_value(d),
    );
    let ghost second = upstream@.map_values(|t: UpstreamToolDescriptor| t@).map_values(
        |t: UpstreamView| upstream_value(t),
    );
    let mut out: Vec<Json> = Vec::new();
    let mut i: usize = 0;
    while i < own.len()
        invariant
            i <= own@.len(),
            schema::descriptor_views(own@) == schema::descriptors(),
            first == schema::descriptors().map_values(
                |d: schema::DescriptorView| descriptor_value(d),
            ),
            out@.len() == i,
            forall|j: int| 0 <= j < i ==> (#[trigger] out@[j])@ == first[j],
        decreases own@.len() - i,
    {
        assert(schema::descriptor_views(own@)[i as int] == own@[i as int]@);
        out.push(
            Json::object().with_text("name", own[i].name).with_text(
                "description",
                own[i].description,
            ).with("inputSchema", own[i].input_schema.duplicate()),
        );
        i += 1;
    }
    let ghost count = own@.len();
    assert(schema::descriptor_views(own@).len() == schema::descriptors().len());
    let mut k: usize = 0;
    while k < upstream.len()
        invariant
            k <= upstream@.len(),
            first.len() == count,
            second == upstream@.map_values(|t: UpstreamToolDescriptor| t@).map_values(
                |t: UpstreamView| upstream_value(t),
            ),
            out@.len() == count + k,
            forall|j: int| 0 <= j < count ==> (#[trigger] out@[j])@ == first[j],
            forall|j: int| count <= j < count + k ==> (#[trigger] out@[j])@ == second[j - count],
        decreases upstream@.len() - k,
    {
        out.push(upstream_tool_descriptor_value(&upstream[k]));
        k += 1;
    }
    assert(json::items_view(out@) =~= first + second);
    out
}

} // verus!
