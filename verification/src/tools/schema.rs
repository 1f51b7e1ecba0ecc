//! Descriptors of the tools with the schemas of their arguments.

use crate::json::{Json, JsonView};
use vstd::prelude::*;

verus! {

pub const CREATE_SESSION: &'static str = "create_session";

pub const GET_SESSION: &'static str = "get_session";

pub const LIST_SESSIONS: &'static str = "list_sessions";

pub const CLOSE_SESSION: &'static str = "close_session";

pub const EVAL: &'static str = "eval";

pub const ADD_SYMBOLS: &'static str = "set_symbols";

pub const RECORD_PROFILE: &'static str = "trace.record_profile";

pub const RECORD_TTD: &'static str = "trace.record_ttd";

pub const IDA_CREATE_SESSION: &'static str = "ida.create_session";

pub const IDA_GET_SESSION: &'static str = "ida.get_session";

pub const IDA_LIST_SESSIONS: &'static str = "ida.list_sessions";

pub const IDA_CLOSE_SESSION: &'static str = "ida.close_session";

pub const IDA_PREFIX: &'static str = "ida.";

/// A tool that clients can call.
#[derive(Debug)]
pub struct ToolDescriptor {
    pub name: &'static str,
    pub description: &'static str,
    pub input_schema: Json,
}

/// The mathematical form of a tool descriptor.
pub struct DescriptorView {
    pub name: Seq<char>,
    pub description: Seq<char>,
    pub input_schema: JsonView,
}

impl View for ToolDescriptor {
    type V = DescriptorView;

    open spec fn view(&self) -> DescriptorView {
        DescriptorView {
            name: self.name@,
            description: self.description@,
            input_schema: self.input_schema@,
        }
    }
}

/// The schema of a value of a given type.
pub open spec fn typed_view(kind: Seq<char>) -> JsonView {
    JsonView::object().with("type"@, JsonView::Text(kind))
}

fn typed(kind: &str) -> (r: Json)
    ensures
        r@ == typed_view(kind@),
{
    Json::object().with_text("type", kind)
}

/// The schema of a value of a given type, with a description.
pub open spec fn described_view(kind: Seq<char>, description: Seq<char>) -> JsonView {
    JsonView::object()
        .with("type"@, JsonView::Text(kind))
        .with("description"@, JsonView::Text(description))
}

fn described(kind: &str, description: &str) -> (r: Json)
    ensures
        r@ == described_view(kind@, description@),
{
    Json::object().with_text("type", kind).with_text("description", description)
}

/// The schema of a fixed text.
pub open spec fn constant_view(value: Seq<char>) -> JsonView {
    JsonView::object()
        .with("type"@, JsonView::Text("string"@))
        .with("const"@, JsonView::Text(value))
}

fn constant(value: &str) -> (r: Json)
    ensures
        r@ == constant_view(value@),
{
    Json::object().with_text("type", "string").with_text("const", value)
}

/// The schema of a positive integer.
pub open spec fn positive_view(description: Seq<char>) -> JsonView {
    JsonView::object()
        .with("type"@, JsonView::Text("integer"@))
        .with("minimum"@, JsonView::Unsigned(1u64))
        .with("description"@, JsonView::Text(description))
}

fn positive(description: &str) -> (r: Json)
    ensures
        r@ == positive_view(description@),
{
    Json::object().with_text("type", "integer").with("minimum", Json::Unsigned(1)).with_text(
        "description",
        description,
    )
}

/// The schema of a list of texts, with a description.
pub open spec fn text_list_view(description: Seq<char>) -> JsonView {
    JsonView::object()
        .with("type"@, JsonView::Text("array"@))
        .with("items"@, typed_view("string"@))
        .with("description"@, JsonView::Text(description))
}

fn text_list(description: &str) -> (r: Json)
    ensures
        r@ == text_list_view(description@),
{
    Json::object().with_text("type", "array").with("items", typed("string")).with_text(
        "description",
        description,
    )
}

/// The schema of one of several texts.
pub open spec fn choice_view(values: Seq<&'static str>) -> JsonView {
    JsonView::object()
        .with("type"@, JsonView::Text("string"@))
        .with("enum"@, JsonView::List(values.map_values(|s: &'static str| JsonView::Text(s@))))
}

fn choice(values: &[&'static str]) -> (r: Json)
    ensures
        r@ == choice_view(values@),
{
    Json::object().with_text("type", "string").with("enum", Json::texts(values))
}

/// The schema of an object with the given properties and no others.
pub open spec fn closed_view(properties: JsonView, required: Seq<&'static str>) -> JsonView {
    JsonView::object()
        .with("type"@, JsonView::Text("object"@))
        .with("properties"@, properties)
        .with(
            "required"@,
            JsonView::List(required.map_values(|s: &'static str| JsonView::Text(s@))),
        )
        .with("additionalProperties"@, JsonView::Bool(false))
}

fn closed(properties: Json, required: &[&'static str]) -> (r: Json)
    ensures
        r@ == closed_view(properties@, required@),
{
    Json::object().with_text("type", "object").with("properties", properties).with(
        "required",
        Json::texts(required),
    ).with("additionalProperties", Json::Bool(false))
}

/// The schema of an object with the given optional properties and no others.
pub open spec fn optional_view(properties: JsonView) -> JsonView {
    JsonView::object()
        .with("type"@, JsonView::Text("object"@))
        .with("properties"@, properties)
        .with("additionalProperties"@, JsonView::Bool(false))
}

fn optional(properties: Json) -> (r: Json)
    ensures
        r@ == optional_view(properties@),
{
    Json::object().with_text("type", "object").with("properties", properties).with(
        "additionalProperties",
        Json::Bool(false),
    )
}

/// The schema of a launch target.
pub open spec fn launch_target_view() -> JsonView {
    closed_view(
        JsonView::object()
            .with("kind"@, constant_view("launch"@))
            .with("executable"@, described_view("string"@, "Path to a local executable."@))
            .with("args"@, text_list_view("Command-line arguments. Omit for no arguments."@)),
        seq!["kind", "executable"],
    )
}

fn launch_target() -> (r: Json)
    ensures
        r@ == launch_target_view(),
{
    let required: [&'static str; 2] = ["kind", "executable"];
    assert(required@ =~= seq!["kind", "executable"]);
    closed(
        Json::object()
            .with("kind", constant("launch"))
            .with("executable", described("string", "Path to a local executable."))
            .with("args", text_list("Command-line arguments. Omit for no arguments.")),
        required.as_slice(),
    )
}

/// The schema of a dump target.
pub open spec fn dump_target_view() -> JsonView {
    closed_view(
        JsonView::object()
            .with("kind"@, constant_view("dump"@))
            .with("path"@, described_view("string"@, "Path to a local Windows dump file."@)),
        seq!["kind", "path"],
    )
}

fn dump_target() -> (r: Json)
    ensures
        r@ == dump_target_view(),
{
    let required: [&'static str; 2] = ["kind", "path"];
    assert(required@ =~= seq!["kind", "path"]);
    closed(
        Json::object()
            .with("kind", constant("dump"))
            .with("path", described("string", "Path to a local Windows dump file.")),
        required.as_slice(),
    )
}

/// The schema of an attach target.
pub open spec fn attach_target_view() -> JsonView {
    closed_view(
        JsonView::object()
            .with("kind"@, constant_view("attach"@))
            .with("pid"@, positive_view("Process id to attach."@)),
        seq!["kind", "pid"],
    )
}

fn attach_target() -> (r: Json)
    ensures
        r@ == attach_target_view(),
{
    let required: [&'static str; 2] = ["kind", "pid"];
    assert(required@ =~= seq!["kind", "pid"]);
    closed(
        Json::object()
            .with("kind", constant("attach"))
            .with("pid", positive("Process id to attach.")),
        required.as_slice(),
    )
}

/// The schema of a debug target.
pub open spec fn debug_target_view() -> JsonView {
    JsonView::object()
        .with("type"@, JsonView::Text("object"@))
        .with("description"@, JsonView::Text("Debug target."@))
        .with(
            "oneOf"@,
            JsonView::List(seq![dump_target_view(), attach_target_view(), launch_target_view()]),
        )
}

fn debug_target() -> (r: Json)
    ensures
        r@ == debug_target_view(),
{
    let mut variants: Vec<Json> = Vec::new();
    variants.push(dump_target());
    variants.push(attach_target());
    variants.push(launch_target());
    assert(crate::json::items_view(variants@) =~= seq![
        dump_target_view(),
        attach_target_view(),
        launch_target_view(),
    ]);
    Json::object()
        .with("type", Json::text("object"))
        .with("description", Json::text("Debug target."))
        .with("oneOf", Json::list(variants))
}

/// The arguments of the tool that creates a debug session.
pub open spec fn create_session_schema_view() -> JsonView {
    JsonView::object()
        .with("type"@, JsonView::Text("object"@))
        .with(
            "description"@,
            JsonView::Text(
                "Example dump target: {\"target\":{\"kind\":\"dump\",\"path\":\"C:\\\\path\\\\file.dmp\"}}"@,
            ),
        )
        .with("properties"@, JsonView::object().with("target"@, debug_target_view()))
        .with(
            "required"@,
            JsonView::List(seq!["target"].map_values(|s: &'static str| JsonView::Text(s@))),
        )
        .with("additionalProperties"@, JsonView::Bool(false))
}

fn create_session_schema() -> (r: Json)
    ensures
        r@ == create_session_schema_view(),
{
    let required: [&'static str; 1] = ["target"];
    assert(required@ =~= seq!["target"]);
    Json::object()
        .with_text("type", "object")
        .with_text(
            "description",
            "Example dump target: {\"target\":{\"kind\":\"dump\",\"path\":\"C:\\\\path\\\\file.dmp\"}}",
        )
        .with("properties", Json::object().with("target", debug_target()))
        .with("required", Json::texts(required.as_slice()))
        .with("additionalProperties", Json::Bool(false))
}

/// The arguments of the tools that take a debug session.
pub open spec fn session_schema_view() -> JsonView {
    closed_view(
        JsonView::object()
            .with(
                "session_id"@,
                described_view("string"@, "Session id returned by create_session."@),
            ),
        seq!["session_id"],
    )
}

fn session_schema() -> (r: Json)
    ensures
        r@ == session_schema_view(),
{
    let required: [&'static str; 1] = ["session_id"];
    assert(required@ =~= seq!["session_id"]);
    closed(
        Json::object()
            .with("session_id", described("string", "Session id returned by create_session.")),
        required.as_slice(),
    )
}

/// The arguments of the tools that take none.
pub open spec fn empty_schema_view() -> JsonView {
    optional_view(JsonView::object())
}

fn empty_schema() -> (r: Json)
    ensures
        r@ == empty_schema_view(),
{
    optional(Json::object())
}

/// The arguments of the tool that evaluates a command.
pub open spec fn eval_schema_view() -> JsonView {
    closed_view(
        JsonView::object()
            .with(
                "session_id"@,
                described_view("string"@, "Session id returned by create_session."@),
            )
            .with("command"@, described_view("string"@, "Native debugger command."@)),
        seq!["session_id", "command"],
    )
}

fn eval_schema() -> (r: Json)
    ensures
        r@ == eval_schema_view(),
{
    let required: [&'static str; 2] = ["session_id", "command"];
    assert(required@ =~= seq!["session_id", "command"]);
    closed(
        Json::object()
            .with("session_id", described("string", "Session id returned by create_session."))
            .with("command", described("string", "Native debugger command.")),
        required.as_slice(),
    )
}

/// The arguments of the tool that adds symbol paths.
pub open spec fn symbols_schema_view() -> JsonView {
    closed_view(
        JsonView::object()
            .with(
                "session_id"@,
                described_view("string"@, "Session id returned by create_session."@),
            )
            .with(
                "paths"@,
                JsonView::object()
                    .with("type"@, JsonView::Text("array"@))
                    .with("items"@, typed_view("string"@))
                    .with("minItems"@, JsonView::Unsigned(1u64))
                    .with(
                        "description"@,
                        JsonView::Text(
                            "Debugger symbol path entries. Raw WinDbg symbol path strings are accepted."@,
                        ),
                    ),
            ),
        seq!["session_id", "paths"],
    )
}

fn symbols_schema() -> (r: Json)
    ensures
        r@ == symbols_schema_view(),
{
    let required: [&'static str; 2] = ["session_id", "paths"];
    assert(required@ =~= seq!["session_id", "paths"]);
    closed(
        Json::object()
            .with("session_id", described("string", "Session id returned by create_session."))
            .with(
                "paths",
                Json::object()
                    .with_text("type", "array")
                    .with("items", typed("string"))
                    .with("minItems", Json::Unsigned(1))
                    .with_text(
                        "description",
                        "Debugger symbol path entries. Raw WinDbg symbol path strings are accepted.",
                    ),
            ),
        required.as_slice(),
    )
}

/// The schema of the scope of a collector.
pub open spec fn scope_schema_view() -> JsonView {
    closed_view(JsonView::object().with("kind"@, constant_view("target_process"@)), seq!["kind"])
}

fn scope_schema() -> (r: Json)
    ensures
        r@ == scope_schema_view(),
{
    let required: [&'static str; 1] = ["kind"];
    assert(required@ =~= seq!["kind"]);
    closed(Json::object().with("kind", constant("target_process")), required.as_slice())
}

/// The schema of an event set.
pub open spec fn event_set_schema_view() -> JsonView {
    choice_view(seq!["process", "file_io"])
}

fn event_set_schema() -> (r: Json)
    ensures
        r@ == event_set_schema_view(),
{
    let values: [&'static str; 2] = ["process", "file_io"];
    assert(values@ =~= seq!["process", "file_io"]);
    choice(values.as_slice())
}

/// The schema of a collector.
pub open spec fn collector_schema_view() -> JsonView {
    closed_view(
        JsonView::object()
            .with("kind"@, constant_view("native_etw"@))
            .with("scope"@, scope_schema_view())
            .with(
                "event_sets"@,
                JsonView::object()
                    .with("type"@, JsonView::Text("array"@))
                    .with("items"@, event_set_schema_view())
                    .with("minItems"@, JsonView::Unsigned(1u64)),
            )
            .with(
                "stacks"@,
                optional_view(JsonView::object().with("enabled"@, typed_view("boolean"@))),
            ),
        seq!["kind", "scope", "event_sets"],
    )
}

fn collector_schema() -> (r: Json)
    ensures
        r@ == collector_schema_view(),
{
    let required: [&'static str; 3] = ["kind", "scope", "event_sets"];
    assert(required@ =~= seq!["kind", "scope", "event_sets"]);
    closed(
        Json::object()
            .with("kind", constant("native_etw"))
            .with("scope", scope_schema())
            .with(
                "event_sets",
                Json::object()
                    .with_text("type", "array")
                    .with("items", event_set_schema())
                    .with("minItems", Json::Unsigned(1)),
            )
            .with("stacks", optional(Json::object().with("enabled", typed("boolean")))),
        required.as_slice(),
    )
}

/// The arguments of the tool that records a profile.
pub open spec fn profile_schema_view() -> JsonView {
    closed_view(
        JsonView::object()
            .with("target"@, launch_target_view())
            .with(
                "timeout_ms"@,
                positive_view("Stop collection when the target exits or this timeout expires."@),
            )
            .with(
                "collectors"@,
                JsonView::object()
                    .with("type"@, JsonView::Text("array"@))
                    .with("minItems"@, JsonView::Unsigned(1u64))
                    .with("items"@, collector_schema_view())
                    .with(
                        "description"@,
                        JsonView::Text(
                            "Collectors to run around the same launched target. Omit to use native_etw target_process process and file_io with stacks enabled."@,
                        ),
                    ),
            ),
        seq!["target", "timeout_ms"],
    )
}

fn profile_schema() -> (r: Json)
    ensures
        r@ == profile_schema_view(),
{
    let required: [&'static str; 2] = ["target", "timeout_ms"];
    assert(required@ =~= seq!["target", "timeout_ms"]);
    closed(
        Json::object()
            .with("target", launch_target())
            .with(
                "timeout_ms",
                positive("Stop collection when the target exits or this timeout expires."),
            )
            .with(
                "collectors",
                Json::object()
                    .with_text("type", "array")
                    .with("minItems", Json::Unsigned(1))
                    .with("items", collector_schema())
                    .with_text(
                        "description",
                        "Collectors to run around the same launched target. Omit to use native_etw target_process process and file_io with stacks enabled.",
                    ),
            ),
        required.as_slice(),
    )
}

/// The schema of an attach target of a recording.
pub open spec fn ttd_attach_target_view() -> JsonView {
    closed_view(
        JsonView::object()
            .with("kind"@, constant_view("attach"@))
            .with("pid"@, positive_view("Process id to attach and record."@)),
        seq!["kind", "pid"],
    )
}

fn ttd_attach_target() -> (r: Json)
    ensures
        r@ == ttd_attach_target_view(),
{
    let required: [&'static str; 2] = ["kind", "pid"];
    assert(required@ =~= seq!["kind", "pid"]);
    closed(
        Json::object()
            .with("kind", constant("attach"))
            .with("pid", positive("Process id to attach and record.")),
        required.as_slice(),
    )
}

/// The schema of a monitor target of a recording.
pub open spec fn ttd_monitor_target_view() -> JsonView {
    closed_view(
        JsonView::object()
            .with("kind"@, constant_view("monitor"@))
            .with(
                "program"@,
                described_view(
                    "string"@,
                    "Executable file name or absolute executable path to monitor."@,
                ),
            )
            .with(
                "cmd_line_filter"@,
                described_view(
                    "string"@,
                    "Optional command-line substring filter for monitor mode."@,
                ),
            ),
        seq!["kind", "program"],
    )
}

fn ttd_monitor_target() -> (r: Json)
    ensures
        r@ == ttd_monitor_target_view(),
{
    let required: [&'static str; 2] = ["kind", "program"];
    assert(required@ =~= seq!["kind", "program"]);
    closed(
        Json::object()
            .with("kind", constant("monitor"))
            .with(
                "program",
                described("string", "Executable file name or absolute executable path to monitor."),
            )
            .with(
                "cmd_line_filter",
                described("string", "Optional command-line substring filter for monitor mode."),
            ),
        required.as_slice(),
    )
}

/// The schema of the target of a recording.
pub open spec fn ttd_target_view() -> JsonView {
    JsonView::object()
        .with("type"@, JsonView::Text("object"@))
        .with(
            "oneOf"@,
            JsonView::List(
                seq![launch_target_view(), ttd_attach_target_view(), ttd_monitor_target_view()],
            ),
        )
}

fn ttd_target() -> (r: Json)
    ensures
        r@ == ttd_target_view(),
{
    let mut variants: Vec<Json> = Vec::new();
    variants.push(launch_target());
    variants.push(ttd_attach_target());
    variants.push(ttd_monitor_target());
    assert(crate::json::items_view(variants@) =~= seq![
        launch_target_view(),
        ttd_attach_target_view(),
        ttd_monitor_target_view(),
    ]);
    Json::object().with("type", Json::text("object")).with("oneOf", Json::list(variants))
}

/// The schema of a record mode.
pub open spec fn record_mode_schema_view() -> JsonView {
    choice_view(seq!["automatic", "manual"])
}

fn record_mode_schema() -> (r: Json)
    ensures
        r@ == record_mode_schema_view(),
{
    let values: [&'static str; 2] = ["automatic", "manual"];
    assert(values@ =~= seq!["automatic", "manual"]);
    choice(values.as_slice())
}

/// The schema of the replay processor support.
pub open spec fn replay_cpu_schema_view() -> JsonView {
    choice_view(
        seq![
            "default",
            "most_conservative",
            "most_aggressive",
            "intel_avx_required",
            "intel_avx2_required",
        ],
    )
}

fn replay_cpu_schema() -> (r: Json)
    ensures
        r@ == replay_cpu_schema_view(),
{
    let values: [&'static str; 5] = [
        "default",
        "most_conservative",
        "most_aggressive",
        "intel_avx_required",
        "intel_avx2_required",
    ];
    assert(values@ =~= seq![
        "default",
        "most_conservative",
        "most_aggressive",
        "intel_avx_required",
        "intel_avx2_required",
    ]);
    choice(values.as_slice())
}

/// The schema of the options of a recording.
pub open spec fn ttd_options_schema_view() -> JsonView {
    optional_view(
        JsonView::object()
            .with("children"@, typed_view("boolean"@))
            .with("no_ui"@, typed_view("boolean"@))
            .with("accept_eula"@, typed_view("boolean"@))
            .with("ring"@, typed_view("boolean"@))
            .with("max_file_mb"@, positive_view("Maximum TTD trace size in MiB."@))
            .with(
                "modules"@,
                JsonView::object()
                    .with("type"@, JsonView::Text("array"@))
                    .with("items"@, typed_view("string"@)),
            )
            .with("record_mode"@, record_mode_schema_view())
            .with("replay_cpu_support"@, replay_cpu_schema_view()),
    )
}

fn ttd_options_schema() -> (r: Json)
    ensures
        r@ == ttd_options_schema_view(),
{
    optional(
        Json::object()
            .with("children", typed("boolean"))
            .with("no_ui", typed("boolean"))
            .with("accept_eula", typed("boolean"))
            .with("ring", typed("boolean"))
            .with("max_file_mb", positive("Maximum TTD trace size in MiB."))
            .with(
                "modules",
                Json::object().with_text("type", "array").with("items", typed("string")),
            )
            .with("record_mode", record_mode_schema())
            .with("replay_cpu_support", replay_cpu_schema()),
    )
}

/// The arguments of the tool that records a time travel trace.
pub open spec fn ttd_schema_view() -> JsonView {
    closed_view(
        JsonView::object()
            .with("target"@, ttd_target_view())
            .with(
                "timeout_ms"@,
                positive_view("Stop recording when the recorder exits or this timeout expires."@),
            )
            .with("options"@, ttd_options_schema_view()),
        seq!["target", "timeout_ms"],
    )
}

fn ttd_schema() -> (r: Json)
    ensures
        r@ == ttd_schema_view(),
{
    let required: [&'static str; 2] = ["target", "timeout_ms"];
    assert(required@ =~= seq!["target", "timeout_ms"]);
    closed(
        Json::object()
            .with("target", ttd_target())
            .with(
                "timeout_ms",
                positive("Stop recording when the recorder exits or this timeout expires."),
            )
            .with("options", ttd_options_schema()),
        required.as_slice(),
    )
}

/// The schema of a binary to analyse.
pub open spec fn ida_binary_target_view() -> JsonView {
    closed_view(
        JsonView::object()
            .with("kind"@, constant_view("binary"@))
            .with("path"@, described_view("string"@, "Path to a local binary file."@)),
        seq!["kind", "path"],
    )
}

fn ida_binary_target() -> (r: Json)
    ensures
        r@ == ida_binary_target_view(),
{
    let required: [&'static str; 2] = ["kind", "path"];
    assert(required@ =~= seq!["kind", "path"]);
    closed(
        Json::object()
            .with("kind", constant("binary"))
            .with("path", described("string", "Path to a local binary file.")),
        required.as_slice(),
    )
}

/// The schema of a database to open.
pub open spec fn ida_database_target_view() -> JsonView {
    closed_view(
        JsonView::object()
            .with("kind"@, constant_view("database"@))
            .with("path"@, described_view("string"@, "Path to a local .idb or .i64 database."@)),
        seq!["kind", "path"],
    )
}

fn ida_database_target() -> (r: Json)
    ensures
        r@ == ida_database_target_view(),
{
    let required: [&'static str; 2] = ["kind", "path"];
    assert(required@ =~= seq!["kind", "path"]);
    closed(
        Json::object()
            .with("kind", constant("database"))
            .with("path", described("string", "Path to a local .idb or .i64 database.")),
        required.as_slice(),
    )
}

/// The schema of the target of an analysis session.
pub open spec fn ida_target_view() -> JsonView {
    JsonView::object()
        .with("type"@, JsonView::Text("object"@))
        .with("oneOf"@, JsonView::List(seq![ida_binary_target_view(), ida_database_target_view()]))
}

fn ida_target() -> (r: Json)
    ensures
        r@ == ida_target_view(),
{
    let mut variants: Vec<Json> = Vec::new();
    variants.push(ida_binary_target());
    variants.push(ida_database_target());
    assert(crate::json::items_view(variants@) =~= seq![
        ida_binary_target_view(),
        ida_database_target_view(),
    ]);
    Json::object().with("type", Json::text("object")).with("oneOf", Json::list(variants))
}

/// The schema of the mode in which a database is opened.
pub open spec fn ida_mode_schema_view() -> JsonView {
    choice_view(seq!["prefer_headless", "force_headless", "prefer_gui", "force_gui"])
}

fn ida_mode_schema() -> (r: Json)
    ensures
        r@ == ida_mode_schema_view(),
{
    let values: [&'static str; 4] = [
        "prefer_headless",
        "force_headless",
        "prefer_gui",
        "force_gui",
    ];
    assert(values@ =~= seq!["prefer_headless", "force_headless", "prefer_gui", "force_gui"]);
    choice(values.as_slice())
}

/// The arguments of the tool that creates an analysis session.
pub open spec fn ida_create_schema_view() -> JsonView {
    closed_view(
        JsonView::object()
            .with("target"@, ida_target_view())
            .with("run_auto_analysis"@, typed_view("boolean"@))
            .with("build_caches"@, typed_view("boolean"@))
            .with("init_hexrays"@, typed_view("boolean"@))
            .with("mode"@, ida_mode_schema_view())
            .with("idle_ttl_sec"@, typed_view("integer"@))
            .with("startup_timeout_ms"@, typed_view("integer"@)),
        seq!["target"],
    )
}

fn ida_create_schema() -> (r: Json)
    ensures
        r@ == ida_create_schema_view(),
{
    let required: [&'static str; 1] = ["target"];
    assert(required@ =~= seq!["target"]);
    closed(
        Json::object()
            .with("target", ida_target())
            .with("run_auto_analysis", typed("boolean"))
            .with("build_caches", typed("boolean"))
            .with("init_hexrays", typed("boolean"))
            .with("mode", ida_mode_schema())
            .with("idle_ttl_sec", typed("integer"))
            .with("startup_timeout_ms", typed("integer")),
        required.as_slice(),
    )
}

/// The arguments of the tools that take an analysis session.
pub open spec fn ida_session_schema_view() -> JsonView {
    closed_view(
        JsonView::object()
            .with(
                "session_id"@,
                described_view(
                    "string"@,
                    "dbgflow IDA session id returned by ida.create_session."@,
                ),
            ),
        seq!["session_id"],
    )
}

fn ida_session_schema() -> (r: Json)
    ensures
        r@ == ida_session_schema_view(),
{
    let required: [&'static str; 1] = ["session_id"];
    assert(required@ =~= seq!["session_id"]);
    closed(
        Json::object()
            .with(
                "session_id",
                described("string", "dbgflow IDA session id returned by ida.create_session."),
            ),
        required.as_slice(),
    )
}

/// The arguments of the tool that closes an analysis session.
pub open spec fn ida_close_schema_view() -> JsonView {
    closed_view(
        JsonView::object()
            .with(
                "session_id"@,
                described_view(
                    "string"@,
                    "dbgflow IDA session id returned by ida.create_session."@,
                ),
            )
            .with(
                "save"@,
                described_view(
                    "boolean"@,
                    "Save the database before the session is closed. Defaults to true."@,
                ),
            ),
        seq!["session_id"],
    )
}

fn ida_close_schema() -> (r: Json)
    ensures
        r@ == ida_close_schema_view(),
{
    let required: [&'static str; 1] = ["session_id"];
    assert(required@ =~= seq!["session_id"]);
    closed(
        Json::object()
            .with(
                "session_id",
                described("string", "dbgflow IDA session id returned by ida.create_session."),
            )
            .with(
                "save",
                described(
                    "boolean",
                    "Save the database before the session is closed. Defaults to true.",
                ),
            ),
        required.as_slice(),
    )
}

/// A descriptor.
pub open spec fn descriptor(
    name: Seq<char>,
    description: Seq<char>,
    input_schema: JsonView,
) -> DescriptorView {
    DescriptorView { name, description, input_schema }
}

/// The descriptors of all tools but those of the analysis backend.
pub open spec fn descriptors() -> Seq<DescriptorView> {
    seq![
        descriptor(
            CREATE_SESSION@,
            "Create a debug session or return an existing session for the same target."@,
            create_session_schema_view(),
        ),
        descriptor(
            GET_SESSION@,
            "Get the current state of a debug session."@,
            session_schema_view(),
        ),
        descriptor(LIST_SESSIONS@, "List debug sessions."@, empty_schema_view()),
        descriptor(CLOSE_SESSION@, "Close a debug session."@, session_schema_view()),
        descriptor(EVAL@, "Evaluate a native debugger command in a session."@, eval_schema_view()),
        descriptor(
            ADD_SYMBOLS@,
            "Set the native debugger symbol path of a session; further entries are appended."@,
            symbols_schema_view(),
        ),
        descriptor(
            RECORD_PROFILE@,
            "Launch a process and record a native ETW profile trace as a standard ETL artifact."@,
            profile_schema_view(),
        ),
        descriptor(
            RECORD_TTD@,
            "Record a Time Travel Debugging trace with TTD.exe. Supports launch, attach, and bounded monitor recording into controlled artifacts."@,
            ttd_schema_view(),
        ),
        descriptor(
            IDA_CREATE_SESSION@,
            "Create an IDA session or return an existing session for the same target."@,
            ida_create_schema_view(),
        ),
        descriptor(
            IDA_GET_SESSION@,
            "Get the current state of an IDA session."@,
            ida_session_schema_view(),
        ),
        descriptor(IDA_LIST_SESSIONS@, "List IDA sessions."@, empty_schema_view()),
        descriptor(IDA_CLOSE_SESSION@, "Save and close an IDA session."@, ida_close_schema_view()),
    ]
}

/// The views of a list of descriptors.
pub open spec fn descriptor_views(v: Seq<ToolDescriptor>) -> Seq<DescriptorView> {
    v.map_values(|d: ToolDescriptor| d@)
}

/// The descriptors of all tools but those of the analysis backend.
pub fn tool_descriptors() -> (r: Vec<ToolDescriptor>)
    ensures
        descriptor_views(r@) == descriptors(),
{
    let mut out: Vec<ToolDescriptor> = Vec::new();
    out.push(
        ToolDescriptor {
            name: CREATE_SESSION,
            description: "Create a debug session or return an existing session for the same target.",
            input_schema: create_session_schema(),
        },
    );
    out.push(
        ToolDescriptor {
            name: GET_SESSION,
            description: "Get the current state of a debug session.",
            input_schema: session_schema(),
        },
    );
    out.push(
        ToolDescriptor {
            name: LIST_SESSIONS,
            description: "List debug sessions.",
            input_schema: empty_schema(),
        },
    );
    out.push(
        ToolDescriptor {
            name: CLOSE_SESSION,
            description: "Close a debug session.",
            input_schema: session_schema(),
        },
    );
    out.push(
        ToolDescriptor {
            name: EVAL,
            description: "Evaluate a native debugger command in a session.",
            input_schema: eval_schema(),
        },
    );
    out.push(
        ToolDescriptor {
            name: ADD_SYMBOLS,
            description: "Set the native debugger symbol path of a session; further entries are appended.",
            input_schema: symbols_schema(),
        },
    );
    out.push(
        ToolDescriptor {
            name: RECORD_PROFILE,
            description: "Launch a process and record a native ETW profile trace as a standard ETL artifact.",
            input_schema: profile_schema(),
        },
    );
    out.push(
        ToolDescriptor {
            name: RECORD_TTD,
            description: "Record a Time Travel Debugging trace with TTD.exe. Supports launch, attach, and bounded monitor recording into controlled artifacts.",
            input_schema: ttd_schema(),
        },
    );
    out.push(
        ToolDescriptor {
            name: IDA_CREATE_SESSION,
            description: "Create an IDA session or return an existing session for the same target.",
            input_schema: ida_create_schema(),
        },
    );
    out.push(
        ToolDescriptor {
            name: IDA_GET_SESSION,
            description: "Get the current state of an IDA session.",
            input_schema: ida_session_schema(),
        },
    );
    out.push(
        ToolDescriptor {
            name: IDA_LIST_SESSIONS,
            description: "List IDA sessions.",
            input_schema: empty_schema(),
        },
    );
    out.push(
        ToolDescriptor {
            name: IDA_CLOSE_SESSION,
            description: "Save and close an IDA session.",
            input_schema: ida_close_schema(),
        },
    );
    assert(descriptor_views(out@) =~= descriptors());
    out
}

} // verus!
