//! The tools that clients see.

use dbgflow::error::DbgFlowError;
use dbgflow::etw::settings::{EtwEventSet, EtwProfileScope, ProfileCollectorConfig};
use dbgflow::ida::model::UpstreamToolDescriptor;
use dbgflow::ida::worker::fallback_tool_descriptors;
use dbgflow::json::{parse_json, Json};
use dbgflow::profile::request::requested_collectors;
use dbgflow::tools::registry::{
    inject_session_id_schema, plan_add_symbols, route_tool, symbol_command, tool_arguments,
    tool_descriptor_values, upstream_tool_descriptor_value, ToolCallError, ToolRoute,
};
use dbgflow::tools::schema::{tool_descriptors, IDA_CREATE_SESSION, RECORD_PROFILE, RECORD_TTD};

fn value(text: &str) -> Json {
    parse_json(text).expect("json")
}

fn at<'a>(value: &'a Json, path: &[&str]) -> &'a Json {
    path.iter()
        .fold(value, |value, name| value.get(name).expect("member"))
}

fn items(value: &Json) -> &Vec<Json> {
    match value {
        Json::List(items) => items,
        other => panic!("no list: {other:?}"),
    }
}

#[test]
fn tool_descriptors_include_ida_management_and_upstream_surface() {
    let tools = tool_descriptor_values(&fallback_tool_descriptors());
    let has = |name: &str| tools.iter().any(|tool| tool.text_at("name") == Some(name));

    assert!(has(IDA_CREATE_SESSION));
    assert!(has("ida.decompile"));
    assert!(has("ida.py_eval"));
    assert!(has("ida.idb_save"));
    assert!(!has("ida.idb_open"));
    assert!(!has("ida.idb_list"));
    assert!(!has("ida.py_exec_file"));
    assert!(!tools.iter().any(|tool| tool
        .text_at("name")
        .is_some_and(|name| name.starts_with("ida.dbg_"))));

    let decompile = tools
        .iter()
        .find(|tool| tool.text_at("name") == Some("ida.decompile"))
        .expect("decompile");
    let properties = at(decompile, &["inputSchema", "properties"]);
    assert!(properties.get("session_id").is_some());
    assert!(properties.get("database").is_none());
}

#[test]
fn registry_tool_descriptors_include_record_profile() {
    let descriptors = tool_descriptors();
    let record_profile = descriptors
        .iter()
        .find(|descriptor| descriptor.name == RECORD_PROFILE)
        .expect("trace.record_profile descriptor");

    assert!(record_profile.description.contains("profile"));
    assert_eq!(record_profile.input_schema.text_at("type"), Some("object"));
    let collector_schema = at(&record_profile.input_schema, &["properties", "collectors", "items"]);
    assert_eq!(
        at(collector_schema, &["properties", "kind"]).text_at("const"),
        Some("native_etw")
    );
    let event_set_enum: Vec<&str> =
        items(at(collector_schema, &["properties", "event_sets", "items", "enum"]))
            .iter()
            .map(|item| item.as_str().expect("name"))
            .collect();
    assert!(event_set_enum.contains(&"process"));
    assert!(event_set_enum.contains(&"file_io"));
    assert!(!event_set_enum.contains(&"process_lifecycle"));
}

#[test]
fn tool_descriptors_include_record_ttd() {
    let descriptors = tool_descriptors();
    let record_ttd = descriptors
        .iter()
        .find(|descriptor| descriptor.name == RECORD_TTD)
        .expect("trace.record_ttd descriptor");

    assert!(record_ttd.description.contains("TTD"));
    assert_eq!(record_ttd.input_schema.text_at("type"), Some("object"));
    assert!(items(at(&record_ttd.input_schema, &["properties", "target", "oneOf"]))
        .iter()
        .any(|target| at(target, &["properties", "kind"]).text_at("const") == Some("monitor")));
}

#[test]
fn registry_run_profile_arguments_decode_default_native_etw() {
    let collectors = requested_collectors(None).expect("decode request");
    assert_eq!(collectors.len(), 1);
    match &collectors[0] {
        ProfileCollectorConfig::NativeEtw { scope, event_sets, stacks } => {
            assert!(matches!(scope, EtwProfileScope::TargetProcess));
            assert!(stacks.enabled);
            assert_eq!(event_sets.len(), 2);
            assert!(matches!(event_sets[0], EtwEventSet::Process));
            assert!(matches!(event_sets[1], EtwEventSet::FileIo));
        }
    }
}

#[test]
fn registry_run_profile_arguments_reject_empty_collectors_array() {
    let error = requested_collectors(Some(Vec::new())).expect_err("reject empty array");
    assert!(error.contains("collectors must contain at least one collector"));
}

#[test]
fn tools_are_routed_by_name() {
    assert!(matches!(route_tool("create_session"), Ok(ToolRoute::CreateSession)));
    match route_tool("ida.decompile") {
        Ok(ToolRoute::IdaUpstream(name)) => assert_eq!(name, "decompile"),
        other => panic!("not routed: {other:?}"),
    }
    let error = route_tool("missing_tool").expect_err("unknown tool");
    assert!(matches!(error, ToolCallError::InvalidRequest(_)));
    assert_eq!(error.message(), "unknown tool: missing_tool");
    assert!(tool_arguments(Json::Null).is_object());
}

#[test]
fn every_listed_tool_is_routed() {
    for tool in tool_descriptor_values(&fallback_tool_descriptors()) {
        assert!(route_tool(tool.text_at("name").expect("name")).is_ok());
    }
}

#[test]
fn symbol_paths_replace_then_append() {
    assert_eq!(symbol_command("a", true).expect("first"), ".sympath a");
    assert_eq!(symbol_command("b", false).expect("later"), ".sympath+ b");
    let plan = plan_add_symbols(&["a".to_string(), "x\ny".to_string(), "c".to_string()]);
    assert_eq!(plan.commands, vec![".sympath a".to_string()]);
    assert!(matches!(plan.error, Some(DbgFlowError::Backend(_))));
}

#[test]
fn sessions_take_the_place_of_databases() {
    let schema = value(
        r#"{"type":"object","properties":{"addr":{"type":"string"},"database":{"type":"string"}},"required":["addr","database"]}"#,
    );
    let injected = inject_session_id_schema(&schema);
    assert!(at(&injected, &["properties"]).get("database").is_none());
    assert!(at(&injected, &["properties"]).get("session_id").is_some());
    let required: Vec<&str> = items(at(&injected, &["required"]))
        .iter()
        .map(|item| item.as_str().expect("name"))
        .collect();
    assert!(required.contains(&"session_id"));
    assert!(required.contains(&"addr"));
    assert!(!required.contains(&"database"));
    assert_eq!(
        inject_session_id_schema(&injected).to_compact(),
        injected.to_compact()
    );

    let listed = upstream_tool_descriptor_value(&UpstreamToolDescriptor {
        name: "disasm".to_string(),
        description: "Disassemble".to_string(),
        input_schema: schema,
        output_schema: None,
    });
    assert_eq!(listed.text_at("name"), Some("ida.disasm"));
}
