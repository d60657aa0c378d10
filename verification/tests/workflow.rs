use synapse_os::action::{dispatch, settle_ms, Action};
use synapse_os::json::JsonValue;
use synapse_os::node::{decode_node, SystemInfo, WorkflowNode};
use synapse_os::run::run_workflow;

fn s(text: &str) -> String {
    text.to_string()
}

fn obj(entries: Vec<(&str, JsonValue)>) -> JsonValue {
    JsonValue::Obj(entries.into_iter().map(|(k, v)| (s(k), v)).collect())
}

fn node(id: &str, kind: &str, data: JsonValue) -> WorkflowNode {
    WorkflowNode { id: s(id), kind: s(kind), data }
}

#[test]
fn log_node_emits_message() {
    let nodes = vec![node("n1", "log", obj(vec![("message", JsonValue::Str(s("hi")))]))];
    let r = run_workflow(&nodes);
    assert!(r.success);
    assert_eq!(r.message, "Executed 1 nodes successfully.");
    assert_eq!(r.logs, vec![s("Processing node: n1 (log)"), s("LOG: hi")]);
}

#[test]
fn log_node_missing_message_defaults() {
    let nodes = vec![node("n1", "log", obj(vec![]))];
    let r = run_workflow(&nodes);
    assert_eq!(r.logs[1], "LOG: No message");
}

#[test]
fn log_node_mistyped_message_defaults() {
    let nodes = vec![node("n1", "log", obj(vec![("message", JsonValue::UInt(5))]))];
    let r = run_workflow(&nodes);
    assert_eq!(r.logs[1], "LOG: No message");
}

#[test]
fn delay_node_logs_requested_wait() {
    let nodes = vec![node("d1", "delay", obj(vec![("ms", JsonValue::UInt(50))]))];
    let r = run_workflow(&nodes);
    assert_eq!(r.logs[1], "Waiting 50ms...");
}

#[test]
fn delay_node_missing_ms_defaults() {
    let nodes = vec![node("d1", "delay", obj(vec![]))];
    let r = run_workflow(&nodes);
    assert_eq!(r.logs[1], "Waiting 1000ms...");
}

#[test]
fn unknown_kind_is_nonfatal() {
    let nodes = vec![
        node("u1", "unknown_kind_xyz", obj(vec![])),
        node("n2", "log", obj(vec![("message", JsonValue::Str(s("after")))])),
    ];
    let r = run_workflow(&nodes);
    assert!(r.success);
    let warnings = r
        .logs
        .iter()
        .filter(|l| l.as_str() == "Unknown node type: unknown_kind_xyz")
        .count();
    assert_eq!(warnings, 1);
    assert_eq!(r.logs[3], "LOG: after");
}

#[test]
fn mouse_move_defaults_to_100_100() {
    let nodes = vec![node("m1", "mouse_move", obj(vec![]))];
    let r = run_workflow(&nodes);
    assert_eq!(r.logs[1], "Moving mouse to (100, 100)");
}

#[test]
fn mouse_move_reads_coordinates() {
    let data = obj(vec![("x", JsonValue::UInt(10)), ("y", JsonValue::UInt(20))]);
    let nodes = vec![node("m1", "mouse_move", data)];
    let r = run_workflow(&nodes);
    assert_eq!(r.logs[1], "Moving mouse to (10, 20)");
}

#[test]
fn mouse_move_settles_500ms() {
    let a = dispatch(&node("m1", "mouse_move", obj(vec![])));
    assert_eq!(settle_ms(&a), 500);
}

#[test]
fn mouse_click_logs_and_settles_200ms() {
    let n = node("c1", "mouse_click", obj(vec![]));
    let r = run_workflow(&vec![n]);
    assert_eq!(r.logs[1], "Clicking Left Mouse Button");
    let a = dispatch(&node("c1", "mouse_click", obj(vec![])));
    assert_eq!(settle_ms(&a), 200);
}

#[test]
fn plain_actions_have_no_settle() {
    let a = dispatch(&node("n1", "log", obj(vec![])));
    assert_eq!(settle_ms(&a), 0);
    let b = dispatch(&node("n2", "delay", obj(vec![])));
    assert_eq!(settle_ms(&b), 0);
    let c = dispatch(&node("n3", "type_text", obj(vec![])));
    assert_eq!(settle_ms(&c), 0);
}

#[test]
fn type_text_defaults_to_hello_world() {
    let nodes = vec![node("t1", "type_text", obj(vec![]))];
    let r = run_workflow(&nodes);
    assert_eq!(r.logs[1], "Typing: Hello World");
}

#[test]
fn type_text_reads_text() {
    let data = obj(vec![("text", JsonValue::Str(s("abc")))]);
    let nodes = vec![node("t1", "type_text", data)];
    let r = run_workflow(&nodes);
    assert_eq!(r.logs[1], "Typing: abc");
}

#[test]
fn file_move_reads_source_and_dest() {
    let data = obj(vec![
        ("source", JsonValue::Str(s("a.txt"))),
        ("dest", JsonValue::Str(s("b.txt"))),
    ]);
    let nodes = vec![node("f1", "file_move", data)];
    let r = run_workflow(&nodes);
    assert_eq!(r.logs[1], "Moving a.txt to b.txt");
}

#[test]
fn file_move_defaults_to_question_marks() {
    let nodes = vec![node("f1", "file_move", obj(vec![]))];
    let r = run_workflow(&nodes);
    assert_eq!(r.logs[1], "Moving ? to ?");
}

#[test]
fn run_counts_every_node() {
    let nodes = vec![
        node("a", "log", obj(vec![])),
        node("b", "delay", obj(vec![("ms", JsonValue::UInt(1))])),
        node("c", "log", obj(vec![("message", JsonValue::Str(s("x")))])),
    ];
    let r = run_workflow(&nodes);
    assert!(r.success);
    assert_eq!(r.logs.len(), 6);
    assert_eq!(r.message, "Executed 3 nodes successfully.");
}

#[test]
fn empty_run_completes() {
    let nodes: Vec<WorkflowNode> = vec![];
    let r = run_workflow(&nodes);
    assert!(r.success);
    assert!(r.logs.is_empty());
    assert_eq!(r.message, "Executed 0 nodes successfully.");
}

#[test]
fn running_twice_is_identical() {
    let make = || {
        vec![
            node("a", "log", obj(vec![("message", JsonValue::Str(s("one")))])),
            node("b", "delay", obj(vec![("ms", JsonValue::UInt(5))])),
        ]
    };
    let r1 = run_workflow(&make());
    let r2 = run_workflow(&make());
    assert_eq!(r1.logs, r2.logs);
    assert_eq!(r1.message, r2.message);
    assert_eq!(r1.success, r2.success);
}

#[test]
fn decode_maps_type_field_to_kind() {
    let raw = obj(vec![
        ("id", JsonValue::Str(s("n7"))),
        ("type", JsonValue::Str(s("mouse_move"))),
        ("data", obj(vec![("x", JsonValue::UInt(3))])),
    ]);
    let decoded = decode_node(raw).expect("a well-formed node must decode");
    assert_eq!(decoded.kind, "mouse_move");
    assert_eq!(decoded.id, "n7");
    let a = dispatch(&decoded);
    assert!(matches!(a, Action::MouseMove { x: 3, y: 100 }));
}

#[test]
fn decode_rejects_missing_id() {
    let raw = obj(vec![
        ("type", JsonValue::Str(s("log"))),
        ("data", obj(vec![])),
    ]);
    assert!(decode_node(raw).is_none());
}

#[test]
fn decode_rejects_missing_data() {
    let raw = obj(vec![
        ("id", JsonValue::Str(s("n1"))),
        ("type", JsonValue::Str(s("log"))),
    ]);
    assert!(decode_node(raw).is_none());
}

#[test]
fn decode_rejects_mistyped_type_field() {
    let raw = obj(vec![
        ("id", JsonValue::Str(s("n1"))),
        ("type", JsonValue::UInt(4)),
        ("data", obj(vec![])),
    ]);
    assert!(decode_node(raw).is_none());
}

#[test]
fn decode_rejects_non_object() {
    assert!(decode_node(JsonValue::Str(s("log"))).is_none());
}

#[test]
fn decode_keeps_extra_keys_and_handlers_ignore_them() {
    let raw = obj(vec![
        ("id", JsonValue::Str(s("n1"))),
        ("type", JsonValue::Str(s("log"))),
        ("extra", JsonValue::Bool(true)),
        (
            "data",
            obj(vec![
                ("message", JsonValue::Str(s("kept"))),
                ("surplus", JsonValue::UInt(9)),
            ]),
        ),
    ]);
    let decoded = decode_node(raw).expect("extra keys must not reject a node");
    let r = run_workflow(&vec![decoded]);
    assert_eq!(r.logs[1], "LOG: kept");
}

#[test]
fn duplicate_parameter_key_reads_first_entry() {
    let data = obj(vec![
        ("message", JsonValue::Str(s("first"))),
        ("message", JsonValue::Str(s("second"))),
    ]);
    let r = run_workflow(&vec![node("n1", "log", data)]);
    assert_eq!(r.logs[1], "LOG: first");
}

#[test]
fn system_info_packages_fields() {
    let info = SystemInfo::new(s("linux"), s("x86_64"), s("0.1.0"));
    assert_eq!(info.os, "linux");
    assert_eq!(info.arch, "x86_64");
    assert_eq!(info.version, "0.1.0");
}
