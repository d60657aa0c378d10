use synapse_os::action::Action;
use synapse_os::digits::u64_to_string;
use synapse_os::json::{json_get, str_param, u64_param, JsonValue};
use synapse_os::node::WorkflowNode;
use synapse_os::run::{run_workflow, Executor, RunStatus};

fn s(text: &str) -> String {
    text.to_string()
}

fn obj(entries: Vec<(&str, JsonValue)>) -> JsonValue {
    JsonValue::Obj(entries.into_iter().map(|(k, v)| (s(k), v)).collect())
}

fn node(id: &str, kind: &str, data: JsonValue) -> WorkflowNode {
    WorkflowNode { id: s(id), kind: s(kind), data }
}

#[test]
fn executor_runs_every_node_in_order() {
    let nodes = vec![
        node("a", "log", obj(vec![("message", JsonValue::Str(s("one")))])),
        node("b", "delay", obj(vec![("ms", JsonValue::UInt(5))])),
    ];
    let mut ex = Executor::new(nodes);
    assert_eq!(ex.status, RunStatus::Running);
    assert!(matches!(ex.next_action(), Some(Action::EmitLog { .. })));
    ex.record_success();
    assert_eq!(ex.status, RunStatus::Running);
    assert!(matches!(ex.next_action(), Some(Action::Delay { ms: 5 })));
    ex.record_success();
    assert_eq!(ex.status, RunStatus::Completed);
    assert!(ex.next_action().is_none());
    let r = ex.into_report();
    assert!(r.success);
    assert_eq!(r.message, "Executed 2 nodes successfully.");
    assert_eq!(
        r.logs,
        vec![
            s("Processing node: a (log)"),
            s("LOG: one"),
            s("Processing node: b (delay)"),
            s("Waiting 5ms..."),
        ]
    );
}

#[test]
fn executor_matches_simulated_run() {
    let make = || {
        vec![
            node("a", "mouse_move", obj(vec![("x", JsonValue::UInt(1))])),
            node("b", "mouse_click", obj(vec![])),
        ]
    };
    let simulated = run_workflow(&make());
    let mut ex = Executor::new(make());
    while ex.status == RunStatus::Running {
        ex.record_success();
    }
    let driven = ex.into_report();
    assert_eq!(driven.logs, simulated.logs);
    assert_eq!(driven.message, simulated.message);
    assert_eq!(driven.success, simulated.success);
}

#[test]
fn executor_failure_aborts_the_run() {
    let nodes = vec![
        node(
            "f1",
            "file_move",
            obj(vec![
                ("source", JsonValue::Str(s("missing.txt"))),
                ("dest", JsonValue::Str(s("out.txt"))),
            ]),
        ),
        node("n2", "log", obj(vec![("message", JsonValue::Str(s("never")))])),
    ];
    let mut ex = Executor::new(nodes);
    assert!(matches!(ex.next_action(), Some(Action::FileMove { .. })));
    ex.record_failure("No such file or directory");
    assert_eq!(ex.status, RunStatus::Failed);
    assert!(ex.next_action().is_none());
    let r = ex.into_report();
    assert!(!r.success);
    assert_eq!(r.message, "Node f1 failed: No such file or directory");
    assert_eq!(r.logs, vec![s("Processing node: f1 (file_move)")]);
    assert!(!r.logs.contains(&s("Moving missing.txt to out.txt")));
    assert!(!r.logs.contains(&s("LOG: never")));
}

#[test]
fn executor_of_empty_sequence_completes_at_once() {
    let ex = Executor::new(vec![]);
    assert_eq!(ex.status, RunStatus::Completed);
    let r = ex.into_report();
    assert!(r.success);
    assert!(r.logs.is_empty());
    assert_eq!(r.message, "Executed 0 nodes successfully.");
}

#[test]
fn decimal_rendering_is_exact() {
    assert_eq!(u64_to_string(0), "0");
    assert_eq!(u64_to_string(7), "7");
    assert_eq!(u64_to_string(50), "50");
    assert_eq!(u64_to_string(1000), "1000");
    assert_eq!(u64_to_string(18446744073709551615), "18446744073709551615");
}

#[test]
fn parameter_reads_coerce_and_default() {
    let data = obj(vec![
        ("ms", JsonValue::UInt(25)),
        ("text", JsonValue::Str(s("abc"))),
        ("odd", JsonValue::Null),
    ]);
    assert_eq!(u64_param(&data, "ms", 1000), 25);
    assert_eq!(u64_param(&data, "absent", 1000), 1000);
    assert_eq!(u64_param(&data, "text", 1000), 1000);
    assert_eq!(str_param(&data, "text", "?"), "abc");
    assert_eq!(str_param(&data, "ms", "?"), "?");
    assert_eq!(str_param(&data, "odd", "?"), "?");
    assert!(matches!(json_get(&data, "odd"), Some(JsonValue::Null)));
    assert!(json_get(&data, "gone").is_none());
    assert!(json_get(&JsonValue::Str(s("x")), "ms").is_none());
}
