//! The node model and the report types.
//!
//! A workflow node arrives from the caller as a loosely typed object
//! whose field `type` names the step's kind; internally the tag lives in
//! the `kind` attribute, since the external name is a reserved word
//! here. Decoding is permissive: the parameter bag is carried along
//! as-is, and extra keys are simply ignored by the handlers.

use vstd::prelude::*;

use crate::json::JsonValue;
use crate::json::spec_get;

verus! {

/// One step of a workflow: an opaque identifier, a kind tag, and the
/// kind-specific parameter bag.
pub struct WorkflowNode {
    pub id: String,
    pub kind: String,
    pub data: JsonValue,
}

/// The report of one run: whether every node was handled, a summary
/// message, and one ordered log of everything that happened.
pub struct ExecutionResult {
    pub success: bool,
    pub message: String,
    pub logs: Vec<String>,
}

/// A plain description of the hosting platform; a pure read, exposed as
/// a peer interface beside the workflow runner.
pub struct SystemInfo {
    pub os: String,
    pub arch: String,
    pub version: String,
}

impl SystemInfo {
    /// Packages the three platform fields.
    pub fn new(os: String, arch: String, version: String) -> (r: SystemInfo)
        ensures
            r.os@ == os@,
            r.arch@ == arch@,
            r.version@ == version@,
    {
        SystemInfo { os, arch, version }
    }
}

/// The node an external description decodes to: the object's `id` and
/// `type` fields must be strings, its `data` field must be present (any
/// value is accepted; non-objects merely make every parameter read fall
/// back to its default), and the external `type` field becomes the
/// internal `kind`.
pub open spec fn spec_decode(raw: JsonValue) -> Option<WorkflowNode> {
    match (spec_get(raw, "id"@), spec_get(raw, "type"@), spec_get(raw, "data"@)) {
        (Some(JsonValue::Str(id)), Some(JsonValue::Str(kind)), Some(data)) => Some(
            WorkflowNode { id, kind, data },
        ),
        _ => None,
    }
}

/// Decodes an external node description into a `WorkflowNode`,
/// consuming the description.
pub fn decode_node(raw: JsonValue) -> (r: Option<WorkflowNode>)
    ensures
        r == spec_decode(raw),
{
    let mut entries = match raw {
        JsonValue::Obj(entries) => entries,
        _ => {
            return None;
        },
    };
    let id = match crate::json::find_index(&entries, "id") {
        Some(i) => match &entries[i].1 {
            JsonValue::Str(s) => s.clone(),
            _ => {
                return None;
            },
        },
        None => {
            return None;
        },
    };
    let kind = match crate::json::find_index(&entries, "type") {
        Some(i) => match &entries[i].1 {
            JsonValue::Str(s) => s.clone(),
            _ => {
                return None;
            },
        },
        None => {
            return None;
        },
    };
    let data_at = match crate::json::find_index(&entries, "data") {
        Some(i) => i,
        None => {
            return None;
        },
    };
    let data = entries.swap_remove(data_at).1;
    Some(WorkflowNode { id, kind, data })
}

/// Decoding maps the external field `type` onto the internal `kind`
/// attribute, and carries the identifier and the parameter bag across
/// unchanged: no field collides and no field is lost.
pub proof fn lemma_decode_round_trip(raw: JsonValue, node: WorkflowNode)
    requires
        spec_decode(raw) == Some(node),
    ensures
        spec_get(raw, "type"@) == Some(JsonValue::Str(node.kind)),
        spec_get(raw, "id"@) == Some(JsonValue::Str(node.id)),
        spec_get(raw, "data"@) == Some(node.data),
{
}

} // verus!
