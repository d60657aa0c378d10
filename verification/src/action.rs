//! The action dispatcher and the per-kind handlers' reading of the
//! parameter bag.
//!
//! A node's `kind` tag is resolved against the closed set of built-in
//! tags by exact string match. A tag outside the set is never fatal:
//! the node becomes `Unknown`, which only emits a warning log line, so
//! workflows written for a newer version of the system degrade
//! gracefully instead of aborting the run.

use vstd::prelude::*;

use crate::digits::spec_decimal;
use crate::digits::u64_to_string;
use crate::json::spec_str_param;
use crate::json::spec_u64_param;
use crate::json::str_param;
use crate::json::u64_param;
use crate::node::WorkflowNode;

verus! {

/// The default delay, in milliseconds, when a `delay` node names none.
pub const DEFAULT_DELAY_MS: u64 = 1000;

/// The default coordinate when a `mouse_move` node omits `x` or `y`.
pub const DEFAULT_COORD: u64 = 100;

/// The fixed settle pause after a pointer move, in milliseconds.
pub const MOVE_SETTLE_MS: u64 = 500;

/// The fixed settle pause after a pointer click, in milliseconds.
pub const CLICK_SETTLE_MS: u64 = 200;

/// A node resolved to a concrete step: each variant owns exactly the
/// typed parameters its handler needs, already defaulted.
pub enum Action {
    /// Emit a log line and do nothing else.
    EmitLog { message: String },
    /// Suspend the run for `ms` milliseconds.
    Delay { ms: u64 },
    /// Move the pointer to absolute screen coordinates.
    MouseMove { x: u64, y: u64 },
    /// Click the primary button at the pointer's position.
    MouseClick,
    /// Inject the text as keystrokes into the focused target.
    TypeText { text: String },
    /// Relocate the file at `source` to `dest`.
    FileMove { source: String, dest: String },
    /// A tag outside the known set: a warning, never an error.
    Unknown { kind: String },
}

/// The mathematical model of an `Action`.
pub enum ActionModel {
    EmitLog { message: Seq<char> },
    Delay { ms: u64 },
    MouseMove { x: u64, y: u64 },
    MouseClick,
    TypeText { text: Seq<char> },
    FileMove { source: Seq<char>, dest: Seq<char> },
    Unknown { kind: Seq<char> },
}

impl View for Action {
    type V = ActionModel;

    open spec fn view(&self) -> ActionModel {
        match *self {
            Action::EmitLog { message } => ActionModel::EmitLog { message: message@ },
            Action::Delay { ms } => ActionModel::Delay { ms },
            Action::MouseMove { x, y } => ActionModel::MouseMove { x, y },
            Action::MouseClick => ActionModel::MouseClick,
            Action::TypeText { text } => ActionModel::TypeText { text: text@ },
            Action::FileMove { source, dest } => ActionModel::FileMove {
                source: source@,
                dest: dest@,
            },
            Action::Unknown { kind } => ActionModel::Unknown { kind: kind@ },
        }
    }
}

/// Whether `kind` is one of the built-in node kinds.
pub open spec fn spec_known_kind(kind: Seq<char>) -> bool {
    ||| kind == "log"@
    ||| kind == "delay"@
    ||| kind == "mouse_move"@
    ||| kind == "mouse_click"@
    ||| kind == "type_text"@
    ||| kind == "file_move"@
}

/// The action a node resolves to: its kind tag decides the handler, and
/// the handler reads its parameters from the bag, substituting the
/// documented default for a key that is absent or of the wrong type.
pub open spec fn spec_dispatch(node: WorkflowNode) -> ActionModel {
    if node.kind@ == "log"@ {
        ActionModel::EmitLog {
            message: spec_str_param(node.data, "message"@, "No message"@),
        }
    } else if node.kind@ == "delay"@ {
        ActionModel::Delay { ms: spec_u64_param(node.data, "ms"@, DEFAULT_DELAY_MS) }
    } else if node.kind@ == "mouse_move"@ {
        ActionModel::MouseMove {
            x: spec_u64_param(node.data, "x"@, DEFAULT_COORD),
            y: spec_u64_param(node.data, "y"@, DEFAULT_COORD),
        }
    } else if node.kind@ == "mouse_click"@ {
        ActionModel::MouseClick
    } else if node.kind@ == "type_text"@ {
        ActionModel::TypeText {
            text: spec_str_param(node.data, "text"@, "Hello World"@),
        }
    } else if node.kind@ == "file_move"@ {
        ActionModel::FileMove {
            source: spec_str_param(node.data, "source"@, "?"@),
            dest: spec_str_param(node.data, "dest"@, "?"@),
        }
    } else {
        ActionModel::Unknown { kind: node.kind@ }
    }
}

/// A node resolves to `Unknown` exactly when its tag is outside the
/// known set, and the unknown action then carries the tag unchanged.
pub proof fn lemma_unknown_is_unrecognized(node: WorkflowNode)
    ensures
        (spec_dispatch(node) is Unknown) <==> !spec_known_kind(node.kind@),
        !spec_known_kind(node.kind@) ==> spec_dispatch(node) == (ActionModel::Unknown {
            kind: node.kind@,
        }),
{
}

/// Resolves a node's kind tag to its action.
pub fn dispatch(node: &WorkflowNode) -> (a: Action)
    ensures
        a@ == spec_dispatch(*node),
{
    if node.kind == String::from_str("log") {
        Action::EmitLog { message: str_param(&node.data, "message", "No message") }
    } else if node.kind == String::from_str("delay") {
        Action::Delay { ms: u64_param(&node.data, "ms", DEFAULT_DELAY_MS) }
    } else if node.kind == String::from_str("mouse_move") {
        Action::MouseMove {
            x: u64_param(&node.data, "x", DEFAULT_COORD),
            y: u64_param(&node.data, "y", DEFAULT_COORD),
        }
    } else if node.kind == String::from_str("mouse_click") {
        Action::MouseClick
    } else if node.kind == String::from_str("type_text") {
        Action::TypeText { text: str_param(&node.data, "text", "Hello World") }
    } else if node.kind == String::from_str("file_move") {
        Action::FileMove {
            source: str_param(&node.data, "source", "?"),
            dest: str_param(&node.data, "dest", "?"),
        }
    } else {
        Action::Unknown { kind: node.kind.clone() }
    }
}

/// The log line an action contributes to the report.
pub open spec fn spec_action_line(a: ActionModel) -> Seq<char> {
    match a {
        ActionModel::EmitLog { message } => "LOG: "@ + message,
        ActionModel::Delay { ms } => "Waiting "@ + spec_decimal(ms as int) + "ms..."@,
        ActionModel::MouseMove { x, y } => "Moving mouse to ("@ + spec_decimal(x as int) + ", "@
            + spec_decimal(y as int) + ")"@,
        ActionModel::MouseClick => "Clicking Left Mouse Button"@,
        ActionModel::TypeText { text } => "Typing: "@ + text,
        ActionModel::FileMove { source, dest } => "Moving "@ + source + " to "@ + dest,
        ActionModel::Unknown { kind } => "Unknown node type: "@ + kind,
    }
}

/// Builds the log line for an action.
pub fn action_line(a: &Action) -> (r: String)
    ensures
        r@ == spec_action_line(a@),
{
    match a {
        Action::EmitLog { message } => {
            let mut s = String::from_str("LOG: ");
            s.append(message.as_str());
            s
        },
        Action::Delay { ms } => {
            let mut s = String::from_str("Waiting ");
            let d = u64_to_string(*ms);
            s.append(d.as_str());
            s.append("ms...");
            proof {
                assert(s@ =~= spec_action_line(a@));
            }
            s
        },
        Action::MouseMove { x, y } => {
            let mut s = String::from_str("Moving mouse to (");
            let dx = u64_to_string(*x);
            s.append(dx.as_str());
            s.append(", ");
            let dy = u64_to_string(*y);
            s.append(dy.as_str());
            s.append(")");
            proof {
                assert(s@ =~= spec_action_line(a@));
            }
            s
        },
        Action::MouseClick => String::from_str("Clicking Left Mouse Button"),
        Action::TypeText { text } => {
            let mut s = String::from_str("Typing: ");
            s.append(text.as_str());
            s
        },
        Action::FileMove { source, dest } => {
            let mut s = String::from_str("Moving ");
            s.append(source.as_str());
            s.append(" to ");
            s.append(dest.as_str());
            proof {
                assert(s@ =~= spec_action_line(a@));
            }
            s
        },
        Action::Unknown { kind } => {
            let mut s = String::from_str("Unknown node type: ");
            s.append(kind.as_str());
            s
        },
    }
}

/// The fixed settle pause owed after an action, in milliseconds: a
/// short wait after pointer operations so injected events are not raced
/// by the next node.
pub open spec fn spec_settle_ms(a: ActionModel) -> u64 {
    match a {
        ActionModel::MouseMove { .. } => MOVE_SETTLE_MS,
        ActionModel::MouseClick => CLICK_SETTLE_MS,
        _ => 0,
    }
}

/// The settle pause owed after `a`.
pub fn settle_ms(a: &Action) -> (r: u64)
    ensures
        r == spec_settle_ms(a@),
{
    match a {
        Action::MouseMove { .. } => MOVE_SETTLE_MS,
        Action::MouseClick => CLICK_SETTLE_MS,
        _ => 0,
    }
}

/// The entry the report takes for a node before its handler runs.
pub open spec fn spec_processing_line(node: WorkflowNode) -> Seq<char> {
    "Processing node: "@ + node.id@ + " ("@ + node.kind@ + ")"@
}

/// Builds the report entry announcing a node.
pub fn processing_line(node: &WorkflowNode) -> (r: String)
    ensures
        r@ == spec_processing_line(*node),
{
    let mut s = String::from_str("Processing node: ");
    s.append(node.id.as_str());
    s.append(" (");
    s.append(node.kind.as_str());
    s.append(")");
    proof {
        assert(s@ =~= spec_processing_line(*node));
    }
    s
}

} // verus!
