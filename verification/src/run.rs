//! The workflow executor.
//!
//! Two views of the same semantics live here. `run_workflow` is the
//! simulated (dry-run) interpreter: it walks the node sequence in
//! order, performs no OS side effects, and builds the full report. The
//! `Executor` state machine carries the same sequencing and report
//! semantics for a driver that really performs each action: the driver
//! asks for the next action, performs it (including any delay or settle
//! wait), and reports back whether the backend accepted it. The first
//! backend failure is fatal: the run stops, later nodes never execute,
//! and the report carries the logs gathered so far.

use vstd::prelude::*;

use crate::action::Action;
use crate::action::action_line;
use crate::action::dispatch;
use crate::action::processing_line;
use crate::action::spec_action_line;
use crate::action::spec_dispatch;
use crate::action::spec_known_kind;
use crate::action::spec_processing_line;
use crate::digits::spec_decimal;
use crate::digits::u64_to_string;
use crate::node::ExecutionResult;
use crate::node::WorkflowNode;

verus! {

/// The two log lines one node contributes: the report's announcement of
/// the node, then the handler's own line.
pub open spec fn spec_node_lines(node: WorkflowNode) -> Seq<Seq<char>> {
    seq![spec_processing_line(node), spec_action_line(spec_dispatch(node))]
}

/// The log of the first `k` nodes, in execution order.
pub open spec fn spec_logs_upto(nodes: Seq<WorkflowNode>, k: int) -> Seq<Seq<char>>
    decreases k,
{
    if k <= 0 {
        Seq::empty()
    } else {
        spec_logs_upto(nodes, k - 1) + spec_node_lines(nodes[k - 1])
    }
}

/// The full log of a run that processes every node.
pub open spec fn spec_run_logs(nodes: Seq<WorkflowNode>) -> Seq<Seq<char>> {
    spec_logs_upto(nodes, nodes.len() as int)
}

/// The trailing message of a run that processed `n` nodes without a
/// fatal error.
pub open spec fn spec_success_message(n: int) -> Seq<char> {
    "Executed "@ + spec_decimal(n) + " nodes successfully."@
}

/// The message of a run aborted at `node` by a backend error.
pub open spec fn spec_failure_message(node: WorkflowNode, error: Seq<char>) -> Seq<char> {
    "Node "@ + node.id@ + " failed: "@ + error
}

/// The report `run_workflow` owes for `nodes`.
pub open spec fn spec_is_run_report(nodes: Seq<WorkflowNode>, r: ExecutionResult) -> bool {
    &&& r.success == true
    &&& r.message@ == spec_success_message(nodes.len() as int)
    &&& r.logs.deep_view() == spec_run_logs(nodes)
}

/// A processed prefix contributes two log lines per node.
pub proof fn lemma_logs_upto_len(nodes: Seq<WorkflowNode>, k: int)
    requires
        0 <= k,
    ensures
        spec_logs_upto(nodes, k).len() == 2 * k,
    decreases k,
{
    if k > 0 {
        lemma_logs_upto_len(nodes, k - 1);
    }
}

/// Node `i` of a processed prefix contributes exactly its two lines, in
/// order, at positions `2 * i` and `2 * i + 1`.
pub proof fn lemma_node_lines_at(nodes: Seq<WorkflowNode>, k: int, i: int)
    requires
        0 <= i < k <= nodes.len(),
    ensures
        spec_logs_upto(nodes, k)[2 * i] == spec_processing_line(nodes[i]),
        spec_logs_upto(nodes, k)[2 * i + 1] == spec_action_line(spec_dispatch(nodes[i])),
    decreases k,
{
    lemma_logs_upto_len(nodes, k - 1);
    if i < k - 1 {
        lemma_node_lines_at(nodes, k - 1, i);
    }
}

/// Every run that meets the report contract succeeded, counted every
/// node in its message, and logged both lines of every node in listed
/// order: in particular, this holds of sequences built only of `log`
/// and `delay` nodes.
pub proof fn lemma_all_nodes_reported(nodes: Seq<WorkflowNode>, r: ExecutionResult)
    requires
        spec_is_run_report(nodes, r),
    ensures
        r.success,
        r.message@ == spec_success_message(nodes.len() as int),
        r.logs.deep_view().len() == 2 * nodes.len(),
        forall|i: int|
            0 <= i < nodes.len() ==> r.logs.deep_view()[2 * i] == spec_processing_line(
                #[trigger] nodes[i],
            ) && r.logs.deep_view()[2 * i + 1] == spec_action_line(spec_dispatch(nodes[i])),
{
    lemma_logs_upto_len(nodes, nodes.len() as int);
    assert forall|i: int| 0 <= i < nodes.len() implies r.logs.deep_view()[2 * i]
        == spec_processing_line(#[trigger] nodes[i]) && r.logs.deep_view()[2 * i + 1]
        == spec_action_line(spec_dispatch(nodes[i])) by {
        lemma_node_lines_at(nodes, nodes.len() as int, i);
    }
}

/// An unrecognized kind tag is not fatal: the run's report still covers
/// every node, and the unknown node contributes exactly one warning
/// line naming its tag.
pub proof fn lemma_unknown_kind_nonfatal(nodes: Seq<WorkflowNode>, r: ExecutionResult, i: int)
    requires
        spec_is_run_report(nodes, r),
        0 <= i < nodes.len(),
        !spec_known_kind(nodes[i].kind@),
    ensures
        r.success,
        r.logs.deep_view().len() == 2 * nodes.len(),
        r.logs.deep_view()[2 * i + 1] == "Unknown node type: "@ + nodes[i].kind@,
{
    lemma_logs_upto_len(nodes, nodes.len() as int);
    lemma_node_lines_at(nodes, nodes.len() as int, i);
}

/// Processing more nodes only appends log lines: the log of a shorter
/// processed prefix is a prefix of the log of a longer one, so lines
/// already emitted never move or change.
pub proof fn lemma_logs_monotone(nodes: Seq<WorkflowNode>, k1: int, k2: int)
    requires
        0 <= k1 <= k2,
    ensures
        spec_logs_upto(nodes, k1) == spec_logs_upto(nodes, k2).take(2 * k1),
    decreases k2 - k1,
{
    lemma_logs_upto_len(nodes, k1);
    lemma_logs_upto_len(nodes, k2);
    if k1 == k2 {
        assert(spec_logs_upto(nodes, k1) =~= spec_logs_upto(nodes, k2).take(2 * k1));
    } else {
        lemma_logs_monotone(nodes, k1, k2 - 1);
        lemma_logs_upto_len(nodes, k2 - 1);
        assert(spec_logs_upto(nodes, k2).take(2 * k1) =~= spec_logs_upto(nodes, k2 - 1).take(
            2 * k1,
        ));
    }
}

/// Running the same node sequence twice yields reports with identical
/// content: the report is a function of the node sequence alone.
pub proof fn lemma_run_deterministic(
    nodes: Seq<WorkflowNode>,
    r1: ExecutionResult,
    r2: ExecutionResult,
)
    requires
        spec_is_run_report(nodes, r1),
        spec_is_run_report(nodes, r2),
    ensures
        r1.success == r2.success,
        r1.message@ == r2.message@,
        r1.logs.deep_view() == r2.logs.deep_view(),
{
}

/// Builds the success message for a run of `n` nodes.
fn success_message(n: u64) -> (r: String)
    ensures
        r@ == spec_success_message(n as int),
{
    let mut s = String::from_str("Executed ");
    let d = u64_to_string(n);
    s.append(d.as_str());
    s.append(" nodes successfully.");
    proof {
        assert(s@ =~= spec_success_message(n as int));
    }
    s
}

/// Runs a workflow in simulated form: every node is dispatched in
/// order, every handler only reports what it would do, and no handler
/// can fail, so the report always covers the whole sequence.
pub fn run_workflow(nodes: &Vec<WorkflowNode>) -> (r: ExecutionResult)
    ensures
        spec_is_run_report(nodes@, r),
{
    let mut logs: Vec<String> = Vec::new();
    let mut i: usize = 0;
    proof {
        assert(logs.deep_view() =~= spec_logs_upto(nodes@, 0));
    }
    while i < nodes.len()
        invariant
            i <= nodes@.len(),
            logs.deep_view() == spec_logs_upto(nodes@, i as int),
        decreases nodes@.len() - i,
    {
        let node = &nodes[i];
        logs.push(processing_line(node));
        let a = dispatch(node);
        logs.push(action_line(&a));
        proof {
            assert(logs.deep_view() =~= spec_logs_upto(nodes@, i as int + 1));
        }
        i = i + 1;
    }
    let message = success_message(nodes.len() as u64);
    ExecutionResult { success: true, message, logs }
}

/// Where a run stands: `Idle` does not appear because an executor is
/// only constructed at invocation, which is the `Idle → Running` step.
#[derive(Clone, Copy, Debug, PartialEq, Eq, Structural)]
pub enum RunStatus {
    /// Nodes remain and no fatal error has occurred.
    Running,
    /// The sequence was exhausted without a fatal error.
    Completed,
    /// A backend rejected an action; the rest of the run was dropped.
    Failed,
}

/// The state machine a driver steps through when actions are really
/// performed: strictly one node at a time, in listed order, stopping at
/// the first backend failure.
pub struct Executor {
    /// The sequence being run, in execution order.
    pub nodes: Vec<WorkflowNode>,
    /// How many nodes are fully processed.
    pub pos: usize,
    /// The report lines gathered so far.
    pub logs: Vec<String>,
    /// Where the run stands.
    pub status: RunStatus,
    /// The final message; empty while the run is still going.
    pub message: String,
}

impl Executor {
    /// The executor's invariant: the position never passes the end,
    /// `Running` means a node is pending, and the gathered log is
    /// exactly the log of the processed prefix — plus, after a failure,
    /// the announcement of the node that failed, whose handler line
    /// (its success line) is deliberately absent.
    pub open spec fn wf(self) -> bool {
        &&& self.pos <= self.nodes@.len()
        &&& match self.status {
            RunStatus::Running => self.pos < self.nodes@.len() && self.logs.deep_view()
                == spec_logs_upto(self.nodes@, self.pos as int),
            RunStatus::Completed => self.pos == self.nodes@.len() && self.logs.deep_view()
                == spec_run_logs(self.nodes@) && self.message@ == spec_success_message(
                self.nodes@.len() as int,
            ),
            RunStatus::Failed => self.pos < self.nodes@.len() && self.logs.deep_view()
                == spec_logs_upto(self.nodes@, self.pos as int) + seq![
                spec_processing_line(self.nodes@[self.pos as int]),
            ],
        }
    }

    /// Starts a run over `nodes`: an empty sequence completes at once.
    pub fn new(nodes: Vec<WorkflowNode>) -> (e: Executor)
        ensures
            e.wf(),
            e.nodes@ == nodes@,
            e.pos == 0,
            e.status is Completed <==> nodes@.len() == 0,
            e.status is Running <==> nodes@.len() > 0,
    {
        let logs: Vec<String> = Vec::new();
        proof {
            assert(logs.deep_view() =~= spec_logs_upto(nodes@, 0));
        }
        if nodes.is_empty() {
            let message = success_message(0);
            Executor { nodes, pos: 0, logs, status: RunStatus::Completed, message }
        } else {
            Executor { nodes, pos: 0, logs, status: RunStatus::Running, message: String::new() }
        }
    }

    /// The action the pending node resolves to, or `None` once the run
    /// is over.
    pub fn next_action(&self) -> (a: Option<Action>)
        requires
            self.wf(),
        ensures
            match a {
                Some(act) => self.status is Running && act@ == spec_dispatch(
                    self.nodes@[self.pos as int],
                ),
                None => !(self.status is Running),
            },
    {
        match self.status {
            RunStatus::Running => Some(dispatch(&self.nodes[self.pos])),
            _ => None,
        }
    }

    /// Records that the backend performed the pending node's action:
    /// both of the node's lines join the log, and the run completes
    /// when it was the last node.
    pub fn record_success(&mut self)
        requires
            old(self).wf(),
            old(self).status is Running,
        ensures
            final(self).wf(),
            final(self).nodes@ == old(self).nodes@,
            final(self).pos == old(self).pos + 1,
            final(self).logs.deep_view() == spec_logs_upto(
                old(self).nodes@,
                old(self).pos + 1,
            ),
            final(self).status is Completed <==> old(self).pos + 1 == old(self).nodes@.len(),
            final(self).status is Running <==> old(self).pos + 1 < old(self).nodes@.len(),
    {
        let p = processing_line(&self.nodes[self.pos]);
        self.logs.push(p);
        let a = dispatch(&self.nodes[self.pos]);
        let l = action_line(&a);
        self.logs.push(l);
        proof {
            assert(self.logs.deep_view() =~= spec_logs_upto(
                self.nodes@,
                self.pos as int + 1,
            ));
        }
        let total = self.nodes.len();
        proof {
            assert(self.pos < total);
        }
        self.pos = self.pos + 1;
        if self.pos == total {
            self.status = RunStatus::Completed;
            self.message = success_message(self.pos as u64);
        }
    }

    /// Records that the backend rejected the pending node's action with
    /// `error`. The failure is fatal: the node's announcement joins the
    /// log, its success line does not, no later node will run, and the
    /// message describes the failure.
    pub fn record_failure(&mut self, error: &str)
        requires
            old(self).wf(),
            old(self).status is Running,
        ensures
            final(self).wf(),
            final(self).nodes@ == old(self).nodes@,
            final(self).pos == old(self).pos,
            final(self).status is Failed,
            final(self).logs.deep_view() == spec_logs_upto(old(self).nodes@, old(self).pos as int)
                + seq![spec_processing_line(old(self).nodes@[old(self).pos as int])],
            final(self).message@ == spec_failure_message(
                old(self).nodes@[old(self).pos as int],
                error@,
            ),
    {
        let p = processing_line(&self.nodes[self.pos]);
        self.logs.push(p);
        proof {
            assert(self.logs.deep_view() =~= spec_logs_upto(self.nodes@, self.pos as int)
                + seq![spec_processing_line(self.nodes@[self.pos as int])]);
        }
        let mut m = String::from_str("Node ");
        m.append(self.nodes[self.pos].id.as_str());
        m.append(" failed: ");
        m.append(error);
        proof {
            assert(m@ =~= spec_failure_message(self.nodes@[self.pos as int], error@));
        }
        self.message = m;
        self.status = RunStatus::Failed;
    }

    /// Hands the finished run's report to the caller.
    pub fn into_report(self) -> (r: ExecutionResult)
        requires
            self.wf(),
            !(self.status is Running),
        ensures
            r.success <==> self.status is Completed,
            r.message@ == self.message@,
            r.logs.deep_view() == self.logs.deep_view(),
    {
        let success = match self.status {
            RunStatus::Completed => true,
            _ => false,
        };
        ExecutionResult { success, message: self.message, logs: self.logs }
    }
}

/// A fatal failure keeps exactly the partial log: both lines of every
/// node completed before the abort, then the failing node's
/// announcement, and nothing more — in particular no success line for
/// the failing node's own action, and no line of any later node.
pub proof fn lemma_failure_keeps_partial_logs(e: Executor)
    requires
        e.wf(),
        e.status is Failed,
    ensures
        e.logs.deep_view().len() == 2 * e.pos + 1,
        e.logs.deep_view().take(2 * e.pos as int) == spec_logs_upto(e.nodes@, e.pos as int),
        e.logs.deep_view().last() == spec_processing_line(e.nodes@[e.pos as int]),
{
    lemma_logs_upto_len(e.nodes@, e.pos as int);
    assert(e.logs.deep_view().take(2 * e.pos as int) =~= spec_logs_upto(
        e.nodes@,
        e.pos as int,
    ));
}

/// A completed executor run reports exactly what the simulated run of
/// the same sequence reports: the two variants share one semantics.
pub proof fn lemma_completed_run_matches_simulation(e: Executor, r: ExecutionResult)
    requires
        e.wf(),
        e.status is Completed,
        spec_is_run_report(e.nodes@, r),
    ensures
        e.logs.deep_view() == r.logs.deep_view(),
        e.message@ == r.message@,
{
}

} // verus!
