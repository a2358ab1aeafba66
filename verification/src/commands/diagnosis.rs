//! The diagnosis: the network plugin, the nodes and the pods of a
//! cluster, each looked at within its own time budget.

use vstd::prelude::*;
use vstd::string::StringExecFns;

use crate::cluster::{
    reply_error, timed_error, ApiReply, ApiRequest, ApiRequestView, ClusterStep, ClusterStepView,
    ObjectInfo, ResourceKind, Scope, ScopeView,
};
use crate::commands::cni::{detect_cni, detected_cni};
use crate::errors::{display_text, ErrorView, NetInspectError};
use crate::text::{join, string_text, text_of};

verus! {

/// The seconds allowed for listing the nodes for the detection of the
/// network plugin.
pub const CNI_BUDGET_SECS: u64 = 30;

/// The seconds allowed for counting the nodes.
pub const NODE_COUNT_BUDGET_SECS: u64 = 15;

/// The seconds allowed for counting the pods.
pub const POD_COUNT_BUDGET_SECS: u64 = 15;

/// What a diagnosis has found.
#[derive(Debug, Clone, PartialEq, Eq)]
pub struct DiagnosisReport {
    /// The namespace the pods are counted in; the whole cluster if
    /// none.
    pub namespace_scope: Option<String>,
    /// The network plugin detected, once the nodes were listed.
    pub cni_name: Option<String>,
    /// The number of nodes, once they were counted.
    pub node_count: Option<usize>,
    /// The warning of a cluster found without nodes. The diagnosis
    /// goes on all the same.
    pub node_warning: Option<String>,
    /// The number of pods in scope, if they could be counted.
    pub pod_count: Option<usize>,
    /// Why the pods could not be counted, if they could not. The
    /// diagnosis succeeds all the same.
    pub pod_warning: Option<String>,
}

/// The model of a [`DiagnosisReport`].
pub struct DiagnosisReportView {
    pub namespace_scope: Option<Seq<char>>,
    pub cni_name: Option<Seq<char>>,
    pub node_count: Option<usize>,
    pub node_warning: Option<Seq<char>>,
    pub pod_count: Option<usize>,
    pub pod_warning: Option<Seq<char>>,
}

impl View for DiagnosisReport {
    type V = DiagnosisReportView;

    open spec fn view(&self) -> DiagnosisReportView {
        DiagnosisReportView {
            namespace_scope: string_text(self.namespace_scope),
            cni_name: string_text(self.cni_name),
            node_count: self.node_count,
            node_warning: string_text(self.node_warning),
            pod_count: self.pod_count,
            pod_warning: string_text(self.pod_warning),
        }
    }
}

/// Where a diagnosis stands: what it has found, and what it wants
/// next.
#[derive(Debug, PartialEq, Eq)]
pub struct DiagnosisStep {
    pub report: DiagnosisReport,
    pub next: ClusterStep,
}

/// The message of the timeout of the detection of the network plugin.
pub const CNI_TIMED_OUT: &'static str = "CNI detection timed out after 30 seconds";

/// The message of the timeout of the count of the nodes.
pub const NODE_COUNT_TIMED_OUT: &'static str = "Node listing timed out after 15 seconds";

/// The warning of a cluster found without nodes.
pub const NO_NODES_FOUND: &'static str = "No nodes found in cluster";

/// The warning of a count of the pods that timed out.
pub const POD_COUNT_TIMED_OUT: &'static str = "Pod listing timed out after 15 seconds";

/// The objects of a list reply; none for any other reply.
pub open spec fn listed_items(reply: ApiReply) -> Seq<ObjectInfo> {
    match reply {
        ApiReply::Listed(items) => items@,
        _ => Seq::<ObjectInfo>::empty(),
    }
}

/// The request that lists all objects of a kind within a time budget.
pub open spec fn list_all(resource: ResourceKind, scope: ScopeView, budget_secs: u64)
    -> ApiRequestView {
    ApiRequestView::List { resource, scope, limit: None, budget_secs: Some(budget_secs) }
}

/// Where the pods of a diagnosis are counted: in the namespace given,
/// else in the whole cluster.
pub open spec fn pod_count_scope(namespace: Option<Seq<char>>) -> ScopeView {
    match namespace {
        Some(name) => ScopeView::Namespace(name),
        None => ScopeView::Cluster,
    }
}

/// The steps of a diagnosis, in the order they are taken.
#[derive(Clone, Copy, Debug, PartialEq, Eq, Structural)]
pub enum DiagnosisStage {
    /// The creation of the client.
    Client,
    /// The listing of the nodes for the detection of the network
    /// plugin.
    CniDetection,
    /// The count of the nodes.
    NodeCount,
    /// The count of the pods.
    PodCount,
}

/// How one step of a diagnosis ended.
#[derive(Debug, PartialEq, Eq)]
pub enum StepOutcome {
    /// The step did its work.
    Passed,
    /// The step failed, but the diagnosis goes on without what the
    /// step would have found; the text says what is missing.
    Degraded(String),
    /// The step failed, and the diagnosis with it.
    Fatal(NetInspectError),
}

/// The model of a [`StepOutcome`].
pub enum StepOutcomeView {
    Passed,
    Degraded(Seq<char>),
    Fatal(ErrorView),
}

impl View for StepOutcome {
    type V = StepOutcomeView;

    open spec fn view(&self) -> StepOutcomeView {
        match self {
            StepOutcome::Passed => StepOutcomeView::Passed,
            StepOutcome::Degraded(warning) => StepOutcomeView::Degraded(warning@),
            StepOutcome::Fatal(error) => StepOutcomeView::Fatal(error@),
        }
    }
}

/// The warning that a failed count of the pods leaves in the report.
pub open spec fn pod_count_warning(reply: ApiReply) -> Option<Seq<char>> {
    match reply {
        ApiReply::TimedOut => Some(POD_COUNT_TIMED_OUT@),
        _ => match reply_error(reply) {
            Some(error) => Some("Failed to check pods: "@ + display_text(error.kind, error.message)),
            None => None,
        },
    }
}

/// How a step of a diagnosis ends on the reply to its request. A
/// failure of the count of the pods degrades the diagnosis; a failure
/// of any other step is fatal. An elapsed deadline is reported with
/// the message of the step.
pub open spec fn stage_outcome(stage: DiagnosisStage, reply: ApiReply) -> StepOutcomeView {
    match stage {
        DiagnosisStage::Client => match reply_error(reply) {
            Some(error) => StepOutcomeView::Fatal(error),
            None => StepOutcomeView::Passed,
        },
        DiagnosisStage::CniDetection => match timed_error(reply, CNI_TIMED_OUT@) {
            Some(error) => StepOutcomeView::Fatal(error),
            None => StepOutcomeView::Passed,
        },
        DiagnosisStage::NodeCount => match timed_error(reply, NODE_COUNT_TIMED_OUT@) {
            Some(error) => StepOutcomeView::Fatal(error),
            None => StepOutcomeView::Passed,
        },
        DiagnosisStage::PodCount => match pod_count_warning(reply) {
            Some(warning) => StepOutcomeView::Degraded(warning),
            None => StepOutcomeView::Passed,
        },
    }
}

/// The request of a step of a diagnosis: the creation of the client;
/// a list of all nodes within 30 seconds; a list of all nodes within
/// 15 seconds; a list of the pods in scope within 15 seconds.
pub open spec fn stage_request(stage: DiagnosisStage, namespace: Option<Seq<char>>)
    -> ApiRequestView {
    match stage {
        DiagnosisStage::Client => ApiRequestView::Connect,
        DiagnosisStage::CniDetection => list_all(
            ResourceKind::Nodes,
            ScopeView::Cluster,
            CNI_BUDGET_SECS,
        ),
        DiagnosisStage::NodeCount => list_all(
            ResourceKind::Nodes,
            ScopeView::Cluster,
            NODE_COUNT_BUDGET_SECS,
        ),
        DiagnosisStage::PodCount => list_all(
            ResourceKind::Pods,
            pod_count_scope(namespace),
            POD_COUNT_BUDGET_SECS,
        ),
    }
}

/// The step that the reply at the given place answers.
pub open spec fn stage_at(place: int) -> DiagnosisStage {
    if place <= 0 {
        DiagnosisStage::Client
    } else if place == 1 {
        DiagnosisStage::CniDetection
    } else if place == 2 {
        DiagnosisStage::NodeCount
    } else {
        DiagnosisStage::PodCount
    }
}

/// How many steps of the diagnosis have been answered without a fatal
/// failure, counting from the first and up to the first step whose
/// reply is missing or fatal.
pub open spec fn stages_passed(replies: Seq<ApiReply>) -> nat {
    if replies.len() < 1 || stage_outcome(DiagnosisStage::Client, replies[0]) is Fatal {
        0
    } else if replies.len() < 2 || stage_outcome(DiagnosisStage::CniDetection, replies[1]) is Fatal {
        1
    } else if replies.len() < 3 || stage_outcome(DiagnosisStage::NodeCount, replies[2]) is Fatal {
        2
    } else if replies.len() < 4 || stage_outcome(DiagnosisStage::PodCount, replies[3]) is Fatal {
        3
    } else {
        4
    }
}

/// What the diagnosis wants after the replies received so far: the
/// failure of the first step that failed fatally; else the request of
/// the first step without a reply; else, all four steps being
/// answered, nothing more: the diagnosis has succeeded.
pub open spec fn diagnosis_next(namespace: Option<Seq<char>>, replies: Seq<ApiReply>)
    -> ClusterStepView {
    let passed = stages_passed(replies);
    if passed == 4 {
        ClusterStepView::Finished(Ok(()))
    } else if passed < replies.len() {
        ClusterStepView::Finished(
            Err(stage_outcome(stage_at(passed as int), replies[passed as int])->Fatal_0),
        )
    } else {
        ClusterStepView::Ask(stage_request(stage_at(passed as int), namespace))
    }
}

/// What the diagnosis has found after the replies received so far.
pub open spec fn diagnosis_report(namespace: Option<Seq<char>>, replies: Seq<ApiReply>)
    -> DiagnosisReportView {
    let passed = stages_passed(replies);
    DiagnosisReportView {
        namespace_scope: namespace,
        cni_name: if passed >= 2 {
            Some(detected_cni(listed_items(replies[1])))
        } else {
            None
        },
        node_count: if passed >= 3 {
            Some(listed_items(replies[2]).len() as usize)
        } else {
            None
        },
        node_warning: if passed >= 3 && listed_items(replies[2]).len() == 0 {
            Some(NO_NODES_FOUND@)
        } else {
            None
        },
        pod_count: if passed == 4 && pod_count_warning(replies[3]) is None {
            Some(listed_items(replies[3]).len() as usize)
        } else {
            None
        },
        pod_warning: if passed == 4 {
            pod_count_warning(replies[3])
        } else {
            None
        },
    }
}

/// Only the count of the pods can degrade a diagnosis, and it can
/// never fail it.
pub proof fn lemma_only_the_pod_count_degrades(stage: DiagnosisStage, reply: ApiReply)
    ensures
        stage == DiagnosisStage::PodCount ==> !(stage_outcome(stage, reply) is Fatal),
        stage != DiagnosisStage::PodCount ==> !(stage_outcome(stage, reply) is Degraded),
{
}

/// A diagnosis that has its four replies succeeds exactly if the
/// client was created, the nodes were listed and the nodes were
/// counted; how the count of the pods ends changes nothing but the
/// report.
pub proof fn lemma_diagnosis_outcome(namespace: Option<Seq<char>>, replies: Seq<ApiReply>)
    requires
        replies.len() >= 4,
    ensures
        diagnosis_next(namespace, replies) == ClusterStepView::Finished(Ok(())) <==> (
        stage_outcome(DiagnosisStage::Client, replies[0]) is Passed && stage_outcome(
            DiagnosisStage::CniDetection,
            replies[1],
        ) is Passed && stage_outcome(DiagnosisStage::NodeCount, replies[2]) is Passed),
        diagnosis_next(namespace, replies) is Finished,
        diagnosis_next(namespace, replies) == diagnosis_next(
            namespace,
            replies.update(3, ApiReply::TimedOut),
        ),
{
}

/// A diagnosis asks for nothing after a fatal failure: once a step
/// has failed fatally, the failure is the outcome, whatever replies
/// follow.
pub proof fn lemma_fatal_step_ends_diagnosis(
    namespace: Option<Seq<char>>,
    replies: Seq<ApiReply>,
    place: int,
)
    requires
        0 <= place < replies.len(),
        place < 4,
        stages_passed(replies.take(place)) == place,
        stage_outcome(stage_at(place), replies[place]) is Fatal,
    ensures
        diagnosis_next(namespace, replies) == ClusterStepView::Finished(
            Err(stage_outcome(stage_at(place), replies[place])->Fatal_0),
        ),
        diagnosis_next(namespace, replies) == diagnosis_next(namespace, replies.take(place + 1)),
{
}

/// The objects of a list reply; none for any other reply.
fn items_of(reply: &ApiReply) -> (items: &[ObjectInfo])
    ensures
        items@ == listed_items(*reply),
{
    match reply {
        ApiReply::Listed(items) => items.as_slice(),
        _ => {
            let none: &[ObjectInfo] = &[];
            none
        },
    }
}

/// A request that lists all objects of a kind within a time budget.
fn list_all_request(resource: ResourceKind, scope: Scope, budget_secs: u64) -> (request: ApiRequest)
    ensures
        request@ == list_all(resource, scope@, budget_secs),
{
    ApiRequest::List { resource, scope, limit: None, budget_secs: Some(budget_secs) }
}

/// An owned copy of an optional string slice.
fn own_text(text: Option<&str>) -> (copy: Option<String>)
    ensures
        string_text(copy) == text_of(text),
{
    match text {
        Some(t) => Some(String::from_str(t)),
        None => None,
    }
}

/// Judges the reply to a step of a diagnosis.
pub fn judge_stage(stage: DiagnosisStage, reply: &ApiReply) -> (outcome: StepOutcome)
    ensures
        outcome@ == stage_outcome(stage, *reply),
{
    match stage {
        DiagnosisStage::Client => match reply.error() {
            Some(error) => StepOutcome::Fatal(error),
            None => StepOutcome::Passed,
        },
        DiagnosisStage::CniDetection => match reply.error_within(CNI_TIMED_OUT) {
            Some(error) => StepOutcome::Fatal(error),
            None => StepOutcome::Passed,
        },
        DiagnosisStage::NodeCount => match reply.error_within(NODE_COUNT_TIMED_OUT) {
            Some(error) => StepOutcome::Fatal(error),
            None => StepOutcome::Passed,
        },
        DiagnosisStage::PodCount => match reply {
            ApiReply::TimedOut => StepOutcome::Degraded(String::from_str(POD_COUNT_TIMED_OUT)),
            _ => match reply.error() {
                Some(error) => StepOutcome::Degraded(
                    join("Failed to check pods: ", error.display_string().as_str()),
                ),
                None => StepOutcome::Passed,
            },
        },
    }
}

/// The request of a step of a diagnosis.
fn request_of(stage: DiagnosisStage, namespace: Option<&str>) -> (request: ApiRequest)
    ensures
        request@ == stage_request(stage, text_of(namespace)),
{
    match stage {
        DiagnosisStage::Client => ApiRequest::Connect,
        DiagnosisStage::CniDetection => list_all_request(
            ResourceKind::Nodes,
            Scope::Cluster,
            CNI_BUDGET_SECS,
        ),
        DiagnosisStage::NodeCount => list_all_request(
            ResourceKind::Nodes,
            Scope::Cluster,
            NODE_COUNT_BUDGET_SECS,
        ),
        DiagnosisStage::PodCount => {
            let scope = match namespace {
                Some(name) => Scope::Namespace(String::from_str(name)),
                None => Scope::Cluster,
            };
            list_all_request(ResourceKind::Pods, scope, POD_COUNT_BUDGET_SECS)
        },
    }
}

/// One step of the diagnosis, given the replies to the requests asked
/// for so far, in order: what has been found, and what to do next.
pub fn diagnose(namespace: Option<&str>, replies: &[ApiReply]) -> (step: DiagnosisStep)
    ensures
        step.report@ == diagnosis_report(text_of(namespace), replies@),
        step.next@ == diagnosis_next(text_of(namespace), replies@),
{
    let mut report = DiagnosisReport {
        namespace_scope: own_text(namespace),
        cni_name: None,
        node_count: None,
        node_warning: None,
        pod_count: None,
        pod_warning: None,
    };
    if replies.len() == 0 {
        return DiagnosisStep {
            report,
            next: ClusterStep::Ask(request_of(DiagnosisStage::Client, namespace)),
        };
    }
    match judge_stage(DiagnosisStage::Client, &replies[0]) {
        StepOutcome::Fatal(error) => {
            return DiagnosisStep { report, next: ClusterStep::Finished(Err(error)) };
        },
        _ => {},
    }
    if replies.len() == 1 {
        return DiagnosisStep {
            report,
            next: ClusterStep::Ask(request_of(DiagnosisStage::CniDetection, namespace)),
        };
    }
    match judge_stage(DiagnosisStage::CniDetection, &replies[1]) {
        StepOutcome::Fatal(error) => {
            return DiagnosisStep { report, next: ClusterStep::Finished(Err(error)) };
        },
        _ => {},
    }
    report.cni_name = Some(detect_cni(items_of(&replies[1])));
    if replies.len() == 2 {
        return DiagnosisStep {
            report,
            next: ClusterStep::Ask(request_of(DiagnosisStage::NodeCount, namespace)),
        };
    }
    match judge_stage(DiagnosisStage::NodeCount, &replies[2]) {
        StepOutcome::Fatal(error) => {
            return DiagnosisStep { report, next: ClusterStep::Finished(Err(error)) };
        },
        _ => {},
    }
    let node_count = items_of(&replies[2]).len();
    report.node_count = Some(node_count);
    if node_count == 0 {
        report.node_warning = Some(String::from_str(NO_NODES_FOUND));
    }
    if replies.len() == 3 {
        return DiagnosisStep {
            report,
            next: ClusterStep::Ask(request_of(DiagnosisStage::PodCount, namespace)),
        };
    }
    match judge_stage(DiagnosisStage::PodCount, &replies[3]) {
        StepOutcome::Degraded(warning) => {
            report.pod_warning = Some(warning);
        },
        _ => {
            report.pod_count = Some(items_of(&replies[3]).len());
        },
    }
    DiagnosisStep { report, next: ClusterStep::Finished(Ok(())) }
}

} // verus!
