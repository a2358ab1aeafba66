//! Detection of the cluster's network plugin from the metadata of its
//! nodes.

use vstd::prelude::*;
use vstd::string::StringExecFns;

use crate::cluster::ObjectInfo;
use crate::text::{contains, contains_text, text_of};

verus! {

/// What the detection reports for a cluster without nodes.
pub const CNI_NO_NODES: &'static str = "No nodes available for CNI detection";

/// What the detection reports where no node gives a hint.
pub const CNI_UNKNOWN: &'static str = "Unknown CNI";

/// Whether one of the keys contains the pattern.
pub open spec fn any_key_contains(keys: Seq<String>, pattern: Seq<char>) -> bool {
    exists|i: int| 0 <= i < keys.len() && contains_text((#[trigger] keys[i])@, pattern)
}

/// The network plugin that a node's annotation keys name, if any:
/// Calico before Flannel before Weave Net before Cilium.
pub open spec fn annotation_cni(node: ObjectInfo) -> Option<Seq<char>> {
    let keys = node.annotation_keys@;
    if any_key_contains(keys, "calico"@) || any_key_contains(keys, "projectcalico"@) {
        Some("Calico"@)
    } else if any_key_contains(keys, "flannel"@) {
        Some("Flannel"@)
    } else if any_key_contains(keys, "weave"@) {
        Some("Weave Net"@)
    } else if any_key_contains(keys, "cilium"@) {
        Some("Cilium"@)
    } else {
        None
    }
}

/// The generic label that a node's container runtime suggests, if the
/// node reports a runtime that is containerd or docker.
pub open spec fn runtime_cni(node: ObjectInfo) -> Option<Seq<char>> {
    match node.status {
        Some(status) => match status.container_runtime {
            Some(runtime) => if contains_text(runtime@, "containerd"@) {
                Some("Generic CNI (containerd)"@)
            } else if contains_text(runtime@, "docker"@) {
                Some("Generic CNI (docker)"@)
            } else {
                None
            },
            None => None,
        },
        None => None,
    }
}

/// The plugin named by the annotations of the first node, in list
/// order, whose annotations name one.
pub open spec fn first_annotation_cni(nodes: Seq<ObjectInfo>) -> Option<Seq<char>>
    decreases nodes.len(),
{
    if nodes.len() == 0 {
        None
    } else {
        match annotation_cni(nodes[0]) {
            Some(name) => Some(name),
            None => first_annotation_cni(nodes.skip(1)),
        }
    }
}

/// The label suggested by the runtime of the first node, in list
/// order, whose runtime suggests one.
pub open spec fn first_runtime_cni(nodes: Seq<ObjectInfo>) -> Option<Seq<char>>
    decreases nodes.len(),
{
    if nodes.len() == 0 {
        None
    } else {
        match runtime_cni(nodes[0]) {
            Some(name) => Some(name),
            None => first_runtime_cni(nodes.skip(1)),
        }
    }
}

/// The network plugin detected from the nodes of a cluster: what the
/// first annotated node names; failing that, what the first known
/// runtime suggests; failing that, unknown.
pub open spec fn detected_cni(nodes: Seq<ObjectInfo>) -> Seq<char> {
    if nodes.len() == 0 {
        CNI_NO_NODES@
    } else {
        match first_annotation_cni(nodes) {
            Some(name) => name,
            None => match first_runtime_cni(nodes) {
                Some(name) => name,
                None => CNI_UNKNOWN@,
            },
        }
    }
}

/// What decided a detection.
#[derive(Clone, Copy, Debug, PartialEq, Eq, Structural)]
pub enum CniEvidence {
    /// The cluster has no nodes.
    NoNodes,
    /// The annotations of the node at this place in the list.
    Annotations { node: usize },
    /// The container runtime of the node at this place in the list.
    Runtime { node: usize },
    /// No node gave a hint.
    Nothing,
}

/// The outcome of a detection: the name of the plugin, and what
/// decided it.
#[derive(Debug, Clone, PartialEq, Eq)]
pub struct CniClassification {
    pub name: String,
    pub evidence: CniEvidence,
}

/// Whether `evidence` is what decides the detection on `nodes`: the
/// first node, in list order, whose annotations name a plugin; where
/// there is none, the first node whose runtime suggests a label.
pub open spec fn evidence_holds(nodes: Seq<ObjectInfo>, evidence: CniEvidence) -> bool {
    match evidence {
        CniEvidence::NoNodes => nodes.len() == 0,
        CniEvidence::Annotations { node } => {
            &&& node < nodes.len()
            &&& annotation_cni(nodes[node as int]) is Some
            &&& forall|j: int| 0 <= j < node ==> annotation_cni(#[trigger] nodes[j]) is None
        },
        CniEvidence::Runtime { node } => {
            &&& node < nodes.len()
            &&& forall|j: int| 0 <= j < nodes.len() ==> annotation_cni(#[trigger] nodes[j]) is None
            &&& runtime_cni(nodes[node as int]) is Some
            &&& forall|j: int| 0 <= j < node ==> runtime_cni(#[trigger] nodes[j]) is None
        },
        CniEvidence::Nothing => {
            &&& nodes.len() > 0
            &&& forall|j: int| 0 <= j < nodes.len() ==> annotation_cni(#[trigger] nodes[j]) is None
            &&& forall|j: int| 0 <= j < nodes.len() ==> runtime_cni(#[trigger] nodes[j]) is None
        },
    }
}

/// The name that goes with a piece of evidence.
pub open spec fn evidence_name(nodes: Seq<ObjectInfo>, evidence: CniEvidence) -> Seq<char> {
    match evidence {
        CniEvidence::NoNodes => CNI_NO_NODES@,
        CniEvidence::Annotations { node } => annotation_cni(nodes[node as int])->Some_0,
        CniEvidence::Runtime { node } => runtime_cni(nodes[node as int])->Some_0,
        CniEvidence::Nothing => CNI_UNKNOWN@,
    }
}

/// The first node in list order whose annotations name a plugin
/// decides the detection, whatever the nodes after it say.
pub proof fn lemma_first_annotated_node_wins(nodes: Seq<ObjectInfo>, index: int)
    requires
        0 <= index < nodes.len(),
        annotation_cni(nodes[index]) is Some,
        forall|j: int| 0 <= j < index ==> annotation_cni(#[trigger] nodes[j]) is None,
    ensures
        detected_cni(nodes) == annotation_cni(nodes[index])->Some_0,
        first_annotation_cni(nodes) == annotation_cni(nodes[index]),
    decreases index,
{
    if index > 0 {
        let rest = nodes.skip(1);
        assert forall|j: int| 0 <= j < index - 1 implies annotation_cni(#[trigger] rest[j]) is None by {}
        lemma_first_annotated_node_wins(rest, index - 1);
    }
}

/// Where no node's annotations name a plugin, none is found by them.
proof fn lemma_no_annotated_node(nodes: Seq<ObjectInfo>)
    requires
        forall|j: int| 0 <= j < nodes.len() ==> annotation_cni(#[trigger] nodes[j]) is None,
    ensures
        first_annotation_cni(nodes) is None,
    decreases nodes.len(),
{
    if nodes.len() > 0 {
        let rest = nodes.skip(1);
        assert forall|j: int| 0 <= j < rest.len() implies annotation_cni(#[trigger] rest[j]) is None by {}
        lemma_no_annotated_node(rest);
    }
}

/// Where no node's runtime suggests a label, none is found by them.
proof fn lemma_no_known_runtime(nodes: Seq<ObjectInfo>)
    requires
        forall|j: int| 0 <= j < nodes.len() ==> runtime_cni(#[trigger] nodes[j]) is None,
    ensures
        first_runtime_cni(nodes) is None,
    decreases nodes.len(),
{
    if nodes.len() > 0 {
        let rest = nodes.skip(1);
        assert forall|j: int| 0 <= j < rest.len() implies runtime_cni(#[trigger] rest[j]) is None by {}
        lemma_no_known_runtime(rest);
    }
}

/// The first node in list order whose runtime suggests a label is
/// the one whose label is found by the runtimes.
proof fn lemma_first_known_runtime(nodes: Seq<ObjectInfo>, index: int)
    requires
        0 <= index < nodes.len(),
        runtime_cni(nodes[index]) is Some,
        forall|j: int| 0 <= j < index ==> runtime_cni(#[trigger] nodes[j]) is None,
    ensures
        first_runtime_cni(nodes) == runtime_cni(nodes[index]),
    decreases index,
{
    if index > 0 {
        let rest = nodes.skip(1);
        assert forall|j: int| 0 <= j < index - 1 implies runtime_cni(#[trigger] rest[j]) is None by {}
        lemma_first_known_runtime(rest, index - 1);
    }
}

/// What decides a detection also names its result: annotations
/// anywhere in the list come before the runtime of any node.
pub proof fn lemma_evidence_names_the_plugin(nodes: Seq<ObjectInfo>, evidence: CniEvidence)
    requires
        evidence_holds(nodes, evidence),
    ensures
        detected_cni(nodes) == evidence_name(nodes, evidence),
{
    match evidence {
        CniEvidence::NoNodes => {},
        CniEvidence::Annotations { node } => {
            lemma_first_annotated_node_wins(nodes, node as int);
        },
        CniEvidence::Runtime { node } => {
            lemma_no_annotated_node(nodes);
            lemma_first_known_runtime(nodes, node as int);
        },
        CniEvidence::Nothing => {
            lemma_no_annotated_node(nodes);
            lemma_no_known_runtime(nodes);
        },
    }
}

/// No two pieces of evidence decide the same detection.
pub proof fn lemma_evidence_is_unique(nodes: Seq<ObjectInfo>, a: CniEvidence, b: CniEvidence)
    requires
        evidence_holds(nodes, a),
        evidence_holds(nodes, b),
    ensures
        a == b,
{
    match (a, b) {
        (CniEvidence::Annotations { node: i }, CniEvidence::Annotations { node: k }) => {
            if i < k {
                assert(annotation_cni(nodes[i as int]) is None);
            } else if k < i {
                assert(annotation_cni(nodes[k as int]) is None);
            }
        },
        (CniEvidence::Runtime { node: i }, CniEvidence::Runtime { node: k }) => {
            if i < k {
                assert(runtime_cni(nodes[i as int]) is None);
            } else if k < i {
                assert(runtime_cni(nodes[k as int]) is None);
            }
        },
        (CniEvidence::Annotations { node: i }, _) => {
            assert(annotation_cni(nodes[i as int]) is Some);
        },
        (_, CniEvidence::Annotations { node: k }) => {
            assert(annotation_cni(nodes[k as int]) is Some);
        },
        (CniEvidence::Runtime { node: i }, _) => {
            assert(runtime_cni(nodes[i as int]) is Some);
        },
        (_, CniEvidence::Runtime { node: k }) => {
            assert(runtime_cni(nodes[k as int]) is Some);
        },
        _ => {},
    }
}

/// Whether one of the keys contains the pattern.
fn key_mentions(keys: &Vec<String>, pattern: &str) -> (found: bool)
    ensures
        found == any_key_contains(keys@, pattern@),
{
    let mut i: usize = 0;
    while i < keys.len()
        invariant
            i <= keys.len(),
            forall|j: int| 0 <= j < i ==> !contains_text((#[trigger] keys@[j])@, pattern@),
        decreases keys.len() - i,
    {
        if contains(keys[i].as_str(), pattern) {
            return true;
        }
        i += 1;
    }
    false
}

/// The network plugin that a node's annotation keys name, if any.
fn cni_by_annotations(node: &ObjectInfo) -> (name: Option<&'static str>)
    ensures
        text_of(name) == annotation_cni(*node),
{
    let keys = &node.annotation_keys;
    if key_mentions(keys, "calico") || key_mentions(keys, "projectcalico") {
        Some("Calico")
    } else if key_mentions(keys, "flannel") {
        Some("Flannel")
    } else if key_mentions(keys, "weave") {
        Some("Weave Net")
    } else if key_mentions(keys, "cilium") {
        Some("Cilium")
    } else {
        None
    }
}

/// The generic label that a node's container runtime suggests, if any.
fn cni_by_runtime(node: &ObjectInfo) -> (name: Option<&'static str>)
    ensures
        text_of(name) == runtime_cni(*node),
{
    match &node.status {
        Some(status) => match &status.container_runtime {
            Some(runtime) => {
                if contains(runtime.as_str(), "containerd") {
                    Some("Generic CNI (containerd)")
                } else if contains(runtime.as_str(), "docker") {
                    Some("Generic CNI (docker)")
                } else {
                    None
                }
            },
            None => None,
        },
        None => None,
    }
}

/// Classifies the network plugin of a cluster from its nodes, taken
/// in the order of the list, and says what decided. Never fails: a
/// cluster that gives no hint is classified as unknown.
pub fn classify_cni(nodes: &[ObjectInfo]) -> (found: CniClassification)
    ensures
        evidence_holds(nodes@, found.evidence),
        found.name@ == evidence_name(nodes@, found.evidence),
        found.name@ == detected_cni(nodes@),
{
    if nodes.len() == 0 {
        return CniClassification {
            name: String::from_str(CNI_NO_NODES),
            evidence: CniEvidence::NoNodes,
        };
    }
    let mut i: usize = 0;
    while i < nodes.len()
        invariant
            i <= nodes.len(),
            forall|j: int| 0 <= j < i ==> annotation_cni(#[trigger] nodes@[j]) is None,
        decreases nodes.len() - i,
    {
        match cni_by_annotations(&nodes[i]) {
            Some(name) => {
                let evidence = CniEvidence::Annotations { node: i };
                proof {
                    lemma_evidence_names_the_plugin(nodes@, evidence);
                }
                return CniClassification { name: String::from_str(name), evidence };
            },
            None => {},
        }
        i += 1;
    }
    let mut k: usize = 0;
    while k < nodes.len()
        invariant
            k <= nodes.len(),
            forall|j: int| 0 <= j < nodes.len() ==> annotation_cni(#[trigger] nodes@[j]) is None,
            forall|j: int| 0 <= j < k ==> runtime_cni(#[trigger] nodes@[j]) is None,
        decreases nodes.len() - k,
    {
        match cni_by_runtime(&nodes[k]) {
            Some(name) => {
                let evidence = CniEvidence::Runtime { node: k };
                proof {
                    lemma_evidence_names_the_plugin(nodes@, evidence);
                }
                return CniClassification { name: String::from_str(name), evidence };
            },
            None => {},
        }
        k += 1;
    }
    proof {
        lemma_evidence_names_the_plugin(nodes@, CniEvidence::Nothing);
    }
    CniClassification { name: String::from_str(CNI_UNKNOWN), evidence: CniEvidence::Nothing }
}

/// Detects the network plugin of a cluster from its nodes, taken in
/// the order of the list. Never fails: a cluster that gives no hint is
/// reported as unknown.
pub fn detect_cni(nodes: &[ObjectInfo]) -> (name: String)
    ensures
        name@ == detected_cni(nodes@),
{
    classify_cni(nodes).name
}

} // verus!
