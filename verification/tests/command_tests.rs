use k8s_netinspect::cluster::{
    ApiReply, ApiRequest, ClusterStep, ObjectInfo, ObjectStatus, ResourceKind, Scope,
};
use k8s_netinspect::commands::connectivity::{interpret_status, status_reason};
use k8s_netinspect::commands::{
    classify_cni, classify_phase, detect_cni, diagnose, inspect_pod, judge_stage, next_phase,
    phases, test_connectivity,
    test_connectivity_with_retries, test_pod, version, CniClassification, CniEvidence, Command,
    ConnectivityStep, DiagnosisReport, DiagnosisStage, HttpReply, Phase, PhaseKind, PodReadiness,
    PodTestStep, ProbePlan,
    RunStep, StepOutcome,
};
use k8s_netinspect::errors::{ApiCause, ApiFailure, NetInspectError, TransportFailure};

fn node(keys: &[&str], runtime: Option<&str>) -> ObjectInfo {
    ObjectInfo {
        name: Some("node".to_string()),
        annotation_keys: keys.iter().map(|k| k.to_string()).collect(),
        status: Some(ObjectStatus {
            container_runtime: runtime.map(|r| r.to_string()),
            phase: None,
            pod_ip: None,
        }),
    }
}

fn pod(phase: Option<&str>, ip: Option<&str>) -> ApiReply {
    ApiReply::Fetched(ObjectInfo {
        name: Some("web-0".to_string()),
        annotation_keys: Vec::new(),
        status: Some(ObjectStatus {
            container_runtime: None,
            phase: phase.map(|p| p.to_string()),
            pod_ip: ip.map(|i| i.to_string()),
        }),
    })
}

fn status(code: u16) -> ApiReply {
    ApiReply::Failed(ApiFailure {
        cause: ApiCause::Status { code, message: format!("status {}", code) },
        text: format!("ApiError: status {}", code),
    })
}

fn not_found(message: &str) -> PodReadiness {
    PodReadiness::Failed(NetInspectError::ResourceNotFound(message.to_string()))
}

fn finished_not_found(message: &str) -> PodTestStep {
    PodTestStep::Finished(Err(NetInspectError::ResourceNotFound(message.to_string())))
}

#[test]
fn first_annotated_node_decides_the_plugin() {
    let nodes = vec![
        node(&["flannel.alpha.coreos.com/backend-type"], Some("containerd://1.7.2")),
        node(&["projectcalico.org/IPv4Address"], Some("containerd://1.7.2")),
    ];
    assert_eq!(detect_cni(&nodes), "Flannel");
    let reversed: Vec<ObjectInfo> = nodes.into_iter().rev().collect();
    assert_eq!(detect_cni(&reversed), "Calico");
}

#[test]
fn each_plugin_is_known_by_its_annotations() {
    assert_eq!(detect_cni(&[node(&["projectcalico.org/IPv4Address"], None)]), "Calico");
    assert_eq!(detect_cni(&[node(&["a/b", "x.calico.y"], None)]), "Calico");
    assert_eq!(detect_cni(&[node(&["flannel.alpha.coreos.com/public-ip"], None)]), "Flannel");
    assert_eq!(detect_cni(&[node(&["weave.works/peer"], None)]), "Weave Net");
    assert_eq!(detect_cni(&[node(&["io.cilium.network.ipv4-pod-cidr"], None)]), "Cilium");
}

#[test]
fn within_a_node_the_plugins_have_a_priority() {
    assert_eq!(detect_cni(&[node(&["cilium", "weave", "flannel", "calico"], None)]), "Calico");
    assert_eq!(detect_cni(&[node(&["cilium", "weave", "flannel"], None)]), "Flannel");
    assert_eq!(detect_cni(&[node(&["cilium", "weave"], None)]), "Weave Net");
}

#[test]
fn the_runtime_is_the_fallback() {
    assert_eq!(
        detect_cni(&[node(&["kubeadm.alpha.kubernetes.io/cri-socket"], Some("containerd://1.6.8"))]),
        "Generic CNI (containerd)"
    );
    assert_eq!(detect_cni(&[node(&[], Some("docker://20.10.7"))]), "Generic CNI (docker)");
    assert_eq!(
        detect_cni(&[node(&[], Some("cri-o://1.27")), node(&[], Some("docker://20.10.7"))]),
        "Generic CNI (docker)"
    );
    // A runtime that names both is taken for containerd.
    assert_eq!(detect_cni(&[node(&[], Some("docker+containerd"))]), "Generic CNI (containerd)");
}

#[test]
fn annotations_anywhere_beat_runtimes_everywhere() {
    let nodes = vec![
        node(&[], Some("containerd://1.7.2")),
        node(&["projectcalico.org/IPv4Address"], Some("containerd://1.7.2")),
    ];
    assert_eq!(detect_cni(&nodes), "Calico");
}

#[test]
fn annotations_count_without_a_status() {
    let bare = ObjectInfo {
        name: None,
        annotation_keys: vec!["io.cilium.network.ipv4-health-ip".to_string()],
        status: None,
    };
    assert_eq!(detect_cni(&[bare]), "Cilium");
}

#[test]
fn detection_never_fails() {
    assert_eq!(detect_cni(&[]), "No nodes available for CNI detection");
    assert_eq!(detect_cni(&[node(&[], None)]), "Unknown CNI");
    assert_eq!(detect_cni(&[node(&["Calico", "FLANNEL"], Some("cri-o://1.27"))]), "Unknown CNI");
    let bare = ObjectInfo { name: None, annotation_keys: Vec::new(), status: None };
    assert_eq!(detect_cni(&[bare]), "Unknown CNI");
}

#[test]
fn probes_go_to_port_80() {
    assert_eq!(
        ProbePlan::standard("10.1.2.3"),
        ProbePlan { url: "http://10.1.2.3:80".to_string(), timeout_secs: 10, connect_timeout_secs: 5 }
    );
    assert_eq!(
        ProbePlan::quick("10.1.2.3"),
        ProbePlan { url: "http://10.1.2.3:80".to_string(), timeout_secs: 3, connect_timeout_secs: 2 }
    );
}

#[test]
fn statuses_from_200_to_299_are_success() {
    for code in [200u16, 201, 204, 250, 299] {
        assert_eq!(test_connectivity(&HttpReply::Status(code)), Ok(()));
    }
    for code in [100u16, 199, 300, 301, 404, 500, 0, 99, 1000] {
        assert!(matches!(
            test_connectivity(&HttpReply::Status(code)),
            Err(NetInspectError::NetworkConnectivity(_))
        ));
    }
}

#[test]
fn other_statuses_are_reported_with_their_reason() {
    assert_eq!(
        test_connectivity(&HttpReply::Status(404)),
        Err(NetInspectError::NetworkConnectivity("HTTP 404 Not Found - Not Found".to_string()))
    );
    assert_eq!(
        test_connectivity(&HttpReply::Status(503)),
        Err(NetInspectError::NetworkConnectivity(
            "HTTP 503 Service Unavailable - Service Unavailable".to_string()
        ))
    );
    assert_eq!(
        test_connectivity(&HttpReply::Status(301)),
        Err(NetInspectError::NetworkConnectivity(
            "HTTP 301 Moved Permanently - Moved Permanently".to_string()
        ))
    );
    assert_eq!(
        test_connectivity(&HttpReply::Status(599)),
        Err(NetInspectError::NetworkConnectivity(
            "HTTP 599 <unknown status code> - Unknown error".to_string()
        ))
    );
    assert_eq!(
        test_connectivity(&HttpReply::Status(42)),
        Err(NetInspectError::NetworkConnectivity(
            "HTTP 42 <unknown status code> - Unknown error".to_string()
        ))
    );
}

#[test]
fn reasons_come_from_the_http_library() {
    assert_eq!(status_reason(200), Some("OK"));
    assert_eq!(status_reason(404), Some("Not Found"));
    assert_eq!(status_reason(418), Some("I'm a teapot"));
    assert_eq!(status_reason(599), None);
    assert_eq!(status_reason(99), None);
    assert_eq!(status_reason(1000), None);
}

#[test]
fn a_status_is_judged_with_the_reason_given() {
    assert_eq!(interpret_status(200, None), Ok(()));
    assert_eq!(interpret_status(299, Some("x")), Ok(()));
    assert_eq!(
        interpret_status(300, Some("Multiple Choices")),
        Err(NetInspectError::NetworkConnectivity(
            "HTTP 300 Multiple Choices - Multiple Choices".to_string()
        ))
    );
    assert_eq!(
        interpret_status(199, None),
        Err(NetInspectError::NetworkConnectivity(
            "HTTP 199 <unknown status code> - Unknown error".to_string()
        ))
    );
}

#[test]
fn failed_requests_are_classified() {
    let failure = |timed_out, connect| {
        HttpReply::Failed(TransportFailure { timed_out, connect, text: "tcp connect error".to_string() })
    };
    assert_eq!(
        test_connectivity(&failure(true, false)),
        Err(NetInspectError::Timeout("HTTP request timed out - pod may be unreachable".to_string()))
    );
    assert_eq!(
        test_connectivity(&failure(false, true)),
        Err(NetInspectError::NetworkConnectivity(
            "Failed to connect to pod: tcp connect error".to_string()
        ))
    );
    assert_eq!(
        test_connectivity(&failure(false, false)),
        Err(NetInspectError::NetworkConnectivity("HTTP request failed: tcp connect error".to_string()))
    );
    assert_eq!(
        test_connectivity(&HttpReply::ClientUnavailable("builder error".to_string())),
        Err(NetInspectError::Runtime("Failed to create HTTP client: builder error".to_string()))
    );
}

fn attempt(number: u32, delay_ms: u64) -> ConnectivityStep {
    ConnectivityStep::Probe { plan: ProbePlan::standard("10.0.0.7"), attempt: number, delay_ms }
}

#[test]
fn third_attempt_succeeds_after_one_and_two_seconds() {
    let refused = HttpReply::Failed(TransportFailure {
        timed_out: false,
        connect: true,
        text: "connection refused".to_string(),
    });
    let mut outcomes: Vec<HttpReply> = Vec::new();
    assert_eq!(test_connectivity_with_retries("10.0.0.7", 3, &outcomes), attempt(1, 0));
    outcomes.push(refused.clone());
    assert_eq!(test_connectivity_with_retries("10.0.0.7", 3, &outcomes), attempt(2, 1000));
    outcomes.push(HttpReply::Status(500));
    assert_eq!(test_connectivity_with_retries("10.0.0.7", 3, &outcomes), attempt(3, 2000));
    outcomes.push(HttpReply::Status(200));
    assert_eq!(
        test_connectivity_with_retries("10.0.0.7", 3, &outcomes),
        ConnectivityStep::Finished(Ok(()))
    );
}

#[test]
fn the_last_failure_is_the_outcome() {
    let outcomes = vec![
        HttpReply::Status(500),
        HttpReply::Failed(TransportFailure {
            timed_out: true,
            connect: false,
            text: "operation timed out".to_string(),
        }),
        HttpReply::Status(502),
    ];
    assert_eq!(
        test_connectivity_with_retries("10.0.0.7", 3, &outcomes),
        ConnectivityStep::Finished(Err(NetInspectError::NetworkConnectivity(
            "HTTP 502 Bad Gateway - Bad Gateway".to_string()
        )))
    );
    assert_eq!(
        test_connectivity_with_retries("10.0.0.7", 2, &outcomes[..2]),
        ConnectivityStep::Finished(Err(NetInspectError::Timeout(
            "HTTP request timed out - pod may be unreachable".to_string()
        )))
    );
    assert_eq!(
        test_connectivity_with_retries("10.0.0.7", 1, &outcomes[..1]),
        ConnectivityStep::Finished(Err(NetInspectError::NetworkConnectivity(
            "HTTP 500 Internal Server Error - Internal Server Error".to_string()
        )))
    );
}

#[test]
fn the_first_success_ends_the_test() {
    assert_eq!(
        test_connectivity_with_retries("10.0.0.7", 3, &[HttpReply::Status(204)]),
        ConnectivityStep::Finished(Ok(()))
    );
    assert_eq!(
        test_connectivity_with_retries("10.0.0.7", 5, &[HttpReply::Status(500), HttpReply::Status(200)]),
        ConnectivityStep::Finished(Ok(()))
    );
}

#[test]
fn the_pause_grows_by_a_second_per_failure() {
    let mut outcomes: Vec<HttpReply> = Vec::new();
    for failures in 1..=9u64 {
        outcomes.push(HttpReply::Status(500));
        assert_eq!(
            test_connectivity_with_retries("10.0.0.7", 10, &outcomes),
            attempt(failures as u32 + 1, failures * 1000)
        );
    }
}

#[test]
fn pending_pod_is_not_tested() {
    let replies = vec![ApiReply::Connected, pod(Some("Pending"), None)];
    assert_eq!(
        test_pod("web-0", "default", &replies, &[]),
        finished_not_found("Pod is pending and has no IP address yet")
    );
    // Not even if it already has an address, and whatever probes are reported.
    let replies = vec![ApiReply::Connected, pod(Some("Pending"), Some("10.0.0.7"))];
    for outcomes in [vec![], vec![HttpReply::Status(200)], vec![HttpReply::Status(500)]] {
        let step = test_pod("web-0", "default", &replies, &outcomes);
        assert_eq!(step, finished_not_found("Pod is pending and has no IP address yet"));
        assert!(!matches!(step, PodTestStep::Probe { .. }));
        match step {
            PodTestStep::Finished(Err(error)) => assert_eq!(error.exit_code(), 4),
            other => panic!("expected a failure, got {:?}", other),
        }
    }
    assert_eq!(
        inspect_pod("web-0", "default", &replies),
        not_found("Pod is pending and has no IP address yet")
    );
}

#[test]
fn pod_test_looks_the_pod_up_within_ten_seconds() {
    assert_eq!(test_pod("web-0", "prod", &[], &[]), PodTestStep::Ask(ApiRequest::Connect));
    let lookup = || ApiRequest::Get {
        resource: ResourceKind::Pods,
        scope: Scope::Namespace("prod".to_string()),
        name: "web-0".to_string(),
        budget_secs: Some(10),
    };
    assert_eq!(test_pod("web-0", "prod", &[ApiReply::Connected], &[]), PodTestStep::Ask(lookup()));
    assert_eq!(inspect_pod("web-0", "prod", &[]), PodReadiness::Ask(ApiRequest::Connect));
    assert_eq!(inspect_pod("web-0", "prod", &[ApiReply::Connected]), PodReadiness::Ask(lookup()));
}

#[test]
fn running_pod_is_tested_with_three_attempts() {
    let replies = vec![ApiReply::Connected, pod(Some("Running"), Some("10.0.0.7"))];
    assert_eq!(
        inspect_pod("web-0", "default", &replies),
        PodReadiness::Ready {
            address: "10.0.0.7".to_string(),
            max_attempts: 3,
            phase: Some("Running".to_string()),
        }
    );
    let replies = vec![ApiReply::Connected, pod(Some("Unknown"), Some("10.0.0.8"))];
    assert_eq!(
        inspect_pod("web-0", "default", &replies),
        PodReadiness::Ready {
            address: "10.0.0.8".to_string(),
            max_attempts: 3,
            phase: Some("Unknown".to_string()),
        }
    );
    let replies = vec![ApiReply::Connected, pod(None, Some("2001:db8:0:0:0:0:0:1"))];
    assert_eq!(
        inspect_pod("web-0", "default", &replies),
        PodReadiness::Ready {
            address: "2001:db8:0:0:0:0:0:1".to_string(),
            max_attempts: 3,
            phase: None,
        }
    );
}

#[test]
fn pod_test_ends_as_its_probes_end() {
    let replies = vec![ApiReply::Connected, pod(Some("Running"), Some("10.0.0.7"))];
    let probe = |number: u32, delay_ms: u64| PodTestStep::Probe {
        address: "10.0.0.7".to_string(),
        phase: Some("Running".to_string()),
        plan: ProbePlan::standard("10.0.0.7"),
        attempt: number,
        delay_ms,
    };
    let mut outcomes: Vec<HttpReply> = Vec::new();
    assert_eq!(test_pod("web-0", "default", &replies, &outcomes), probe(1, 0));
    outcomes.push(HttpReply::Status(503));
    assert_eq!(test_pod("web-0", "default", &replies, &outcomes), probe(2, 1000));
    outcomes.push(HttpReply::Status(503));
    assert_eq!(test_pod("web-0", "default", &replies, &outcomes), probe(3, 2000));
    let mut passed = outcomes.clone();
    passed.push(HttpReply::Status(200));
    assert_eq!(test_pod("web-0", "default", &replies, &passed), PodTestStep::Finished(Ok(())));
    outcomes.push(HttpReply::Status(503));
    assert_eq!(
        test_pod("web-0", "default", &replies, &outcomes),
        PodTestStep::Finished(Err(NetInspectError::NetworkConnectivity(
            "HTTP 503 Service Unavailable - Service Unavailable".to_string()
        )))
    );
}

#[test]
fn finished_pods_are_not_tested() {
    let replies = vec![ApiReply::Connected, pod(Some("Failed"), Some("10.0.0.7"))];
    assert_eq!(
        inspect_pod("web-0", "default", &replies),
        not_found("Pod is in Failed phase and cannot be tested")
    );
    assert_eq!(
        test_pod("web-0", "default", &replies, &[HttpReply::Status(200)]),
        finished_not_found("Pod is in Failed phase and cannot be tested")
    );
    let replies = vec![ApiReply::Connected, pod(Some("Succeeded"), Some("10.0.0.7"))];
    assert_eq!(
        inspect_pod("web-0", "default", &replies),
        not_found("Pod is in Succeeded phase and cannot be tested")
    );
}

#[test]
fn pod_without_status_or_address_is_not_found() {
    let bare = ApiReply::Fetched(ObjectInfo {
        name: Some("web-0".to_string()),
        annotation_keys: Vec::new(),
        status: None,
    });
    assert_eq!(
        inspect_pod("web-0", "default", &[ApiReply::Connected, bare]),
        not_found("Pod 'web-0' has no status information - it may be initializing")
    );
    assert_eq!(
        inspect_pod("web-0", "default", &[ApiReply::Connected, pod(Some("Running"), None)]),
        not_found("Pod 'web-0' has no IP address assigned - check if it's running")
    );
}

#[test]
fn pod_with_a_malformed_address_is_invalid_input() {
    assert_eq!(
        inspect_pod(
            "web-0",
            "default",
            &[ApiReply::Connected, pod(Some("Running"), Some("10.0.0.256"))]
        ),
        PodReadiness::Failed(NetInspectError::InvalidInput(
            "Invalid IP address format: 10.0.0.256".to_string()
        ))
    );
    assert_eq!(
        test_pod("web-0", "default", &[ApiReply::Connected, pod(Some("Running"), Some(""))], &[]),
        PodTestStep::Finished(Err(NetInspectError::InvalidInput(
            "Pod IP cannot be empty".to_string()
        )))
    );
}

#[test]
fn pod_lookup_failures_are_told_apart() {
    assert_eq!(
        inspect_pod("web-0", "prod", &[ApiReply::Connected, status(404)]),
        not_found("Pod 'web-0' not found in namespace 'prod'")
    );
    assert_eq!(
        inspect_pod("web-0", "prod", &[ApiReply::Connected, status(403)]),
        PodReadiness::Failed(NetInspectError::PermissionDenied(
            "Kubernetes API access denied: status 403".to_string()
        ))
    );
    assert_eq!(
        test_pod("web-0", "prod", &[ApiReply::Connected, ApiReply::TimedOut], &[]),
        PodTestStep::Finished(Err(NetInspectError::Timeout(
            "Pod lookup timed out after 10 seconds".to_string()
        )))
    );
    assert_eq!(
        inspect_pod("web-0", "prod", &[status(500)]),
        PodReadiness::Failed(NetInspectError::KubernetesConnection(
            "Kubernetes API error: status 500".to_string()
        ))
    );
}

fn all(resource: ResourceKind, scope: Scope, budget: u64) -> ClusterStep {
    ClusterStep::Ask(ApiRequest::List { resource, scope, limit: None, budget_secs: Some(budget) })
}

fn empty_report(namespace: Option<&str>) -> DiagnosisReport {
    DiagnosisReport {
        namespace_scope: namespace.map(|n| n.to_string()),
        cni_name: None,
        node_count: None,
        node_warning: None,
        pod_count: None,
        pod_warning: None,
    }
}

#[test]
fn diagnosis_runs_its_steps_in_order() {
    let nodes = ApiReply::Listed(vec![
        node(&["flannel.alpha.coreos.com/backend-type"], Some("containerd://1.7.2")),
        node(&[], Some("containerd://1.7.2")),
    ]);
    let mut replies: Vec<ApiReply> = Vec::new();
    let step = diagnose(Some("prod"), &replies);
    assert_eq!(step.next, ClusterStep::Ask(ApiRequest::Connect));
    assert_eq!(step.report, empty_report(Some("prod")));

    replies.push(ApiReply::Connected);
    let step = diagnose(Some("prod"), &replies);
    assert_eq!(step.next, all(ResourceKind::Nodes, Scope::Cluster, 30));
    assert_eq!(step.report, empty_report(Some("prod")));

    replies.push(nodes.clone());
    let step = diagnose(Some("prod"), &replies);
    assert_eq!(step.next, all(ResourceKind::Nodes, Scope::Cluster, 15));
    assert_eq!(step.report.cni_name, Some("Flannel".to_string()));
    assert_eq!(step.report.node_count, None);

    replies.push(nodes);
    let step = diagnose(Some("prod"), &replies);
    assert_eq!(step.next, all(ResourceKind::Pods, Scope::Namespace("prod".to_string()), 15));
    assert_eq!(step.report.node_count, Some(2));
    assert_eq!(step.report.node_warning, None);

    replies.push(ApiReply::Listed(vec![node(&[], None), node(&[], None), node(&[], None)]));
    let step = diagnose(Some("prod"), &replies);
    assert_eq!(step.next, ClusterStep::Finished(Ok(())));
    assert_eq!(
        step.report,
        DiagnosisReport {
            namespace_scope: Some("prod".to_string()),
            cni_name: Some("Flannel".to_string()),
            node_count: Some(2),
            node_warning: None,
            pod_count: Some(3),
            pod_warning: None,
        }
    );
}

#[test]
fn diagnosis_counts_pods_cluster_wide_without_a_namespace() {
    let replies = vec![ApiReply::Connected, ApiReply::Listed(vec![]), ApiReply::Listed(vec![])];
    let step = diagnose(None, &replies);
    assert_eq!(step.next, all(ResourceKind::Pods, Scope::Cluster, 15));
    assert_eq!(step.report.namespace_scope, None);
    // No nodes: a warning for the caller to print, not a failure.
    assert_eq!(step.report.node_count, Some(0));
    assert_eq!(step.report.node_warning, Some("No nodes found in cluster".to_string()));
    assert_eq!(step.report.cni_name, Some("No nodes available for CNI detection".to_string()));
}

#[test]
fn failed_pod_count_only_degrades_the_diagnosis() {
    let nodes = ApiReply::Listed(vec![node(&[], Some("docker://20.10"))]);
    let step = diagnose(None, &[ApiReply::Connected, nodes.clone(), nodes.clone(), status(403)]);
    assert_eq!(step.next, ClusterStep::Finished(Ok(())));
    assert_eq!(step.report.pod_count, None);
    assert_eq!(
        step.report.pod_warning,
        Some(
            "Failed to check pods: Permission Denied: Kubernetes API access denied: status 403"
                .to_string()
        )
    );
    assert_eq!(step.report.node_count, Some(1));
    assert_eq!(step.report.cni_name, Some("Generic CNI (docker)".to_string()));

    let step = diagnose(None, &[ApiReply::Connected, nodes.clone(), nodes, ApiReply::TimedOut]);
    assert_eq!(step.next, ClusterStep::Finished(Ok(())));
    assert_eq!(step.report.pod_count, None);
    assert_eq!(
        step.report.pod_warning,
        Some("Pod listing timed out after 15 seconds".to_string())
    );
}

#[test]
fn failures_of_the_first_steps_are_fatal() {
    let nodes = ApiReply::Listed(vec![node(&[], None)]);
    let step = diagnose(None, &[status(500)]);
    assert_eq!(
        step.next,
        ClusterStep::Finished(Err(NetInspectError::KubernetesConnection(
            "Kubernetes API error: status 500".to_string()
        )))
    );
    let step = diagnose(None, &[ApiReply::Connected, ApiReply::TimedOut]);
    assert_eq!(
        step.next,
        ClusterStep::Finished(Err(NetInspectError::Timeout(
            "CNI detection timed out after 30 seconds".to_string()
        )))
    );
    assert_eq!(step.report, empty_report(None));
    let step = diagnose(None, &[ApiReply::Connected, status(403)]);
    assert_eq!(
        step.next,
        ClusterStep::Finished(Err(NetInspectError::PermissionDenied(
            "Kubernetes API access denied: status 403".to_string()
        )))
    );
    let step = diagnose(None, &[ApiReply::Connected, nodes.clone(), ApiReply::TimedOut]);
    assert_eq!(
        step.next,
        ClusterStep::Finished(Err(NetInspectError::Timeout(
            "Node listing timed out after 15 seconds".to_string()
        )))
    );
    assert_eq!(step.report.cni_name, Some("Unknown CNI".to_string()));
    assert_eq!(step.report.node_count, None);
    let step = diagnose(None, &[ApiReply::Connected, nodes, status(404)]);
    assert_eq!(
        step.next,
        ClusterStep::Finished(Err(NetInspectError::ResourceNotFound(
            "Resource not found: status 404".to_string()
        )))
    );
}

#[test]
fn version_banner_names_tool_and_version() {
    assert_eq!(
        version(),
        "\u{1f527} k8s-netinspect v0.1.0\nA minimal Kubernetes network inspection tool"
    );
}

#[test]
fn classification_says_what_decided() {
    assert_eq!(
        classify_cni(&[]),
        CniClassification {
            name: "No nodes available for CNI detection".to_string(),
            evidence: CniEvidence::NoNodes,
        }
    );
    let nodes = vec![
        node(&[], Some("containerd://1.7.2")),
        node(&["weave.works/peer"], Some("containerd://1.7.2")),
        node(&["projectcalico.org/IPv4Address"], Some("containerd://1.7.2")),
    ];
    assert_eq!(
        classify_cni(&nodes),
        CniClassification {
            name: "Weave Net".to_string(),
            evidence: CniEvidence::Annotations { node: 1 },
        }
    );
    let nodes = vec![node(&[], None), node(&[], Some("cri-o")), node(&[], Some("docker://1"))];
    assert_eq!(
        classify_cni(&nodes),
        CniClassification {
            name: "Generic CNI (docker)".to_string(),
            evidence: CniEvidence::Runtime { node: 2 },
        }
    );
    assert_eq!(
        classify_cni(&nodes[..2]),
        CniClassification { name: "Unknown CNI".to_string(), evidence: CniEvidence::Nothing }
    );
}

#[test]
fn only_the_pod_count_degrades() {
    let fatal_stages =
        [DiagnosisStage::Client, DiagnosisStage::CniDetection, DiagnosisStage::NodeCount];
    for stage in fatal_stages {
        assert_eq!(judge_stage(stage, &ApiReply::Listed(vec![])), StepOutcome::Passed);
        assert_eq!(
            judge_stage(stage, &status(500)),
            StepOutcome::Fatal(NetInspectError::KubernetesConnection(
                "Kubernetes API error: status 500".to_string()
            ))
        );
    }
    assert_eq!(
        judge_stage(DiagnosisStage::Client, &ApiReply::TimedOut),
        StepOutcome::Fatal(NetInspectError::Timeout("Operation timed out".to_string()))
    );
    assert_eq!(
        judge_stage(DiagnosisStage::CniDetection, &ApiReply::TimedOut),
        StepOutcome::Fatal(NetInspectError::Timeout(
            "CNI detection timed out after 30 seconds".to_string()
        ))
    );
    assert_eq!(
        judge_stage(DiagnosisStage::NodeCount, &ApiReply::TimedOut),
        StepOutcome::Fatal(NetInspectError::Timeout(
            "Node listing timed out after 15 seconds".to_string()
        ))
    );
    assert_eq!(judge_stage(DiagnosisStage::PodCount, &ApiReply::Listed(vec![])), StepOutcome::Passed);
    assert_eq!(
        judge_stage(DiagnosisStage::PodCount, &status(500)),
        StepOutcome::Degraded(
            "Failed to check pods: Kubernetes Connection Error: Kubernetes API error: status 500"
                .to_string()
        )
    );
    assert_eq!(
        judge_stage(DiagnosisStage::PodCount, &ApiReply::TimedOut),
        StepOutcome::Degraded("Pod listing timed out after 15 seconds".to_string())
    );
}

#[test]
fn input_is_checked_before_the_cluster_is_asked() {
    assert_eq!(
        phases(&Command::Diagnose { namespace: None }),
        vec![Phase::Environment, Phase::Access, Phase::Diagnosis]
    );
    assert_eq!(
        phases(&Command::Diagnose { namespace: Some("prod".to_string()) }),
        vec![
            Phase::Environment,
            Phase::Namespace,
            Phase::Access,
            Phase::NamespaceExists,
            Phase::Diagnosis
        ]
    );
    assert_eq!(
        phases(&Command::TestPod { pod: "web-0".to_string(), namespace: "default".to_string() }),
        vec![Phase::Environment, Phase::PodName, Phase::Namespace, Phase::Access, Phase::PodTest]
    );
    assert_eq!(phases(&Command::Version), vec![Phase::Environment, Phase::Version]);
}

#[test]
fn a_run_enters_its_phases_in_order_and_leaves_with_success() {
    let command = Command::TestPod { pod: "web-0".to_string(), namespace: "default".to_string() };
    let mut outcomes = Vec::new();
    for phase in [Phase::Environment, Phase::PodName, Phase::Namespace, Phase::Access, Phase::PodTest]
    {
        assert_eq!(next_phase(&command, &outcomes), RunStep::Enter(phase));
        outcomes.push(Ok(()));
    }
    assert_eq!(next_phase(&command, &outcomes), RunStep::Exit { code: 0 });
    assert_eq!(next_phase(&Command::Version, &[]), RunStep::Enter(Phase::Environment));
    assert_eq!(next_phase(&Command::Version, &[Ok(())]), RunStep::Enter(Phase::Version));
    assert_eq!(next_phase(&Command::Version, &[Ok(()), Ok(())]), RunStep::Exit { code: 0 });
}

#[test]
fn a_run_leaves_at_the_first_failure_with_its_exit_code() {
    let command = Command::Diagnose { namespace: Some("prod".to_string()) };
    let denied = || Err(NetInspectError::PermissionDenied("no".to_string()));
    let invalid = || Err(NetInspectError::InvalidInput("bad".to_string()));
    assert_eq!(
        next_phase(&command, &[Err(NetInspectError::Configuration("none".to_string()))]),
        RunStep::Exit { code: 2 }
    );
    assert_eq!(next_phase(&command, &[Ok(()), invalid()]), RunStep::Exit { code: 2 });
    // The diagnosis is not entered once the access check has failed.
    assert_eq!(next_phase(&command, &[Ok(()), Ok(()), denied()]), RunStep::Exit { code: 5 });
    assert_eq!(
        next_phase(&command, &[Ok(()), Ok(()), Ok(())]),
        RunStep::Enter(Phase::NamespaceExists)
    );
    assert_eq!(
        next_phase(
            &command,
            &[Ok(()), Ok(()), Ok(()), Err(NetInspectError::ResourceNotFound("gone".to_string()))]
        ),
        RunStep::Exit { code: 4 }
    );
    // The first failure decides, whatever is reported after it.
    assert_eq!(next_phase(&command, &[Ok(()), denied(), invalid(), Ok(())]), RunStep::Exit { code: 5 });
    assert_eq!(
        next_phase(
            &command,
            &[Ok(()), Ok(()), Ok(()), Ok(()), Err(NetInspectError::Timeout("slow".to_string()))]
        ),
        RunStep::Exit { code: 4 }
    );
    assert_eq!(
        next_phase(
            &Command::Diagnose { namespace: None },
            &[Ok(()), Ok(()), Err(NetInspectError::KubernetesConnection("down".to_string()))]
        ),
        RunStep::Exit { code: 3 }
    );
    assert_eq!(
        next_phase(&Command::Version, &[Ok(()), Err(NetInspectError::Runtime("odd".to_string()))]),
        RunStep::Exit { code: 1 }
    );
}

#[test]
fn phases_are_told_apart_by_name() {
    assert_eq!(classify_phase("Pending"), PhaseKind::Pending);
    assert_eq!(classify_phase("Failed"), PhaseKind::Ended);
    assert_eq!(classify_phase("Succeeded"), PhaseKind::Ended);
    assert_eq!(classify_phase("Running"), PhaseKind::Running);
    assert_eq!(classify_phase("Unknown"), PhaseKind::Other);
    assert_eq!(classify_phase("pending"), PhaseKind::Other);
    assert_eq!(classify_phase(""), PhaseKind::Other);
}
