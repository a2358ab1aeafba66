//! The permission prober: what the credentials in use may do is
//! inferred from the outcome of real list and get calls, in a fixed
//! order, stopping at the first refusal.

use vstd::prelude::*;
use vstd::slice::slice_subrange;
use vstd::string::StringExecFns;

use crate::cluster::{
    first_listed_name, is_forbidden, is_missing, reply_error, ApiReply, ApiRequest,
    ApiRequestView, ClusterStep, ClusterStepView, ResourceKind, Scope, ScopeView,
};
use crate::errors::{failure, result_view, ErrorKind, ErrorView, NetInspectError, NetInspectResult};
use crate::text::{join, join3, same_text, text_of};
use crate::validation::Validator;

verus! {

/// What a caller is told who may not list nodes.
pub const NODES_DENIED: &'static str = "Missing RBAC permission: 'nodes/list'. This permission is required to:\n\
    \u{e2}\u{20ac}\u{a2} Analyze cluster network topology\n\
    \u{e2}\u{20ac}\u{a2} Identify node-level network configurations\n\
    \u{e2}\u{20ac}\u{a2} Debug cross-node pod communication\n\
    \n\
    \u{f0}\u{178}\u{2019}\u{a1} Solution: Grant cluster-level nodes access with:\n\
    kubectl create clusterrole netinspect-nodes --verb=get,list --resource=nodes\n\
    kubectl create clusterrolebinding netinspect-nodes --clusterrole=netinspect-nodes --serviceaccount=<namespace>:<serviceaccount>";

/// What a caller is told who may not list pods.
pub const PODS_DENIED: &'static str = "Missing RBAC permission: 'pods/list' and 'pods/get'. These permissions are required to:\n\
    \u{e2}\u{20ac}\u{a2} List pods in namespaces for network analysis\n\
    \u{e2}\u{20ac}\u{a2} Retrieve pod network configurations and IP addresses\n\
    \u{e2}\u{20ac}\u{a2} Analyze pod-to-pod connectivity\n\
    \n\
    \u{f0}\u{178}\u{2019}\u{a1} Solution: Grant pod access with:\n\
    kubectl create role netinspect-pods --verb=get,list --resource=pods\n\
    kubectl create rolebinding netinspect-pods --role=netinspect-pods --serviceaccount=<namespace>:<serviceaccount>\n\
    \n\
    \u{f0}\u{178}\u{201c} Note: Apply this in each namespace where you need to debug network issues.";

/// What a caller is told who may not list services.
pub const SERVICES_DENIED: &'static str = "Missing RBAC permission: 'services/list' and 'services/get'. These permissions are required to:\n\
    \u{e2}\u{20ac}\u{a2} Analyze service network configurations\n\
    \u{e2}\u{20ac}\u{a2} Debug service-to-pod connectivity\n\
    \u{e2}\u{20ac}\u{a2} Inspect service endpoints and load balancing\n\
    \n\
    \u{f0}\u{178}\u{2019}\u{a1} Solution: Grant service access with:\n\
    kubectl create role netinspect-services --verb=get,list --resource=services\n\
    kubectl create rolebinding netinspect-services --role=netinspect-services --serviceaccount=<namespace>:<serviceaccount>";

/// What a caller is told who may not list endpoints.
pub const ENDPOINTS_DENIED: &'static str = "Missing RBAC permission: 'endpoints/list' and 'endpoints/get'. These permissions are required to:\n\
    \u{e2}\u{20ac}\u{a2} Analyze service endpoint configurations\n\
    \u{e2}\u{20ac}\u{a2} Debug service discovery issues\n\
    \u{e2}\u{20ac}\u{a2} Inspect backend pod connectivity for services\n\
    \n\
    \u{f0}\u{178}\u{2019}\u{a1} Solution: Grant endpoints access with:\n\
    kubectl create role netinspect-endpoints --verb=get,list --resource=endpoints\n\
    kubectl create rolebinding netinspect-endpoints --role=netinspect-endpoints --serviceaccount=<namespace>:<serviceaccount>";

/// What a caller is told who may not list namespaces.
pub const NAMESPACES_DENIED: &'static str = "Missing RBAC permission: 'namespaces/list' and 'namespaces/get'. These permissions are required to:\n\
    \u{e2}\u{20ac}\u{a2} List available namespaces for network debugging\n\
    \u{e2}\u{20ac}\u{a2} Validate namespace existence before operations\n\
    \u{e2}\u{20ac}\u{a2} Support cross-namespace network analysis\n\
    \n\
    \u{f0}\u{178}\u{2019}\u{a1} Solution: Grant namespace access with:\n\
    kubectl create clusterrole netinspect-namespaces --verb=get,list --resource=namespaces\n\
    kubectl create clusterrolebinding netinspect-namespaces --clusterrole=netinspect-namespaces --serviceaccount=<namespace>:<serviceaccount>";

/// What a caller is told who may list pods but not get one.
pub const PODS_GET_DENIED: &'static str =
    "Missing RBAC permission: 'pods/get'. Required for detailed pod network analysis.";

/// What a caller is told who may not get namespaces.
pub const NAMESPACE_GET_DENIED: &'static str =
    "Missing RBAC permission: namespaces/get. Please ensure your service account can access namespace information.";

/// Introduces the client's error where the access check cannot create
/// a client.
pub const ACCESS_CLIENT_FAILED: &'static str =
    "Failed to create Kubernetes client. Check kubeconfig and cluster connectivity: ";

/// Introduces the client's error where the check of one permission
/// cannot create a client.
pub const PERMISSION_CLIENT_FAILED: &'static str = "Failed to create Kubernetes client: ";

/// The namespace the access check probes namespaced resources in.
pub const PROBE_NAMESPACE: &'static str = "default";

/// The request of a permission probe: a list capped at one object,
/// without a deadline.
pub open spec fn probe_list(resource: ResourceKind, scope: ScopeView) -> ApiRequestView {
    ApiRequestView::List { resource, scope, limit: Some(1u32), budget_secs: None }
}

/// The request that fetches one object by name, without a deadline.
pub open spec fn probe_get(resource: ResourceKind, scope: ScopeView, name: Seq<char>)
    -> ApiRequestView {
    ApiRequestView::Get { resource, scope, name, budget_secs: None }
}

/// What the reply to a probe means: a refusal for lack of permission
/// is reported with the text given for it, every other failure as the
/// error it stands for, and anything else is success.
pub open spec fn probe_verdict(reply: ApiReply, denied: Seq<char>) -> Result<(), ErrorView> {
    if is_forbidden(reply) {
        failure(ErrorKind::PermissionDenied, denied)
    } else {
        match reply_error(reply) {
            Some(error) => Err(error),
            None => Ok(()),
        }
    }
}

/// What the reply to the creation of the client means: a failed
/// creation is a connection error whose message is the given
/// introduction followed by the client's own text.
pub open spec fn client_verdict(reply: ApiReply, introduction: Seq<char>) -> Result<
    (),
    ErrorView,
> {
    match reply {
        ApiReply::Failed(cause) => failure(
            ErrorKind::KubernetesConnection,
            introduction + cause.text@,
        ),
        _ => match reply_error(reply) {
            Some(error) => Err(error),
            None => Ok(()),
        },
    }
}

/// The step of a probe that is one list call: ask for the list, then
/// judge its reply.
pub open spec fn list_probe_step(
    replies: Seq<ApiReply>,
    resource: ResourceKind,
    scope: ScopeView,
    denied: Seq<char>,
) -> ClusterStepView {
    if replies.len() == 0 {
        ClusterStepView::Ask(probe_list(resource, scope))
    } else {
        ClusterStepView::Finished(probe_verdict(replies[0], denied))
    }
}

/// The step of the probe for pods: list pods in the probe namespace;
/// if the list names a first pod, get that pod too.
pub open spec fn pods_probe_step(replies: Seq<ApiReply>) -> ClusterStepView {
    let scope = ScopeView::Namespace(PROBE_NAMESPACE@);
    if replies.len() == 0 {
        ClusterStepView::Ask(probe_list(ResourceKind::Pods, scope))
    } else if probe_verdict(replies[0], PODS_DENIED@) is Err {
        ClusterStepView::Finished(probe_verdict(replies[0], PODS_DENIED@))
    } else {
        match first_listed_name(replies[0]) {
            None => ClusterStepView::Finished(Ok(())),
            Some(name) => if replies.len() == 1 {
                ClusterStepView::Ask(probe_get(ResourceKind::Pods, scope, name))
            } else {
                ClusterStepView::Finished(probe_verdict(replies[1], PODS_GET_DENIED@))
            },
        }
    }
}

/// How many replies the probe for pods reads, given the reply to its
/// list.
pub open spec fn pods_probe_len(listing: ApiReply) -> int {
    if first_listed_name(listing) is Some {
        2
    } else {
        1
    }
}

/// The step of the access check after the replies received so far:
/// create the client, then probe nodes, pods, services, endpoints and
/// namespaces in this order, and stop at the first probe that fails.
pub open spec fn access_step(replies: Seq<ApiReply>) -> ClusterStepView {
    let namespaced = ScopeView::Namespace(PROBE_NAMESPACE@);
    if replies.len() == 0 {
        ClusterStepView::Ask(ApiRequestView::Connect)
    } else if client_verdict(replies[0], ACCESS_CLIENT_FAILED@) is Err {
        ClusterStepView::Finished(client_verdict(replies[0], ACCESS_CLIENT_FAILED@))
    } else if list_probe_step(replies.skip(1), ResourceKind::Nodes, ScopeView::Cluster, NODES_DENIED@)
        != ClusterStepView::Finished(Ok(())) {
        list_probe_step(replies.skip(1), ResourceKind::Nodes, ScopeView::Cluster, NODES_DENIED@)
    } else if pods_probe_step(replies.skip(2)) != ClusterStepView::Finished(Ok(())) {
        pods_probe_step(replies.skip(2))
    } else {
        let rest = replies.skip(2 + pods_probe_len(replies[2]));
        if list_probe_step(rest, ResourceKind::Services, namespaced, SERVICES_DENIED@)
            != ClusterStepView::Finished(Ok(())) {
            list_probe_step(rest, ResourceKind::Services, namespaced, SERVICES_DENIED@)
        } else if list_probe_step(
            rest.skip(1),
            ResourceKind::Endpoints,
            namespaced,
            ENDPOINTS_DENIED@,
        ) != ClusterStepView::Finished(Ok(())) {
            list_probe_step(rest.skip(1), ResourceKind::Endpoints, namespaced, ENDPOINTS_DENIED@)
        } else {
            list_probe_step(
                rest.skip(2),
                ResourceKind::Namespaces,
                ScopeView::Cluster,
                NAMESPACES_DENIED@,
            )
        }
    }
}

/// The resource kinds whose permissions can be checked one by one,
/// by the name the caller gives them.
pub open spec fn parse_resource(name: Seq<char>) -> Option<ResourceKind> {
    if name == "pods"@ {
        Some(ResourceKind::Pods)
    } else if name == "nodes"@ {
        Some(ResourceKind::Nodes)
    } else if name == "services"@ {
        Some(ResourceKind::Services)
    } else if name == "namespaces"@ {
        Some(ResourceKind::Namespaces)
    } else {
        None
    }
}

/// The verbs that can be checked.
pub open spec fn is_verb(verb: Seq<char>) -> bool {
    verb == "list"@ || verb == "get"@
}

/// The first of `verbs` that cannot be checked, if there is one.
pub open spec fn first_unsupported_verb(verbs: Seq<Seq<char>>) -> Option<Seq<char>>
    decreases verbs.len(),
{
    if verbs.len() == 0 {
        None
    } else if !is_verb(verbs[0]) {
        Some(verbs[0])
    } else {
        first_unsupported_verb(verbs.skip(1))
    }
}

/// Where the check of one permission looks: cluster-wide for kinds
/// that live outside namespaces, else in the namespace given, else in
/// the client's default namespace.
pub open spec fn permission_scope(resource: ResourceKind, namespace: Option<Seq<char>>)
    -> ScopeView {
    if resource.cluster_scoped() {
        ScopeView::Cluster
    } else {
        match namespace {
            Some(name) => ScopeView::Namespace(name),
            None => ScopeView::DefaultNamespace,
        }
    }
}

/// What a caller is told who lacks the permission for `verb` on
/// `resource`.
pub open spec fn permission_denied_text(
    resource: ResourceKind,
    verb: Seq<char>,
    namespace: Option<Seq<char>>,
) -> Seq<char> {
    let permission = "Missing RBAC permission: '"@ + resource.plural_text() + "/"@ + verb;
    if resource.cluster_scoped() {
        permission + "' (cluster-level)"@
    } else {
        permission + "' in namespace '"@ + (match namespace {
            Some(name) => name,
            None => PROBE_NAMESPACE@,
        }) + "'"@
    }
}

/// The step of the check of the given verbs, one after the other, on
/// the replies that follow the client's creation.
///
/// `list` is checked by a capped list. `get` is checked by a capped
/// list and, where the list names a first object, a get of that
/// object; where it names none, the verb counts as permitted. A
/// refusal for lack of permission is reported for the verb that met
/// it; any other failure is reported as the error it stands for.
pub open spec fn verbs_step(
    resource: ResourceKind,
    namespace: Option<Seq<char>>,
    verbs: Seq<Seq<char>>,
    replies: Seq<ApiReply>,
) -> ClusterStepView
    decreases verbs.len(),
{
    let scope = permission_scope(resource, namespace);
    if verbs.len() == 0 {
        ClusterStepView::Finished(Ok(()))
    } else if replies.len() == 0 {
        ClusterStepView::Ask(probe_list(resource, scope))
    } else if verbs[0] == "list"@ {
        let denied = permission_denied_text(resource, verbs[0], namespace);
        if probe_verdict(replies[0], denied) is Err {
            ClusterStepView::Finished(probe_verdict(replies[0], denied))
        } else {
            verbs_step(resource, namespace, verbs.skip(1), replies.skip(1))
        }
    } else {
        match reply_error(replies[0]) {
            Some(error) => ClusterStepView::Finished(Err(error)),
            None => match first_listed_name(replies[0]) {
                None => verbs_step(resource, namespace, verbs.skip(1), replies.skip(1)),
                Some(name) => {
                    let denied = permission_denied_text(resource, verbs[0], namespace);
                    if replies.len() == 1 {
                        ClusterStepView::Ask(probe_get(resource, scope, name))
                    } else if probe_verdict(replies[1], denied) is Err {
                        ClusterStepView::Finished(probe_verdict(replies[1], denied))
                    } else {
                        verbs_step(resource, namespace, verbs.skip(1), replies.skip(2))
                    }
                },
            },
        }
    }
}

/// The step of the check of specific permissions after the replies
/// received so far. An unsupported resource, or else the first
/// unsupported verb, is invalid input, found before anything is asked
/// of the cluster.
pub open spec fn permission_step(
    resource: Seq<char>,
    verbs: Seq<Seq<char>>,
    namespace: Option<Seq<char>>,
    replies: Seq<ApiReply>,
) -> ClusterStepView {
    match parse_resource(resource) {
        None => ClusterStepView::Finished(
            failure(
                ErrorKind::InvalidInput,
                "Unsupported resource '"@ + resource + "' for permission validation"@,
            ),
        ),
        Some(kind) => match first_unsupported_verb(verbs) {
            Some(verb) => ClusterStepView::Finished(
                failure(
                    ErrorKind::InvalidInput,
                    "Unsupported verb '"@ + verb + "' for resource validation"@,
                ),
            ),
            None => if replies.len() == 0 {
                ClusterStepView::Ask(ApiRequestView::Connect)
            } else if client_verdict(replies[0], PERMISSION_CLIENT_FAILED@) is Err {
                ClusterStepView::Finished(client_verdict(replies[0], PERMISSION_CLIENT_FAILED@))
            } else {
                verbs_step(kind, namespace, verbs, replies.skip(1))
            },
        },
    }
}

/// The step of the check that a namespace exists: create the client,
/// get the namespace, and report a missing namespace, a refusal, or
/// any other failure.
pub open spec fn namespace_exists_step(namespace: Seq<char>, replies: Seq<ApiReply>)
    -> ClusterStepView {
    if replies.len() == 0 {
        ClusterStepView::Ask(ApiRequestView::Connect)
    } else if reply_error(replies[0]) is Some {
        ClusterStepView::Finished(Err(reply_error(replies[0])->Some_0))
    } else if replies.len() == 1 {
        ClusterStepView::Ask(probe_get(ResourceKind::Namespaces, ScopeView::Cluster, namespace))
    } else if is_missing(replies[1]) {
        ClusterStepView::Finished(
            failure(
                ErrorKind::ResourceNotFound,
                "Namespace '"@ + namespace
                    + "' does not exist in the cluster. Use 'kubectl get namespaces' to list available namespaces."@,
            ),
        )
    } else {
        ClusterStepView::Finished(probe_verdict(replies[1], NAMESPACE_GET_DENIED@))
    }
}

/// Once the client exists, a refusal to list nodes ends the access
/// check with a missing permission, whatever replies follow: nothing
/// is asked about pods, services, endpoints or namespaces.
pub proof fn lemma_refused_nodes_end_access_check(replies: Seq<ApiReply>)
    requires
        replies.len() >= 2,
        client_verdict(replies[0], ACCESS_CLIENT_FAILED@) is Ok,
        is_forbidden(replies[1]),
    ensures
        access_step(replies) == ClusterStepView::Finished(
            failure(ErrorKind::PermissionDenied, NODES_DENIED@),
        ),
        access_step(replies.take(2)) == access_step(replies),
{
}

/// The access check is fail-fast: the first reply that reports a
/// failure ends it with an error, and nothing that follows that reply
/// is looked at.
pub proof fn lemma_first_failure_ends_access_check(replies: Seq<ApiReply>, place: int)
    requires
        0 <= place < replies.len(),
        forall|i: int| 0 <= i < place ==> reply_error(#[trigger] replies[i]) is None,
        reply_error(replies[place]) is Some,
        place < 3 || place < 5 + pods_probe_len(replies[2]),
    ensures
        access_step(replies) matches ClusterStepView::Finished(Err(_)),
        access_step(replies) == access_step(replies.take(place + 1)),
{
    let upto = replies.take(place + 1);
    assert forall|i: int| 0 <= i <= place implies upto[i] == replies[i] by {}
}

/// The access check succeeds only if the client was created and every
/// one of its probes succeeded: the lists of nodes, pods, services,
/// endpoints and namespaces, and the get of the first listed pod
/// where there is one.
pub proof fn lemma_access_needs_every_probe(replies: Seq<ApiReply>)
    requires
        access_step(replies) == ClusterStepView::Finished(Ok(())),
    ensures
        replies.len() >= 5 + pods_probe_len(replies[2]),
        forall|i: int|
            0 <= i < 5 + pods_probe_len(replies[2]) ==> reply_error(#[trigger] replies[i]) is None,
{
}

/// The access check never ends before a reply has failed or all its
/// probes were answered: as long as every reply so far is a success,
/// and fewer replies have come than the check has probes, it asks for
/// the next.
pub proof fn lemma_access_asks_in_order(replies: Seq<ApiReply>)
    requires
        forall|i: int| 0 <= i < replies.len() ==> reply_error(#[trigger] replies[i]) is None,
        replies.len() < 3 || replies.len() < 5 + pods_probe_len(replies[2]),
    ensures
        access_step(replies) is Ask,
        replies.len() == 0 ==> access_step(replies) == ClusterStepView::Ask(ApiRequestView::Connect),
        replies.len() == 1 ==> access_step(replies) == ClusterStepView::Ask(
            probe_list(ResourceKind::Nodes, ScopeView::Cluster),
        ),
        replies.len() == 2 ==> access_step(replies) == ClusterStepView::Ask(
            probe_list(ResourceKind::Pods, ScopeView::Namespace(PROBE_NAMESPACE@)),
        ),
{
}

/// Of the check of specific permissions: an unsupported resource, or
/// an unsupported verb anywhere among the verbs, is invalid input
/// whatever the replies, so before anything is asked of the cluster.
pub proof fn lemma_unsupported_permission_is_invalid(
    resource: Seq<char>,
    verbs: Seq<Seq<char>>,
    namespace: Option<Seq<char>>,
    replies: Seq<ApiReply>,
)
    requires
        parse_resource(resource) is None || exists|i: int|
            0 <= i < verbs.len() && !is_verb(#[trigger] verbs[i]),
    ensures
        permission_step(resource, verbs, namespace, replies) matches ClusterStepView::Finished(
            Err(error),
        ) && error.kind == ErrorKind::InvalidInput,
{
    if parse_resource(resource) is Some {
        let i = choose|i: int| 0 <= i < verbs.len() && !is_verb(#[trigger] verbs[i]);
        lemma_unsupported_verb_found(verbs, i);
    }
}

/// A verb that cannot be checked is found wherever it stands.
proof fn lemma_unsupported_verb_found(verbs: Seq<Seq<char>>, index: int)
    requires
        0 <= index < verbs.len(),
        !is_verb(verbs[index]),
    ensures
        first_unsupported_verb(verbs) is Some,
    decreases index,
{
    if is_verb(verbs[0]) {
        lemma_unsupported_verb_found(verbs.skip(1), index - 1);
    }
}

/// A list request capped at one object, without a deadline.
fn list_request(resource: ResourceKind, scope: Scope) -> (request: ApiRequest)
    ensures
        request@ == probe_list(resource, scope@),
{
    ApiRequest::List { resource, scope, limit: Some(1), budget_secs: None }
}

/// The scope of the access check's namespaced probes.
fn probe_scope() -> (scope: Scope)
    ensures
        scope@ == ScopeView::Namespace(PROBE_NAMESPACE@),
{
    Scope::Namespace(String::from_str(PROBE_NAMESPACE))
}

/// Judges the reply to a probe.
fn judge_probe(reply: &ApiReply, denied: &str) -> (verdict: NetInspectResult<()>)
    ensures
        result_view(verdict) == probe_verdict(*reply, denied@),
{
    if reply.is_forbidden() {
        Err(NetInspectError::PermissionDenied(String::from_str(denied)))
    } else {
        match reply.error() {
            Some(error) => Err(error),
            None => Ok(()),
        }
    }
}

/// Judges the reply to the creation of the client.
fn judge_client(reply: &ApiReply, introduction: &str) -> (verdict: NetInspectResult<()>)
    ensures
        result_view(verdict) == client_verdict(*reply, introduction@),
{
    match reply {
        ApiReply::Failed(cause) => Err(
            NetInspectError::KubernetesConnection(join(introduction, cause.text.as_str())),
        ),
        _ => match reply.error() {
            Some(error) => Err(error),
            None => Ok(()),
        },
    }
}

/// One step of a probe that is one list call.
fn list_probe(replies: &[ApiReply], resource: ResourceKind, scope: Scope, denied: &str) -> (step:
    ClusterStep)
    ensures
        step@ == list_probe_step(replies@, resource, scope@, denied@),
{
    if replies.len() == 0 {
        ClusterStep::Ask(list_request(resource, scope))
    } else {
        ClusterStep::Finished(judge_probe(&replies[0], denied))
    }
}

/// The replies from position `from` on.
fn replies_from(replies: &[ApiReply], from: usize) -> (rest: &[ApiReply])
    ensures
        rest@ == if from <= replies@.len() {
            replies@.skip(from as int)
        } else {
            Seq::<ApiReply>::empty()
        },
{
    if from <= replies.len() {
        slice_subrange(replies, from, replies.len())
    } else {
        slice_subrange(replies, 0, 0)
    }
}

/// Whether a step is the successful end of a probe.
fn passed(step: &ClusterStep) -> (answer: bool)
    ensures
        answer == (step@ == ClusterStepView::Finished(Ok(()))),
{
    match step {
        ClusterStep::Finished(Ok(_)) => true,
        _ => false,
    }
}

/// The resource kind of the given name, if its permissions can be
/// checked one by one.
fn resource_of(name: &str) -> (kind: Option<ResourceKind>)
    ensures
        kind == parse_resource(name@),
{
    if same_text(name, "pods") {
        Some(ResourceKind::Pods)
    } else if same_text(name, "nodes") {
        Some(ResourceKind::Nodes)
    } else if same_text(name, "services") {
        Some(ResourceKind::Services)
    } else if same_text(name, "namespaces") {
        Some(ResourceKind::Namespaces)
    } else {
        None
    }
}

/// The first of `verbs` that cannot be checked, if there is one.
fn unsupported_verb<'a>(verbs: &[&'a str]) -> (verb: Option<&'a str>)
    ensures
        text_of(verb) == first_unsupported_verb(verbs.deep_view()),
{
    let ghost all = verbs.deep_view();
    let mut i: usize = 0;
    assert(all.skip(0) =~= all);
    while i < verbs.len()
        invariant
            i <= verbs.len(),
            all == verbs.deep_view(),
            first_unsupported_verb(all.skip(i as int)) == first_unsupported_verb(all),
        decreases verbs.len() - i,
    {
        let verb = verbs[i];
        assert(all.skip(i as int).skip(1) =~= all.skip(i + 1));
        if !same_text(verb, "list") && !same_text(verb, "get") {
            return Some(verb);
        }
        i += 1;
    }
    None
}

/// Where the check of one permission looks.
fn scope_of(resource: ResourceKind, namespace: Option<&str>) -> (scope: Scope)
    ensures
        scope@ == permission_scope(resource, text_of(namespace)),
{
    if resource.is_cluster_scoped() {
        Scope::Cluster
    } else {
        match namespace {
            Some(name) => Scope::Namespace(String::from_str(name)),
            None => Scope::DefaultNamespace,
        }
    }
}

/// What a caller is told who lacks the permission for `verb` on
/// `resource`.
fn denied_text(resource: ResourceKind, verb: &str, namespace: Option<&str>) -> (text: String)
    ensures
        text@ == permission_denied_text(resource, verb@, text_of(namespace)),
{
    let mut text = String::from_str("Missing RBAC permission: '");
    text.append(resource.plural());
    text.append("/");
    text.append(verb);
    if resource.is_cluster_scoped() {
        text.append("' (cluster-level)");
    } else {
        text.append("' in namespace '");
        match namespace {
            Some(name) => text.append(name),
            None => text.append(PROBE_NAMESPACE),
        }
        text.append("'");
    }
    text
}

impl Validator {
    /// Validate nodes access - required for cluster-level network debugging
    pub fn validate_nodes_access(replies: &[ApiReply]) -> (step: ClusterStep)
        ensures
            step@ == list_probe_step(
                replies@,
                ResourceKind::Nodes,
                ScopeView::Cluster,
                NODES_DENIED@,
            ),
    {
        list_probe(replies, ResourceKind::Nodes, Scope::Cluster, NODES_DENIED)
    }

    /// Validate pods access - core requirement for network debugging
    pub fn validate_pods_access(replies: &[ApiReply]) -> (step: ClusterStep)
        ensures
            step@ == pods_probe_step(replies@),
    {
        if replies.len() == 0 {
            return ClusterStep::Ask(list_request(ResourceKind::Pods, probe_scope()));
        }
        let listed = judge_probe(&replies[0], PODS_DENIED);
        if listed.is_err() {
            return ClusterStep::Finished(listed);
        }
        match replies[0].first_listed_name() {
            None => ClusterStep::Finished(Ok(())),
            Some(name) => {
                if replies.len() == 1 {
                    ClusterStep::Ask(
                        ApiRequest::Get {
                            resource: ResourceKind::Pods,
                            scope: probe_scope(),
                            name: String::from_str(name),
                            budget_secs: None,
                        },
                    )
                } else {
                    ClusterStep::Finished(judge_probe(&replies[1], PODS_GET_DENIED))
                }
            },
        }
    }

    /// Validate services access - required for service network debugging
    pub fn validate_services_access(replies: &[ApiReply]) -> (step: ClusterStep)
        ensures
            step@ == list_probe_step(
                replies@,
                ResourceKind::Services,
                ScopeView::Namespace(PROBE_NAMESPACE@),
                SERVICES_DENIED@,
            ),
    {
        list_probe(replies, ResourceKind::Services, probe_scope(), SERVICES_DENIED)
    }

    /// Validate endpoints access - required for service endpoint analysis
    pub fn validate_endpoints_access(replies: &[ApiReply]) -> (step: ClusterStep)
        ensures
            step@ == list_probe_step(
                replies@,
                ResourceKind::Endpoints,
                ScopeView::Namespace(PROBE_NAMESPACE@),
                ENDPOINTS_DENIED@,
            ),
    {
        list_probe(replies, ResourceKind::Endpoints, probe_scope(), ENDPOINTS_DENIED)
    }

    /// Validate namespaces access - required for multi-namespace network debugging
    pub fn validate_namespaces_access(replies: &[ApiReply]) -> (step: ClusterStep)
        ensures
            step@ == list_probe_step(
                replies@,
                ResourceKind::Namespaces,
                ScopeView::Cluster,
                NAMESPACES_DENIED@,
            ),
    {
        list_probe(replies, ResourceKind::Namespaces, Scope::Cluster, NAMESPACES_DENIED)
    }

    /// Validate that required tools/permissions are available with comprehensive RBAC checks
    ///
    /// Given the replies to the requests asked for so far, in order,
    /// returns the next request or the outcome of the check.
    pub fn validate_kubernetes_access(replies: &[ApiReply]) -> (step: ClusterStep)
        ensures
            step@ == access_step(replies@),
    {
        if replies.len() == 0 {
            return ClusterStep::Ask(ApiRequest::Connect);
        }
        let client = judge_client(&replies[0], ACCESS_CLIENT_FAILED);
        if client.is_err() {
            return ClusterStep::Finished(client);
        }
        let nodes = Self::validate_nodes_access(replies_from(replies, 1));
        if !passed(&nodes) {
            return nodes;
        }
        let pods = Self::validate_pods_access(replies_from(replies, 2));
        if !passed(&pods) {
            return pods;
        }
        let used: usize = if replies[2].first_listed_name().is_some() {
            4
        } else {
            3
        };
        let services = Self::validate_services_access(replies_from(replies, used));
        if !passed(&services) {
            return services;
        }
        let endpoints = Self::validate_endpoints_access(replies_from(replies, used + 1));
        if !passed(&endpoints) {
            return endpoints;
        }
        Self::validate_namespaces_access(replies_from(replies, used + 2))
    }
    /// Validate specific RBAC permissions for a given resource and verbs
    ///
    /// Given the replies to the requests asked for so far, in order,
    /// returns the next request or the outcome of the check.
    pub fn validate_specific_permission(
        resource: &str,
        verbs: &[&str],
        namespace: Option<&str>,
        replies: &[ApiReply],
    ) -> (step: ClusterStep)
        ensures
            step@ == permission_step(resource@, verbs.deep_view(), text_of(namespace), replies@),
    {
        let kind = match resource_of(resource) {
            Some(kind) => kind,
            None => {
                return ClusterStep::Finished(
                    Err(
                        NetInspectError::InvalidInput(
                            join3(
                                "Unsupported resource '",
                                resource,
                                "' for permission validation",
                            ),
                        ),
                    ),
                );
            },
        };
        match unsupported_verb(verbs) {
            Some(verb) => {
                return ClusterStep::Finished(
                    Err(
                        NetInspectError::InvalidInput(
                            join3("Unsupported verb '", verb, "' for resource validation"),
                        ),
                    ),
                );
            },
            None => {},
        }
        if replies.len() == 0 {
            return ClusterStep::Ask(ApiRequest::Connect);
        }
        let client = judge_client(&replies[0], PERMISSION_CLIENT_FAILED);
        if client.is_err() {
            return ClusterStep::Finished(client);
        }
        let ghost all = verbs.deep_view();
        let ghost space = text_of(namespace);
        let mut v: usize = 0;
        let mut r: usize = 1;
        assert(all.skip(0) =~= all);
        while v < verbs.len()
            invariant
                v <= verbs.len(),
                1 <= r <= replies.len(),
                all == verbs.deep_view(),
                space == text_of(namespace),
                verbs_step(kind, space, all.skip(v as int), replies@.skip(r as int))
                    == permission_step(resource@, all, space, replies@),
            decreases verbs.len() - v,
        {
            let verb = verbs[v];
            proof {
                assert(all.skip(v as int).skip(1) =~= all.skip(v + 1));
            }
            if r == replies.len() {
                return ClusterStep::Ask(list_request(kind, scope_of(kind, namespace)));
            }
            assert(replies@.skip(r as int).skip(1) =~= replies@.skip(r + 1));
            if same_text(verb, "list") {
                let denied = denied_text(kind, verb, namespace);
                let verdict = judge_probe(&replies[r], denied.as_str());
                if verdict.is_err() {
                    return ClusterStep::Finished(verdict);
                }
                r += 1;
            } else {
                match replies[r].error() {
                    Some(error) => {
                        return ClusterStep::Finished(Err(error));
                    },
                    None => {},
                }
                match replies[r].first_listed_name() {
                    None => {
                        r += 1;
                    },
                    Some(name) => {
                        if r + 1 == replies.len() {
                            return ClusterStep::Ask(
                                ApiRequest::Get {
                                    resource: kind,
                                    scope: scope_of(kind, namespace),
                                    name: String::from_str(name),
                                    budget_secs: None,
                                },
                            );
                        }
                        assert(replies@.skip(r as int).skip(2) =~= replies@.skip(r + 2));
                        let denied = denied_text(kind, verb, namespace);
                        let verdict = judge_probe(&replies[r + 1], denied.as_str());
                        if verdict.is_err() {
                            return ClusterStep::Finished(verdict);
                        }
                        r += 2;
                    },
                }
            }
            v += 1;
        }
        ClusterStep::Finished(Ok(()))
    }

    /// Validate that a namespace exists in the cluster
    ///
    /// Given the replies to the requests asked for so far, in order,
    /// returns the next request or the outcome of the check.
    pub fn validate_namespace_exists(namespace: &str, replies: &[ApiReply]) -> (step: ClusterStep)
        ensures
            step@ == namespace_exists_step(namespace@, replies@),
    {
        if replies.len() == 0 {
            return ClusterStep::Ask(ApiRequest::Connect);
        }
        match replies[0].error() {
            Some(error) => {
                return ClusterStep::Finished(Err(error));
            },
            None => {},
        }
        if replies.len() == 1 {
            return ClusterStep::Ask(
                ApiRequest::Get {
                    resource: ResourceKind::Namespaces,
                    scope: Scope::Cluster,
                    name: String::from_str(namespace),
                    budget_secs: None,
                },
            );
        }
        if replies[1].is_missing() {
            ClusterStep::Finished(
                Err(
                    NetInspectError::ResourceNotFound(
                        join3(
                            "Namespace '",
                            namespace,
                            "' does not exist in the cluster. Use 'kubectl get namespaces' to list available namespaces.",
                        ),
                    ),
                ),
            )
        } else {
            ClusterStep::Finished(judge_probe(&replies[1], NAMESPACE_GET_DENIED))
        }
    }
}

} // verus!
