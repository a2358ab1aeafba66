//! The vocabulary shared with whoever talks to the control-plane API:
//! the requests the library asks for, and the replies it reads.
//!
//! The library never performs a request itself. Each of its procedures
//! is a function from the replies received so far to the next step:
//! either a request to perform, or the final outcome.

use vstd::prelude::*;
use vstd::string::StringExecFns;

use crate::errors::{
    api_failure_error, error_view, result_view, ApiCause, ApiFailure, ErrorKind, ErrorView, NetInspectError,
    NetInspectResult,
};
use crate::text::text_of;

verus! {

/// The resource kinds the tool inspects.
#[derive(Clone, Copy, Debug, PartialEq, Eq, Structural)]
pub enum ResourceKind {
    Nodes,
    Pods,
    Services,
    Endpoints,
    Namespaces,
}

/// Where a request looks for objects.
#[derive(Debug, Clone, PartialEq, Eq)]
pub enum Scope {
    /// The whole cluster.
    Cluster,
    /// The namespace of this name.
    Namespace(String),
    /// The namespace the client is configured to use by default.
    DefaultNamespace,
}

/// The model of a [`Scope`].
pub enum ScopeView {
    Cluster,
    Namespace(Seq<char>),
    DefaultNamespace,
}

impl View for Scope {
    type V = ScopeView;

    open spec fn view(&self) -> ScopeView {
        match self {
            Scope::Cluster => ScopeView::Cluster,
            Scope::Namespace(name) => ScopeView::Namespace(name@),
            Scope::DefaultNamespace => ScopeView::DefaultNamespace,
        }
    }
}

/// One operation on the control-plane API.
#[derive(Debug, Clone, PartialEq, Eq)]
pub enum ApiRequest {
    /// Create the client from the local configuration.
    Connect,
    /// List the objects of a kind, returning at most `limit` of them
    /// if a limit is given, within `budget_secs` seconds if a budget
    /// is given.
    List { resource: ResourceKind, scope: Scope, limit: Option<u32>, budget_secs: Option<u64> },
    /// Fetch one object by name, within `budget_secs` seconds if a
    /// budget is given.
    Get { resource: ResourceKind, scope: Scope, name: String, budget_secs: Option<u64> },
}

/// The model of an [`ApiRequest`].
pub enum ApiRequestView {
    Connect,
    List { resource: ResourceKind, scope: ScopeView, limit: Option<u32>, budget_secs: Option<u64> },
    Get { resource: ResourceKind, scope: ScopeView, name: Seq<char>, budget_secs: Option<u64> },
}

impl View for ApiRequest {
    type V = ApiRequestView;

    open spec fn view(&self) -> ApiRequestView {
        match self {
            ApiRequest::Connect => ApiRequestView::Connect,
            ApiRequest::List { resource, scope, limit, budget_secs } => ApiRequestView::List {
                resource: *resource,
                scope: scope@,
                limit: *limit,
                budget_secs: *budget_secs,
            },
            ApiRequest::Get { resource, scope, name, budget_secs } => ApiRequestView::Get {
                resource: *resource,
                scope: scope@,
                name: name@,
                budget_secs: *budget_secs,
            },
        }
    }
}

/// The status of an object, as far as the tool reads it.
#[derive(Debug, Clone, PartialEq, Eq)]
pub struct ObjectStatus {
    /// Of a node: the version string of its container runtime, if the
    /// node reports its system information.
    pub container_runtime: Option<String>,
    /// Of a pod: its phase.
    pub phase: Option<String>,
    /// Of a pod: its IP address.
    pub pod_ip: Option<String>,
}

/// An object of the cluster, as far as the tool reads it.
#[derive(Debug, Clone, PartialEq, Eq)]
pub struct ObjectInfo {
    /// The object's name.
    pub name: Option<String>,
    /// The keys of the object's annotations.
    pub annotation_keys: Vec<String>,
    /// The object's status.
    pub status: Option<ObjectStatus>,
}

/// What came back from a request.
#[derive(Debug, Clone, PartialEq, Eq)]
pub enum ApiReply {
    /// The client was created.
    Connected,
    /// The objects a list returned, in the order of the API's answer.
    Listed(Vec<ObjectInfo>),
    /// The object a get returned.
    Fetched(ObjectInfo),
    /// The request failed.
    Failed(ApiFailure),
    /// The request's time budget ran out; whatever it was doing was
    /// abandoned.
    TimedOut,
}

/// What a procedure wants next.
#[derive(Debug, PartialEq, Eq)]
pub enum ClusterStep {
    /// Perform this request and come back with its reply appended to
    /// the replies so far.
    Ask(ApiRequest),
    /// The procedure is over, with this outcome.
    Finished(NetInspectResult<()>),
}

/// The model of a [`ClusterStep`].
pub enum ClusterStepView {
    Ask(ApiRequestView),
    Finished(Result<(), ErrorView>),
}

impl View for ClusterStep {
    type V = ClusterStepView;

    open spec fn view(&self) -> ClusterStepView {
        match self {
            ClusterStep::Ask(request) => ClusterStepView::Ask(request@),
            ClusterStep::Finished(outcome) => ClusterStepView::Finished(result_view(*outcome)),
        }
    }
}

/// The message of the timeout reported where a request that set no
/// deadline of its own is reported as timed out.
pub const ELAPSED_MESSAGE: &'static str = "Operation timed out";

/// The error a reply stands for, if it reports a failure: the error of
/// the failed call, or a timeout.
pub open spec fn reply_error(reply: ApiReply) -> Option<ErrorView> {
    match reply {
        ApiReply::Failed(failure) => Some(api_failure_error(failure)),
        ApiReply::TimedOut => Some(
            ErrorView { kind: ErrorKind::Timeout, message: ELAPSED_MESSAGE@ },
        ),
        _ => None,
    }
}

/// The error a reply to a request with a deadline stands for, if it
/// reports a failure: an elapsed deadline is a timeout with the
/// message given for it.
pub open spec fn timed_error(reply: ApiReply, elapsed: Seq<char>) -> Option<ErrorView> {
    match reply {
        ApiReply::TimedOut => Some(ErrorView { kind: ErrorKind::Timeout, message: elapsed }),
        _ => reply_error(reply),
    }
}

/// Whether a reply is the API server's refusal for lack of permission
/// (status 403).
pub open spec fn is_forbidden(reply: ApiReply) -> bool {
    reply matches ApiReply::Failed(failure) && failure.cause matches ApiCause::Status {
        code,
        ..
    } && code == 403
}

/// Whether a reply is the API server's answer that the object does not
/// exist (status 404).
pub open spec fn is_missing(reply: ApiReply) -> bool {
    reply matches ApiReply::Failed(failure) && failure.cause matches ApiCause::Status {
        code,
        ..
    } && code == 404
}

/// The name of the first object of a list reply, if the reply is a
/// list, the list is not empty and its first object has a name.
pub open spec fn first_listed_name(reply: ApiReply) -> Option<Seq<char>> {
    match reply {
        ApiReply::Listed(items) => if items@.len() > 0 {
            match items@[0].name {
                Some(name) => Some(name@),
                None => None,
            }
        } else {
            None
        },
        _ => None,
    }
}

impl ResourceKind {
    /// The plural name of the kind, as the API spells it.
    pub open spec fn plural_text(self) -> Seq<char> {
        match self {
            ResourceKind::Nodes => "nodes"@,
            ResourceKind::Pods => "pods"@,
            ResourceKind::Services => "services"@,
            ResourceKind::Endpoints => "endpoints"@,
            ResourceKind::Namespaces => "namespaces"@,
        }
    }

    /// Whether objects of the kind live outside any namespace.
    pub open spec fn cluster_scoped(self) -> bool {
        self == ResourceKind::Nodes || self == ResourceKind::Namespaces
    }

    /// The plural name of the kind, as the API spells it.
    pub fn plural(self) -> (text: &'static str)
        ensures
            text@ == self.plural_text(),
    {
        match self {
            ResourceKind::Nodes => "nodes",
            ResourceKind::Pods => "pods",
            ResourceKind::Services => "services",
            ResourceKind::Endpoints => "endpoints",
            ResourceKind::Namespaces => "namespaces",
        }
    }

    /// Whether objects of the kind live outside any namespace.
    pub fn is_cluster_scoped(self) -> (answer: bool)
        ensures
            answer == self.cluster_scoped(),
    {
        match self {
            ResourceKind::Nodes => true,
            ResourceKind::Namespaces => true,
            _ => false,
        }
    }
}

impl ApiReply {
    /// The error this reply stands for, if it reports a failure.
    pub fn error(&self) -> (error: Option<NetInspectError>)
        ensures
            error_view(error) == reply_error(*self),
    {
        match self {
            ApiReply::Failed(failure) => Some(NetInspectError::from_api_failure(failure)),
            ApiReply::TimedOut => Some(
                NetInspectError::Timeout(String::from_str(ELAPSED_MESSAGE)),
            ),
            _ => None,
        }
    }

    /// The error a reply to a request with a deadline stands for.
    pub fn error_within(&self, elapsed: &str) -> (error: Option<NetInspectError>)
        ensures
            error_view(error) == timed_error(*self, elapsed@),
    {
        match self {
            ApiReply::TimedOut => Some(NetInspectError::Timeout(String::from_str(elapsed))),
            _ => self.error(),
        }
    }

    /// Whether this reply is a refusal for lack of permission.
    pub fn is_forbidden(&self) -> (answer: bool)
        ensures
            answer == is_forbidden(*self),
    {
        match self {
            ApiReply::Failed(failure) => match &failure.cause {
                ApiCause::Status { code, .. } => *code == 403,
                _ => false,
            },
            _ => false,
        }
    }

    /// Whether this reply says that the object does not exist.
    pub fn is_missing(&self) -> (answer: bool)
        ensures
            answer == is_missing(*self),
    {
        match self {
            ApiReply::Failed(failure) => match &failure.cause {
                ApiCause::Status { code, .. } => *code == 404,
                _ => false,
            },
            _ => false,
        }
    }

    /// The name of the first object of a list reply, if there is one.
    pub fn first_listed_name(&self) -> (name: Option<&str>)
        ensures
            text_of(name) == first_listed_name(*self),
    {
        match self {
            ApiReply::Listed(items) => {
                if items.len() > 0 {
                    match &items[0].name {
                        Some(name) => Some(name.as_str()),
                        None => None,
                    }
                } else {
                    None
                }
            },
            _ => None,
        }
    }
}

} // verus!
