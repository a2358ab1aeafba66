//! The error taxonomy: every failure the tool reports is one
//! [`NetInspectError`], whose kind fixes the process exit code and the
//! troubleshooting hint shown with it.

use vstd::prelude::*;
use vstd::string::StringExecFns;

use crate::text::join;

verus! {

/// The closed set of failure classes.
#[derive(Clone, Copy, Debug, PartialEq, Eq, Structural)]
pub enum ErrorKind {
    /// The control-plane API could not be reached or answered with an
    /// unexpected failure.
    KubernetesConnection,
    /// The credentials in use lack a permission.
    PermissionDenied,
    /// The local configuration is missing or unusable.
    Configuration,
    /// A pod could not be reached over the network.
    NetworkConnectivity,
    /// An argument is malformed.
    InvalidInput,
    /// A named resource does not exist, or is not in a usable state.
    ResourceNotFound,
    /// A deadline elapsed.
    Timeout,
    /// Anything else.
    Runtime,
}

/// A failure: its kind, and a message for the user.
#[derive(Debug, Clone, PartialEq, Eq)]
pub enum NetInspectError {
    /// Kubernetes API connection errors (exit code 3)
    KubernetesConnection(String),
    /// RBAC/Permission errors (exit code 5)
    PermissionDenied(String),
    /// Configuration errors (exit code 2)
    Configuration(String),
    /// Network connectivity issues (exit code 4)
    NetworkConnectivity(String),
    /// Invalid input/arguments (exit code 2)
    InvalidInput(String),
    /// Resource not found (exit code 4)
    ResourceNotFound(String),
    /// Timeout errors (exit code 4)
    Timeout(String),
    /// General runtime errors (exit code 1)
    Runtime(String),
}

/// Result type alias for convenience
pub type NetInspectResult<T> = Result<T, NetInspectError>;

/// Why a call to the control-plane API failed.
#[derive(Debug, Clone, PartialEq, Eq)]
pub enum ApiCause {
    /// The API server answered with an error status.
    Status { code: u16, message: String },
    /// The request could not be put on the wire; the text describes the
    /// HTTP error.
    Http(String),
    /// Authentication failed; the text describes how.
    Auth(String),
    /// API discovery failed; the text describes how.
    Discovery(String),
    /// Any other client-side failure.
    Other,
}

/// A failed call to the control-plane API.
#[derive(Debug, Clone, PartialEq, Eq)]
pub struct ApiFailure {
    /// What went wrong.
    pub cause: ApiCause,
    /// The client's own rendering of the whole error.
    pub text: String,
}

/// A failed HTTP request to a pod.
#[derive(Debug, Clone, PartialEq, Eq)]
pub struct TransportFailure {
    /// The request ran into its deadline.
    pub timed_out: bool,
    /// The connection could not be established.
    pub connect: bool,
    /// The HTTP client's own rendering of the error.
    pub text: String,
}

/// The mathematical model of a [`NetInspectError`].
pub struct ErrorView {
    pub kind: ErrorKind,
    pub message: Seq<char>,
}

impl View for NetInspectError {
    type V = ErrorView;

    open spec fn view(&self) -> ErrorView {
        match self {
            NetInspectError::KubernetesConnection(m) => ErrorView {
                kind: ErrorKind::KubernetesConnection,
                message: m@,
            },
            NetInspectError::PermissionDenied(m) => ErrorView {
                kind: ErrorKind::PermissionDenied,
                message: m@,
            },
            NetInspectError::Configuration(m) => ErrorView {
                kind: ErrorKind::Configuration,
                message: m@,
            },
            NetInspectError::NetworkConnectivity(m) => ErrorView {
                kind: ErrorKind::NetworkConnectivity,
                message: m@,
            },
            NetInspectError::InvalidInput(m) => ErrorView {
                kind: ErrorKind::InvalidInput,
                message: m@,
            },
            NetInspectError::ResourceNotFound(m) => ErrorView {
                kind: ErrorKind::ResourceNotFound,
                message: m@,
            },
            NetInspectError::Timeout(m) => ErrorView { kind: ErrorKind::Timeout, message: m@ },
            NetInspectError::Runtime(m) => ErrorView { kind: ErrorKind::Runtime, message: m@ },
        }
    }
}

/// The model of a result that carries no value on success.
pub open spec fn result_view(r: NetInspectResult<()>) -> Result<(), ErrorView> {
    match r {
        Ok(_) => Ok(()),
        Err(e) => Err(e@),
    }
}

/// The model of an error that may be absent.
pub open spec fn error_view(error: Option<NetInspectError>) -> Option<ErrorView> {
    match error {
        Some(e) => Some(e@),
        None => None,
    }
}

/// Shorthand for the model of a failure of the given kind.
pub open spec fn failure(kind: ErrorKind, message: Seq<char>) -> Result<(), ErrorView> {
    Err(ErrorView { kind, message })
}

/// The exit code of each kind: 1 for runtime errors, 2 for bad
/// configuration or input, 3 for connection failures, 4 for anything
/// not found, timed out or unreachable, 5 for missing permissions.
pub open spec fn exit_code_of(kind: ErrorKind) -> int {
    match kind {
        ErrorKind::KubernetesConnection => 3,
        ErrorKind::PermissionDenied => 5,
        ErrorKind::Configuration => 2,
        ErrorKind::NetworkConnectivity => 4,
        ErrorKind::InvalidInput => 2,
        ErrorKind::ResourceNotFound => 4,
        ErrorKind::Timeout => 4,
        ErrorKind::Runtime => 1,
    }
}

/// The label that precedes the message when an error is shown.
pub open spec fn label_text(kind: ErrorKind) -> Seq<char> {
    match kind {
        ErrorKind::KubernetesConnection => "Kubernetes Connection Error:"@,
        ErrorKind::PermissionDenied => "Permission Denied:"@,
        ErrorKind::Configuration => "Configuration Error:"@,
        ErrorKind::NetworkConnectivity => "Network Error:"@,
        ErrorKind::InvalidInput => "Invalid Input:"@,
        ErrorKind::ResourceNotFound => "Resource Not Found:"@,
        ErrorKind::Timeout => "Timeout:"@,
        ErrorKind::Runtime => "Runtime Error:"@,
    }
}

/// The first line of the troubleshooting hint of each kind.
pub open spec fn hint_summary_text(kind: ErrorKind) -> Seq<char> {
    match kind {
        ErrorKind::KubernetesConnection => "Ensure kubeconfig is valid and cluster is accessible"@,
        ErrorKind::PermissionDenied => "Check RBAC permissions for your service account"@,
        ErrorKind::Configuration => "Verify kubeconfig file and context"@,
        ErrorKind::NetworkConnectivity => "Network connectivity issue detected"@,
        ErrorKind::InvalidInput => "Check command syntax and arguments"@,
        ErrorKind::ResourceNotFound => "Verify resource exists in the specified namespace"@,
        ErrorKind::Timeout => "Operation timed out - cluster may be slow or unreachable"@,
        ErrorKind::Runtime => "Unexpected error occurred"@,
    }
}

/// The second line of the troubleshooting hint of each kind.
pub open spec fn hint_action_text(kind: ErrorKind) -> Seq<char> {
    match kind {
        ErrorKind::KubernetesConnection => "Check: kubectl cluster-info"@,
        ErrorKind::PermissionDenied => "Required: pods/get, nodes/list"@,
        ErrorKind::Configuration => "Check: kubectl config current-context"@,
        ErrorKind::NetworkConnectivity => "Pod may not be running or port may be closed"@,
        ErrorKind::InvalidInput => "Use --help for usage information"@,
        ErrorKind::ResourceNotFound => "Check: kubectl get pods -n <namespace>"@,
        ErrorKind::Timeout => "Try again or use kubectl directly to test connectivity"@,
        ErrorKind::Runtime => "Please check logs and try again"@,
    }
}

/// The heading of every troubleshooting hint.
pub const HINT_HEADING: &'static str = "\u{1f4a1} Troubleshooting:";

/// The bullet that opens the second line of every hint.
pub const HINT_BULLET: &'static str = "  \u{2022}";

/// The text of a detailed message: the message itself, then the two
/// lines of the hint that belongs to the kind.
pub open spec fn detailed_text(kind: ErrorKind, message: Seq<char>) -> Seq<char> {
    message + "\n"@ + HINT_HEADING@ + " "@ + hint_summary_text(kind) + "\n"@ + HINT_BULLET@ + " "@
        + hint_action_text(kind)
}

/// The one-line rendering of an error: label, a space, the message.
pub open spec fn display_text(kind: ErrorKind, message: Seq<char>) -> Seq<char> {
    label_text(kind) + " "@ + message
}

/// The error that stands for an error status of the API server: 401 and
/// 403 are missing permissions, 404 is a missing resource, every other
/// status a connection failure.
pub open spec fn classify_api_error(code: u16, message: Seq<char>) -> ErrorView {
    if code == 401 || code == 403 {
        ErrorView {
            kind: ErrorKind::PermissionDenied,
            message: "Kubernetes API access denied: "@ + message,
        }
    } else if code == 404 {
        ErrorView { kind: ErrorKind::ResourceNotFound, message: "Resource not found: "@ + message }
    } else {
        ErrorView {
            kind: ErrorKind::KubernetesConnection,
            message: "Kubernetes API error: "@ + message,
        }
    }
}

/// The error that stands for a failed API call.
pub open spec fn api_failure_error(failure: ApiFailure) -> ErrorView {
    match failure.cause {
        ApiCause::Status { code, message } => classify_api_error(code, message@),
        ApiCause::Http(detail) => ErrorView {
            kind: ErrorKind::KubernetesConnection,
            message: "HTTP error connecting to Kubernetes: "@ + detail@,
        },
        ApiCause::Auth(detail) => ErrorView {
            kind: ErrorKind::PermissionDenied,
            message: "Authentication failed: "@ + detail@,
        },
        ApiCause::Discovery(detail) => ErrorView {
            kind: ErrorKind::KubernetesConnection,
            message: "Service discovery failed: "@ + detail@,
        },
        ApiCause::Other => ErrorView {
            kind: ErrorKind::KubernetesConnection,
            message: "Kubernetes client error: "@ + failure.text@,
        },
    }
}

/// The error that stands for a failed HTTP request to a pod: a timeout
/// if the request timed out, else a connectivity error that says
/// whether the connection or the request failed.
pub open spec fn classify_transport_error(failure: TransportFailure) -> ErrorView {
    if failure.timed_out {
        ErrorView {
            kind: ErrorKind::Timeout,
            message: "HTTP request timed out - pod may be unreachable"@,
        }
    } else if failure.connect {
        ErrorView {
            kind: ErrorKind::NetworkConnectivity,
            message: "Failed to connect to pod: "@ + failure.text@,
        }
    } else {
        ErrorView {
            kind: ErrorKind::NetworkConnectivity,
            message: "HTTP request failed: "@ + failure.text@,
        }
    }
}

/// Every kind of failure has an exit code from 1 to 5: no failure
/// leaves with the code of success.
pub proof fn lemma_exit_code_range(kind: ErrorKind)
    ensures
        1 <= exit_code_of(kind) <= 5,
{
}

impl ErrorKind {
    /// Get the exit code for this kind of error.
    pub fn exit_code(self) -> (code: i32)
        ensures
            code == exit_code_of(self),
    {
        match self {
            ErrorKind::KubernetesConnection => 3,
            ErrorKind::PermissionDenied => 5,
            ErrorKind::Configuration => 2,
            ErrorKind::NetworkConnectivity => 4,
            ErrorKind::InvalidInput => 2,
            ErrorKind::ResourceNotFound => 4,
            ErrorKind::Timeout => 4,
            ErrorKind::Runtime => 1,
        }
    }

    /// The label that precedes the message when an error of this kind is
    /// shown.
    pub fn label(self) -> (text: &'static str)
        ensures
            text@ == label_text(self),
    {
        match self {
            ErrorKind::KubernetesConnection => "Kubernetes Connection Error:",
            ErrorKind::PermissionDenied => "Permission Denied:",
            ErrorKind::Configuration => "Configuration Error:",
            ErrorKind::NetworkConnectivity => "Network Error:",
            ErrorKind::InvalidInput => "Invalid Input:",
            ErrorKind::ResourceNotFound => "Resource Not Found:",
            ErrorKind::Timeout => "Timeout:",
            ErrorKind::Runtime => "Runtime Error:",
        }
    }

    /// The first line of the troubleshooting hint for this kind.
    pub fn hint_summary(self) -> (text: &'static str)
        ensures
            text@ == hint_summary_text(self),
    {
        match self {
            ErrorKind::KubernetesConnection => "Ensure kubeconfig is valid and cluster is accessible",
            ErrorKind::PermissionDenied => "Check RBAC permissions for your service account",
            ErrorKind::Configuration => "Verify kubeconfig file and context",
            ErrorKind::NetworkConnectivity => "Network connectivity issue detected",
            ErrorKind::InvalidInput => "Check command syntax and arguments",
            ErrorKind::ResourceNotFound => "Verify resource exists in the specified namespace",
            ErrorKind::Timeout => "Operation timed out - cluster may be slow or unreachable",
            ErrorKind::Runtime => "Unexpected error occurred",
        }
    }

    /// The second line of the troubleshooting hint for this kind.
    pub fn hint_action(self) -> (text: &'static str)
        ensures
            text@ == hint_action_text(self),
    {
        match self {
            ErrorKind::KubernetesConnection => "Check: kubectl cluster-info",
            ErrorKind::PermissionDenied => "Required: pods/get, nodes/list",
            ErrorKind::Configuration => "Check: kubectl config current-context",
            ErrorKind::NetworkConnectivity => "Pod may not be running or port may be closed",
            ErrorKind::InvalidInput => "Use --help for usage information",
            ErrorKind::ResourceNotFound => "Check: kubectl get pods -n <namespace>",
            ErrorKind::Timeout => "Try again or use kubectl directly to test connectivity",
            ErrorKind::Runtime => "Please check logs and try again",
        }
    }
}

impl NetInspectError {
    /// The kind of this error.
    pub fn kind(&self) -> (kind: ErrorKind)
        ensures
            kind == self@.kind,
    {
        match self {
            NetInspectError::KubernetesConnection(_) => ErrorKind::KubernetesConnection,
            NetInspectError::PermissionDenied(_) => ErrorKind::PermissionDenied,
            NetInspectError::Configuration(_) => ErrorKind::Configuration,
            NetInspectError::NetworkConnectivity(_) => ErrorKind::NetworkConnectivity,
            NetInspectError::InvalidInput(_) => ErrorKind::InvalidInput,
            NetInspectError::ResourceNotFound(_) => ErrorKind::ResourceNotFound,
            NetInspectError::Timeout(_) => ErrorKind::Timeout,
            NetInspectError::Runtime(_) => ErrorKind::Runtime,
        }
    }

    /// The message this error carries.
    pub fn message(&self) -> (message: &str)
        ensures
            message@ == self@.message,
    {
        match self {
            NetInspectError::KubernetesConnection(m) => m.as_str(),
            NetInspectError::PermissionDenied(m) => m.as_str(),
            NetInspectError::Configuration(m) => m.as_str(),
            NetInspectError::NetworkConnectivity(m) => m.as_str(),
            NetInspectError::InvalidInput(m) => m.as_str(),
            NetInspectError::ResourceNotFound(m) => m.as_str(),
            NetInspectError::Timeout(m) => m.as_str(),
            NetInspectError::Runtime(m) => m.as_str(),
        }
    }

    /// Get the exit code for this error type
    pub fn exit_code(&self) -> (code: i32)
        ensures
            code == exit_code_of(self@.kind),
    {
        self.kind().exit_code()
    }

    /// The one-line rendering of this error: the label of its kind, a
    /// space, and the message.
    pub fn display_string(&self) -> (text: String)
        ensures
            text@ == display_text(self@.kind, self@.message),
    {
        let mut text = String::from_str(self.kind().label());
        text.append(" ");
        text.append(self.message());
        text
    }

    /// Create a user-friendly error message with troubleshooting hints
    pub fn detailed_message(&self) -> (text: String)
        ensures
            text@ == detailed_text(self@.kind, self@.message),
    {
        let kind = self.kind();
        let mut text = String::from_str(self.message());
        text.append("\n");
        text.append(HINT_HEADING);
        text.append(" ");
        text.append(kind.hint_summary());
        text.append("\n");
        text.append(HINT_BULLET);
        text.append(" ");
        text.append(kind.hint_action());
        text
    }

    /// The error that stands for an error status of the API server.
    pub fn from_api_status(code: u16, message: &str) -> (error: NetInspectError)
        ensures
            error@ == classify_api_error(code, message@),
    {
        if code == 401 || code == 403 {
            NetInspectError::PermissionDenied(join("Kubernetes API access denied: ", message))
        } else if code == 404 {
            NetInspectError::ResourceNotFound(join("Resource not found: ", message))
        } else {
            NetInspectError::KubernetesConnection(join("Kubernetes API error: ", message))
        }
    }

    /// The error that stands for a failed API call.
    pub fn from_api_failure(failure: &ApiFailure) -> (error: NetInspectError)
        ensures
            error@ == api_failure_error(*failure),
    {
        match &failure.cause {
            ApiCause::Status { code, message } => Self::from_api_status(*code, message.as_str()),
            ApiCause::Http(detail) => NetInspectError::KubernetesConnection(
                join("HTTP error connecting to Kubernetes: ", detail.as_str()),
            ),
            ApiCause::Auth(detail) => NetInspectError::PermissionDenied(
                join("Authentication failed: ", detail.as_str()),
            ),
            ApiCause::Discovery(detail) => NetInspectError::KubernetesConnection(
                join("Service discovery failed: ", detail.as_str()),
            ),
            ApiCause::Other => NetInspectError::KubernetesConnection(
                join("Kubernetes client error: ", failure.text.as_str()),
            ),
        }
    }

    /// The error that stands for a failed HTTP request to a pod.
    pub fn from_transport_failure(failure: &TransportFailure) -> (error: NetInspectError)
        ensures
            error@ == classify_transport_error(*failure),
    {
        if failure.timed_out {
            NetInspectError::Timeout(
                String::from_str("HTTP request timed out - pod may be unreachable"),
            )
        } else if failure.connect {
            NetInspectError::NetworkConnectivity(
                join("Failed to connect to pod: ", failure.text.as_str()),
            )
        } else {
            NetInspectError::NetworkConnectivity(
                join("HTTP request failed: ", failure.text.as_str()),
            )
        }
    }
}

} // verus!
