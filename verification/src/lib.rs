//! Read-only inspection of a Kubernetes cluster's network setup: input
//! validation, permission probing, CNI detection, pod connectivity
//! testing, and the error taxonomy that ties them to exit codes.
//!
//! The library decides; it does not act. Whatever needs the cluster,
//! a pod or the clock is asked of the caller: a procedure such as
//! [`Validator::validate_kubernetes_access`] or [`commands::diagnose`]
//! takes the replies received so far and returns the next request, or
//! the outcome once it is known. The caller performs the request,
//! appends the reply and asks again. Every procedure is a function of
//! its arguments alone, and its contract says which.
//!
//! - [`errors`]: the kinds of failure, their exit codes and hints.
//! - [`validation`]: the grammar of pod names, namespaces and pod IPs,
//!   the kubeconfig check, and the RBAC setup script.
//! - [`permissions`]: the probes that infer what the caller may do.
//! - [`commands`]: the diagnosis, the test of one pod, the detection
//!   of the network plugin and the connectivity tester.
//! - [`cluster`]: the requests and replies exchanged with the caller.
//! - [`text`]: the few operations on text that the rest is built on.

pub mod cluster;
pub mod commands;
pub mod errors;
pub mod permissions;
pub mod text;
pub mod validation;

pub use errors::{NetInspectError, NetInspectResult};
pub use validation::Validator;
