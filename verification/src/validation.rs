//! Validation of user input and of the caller's access to the cluster.

use vstd::prelude::*;
use vstd::string::StringExecFns;
use vstd::utf8::{encode_utf8, is_ascii_chars, is_ascii_chars_encode_utf8};

use crate::errors::{failure, result_view, ErrorKind, ErrorView, NetInspectError, NetInspectResult};
use crate::text::{
    join, join3, in_some_part, lemma_split_covers, lemma_split_ends, lemma_split_join,
    lemma_split_nonempty, lemma_split_without_separator, split, split_chars, string_text, text_of,
    to_chars,
};

verus! {

/// Input validation utilities
pub struct Validator;

/// The longest pod name, in characters.
pub const MAX_POD_NAME_LEN: usize = 253;

/// The longest namespace name, in characters.
pub const MAX_NAMESPACE_LEN: usize = 63;

/// A lower-case letter of the Latin alphabet or a decimal digit.
pub open spec fn is_lower_alnum(c: char) -> bool {
    ('a' <= c && c <= 'z') || ('0' <= c && c <= '9')
}

/// A decimal digit.
pub open spec fn is_digit(c: char) -> bool {
    '0' <= c && c <= '9'
}

/// A hexadecimal digit, in either case.
pub open spec fn is_hex_digit(c: char) -> bool {
    is_digit(c) || ('a' <= c && c <= 'f') || ('A' <= c && c <= 'F')
}

/// A DNS label: lower-case letters, digits and hyphens, at least one
/// character, neither starting nor ending with a hyphen.
pub open spec fn is_label(text: Seq<char>) -> bool {
    &&& text.len() > 0
    &&& is_lower_alnum(text[0])
    &&& is_lower_alnum(text.last())
    &&& forall|i: int| 0 <= i < text.len() ==> is_lower_alnum(#[trigger] text[i]) || text[i] == '-'
}

/// A pod name: one or more DNS labels joined by dots.
pub open spec fn is_pod_name(text: Seq<char>) -> bool {
    forall|k: int| 0 <= k < split(text, '.').len() ==> is_label(#[trigger] split(text, '.')[k])
}

/// A namespace name: a single DNS label.
pub open spec fn is_namespace_name(text: Seq<char>) -> bool {
    is_label(text)
}

/// The number a run of decimal digits stands for.
pub open spec fn decimal_value(digits: Seq<char>) -> nat
    decreases digits.len(),
{
    if digits.len() == 0 {
        0
    } else {
        (10 * decimal_value(digits.drop_last()) + (digits.last() as u32 - '0' as u32)) as nat
    }
}

/// An octet of a dotted quad: one to three decimal digits that stand
/// for a number from 0 to 255.
pub open spec fn is_octet(text: Seq<char>) -> bool {
    &&& 1 <= text.len() <= 3
    &&& forall|i: int| 0 <= i < text.len() ==> is_digit(#[trigger] text[i])
    &&& decimal_value(text) <= 255
}

/// A group of an IPv6 address: one to four hexadecimal digits.
pub open spec fn is_hex_group(text: Seq<char>) -> bool {
    &&& 1 <= text.len() <= 4
    &&& forall|i: int| 0 <= i < text.len() ==> is_hex_digit(#[trigger] text[i])
}

/// An IPv4 address: four octets joined by dots.
pub open spec fn is_ipv4(text: Seq<char>) -> bool {
    &&& split(text, '.').len() == 4
    &&& forall|k: int| 0 <= k < 4 ==> is_octet(#[trigger] split(text, '.')[k])
}

/// An IPv6 address written in full: eight groups joined by colons.
/// The form that abbreviates a run of zero groups is not accepted.
pub open spec fn is_ipv6(text: Seq<char>) -> bool {
    &&& split(text, ':').len() == 8
    &&& forall|k: int| 0 <= k < 8 ==> is_hex_group(#[trigger] split(text, ':')[k])
}

/// What the validation of a pod name returns: an empty name, a name
/// of more than 253 bytes and a name that is not made of DNS labels
/// are invalid input, each with its own message.
pub open spec fn pod_name_verdict(name: Seq<char>) -> Result<(), ErrorView> {
    if name.len() == 0 {
        failure(ErrorKind::InvalidInput, "Pod name cannot be empty"@)
    } else if encode_utf8(name).len() > MAX_POD_NAME_LEN {
        failure(ErrorKind::InvalidInput, "Pod name cannot exceed 253 characters"@)
    } else if !is_pod_name(name) {
        failure(
            ErrorKind::InvalidInput,
            "Invalid pod name '"@ + name
                + "'. Must be lowercase alphanumeric with hyphens and dots only"@,
        )
    } else {
        Ok(())
    }
}

/// What the validation of a namespace name returns: an empty name, a
/// name of more than 63 bytes and a name that is not a DNS label are
/// invalid input, each with its own message.
pub open spec fn namespace_verdict(name: Seq<char>) -> Result<(), ErrorView> {
    if name.len() == 0 {
        failure(ErrorKind::InvalidInput, "Namespace cannot be empty"@)
    } else if encode_utf8(name).len() > MAX_NAMESPACE_LEN {
        failure(ErrorKind::InvalidInput, "Namespace cannot exceed 63 characters"@)
    } else if !is_namespace_name(name) {
        failure(
            ErrorKind::InvalidInput,
            "Invalid namespace '"@ + name + "'. Must be lowercase alphanumeric with hyphens only"@,
        )
    } else {
        Ok(())
    }
}

/// What the validation of a pod IP returns: an empty text, and a text
/// that is neither an IPv4 nor a full IPv6 address, are invalid input.
pub open spec fn pod_ip_verdict(ip: Seq<char>) -> Result<(), ErrorView> {
    if ip.len() == 0 {
        failure(ErrorKind::InvalidInput, "Pod IP cannot be empty"@)
    } else if !is_ipv4(ip) && !is_ipv6(ip) {
        failure(ErrorKind::InvalidInput, "Invalid IP address format: "@ + ip)
    } else {
        Ok(())
    }
}

/// What a caller is told who has no kubeconfig at the default place,
/// or no default place.
pub const NO_KUBECONFIG: &'static str =
    "No kubeconfig found. Set KUBECONFIG environment variable or place config at ~/.kube/config";

/// Where the kubeconfig is expected: at the path that the variable
/// for it names, if it is set; else at its default place under the
/// home directory, if that is known; else nowhere.
pub open spec fn kubeconfig_candidate(kubeconfig: Option<Seq<char>>, home: Option<Seq<char>>)
    -> Option<Seq<char>> {
    match kubeconfig {
        Some(path) => Some(path),
        None => match home {
            Some(directory) => Some(directory + "/.kube/config"@),
            None => None,
        },
    }
}

/// What the validation of the environment returns, given whether a
/// file exists at the expected place: the environment is in order
/// only if a kubeconfig is expected somewhere and exists there. A
/// file missing at the path that the kubeconfig variable names, a
/// file missing at the default place, and a default place that is not
/// known because the home directory is not, are configuration errors.
pub open spec fn environment_verdict(
    kubeconfig: Option<Seq<char>>,
    home: Option<Seq<char>>,
    candidate_exists: bool,
) -> Result<(), ErrorView> {
    match kubeconfig {
        Some(path) => if candidate_exists {
            Ok(())
        } else {
            failure(ErrorKind::Configuration, "KUBECONFIG file not found: "@ + path)
        },
        None => if home is Some && candidate_exists {
            Ok(())
        } else {
            failure(ErrorKind::Configuration, NO_KUBECONFIG@)
        },
    }
}

/// The environment is in order exactly if a kubeconfig is expected
/// somewhere and a file exists there; anything else is a
/// configuration error.
pub proof fn lemma_environment_validation(
    kubeconfig: Option<Seq<char>>,
    home: Option<Seq<char>>,
    candidate_exists: bool,
)
    ensures
        environment_verdict(kubeconfig, home, candidate_exists) is Ok <==> kubeconfig_candidate(
            kubeconfig,
            home,
        ) is Some && candidate_exists,
        environment_verdict(kubeconfig, home, candidate_exists) matches Err(error) ==> error.kind
            == ErrorKind::Configuration,
{
}

/// A pod name is not empty, begins and ends with a lower-case letter
/// or a digit, and holds nothing but lower-case letters, digits,
/// hyphens and dots. So a text with an upper-case letter or an
/// underscore, or with a hyphen or a dot at either end, is no pod
/// name.
pub proof fn lemma_pod_name_shape(name: Seq<char>)
    requires
        is_pod_name(name),
    ensures
        name.len() > 0,
        is_lower_alnum(name[0]),
        is_lower_alnum(name.last()),
        forall|i: int|
            0 <= i < name.len() ==> is_lower_alnum(#[trigger] name[i]) || name[i] == '-' || name[i]
                == '.',
        is_ascii_chars(name),
{
    let parts = split(name, '.');
    lemma_split_nonempty(name, '.');
    assert(is_label(parts[0]));
    if name.len() > 0 {
        lemma_split_ends(name, '.');
        lemma_split_covers(name, '.');
        assert forall|i: int| 0 <= i < name.len() implies is_lower_alnum(#[trigger] name[i])
            || name[i] == '-' || name[i] == '.' by {
            if name[i] != '.' {
                let (k, j) = choose|k: int, j: int|
                    0 <= k < parts.len() && 0 <= j < parts[k].len() && parts[k][j] == name[i];
                assert(is_label(parts[k]));
            }
        }
    }
}

/// A namespace name, being a DNS label, is also a pod name.
pub proof fn lemma_label_is_pod_name(name: Seq<char>)
    requires
        is_label(name),
    ensures
        is_pod_name(name),
{
    assert forall|i: int| 0 <= i < name.len() implies #[trigger] name[i] != '.' by {}
    lemma_split_without_separator(name, '.');
}

/// A pod name without a dot is a DNS label.
pub proof fn lemma_undotted_pod_name_is_label(name: Seq<char>)
    requires
        is_pod_name(name),
        forall|i: int| 0 <= i < name.len() ==> #[trigger] name[i] != '.',
    ensures
        is_label(name),
{
    lemma_split_without_separator(name, '.');
    assert(split(name, '.')[0] == name);
}

/// A pod name falls apart at each of its dots into two pod names.
pub proof fn lemma_pod_name_split(name: Seq<char>, dot: int)
    requires
        is_pod_name(name),
        0 <= dot < name.len(),
        name[dot] == '.',
    ensures
        is_pod_name(name.take(dot)),
        is_pod_name(name.skip(dot + 1)),
{
    let first = name.take(dot);
    let second = name.skip(dot + 1);
    assert(first.push('.') + second =~= name);
    lemma_split_join(first, second, '.');
    let parts = split(name, '.');
    let head = split(first, '.');
    let tail = split(second, '.');
    assert forall|k: int| 0 <= k < head.len() implies is_label(#[trigger] head[k]) by {
        assert(parts[k] == head[k]);
    }
    assert forall|k: int| 0 <= k < tail.len() implies is_label(#[trigger] tail[k]) by {
        assert(parts[head.len() + k] == tail[k]);
    }
}

/// Two pod names joined by a dot are a pod name. Together with the
/// fact that every DNS label is a pod name, this makes every text of
/// one or more labels joined by dots a pod name.
pub proof fn lemma_pod_name_join(first: Seq<char>, second: Seq<char>)
    requires
        is_pod_name(first),
        is_pod_name(second),
    ensures
        is_pod_name(first.push('.') + second),
{
    lemma_split_join(first, second, '.');
    let parts = split(first.push('.') + second, '.');
    assert forall|k: int| 0 <= k < parts.len() implies is_label(#[trigger] parts[k]) by {}
}

/// Every pod name of at most 253 characters is accepted, and nothing
/// else is: whatever breaks a rule is invalid input.
pub proof fn lemma_pod_name_validation(name: Seq<char>)
    ensures
        pod_name_verdict(name) is Ok <==> is_pod_name(name) && name.len() <= MAX_POD_NAME_LEN,
        pod_name_verdict(name) matches Err(error) ==> error.kind == ErrorKind::InvalidInput,
{
    if is_pod_name(name) {
        lemma_pod_name_shape(name);
        is_ascii_chars_encode_utf8(name);
    }
}

/// Every namespace name of at most 63 characters is accepted, and
/// nothing else is: whatever breaks a rule is invalid input.
pub proof fn lemma_namespace_validation(name: Seq<char>)
    ensures
        namespace_verdict(name) is Ok <==> is_namespace_name(name) && name.len()
            <= MAX_NAMESPACE_LEN,
        namespace_verdict(name) matches Err(error) ==> error.kind == ErrorKind::InvalidInput,
{
    if is_namespace_name(name) {
        assert(is_ascii_chars(name)) by {
            assert forall|i: int| 0 <= i < name.len() implies '\0' <= #[trigger] name[i]
                <= '\u{7f}' by {}
        }
        is_ascii_chars_encode_utf8(name);
    }
}

/// A pod IP is accepted exactly if it is an IPv4 address or an IPv6
/// address written in full; anything else is invalid input.
pub proof fn lemma_pod_ip_validation(ip: Seq<char>)
    ensures
        pod_ip_verdict(ip) is Ok <==> is_ipv4(ip) || is_ipv6(ip),
        pod_ip_verdict(ip) matches Err(error) ==> error.kind == ErrorKind::InvalidInput,
{
}

/// A lower-case letter of the Latin alphabet or a decimal digit.
fn lower_alnum(c: char) -> (answer: bool)
    ensures
        answer == is_lower_alnum(c),
{
    ('a' <= c && c <= 'z') || ('0' <= c && c <= '9')
}

/// A decimal digit.
fn decimal_digit(c: char) -> (answer: bool)
    ensures
        answer == is_digit(c),
{
    '0' <= c && c <= '9'
}

/// A hexadecimal digit, in either case.
fn hex_digit(c: char) -> (answer: bool)
    ensures
        answer == is_hex_digit(c),
{
    decimal_digit(c) || ('a' <= c && c <= 'f') || ('A' <= c && c <= 'F')
}

/// Whether `text` is a DNS label.
fn label(text: &Vec<char>) -> (answer: bool)
    ensures
        answer == is_label(text@),
{
    let n = text.len();
    if n == 0 {
        return false;
    }
    if !lower_alnum(text[0]) || !lower_alnum(text[n - 1]) {
        return false;
    }
    let mut i: usize = 0;
    while i < n
        invariant
            i <= n,
            n == text.len(),
            forall|j: int| 0 <= j < i ==> is_lower_alnum(#[trigger] text@[j]) || text@[j] == '-',
        decreases n - i,
    {
        let c = text[i];
        if !lower_alnum(c) && c != '-' {
            return false;
        }
        i += 1;
    }
    true
}

/// Whether `text` is an octet of a dotted quad.
fn octet(text: &Vec<char>) -> (answer: bool)
    ensures
        answer == is_octet(text@),
{
    let n = text.len();
    if n == 0 || n > 3 {
        return false;
    }
    let mut value: u32 = 0;
    let mut i: usize = 0;
    while i < n
        invariant
            i <= n,
            n == text.len(),
            n <= 3,
            forall|j: int| 0 <= j < i ==> is_digit(#[trigger] text@[j]),
            value == decimal_value(text@.take(i as int)),
            value <= 999,
            i < 3 ==> value <= 99,
            i < 2 ==> value <= 9,
            i < 1 ==> value == 0,
        decreases n - i,
    {
        let c = text[i];
        if !decimal_digit(c) {
            return false;
        }
        proof {
            let longer = text@.take(i + 1);
            assert(longer.drop_last() =~= text@.take(i as int));
        }
        value = value * 10 + (c as u32 - '0' as u32);
        i += 1;
    }
    assert(text@.take(n as int) =~= text@);
    value <= 255
}

/// Whether `text` is a group of an IPv6 address.
fn hex_group(text: &Vec<char>) -> (answer: bool)
    ensures
        answer == is_hex_group(text@),
{
    let n = text.len();
    if n == 0 || n > 4 {
        return false;
    }
    let mut i: usize = 0;
    while i < n
        invariant
            i <= n,
            n == text.len(),
            forall|j: int| 0 <= j < i ==> is_hex_digit(#[trigger] text@[j]),
        decreases n - i,
    {
        if !hex_digit(text[i]) {
            return false;
        }
        i += 1;
    }
    true
}

/// Whether `text` is a pod name.
fn pod_name(text: &Vec<char>) -> (answer: bool)
    ensures
        answer == is_pod_name(text@),
{
    let parts = split_chars(text, '.');
    let mut k: usize = 0;
    while k < parts.len()
        invariant
            k <= parts.len(),
            parts@.len() == split(text@, '.').len(),
            forall|j: int| 0 <= j < parts@.len() ==> (#[trigger] parts@[j])@ == split(text@, '.')[j],
            forall|j: int| 0 <= j < k ==> is_label(#[trigger] split(text@, '.')[j]),
        decreases parts.len() - k,
    {
        if !label(&parts[k]) {
            return false;
        }
        k += 1;
    }
    true
}

/// Whether `text` is an IPv4 address.
fn ipv4(text: &Vec<char>) -> (answer: bool)
    ensures
        answer == is_ipv4(text@),
{
    let parts = split_chars(text, '.');
    if parts.len() != 4 {
        return false;
    }
    let mut k: usize = 0;
    while k < 4
        invariant
            k <= 4,
            parts@.len() == 4,
            parts@.len() == split(text@, '.').len(),
            forall|j: int| 0 <= j < parts@.len() ==> (#[trigger] parts@[j])@ == split(text@, '.')[j],
            forall|j: int| 0 <= j < k ==> is_octet(#[trigger] split(text@, '.')[j]),
        decreases 4 - k,
    {
        if !octet(&parts[k]) {
            return false;
        }
        k += 1;
    }
    true
}

/// Whether `text` is an IPv6 address written in full.
fn ipv6(text: &Vec<char>) -> (answer: bool)
    ensures
        answer == is_ipv6(text@),
{
    let parts = split_chars(text, ':');
    if parts.len() != 8 {
        return false;
    }
    let mut k: usize = 0;
    while k < 8
        invariant
            k <= 8,
            parts@.len() == 8,
            parts@.len() == split(text@, ':').len(),
            forall|j: int| 0 <= j < parts@.len() ==> (#[trigger] parts@[j])@ == split(text@, ':')[j],
            forall|j: int| 0 <= j < k ==> is_hex_group(#[trigger] split(text@, ':')[j]),
        decreases 8 - k,
    {
        if !hex_group(&parts[k]) {
            return false;
        }
        k += 1;
    }
    true
}

/// The opening lines of the setup script, up to the service account's name.
pub const SCRIPT_PREAMBLE: &'static str =
    "#!/bin/bash\n# RBAC Setup Script for k8s-netinspect\n# Service Account: ";

/// Introduces the namespace in the script's header.
pub const SCRIPT_NAMESPACE_NOTE: &'static str =
    "\n# Namespace: ";

/// Announces the setup and starts the command that creates the service account.
pub const SCRIPT_CREATE_ACCOUNT: &'static str = "\n\
    \n\
    echo \"Setting up RBAC permissions for k8s-netinspect...\"\n\
    \n\
    # Create service account if it doesn't exist\n\
    kubectl create serviceaccount ";

/// The flag that places the service account in its namespace.
pub const SCRIPT_ACCOUNT_NAMESPACE_FLAG: &'static str =
    " -n ";

/// Ends the account's creation; then the cluster role for nodes and
/// namespaces, and its binding up to the subject's name.
pub const SCRIPT_CLUSTER_ROLE: &'static str = " --dry-run=client -o yaml | kubectl apply -f -\n\
    \n\
    # Cluster-level permissions (nodes, namespaces)\n\
    cat <<EOF | kubectl apply -f -\n\
    apiVersion: rbac.authorization.k8s.io/v1\n\
    kind: ClusterRole\n\
    metadata:\n  \
    name: k8s-netinspect-cluster\n\
    rules:\n\
    - apiGroups: [\"\"]\n  \
    resources: [\"nodes\"]\n  \
    verbs: [\"get\", \"list\"]\n\
    - apiGroups: [\"\"]\n  \
    resources: [\"namespaces\"]\n  \
    verbs: [\"get\", \"list\"]\n\
    ---\n\
    apiVersion: rbac.authorization.k8s.io/v1\n\
    kind: ClusterRoleBinding\n\
    metadata:\n  \
    name: k8s-netinspect-cluster\n\
    roleRef:\n  \
    apiGroup: rbac.authorization.k8s.io\n  \
    kind: ClusterRole\n  \
    name: k8s-netinspect-cluster\n\
    subjects:\n\
    - kind: ServiceAccount\n  \
    name: ";

/// Introduces the namespace of a binding's subject.
pub const SCRIPT_SUBJECT_NAMESPACE: &'static str =
    "\n  namespace: ";

/// Ends the cluster binding and opens the namespaced role, up to its namespace.
pub const SCRIPT_ROLE: &'static str = "\n\
    EOF\n\
    \n\
    # Namespace-level permissions (pods, services, endpoints)\n\
    cat <<EOF | kubectl apply -f -\n\
    apiVersion: rbac.authorization.k8s.io/v1\n\
    kind: Role\n\
    metadata:\n  \
    name: k8s-netinspect-namespace\n  \
    namespace: ";

/// The rules of the namespaced role for pods, services and endpoints,
/// and its binding up to the binding's namespace.
pub const SCRIPT_ROLE_RULES: &'static str = "\n\
    rules:\n\
    - apiGroups: [\"\"]\n  \
    resources: [\"pods\"]\n  \
    verbs: [\"get\", \"list\"]\n\
    - apiGroups: [\"\"]\n  \
    resources: [\"services\"]\n  \
    verbs: [\"get\", \"list\"] \n\
    - apiGroups: [\"\"]\n  \
    resources: [\"endpoints\"]\n  \
    verbs: [\"get\", \"list\"]\n\
    ---\n\
    apiVersion: rbac.authorization.k8s.io/v1\n\
    kind: RoleBinding\n\
    metadata:\n  \
    name: k8s-netinspect-namespace\n  \
    namespace: ";

/// The rest of the role binding, up to the subject's name.
pub const SCRIPT_ROLE_BINDING: &'static str = "\n\
    roleRef:\n  \
    apiGroup: rbac.authorization.k8s.io\n  \
    kind: Role\n  \
    name: k8s-netinspect-namespace\n\
    subjects:\n\
    - kind: ServiceAccount\n  \
    name: ";

/// Ends the role binding and reports success, up to the service account's name.
pub const SCRIPT_SUCCESS: &'static str = "\n\
    EOF\n\
    \n\
    echo \"\u{e2}\u{153}\u{2026} RBAC permissions configured successfully!\"\n\
    echo \"You can now use k8s-netinspect with the service account: ";

/// Explains how to bind the role in further namespaces, up to the subject's name.
pub const SCRIPT_REUSE_NOTE: &'static str = "\"\n\
    echo \"\"\n\
    echo \"To apply the same namespace permissions to other namespaces, run:\"\n\
    echo \"kubectl apply -f - <<EOF\"\n\
    echo \"apiVersion: rbac.authorization.k8s.io/v1\"\n\
    echo \"kind: RoleBinding\"\n\
    echo \"metadata:\"\n\
    echo \"  name: k8s-netinspect-namespace\"\n\
    echo \"  namespace: <TARGET_NAMESPACE>\"\n\
    echo \"roleRef:\"\n\
    echo \"  apiGroup: rbac.authorization.k8s.io\"\n\
    echo \"  kind: Role\"\n\
    echo \"  name: k8s-netinspect-namespace\"\n\
    echo \"subjects:\"\n\
    echo \"- kind: ServiceAccount\"\n\
    echo \"  name: ";

/// Introduces the subject's namespace in the echoed binding.
pub const SCRIPT_ECHO_NAMESPACE: &'static str =
    "\"\necho \"  namespace: ";

/// The last line of the script.
pub const SCRIPT_END: &'static str =
    "\"\necho \"EOF\"\n";

/// The text of the RBAC setup script for a service account in a
/// namespace: the fixed parts of the script with the two names filled
/// in wherever the script refers to them.
pub open spec fn rbac_setup_script_text(service_account: Seq<char>, namespace: Seq<char>) -> Seq<
    char,
> {
    SCRIPT_PREAMBLE@
        + service_account + SCRIPT_NAMESPACE_NOTE@
        + namespace + SCRIPT_CREATE_ACCOUNT@
        + service_account + SCRIPT_ACCOUNT_NAMESPACE_FLAG@
        + namespace + SCRIPT_CLUSTER_ROLE@
        + service_account + SCRIPT_SUBJECT_NAMESPACE@
        + namespace + SCRIPT_ROLE@
        + namespace + SCRIPT_ROLE_RULES@
        + namespace + SCRIPT_ROLE_BINDING@
        + service_account + SCRIPT_SUBJECT_NAMESPACE@
        + namespace + SCRIPT_SUCCESS@
        + service_account + SCRIPT_REUSE_NOTE@
        + service_account + SCRIPT_ECHO_NAMESPACE@
        + namespace + SCRIPT_END@
}

impl Validator {
    /// Validate Kubernetes pod name
    pub fn validate_pod_name(name: &str) -> (outcome: NetInspectResult<()>)
        ensures
            result_view(outcome) == pod_name_verdict(name@),
            outcome is Ok <==> is_pod_name(name@) && name@.len() <= MAX_POD_NAME_LEN,
            outcome matches Err(error) ==> error@.kind == ErrorKind::InvalidInput,
    {
        proof {
            lemma_pod_name_validation(name@);
        }
        if name.is_empty() {
            return Err(NetInspectError::InvalidInput(String::from_str("Pod name cannot be empty")));
        }
        if name.as_bytes().len() > MAX_POD_NAME_LEN {
            return Err(
                NetInspectError::InvalidInput(
                    String::from_str("Pod name cannot exceed 253 characters"),
                ),
            );
        }
        let chars = to_chars(name);
        if !pod_name(&chars) {
            return Err(
                NetInspectError::InvalidInput(
                    join3(
                        "Invalid pod name '",
                        name,
                        "'. Must be lowercase alphanumeric with hyphens and dots only",
                    ),
                ),
            );
        }
        Ok(())
    }

    /// Validate Kubernetes namespace name
    pub fn validate_namespace(namespace: &str) -> (outcome: NetInspectResult<()>)
        ensures
            result_view(outcome) == namespace_verdict(namespace@),
            outcome is Ok <==> is_namespace_name(namespace@) && namespace@.len()
                <= MAX_NAMESPACE_LEN,
            outcome matches Err(error) ==> error@.kind == ErrorKind::InvalidInput,
    {
        proof {
            lemma_namespace_validation(namespace@);
        }
        if namespace.is_empty() {
            return Err(
                NetInspectError::InvalidInput(String::from_str("Namespace cannot be empty")),
            );
        }
        if namespace.as_bytes().len() > MAX_NAMESPACE_LEN {
            return Err(
                NetInspectError::InvalidInput(
                    String::from_str("Namespace cannot exceed 63 characters"),
                ),
            );
        }
        let chars = to_chars(namespace);
        if !label(&chars) {
            return Err(
                NetInspectError::InvalidInput(
                    join3(
                        "Invalid namespace '",
                        namespace,
                        "'. Must be lowercase alphanumeric with hyphens only",
                    ),
                ),
            );
        }
        Ok(())
    }

    /// Validate pod IP address format
    pub fn validate_pod_ip(ip: &str) -> (outcome: NetInspectResult<()>)
        ensures
            result_view(outcome) == pod_ip_verdict(ip@),
            outcome is Ok <==> is_ipv4(ip@) || is_ipv6(ip@),
            outcome matches Err(error) ==> error@.kind == ErrorKind::InvalidInput,
    {
        proof {
            lemma_pod_ip_validation(ip@);
        }
        if ip.is_empty() {
            return Err(NetInspectError::InvalidInput(String::from_str("Pod IP cannot be empty")));
        }
        let chars = to_chars(ip);
        if !ipv4(&chars) && !ipv6(&chars) {
            return Err(
                NetInspectError::InvalidInput(join("Invalid IP address format: ", ip)),
            );
        }
        Ok(())
    }

    /// The path at which the kubeconfig is expected, given the values
    /// of the kubeconfig variable and of the home directory variable,
    /// where they are set.
    pub fn kubeconfig_path(kubeconfig: Option<&str>, home: Option<&str>) -> (path: Option<String>)
        ensures
            string_text(path) == kubeconfig_candidate(text_of(kubeconfig), text_of(home)),
    {
        match kubeconfig {
            Some(path) => Some(String::from_str(path)),
            None => match home {
                Some(directory) => Some(join(directory, "/.kube/config")),
                None => None,
            },
        }
    }

    /// Validate environment and prerequisites
    ///
    /// `candidate_exists` says whether a file exists at the path that
    /// [`Validator::kubeconfig_path`] gives for the same two values;
    /// where that gives no path, nothing exists there.
    pub fn validate_environment(
        kubeconfig: Option<&str>,
        home: Option<&str>,
        candidate_exists: bool,
    ) -> (outcome: NetInspectResult<()>)
        ensures
            result_view(outcome) == environment_verdict(
                text_of(kubeconfig),
                text_of(home),
                candidate_exists,
            ),
            outcome is Ok <==> kubeconfig_candidate(text_of(kubeconfig), text_of(home)) is Some
                && candidate_exists,
            outcome matches Err(error) ==> error@.kind == ErrorKind::Configuration,
    {
        match kubeconfig {
            Some(path) => {
                if candidate_exists {
                    Ok(())
                } else {
                    Err(NetInspectError::Configuration(join("KUBECONFIG file not found: ", path)))
                }
            },
            None => {
                if home.is_some() && candidate_exists {
                    Ok(())
                } else {
                    Err(NetInspectError::Configuration(String::from_str(NO_KUBECONFIG)))
                }
            },
        }
    }

    /// Generate comprehensive RBAC setup script for k8s-netinspect
    pub fn generate_rbac_setup_script(service_account: &str, namespace: &str) -> (script: String)
        ensures
            script@ == rbac_setup_script_text(service_account@, namespace@),
    {
        let mut script = String::from_str(SCRIPT_PREAMBLE);
        script.append(service_account);
        script.append(SCRIPT_NAMESPACE_NOTE);
        script.append(namespace);
        script.append(SCRIPT_CREATE_ACCOUNT);
        script.append(service_account);
        script.append(SCRIPT_ACCOUNT_NAMESPACE_FLAG);
        script.append(namespace);
        script.append(SCRIPT_CLUSTER_ROLE);
        script.append(service_account);
        script.append(SCRIPT_SUBJECT_NAMESPACE);
        script.append(namespace);
        script.append(SCRIPT_ROLE);
        script.append(namespace);
        script.append(SCRIPT_ROLE_RULES);
        script.append(namespace);
        script.append(SCRIPT_ROLE_BINDING);
        script.append(service_account);
        script.append(SCRIPT_SUBJECT_NAMESPACE);
        script.append(namespace);
        script.append(SCRIPT_SUCCESS);
        script.append(service_account);
        script.append(SCRIPT_REUSE_NOTE);
        script.append(service_account);
        script.append(SCRIPT_ECHO_NAMESPACE);
        script.append(namespace);
        script.append(SCRIPT_END);
        script
    }
}

} // verus!
