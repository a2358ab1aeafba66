//! The commands of the tool: the full diagnosis, the connectivity test
//! of one pod, and the version banner.

use vstd::prelude::*;

use crate::errors::{exit_code_of, ErrorView, NetInspectResult};
use crate::text::join3;

pub mod cni;
pub mod connectivity;
pub mod diagnosis;

pub use cni::{classify_cni, detect_cni, detected_cni, CniClassification, CniEvidence};
pub use connectivity::{
    test_connectivity, test_connectivity_with_retries, ConnectivityStep, HttpReply, ProbePlan,
};
pub use diagnosis::{
    diagnose, judge_stage, DiagnosisReport, DiagnosisStage, DiagnosisStep, StepOutcome,
};
pub use pod_test::{classify_phase, inspect_pod, test_pod, PhaseKind, PodReadiness, PodTestStep};

verus! {

/// What the user asks the tool to do.
#[allow(inconsistent_fields)]
#[derive(Debug, Clone, PartialEq, Eq)]
pub enum Command {
    /// Diagnose the network setup, counting the pods in the namespace
    /// if one is given, else in the whole cluster.
    Diagnose { namespace: Option<String> },
    /// Test the connectivity of a pod.
    TestPod { pod: String, namespace: String },
    /// Show the version banner.
    Version,
}

/// The phases a run of the tool can go through.
#[derive(Clone, Copy, Debug, PartialEq, Eq, Structural)]
pub enum Phase {
    /// The check that a kubeconfig is where it is expected.
    Environment,
    /// The validation of the pod's name.
    PodName,
    /// The validation of the namespace's name.
    Namespace,
    /// The check of the caller's access to the cluster.
    Access,
    /// The check that the namespace exists.
    NamespaceExists,
    /// The diagnosis.
    Diagnosis,
    /// The test of the pod.
    PodTest,
    /// The version banner.
    Version,
}

impl Phase {
    /// The phases that judge what the user or the environment gave,
    /// without asking the cluster.
    pub open spec fn checks_input(self) -> bool {
        self == Phase::Environment || self == Phase::PodName || self == Phase::Namespace
    }

    /// The phases that ask the cluster.
    pub open spec fn asks_cluster(self) -> bool {
        self == Phase::Access || self == Phase::NamespaceExists || self == Phase::Diagnosis || self
            == Phase::PodTest
    }
}

/// The phases of a command, in the order they are gone through. A
/// run ends at the first phase that fails.
pub open spec fn command_phases(command: Command) -> Seq<Phase> {
    match command {
        Command::Diagnose { namespace: Some(_) } => seq![
            Phase::Environment,
            Phase::Namespace,
            Phase::Access,
            Phase::NamespaceExists,
            Phase::Diagnosis,
        ],
        Command::Diagnose { namespace: None } => seq![
            Phase::Environment,
            Phase::Access,
            Phase::Diagnosis,
        ],
        Command::TestPod { .. } => seq![
            Phase::Environment,
            Phase::PodName,
            Phase::Namespace,
            Phase::Access,
            Phase::PodTest,
        ],
        Command::Version => seq![Phase::Environment, Phase::Version],
    }
}

/// Whatever the command, every check of its input comes before
/// anything is asked of the cluster, and the access check comes
/// before the diagnosis, the test of a pod and the look for the
/// namespace.
pub proof fn lemma_phases_are_ordered(command: Command, early: int, late: int)
    requires
        0 <= early < command_phases(command).len(),
        0 <= late < command_phases(command).len(),
        command_phases(command)[late].asks_cluster(),
        command_phases(command)[early].checks_input() || (command_phases(command)[early]
            == Phase::Access && command_phases(command)[late] != Phase::Access),
    ensures
        early < late,
{
}

/// A command that asks the cluster at all checks the caller's access
/// first: no diagnosis and no test of a pod without it.
pub proof fn lemma_access_is_checked(command: Command, place: int)
    requires
        0 <= place < command_phases(command).len(),
        command_phases(command)[place].asks_cluster(),
    ensures
        exists|before: int|
            0 <= before <= place && #[trigger] command_phases(command)[before] == Phase::Access,
{
    let phases = command_phases(command);
    match command {
        Command::Diagnose { namespace: Some(_) } => {
            assert(phases[2] == Phase::Access);
        },
        Command::Diagnose { namespace: None } => {
            assert(phases[1] == Phase::Access);
        },
        Command::TestPod { .. } => {
            assert(phases[3] == Phase::Access);
        },
        Command::Version => {},
    }
}

/// The phases of a command, in the order they are gone through.
pub fn phases(command: &Command) -> (plan: Vec<Phase>)
    ensures
        plan@ == command_phases(*command),
{
    let mut plan: Vec<Phase> = Vec::new();
    plan.push(Phase::Environment);
    match command {
        Command::Diagnose { namespace } => {
            if namespace.is_some() {
                plan.push(Phase::Namespace);
                plan.push(Phase::Access);
                plan.push(Phase::NamespaceExists);
            } else {
                plan.push(Phase::Access);
            }
            plan.push(Phase::Diagnosis);
        },
        Command::TestPod { .. } => {
            plan.push(Phase::PodName);
            plan.push(Phase::Namespace);
            plan.push(Phase::Access);
            plan.push(Phase::PodTest);
        },
        Command::Version => {
            plan.push(Phase::Version);
        },
    }
    plan
}

/// The exit code of a run in which nothing failed.
pub const EXIT_SUCCESS: i32 = 0;

/// What a run of the tool does next.
#[derive(Clone, Copy, Debug, PartialEq, Eq, Structural)]
pub enum RunStep {
    /// Go through this phase and come back with its outcome appended
    /// to the outcomes so far.
    Enter(Phase),
    /// Leave with this exit code.
    Exit { code: i32 },
}

/// The first failure among the outcomes, if any of them failed.
pub open spec fn first_error(outcomes: Seq<NetInspectResult<()>>) -> Option<ErrorView>
    decreases outcomes.len(),
{
    if outcomes.len() == 0 {
        None
    } else {
        match outcomes[0] {
            Err(error) => Some(error@),
            Ok(_) => first_error(outcomes.skip(1)),
        }
    }
}

/// What a run of a command does after the outcomes of the phases gone
/// through so far: it leaves with the exit code of the first failure;
/// without a failure it enters the next phase of the command; after
/// the last phase it leaves with the code of success.
pub open spec fn run_step(command: Command, outcomes: Seq<NetInspectResult<()>>) -> RunStep {
    match first_error(outcomes) {
        Some(error) => RunStep::Exit { code: exit_code_of(error.kind) as i32 },
        None => if outcomes.len() < command_phases(command).len() {
            RunStep::Enter(command_phases(command)[outcomes.len() as int])
        } else {
            RunStep::Exit { code: EXIT_SUCCESS }
        },
    }
}

/// Outcomes without a first failure are all successes.
proof fn lemma_no_error_means_all_passed(outcomes: Seq<NetInspectResult<()>>)
    requires
        first_error(outcomes) is None,
    ensures
        forall|i: int| 0 <= i < outcomes.len() ==> #[trigger] outcomes[i] is Ok,
    decreases outcomes.len(),
{
    if outcomes.len() > 0 {
        let rest = outcomes.skip(1);
        lemma_no_error_means_all_passed(rest);
        assert forall|i: int| 0 <= i < outcomes.len() implies #[trigger] outcomes[i] is Ok by {
            if i > 0 {
                assert(rest[i - 1] == outcomes[i]);
            }
        }
    }
}

/// A phase is entered only if every phase before it has succeeded,
/// and the phases are entered in the order of the command. So the
/// diagnosis, the test of a pod and the look for a namespace begin
/// only after the access check has found nothing missing.
pub proof fn lemma_phase_needs_all_before(
    command: Command,
    outcomes: Seq<NetInspectResult<()>>,
    phase: Phase,
)
    requires
        run_step(command, outcomes) == RunStep::Enter(phase),
    ensures
        outcomes.len() < command_phases(command).len(),
        phase == command_phases(command)[outcomes.len() as int],
        forall|i: int| 0 <= i < outcomes.len() ==> #[trigger] outcomes[i] is Ok,
        phase.asks_cluster() && phase != Phase::Access ==> exists|before: int|
            0 <= before < outcomes.len() && #[trigger] command_phases(command)[before]
                == Phase::Access && outcomes[before] is Ok,
{
    lemma_no_error_means_all_passed(outcomes);
    if phase.asks_cluster() && phase != Phase::Access {
        lemma_access_is_checked(command, outcomes.len() as int);
        let before = choose|before: int|
            0 <= before <= outcomes.len() && #[trigger] command_phases(command)[before]
                == Phase::Access;
        assert(outcomes[before] is Ok);
    }
}

/// A run that leaves with the code of success has gone through every
/// phase of its command without a failure; any other run leaves with
/// a code from 1 to 5.
pub proof fn lemma_exit_code_tells_success(command: Command, outcomes: Seq<NetInspectResult<()>>)
    requires
        run_step(command, outcomes) is Exit,
    ensures
        run_step(command, outcomes) == (RunStep::Exit { code: EXIT_SUCCESS }) <==> first_error(
            outcomes,
        ) is None,
        first_error(outcomes) is None ==> outcomes.len() >= command_phases(command).len(),
        first_error(outcomes) is Some ==> 1 <= run_step(command, outcomes)->code <= 5,
{
}

/// What a run of a command does next, given the outcomes of the
/// phases gone through so far, in order.
pub fn next_phase(command: &Command, outcomes: &[NetInspectResult<()>]) -> (step: RunStep)
    ensures
        step == run_step(*command, outcomes@),
{
    let mut i: usize = 0;
    assert(outcomes@.skip(0) =~= outcomes@);
    while i < outcomes.len()
        invariant
            i <= outcomes.len(),
            first_error(outcomes@.skip(i as int)) == first_error(outcomes@),
        decreases outcomes.len() - i,
    {
        assert(outcomes@.skip(i as int).skip(1) =~= outcomes@.skip(i + 1));
        match &outcomes[i] {
            Err(error) => {
                return RunStep::Exit { code: error.exit_code() };
            },
            Ok(_) => {},
        }
        i += 1;
    }
    let plan = phases(command);
    if outcomes.len() < plan.len() {
        RunStep::Enter(plan[outcomes.len()])
    } else {
        RunStep::Exit { code: EXIT_SUCCESS }
    }
}

/// The version of the tool.
pub const VERSION: &'static str = "0.1.0";

/// The text of the version banner.
pub open spec fn version_text() -> Seq<char> {
    "\u{1f527} k8s-netinspect v"@ + VERSION@ + "\nA minimal Kubernetes network inspection tool"@
}

/// The version banner: the tool's name and version, then what it is.
pub fn version() -> (banner: String)
    ensures
        banner@ == version_text(),
{
    join3(
        "\u{1f527} k8s-netinspect v",
        VERSION,
        "\nA minimal Kubernetes network inspection tool",
    )
}

} // verus!
