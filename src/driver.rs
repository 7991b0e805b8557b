use vstd::prelude::*;

verus! {

/// Where start-up stands. `Failed` and `Running` are final.
#[derive(Clone, Copy, Debug, PartialEq, Eq, Structural)]
pub enum Stage {
    Uninitialized,
    Resolving,
    Failed,
    Running,
}

/// What the surrounding process reports back.
#[derive(Clone, Copy, Debug, PartialEq, Eq, Structural)]
pub enum Event {
    /// The diagnostics sink is ready and start-up begins.
    Begin,
    /// The arguments resolved to a configuration and a transport.
    Resolved,
    /// The arguments did not resolve.
    ResolutionFailed,
    /// The runtime could not start (transport, handshake, ...).
    StartFailed,
}

/// What the process must do next.
#[derive(Clone, Copy, Debug, PartialEq, Eq, Structural)]
pub enum Action {
    /// Resolve the arguments and report the outcome.
    ResolveArguments,
    /// Log the transport and every configuration field, then hand them to
    /// the runtime.
    ReportAndStart,
    /// Log the resolution error as a warning and exit with a failure status.
    WarnAndExit,
    /// Exit with a failure status.
    ExitWithFailure,
    /// Nothing: the event does not apply to the stage.
    Ignore,
}

/// One step of start-up.
pub open spec fn spec_step(s: Stage, e: Event) -> (Stage, Action) {
    match (s, e) {
        (Stage::Uninitialized, Event::Begin) => (Stage::Resolving, Action::ResolveArguments),
        (Stage::Resolving, Event::Resolved) => (Stage::Running, Action::ReportAndStart),
        (Stage::Resolving, Event::ResolutionFailed) => (Stage::Failed, Action::WarnAndExit),
        (Stage::Running, Event::StartFailed) => (Stage::Failed, Action::ExitWithFailure),
        _ => (s, Action::Ignore),
    }
}

/// The next stage and the action to perform on `e` in stage `s`.
pub fn step(s: Stage, e: Event) -> (r: (Stage, Action))
    ensures
        r == spec_step(s, e),
{
    match (s, e) {
        (Stage::Uninitialized, Event::Begin) => (Stage::Resolving, Action::ResolveArguments),
        (Stage::Resolving, Event::Resolved) => (Stage::Running, Action::ReportAndStart),
        (Stage::Resolving, Event::ResolutionFailed) => (Stage::Failed, Action::WarnAndExit),
        (Stage::Running, Event::StartFailed) => (Stage::Failed, Action::ExitWithFailure),
        _ => (s, Action::Ignore),
    }
}

/// Start-up never goes back to resolving once it has failed or started,
/// and the runtime is started only from the resolving stage, so at most once.
pub proof fn lemma_start_at_most_once(s: Stage, e: Event)
    ensures
        (s == Stage::Failed || s == Stage::Running) ==> spec_step(s, e).0 != Stage::Resolving,
        s == Stage::Failed ==> spec_step(s, e) == (Stage::Failed, Action::Ignore),
        spec_step(s, e).1 == Action::ReportAndStart ==> s == Stage::Resolving && spec_step(
            s,
            e,
        ).0 == Stage::Running,
{
}

} // verus!
