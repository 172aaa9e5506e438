//! Pure classification of observed refs and worktree endpoints.

use vstd::prelude::*;

verus! {

/// The durable point reached by an apply.
#[derive(Debug, Clone, Copy, PartialEq, Eq, Structural)]
pub enum Phase {
    /// The complete operation description is durable, before ref mutation.
    Prepared,
    /// The ref transaction has landed; the worktree may still be old.
    RefsApplied,
    /// The checked-out branch and its index and worktree have been updated.
    WorktreeUpdated,
    /// Apply and its final journal write have completed.
    Complete,
    /// Rollback was requested durably, before restoring refs or the worktree.
    RollingBack,
}

impl DeepView for Phase {
    type V = Phase;

    open spec fn deep_view(&self) -> Phase {
        *self
    }
}

/// How a phase is spelled in documents.
pub open spec fn phase_name(phase: Phase) -> Seq<char> {
    match phase {
        Phase::Prepared => "prepared"@,
        Phase::RefsApplied => "refs_applied"@,
        Phase::WorktreeUpdated => "worktree_updated"@,
        Phase::Complete => "complete"@,
        Phase::RollingBack => "rolling_back"@,
    }
}

/// How a phase is spelled in messages.
pub open spec fn phase_words(phase: Phase) -> Seq<char> {
    match phase {
        Phase::Prepared => "Prepared"@,
        Phase::RefsApplied => "RefsApplied"@,
        Phase::WorktreeUpdated => "WorktreeUpdated"@,
        Phase::Complete => "Complete"@,
        Phase::RollingBack => "RollingBack"@,
    }
}

impl Phase {
    /// How the phase is spelled in documents.
    pub fn name(self) -> (name: &'static str)
        ensures
            name@ == phase_name(self),
    {
        match self {
            Phase::Prepared => "prepared",
            Phase::RefsApplied => "refs_applied",
            Phase::WorktreeUpdated => "worktree_updated",
            Phase::Complete => "complete",
            Phase::RollingBack => "rolling_back",
        }
    }

    /// How the phase is spelled in messages.
    pub fn words(self) -> (words: &'static str)
        ensures
            words@ == phase_words(self),
    {
        match self {
            Phase::Prepared => "Prepared",
            Phase::RefsApplied => "RefsApplied",
            Phase::WorktreeUpdated => "WorktreeUpdated",
            Phase::Complete => "Complete",
            Phase::RollingBack => "RollingBack",
        }
    }
}

/// What the journal and the actual repository state say about an interrupted
/// apply.
#[derive(Debug, Clone, Copy, PartialEq, Eq, Structural)]
pub enum State {
    /// No user-visible ref mutation has landed.
    BeforeRefChange,
    /// Refs landed and can be completed or rolled back after checks.
    AfterRefChange,
    /// The recorded apply is complete and needs no mutation.
    Complete,
    /// A recorded rollback can be resumed from either verified endpoint.
    RollingBack,
    /// Actual state does not match either safe endpoint.
    Ambiguous,
}

impl DeepView for State {
    type V = State;

    open spec fn deep_view(&self) -> State {
        *self
    }
}

/// How a state is spelled.
pub open spec fn state_name(state: State) -> Seq<char> {
    match state {
        State::BeforeRefChange => "before_ref_change"@,
        State::AfterRefChange => "after_ref_change"@,
        State::Complete => "complete"@,
        State::RollingBack => "rolling_back"@,
        State::Ambiguous => "ambiguous"@,
    }
}

impl State {
    /// How the state is spelled.
    pub fn name(self) -> (name: &'static str)
        ensures
            name@ == state_name(self),
    {
        match self {
            State::BeforeRefChange => "before_ref_change",
            State::AfterRefChange => "after_ref_change",
            State::Complete => "complete",
            State::RollingBack => "rolling_back",
            State::Ambiguous => "ambiguous",
        }
    }
}

/// The two ends of a recorded operation.
#[derive(Debug, Clone, Copy, PartialEq, Eq, Structural)]
pub enum Endpoint {
    Before,
    After,
}

/// One observed component can match either, both, or neither endpoint.
#[derive(Debug, Clone, Copy, PartialEq, Eq, Structural)]
pub struct EndpointMatches {
    pub before: bool,
    pub after: bool,
}

/// Independent observations of the refs and of index and files.
#[derive(Debug, Clone, Copy, PartialEq, Eq, Structural)]
pub struct Observed {
    pub refs: EndpointMatches,
    pub worktree: EndpointMatches,
}

/// Whether a component is at one of the recorded endpoints.
pub open spec fn is_known(found: EndpointMatches) -> bool {
    found.before || found.after
}

/// What the observations say. The operation went from both components before to
/// the refs after and then to both after; a rollback may be anywhere between.
pub open spec fn classified(phase: Phase, observed: Observed) -> State {
    let refs = observed.refs;
    let worktree = observed.worktree;
    if phase == Phase::RollingBack {
        if is_known(refs) && is_known(worktree) {
            State::RollingBack
        } else {
            State::Ambiguous
        }
    } else if refs.after && worktree.after {
        State::Complete
    } else if refs.after && worktree.before {
        State::AfterRefChange
    } else if refs.before && worktree.before {
        State::BeforeRefChange
    } else {
        State::Ambiguous
    }
}

/// What the observations say.
pub fn classify(phase: Phase, observed: Observed) -> (state: State)
    ensures
        state == classified(phase, observed),
{
    if phase == Phase::RollingBack {
        return if (observed.refs.before || observed.refs.after) && (observed.worktree.before
            || observed.worktree.after) {
            State::RollingBack
        } else {
            State::Ambiguous
        };
    }
    if observed.refs.after && observed.worktree.after {
        State::Complete
    } else if observed.refs.after && observed.worktree.before {
        State::AfterRefChange
    } else if observed.refs.before && observed.worktree.before {
        State::BeforeRefChange
    } else {
        State::Ambiguous
    }
}

/// Nothing is ever claimed of a component that is at neither endpoint: then the
/// state is ambiguous, whatever the journal says.
pub proof fn unknown_components_are_ambiguous(phase: Phase, observed: Observed)
    requires
        !is_known(observed.refs) || !is_known(observed.worktree),
    ensures
        classified(phase, observed) == State::Ambiguous,
{
}

/// A state that is not ambiguous is what was observed: refs and worktree are at
/// the endpoints that it names.
pub proof fn states_are_observed(phase: Phase, observed: Observed)
    ensures
        classified(phase, observed) == State::Complete ==> observed.refs.after
            && observed.worktree.after,
        classified(phase, observed) == State::AfterRefChange ==> observed.refs.after
            && observed.worktree.before,
        classified(phase, observed) == State::BeforeRefChange ==> observed.refs.before
            && observed.worktree.before,
        classified(phase, observed) == State::RollingBack ==> phase == Phase::RollingBack,
        phase == Phase::RollingBack ==> classified(phase, observed) == State::RollingBack
            || classified(phase, observed) == State::Ambiguous,
{
}

/// How far the journal says that the operation got decides nothing but whether
/// it is being rolled back: the state comes from what is observed.
pub proof fn only_rolling_back_matters(first: Phase, second: Phase, observed: Observed)
    requires
        first != Phase::RollingBack,
        second != Phase::RollingBack,
    ensures
        classified(first, observed) == classified(second, observed),
{
}

} // verus!
