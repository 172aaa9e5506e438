use git_rehearse::recovery::state::{classify, EndpointMatches, Observed};
use git_rehearse::recovery::{Action, Phase, State};

#[test]
fn phase_names_are_stable_for_json_and_recovery_messages() {
    assert_eq!(Phase::RefsApplied.name(), "refs_applied");
    assert_eq!(State::BeforeRefChange.name(), "before_ref_change");
    assert!(matches!(Action::Inspect, Action::Inspect));
}

#[test]
fn every_observed_endpoint_combination_has_an_explicit_state() {
    // refs before/after, worktree before/after, apply state, rollback state.
    let cases = [
        ([false, false, false, false], State::Ambiguous, State::Ambiguous),
        ([false, false, false, true], State::Ambiguous, State::Ambiguous),
        ([false, false, true, false], State::Ambiguous, State::Ambiguous),
        ([false, false, true, true], State::Ambiguous, State::Ambiguous),
        ([false, true, false, false], State::Ambiguous, State::Ambiguous),
        ([false, true, false, true], State::Complete, State::RollingBack),
        ([false, true, true, false], State::AfterRefChange, State::RollingBack),
        ([false, true, true, true], State::Complete, State::RollingBack),
        ([true, false, false, false], State::Ambiguous, State::Ambiguous),
        ([true, false, false, true], State::Ambiguous, State::RollingBack),
        ([true, false, true, false], State::BeforeRefChange, State::RollingBack),
        ([true, false, true, true], State::BeforeRefChange, State::RollingBack),
        ([true, true, false, false], State::Ambiguous, State::Ambiguous),
        ([true, true, false, true], State::Complete, State::RollingBack),
        ([true, true, true, false], State::AfterRefChange, State::RollingBack),
        ([true, true, true, true], State::Complete, State::RollingBack),
    ];
    for (flags, apply_state, rollback_state) in cases {
        let [refs_before, refs_after, worktree_before, worktree_after] = flags;
        let observed = Observed {
            refs: EndpointMatches {
                before: refs_before,
                after: refs_after,
            },
            worktree: EndpointMatches {
                before: worktree_before,
                after: worktree_after,
            },
        };
        for phase in [
            Phase::Prepared,
            Phase::RefsApplied,
            Phase::WorktreeUpdated,
            Phase::Complete,
        ] {
            assert_eq!(
                classify(phase, observed),
                apply_state,
                "{phase:?}: {flags:?}"
            );
        }
        assert_eq!(
            classify(Phase::RollingBack, observed),
            rollback_state,
            "rollback: {flags:?}"
        );
    }
}
