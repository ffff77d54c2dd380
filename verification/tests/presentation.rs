use wsnav::cutover::{
    CutoverError, LegacyPresentationAssessment, LegacyPresentationState, PresentationProofSource,
    plan_from_assessment,
};
use wsnav::presentation::{
    MAX_PRESENTATION_RETIREMENT_ATTEMPTS, PresentationRetirementAuthority,
    RetireStep, require_retired_presentation, require_unchanged_presentation, retire_until_none,
    retirement_after_proof, retirement_outcome, retirement_token,
};

fn assessment(state: LegacyPresentationState, proof: Option<&str>) -> LegacyPresentationAssessment {
    LegacyPresentationAssessment {
        state,
        proof: proof.map(str::to_owned),
    }
}

/// Answers each proof from a script and records every retirement request.
struct Scripted {
    proofs: Vec<LegacyPresentationAssessment>,
    retired: Vec<String>,
    refuse: Option<String>,
}

impl Scripted {
    fn new(proofs: Vec<LegacyPresentationAssessment>) -> Self {
        Self {
            proofs,
            retired: Vec::new(),
            refuse: None,
        }
    }
}

impl PresentationProofSource for Scripted {
    fn prove(&mut self, _state_root: &str) -> Result<LegacyPresentationAssessment, CutoverError> {
        if self.proofs.is_empty() {
            return Err(CutoverError::PresentationInspection("no answer".to_owned()));
        }
        Ok(self.proofs.remove(0))
    }
}

impl PresentationRetirementAuthority for Scripted {
    fn retire(&mut self, proof: &str) -> Result<(), String> {
        self.retired.push(proof.to_owned());
        match &self.refuse {
            Some(reason) => Err(reason.clone()),
            None => Ok(()),
        }
    }
}

#[test]
fn no_presentation_needs_no_retirement() {
    let mut authority = Scripted::new(Vec::new());
    let result = retire_until_none(
        &mut authority,
        "/state",
        assessment(LegacyPresentationState::NoPresentation, None),
    );
    assert_eq!(result, Ok(0));
    assert!(authority.retired.is_empty());
}

#[test]
fn a_detached_presentation_is_retired_by_its_exact_proof() {
    let mut authority = Scripted::new(vec![assessment(
        LegacyPresentationState::NoPresentation,
        None,
    )]);
    let result = retire_until_none(
        &mut authority,
        "/state",
        assessment(LegacyPresentationState::DetachedOrdinary, Some("proof-a")),
    );
    assert_eq!(result, Ok(1));
    assert_eq!(authority.retired, vec!["proof-a".to_owned()]);
}

#[test]
fn a_stubborn_presentation_is_retried_within_the_bound() {
    let stubborn = assessment(LegacyPresentationState::DeadOwned, Some("proof-a"));
    let mut authority = Scripted::new(vec![stubborn.clone(); 20]);
    let result = retire_until_none(&mut authority, "/state", stubborn);
    assert_eq!(result, Err(CutoverError::PresentationNotRetired));
    assert_eq!(authority.retired.len(), MAX_PRESENTATION_RETIREMENT_ATTEMPTS);

    let stubborn = assessment(LegacyPresentationState::DeadOwned, Some("proof-a"));
    let mut proofs = vec![stubborn.clone(); 2];
    proofs.push(assessment(LegacyPresentationState::NoPresentation, None));
    let mut authority = Scripted::new(proofs);
    assert_eq!(retire_until_none(&mut authority, "/state", stubborn), Ok(3));
}

#[test]
fn a_changed_proof_stops_retirement() {
    let mut authority = Scripted::new(vec![assessment(
        LegacyPresentationState::DetachedOrdinary,
        Some("proof-b"),
    )]);
    let result = retire_until_none(
        &mut authority,
        "/state",
        assessment(LegacyPresentationState::DetachedOrdinary, Some("proof-a")),
    );
    assert_eq!(result, Err(CutoverError::PresentationProofChanged));
    assert_eq!(authority.retired, vec!["proof-a".to_owned()]);

    let mut authority = Scripted::new(Vec::new());
    let result = retire_until_none(
        &mut authority,
        "/state",
        assessment(LegacyPresentationState::DetachedOrdinary, None),
    );
    assert_eq!(result, Err(CutoverError::PresentationProofChanged));
    assert!(authority.retired.is_empty());
}

#[test]
fn attached_or_unsafe_presentations_are_never_retired() {
    for state in [
        LegacyPresentationState::Attached,
        LegacyPresentationState::UtilityShell,
        LegacyPresentationState::ObserverReview,
    ] {
        let mut authority = Scripted::new(Vec::new());
        let result = retire_until_none(&mut authority, "/state", assessment(state, Some("proof")));
        assert_eq!(result, Err(CutoverError::DrainOnly));
        assert!(authority.retired.is_empty());
    }
    let mut authority = Scripted::new(Vec::new());
    let result = retire_until_none(
        &mut authority,
        "/state",
        assessment(LegacyPresentationState::Malformed, None),
    );
    assert_eq!(
        result,
        Err(CutoverError::UnsafePresentation(LegacyPresentationState::Malformed))
    );
    assert!(authority.retired.is_empty());
}

#[test]
fn retirement_and_proof_failures_are_reported() {
    let mut authority = Scripted::new(Vec::new());
    authority.refuse = Some("tmux refused".to_owned());
    let result = retire_until_none(
        &mut authority,
        "/state",
        assessment(LegacyPresentationState::DetachedOrdinary, Some("proof-a")),
    );
    assert_eq!(
        result,
        Err(CutoverError::PresentationRetirement("tmux refused".to_owned()))
    );

    let mut authority = Scripted::new(Vec::new());
    let result = retire_until_none(
        &mut authority,
        "/state",
        assessment(LegacyPresentationState::DetachedOrdinary, Some("proof-a")),
    );
    assert_eq!(
        result,
        Err(CutoverError::PresentationInspection("no answer".to_owned()))
    );
}

#[test]
fn proofs_around_retirement_must_be_exact() {
    let plan = plan_from_assessment(
        "/state".to_owned(),
        "/state".to_owned(),
        assessment(LegacyPresentationState::DetachedOrdinary, Some("proof-a")),
    )
    .unwrap();
    assert_eq!(
        require_unchanged_presentation(
            &plan,
            &assessment(LegacyPresentationState::DetachedOrdinary, Some("proof-a"))
        ),
        Ok(())
    );
    assert_eq!(
        require_unchanged_presentation(
            &plan,
            &assessment(LegacyPresentationState::DetachedOrdinary, Some("proof-b"))
        ),
        Err(CutoverError::PresentationProofChanged)
    );
    assert_eq!(
        require_unchanged_presentation(
            &plan,
            &assessment(LegacyPresentationState::DeadOwned, Some("proof-a"))
        ),
        Err(CutoverError::PresentationProofChanged)
    );
    assert_eq!(
        require_retired_presentation(&assessment(LegacyPresentationState::NoPresentation, None)),
        Ok(())
    );
    assert_eq!(
        require_retired_presentation(&assessment(
            LegacyPresentationState::NoPresentation,
            Some("stale")
        )),
        Err(CutoverError::PresentationNotRetired)
    );
}

#[test]
fn each_retirement_step_is_decided_from_the_repeated_proof() {
    let current = assessment(LegacyPresentationState::DetachedOrdinary, Some("proof-a"));
    assert_eq!(retirement_token(&current), Ok(Some("proof-a")));
    assert_eq!(
        retirement_token(&assessment(LegacyPresentationState::NoPresentation, None)),
        Ok(None)
    );
    assert_eq!(
        retirement_token(&assessment(LegacyPresentationState::DeadOwned, None)),
        Err(CutoverError::PresentationProofChanged)
    );
    assert_eq!(
        retirement_token(&assessment(LegacyPresentationState::Attached, Some("proof-a"))),
        Err(CutoverError::DrainOnly)
    );
    assert_eq!(
        retirement_outcome(Err("busy".to_owned())),
        Err(CutoverError::PresentationRetirement("busy".to_owned()))
    );
    assert!(matches!(
        retirement_after_proof(
            &current,
            Ok(assessment(LegacyPresentationState::NoPresentation, None)),
            2
        ),
        RetireStep::Retired(2)
    ));
    assert!(matches!(
        retirement_after_proof(
            &current,
            Ok(assessment(LegacyPresentationState::DetachedOrdinary, Some("proof-b"))),
            1
        ),
        RetireStep::Refused(CutoverError::PresentationProofChanged)
    ));
    assert!(matches!(
        retirement_after_proof(&current, Ok(current.clone()), MAX_PRESENTATION_RETIREMENT_ATTEMPTS),
        RetireStep::Refused(CutoverError::PresentationNotRetired)
    ));
    assert!(matches!(
        retirement_after_proof(&current, Ok(current.clone()), 1),
        RetireStep::Again(ref again) if again == &current
    ));
    assert!(matches!(
        retirement_after_proof(&current, Err(CutoverError::DrainOnly), 1),
        RetireStep::Refused(CutoverError::DrainOnly)
    ));
}

#[test]
fn a_refused_presentation_is_neither_retired_nor_proved_again() {
    let mut authority = Scripted::new(vec![assessment(LegacyPresentationState::NoPresentation, None)]);
    let result = retire_until_none(
        &mut authority,
        "/state",
        assessment(LegacyPresentationState::Attached, Some("proof-a")),
    );
    assert_eq!(result, Err(CutoverError::DrainOnly));
    assert!(authority.retired.is_empty());
    assert_eq!(authority.proofs.len(), 1);
}
