//! Retiring the legacy presentation under the transition lease: the bounded
//! retirement loop and the proofs that must hold before and after it.

use vstd::prelude::*;

use crate::cutover::{
    CutoverError, CutoverPlan, LegacyPresentationAssessment, LegacyPresentationState,
    PresentationProofSource,
};
use crate::observer_target::text_option;
use crate::text::text_eq;

verus! {

/// How many retirements the loop attempts before giving up.
pub const MAX_PRESENTATION_RETIREMENT_ATTEMPTS: usize = 8;

/// The mutation authority for an already proven detached presentation; it
/// receives only the exact proof token repeated under the lease, and reports
/// a failure by its description.
pub trait PresentationRetirementAuthority {
    fn retire(&mut self, proof: &str) -> Result<(), String>;
}

/// The combined presentation seam of a cutover run: the read-only proof and
/// the retirement of an exactly proven presentation.
pub trait PresentationAuthority: PresentationProofSource + PresentationRetirementAuthority {

}

impl<T: PresentationProofSource + PresentationRetirementAuthority> PresentationAuthority for T {

}

/// Two assessments carry the same proof token, or both carry none.
pub open spec fn same_proof(a: LegacyPresentationAssessment, b: LegacyPresentationAssessment) -> bool {
    text_option(a.proof) == text_option(b.proof)
}

fn proofs_equal(a: &LegacyPresentationAssessment, b: &LegacyPresentationAssessment) -> (r: bool)
    ensures
        r == same_proof(*a, *b),
{
    match (&a.proof, &b.proof) {
        (Some(x), Some(y)) => text_eq(x.as_str(), y.as_str()),
        (None, None) => true,
        _ => false,
    }
}

/// The assessment repeated under the lease is the one the plan was made from.
pub open spec fn presentation_unchanged(
    plan: CutoverPlan,
    under_lease: LegacyPresentationAssessment,
) -> bool {
    under_lease.state == plan.spec_assessment().state && same_proof(
        under_lease,
        plan.spec_assessment(),
    )
}

/// Refuses a presentation proof that changed since the plan was made.
pub fn require_unchanged_presentation(
    plan: &CutoverPlan,
    under_lease: &LegacyPresentationAssessment,
) -> (r: Result<(), CutoverError>)
    ensures
        r is Ok <==> presentation_unchanged(*plan, *under_lease),
        r matches Err(e) ==> e == CutoverError::PresentationProofChanged,
{
    let planned = plan.assessment();
    if under_lease.state == planned.state && proofs_equal(under_lease, planned) {
        Ok(())
    } else {
        Err(CutoverError::PresentationProofChanged)
    }
}

/// No presentation remains and no proof token is left.
pub open spec fn presentation_absent(a: LegacyPresentationAssessment) -> bool {
    a.state == LegacyPresentationState::NoPresentation && a.proof is None
}

/// Refuses to go on while any presentation remains.
pub fn require_retired_presentation(a: &LegacyPresentationAssessment) -> (r: Result<(), CutoverError>)
    ensures
        r is Ok <==> presentation_absent(*a),
        r matches Err(e) ==> e == CutoverError::PresentationNotRetired,
{
    match (&a.state, &a.proof) {
        (LegacyPresentationState::NoPresentation, None) => Ok(()),
        _ => Err(CutoverError::PresentationNotRetired),
    }
}

/// Why the loop must stop at an assessment instead of finishing or retiring
/// it: a retirable presentation without its proof token has changed; an
/// attached, utility-shell or observer-review presentation drains only;
/// anything else is unsafe.
pub open spec fn retirement_refusal(a: LegacyPresentationAssessment) -> Option<CutoverError> {
    match a.state {
        LegacyPresentationState::NoPresentation => None,
        LegacyPresentationState::DetachedOrdinary | LegacyPresentationState::DeadOwned => {
            if a.proof is None {
                Some(CutoverError::PresentationProofChanged)
            } else {
                None
            }
        },
        LegacyPresentationState::Attached
        | LegacyPresentationState::UtilityShell
        | LegacyPresentationState::ObserverReview => Some(CutoverError::DrainOnly),
        _ => Some(CutoverError::UnsafePresentation(a.state)),
    }
}

/// What retiring a presentation starts from: nothing when none remains,
/// the exact proof token of a retirable presentation, or the refusal.
pub fn retirement_token(a: &LegacyPresentationAssessment) -> (r: Result<Option<&str>, CutoverError>)
    ensures
        retirement_refusal(*a) matches Some(e) ==> r == Err::<Option<&str>, CutoverError>(e),
        retirement_refusal(*a) is None && a.state == LegacyPresentationState::NoPresentation ==> r
            == Ok::<Option<&str>, CutoverError>(None),
        retirement_refusal(*a) is None && a.state != LegacyPresentationState::NoPresentation ==> (
        r matches Ok(Some(token)) && text_option(a.proof) == Some(token@)),
{
    match a.state {
        LegacyPresentationState::NoPresentation => Ok(None),
        LegacyPresentationState::DetachedOrdinary | LegacyPresentationState::DeadOwned => {
            match &a.proof {
                Some(token) => Ok(Some(token.as_str())),
                None => Err(CutoverError::PresentationProofChanged),
            }
        },
        LegacyPresentationState::Attached
        | LegacyPresentationState::UtilityShell
        | LegacyPresentationState::ObserverReview => Err(CutoverError::DrainOnly),
        state => Err(CutoverError::UnsafePresentation(state)),
    }
}

/// A refused retirement reports the authority's description.
pub fn retirement_outcome(outcome: Result<(), String>) -> (r: Result<(), CutoverError>)
    ensures
        r == (match outcome {
            Ok(()) => Ok::<(), CutoverError>(()),
            Err(description) => Err(CutoverError::PresentationRetirement(description)),
        }),
{
    match outcome {
        Ok(()) => Ok(()),
        Err(description) => Err(CutoverError::PresentationRetirement(description)),
    }
}

/// What the retirement loop does after a retirement, once the presentation
/// was proved again.
#[derive(Debug)]
pub enum RetireStep {
    /// No presentation remains: this many were retired.
    Retired(usize),
    /// The same presentation remains: retire it again.
    Again(LegacyPresentationAssessment),
    Refused(CutoverError),
}

/// The step after the `retired`-th retirement of `current`, given what the
/// repeated proof gave: a failed proof fails; no presentation ends the loop;
/// another proof token refuses; the last allowed attempt gives up; otherwise
/// the presentation is retired again.
pub open spec fn retire_next_of(
    current: LegacyPresentationAssessment,
    next: Result<LegacyPresentationAssessment, CutoverError>,
    retired: usize,
) -> RetireStep {
    match next {
        Err(e) => RetireStep::Refused(e),
        Ok(n) => if n.state == LegacyPresentationState::NoPresentation {
            RetireStep::Retired(retired)
        } else if !same_proof(n, current) {
            RetireStep::Refused(CutoverError::PresentationProofChanged)
        } else if retired >= MAX_PRESENTATION_RETIREMENT_ATTEMPTS {
            RetireStep::Refused(CutoverError::PresentationNotRetired)
        } else {
            RetireStep::Again(n)
        },
    }
}

/// Decides the step after a retirement from the repeated proof.
pub fn retirement_after_proof(
    current: &LegacyPresentationAssessment,
    next: Result<LegacyPresentationAssessment, CutoverError>,
    retired: usize,
) -> (r: RetireStep)
    ensures
        r == retire_next_of(*current, next, retired),
{
    match next {
        Err(e) => RetireStep::Refused(e),
        Ok(n) => if n.state == LegacyPresentationState::NoPresentation {
            RetireStep::Retired(retired)
        } else if !proofs_equal(&n, current) {
            RetireStep::Refused(CutoverError::PresentationProofChanged)
        } else if retired >= MAX_PRESENTATION_RETIREMENT_ATTEMPTS {
            RetireStep::Refused(CutoverError::PresentationNotRetired)
        } else {
            RetireStep::Again(n)
        },
    }
}

/// The proof tokens handed to the retirement authority in one run from
/// `assessment`: at most `MAX_PRESENTATION_RETIREMENT_ATTEMPTS` of them, each
/// the proof token of `assessment`, and on success as many as were retired.
pub open spec fn retirement_trace(
    tokens: Seq<Seq<char>>,
    assessment: LegacyPresentationAssessment,
    r: Result<usize, CutoverError>,
) -> bool {
    &&& tokens.len() <= MAX_PRESENTATION_RETIREMENT_ATTEMPTS
    &&& forall|i: int| 0 <= i < tokens.len() ==> Some(#[trigger] tokens[i]) == text_option(assessment.proof)
    &&& r matches Ok(n) ==> tokens.len() == n
}

/// Retires the proven presentation until none remains, proving it again
/// after each retirement, and returns how many it retired. The proof token
/// must stay the same between attempts, and at most
/// `MAX_PRESENTATION_RETIREMENT_ATTEMPTS` retirements are made. Each
/// retirement is handed the token `retirement_token` gives for the
/// assessment, which is the assessment's own proof token, and the step after
/// it is `retirement_after_proof` of the repeated proof. A refused or absent
/// presentation is neither retired nor proved again.
pub fn retire_until_none<P: PresentationAuthority>(
    presentation: &mut P,
    presentation_root: &str,
    assessment: LegacyPresentationAssessment,
) -> (r: Result<usize, CutoverError>)
    ensures
        r matches Ok(n) ==> n <= MAX_PRESENTATION_RETIREMENT_ATTEMPTS,
        assessment.state == LegacyPresentationState::NoPresentation ==> r == Ok::<
            usize,
            CutoverError,
        >(0),
        r == Ok::<usize, CutoverError>(0) ==> assessment.state
            == LegacyPresentationState::NoPresentation,
        retirement_refusal(assessment) matches Some(e) ==> r == Err::<usize, CutoverError>(e),
        retirement_refusal(assessment) is Some || assessment.state
            == LegacyPresentationState::NoPresentation ==> *final(presentation) == *old(presentation),
        exists|tokens: Seq<Seq<char>>|
            #[trigger] retirement_trace(tokens, assessment, r) && (tokens.len() == 0
                ==> *final(presentation) == *old(presentation)),
{
    let ghost initial = assessment;
    let ghost mut tokens: Seq<Seq<char>> = Seq::empty();
    match retirement_token(&assessment) {
        Ok(Some(_)) => {},
        Ok(None) => {
            assert(retirement_trace(tokens, initial, Ok::<usize, CutoverError>(0)));
            return Ok(0);
        },
        Err(e) => {
            assert(retirement_trace(tokens, initial, Err::<usize, CutoverError>(e)));
            return Err(e);
        },
    }
    let mut current = assessment;
    let mut retired: usize = 0;
    while retired < MAX_PRESENTATION_RETIREMENT_ATTEMPTS
        invariant
            retired < MAX_PRESENTATION_RETIREMENT_ATTEMPTS || retired
                == MAX_PRESENTATION_RETIREMENT_ATTEMPTS,
            initial == assessment,
            retired == 0 ==> current == initial,
            retirement_refusal(initial) is None,
            initial.state != LegacyPresentationState::NoPresentation,
            current.state != LegacyPresentationState::NoPresentation,
            same_proof(current, initial),
            tokens.len() == retired,
            forall|i: int| 0 <= i < tokens.len() ==> Some(#[trigger] tokens[i]) == text_option(initial.proof),
        decreases MAX_PRESENTATION_RETIREMENT_ATTEMPTS - retired,
    {
        let token = match retirement_token(&current) {
            Ok(Some(token)) => token,
            Ok(None) => {
                proof {
                    assert(current.state == LegacyPresentationState::NoPresentation);
                    assert(false);
                }
                return Ok(retired);
            },
            Err(e) => {
                assert(retirement_trace(tokens, initial, Err::<usize, CutoverError>(e)));
                return Err(e);
            },
        };
        proof {
            tokens = tokens.push(token@);
        }
        let outcome = retirement_outcome(presentation.retire(token));
        if let Err(e) = outcome {
            assert(retirement_trace(tokens, initial, Err::<usize, CutoverError>(e)));
            return Err(e);
        }
        retired = retired + 1;
        let next = presentation.prove(presentation_root);
        match retirement_after_proof(&current, next, retired) {
            RetireStep::Retired(n) => {
                assert(retirement_trace(tokens, initial, Ok::<usize, CutoverError>(n)));
                return Ok(n);
            },
            RetireStep::Refused(e) => {
                assert(retirement_trace(tokens, initial, Err::<usize, CutoverError>(e)));
                return Err(e);
            },
            RetireStep::Again(n) => {
                current = n;
            },
        }
    }
    assert(retirement_trace(
        tokens,
        initial,
        Err::<usize, CutoverError>(CutoverError::PresentationNotRetired),
    ));
    Err(CutoverError::PresentationNotRetired)
}

} // verus!
