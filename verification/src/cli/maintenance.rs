//! Verdicts on the control-plane database and on the local page cache.

use vstd::prelude::*;
use crate::error::{answers, corrupt, MirageError};
use crate::text::{decimal, decimal_text, joined};

verus! {

/// What the checks of a database found.
#[derive(Debug, Clone, Copy)]
pub struct DatabaseReport {
    pub quick_check_ok: bool,
    pub integrity_check_ok: bool,
    pub foreign_key_violation_count: u64,
}

/// Refuses a database that failed any check.
pub fn check_database(report: &DatabaseReport) -> (verdict: Result<(), MirageError>)
    ensures
        answers(
            verdict,
            if report.quick_check_ok && report.integrity_check_ok
                && report.foreign_key_violation_count == 0 {
                None
            } else {
                corrupt(
                    "database check failed with "@ + decimal_text(
                        report.foreign_key_violation_count as nat,
                    ) + " foreign-key violations"@,
                )
            },
        ),
{
    if !report.quick_check_ok || !report.integrity_check_ok || report.foreign_key_violation_count
        != 0 {
        let mut message = joined(
            "database check failed with ",
            decimal(report.foreign_key_violation_count).as_str(),
        );
        message.append(" foreign-key violations");
        return Err(MirageError::integrity_mismatch(message.as_str()));
    }
    Ok(())
}

/// Why a page is pinned.
#[derive(Debug, Clone, Copy, PartialEq, Eq, Structural)]
pub enum PinReason {
    /// It holds bytes that exist nowhere else.
    Dirty,
    /// Any other reason.
    Other,
}

/// How much a page may be trusted to be recoverable.
#[derive(Debug, Clone, Copy, PartialEq, Eq, Structural)]
pub enum IntegrityClass {
    Clean,
    PinnedClean,
    Dirty,
}

/// The class of a page that is pinned for some reasons.
pub open spec fn class_of(reasons: Seq<PinReason>) -> IntegrityClass {
    if reasons.contains(PinReason::Dirty) {
        IntegrityClass::Dirty
    } else if reasons.len() == 0 {
        IntegrityClass::Clean
    } else {
        IntegrityClass::PinnedClean
    }
}

/// The class of a page that is pinned for some reasons.
pub fn integrity_class(reasons: &Vec<PinReason>) -> (class: IntegrityClass)
    ensures
        class == class_of(reasons@),
{
    let mut at: usize = 0;
    while at < reasons.len()
        invariant
            at <= reasons@.len(),
            forall|i: int| 0 <= i < at ==> reasons@[i] != PinReason::Dirty,
        decreases reasons@.len() - at,
    {
        if reasons[at] == PinReason::Dirty {
            assert(reasons@[at as int] == PinReason::Dirty);
            return IntegrityClass::Dirty;
        }
        at = at + 1;
    }
    if reasons.len() == 0 {
        IntegrityClass::Clean
    } else {
        IntegrityClass::PinnedClean
    }
}

/// What the verification of a page came to.
#[derive(Debug, Clone, Copy, PartialEq, Eq, Structural)]
pub enum VerifyOutcome {
    Verified,
    Quarantined,
    RecoveryRequired,
    /// The page had left the cache meanwhile.
    Absent,
}

/// How many pages came to each outcome. Absent pages are not counted.
#[derive(Debug, Clone, Copy, PartialEq, Eq, Structural)]
pub struct VerifyCounts {
    pub verified: usize,
    pub quarantined: usize,
    pub recovery_required: usize,
}

/// How often an outcome occurs.
pub open spec fn outcomes_equal(outcomes: Seq<VerifyOutcome>, outcome: VerifyOutcome) -> nat
    decreases outcomes.len(),
{
    if outcomes.len() == 0 {
        0
    } else {
        outcomes_equal(outcomes.drop_last(), outcome) + if outcomes.last() == outcome {
            1nat
        } else {
            0
        }
    }
}

/// Counts the outcomes.
pub fn count_outcomes(outcomes: &Vec<VerifyOutcome>) -> (counts: VerifyCounts)
    ensures
        counts.verified == outcomes_equal(outcomes@, VerifyOutcome::Verified),
        counts.quarantined == outcomes_equal(outcomes@, VerifyOutcome::Quarantined),
        counts.recovery_required == outcomes_equal(outcomes@, VerifyOutcome::RecoveryRequired),
{
    let mut counts = VerifyCounts { verified: 0, quarantined: 0, recovery_required: 0 };
    let length: usize = outcomes.len();
    assert(outcomes@.take(0).len() == 0);
    for at in 0..length
        invariant
            length == outcomes@.len(),
            counts.verified <= at,
            counts.quarantined <= at,
            counts.recovery_required <= at,
            counts.verified == outcomes_equal(
                outcomes@.take(at as int),
                VerifyOutcome::Verified,
            ),
            counts.quarantined == outcomes_equal(
                outcomes@.take(at as int),
                VerifyOutcome::Quarantined,
            ),
            counts.recovery_required == outcomes_equal(
                outcomes@.take(at as int),
                VerifyOutcome::RecoveryRequired,
            ),
    {
        proof {
            assert(outcomes@.take(at + 1).drop_last() == outcomes@.take(at as int));
            assert(outcomes@.take(at + 1).last() == outcomes@[at as int]);
        }
        match outcomes[at] {
            VerifyOutcome::Verified => {
                counts.verified = counts.verified + 1;
            },
            VerifyOutcome::Quarantined => {
                counts.quarantined = counts.quarantined + 1;
            },
            VerifyOutcome::RecoveryRequired => {
                counts.recovery_required = counts.recovery_required + 1;
            },
            VerifyOutcome::Absent => {},
        }
    }
    assert(outcomes@.take(length as int) == outcomes@);
    counts
}

/// How many of the resident pages are verified.
pub fn pages_to_verify(resident: usize, max_pages: Option<usize>) -> (count: usize)
    ensures
        count == match max_pages {
            Some(most) => if most < resident {
                most
            } else {
                resident
            },
            None => resident,
        },
{
    match max_pages {
        Some(most) if most < resident => most,
        _ => resident,
    }
}

/// The line that reports a verification.
pub fn verify_line(counts: &VerifyCounts) -> (line: String)
    ensures
        line@ == "cache verify: "@ + decimal_text(counts.verified as nat) + " verified, "@
            + decimal_text(counts.quarantined as nat) + " quarantined, "@ + decimal_text(
            counts.recovery_required as nat,
        ) + " recovery-required"@,
{
    let mut line = joined("cache verify: ", decimal(counts.verified as u64).as_str());
    line.append(" verified, ");
    line.append(decimal(counts.quarantined as u64).as_str());
    line.append(" quarantined, ");
    line.append(decimal(counts.recovery_required as u64).as_str());
    line.append(" recovery-required");
    line
}

/// The line that reports a reconciliation of the cache.
pub fn check_line(inspected: usize, planned: usize, repaired: usize, blocked: usize) -> (line: String)
    ensures
        line@ == "cache check: "@ + decimal_text(inspected as nat) + " inspected, "@ + decimal_text(
            planned as nat,
        ) + " planned, "@ + decimal_text(repaired as nat) + " repaired, "@ + decimal_text(
            blocked as nat,
        ) + " blocked"@,
{
    let mut line = joined("cache check: ", decimal(inspected as u64).as_str());
    line.append(" inspected, ");
    line.append(decimal(planned as u64).as_str());
    line.append(" planned, ");
    line.append(decimal(repaired as u64).as_str());
    line.append(" repaired, ");
    line.append(decimal(blocked as u64).as_str());
    line.append(" blocked");
    line
}

} // verus!
