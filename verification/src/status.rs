use vstd::prelude::*;

use crate::project::{Project, ProjectStatus};

verus! {

/// The single transition rule for a campaign's status.
///
/// An `Active` campaign past its deadline expires; otherwise a campaign
/// that reached its goal counts as funded; otherwise nothing changes.
/// Both the settlement path (after a committed pledge) and the periodic
/// sweep go through this rule.
pub open spec fn evaluate_spec(
    status: ProjectStatus,
    current_amount: u64,
    funding_goal: u64,
    deadline: u64,
    now: u64,
) -> ProjectStatus {
    if status == ProjectStatus::Active && now > deadline {
        ProjectStatus::Expired
    } else if current_amount >= funding_goal {
        ProjectStatus::Funded
    } else {
        status
    }
}

/// `evaluate_spec` applied to a campaign's own fields.
pub fn evaluate(project: &Project, now: u64) -> (r: ProjectStatus)
    ensures
        r == evaluate_spec(
            project.status,
            project.current_amount,
            project.funding_goal,
            project.deadline,
            now,
        ),
{
    if project.status == ProjectStatus::Active && now > project.deadline {
        ProjectStatus::Expired
    } else if project.current_amount >= project.funding_goal {
        ProjectStatus::Funded
    } else {
        project.status
    }
}

/// `b` is reachable from `a`: a campaign may leave `Active` for any state,
/// but `Funded` and `Expired` are final.
pub open spec fn status_le(a: ProjectStatus, b: ProjectStatus) -> bool {
    a == b || a == ProjectStatus::Active
}

/// Monotonic status law: reachability composes, so no sequence of
/// operations that each respect `status_le` moves a campaign out of
/// `Funded` or `Expired`, and in particular never back to `Active`.
pub proof fn lemma_status_monotonic(a: ProjectStatus, b: ProjectStatus, c: ProjectStatus)
    requires
        status_le(a, b),
        status_le(b, c),
    ensures
        status_le(a, c),
        a != ProjectStatus::Active ==> c == a,
{
}

} // verus!
