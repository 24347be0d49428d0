use vstd::prelude::*;

use crate::errors::{LedgerOutcome, OpError};
use crate::identity::Identity;
use crate::project::{
    contribution_total, lemma_remove_by_keeps_wf, lemma_sum_by_le_sum, lemma_sum_remove_by,
    project_wf, remove_by, sum_by, Contribution, Project, ProjectStatus,
};
use crate::status::{evaluate, evaluate_spec, status_le};
use crate::store::ProjectStore;

verus! {

broadcast use crate::store::lemma_store_view;

/// A transfer the external ledger is asked to make: `amount` tokens to the
/// account of `to_account`.
#[derive(Clone, Copy, PartialEq, Eq, Structural, Debug)]
pub struct TransferArgs {
    pub amount: u64,
    pub to_account: Identity,
}

/// A pledge settlement in flight: returned by `begin_contribute` once the
/// campaign is marked busy, and handed to `finish_contribute` together
/// with the ledger's outcome. The transfer it stands for moves `amount`
/// from `contributor` to the system's custodial account, tagged with
/// `project_id` for reconciliation.
#[derive(Clone, Copy, PartialEq, Eq, Structural, Debug)]
pub struct PledgeTicket {
    pub project_id: usize,
    pub contributor: Identity,
    pub amount: u64,
    pub timestamp: u64,
}

/// A disbursement in flight: the whole collected `amount` goes to the
/// campaign owner `beneficiary`.
#[derive(Clone, Copy, PartialEq, Eq, Structural, Debug)]
pub struct ReleaseTicket {
    pub project_id: usize,
    pub beneficiary: Identity,
    pub amount: u64,
}

/// A refund in flight: the sum `amount` of the pledges of `claimant` goes
/// back to `claimant`.
#[derive(Clone, Copy, PartialEq, Eq, Structural, Debug)]
pub struct RefundTicket {
    pub project_id: usize,
    pub claimant: Identity,
    pub amount: u64,
}

impl ReleaseTicket {
    /// The ledger transfer this ticket stands for.
    pub fn transfer_args(&self) -> (r: TransferArgs)
        ensures
            r.amount == self.amount,
            r.to_account == self.beneficiary,
    {
        TransferArgs { amount: self.amount, to_account: self.beneficiary }
    }
}

impl RefundTicket {
    /// The ledger transfer this ticket stands for.
    pub fn transfer_args(&self) -> (r: TransferArgs)
        ensures
            r.amount == self.amount,
            r.to_account == self.claimant,
    {
        TransferArgs { amount: self.amount, to_account: self.claimant }
    }
}

/// Machine bound the pledge path needs: a pledge that will be accepted
/// must keep the campaign's balance inside the counter type.
pub open spec fn contribute_fits(s: Seq<Project>, project_id: usize, amount: u64) -> bool {
    (project_id < s.len() && s[project_id as int].status == ProjectStatus::Active
        && !s[project_id as int].busy) ==> s[project_id as int].current_amount + amount
        <= u64::MAX
}

/// What the validation step of a pledge decides, in order: a zero amount,
/// an anonymous contributor, an unknown campaign, a settlement already in
/// flight, a campaign that is not `Active`, and a deadline that has
/// passed are refused; otherwise the pledge may go to the ledger.
pub open spec fn contribute_decision(
    s: Seq<Project>,
    project_id: usize,
    contributor: Identity,
    amount: u64,
    now: u64,
) -> Result<PledgeTicket, OpError> {
    if amount == 0 {
        Err(OpError::ZeroAmount)
    } else if contributor.is_anonymous_spec() {
        Err(OpError::AnonymousCaller)
    } else if project_id >= s.len() {
        Err(OpError::NotFound)
    } else if s[project_id as int].busy {
        Err(OpError::Busy)
    } else if s[project_id as int].status != ProjectStatus::Active {
        Err(OpError::InvalidState)
    } else if now > s[project_id as int].deadline {
        Err(OpError::PeriodEnded)
    } else {
        Ok(PledgeTicket { project_id, contributor, amount, timestamp: now })
    }
}

/// The store after the begin step of a pledge: marked busy on acceptance,
/// flipped to `Expired` when the deadline violation itself was the
/// authoritative signal of expiry, untouched on every other refusal.
pub open spec fn contribute_begun(
    s: Seq<Project>,
    project_id: usize,
    contributor: Identity,
    amount: u64,
    now: u64,
) -> Seq<Project> {
    let d = contribute_decision(s, project_id, contributor, amount, now);
    if d is Ok {
        s.update(project_id as int, (Project { busy: true, ..s[project_id as int] }))
    } else if d == Err::<PledgeTicket, OpError>(OpError::PeriodEnded) {
        s.update(
            project_id as int,
            (Project { status: ProjectStatus::Expired, ..s[project_id as int] }),
        )
    } else {
        s
    }
}

/// The store after the begin step of a disbursement or a refund: marked
/// busy on acceptance, untouched on refusal.
pub open spec fn settlement_begun<T>(
    s: Seq<Project>,
    project_id: usize,
    d: Result<T, OpError>,
) -> Seq<Project> {
    if d is Ok {
        s.update(project_id as int, (Project { busy: true, ..s[project_id as int] }))
    } else {
        s
    }
}

/// Concurrency law: while one accepted pledge against a campaign awaits
/// the ledger, every further pledge against the same campaign is refused
/// as busy instead of racing the first one's commit. With this and the
/// commit step growing the balance by exactly its ticket's confirmed
/// amount, the balance never reflects more than the transfers the ledger
/// confirmed.
pub proof fn lemma_concurrent_pledges_excluded(
    s: Seq<Project>,
    project_id: usize,
    first: Identity,
    amount_first: u64,
    now_first: u64,
    second: Identity,
    amount_second: u64,
    now_second: u64,
)
    requires
        contribute_decision(s, project_id, first, amount_first, now_first) is Ok,
        amount_second > 0,
        !second.is_anonymous_spec(),
    ensures
        contribute_decision(
            contribute_begun(s, project_id, first, amount_first, now_first),
            project_id,
            second,
            amount_second,
            now_second,
        ) == Err::<PledgeTicket, OpError>(OpError::Busy),
{
}

/// Failure round trip law: when the ledger call of an accepted pledge
/// fails, clearing the busy marker — all the commit step then does —
/// leaves the store exactly as it was before the begin step.
pub proof fn lemma_failed_pledge_round_trip(
    s: Seq<Project>,
    project_id: usize,
    contributor: Identity,
    amount: u64,
    now: u64,
)
    requires
        contribute_decision(s, project_id, contributor, amount, now) is Ok,
    ensures
        contribute_begun(s, project_id, contributor, amount, now).update(
            project_id as int,
            (Project {
                busy: false,
                ..contribute_begun(s, project_id, contributor, amount, now)[project_id as int]
            }),
        ) == s,
{
    let s1 = contribute_begun(s, project_id, contributor, amount, now);
    let s2 = s1.update(project_id as int, (Project { busy: false, ..s1[project_id as int] }));
    assert(s2 =~= s);
}

/// Failure round trip law for disbursements and refunds: clearing the busy
/// marker of the one campaign an accepted begin step marked leaves the
/// store exactly as it was before that step.
pub proof fn lemma_failed_settlement_round_trip<T>(
    s: Seq<Project>,
    project_id: usize,
    d: Result<T, OpError>,
)
    requires
        d is Ok,
        project_id < s.len(),
        !s[project_id as int].busy,
    ensures
        settlement_begun(s, project_id, d).update(
            project_id as int,
            (Project { busy: false, ..settlement_begun(s, project_id, d)[project_id as int] }),
        ) == s,
{
    let s1 = settlement_begun(s, project_id, d);
    let s2 = s1.update(project_id as int, (Project { busy: false, ..s1[project_id as int] }));
    assert(s2 =~= s);
}

/// Step one of a pledge: validates the request against the current
/// snapshot, marks the campaign busy, and hands back the ticket for the
/// ledger call. No other campaign changes, and a campaign already busy is
/// refused at once, so two pledges can never be in flight against the
/// same campaign.
pub fn begin_contribute(
    store: &mut ProjectStore,
    project_id: usize,
    contributor: Identity,
    amount: u64,
    now: u64,
) -> (r: Result<PledgeTicket, OpError>)
    requires
        old(store).wf(),
        contribute_fits(old(store)@, project_id, amount),
    ensures
        final(store).wf(),
        r == contribute_decision(old(store)@, project_id, contributor, amount, now),
        final(store)@ == contribute_begun(old(store)@, project_id, contributor, amount, now),
        forall|i: int|
            0 <= i < final(store)@.len() ==> status_le(
                old(store)@[i].status,
                final(store)@[i].status,
            ),
{
    if amount == 0 {
        return Err(OpError::ZeroAmount);
    }
    if contributor.is_anonymous() {
        return Err(OpError::AnonymousCaller);
    }
    if project_id >= store.projects.len() {
        return Err(OpError::NotFound);
    }
    if store.projects[project_id].busy {
        return Err(OpError::Busy);
    }
    if store.projects[project_id].status != ProjectStatus::Active {
        return Err(OpError::InvalidState);
    }
    if now > store.projects[project_id].deadline {
        store.projects[project_id].status = ProjectStatus::Expired;
        proof {
            lemma_wf_after_update(*old(store), *store, project_id as int);
        }
        return Err(OpError::PeriodEnded);
    }
    store.projects[project_id].busy = true;
    proof {
        lemma_wf_after_update(*old(store), *store, project_id as int);
    }
    Ok(PledgeTicket { project_id, contributor, amount, timestamp: now })
}

/// An update that keeps a campaign's pledges, balance and disbursement
/// flag keeps the store well formed.
proof fn lemma_wf_after_update(pre: ProjectStore, post: ProjectStore, t: int)
    requires
        pre.wf(),
        0 <= t < pre@.len(),
        post@.len() == pre@.len(),
        forall|i: int| 0 <= i < pre@.len() && i != t ==> post@[i] == pre@[i],
        post@[t].id == pre@[t].id,
        post@[t].funding_goal == pre@[t].funding_goal,
        post@[t].deadline == pre@[t].deadline,
        post@[t].created_at == pre@[t].created_at,
        post@[t].contributors@ == pre@[t].contributors@,
        post@[t].current_amount == pre@[t].current_amount,
        post@[t].released == pre@[t].released,
        pre@[t].released ==> post@[t].status == pre@[t].status,
    ensures
        post.wf(),
{
    assert(project_wf(pre@[t]));
    assert forall|i: int|
        0 <= i < post@.len() implies project_wf(#[trigger] post@[i]) && post@[i].id == i by {
        if i != t {
            assert(post@[i] == pre@[i]);
        } else {
            assert(project_wf(post@[t]));
        }
    }
}

/// Step two of a pledge: commits the outcome of the ledger call against a
/// freshly read snapshot. On a confirmed transfer the pledge is appended,
/// the balance grows by exactly the ticket's amount, and the status is
/// re-evaluated; on a failed call or a rejected transfer the campaign is
/// exactly as the begin step left it, only no longer busy. Either way the
/// busy marker is cleared and no other campaign changes.
///
/// The requires are exactly what `begin_contribute` establishes on
/// acceptance; the busy marker keeps every other settlement operation and
/// the expiry sweep away from the campaign while the call is outstanding.
pub fn finish_contribute(
    store: &mut ProjectStore,
    ticket: PledgeTicket,
    outcome: LedgerOutcome,
    now: u64,
) -> (r: Result<u64, OpError>)
    requires
        old(store).wf(),
        ticket.project_id < old(store)@.len(),
        old(store)@[ticket.project_id as int].busy,
        old(store)@[ticket.project_id as int].status == ProjectStatus::Active,
        ticket.amount > 0,
        !ticket.contributor.is_anonymous_spec(),
        old(store)@[ticket.project_id as int].current_amount + ticket.amount <= u64::MAX,
    ensures
        final(store).wf(),
        final(store)@.len() == old(store)@.len(),
        forall|i: int|
            0 <= i < final(store)@.len() && i != ticket.project_id ==> final(store)@[i] == old(
                store,
            )@[i],
        forall|i: int|
            0 <= i < final(store)@.len() ==> status_le(
                old(store)@[i].status,
                final(store)@[i].status,
            ),
        !(outcome matches LedgerOutcome::Confirmed(_)) ==> final(store)@ == old(store)@.update(
            ticket.project_id as int,
            (Project { busy: false, ..old(store)@[ticket.project_id as int] }),
        ),
        outcome == LedgerOutcome::CallFailed ==> r == Err::<u64, OpError>(
            OpError::LedgerCallFailure,
        ),
        outcome == LedgerOutcome::Rejected ==> r == Err::<u64, OpError>(
            OpError::LedgerTransferError,
        ),
        outcome matches LedgerOutcome::Confirmed(b) ==> r == Ok::<u64, OpError>(b) && {
            let p0 = old(store)@[ticket.project_id as int];
            let p = final(store)@[ticket.project_id as int];
            &&& p.contributors@ == p0.contributors@.push(
                Contribution {
                    contributor: ticket.contributor,
                    amount: ticket.amount,
                    timestamp: ticket.timestamp,
                },
            )
            &&& p.current_amount == p0.current_amount + ticket.amount
            &&& p.status == evaluate_spec(
                p0.status,
                (p0.current_amount + ticket.amount) as u64,
                p0.funding_goal,
                p0.deadline,
                now,
            )
            &&& !p.busy
            &&& p.id == p0.id && p.owner == p0.owner && p.title == p0.title
            &&& p.description == p0.description && p.funding_goal == p0.funding_goal
            &&& p.deadline == p0.deadline && p.created_at == p0.created_at
            &&& p.released == p0.released
        },
{
    let tid = ticket.project_id;
    proof {
        assert(project_wf(old(store)@[tid as int]));
    }
    match outcome {
        LedgerOutcome::Confirmed(block) => {
            let mut p = store.projects.remove(tid);
            p.current_amount = p.current_amount + ticket.amount;
            p.contributors.push(
                Contribution {
                    contributor: ticket.contributor,
                    amount: ticket.amount,
                    timestamp: ticket.timestamp,
                },
            );
            let st = evaluate(&p, now);
            p.status = st;
            p.busy = false;
            let ghost gp = p;
            store.projects.insert(tid, p);
            proof {
                let p0 = old(store)@[tid as int];
                assert(store.projects@ =~= old(store)@.update(tid as int, gp));
                assert(gp.contributors@.drop_last() =~= p0.contributors@);
                assert(gp.contributors@.last() == Contribution {
                    contributor: ticket.contributor,
                    amount: ticket.amount,
                    timestamp: ticket.timestamp,
                });
                assert(forall|j: int|
                    0 <= j < p0.contributors@.len() ==> gp.contributors@[j] == #[trigger] p0
                        .contributors@[j]);
                assert(project_wf(gp));
                assert forall|i: int|
                    0 <= i < store@.len() implies project_wf(#[trigger] store@[i]) && store@[i].id
                    == i by {
                    if i != tid {
                        assert(store@[i] == old(store)@[i]);
                    }
                }
            }
            Ok(block)
        },
        LedgerOutcome::CallFailed => {
            store.projects[tid].busy = false;
            proof {
                lemma_wf_after_update(*old(store), *store, tid as int);
                assert(store@ =~= old(store)@.update(
                    tid as int,
                    (Project { busy: false, ..old(store)@[tid as int] }),
                ));
            }
            Err(OpError::LedgerCallFailure)
        },
        LedgerOutcome::Rejected => {
            store.projects[tid].busy = false;
            proof {
                lemma_wf_after_update(*old(store), *store, tid as int);
                assert(store@ =~= old(store)@.update(
                    tid as int,
                    (Project { busy: false, ..old(store)@[tid as int] }),
                ));
            }
            Err(OpError::LedgerTransferError)
        },
    }
}

/// What the validation step of a disbursement decides, in order: an
/// unknown campaign, a settlement already in flight, a campaign that is
/// not `Funded` or whose funds were already released, and a caller other
/// than the owner are refused; otherwise the whole collected amount may
/// go to the owner.
pub open spec fn release_decision(s: Seq<Project>, project_id: usize, caller: Identity) -> Result<
    ReleaseTicket,
    OpError,
> {
    if project_id >= s.len() {
        Err(OpError::NotFound)
    } else if s[project_id as int].busy {
        Err(OpError::Busy)
    } else if s[project_id as int].status != ProjectStatus::Funded
        || s[project_id as int].released {
        Err(OpError::InvalidState)
    } else if s[project_id as int].owner != caller {
        Err(OpError::Unauthorized)
    } else {
        Ok(
            ReleaseTicket {
                project_id,
                beneficiary: s[project_id as int].owner,
                amount: s[project_id as int].current_amount,
            },
        )
    }
}

/// Step one of a disbursement: validates the request, marks the campaign
/// busy, and hands back the ticket naming the owner and the whole
/// collected amount. A second disbursement of the same campaign is
/// refused: the funds were already released.
pub fn begin_release(store: &mut ProjectStore, project_id: usize, caller: Identity) -> (r: Result<
    ReleaseTicket,
    OpError,
>)
    requires
        old(store).wf(),
    ensures
        final(store).wf(),
        r == release_decision(old(store)@, project_id, caller),
        final(store)@ == settlement_begun(old(store)@, project_id, r),
        forall|i: int|
            0 <= i < final(store)@.len() ==> status_le(
                old(store)@[i].status,
                final(store)@[i].status,
            ),
{
    if project_id >= store.projects.len() {
        return Err(OpError::NotFound);
    }
    if store.projects[project_id].busy {
        return Err(OpError::Busy);
    }
    if store.projects[project_id].status != ProjectStatus::Funded
        || store.projects[project_id].released {
        return Err(OpError::InvalidState);
    }
    if store.projects[project_id].owner != caller {
        return Err(OpError::Unauthorized);
    }
    let ticket = ReleaseTicket {
        project_id,
        beneficiary: store.projects[project_id].owner,
        amount: store.projects[project_id].current_amount,
    };
    store.projects[project_id].busy = true;
    proof {
        lemma_wf_after_update(*old(store), *store, project_id as int);
    }
    Ok(ticket)
}

/// Step two of a disbursement: commits the outcome of the ledger call.
/// On a confirmed transfer the balance is set to zero and the campaign is
/// marked released — the status stays `Funded`, and the pledges stay on
/// record; on a failed call or a rejected transfer the campaign is
/// exactly as the begin step left it, only no longer busy.
pub fn finish_release(
    store: &mut ProjectStore,
    ticket: ReleaseTicket,
    outcome: LedgerOutcome,
) -> (r: Result<u64, OpError>)
    requires
        old(store).wf(),
        ticket.project_id < old(store)@.len(),
        old(store)@[ticket.project_id as int].busy,
        old(store)@[ticket.project_id as int].status == ProjectStatus::Funded,
        !old(store)@[ticket.project_id as int].released,
        ticket.amount == old(store)@[ticket.project_id as int].current_amount,
        ticket.beneficiary == old(store)@[ticket.project_id as int].owner,
    ensures
        final(store).wf(),
        final(store)@.len() == old(store)@.len(),
        forall|i: int|
            0 <= i < final(store)@.len() && i != ticket.project_id ==> final(store)@[i] == old(
                store,
            )@[i],
        forall|i: int|
            0 <= i < final(store)@.len() ==> status_le(
                old(store)@[i].status,
                final(store)@[i].status,
            ),
        !(outcome matches LedgerOutcome::Confirmed(_)) ==> final(store)@ == old(store)@.update(
            ticket.project_id as int,
            (Project { busy: false, ..old(store)@[ticket.project_id as int] }),
        ),
        outcome == LedgerOutcome::CallFailed ==> r == Err::<u64, OpError>(
            OpError::LedgerCallFailure,
        ),
        outcome == LedgerOutcome::Rejected ==> r == Err::<u64, OpError>(
            OpError::LedgerTransferError,
        ),
        outcome matches LedgerOutcome::Confirmed(b) ==> r == Ok::<u64, OpError>(b)
            && final(store)@ == old(store)@.update(
            ticket.project_id as int,
            (Project {
                current_amount: 0,
                released: true,
                busy: false,
                ..old(store)@[ticket.project_id as int]
            }),
        ),
{
    let tid = ticket.project_id;
    proof {
        assert(project_wf(old(store)@[tid as int]));
    }
    match outcome {
        LedgerOutcome::Confirmed(block) => {
            let mut p = store.projects.remove(tid);
            p.current_amount = 0;
            p.released = true;
            p.busy = false;
            let ghost gp = p;
            store.projects.insert(tid, p);
            proof {
                assert(store.projects@ =~= old(store)@.update(tid as int, gp));
                assert(project_wf(gp));
                assert forall|i: int|
                    0 <= i < store@.len() implies project_wf(#[trigger] store@[i]) && store@[i].id
                    == i by {
                    if i != tid {
                        assert(store@[i] == old(store)@[i]);
                    }
                }
            }
            Ok(block)
        },
        LedgerOutcome::CallFailed => {
            store.projects[tid].busy = false;
            proof {
                lemma_wf_after_update(*old(store), *store, tid as int);
                assert(store@ =~= old(store)@.update(
                    tid as int,
                    (Project { busy: false, ..old(store)@[tid as int] }),
                ));
            }
            Err(OpError::LedgerCallFailure)
        },
        LedgerOutcome::Rejected => {
            store.projects[tid].busy = false;
            proof {
                lemma_wf_after_update(*old(store), *store, tid as int);
                assert(store@ =~= old(store)@.update(
                    tid as int,
                    (Project { busy: false, ..old(store)@[tid as int] }),
                ));
            }
            Err(OpError::LedgerTransferError)
        },
    }
}

/// What the validation step of a refund decides, in order: an unknown
/// campaign, a settlement already in flight, a campaign that is not
/// `Expired`, and a caller without any pledge on record are refused;
/// otherwise the caller's whole pledged sum may go back to the caller.
pub open spec fn refund_decision(s: Seq<Project>, project_id: usize, caller: Identity) -> Result<
    RefundTicket,
    OpError,
> {
    if project_id >= s.len() {
        Err(OpError::NotFound)
    } else if s[project_id as int].busy {
        Err(OpError::Busy)
    } else if s[project_id as int].status != ProjectStatus::Expired {
        Err(OpError::InvalidState)
    } else if sum_by(s[project_id as int].contributors@, caller) == 0 {
        Err(OpError::ZeroAmount)
    } else {
        Ok(
            RefundTicket {
                project_id,
                claimant: caller,
                amount: sum_by(s[project_id as int].contributors@, caller) as u64,
            },
        )
    }
}

/// Step one of a refund: validates the request, computes the caller's
/// pledged sum, and marks the campaign busy.
pub fn begin_refund(store: &mut ProjectStore, project_id: usize, caller: Identity) -> (r: Result<
    RefundTicket,
    OpError,
>)
    requires
        old(store).wf(),
    ensures
        final(store).wf(),
        r == refund_decision(old(store)@, project_id, caller),
        final(store)@ == settlement_begun(old(store)@, project_id, r),
        forall|i: int|
            0 <= i < final(store)@.len() ==> status_le(
                old(store)@[i].status,
                final(store)@[i].status,
            ),
{
    if project_id >= store.projects.len() {
        return Err(OpError::NotFound);
    }
    if store.projects[project_id].busy {
        return Err(OpError::Busy);
    }
    if store.projects[project_id].status != ProjectStatus::Expired {
        return Err(OpError::InvalidState);
    }
    proof {
        assert(project_wf(old(store)@[project_id as int]));
    }
    let total = contribution_total(&store.projects[project_id].contributors, caller);
    if total == 0 {
        return Err(OpError::ZeroAmount);
    }
    store.projects[project_id].busy = true;
    proof {
        lemma_wf_after_update(*old(store), *store, project_id as int);
    }
    Ok(RefundTicket { project_id, claimant: caller, amount: total })
}

/// Step two of a refund: commits the outcome of the ledger call. On a
/// confirmed transfer every pledge of the claimant is removed and the
/// balance shrinks by exactly the refunded sum, leaving every other
/// contributor's pledges untouched; on a failed call or a rejected
/// transfer the campaign is exactly as the begin step left it, only no
/// longer busy.
pub fn finish_refund(
    store: &mut ProjectStore,
    ticket: RefundTicket,
    outcome: LedgerOutcome,
) -> (r: Result<u64, OpError>)
    requires
        old(store).wf(),
        ticket.project_id < old(store)@.len(),
        old(store)@[ticket.project_id as int].busy,
        old(store)@[ticket.project_id as int].status == ProjectStatus::Expired,
        ticket.amount == sum_by(
            old(store)@[ticket.project_id as int].contributors@,
            ticket.claimant,
        ),
        ticket.amount > 0,
    ensures
        final(store).wf(),
        final(store)@.len() == old(store)@.len(),
        forall|i: int|
            0 <= i < final(store)@.len() && i != ticket.project_id ==> final(store)@[i] == old(
                store,
            )@[i],
        forall|i: int|
            0 <= i < final(store)@.len() ==> status_le(
                old(store)@[i].status,
                final(store)@[i].status,
            ),
        !(outcome matches LedgerOutcome::Confirmed(_)) ==> final(store)@ == old(store)@.update(
            ticket.project_id as int,
            (Project { busy: false, ..old(store)@[ticket.project_id as int] }),
        ),
        outcome == LedgerOutcome::CallFailed ==> r == Err::<u64, OpError>(
            OpError::LedgerCallFailure,
        ),
        outcome == LedgerOutcome::Rejected ==> r == Err::<u64, OpError>(
            OpError::LedgerTransferError,
        ),
        outcome matches LedgerOutcome::Confirmed(b) ==> r == Ok::<u64, OpError>(b) && {
            let p0 = old(store)@[ticket.project_id as int];
            let p = final(store)@[ticket.project_id as int];
            &&& p.contributors@ == remove_by(p0.contributors@, ticket.claimant)
            &&& p.current_amount == p0.current_amount - ticket.amount
            &&& p.status == p0.status
            &&& !p.busy
            &&& p.id == p0.id && p.owner == p0.owner && p.title == p0.title
            &&& p.description == p0.description && p.funding_goal == p0.funding_goal
            &&& p.deadline == p0.deadline && p.created_at == p0.created_at
            &&& p.released == p0.released
        },
{
    let tid = ticket.project_id;
    proof {
        assert(project_wf(old(store)@[tid as int]));
        lemma_sum_by_le_sum(old(store)@[tid as int].contributors@, ticket.claimant);
    }
    match outcome {
        LedgerOutcome::Confirmed(block) => {
            let mut p = store.projects.remove(tid);
            let ghost orig = p.contributors@;
            let mut kept: Vec<Contribution> = Vec::new();
            let mut i: usize = 0;
            while i < p.contributors.len()
                invariant
                    0 <= i <= orig.len(),
                    p.contributors@ == orig,
                    kept@ == remove_by(orig.subrange(0, i as int), ticket.claimant),
                decreases orig.len() - i,
            {
                proof {
                    assert(orig.subrange(0, i + 1).drop_last() =~= orig.subrange(0, i as int));
                    assert(orig.subrange(0, i + 1).last() == orig[i as int]);
                }
                let c = p.contributors[i];
                if !(c.contributor == ticket.claimant) {
                    kept.push(c);
                }
                i = i + 1;
            }
            proof {
                assert(orig.subrange(0, orig.len() as int) =~= orig);
                lemma_sum_remove_by(orig, ticket.claimant);
                lemma_remove_by_keeps_wf(orig, ticket.claimant);
            }
            p.contributors = kept;
            p.current_amount = p.current_amount - ticket.amount;
            p.busy = false;
            let ghost gp = p;
            store.projects.insert(tid, p);
            proof {
                assert(store.projects@ =~= old(store)@.update(tid as int, gp));
                assert(project_wf(gp));
                assert forall|i: int|
                    0 <= i < store@.len() implies project_wf(#[trigger] store@[i]) && store@[i].id
                    == i by {
                    if i != tid {
                        assert(store@[i] == old(store)@[i]);
                    }
                }
            }
            Ok(block)
        },
        LedgerOutcome::CallFailed => {
            store.projects[tid].busy = false;
            proof {
                lemma_wf_after_update(*old(store), *store, tid as int);
                assert(store@ =~= old(store)@.update(
                    tid as int,
                    (Project { busy: false, ..old(store)@[tid as int] }),
                ));
            }
            Err(OpError::LedgerCallFailure)
        },
        LedgerOutcome::Rejected => {
            store.projects[tid].busy = false;
            proof {
                lemma_wf_after_update(*old(store), *store, tid as int);
                assert(store@ =~= old(store)@.update(
                    tid as int,
                    (Project { busy: false, ..old(store)@[tid as int] }),
                ));
            }
            Err(OpError::LedgerTransferError)
        },
    }
}

} // verus!
