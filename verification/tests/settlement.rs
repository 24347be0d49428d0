use crowdfunding_backend::errors::{LedgerOutcome, OpError};
use crowdfunding_backend::identity::Identity;
use crowdfunding_backend::project::ProjectStatus;
use crowdfunding_backend::settlement::{
    begin_contribute, begin_refund, begin_release, finish_contribute, finish_refund,
    finish_release,
};
use crowdfunding_backend::store::{ProjectStore, NANOS_PER_DAY};

fn owner() -> Identity {
    Identity { key: 1 }
}

fn alice() -> Identity {
    Identity { key: 2 }
}

fn bob() -> Identity {
    Identity { key: 3 }
}

fn new_campaign(store: &mut ProjectStore, goal: u64, now: u64) -> usize {
    store
        .create_project(owner(), "A".to_owned(), "desc".to_owned(), goal, 1, now)
        .unwrap()
}

fn pledge(store: &mut ProjectStore, id: usize, who: Identity, amount: u64, now: u64) -> u64 {
    let ticket = begin_contribute(store, id, who, amount, now).unwrap();
    finish_contribute(store, ticket, LedgerOutcome::Confirmed(7), now).unwrap()
}

#[test]
fn scenario_create_and_get() {
    let mut store = ProjectStore::new();
    let id = store
        .create_project(owner(), "A".to_owned(), "desc".to_owned(), 1000, 1, 100)
        .unwrap();
    assert_eq!(id, 0);
    let p = store.get_project(id).ok().unwrap();
    assert_eq!(p.status, ProjectStatus::Active);
    assert_eq!(p.current_amount, 0);
    assert_eq!(p.funding_goal, 1000);
    assert_eq!(p.owner, owner());
    assert_eq!(p.created_at, 100);
    assert_eq!(p.deadline, 100 + NANOS_PER_DAY);
    assert_eq!(p.contributors.len(), 0);
    assert!(!p.busy);
    assert!(!p.released);
}

#[test]
fn scenario_contribute_reaches_goal() {
    let mut store = ProjectStore::new();
    let id = new_campaign(&mut store, 1000, 100);
    let ticket = begin_contribute(&mut store, id, alice(), 1000, 200).unwrap();
    assert_eq!(ticket.amount, 1000);
    assert_eq!(ticket.project_id, id);
    assert!(store.get_project(id).ok().unwrap().busy);
    let block = finish_contribute(&mut store, ticket, LedgerOutcome::Confirmed(42), 300).unwrap();
    assert_eq!(block, 42);
    let p = store.get_project(id).ok().unwrap();
    assert_eq!(p.status, ProjectStatus::Funded);
    assert_eq!(p.current_amount, 1000);
    assert_eq!(p.contributors.len(), 1);
    assert_eq!(p.contributors[0].contributor, alice());
    assert_eq!(p.contributors[0].amount, 1000);
    assert_eq!(p.contributors[0].timestamp, 200);
    assert!(!p.busy);
}

#[test]
fn scenario_contribute_past_deadline_expires() {
    let mut store = ProjectStore::new();
    let id = new_campaign(&mut store, 1000, 100);
    let late = 100 + NANOS_PER_DAY + 1;
    let e = begin_contribute(&mut store, id, alice(), 10, late).unwrap_err();
    assert_eq!(e, OpError::PeriodEnded);
    let p = store.get_project(id).ok().unwrap();
    assert_eq!(p.status, ProjectStatus::Expired);
    assert_eq!(p.current_amount, 0);
    assert!(!p.busy);
}

#[test]
fn scenario_refund_returns_only_own_pledges() {
    let mut store = ProjectStore::new();
    let id = new_campaign(&mut store, 10_000, 100);
    pledge(&mut store, id, alice(), 300, 200);
    pledge(&mut store, id, bob(), 400, 300);
    pledge(&mut store, id, alice(), 500, 400);
    store.update_project_statuses(100 + NANOS_PER_DAY + 1);
    assert_eq!(store.get_project(id).ok().unwrap().status, ProjectStatus::Expired);

    let ticket = begin_refund(&mut store, id, alice()).unwrap();
    assert_eq!(ticket.amount, 800);
    assert_eq!(ticket.claimant, alice());
    let args = ticket.transfer_args();
    assert_eq!(args.amount, 800);
    assert_eq!(args.to_account, alice());

    finish_refund(&mut store, ticket, LedgerOutcome::Confirmed(9)).unwrap();
    let p = store.get_project(id).ok().unwrap();
    assert_eq!(p.current_amount, 400);
    assert_eq!(p.contributors.len(), 1);
    assert_eq!(p.contributors[0].contributor, bob());
    assert_eq!(p.contributors[0].amount, 400);
    assert_eq!(p.status, ProjectStatus::Expired);
    assert!(!p.busy);
}

#[test]
fn scenario_release_only_once() {
    let mut store = ProjectStore::new();
    let id = new_campaign(&mut store, 500, 100);
    pledge(&mut store, id, alice(), 500, 200);
    assert_eq!(store.get_project(id).ok().unwrap().status, ProjectStatus::Funded);

    let ticket = begin_release(&mut store, id, owner()).unwrap();
    assert_eq!(ticket.amount, 500);
    assert_eq!(ticket.beneficiary, owner());
    let args = ticket.transfer_args();
    assert_eq!(args.amount, 500);
    assert_eq!(args.to_account, owner());
    finish_release(&mut store, ticket, LedgerOutcome::Confirmed(11)).unwrap();

    let p = store.get_project(id).ok().unwrap();
    assert_eq!(p.status, ProjectStatus::Funded);
    assert_eq!(p.current_amount, 0);
    assert!(p.released);
    assert_eq!(p.contributors.len(), 1);

    let e = begin_release(&mut store, id, owner()).unwrap_err();
    assert_eq!(e, OpError::InvalidState);
    assert_eq!(store.get_project(id).ok().unwrap().current_amount, 0);
}

#[test]
fn concurrent_pledges_never_double_commit() {
    let mut store = ProjectStore::new();
    let id = new_campaign(&mut store, 2000, 100);

    // First pledge goes out to the ledger and marks the campaign busy.
    let first = begin_contribute(&mut store, id, alice(), 1000, 200).unwrap();
    // A second pledge against the same campaign while the first awaits the
    // ledger is refused outright instead of racing the commit.
    let e = begin_contribute(&mut store, id, bob(), 1000, 210).unwrap_err();
    assert_eq!(e, OpError::Busy);

    finish_contribute(&mut store, first, LedgerOutcome::Confirmed(1), 220).unwrap();
    // Exactly one confirmed transfer is reflected.
    assert_eq!(store.get_project(id).ok().unwrap().current_amount, 1000);

    // Once the first settled, the second may run and commit.
    let second = begin_contribute(&mut store, id, bob(), 1000, 230).unwrap();
    finish_contribute(&mut store, second, LedgerOutcome::Confirmed(2), 240).unwrap();
    let p = store.get_project(id).ok().unwrap();
    assert_eq!(p.current_amount, 2000);
    assert_eq!(p.status, ProjectStatus::Funded);
}

#[test]
fn ledger_failure_leaves_campaign_unchanged() {
    let mut store = ProjectStore::new();
    let id = new_campaign(&mut store, 1000, 100);
    pledge(&mut store, id, alice(), 100, 200);

    let ticket = begin_contribute(&mut store, id, bob(), 50, 300).unwrap();
    let e = finish_contribute(&mut store, ticket, LedgerOutcome::CallFailed, 310).unwrap_err();
    assert_eq!(e, OpError::LedgerCallFailure);
    let p = store.get_project(id).ok().unwrap();
    assert_eq!(p.current_amount, 100);
    assert_eq!(p.contributors.len(), 1);
    assert_eq!(p.status, ProjectStatus::Active);
    assert!(!p.busy);

    let ticket = begin_contribute(&mut store, id, bob(), 50, 320).unwrap();
    let e = finish_contribute(&mut store, ticket, LedgerOutcome::Rejected, 330).unwrap_err();
    assert_eq!(e, OpError::LedgerTransferError);
    let p = store.get_project(id).ok().unwrap();
    assert_eq!(p.current_amount, 100);
    assert_eq!(p.contributors.len(), 1);
    assert_eq!(p.status, ProjectStatus::Active);
    assert!(!p.busy);
}

#[test]
fn release_failure_keeps_balance() {
    let mut store = ProjectStore::new();
    let id = new_campaign(&mut store, 500, 100);
    pledge(&mut store, id, alice(), 500, 200);
    let ticket = begin_release(&mut store, id, owner()).unwrap();
    let e = finish_release(&mut store, ticket, LedgerOutcome::CallFailed).unwrap_err();
    assert_eq!(e, OpError::LedgerCallFailure);
    let p = store.get_project(id).ok().unwrap();
    assert_eq!(p.current_amount, 500);
    assert!(!p.released);
    assert!(!p.busy);
}

#[test]
fn refund_failure_keeps_pledges() {
    let mut store = ProjectStore::new();
    let id = new_campaign(&mut store, 1000, 100);
    pledge(&mut store, id, alice(), 100, 200);
    store.update_project_statuses(100 + NANOS_PER_DAY + 1);
    let ticket = begin_refund(&mut store, id, alice()).unwrap();
    let e = finish_refund(&mut store, ticket, LedgerOutcome::Rejected).unwrap_err();
    assert_eq!(e, OpError::LedgerTransferError);
    let p = store.get_project(id).ok().unwrap();
    assert_eq!(p.current_amount, 100);
    assert_eq!(p.contributors.len(), 1);
    assert!(!p.busy);
}

#[test]
fn contribute_validation_errors() {
    let mut store = ProjectStore::new();
    let id = new_campaign(&mut store, 1000, 100);

    let e = begin_contribute(&mut store, id, alice(), 0, 200).unwrap_err();
    assert_eq!(e, OpError::ZeroAmount);
    let e = begin_contribute(&mut store, id, Identity::anonymous(), 10, 200).unwrap_err();
    assert_eq!(e, OpError::AnonymousCaller);
    let e = begin_contribute(&mut store, id + 1, alice(), 10, 200).unwrap_err();
    assert_eq!(e, OpError::NotFound);

    pledge(&mut store, id, alice(), 1000, 200);
    // A campaign that reached its goal is no longer open to pledges.
    let e = begin_contribute(&mut store, id, bob(), 10, 300).unwrap_err();
    assert_eq!(e, OpError::InvalidState);
}

#[test]
fn release_preconditions() {
    let mut store = ProjectStore::new();
    let id = new_campaign(&mut store, 1000, 100);
    // Not funded yet.
    let e = begin_release(&mut store, id, owner()).unwrap_err();
    assert_eq!(e, OpError::InvalidState);
    pledge(&mut store, id, alice(), 1000, 200);
    // Only the owner may disburse.
    let e = begin_release(&mut store, id, alice()).unwrap_err();
    assert_eq!(e, OpError::Unauthorized);
    let e = begin_release(&mut store, id + 5, owner()).unwrap_err();
    assert_eq!(e, OpError::NotFound);
}

#[test]
fn refund_preconditions() {
    let mut store = ProjectStore::new();
    let id = new_campaign(&mut store, 1000, 100);
    pledge(&mut store, id, alice(), 100, 200);
    // Refunds are only for expired campaigns.
    let e = begin_refund(&mut store, id, alice()).unwrap_err();
    assert_eq!(e, OpError::InvalidState);
    store.update_project_statuses(100 + NANOS_PER_DAY + 1);
    // A caller without any pledge has nothing to refund.
    let e = begin_refund(&mut store, id, bob()).unwrap_err();
    assert_eq!(e, OpError::ZeroAmount);
    let e = begin_refund(&mut store, id + 9, alice()).unwrap_err();
    assert_eq!(e, OpError::NotFound);
}

#[test]
fn busy_campaign_blocks_every_settlement() {
    let mut store = ProjectStore::new();
    let id = new_campaign(&mut store, 1000, 100);
    let ticket = begin_contribute(&mut store, id, alice(), 10, 200).unwrap();
    assert_eq!(begin_release(&mut store, id, owner()).unwrap_err(), OpError::Busy);
    assert_eq!(begin_refund(&mut store, id, alice()).unwrap_err(), OpError::Busy);
    assert_eq!(begin_contribute(&mut store, id, bob(), 5, 210).unwrap_err(), OpError::Busy);
    finish_contribute(&mut store, ticket, LedgerOutcome::Confirmed(3), 220).unwrap();
    assert!(!store.get_project(id).ok().unwrap().busy);
}

#[test]
fn balance_always_equals_pledge_sum() {
    let mut store = ProjectStore::new();
    let id = new_campaign(&mut store, 10_000, 100);
    pledge(&mut store, id, alice(), 300, 200);
    pledge(&mut store, id, bob(), 400, 300);
    pledge(&mut store, id, alice(), 500, 400);
    let p = store.get_project(id).ok().unwrap();
    let total: u64 = p.contributors.iter().map(|c| c.amount).sum();
    assert_eq!(p.current_amount, total);
    assert_eq!(p.current_amount, 1200);

    store.update_project_statuses(100 + NANOS_PER_DAY + 1);
    let ticket = begin_refund(&mut store, id, bob()).unwrap();
    finish_refund(&mut store, ticket, LedgerOutcome::Confirmed(4)).unwrap();
    let p = store.get_project(id).ok().unwrap();
    let total: u64 = p.contributors.iter().map(|c| c.amount).sum();
    assert_eq!(p.current_amount, total);
    assert_eq!(p.current_amount, 800);
}

#[test]
fn sweep_skips_campaign_awaiting_ledger() {
    let mut store = ProjectStore::new();
    let id = new_campaign(&mut store, 1000, 100);
    let late = 100 + NANOS_PER_DAY + 1;
    let ticket = begin_contribute(&mut store, id, alice(), 10, 200).unwrap();
    // The sweep leaves the busy campaign to the settlement's commit step.
    store.update_project_statuses(late);
    assert_eq!(store.get_project(id).ok().unwrap().status, ProjectStatus::Active);
    finish_contribute(&mut store, ticket, LedgerOutcome::CallFailed, late).unwrap_err();
    store.update_project_statuses(late);
    assert_eq!(store.get_project(id).ok().unwrap().status, ProjectStatus::Expired);
}
