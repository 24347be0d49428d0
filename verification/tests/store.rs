use crowdfunding_backend::errors::{LedgerOutcome, OpError};
use crowdfunding_backend::identity::Identity;
use crowdfunding_backend::project::ProjectStatus;
use crowdfunding_backend::settlement::{begin_contribute, finish_contribute};
use crowdfunding_backend::store::{ProjectStore, NANOS_PER_DAY};

fn carol() -> Identity {
    Identity { key: 10 }
}

fn dave() -> Identity {
    Identity { key: 11 }
}

fn create(store: &mut ProjectStore, who: Identity, title: &str, goal: u64) -> usize {
    store
        .create_project(who, title.to_owned(), "desc".to_owned(), goal, 2, 1_000)
        .unwrap()
}

fn pledge(store: &mut ProjectStore, id: usize, who: Identity, amount: u64, now: u64) {
    let ticket = begin_contribute(store, id, who, amount, now).unwrap();
    finish_contribute(store, ticket, LedgerOutcome::Confirmed(1), now).unwrap();
}

#[test]
fn create_rejects_bad_input() {
    let mut store = ProjectStore::new();
    let e = store
        .create_project(carol(), "".to_owned(), "d".to_owned(), 10, 1, 0)
        .unwrap_err();
    assert_eq!(e, OpError::ValidationError);
    // Whitespace only counts as blank, including non-ascii whitespace.
    let e = store
        .create_project(carol(), " \t\r\n".to_owned(), "d".to_owned(), 10, 1, 0)
        .unwrap_err();
    assert_eq!(e, OpError::ValidationError);
    let e = store
        .create_project(carol(), "t".to_owned(), "\u{2003}\u{00A0}".to_owned(), 10, 1, 0)
        .unwrap_err();
    assert_eq!(e, OpError::ValidationError);
    let e = store
        .create_project(carol(), "t".to_owned(), "d".to_owned(), 0, 1, 0)
        .unwrap_err();
    assert_eq!(e, OpError::ValidationError);
    let e = store
        .create_project(carol(), "t".to_owned(), "d".to_owned(), 10, 0, 0)
        .unwrap_err();
    assert_eq!(e, OpError::ValidationError);
    // A deadline that does not fit the timestamp type is refused.
    let e = store
        .create_project(carol(), "t".to_owned(), "d".to_owned(), 10, u64::MAX, 0)
        .unwrap_err();
    assert_eq!(e, OpError::ValidationError);
    assert_eq!(store.list_projects().len(), 0);
}

#[test]
fn ids_are_handed_out_in_order() {
    let mut store = ProjectStore::new();
    assert_eq!(create(&mut store, carol(), "one", 10), 0);
    assert_eq!(create(&mut store, dave(), "two", 20), 1);
    assert_eq!(create(&mut store, carol(), "three", 30), 2);
    assert_eq!(store.list_projects().len(), 3);
    assert_eq!(store.list_projects()[1].title, "two");
    assert!(matches!(store.get_project(3), Err(OpError::NotFound)));
}

#[test]
fn projects_filtered_by_owner() {
    let mut store = ProjectStore::new();
    create(&mut store, carol(), "one", 10);
    create(&mut store, dave(), "two", 20);
    create(&mut store, carol(), "three", 30);
    assert_eq!(store.get_user_projects(carol()), vec![0, 2]);
    assert_eq!(store.get_user_projects(dave()), vec![1]);
    assert_eq!(store.get_user_projects(Identity { key: 99 }), Vec::<usize>::new());
}

#[test]
fn contributions_aggregated_by_user() {
    let mut store = ProjectStore::new();
    let a = create(&mut store, carol(), "one", 10_000);
    let b = create(&mut store, carol(), "two", 10_000);
    let c = create(&mut store, carol(), "three", 10_000);
    pledge(&mut store, a, dave(), 300, 2_000);
    pledge(&mut store, b, carol(), 50, 2_000);
    pledge(&mut store, b, dave(), 400, 2_100);
    pledge(&mut store, b, dave(), 500, 2_200);
    let _ = c;
    assert_eq!(store.get_user_contributions(dave()), vec![(a, 300), (b, 900)]);
    assert_eq!(store.get_user_contributions(carol()), vec![(b, 50)]);
    assert_eq!(store.get_user_contributions(Identity { key: 99 }), Vec::<(usize, u64)>::new());
}

#[test]
fn sweep_expires_only_overdue_active_campaigns() {
    let mut store = ProjectStore::new();
    let a = create(&mut store, carol(), "one", 100);
    let b = create(&mut store, carol(), "two", 100);
    let c = store
        .create_project(carol(), "late".to_owned(), "d".to_owned(), 100, 4, 1_000)
        .unwrap();
    pledge(&mut store, b, dave(), 100, 2_000);
    let after_two_days = 1_000 + 2 * NANOS_PER_DAY + 1;
    store.update_project_statuses(after_two_days);
    assert_eq!(store.get_project(a).ok().unwrap().status, ProjectStatus::Expired);
    // A funded campaign does not expire.
    assert_eq!(store.get_project(b).ok().unwrap().status, ProjectStatus::Funded);
    // A campaign whose deadline lies ahead stays active.
    assert_eq!(store.get_project(c).ok().unwrap().status, ProjectStatus::Active);
}

#[test]
fn replace_overwrites_one_record() {
    let mut store = ProjectStore::new();
    let a = create(&mut store, carol(), "one", 10);
    let b = create(&mut store, dave(), "two", 20);
    let replacement = crowdfunding_backend::project::Project {
        id: a,
        owner: carol(),
        title: "renamed".to_owned(),
        description: "d".to_owned(),
        funding_goal: 10,
        current_amount: 0,
        deadline: 1_000 + 2 * NANOS_PER_DAY,
        contributors: Vec::new(),
        status: ProjectStatus::Active,
        created_at: 1_000,
        busy: false,
        released: false,
    };
    store.replace(a, replacement);
    assert_eq!(store.get_project(a).ok().unwrap().title, "renamed");
    assert_eq!(store.get_project(b).ok().unwrap().title, "two");
}

#[test]
fn anonymous_identity_is_distinguished() {
    let anon = Identity::anonymous();
    assert!(anon.is_anonymous());
    assert!(!carol().is_anonymous());
}
