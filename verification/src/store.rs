use vstd::prelude::*;
use vstd::string::StrSliceExecFns;

use crate::errors::OpError;
use crate::identity::Identity;
use crate::project::{
    contribution_total, project_wf, sum_amounts, sum_by, Contribution, Project, ProjectStatus,
};
use crate::status::status_le;

verus! {

/// Nanoseconds in one day; campaign durations are given in whole days.
pub const NANOS_PER_DAY: u64 = 24 * 60 * 60 * 1_000_000_000;

/// The characters that trimming treats as whitespace.
pub open spec fn is_space(c: char) -> bool {
    ||| c as u32 == 0x9
    ||| c as u32 == 0xA
    ||| c as u32 == 0xB
    ||| c as u32 == 0xC
    ||| c as u32 == 0xD
    ||| c as u32 == 0x20
    ||| c as u32 == 0x85
    ||| c as u32 == 0xA0
    ||| c as u32 == 0x1680
    ||| (0x2000 <= c as u32 && c as u32 <= 0x200A)
    ||| c as u32 == 0x2028
    ||| c as u32 == 0x2029
    ||| c as u32 == 0x202F
    ||| c as u32 == 0x205F
    ||| c as u32 == 0x3000
}

/// A text is blank when it is empty after trimming: every character is
/// whitespace.
pub open spec fn is_blank(s: Seq<char>) -> bool {
    forall|i: int| 0 <= i < s.len() ==> is_space(#[trigger] s[i])
}

pub fn is_space_char(c: char) -> (r: bool)
    ensures
        r == is_space(c),
{
    let v = c as u32;
    v == 0x9 || v == 0xA || v == 0xB || v == 0xC || v == 0xD || v == 0x20 || v == 0x85
        || v == 0xA0 || v == 0x1680 || (0x2000 <= v && v <= 0x200A) || v == 0x2028 || v == 0x2029
        || v == 0x202F || v == 0x205F || v == 0x3000
}

pub fn str_is_blank(s: &str) -> (r: bool)
    ensures
        r == is_blank(s@),
{
    let n = s.unicode_len();
    let mut i: usize = 0;
    while i < n
        invariant
            0 <= i <= n,
            n == s@.len(),
            forall|j: int| 0 <= j < i ==> is_space(#[trigger] s@[j]),
        decreases n - i,
    {
        if !is_space_char(s.get_char(i)) {
            return false;
        }
        i = i + 1;
    }
    true
}

/// The inputs on which campaign creation is refused: a blank title or
/// description, a zero goal, a zero duration, or a deadline that does not
/// fit the timestamp type.
pub open spec fn create_rejected(
    title: Seq<char>,
    description: Seq<char>,
    funding_goal: u64,
    duration_days: u64,
    now: u64,
) -> bool {
    ||| is_blank(title)
    ||| is_blank(description)
    ||| funding_goal == 0
    ||| duration_days == 0
    ||| now + duration_days * NANOS_PER_DAY > u64::MAX
}

/// The ids of the campaigns owned by `user`, in increasing order.
pub open spec fn owned_ids(s: Seq<Project>, user: Identity) -> Seq<usize>
    decreases s.len(),
{
    if s.len() == 0 {
        Seq::empty()
    } else if s.last().owner == user {
        owned_ids(s.drop_last(), user).push((s.len() - 1) as usize)
    } else {
        owned_ids(s.drop_last(), user)
    }
}

/// For each campaign where `user` pledged a positive total, the campaign's
/// id paired with that total, in increasing id order.
pub open spec fn contribution_entries(s: Seq<Project>, user: Identity) -> Seq<(usize, u64)>
    decreases s.len(),
{
    if s.len() == 0 {
        Seq::empty()
    } else if sum_by(s.last().contributors@, user) > 0 {
        contribution_entries(s.drop_last(), user).push(
            (((s.len() - 1) as usize), sum_by(s.last().contributors@, user) as u64),
        )
    } else {
        contribution_entries(s.drop_last(), user)
    }
}

/// The campaign swept by the periodic expiry pass: an `Active` campaign
/// past its deadline expires, unless a settlement operation on it is in
/// flight, in which case that operation's commit step settles the status.
pub open spec fn swept(p: Project, now: u64) -> Project {
    if p.status == ProjectStatus::Active && now > p.deadline && !p.busy {
        (Project { status: ProjectStatus::Expired, ..p })
    } else {
        p
    }
}

/// The authoritative keyed table of campaigns.
///
/// A campaign's id is its index in the table; ids are handed out by an
/// implicit counter (the table's length) and never reused.
pub struct ProjectStore {
    pub(crate) projects: Vec<Project>,
}

impl View for ProjectStore {
    type V = Seq<Project>;

    closed spec fn view(&self) -> Seq<Project> {
        self.projects@
    }
}

/// Inside the crate, the store's abstract view is its table of campaigns.
pub(crate) broadcast proof fn lemma_store_view(s: &ProjectStore)
    ensures
        #[trigger] s@ == s.projects@,
{
}

impl ProjectStore {
    /// Every stored campaign is well formed and sits at the index its id
    /// names.
    pub open spec fn wf(&self) -> bool {
        forall|i: int|
            0 <= i < self@.len() ==> project_wf(#[trigger] self@[i]) && self@[i].id == i
    }

    pub fn new() -> (r: ProjectStore)
        ensures
            r@ == Seq::<Project>::empty(),
            r.wf(),
    {
        ProjectStore { projects: Vec::new() }
    }

    /// Validates the inputs and inserts a fresh `Active` campaign with a
    /// zero balance, no pledges, and a deadline `duration_days` after
    /// `now`; returns its id. Rejected inputs (`create_rejected`) leave
    /// the store unchanged.
    pub fn create_project(
        &mut self,
        owner: Identity,
        title: String,
        description: String,
        funding_goal: u64,
        duration_days: u64,
        now: u64,
    ) -> (r: Result<usize, OpError>)
        requires
            old(self).wf(),
        ensures
            final(self).wf(),
            r is Err <==> create_rejected(title@, description@, funding_goal, duration_days, now),
            r is Err ==> (r matches Err(e) && e == OpError::ValidationError) && final(self)@
                == old(self)@,
            r is Ok ==> {
                &&& r matches Ok(id) && id == old(self)@.len()
                &&& final(self)@.len() == old(self)@.len() + 1
                &&& forall|i: int| 0 <= i < old(self)@.len() ==> final(self)@[i] == old(self)@[i]
                &&& final(self)@.last().id == old(self)@.len()
                &&& final(self)@.last().owner == owner
                &&& final(self)@.last().title == title
                &&& final(self)@.last().description == description
                &&& final(self)@.last().funding_goal == funding_goal
                &&& final(self)@.last().current_amount == 0
                &&& final(self)@.last().deadline == now + duration_days * NANOS_PER_DAY
                &&& final(self)@.last().contributors@ == Seq::<Contribution>::empty()
                &&& final(self)@.last().status == ProjectStatus::Active
                &&& final(self)@.last().created_at == now
                &&& !final(self)@.last().busy
                &&& !final(self)@.last().released
            },
    {
        if str_is_blank(title.as_str()) {
            return Err(OpError::ValidationError);
        }
        if str_is_blank(description.as_str()) {
            return Err(OpError::ValidationError);
        }
        if funding_goal == 0 {
            return Err(OpError::ValidationError);
        }
        if duration_days == 0 {
            return Err(OpError::ValidationError);
        }
        let span = match duration_days.checked_mul(NANOS_PER_DAY) {
            Some(s) => s,
            None => {
                return Err(OpError::ValidationError);
            },
        };
        let deadline = match now.checked_add(span) {
            Some(d) => d,
            None => {
                return Err(OpError::ValidationError);
            },
        };
        let id = self.projects.len();
        let project = Project {
            id,
            owner,
            title,
            description,
            funding_goal,
            current_amount: 0,
            deadline,
            contributors: Vec::new(),
            status: ProjectStatus::Active,
            created_at: now,
            busy: false,
            released: false,
        };
        self.projects.push(project);
        proof {
            let s = self.projects@;
            assert(duration_days * NANOS_PER_DAY >= NANOS_PER_DAY) by (nonlinear_arith)
                requires
                    duration_days >= 1,
            ;
            assert(sum_amounts(project.contributors@) == 0);
            assert(project_wf(project));
            assert forall|i: int|
                0 <= i < s.len() implies project_wf(#[trigger] s[i]) && s[i].id == i by {
                if i < s.len() - 1 {
                    assert(s[i] == old(self)@[i]);
                } else {
                    assert(s[i] == project);
                }
            }
        }
        Ok(id)
    }

    /// Looks a campaign up by id.
    pub fn get_project(&self, id: usize) -> (r: Result<&Project, OpError>)
        ensures
            id < self@.len() ==> (r matches Ok(p) && *p == self@[id as int]),
            id >= self@.len() ==> (r matches Err(e) && e == OpError::NotFound),
    {
        if id < self.projects.len() {
            Ok(&self.projects[id])
        } else {
            Err(OpError::NotFound)
        }
    }

    /// All campaigns, in id order.
    pub fn list_projects(&self) -> (r: &Vec<Project>)
        ensures
            r@ == self@,
    {
        &self.projects
    }

    /// The ids of the campaigns owned by `user`.
    pub fn get_user_projects(&self, user: Identity) -> (r: Vec<usize>)
        ensures
            r@ == owned_ids(self@, user),
    {
        let mut r: Vec<usize> = Vec::new();
        let mut i: usize = 0;
        while i < self.projects.len()
            invariant
                0 <= i <= self@.len(),
                r@ == owned_ids(self@.subrange(0, i as int), user),
            decreases self@.len() - i,
        {
            proof {
                assert(self@.subrange(0, i + 1).drop_last() =~= self@.subrange(0, i as int));
                assert(self@.subrange(0, i + 1).last() == self@[i as int]);
            }
            if self.projects[i].owner == user {
                r.push(i);
            }
            i = i + 1;
        }
        proof {
            assert(self@.subrange(0, self@.len() as int) =~= self@);
        }
        r
    }

    /// For each campaign where `user` pledged a positive total, the id and
    /// that total.
    pub fn get_user_contributions(&self, user: Identity) -> (r: Vec<(usize, u64)>)
        requires
            self.wf(),
        ensures
            r@ == contribution_entries(self@, user),
    {
        let mut r: Vec<(usize, u64)> = Vec::new();
        let mut i: usize = 0;
        while i < self.projects.len()
            invariant
                0 <= i <= self@.len(),
                self.wf(),
                r@ == contribution_entries(self@.subrange(0, i as int), user),
            decreases self@.len() - i,
        {
            proof {
                assert(self@.subrange(0, i + 1).drop_last() =~= self@.subrange(0, i as int));
                assert(self@.subrange(0, i + 1).last() == self@[i as int]);
                assert(project_wf(self@[i as int]));
            }
            let total = contribution_total(&self.projects[i].contributors, user);
            if total > 0 {
                r.push((i, total));
            }
            i = i + 1;
        }
        proof {
            assert(self@.subrange(0, self@.len() as int) =~= self@);
        }
        r
    }

    /// Atomically overwrites the record stored under `id` with a computed
    /// new state; the overwrite keeps the store well formed whenever the
    /// new record is itself well formed and keeps its id.
    pub fn replace(&mut self, id: usize, project: Project)
        requires
            id < old(self)@.len(),
        ensures
            final(self)@ == old(self)@.update(id as int, project),
            old(self).wf() && project_wf(project) && project.id == id ==> final(self).wf(),
    {
        let _ = self.projects.remove(id);
        self.projects.insert(id, project);
        proof {
            assert(self@ =~= old(self)@.update(id as int, project));
            if old(self).wf() && project_wf(project) && project.id == id {
                assert forall|i: int|
                    0 <= i < self@.len() implies project_wf(#[trigger] self@[i]) && self@[i].id
                    == i by {
                    if i != id {
                        assert(self@[i] == old(self)@[i]);
                    }
                }
            }
        }
    }

    /// The periodic expiry sweep: flips every `Active` campaign whose
    /// deadline has passed to `Expired`, leaving campaigns with a
    /// settlement in flight to that settlement's commit step. No other
    /// field changes.
    pub fn update_project_statuses(&mut self, now: u64)
        requires
            old(self).wf(),
        ensures
            final(self).wf(),
            final(self)@.len() == old(self)@.len(),
            forall|i: int|
                0 <= i < final(self)@.len() ==> final(self)@[i] == swept(old(self)@[i], now),
            forall|i: int|
                0 <= i < final(self)@.len() ==> status_le(
                    old(self)@[i].status,
                    final(self)@[i].status,
                ),
    {
        let n = self.projects.len();
        let mut i: usize = 0;
        while i < n
            invariant
                0 <= i <= n,
                n == self@.len(),
                self@.len() == old(self)@.len(),
                forall|j: int| 0 <= j < i ==> self@[j] == swept(old(self)@[j], now),
                forall|j: int| i <= j < self@.len() ==> self@[j] == old(self)@[j],
            decreases n - i,
        {
            let expire = {
                let p = &self.projects[i];
                p.status == ProjectStatus::Active && now > p.deadline && !p.busy
            };
            if expire {
                self.projects[i].status = ProjectStatus::Expired;
            }
            i = i + 1;
        }
        proof {
            assert forall|i: int|
                0 <= i < self@.len() implies project_wf(#[trigger] self@[i]) && self@[i].id
                == i by {
                assert(self@[i] == swept(old(self)@[i], now));
                assert(project_wf(old(self)@[i]));
            }
        }
    }
}

/// Amount consistency law: every campaign that is `Active`, or `Funded`
/// with its funds not yet disbursed, records exactly the sum of its
/// pledges. (After a disbursement the recorded amount is zero while the
/// pledges stay on record.)
pub proof fn lemma_amount_consistency(store: ProjectStore, i: int)
    requires
        store.wf(),
        0 <= i < store@.len(),
        store@[i].status == ProjectStatus::Active || (store@[i].status == ProjectStatus::Funded
            && !store@[i].released),
    ensures
        store@[i].current_amount == sum_amounts(store@[i].contributors@),
{
    assert(project_wf(store@[i]));
}

} // verus!
