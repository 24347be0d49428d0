use vstd::prelude::*;

use crate::identity::Identity;

verus! {

/// Lifecycle state of a campaign.
///
/// A campaign may move `Active` to `Funded` and `Active` to `Expired`,
/// and never returns to `Active` (see `crate::status::status_le`).
#[derive(Clone, Copy, PartialEq, Eq, Structural, Debug)]
pub enum ProjectStatus {
    Active,
    Funded,
    Expired,
}

/// One pledge toward a campaign.
#[derive(Clone, Copy, PartialEq, Eq, Structural, Debug)]
pub struct Contribution {
    pub contributor: Identity,
    pub amount: u64,
    pub timestamp: u64,
}

/// A funding campaign.
///
/// `id` equals the campaign's index in the store that owns it.
/// `busy` is the marker of an in-flight settlement operation: it is set
/// before the external ledger is called and cleared when the outcome is
/// committed, and every settlement operation on a busy campaign fails at
/// once. `released` records that the collected funds were disbursed to the
/// owner; the status itself stays `Funded`.
pub struct Project {
    pub id: usize,
    pub owner: Identity,
    pub title: String,
    pub description: String,
    pub funding_goal: u64,
    pub current_amount: u64,
    pub deadline: u64,
    pub contributors: Vec<Contribution>,
    pub status: ProjectStatus,
    pub created_at: u64,
    pub busy: bool,
    pub released: bool,
}

/// Sum of all pledge amounts.
pub open spec fn sum_amounts(s: Seq<Contribution>) -> int
    decreases s.len(),
{
    if s.len() == 0 {
        0
    } else {
        sum_amounts(s.drop_last()) + s.last().amount
    }
}

/// Sum of the pledge amounts made by `who`.
pub open spec fn sum_by(s: Seq<Contribution>, who: Identity) -> int
    decreases s.len(),
{
    if s.len() == 0 {
        0
    } else {
        sum_by(s.drop_last(), who) + if s.last().contributor == who {
            s.last().amount as int
        } else {
            0
        }
    }
}

/// The pledges that remain once every pledge by `who` is removed, in order.
pub open spec fn remove_by(s: Seq<Contribution>, who: Identity) -> Seq<Contribution>
    decreases s.len(),
{
    if s.len() == 0 {
        Seq::empty()
    } else if s.last().contributor == who {
        remove_by(s.drop_last(), who)
    } else {
        remove_by(s.drop_last(), who).push(s.last())
    }
}

/// Well-formedness of one campaign: positive goal, a deadline after
/// creation, positive identified pledges, and the recorded amount equal to
/// the sum of the pledges as long as the funds were not disbursed.
pub open spec fn project_wf(p: Project) -> bool {
    &&& p.funding_goal > 0
    &&& p.deadline > p.created_at
    &&& forall|j: int|
        0 <= j < p.contributors@.len() ==> (#[trigger] p.contributors@[j]).amount > 0
            && !p.contributors@[j].contributor.is_anonymous_spec()
    &&& sum_amounts(p.contributors@) <= u64::MAX
    &&& if p.released {
        p.status == ProjectStatus::Funded && p.current_amount == 0
    } else {
        p.current_amount == sum_amounts(p.contributors@)
    }
}

pub proof fn lemma_sum_by_le_sum(s: Seq<Contribution>, who: Identity)
    ensures
        0 <= sum_by(s, who) <= sum_amounts(s),
    decreases s.len(),
{
    if s.len() > 0 {
        lemma_sum_by_le_sum(s.drop_last(), who);
    }
}

/// The sum over a prefix never exceeds the sum over the whole sequence.
pub proof fn lemma_sum_prefix_le(s: Seq<Contribution>, i: int)
    requires
        0 <= i <= s.len(),
    ensures
        sum_amounts(s.subrange(0, i)) <= sum_amounts(s),
    decreases s.len(),
{
    if i == s.len() {
        assert(s.subrange(0, i) =~= s);
    } else {
        assert(s.subrange(0, i) =~= s.drop_last().subrange(0, i));
        lemma_sum_prefix_le(s.drop_last(), i);
    }
}

/// Removing the pledges of `who` takes away exactly their sum.
pub proof fn lemma_sum_remove_by(s: Seq<Contribution>, who: Identity)
    ensures
        sum_amounts(remove_by(s, who)) == sum_amounts(s) - sum_by(s, who),
        remove_by(s, who).len() <= s.len(),
    decreases s.len(),
{
    if s.len() > 0 {
        lemma_sum_remove_by(s.drop_last(), who);
        if s.last().contributor != who {
            let r = remove_by(s.drop_last(), who).push(s.last());
            assert(r.drop_last() =~= remove_by(s.drop_last(), who));
        }
    }
}

/// Removing pledges of one contributor leaves none by that contributor and
/// keeps every remaining pledge positive and identified.
pub proof fn lemma_remove_by_keeps_wf(s: Seq<Contribution>, who: Identity)
    requires
        forall|j: int|
            0 <= j < s.len() ==> (#[trigger] s[j]).amount > 0
                && !s[j].contributor.is_anonymous_spec(),
    ensures
        forall|j: int|
            0 <= j < remove_by(s, who).len() ==> (#[trigger] remove_by(s, who)[j]).amount > 0
                && !remove_by(s, who)[j].contributor.is_anonymous_spec()
                && remove_by(s, who)[j].contributor != who,
    decreases s.len(),
{
    if s.len() > 0 {
        assert(forall|j: int|
            0 <= j < s.drop_last().len() ==> (#[trigger] s.drop_last()[j]).amount > 0
                && !s.drop_last()[j].contributor.is_anonymous_spec());
        lemma_remove_by_keeps_wf(s.drop_last(), who);
        if s.last().contributor != who {
            let r = remove_by(s.drop_last(), who);
            assert(remove_by(s, who) == r.push(s.last()));
            assert(forall|j: int| 0 <= j < r.len() ==> r.push(s.last())[j] == #[trigger] r[j]);
            assert(r.push(s.last())[r.len() as int] == s.last());
        }
    }
}

/// Computes the sum of the pledges of `user`, `sum_by` in executable form.
pub fn contribution_total(contributors: &Vec<Contribution>, user: Identity) -> (t: u64)
    requires
        sum_amounts(contributors@) <= u64::MAX,
    ensures
        t == sum_by(contributors@, user),
{
    let s = Ghost(contributors@);
    let mut t: u64 = 0;
    let mut i: usize = 0;
    while i < contributors.len()
        invariant
            0 <= i <= s@.len(),
            s@ == contributors@,
            sum_amounts(s@) <= u64::MAX,
            t == sum_by(s@.subrange(0, i as int), user),
        decreases s@.len() - i,
    {
        proof {
            assert(s@.subrange(0, i + 1).drop_last() =~= s@.subrange(0, i as int));
            assert(s@.subrange(0, i + 1).last() == s@[i as int]);
            lemma_sum_by_le_sum(s@.subrange(0, i + 1), user);
            lemma_sum_prefix_le(s@, i + 1);
        }
        if contributors[i].contributor == user {
            t = t + contributors[i].amount;
        }
        i = i + 1;
    }
    proof {
        assert(s@.subrange(0, s@.len() as int) =~= s@);
    }
    t
}

} // verus!
