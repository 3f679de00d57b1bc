//! Deciding which paths of a duplicate group to replace by links.
//!
//! The resolver never touches the filesystem: it turns duplicate groups and
//! the run's policy into a plan of (source, target) replacements, which the
//! caller carries out through the replacement protocol one pair at a time.

use vstd::prelude::*;
use crate::index::DuplicateGroup;
use crate::policy::LinkPolicy;

verus! {

/// One planned replacement: `target` is to become a link to `source`.
pub struct PlannedLink {
    pub source: String,
    pub target: String,
}

/// The (source, target) pair a planned link stands for.
pub open spec fn pair_of(p: PlannedLink) -> (Seq<char>, Seq<char>) {
    (p.source@, p.target@)
}

/// The replacements owed for one group: none unless the policy is
/// destructive and the group has at least two members; otherwise one pair
/// per redundant path, the first-seen path as source throughout, in group
/// order.
pub open spec fn group_pairs(g: DuplicateGroup, policy: LinkPolicy) -> Seq<(Seq<char>, Seq<char>)> {
    if policy.destructive && g.paths@.len() >= 2 {
        Seq::new((g.paths@.len() - 1) as nat, |i: int| (g.paths@[0]@, g.paths@[i + 1]@))
    } else {
        Seq::empty()
    }
}

/// The replacements owed for a whole run: each group's, in group order.
pub open spec fn run_pairs(
    groups: Seq<DuplicateGroup>,
    policy: LinkPolicy,
) -> Seq<(Seq<char>, Seq<char>)>
    decreases groups.len(),
{
    if groups.len() == 0 {
        Seq::empty()
    } else {
        group_pairs(groups[0], policy) + run_pairs(groups.drop_first(), policy)
    }
}

/// Decide the replacements for one duplicate group.
///
/// A group with fewer than two members is no duplicate, and a
/// non-destructive (dry-run) policy forbids every mutation: both give an
/// empty plan.  Otherwise the first-seen path is the canonical source and
/// every later path is planned to become a link to it, in group order.
/// The canonical source is a pure function of discovery order: the
/// resolver never reorders, re-ranks, or re-selects it.
pub fn resolve(group: &DuplicateGroup, policy: &LinkPolicy) -> (r: Vec<PlannedLink>)
    ensures
        r@.map_values(|p: PlannedLink| pair_of(p)) == group_pairs(*group, *policy),
        !(policy.destructive && group.paths@.len() >= 2) ==> r@.len() == 0,
        policy.destructive && group.paths@.len() >= 2 ==> {
            &&& r@.len() == group.paths@.len() - 1
            &&& forall|i: int|
                0 <= i < r@.len() ==> {
                    &&& (#[trigger] r@[i]).source@ == group.paths@[0]@
                    &&& r@[i].target@ == group.paths@[i + 1]@
                }
        },
{
    let mut plan: Vec<PlannedLink> = Vec::new();
    if group.paths.len() < 2 || !policy.destructive {
        proof {
            assert(plan@.map_values(|p: PlannedLink| pair_of(p)) =~= group_pairs(*group, *policy));
        }
        return plan;
    }
    let mut i: usize = 1;
    while i < group.paths.len()
        invariant
            1 <= i <= group.paths@.len(),
            2 <= group.paths@.len(),
            policy.destructive,
            plan@.len() == i - 1,
            forall|j: int|
                0 <= j < plan@.len() ==> {
                    &&& (#[trigger] plan@[j]).source@ == group.paths@[0]@
                    &&& plan@[j].target@ == group.paths@[j + 1]@
                },
        decreases group.paths@.len() - i,
    {
        let source = group.paths[0].clone();
        let target = group.paths[i].clone();
        plan.push(PlannedLink { source, target });
        i = i + 1;
    }
    proof {
        assert(plan@.map_values(|p: PlannedLink| pair_of(p)) =~= group_pairs(*group, *policy));
    }
    plan
}

/// Decide the replacements for a whole run of groups, group by group.
///
/// Singleton groups and non-duplicates contribute nothing; a dry-run
/// policy gives an empty plan whatever the groups hold.
pub fn plan_all(groups: &Vec<DuplicateGroup>, policy: &LinkPolicy) -> (r: Vec<PlannedLink>)
    ensures
        r@.map_values(|p: PlannedLink| pair_of(p)) == run_pairs(groups@, *policy),
        !policy.destructive ==> r@.len() == 0,
{
    let mut all: Vec<PlannedLink> = Vec::new();
    let mut g: usize = 0;
    proof {
        assert(groups@.skip(0) =~= groups@);
        assert(all@.map_values(|p: PlannedLink| pair_of(p)) =~= Seq::<(Seq<char>, Seq<char>)>::empty());
        assert(all@.map_values(|p: PlannedLink| pair_of(p)) + run_pairs(groups@, *policy) =~= run_pairs(groups@, *policy));
    }
    while g < groups.len()
        invariant
            0 <= g <= groups@.len(),
            all@.map_values(|p: PlannedLink| pair_of(p)) + run_pairs(groups@.skip(g as int), *policy) == run_pairs(
                groups@,
                *policy,
            ),
            !policy.destructive ==> all@.len() == 0,
        decreases groups@.len() - g,
    {
        let mut plan = resolve(&groups[g], policy);
        proof {
            let rest = groups@.skip(g as int);
            let a = all@.map_values(|p: PlannedLink| pair_of(p));
            let b = plan@.map_values(|p: PlannedLink| pair_of(p));
            let c = run_pairs(groups@.skip(g as int + 1), *policy);
            assert(rest[0] == groups@[g as int]);
            assert(rest.drop_first() =~= groups@.skip(g as int + 1));
            assert(run_pairs(rest, *policy) == group_pairs(rest[0], *policy) + run_pairs(
                rest.drop_first(),
                *policy,
            ));
            assert(b == group_pairs(groups@[g as int], *policy));
            assert((all@ + plan@).map_values(|p: PlannedLink| pair_of(p)) =~= a + b);
            assert(a + (b + c) =~= (a + b) + c);
        }
        all.append(&mut plan);
        g = g + 1;
    }
    proof {
        assert(groups@.skip(groups@.len() as int) =~= Seq::<DuplicateGroup>::empty());
        assert(all@.map_values(|p: PlannedLink| pair_of(p)) + Seq::<(Seq<char>, Seq<char>)>::empty() =~= all@.map_values(|p: PlannedLink| pair_of(p)));
    }
    all
}

} // verus!
