//! The trigger dispatch engine.
//!
//! A semantic event, produced under a named trigger source, resolves to the
//! fully-qualified identifier `<source>.<device>.<button>`. Every mapping
//! bound to that identifier fires, in configuration order, one at a time;
//! the first failure aborts the remainder of the plan (fail fast).

use crate::config::Mapping;
use crate::triggers::Event;
use vstd::prelude::*;
use vstd::string::StringExecFns;

verus! {

/// The fully-qualified trigger identifier of an event under a source name.
pub fn qualified_trigger(source: &String, event: &Event) -> (r: String)
    ensures
        r@ == source@ + "."@ + event.device@ + "."@ + event.name@,
{
    let mut r = source.clone();
    r.append(".");
    r.append(event.device.as_str());
    r.append(".");
    r.append(event.name.as_str());
    r
}

/// The indices of the mappings bound to a trigger identifier, in
/// configuration order.
pub open spec fn spec_matching(mappings: Seq<Mapping>, trigger: Seq<char>) -> Seq<int>
    decreases mappings.len(),
{
    if mappings.len() == 0 {
        Seq::empty()
    } else {
        let rest = spec_matching(mappings.drop_last(), trigger);
        if mappings.last().trigger@ == trigger {
            rest.push(mappings.len() - 1)
        } else {
            rest
        }
    }
}

/// Collects the plan for a trigger identifier: the indices of its
/// mappings, in configuration order.
#[verifier::loop_isolation(false)]
pub fn plan_for(mappings: &Vec<Mapping>, trigger: &String) -> (plan: Vec<usize>)
    ensures
        plan@.map_values(|u: usize| u as int) == spec_matching(mappings@, trigger@),
{
    let n = mappings.len();
    let mut plan: Vec<usize> = Vec::new();
    let mut i: usize = 0;
    proof {
        assert(mappings@.subrange(0, 0) =~= Seq::<Mapping>::empty());
        assert(plan@.map_values(|u: usize| u as int) =~= Seq::<int>::empty());
    }
    while i < n
        invariant
            i <= n,
            plan@.map_values(|u: usize| u as int) == spec_matching(
                mappings@.subrange(0, i as int),
                trigger@,
            ),
        decreases n - i,
    {
        proof {
            let pre = mappings@.subrange(0, i as int + 1);
            assert(pre.drop_last() =~= mappings@.subrange(0, i as int));
            assert(pre.last() == mappings@[i as int]);
        }
        if mappings[i].trigger == *trigger {
            plan.push(i);
            proof {
                assert(plan@.map_values(|u: usize| u as int) =~= spec_matching(
                    mappings@.subrange(0, i as int),
                    trigger@,
                ).push(i as int));
            }
        }
        i = i + 1;
    }
    proof {
        assert(mappings@.subrange(0, n as int) =~= mappings@);
    }
    plan
}

/// Law: the plan is sound — every listed index is a mapping bound to the
/// trigger, and the listing is strictly increasing (configuration order).
pub proof fn lemma_matching_sound(mappings: Seq<Mapping>, trigger: Seq<char>)
    ensures
        forall|k: int|
            0 <= k < spec_matching(mappings, trigger).len() ==> 0 <= #[trigger] spec_matching(
                mappings,
                trigger,
            )[k] < mappings.len() && mappings[spec_matching(mappings, trigger)[k]].trigger@
                == trigger,
        forall|k: int, l: int|
            0 <= k < l < spec_matching(mappings, trigger).len() ==> spec_matching(
                mappings,
                trigger,
            )[k] < spec_matching(mappings, trigger)[l],
    decreases mappings.len(),
{
    if mappings.len() > 0 {
        lemma_matching_sound(mappings.drop_last(), trigger);
        assert forall|k: int|
            0 <= k < spec_matching(mappings.drop_last(), trigger).len() implies mappings[
            spec_matching(mappings.drop_last(), trigger)[k]] == mappings.drop_last()[
            spec_matching(mappings.drop_last(), trigger)[k]] by {}
    }
}

/// Law: the plan is complete — every mapping bound to the trigger appears
/// in it.
pub proof fn lemma_matching_complete(mappings: Seq<Mapping>, trigger: Seq<char>, idx: int)
    requires
        0 <= idx < mappings.len(),
        mappings[idx].trigger@ == trigger,
    ensures
        spec_matching(mappings, trigger).contains(idx),
    decreases mappings.len(),
{
    if idx + 1 == mappings.len() {
        assert(spec_matching(mappings, trigger).last() == idx);
    } else {
        lemma_matching_complete(mappings.drop_last(), trigger, idx);
        let sub = spec_matching(mappings.drop_last(), trigger);
        let j = choose|j: int| 0 <= j < sub.len() && sub[j] == idx;
        assert(spec_matching(mappings, trigger)[j] == idx);
    }
}

/// The indices that actually run, given the plan and what each started
/// action would report: every action up to and including the first failure,
/// and no further.
pub open spec fn executed_prefix(plan: Seq<int>, ok: Seq<bool>) -> Seq<int>
    decreases plan.len(),
{
    if plan.len() == 0 || ok.len() == 0 {
        Seq::empty()
    } else if ok[0] {
        seq![plan[0]] + executed_prefix(
            plan.subrange(1, plan.len() as int),
            ok.subrange(1, ok.len() as int),
        )
    } else {
        seq![plan[0]]
    }
}

/// Law: if the k-th action of the plan (1-indexed) fails after all before
/// it succeeded, exactly the first k actions run — none after the failure.
pub proof fn lemma_fail_fast(plan: Seq<int>, ok: Seq<bool>, k: int)
    requires
        1 <= k <= plan.len(),
        k <= ok.len(),
        forall|j: int| 0 <= j < k - 1 ==> ok[j],
        !ok[k - 1],
    ensures
        executed_prefix(plan, ok) == plan.subrange(0, k),
    decreases k,
{
    if k == 1 {
        assert(executed_prefix(plan, ok) =~= plan.subrange(0, 1));
    } else {
        let plan1 = plan.subrange(1, plan.len() as int);
        let ok1 = ok.subrange(1, ok.len() as int);
        lemma_fail_fast(plan1, ok1, k - 1);
        assert(executed_prefix(plan, ok) =~= plan.subrange(0, k));
    }
}

/// Law: when every started action succeeds, the whole plan runs, in order.
pub proof fn lemma_all_ok_runs_plan(plan: Seq<int>, ok: Seq<bool>)
    requires
        ok.len() >= plan.len(),
        forall|j: int| 0 <= j < plan.len() ==> ok[j],
    ensures
        executed_prefix(plan, ok) == plan,
    decreases plan.len(),
{
    if plan.len() > 0 {
        let plan1 = plan.subrange(1, plan.len() as int);
        let ok1 = ok.subrange(1, ok.len() as int);
        lemma_all_ok_runs_plan(plan1, ok1);
        assert(executed_prefix(plan, ok) =~= plan);
    }
}

/// The dispatcher of one event: walks the plan in order and aborts the
/// remainder as soon as one action fails.
#[derive(Debug)]
pub struct Dispatcher {
    pub plan: Vec<usize>,
    pub pos: usize,
    pub failed: bool,
}

impl Dispatcher {
    /// The dispatcher for one resolved trigger identifier: its plan lists
    /// exactly the mappings bound to the identifier, in configuration
    /// order.
    pub fn new(mappings: &Vec<Mapping>, trigger: &String) -> (r: Dispatcher)
        ensures
            r.plan@.map_values(|u: usize| u as int) == spec_matching(mappings@, trigger@),
            r.pos == 0,
            !r.failed,
    {
        Dispatcher { plan: plan_for(mappings, trigger), pos: 0, failed: false }
    }

    /// The next mapping index to run: nothing once the plan is exhausted
    /// or an action has failed.
    pub fn next_action(&self) -> (r: Option<usize>)
        ensures
            r == if self.failed || self.pos >= self.plan@.len() {
                None::<usize>
            } else {
                Some(self.plan@[self.pos as int])
            },
    {
        if self.failed || self.pos >= self.plan.len() {
            None
        } else {
            Some(self.plan[self.pos])
        }
    }

    /// Records the outcome of the action just run; a failure aborts the
    /// remainder of the plan.
    pub fn advance(&mut self, ok: bool)
        requires
            !old(self).failed,
            old(self).pos < old(self).plan@.len(),
        ensures
            final(self).plan == old(self).plan,
            final(self).pos == old(self).pos + 1,
            final(self).failed == !ok,
    {
        // the exec length bounds pos by usize, so the increment cannot overflow
        let _n: usize = self.plan.len();
        self.pos = self.pos + 1;
        if !ok {
            self.failed = true;
        }
    }
}

} // verus!
