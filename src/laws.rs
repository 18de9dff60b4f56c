//! Properties that relate the library's operations, stated over the spec
//! functions of the model and proved.

use vstd::prelude::*;
use crate::model::{
    active_policies, first_rule_permits, grants, is_first_of_type, is_removal_match,
    remaining_policies, type_of, DelegationEvidence, Policy,
};

verus! {

/// Evidence without any policy set grants nothing.
pub proof fn lemma_no_policy_sets_grant_nothing(e: DelegationEvidence, rt: Seq<char>)
    requires
        e.policy_sets@.len() == 0,
    ensures
        !grants(e, rt),
{
}

/// Evidence whose first policy set holds no policy grants nothing.
pub proof fn lemma_empty_first_set_grants_nothing(e: DelegationEvidence, rt: Seq<char>)
    requires
        e.policy_sets@.len() > 0,
        e.policy_sets@[0].policies@.len() == 0,
    ensures
        !grants(e, rt),
{
}

/// Once the first policy of a resource type is found, the decision is its
/// first rule alone: later rules, and later policies of the same type, do
/// not change it.
pub proof fn lemma_first_rule_decides(e: DelegationEvidence, rt: Seq<char>, i: int)
    requires
        is_first_of_type(active_policies(e), rt, i),
    ensures
        grants(e, rt) == first_rule_permits(active_policies(e)[i]),
{
    let ps = active_policies(e);
    if grants(e, rt) {
        let k = choose|k: int| is_first_of_type(ps, rt, k) && first_rule_permits(#[trigger] ps[k]);
        if k < i {
            assert(type_of(ps[k]) != rt);
        } else if i < k {
            assert(type_of(ps[i]) != rt);
        }
    }
}

/// A removal request never removes a policy that has no environment.
pub proof fn lemma_unscoped_policy_remains(
    ps: Seq<Policy>,
    resource_type: Seq<char>,
    service_provider: Seq<char>,
    actions: Seq<Seq<char>>,
    identifiers: Seq<Seq<char>>,
    attributes: Seq<Seq<char>>,
    i: int,
)
    requires
        0 <= i < ps.len(),
        ps[i].target.environment is None,
    ensures
        remaining_policies(ps, resource_type, service_provider, actions, identifiers, attributes)
            .contains(ps[i]),
{
    let keep = |p: Policy|
        !is_removal_match(
            p,
            resource_type,
            seq![service_provider],
            actions,
            identifiers,
            attributes,
        );
    ps.lemma_filter_contains(keep, i);
}

/// A removal request that matches none of the policies leaves all of them,
/// in their order.
pub proof fn lemma_unmatched_removal_keeps_all(
    ps: Seq<Policy>,
    resource_type: Seq<char>,
    service_provider: Seq<char>,
    actions: Seq<Seq<char>>,
    identifiers: Seq<Seq<char>>,
    attributes: Seq<Seq<char>>,
)
    requires
        forall|i: int|
            0 <= i < ps.len() ==> !is_removal_match(
                #[trigger] ps[i],
                resource_type,
                seq![service_provider],
                actions,
                identifiers,
                attributes,
            ),
    ensures
        remaining_policies(ps, resource_type, service_provider, actions, identifiers, attributes)
            == ps,
    decreases ps.len(),
{
    if ps.len() > 0 {
        let init = ps.drop_last();
        lemma_unmatched_removal_keeps_all(
            init,
            resource_type,
            service_provider,
            actions,
            identifiers,
            attributes,
        );
        let keep = |p: Policy|
            !is_removal_match(
                p,
                resource_type,
                seq![service_provider],
                actions,
                identifiers,
                attributes,
            );
        init.lemma_filter_push(ps.last(), keep);
        assert(init.push(ps.last()) =~= ps);
    }
}

} // verus!
