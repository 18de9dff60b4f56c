//! The fail-closed permission check.

use vstd::prelude::*;
use crate::laws::lemma_first_rule_decides;
use crate::model::{active_policies, grants, type_of, DelegationEvidence};

verus! {

/// Whether `delegation_evidence` grants access to `resource_type`.
///
/// Only the first policy set is read, and in it only the first policy whose
/// resource type matches exactly; of that policy only the first rule counts.
/// Every missing piece yields `false`.
pub fn verify_delegation_evidence(
    delegation_evidence: &DelegationEvidence,
    resource_type: String,
) -> (r: bool)
    ensures
        r == grants(*delegation_evidence, resource_type@),
        delegation_evidence.policy_sets@.len() == 0 ==> !r,
        active_policies(*delegation_evidence).len() == 0 ==> !r,
{
    let policy_sets = &delegation_evidence.policy_sets;
    if policy_sets.len() == 0 {
        return false;
    }
    let policies = &policy_sets[0].policies;
    let ghost ps = active_policies(*delegation_evidence);
    let mut i: usize = 0;
    while i < policies.len()
        invariant
            ps == policies@,
            ps == active_policies(*delegation_evidence),
            0 <= i <= policies.len(),
            forall|j: int| 0 <= j < i ==> type_of(#[trigger] ps[j]) != resource_type@,
        decreases policies.len() - i,
    {
        let policy = &policies[i];
        if policy.target.resource.resource_type == resource_type {
            proof {
                lemma_first_rule_decides(*delegation_evidence, resource_type@, i as int);
            }
            let rules = &policy.rules;
            if rules.len() == 0 {
                return false;
            }
            let permit = "Permit".to_owned();
            return rules[0].effect == permit;
        }
        i += 1;
    }
    false
}

} // verus!
