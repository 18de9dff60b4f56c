//! Builders of the evidence sent with a grant request and with a removal
//! request.

use vstd::prelude::*;
use crate::model::{
    is_built_evidence, is_granting_policy, is_removal_match, remaining_policies, texts,
    texts_or_wildcard, DelegationEvidence, DelegationEvidenceContainer, DelegationTarget,
    Environment, Policy, PolicySet, PolicySetTarget, PolicySetTargetEnvironment, Resource,
    ResourceRules, ResourceTarget,
};

verus! {

/// Wraps `policies` in evidence with one policy set of depth 1, scoped to
/// the license scheme alone.
fn build_evidence(
    not_before: i64,
    not_on_or_after: i64,
    policy_issuer: String,
    access_subject: String,
    policies: Vec<Policy>,
) -> (r: DelegationEvidenceContainer)
    ensures
        is_built_evidence(
            r,
            not_before,
            not_on_or_after,
            policy_issuer@,
            access_subject@,
            policies@,
        ),
{
    let licenses = vec!["ISHARE.0001".to_owned()];
    assert(texts(licenses@) =~= seq!["ISHARE.0001"@]);
    let delegation_evidence = DelegationEvidence {
        not_before,
        not_on_or_after,
        policy_issuer,
        target: DelegationTarget { access_subject },
        policy_sets: vec![
            PolicySet {
                max_delegation_depth: 1,
                target: PolicySetTarget { environment: PolicySetTargetEnvironment { licenses } },
                policies,
            },
        ],
    };
    DelegationEvidenceContainer { delegation_evidence }
}

/// The given values, or the wildcard `"*"` alone when none are given.
fn or_wildcard(v: Option<Vec<String>>) -> (r: Vec<String>)
    ensures
        texts(r@) == texts_or_wildcard(v),
{
    match v {
        Some(v) => v,
        None => {
            let r = vec!["*".to_owned()];
            assert(texts(r@) =~= seq!["*"@]);
            r
        },
    }
}

/// Evidence for a grant request: one policy that permits `actions` on
/// resources of `resource_type`, scoped to `service_provider`. Missing
/// identifiers or attributes default to the wildcard `"*"`. Nothing is
/// validated: the builder only assembles its inputs.
pub fn build_append_delegation_request(
    not_before: i64,
    not_on_or_after: i64,
    policy_issuer: String,
    access_subject: String,
    resource_type: String,
    service_provider: String,
    actions: Vec<String>,
    identifiers: Option<Vec<String>>,
    attributes: Option<Vec<String>>,
) -> (r: DelegationEvidenceContainer)
    ensures
        is_built_evidence(
            r,
            not_before,
            not_on_or_after,
            policy_issuer@,
            access_subject@,
            r.delegation_evidence.policy_sets@[0].policies@,
        ),
        r.delegation_evidence.policy_sets@[0].policies@.len() == 1,
        is_granting_policy(
            r.delegation_evidence.policy_sets@[0].policies@[0],
            resource_type@,
            service_provider@,
            texts(actions@),
            texts_or_wildcard(identifiers),
            texts_or_wildcard(attributes),
        ),
{
    let ghost sp = service_provider@;
    let service_providers = vec![service_provider];
    assert(texts(service_providers@) =~= seq![sp]);
    let new_policy = Policy {
        rules: vec![ResourceRules { effect: "Permit".to_owned() }],
        target: ResourceTarget {
            actions,
            resource: Resource {
                resource_type,
                identifiers: or_wildcard(identifiers),
                attributes: or_wildcard(attributes),
            },
            environment: Some(Environment { service_providers }),
        },
    };
    build_evidence(not_before, not_on_or_after, policy_issuer, access_subject, vec![new_policy])
}

/// Whether `a` and `b` hold the same texts in the same order.
fn same_texts(a: &Vec<String>, b: &Vec<String>) -> (r: bool)
    ensures
        r == (texts(a@) == texts(b@)),
{
    if a.len() != b.len() {
        assert(texts(a@).len() != texts(b@).len());
        return false;
    }
    let mut i: usize = 0;
    while i < a.len()
        invariant
            a.len() == b.len(),
            0 <= i <= a.len(),
            forall|j: int| 0 <= j < i ==> texts(a@)[j] == texts(b@)[j],
        decreases a.len() - i,
    {
        if a[i] != b[i] {
            assert(texts(a@)[i as int] != texts(b@)[i as int]);
            return false;
        }
        i += 1;
    }
    assert(texts(a@) =~= texts(b@));
    true
}

/// Whether a removal request matches `p`.
fn is_removed(
    p: &Policy,
    resource_type: &String,
    service_providers: &Vec<String>,
    actions: &Vec<String>,
    identifiers: &Vec<String>,
    attributes: &Vec<String>,
) -> (r: bool)
    ensures
        r == is_removal_match(
            *p,
            resource_type@,
            texts(service_providers@),
            texts(actions@),
            texts(identifiers@),
            texts(attributes@),
        ),
{
    let target = &p.target;
    if target.resource.resource_type != *resource_type {
        return false;
    }
    if !same_texts(&target.resource.identifiers, identifiers) {
        return false;
    }
    if !same_texts(&target.actions, actions) {
        return false;
    }
    if !same_texts(&target.resource.attributes, attributes) {
        return false;
    }
    match &target.environment {
        Some(env) => same_texts(&env.service_providers, service_providers),
        None => false,
    }
}

/// Evidence for a removal request: `policies` without every policy that
/// matches the request exactly (see `is_removal_match`), in their order.
/// Removing none or all of them are both ordinary outcomes.
pub fn build_filter_delegation_request(
    not_before: i64,
    not_on_or_after: i64,
    policy_issuer: String,
    access_subject: String,
    resource_type: String,
    service_provider: String,
    actions: Vec<String>,
    identifiers: Vec<String>,
    attributes: Vec<String>,
    policies: Vec<Policy>,
) -> (r: DelegationEvidenceContainer)
    ensures
        is_built_evidence(
            r,
            not_before,
            not_on_or_after,
            policy_issuer@,
            access_subject@,
            remaining_policies(
                policies@,
                resource_type@,
                service_provider@,
                texts(actions@),
                texts(identifiers@),
                texts(attributes@),
            ),
        ),
{
    let ghost sp = service_provider@;
    let ghost keep = |p: Policy|
        !is_removal_match(
            p,
            resource_type@,
            seq![sp],
            texts(actions@),
            texts(identifiers@),
            texts(attributes@),
        );
    let ghost all = policies@;
    let service_providers = vec![service_provider];
    assert(texts(service_providers@) =~= seq![sp]);
    let mut kept: Vec<Policy> = Vec::new();
    for p in it: policies.into_iter()
        invariant
            it.seq() == all,
            texts(service_providers@) == seq![sp],
            kept@ == all.take(it.index()).filter(keep),
            keep == (|p: Policy|
                !is_removal_match(
                    p,
                    resource_type@,
                    seq![sp],
                    texts(actions@),
                    texts(identifiers@),
                    texts(attributes@),
                )),
    {
        let ghost i = it.index();
        proof {
            assert(all.take(i + 1) =~= all.take(i).push(p));
            all.take(i).lemma_filter_push(p, keep);
        }
        if !is_removed(&p, &resource_type, &service_providers, &actions, &identifiers, &attributes) {
            kept.push(p);
        }
    }
    assert(all.take(all.len() as int) =~= all);
    build_evidence(not_before, not_on_or_after, policy_issuer, access_subject, kept)
}

} // verus!
