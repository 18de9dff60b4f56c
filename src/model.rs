//! The data model of delegation evidence and the spec functions that the
//! contracts are stated over.

use vstd::prelude::*;

verus! {

/// A complete grant statement, valid from `not_before` (inclusive) to
/// `not_on_or_after` (exclusive), both in epoch seconds.
#[derive(Debug, Clone, PartialEq, Eq)]
pub struct DelegationEvidence {
    pub not_before: i64,
    pub not_on_or_after: i64,
    pub policy_issuer: String,
    pub target: DelegationTarget,
    pub policy_sets: Vec<PolicySet>,
}

/// The party that receives the grant.
#[derive(Debug, Clone, PartialEq, Eq)]
pub struct DelegationTarget {
    pub access_subject: String,
}

/// Policies bundled under one delegation-depth limit and license scope.
#[derive(Debug, Clone, PartialEq, Eq)]
pub struct PolicySet {
    pub max_delegation_depth: i32,
    pub target: PolicySetTarget,
    pub policies: Vec<Policy>,
}

#[derive(Debug, Clone, PartialEq, Eq)]
pub struct PolicySetTarget {
    pub environment: PolicySetTargetEnvironment,
}

/// The license scheme that a policy set is scoped to.
#[derive(Debug, Clone, PartialEq, Eq)]
pub struct PolicySetTargetEnvironment {
    pub licenses: Vec<String>,
}

/// One grant clause: what is granted and with which effect.
#[derive(Debug, Clone, PartialEq, Eq)]
pub struct Policy {
    pub target: ResourceTarget,
    pub rules: Vec<ResourceRules>,
}

/// The object and the verbs of a grant, optionally scoped to service providers.
#[derive(Debug, Clone, PartialEq, Eq)]
pub struct ResourceTarget {
    pub resource: Resource,
    pub actions: Vec<String>,
    pub environment: Option<Environment>,
}

/// The resource class granted; `"*"` in `identifiers` or `attributes` stands
/// for all of them.
#[derive(Debug, Clone, PartialEq, Eq)]
pub struct Resource {
    pub resource_type: String,
    pub identifiers: Vec<String>,
    pub attributes: Vec<String>,
}

/// The effect of a policy: only the exact text `"Permit"` grants.
#[derive(Debug, Clone, PartialEq, Eq)]
pub struct ResourceRules {
    pub effect: String,
}

/// The service providers that a policy is scoped to, in order.
#[derive(Debug, Clone, PartialEq, Eq)]
pub struct Environment {
    pub service_providers: Vec<String>,
}

/// The envelope in which evidence travels.
#[derive(Debug, Clone, PartialEq, Eq)]
pub struct DelegationEvidenceContainer {
    pub delegation_evidence: DelegationEvidence,
}

/// The text of each string of a sequence, in order.
pub open spec fn texts(v: Seq<String>) -> Seq<Seq<char>> {
    v.map_values(|s: String| s@)
}

/// The one effect that grants access.
pub open spec fn permit_text() -> Seq<char> {
    "Permit"@
}

/// The wildcard that stands for every identifier or attribute.
pub open spec fn wildcard_text() -> Seq<char> {
    "*"@
}

/// The license scheme that every built policy set is scoped to.
pub open spec fn license_text() -> Seq<char> {
    "ISHARE.0001"@
}

/// The resource type that a policy grants access to.
pub open spec fn type_of(p: Policy) -> Seq<char> {
    p.target.resource.resource_type@
}

/// A policy grants when it has a rule and its first rule's effect is exactly
/// `"Permit"`; later rules are never consulted.
pub open spec fn first_rule_permits(p: Policy) -> bool {
    p.rules@.len() > 0 && p.rules@[0].effect@ == permit_text()
}

/// `i` is the position of the first policy of `ps` whose resource type is `rt`.
pub open spec fn is_first_of_type(ps: Seq<Policy>, rt: Seq<char>, i: int) -> bool {
    &&& 0 <= i < ps.len()
    &&& type_of(ps[i]) == rt
    &&& forall|j: int| 0 <= j < i ==> type_of(#[trigger] ps[j]) != rt
}

/// The policies of the first policy set, or none when there is no set.
pub open spec fn active_policies(e: DelegationEvidence) -> Seq<Policy> {
    if e.policy_sets@.len() > 0 {
        e.policy_sets@[0].policies@
    } else {
        Seq::empty()
    }
}

/// Evidence grants access to resource type `rt` exactly when, in its first
/// policy set, the first policy of that type has a first rule that permits.
pub open spec fn grants(e: DelegationEvidence, rt: Seq<char>) -> bool {
    exists|i: int|
        is_first_of_type(active_policies(e), rt, i) && first_rule_permits(
            #[trigger] active_policies(e)[i],
        )
}

/// The given texts, or the wildcard alone when none are given.
pub open spec fn texts_or_wildcard(v: Option<Vec<String>>) -> Seq<Seq<char>> {
    match v {
        Some(v) => texts(v@),
        None => seq![wildcard_text()],
    }
}

/// `c` is evidence from `policy_issuer` to `access_subject`, valid from
/// `not_before` to `not_on_or_after`, with exactly one policy set: depth 1,
/// scoped to the license scheme alone, holding `policies`.
pub open spec fn is_built_evidence(
    c: DelegationEvidenceContainer,
    not_before: i64,
    not_on_or_after: i64,
    policy_issuer: Seq<char>,
    access_subject: Seq<char>,
    policies: Seq<Policy>,
) -> bool {
    let e = c.delegation_evidence;
    &&& e.not_before == not_before
    &&& e.not_on_or_after == not_on_or_after
    &&& e.policy_issuer@ == policy_issuer
    &&& e.target.access_subject@ == access_subject
    &&& e.policy_sets@.len() == 1
    &&& e.policy_sets@[0].max_delegation_depth == 1
    &&& texts(e.policy_sets@[0].target.environment.licenses@) == seq![license_text()]
    &&& e.policy_sets@[0].policies@ == policies
}

/// `p` permits `actions` on the resources of type `resource_type` with the
/// given identifiers and attributes, scoped to the one service provider
/// `service_provider`, by a single rule.
pub open spec fn is_granting_policy(
    p: Policy,
    resource_type: Seq<char>,
    service_provider: Seq<char>,
    actions: Seq<Seq<char>>,
    identifiers: Seq<Seq<char>>,
    attributes: Seq<Seq<char>>,
) -> bool {
    &&& p.rules@.len() == 1
    &&& p.rules@[0].effect@ == permit_text()
    &&& type_of(p) == resource_type
    &&& texts(p.target.actions@) == actions
    &&& texts(p.target.resource.identifiers@) == identifiers
    &&& texts(p.target.resource.attributes@) == attributes
    &&& p.target.environment matches Some(env)
    &&& texts(env.service_providers@) == seq![service_provider]
}

/// `p` is removed by a request for exactly this resource type, identifiers,
/// actions and attributes (each compared as an ordered sequence) and for a
/// service-provider scope of exactly `service_providers`. A policy without
/// an environment is never removed.
pub open spec fn is_removal_match(
    p: Policy,
    resource_type: Seq<char>,
    service_providers: Seq<Seq<char>>,
    actions: Seq<Seq<char>>,
    identifiers: Seq<Seq<char>>,
    attributes: Seq<Seq<char>>,
) -> bool {
    &&& type_of(p) == resource_type
    &&& texts(p.target.resource.identifiers@) == identifiers
    &&& texts(p.target.actions@) == actions
    &&& texts(p.target.resource.attributes@) == attributes
    &&& p.target.environment matches Some(env)
    &&& texts(env.service_providers@) == service_providers
}

/// The policies of `ps`, in order, that a removal request for
/// `service_provider` and the rest does not match.
pub open spec fn remaining_policies(
    ps: Seq<Policy>,
    resource_type: Seq<char>,
    service_provider: Seq<char>,
    actions: Seq<Seq<char>>,
    identifiers: Seq<Seq<char>>,
    attributes: Seq<Seq<char>>,
) -> Seq<Policy> {
    ps.filter(
        |p: Policy|
            !is_removal_match(
                p,
                resource_type,
                seq![service_provider],
                actions,
                identifiers,
                attributes,
            ),
    )
}

} // verus!
