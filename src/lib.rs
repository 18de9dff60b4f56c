//! Delegation evidence: a signed statement that a policy issuer grants an
//! access subject permissions on resource types, with builders for grant and
//! removal requests and a fail-closed permission check.

pub mod model;
pub mod builder;
pub mod laws;
pub mod permission;

pub use model::{
    DelegationEvidence, DelegationEvidenceContainer, DelegationTarget, Environment, Policy,
    PolicySet, PolicySetTarget, PolicySetTargetEnvironment, Resource, ResourceRules,
    ResourceTarget,
};
pub use builder::{build_append_delegation_request, build_filter_delegation_request};
pub use permission::verify_delegation_evidence;
