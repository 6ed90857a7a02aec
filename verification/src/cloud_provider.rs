//! Clusters, environments and deployment targets.

use vstd::prelude::*;

pub mod aws;
pub mod domain_laws;
pub mod domains;
pub mod service;
pub mod utilities;
pub mod version_laws;

verus! {

/// A Kubernetes cluster, with the credentials of the account it runs in.
#[derive(Debug, PartialEq, Eq)]
pub struct Kubernetes {
    pub id: String,
    pub name: String,
    pub region: String,
    pub access_key_id: String,
    pub secret_access_key: String,
}

impl Kubernetes {
    pub fn id(&self) -> (id: &str)
        ensures
            id@ == self.id@,
    {
        self.id.as_str()
    }

    pub fn name(&self) -> (name: &str)
        ensures
            name@ == self.name@,
    {
        self.name.as_str()
    }

    pub fn region(&self) -> (region: &str)
        ensures
            region@ == self.region@,
    {
        self.region.as_str()
    }
}

/// The environment that a service is deployed into.
#[derive(Debug, PartialEq, Eq)]
pub struct Environment {
    pub organization_id: String,
    pub namespace: String,
}

impl Environment {
    pub fn namespace(&self) -> (namespace: &str)
        ensures
            namespace@ == self.namespace@,
    {
        self.namespace.as_str()
    }
}

/// Where a service is deployed: as a service that the cloud provider runs,
/// or as a workload in the cluster. Either way the target refers to the
/// cluster and the environment and does not own them.
#[derive(Debug, PartialEq, Eq)]
pub enum DeploymentTarget<'a> {
    ManagedServices(&'a Kubernetes, &'a Environment),
    SelfHosted(&'a Kubernetes, &'a Environment),
}

impl<'a> DeploymentTarget<'a> {
    pub open spec fn is_managed(&self) -> bool {
        self is ManagedServices
    }

    pub open spec fn cluster(&self) -> Kubernetes {
        match self {
            DeploymentTarget::ManagedServices(kubernetes, _) => **kubernetes,
            DeploymentTarget::SelfHosted(kubernetes, _) => **kubernetes,
        }
    }

    pub open spec fn surroundings(&self) -> Environment {
        match self {
            DeploymentTarget::ManagedServices(_, environment) => **environment,
            DeploymentTarget::SelfHosted(_, environment) => **environment,
        }
    }

    /// The cluster of the target.
    pub fn kubernetes(&self) -> (kubernetes: &'a Kubernetes)
        ensures
            *kubernetes == self.cluster(),
    {
        match self {
            DeploymentTarget::ManagedServices(kubernetes, _) => kubernetes,
            DeploymentTarget::SelfHosted(kubernetes, _) => kubernetes,
        }
    }

    /// The environment of the target.
    pub fn environment(&self) -> (environment: &'a Environment)
        ensures
            *environment == self.surroundings(),
    {
        match self {
            DeploymentTarget::ManagedServices(_, environment) => environment,
            DeploymentTarget::SelfHosted(_, environment) => environment,
        }
    }
}

} // verus!
