//! The deployment inventory snapshot: role-grouped host entries plus
//! environment metadata, as produced by the infrastructure provisioner and
//! read — never mutated — by the pipelines.

use vstd::prelude::*;
use vstd::string::StringExecFns;

verus! {

/// One provisioned host: its name and its public and private network
/// addresses, already rendered as plain address strings.
#[derive(Debug)]
pub struct VirtualMachine {
    pub name: String,
    pub public_ip_addr: String,
    pub private_ip_addr: String,
}

impl Clone for VirtualMachine {
    fn clone(&self) -> (r: Self)
        ensures
            r == *self,
    {
        VirtualMachine {
            name: self.name.clone(),
            public_ip_addr: self.public_ip_addr.clone(),
            private_ip_addr: self.private_ip_addr.clone(),
        }
    }
}

/// Whether the snapshot describes a fresh deployment or one bootstrapped
/// from an existing network.
#[derive(Clone, Copy, Debug, PartialEq, Eq, Structural)]
pub enum DeploymentType {
    New,
    Bootstrap,
}

/// The environment the deployment runs in; it selects the terraform
/// variables file the provisioner applies.
#[derive(Clone, Copy, Debug, PartialEq, Eq, Structural)]
pub enum EnvironmentType {
    Development,
    Staging,
    Production,
}

impl EnvironmentType {
    /// The terraform variables file for this environment.
    pub open spec fn spec_tfvars_filename(&self) -> Seq<char> {
        match self {
            EnvironmentType::Development => "development.tfvars"@,
            EnvironmentType::Staging => "staging.tfvars"@,
            EnvironmentType::Production => "production.tfvars"@,
        }
    }

    pub fn get_tfvars_filename(&self) -> (r: String)
        ensures
            r@ == self.spec_tfvars_filename(),
    {
        match self {
            EnvironmentType::Development => String::from_str("development.tfvars"),
            EnvironmentType::Staging => String::from_str("staging.tfvars"),
            EnvironmentType::Production => String::from_str("production.tfvars"),
        }
    }
}

/// The environment metadata carried with a snapshot.
#[derive(Clone, Copy, Debug, PartialEq, Eq, Structural)]
pub struct EnvironmentDetails {
    pub deployment_type: DeploymentType,
    pub environment_type: EnvironmentType,
}

/// A read-only snapshot of an existing deployment: the role-grouped host
/// entries the private-node sub-pipeline derives its counts and target
/// host from.
#[derive(Debug)]
pub struct DeploymentInventory {
    pub name: String,
    pub environment_details: EnvironmentDetails,
    pub auditor_vms: Vec<VirtualMachine>,
    pub bootstrap_node_vms: Vec<VirtualMachine>,
    pub node_vms: Vec<VirtualMachine>,
    pub uploader_vms: Vec<VirtualMachine>,
}

} // verus!
