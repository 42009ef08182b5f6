//! Error kinds raised by the deployment pipelines and the role names of the
//! inventory groups those errors refer to.

use vstd::prelude::*;

verus! {

/// The role groups an inventory can be listed for.
#[derive(Clone, Copy, Debug, PartialEq, Eq, Structural)]
pub enum AnsibleInventoryType {
    Auditor,
    BootstrapNodes,
    Build,
    Genesis,
    NatGateway,
    Nodes,
    PrivateNodes,
    Uploaders,
}

/// Everything that can abort a deployment stage.
///
/// A failure reported by one of the collaborators (provisioner, playbook
/// runner, SSH poll) is classified by the driver into one of these kinds and
/// handed back to the pipeline, which decides whether the failure is fatal.
#[derive(Clone, Copy, Debug, PartialEq, Eq, Structural)]
pub enum Error {
    /// A required host group came back with zero entries.
    EmptyInventory(AnsibleInventoryType),
    /// A genesis address was required for a configuration document but was
    /// not supplied: a programming-contract error, not an operator error.
    GenesisMultiAddrNotSupplied,
    /// The infrastructure provisioner failed to select a workspace or apply.
    InfraError,
    /// A playbook run ended with a non-zero underlying failure.
    PlaybookRunError,
    /// A host never became reachable over SSH within the collaborator's
    /// timeout.
    ReachabilityTimeout,
    /// Listing an inventory, or querying the genesis multiaddress, failed.
    InventoryListError,
}

} // verus!
