//! The private-node sub-pipeline: against an existing deployment's
//! inventory snapshot, it updates the infra, selects the last node host,
//! provisions a NAT gateway, re-reads the gateway's fresh inventory, and
//! provisions a cohort of nodes reachable only through the gateway. Every
//! failure here is fatal — unlike the main pipeline's node stage, there is
//! no soft-fail policy.

use vstd::prelude::*;
use vstd::string::StringExecFns;

use crate::error::AnsibleInventoryType;
use crate::error::Error;
use crate::inventory::DeploymentInventory;
use crate::inventory::DeploymentType;
use crate::inventory::VirtualMachine;
use crate::pipeline::RunBanner;
use crate::text::push_u64_decimal;
use crate::text::spec_dec_digits;
use crate::text::spec_str_contains;
use crate::text::str_contains;

verus! {

/// What the sub-pipeline is asked to run against: an existing deployment's
/// snapshot, and whether the runner is driven verbosely.
pub struct PrivateNodeOptions {
    pub ansible_verbose: bool,
    pub current_inventory: DeploymentInventory,
}

/// The infra update applied before any provisioning: VM counts derived
/// from the snapshot's role groups, one additional unit for a fresh
/// deployment and none for a bootstrapped one, the build VM disabled, and
/// private-node support enabled.
#[derive(Debug)]
pub struct InfraUpdate {
    pub name: String,
    pub additional_vm_count: u16,
    pub auditor_vm_count: u16,
    pub bootstrap_vm_count: u16,
    pub node_vm_count: u16,
    pub uploader_vm_count: u16,
    pub enable_build_vm: bool,
    pub enable_private_node_vm: bool,
    pub tfvars_filename: String,
}

/// The infra update the snapshot calls for.
pub open spec fn is_infra_update(inv: DeploymentInventory, u: InfraUpdate) -> bool {
    &&& u.name@ == inv.name@
    &&& u.additional_vm_count == (match inv.environment_details.deployment_type {
        DeploymentType::New => 1u16,
        DeploymentType::Bootstrap => 0u16,
    })
    &&& u.auditor_vm_count == inv.auditor_vms@.len()
    &&& u.bootstrap_vm_count == inv.bootstrap_node_vms@.len()
    &&& u.node_vm_count == inv.node_vms@.len()
    &&& u.uploader_vm_count == inv.uploader_vms@.len()
    &&& !u.enable_build_vm
    &&& u.enable_private_node_vm
    &&& u.tfvars_filename@ == inv.environment_details.environment_type.spec_tfvars_filename()
}

/// The name fragment that identifies the last node host:
/// `<deployment>-node-<count>`.
pub open spec fn spec_private_node_pattern(inv: DeploymentInventory) -> Seq<char> {
    inv.name@ + "-node-"@ + spec_dec_digits(inv.node_vms@.len())
}

/// Builds the name fragment that identifies the last node host.
pub fn private_node_pattern(inv: &DeploymentInventory) -> (r: String)
    ensures
        r@ == spec_private_node_pattern(*inv),
{
    let mut p = inv.name.clone();
    p.append("-node-");
    push_u64_decimal(&mut p, inv.node_vms.len() as u64);
    proof {
        assert(p@ =~= spec_private_node_pattern(*inv));
    }
    p
}

/// Whether some node-role entry's name holds the last-node fragment.
pub open spec fn spec_matching_host_exists(inv: DeploymentInventory) -> bool {
    exists|i: int|
        0 <= i < inv.node_vms@.len() && #[trigger] spec_str_contains(
            inv.node_vms@[i].name@,
            spec_private_node_pattern(inv),
        )
}

/// `vm` is the first node-role entry whose name holds the last-node
/// fragment.
pub open spec fn spec_is_first_match(inv: DeploymentInventory, vm: VirtualMachine) -> bool {
    exists|i: int|
        {
            &&& 0 <= i < inv.node_vms@.len()
            &&& vm == inv.node_vms@[i]
            &&& #[trigger] spec_str_contains(
                inv.node_vms@[i].name@,
                spec_private_node_pattern(inv),
            )
            &&& forall|j: int|
                0 <= j < i ==> !spec_str_contains(
                    #[trigger] inv.node_vms@[j].name@,
                    spec_private_node_pattern(inv),
                )
        }
}

/// Selects the host that will run the private nodes: the first node-role
/// entry named `<deployment>-node-<count>`. A snapshot with no such entry —
/// in particular one with zero node-role entries — is rejected with an
/// empty-inventory error for the node group.
pub fn select_private_node_host(inv: &DeploymentInventory) -> (r: Result<VirtualMachine, Error>)
    ensures
        r is Ok <==> spec_matching_host_exists(*inv),
        r matches Ok(vm) ==> spec_is_first_match(*inv, vm),
        r is Err ==> r->Err_0 == Error::EmptyInventory(AnsibleInventoryType::Nodes),
{
    let pattern = private_node_pattern(inv);
    let mut i: usize = 0;
    while i < inv.node_vms.len()
        invariant
            i <= inv.node_vms@.len(),
            pattern@ == spec_private_node_pattern(*inv),
            forall|j: int|
                0 <= j < i ==> !spec_str_contains(
                    #[trigger] inv.node_vms@[j].name@,
                    spec_private_node_pattern(*inv),
                ),
        decreases inv.node_vms@.len() - i,
    {
        if str_contains(inv.node_vms[i].name.as_str(), pattern.as_str()) {
            return Ok(inv.node_vms[i].clone());
        }
        i = i + 1;
    }
    Err(Error::EmptyInventory(AnsibleInventoryType::Nodes))
}

/// The sub-pipeline's position: each stage name is the action whose
/// outcome it is waiting for.
#[derive(Clone, Copy, Debug, PartialEq, Eq, Structural)]
pub enum PrivateNodeStage {
    Infra,
    NatGateway,
    NatInventory,
    PrivateNodes,
    Complete,
}

/// An action the driver must perform before handing its outcome back.
#[derive(Debug)]
pub enum PrivateNodeAction {
    /// Update the deployment's infra workspace.
    UpdateInfra(InfraUpdate),
    /// Run the NAT-gateway playbook, targeted by the selected host's
    /// private address.
    ProvisionNatGateway { banner: RunBanner, name: String, private_ip_addr: String },
    /// Fetch the NAT-gateway inventory fresh: the gateway did not exist
    /// when the snapshot was taken.
    GetNatGatewayInventory { banner: RunBanner },
    /// Run the private-node playbook on the selected host, handing it both
    /// the host's entry and the gateway's so routing can be configured.
    ProvisionPrivateNodes {
        banner: RunBanner,
        name: String,
        host: VirtualMachine,
        nat_gateway: VirtualMachine,
    },
}

/// The outcome of a driver action.
pub enum PrivateNodeInput {
    Succeeded,
    Failed(Error),
    /// The freshly fetched NAT-gateway inventory.
    Inventory(Vec<VirtualMachine>),
}

/// What the sub-pipeline asks for next.
#[derive(Debug)]
pub enum PrivateNodeNext {
    Run(PrivateNodeAction),
    Done,
}

/// The private-node sub-pipeline state machine.
pub struct PrivateNodeSetup {
    pub options: PrivateNodeOptions,
    pub stage: PrivateNodeStage,
    pub host: Option<VirtualMachine>,
    pub nat_gateway: Option<VirtualMachine>,
}

impl PrivateNodeSetup {
    /// Once a host is selected it is the first match of the snapshot; once
    /// the gateway inventory is read, its first entry is held.
    pub open spec fn wf(&self) -> bool {
        match self.stage {
            PrivateNodeStage::Infra => true,
            PrivateNodeStage::NatGateway | PrivateNodeStage::NatInventory => {
                self.host matches Some(h) && spec_is_first_match(self.options.current_inventory, h)
            },
            PrivateNodeStage::PrivateNodes => {
                &&& self.host matches Some(h) && spec_is_first_match(
                    self.options.current_inventory,
                    h,
                )
                &&& self.nat_gateway is Some
            },
            PrivateNodeStage::Complete => true,
        }
    }

    /// Which outcomes a stage can report: the fresh inventory answers only
    /// the gateway-inventory fetch, plain success answers every other
    /// stage, and any stage can fail.
    pub open spec fn input_ok(stage: PrivateNodeStage, input: PrivateNodeInput) -> bool {
        match input {
            PrivateNodeInput::Succeeded => stage != PrivateNodeStage::NatInventory,
            PrivateNodeInput::Inventory(_) => stage == PrivateNodeStage::NatInventory,
            PrivateNodeInput::Failed(_) => true,
        }
    }

    /// Starts the sub-pipeline: the driver first applies the infra update
    /// derived from the snapshot.
    pub fn start(options: PrivateNodeOptions) -> (r: (PrivateNodeSetup, PrivateNodeAction))
        requires
            options.current_inventory.auditor_vms@.len() <= u16::MAX,
            options.current_inventory.bootstrap_node_vms@.len() <= u16::MAX,
            options.current_inventory.node_vms@.len() <= u16::MAX,
            options.current_inventory.uploader_vms@.len() <= u16::MAX,
        ensures
            r.0.wf(),
            r.0.options == options,
            r.0.stage == PrivateNodeStage::Infra,
            r.1 matches PrivateNodeAction::UpdateInfra(u) && is_infra_update(
                options.current_inventory,
                u,
            ),
    {
        let inv = &options.current_inventory;
        let additional: u16 = match inv.environment_details.deployment_type {
            DeploymentType::New => 1,
            DeploymentType::Bootstrap => 0,
        };
        let update = InfraUpdate {
            name: inv.name.clone(),
            additional_vm_count: additional,
            auditor_vm_count: inv.auditor_vms.len() as u16,
            bootstrap_vm_count: inv.bootstrap_node_vms.len() as u16,
            node_vm_count: inv.node_vms.len() as u16,
            uploader_vm_count: inv.uploader_vms.len() as u16,
            enable_build_vm: false,
            enable_private_node_vm: true,
            tfvars_filename: inv.environment_details.environment_type.get_tfvars_filename(),
        };
        (
            PrivateNodeSetup {
                options,
                stage: PrivateNodeStage::Infra,
                host: None,
                nat_gateway: None,
            },
            PrivateNodeAction::UpdateInfra(update),
        )
    }

    /// The transition table: what one `step` does for each stage and
    /// outcome. Every failure is fatal. The host that will run private
    /// nodes is selected from the snapshot before any NAT-gateway work, and
    /// a snapshot without a matching node entry stops the sub-pipeline
    /// right there; the gateway's inventory is always the freshly fetched
    /// one, never the snapshot's.
    pub open spec fn spec_step(
        pre: PrivateNodeSetup,
        input: PrivateNodeInput,
        post: PrivateNodeSetup,
        r: Result<PrivateNodeNext, Error>,
    ) -> bool {
        let inv = pre.options.current_inventory;
        &&& post.options == pre.options
        &&& match input {
            PrivateNodeInput::Failed(e) => {
                &&& post.stage == PrivateNodeStage::Complete
                &&& r == Err::<PrivateNodeNext, Error>(e)
            },
            PrivateNodeInput::Succeeded => match pre.stage {
                PrivateNodeStage::Infra => {
                    if spec_matching_host_exists(inv) {
                        &&& post.stage == PrivateNodeStage::NatGateway
                        &&& post.host matches Some(h) && spec_is_first_match(inv, h)
                        &&& r matches Ok(
                            PrivateNodeNext::Run(
                                PrivateNodeAction::ProvisionNatGateway {
                                    banner,
                                    name,
                                    private_ip_addr,
                                },
                            ),
                        )
                        &&& banner.n == 2 && banner.total == 4
                        &&& banner.title@ == "Provision NAT Gateway"@
                        &&& name@ == inv.name@
                        &&& private_ip_addr@ == post.host->0.private_ip_addr@
                    } else {
                        &&& post.stage == PrivateNodeStage::Complete
                        &&& r == Err::<PrivateNodeNext, Error>(
                            Error::EmptyInventory(AnsibleInventoryType::Nodes),
                        )
                    }
                },
                PrivateNodeStage::NatGateway => {
                    &&& post.stage == PrivateNodeStage::NatInventory
                    &&& post.host == pre.host
                    &&& r matches Ok(
                        PrivateNodeNext::Run(
                            PrivateNodeAction::GetNatGatewayInventory { banner },
                        ),
                    )
                    &&& banner.n == 3 && banner.total == 4
                    &&& banner.title@ == "Get NAT Gateway inventory"@
                },
                PrivateNodeStage::PrivateNodes => {
                    &&& post.stage == PrivateNodeStage::Complete
                    &&& r == Ok::<PrivateNodeNext, Error>(PrivateNodeNext::Done)
                },
                _ => false,
            },
            PrivateNodeInput::Inventory(vms) => {
                if vms@.len() == 0 {
                    &&& post.stage == PrivateNodeStage::Complete
                    &&& r == Err::<PrivateNodeNext, Error>(
                        Error::EmptyInventory(AnsibleInventoryType::NatGateway),
                    )
                } else {
                    &&& post.stage == PrivateNodeStage::PrivateNodes
                    &&& post.host == pre.host
                    &&& post.nat_gateway matches Some(g) && g == vms@[0]
                    &&& r matches Ok(
                        PrivateNodeNext::Run(
                            PrivateNodeAction::ProvisionPrivateNodes {
                                banner,
                                name,
                                host,
                                nat_gateway,
                            },
                        ),
                    )
                    &&& banner.n == 4 && banner.total == 4
                    &&& banner.title@ == "Provision Private Nodes on the last VM"@
                    &&& name@ == inv.name@
                    &&& host == pre.host->0
                    &&& nat_gateway == vms@[0]
                }
            },
        }
    }

    /// Consumes the outcome of the pending action and plans what follows.
    pub fn step(&mut self, input: PrivateNodeInput) -> (r: Result<PrivateNodeNext, Error>)
        requires
            old(self).wf(),
            old(self).stage != PrivateNodeStage::Complete,
            PrivateNodeSetup::input_ok(old(self).stage, input),
        ensures
            final(self).wf(),
            PrivateNodeSetup::spec_step(*old(self), input, *final(self), r),
    {
        match input {
            PrivateNodeInput::Failed(e) => {
                self.stage = PrivateNodeStage::Complete;
                Err(e)
            },
            PrivateNodeInput::Succeeded => match self.stage {
                PrivateNodeStage::Infra => {
                    match select_private_node_host(&self.options.current_inventory) {
                        Ok(vm) => {
                            let private_ip_addr = vm.private_ip_addr.clone();
                            self.host = Some(vm);
                            self.stage = PrivateNodeStage::NatGateway;
                            Ok(
                                PrivateNodeNext::Run(
                                    PrivateNodeAction::ProvisionNatGateway {
                                        banner: RunBanner {
                                            n: 2,
                                            total: 4,
                                            title: String::from_str("Provision NAT Gateway"),
                                        },
                                        name: self.options.current_inventory.name.clone(),
                                        private_ip_addr,
                                    },
                                ),
                            )
                        },
                        Err(e) => {
                            self.stage = PrivateNodeStage::Complete;
                            Err(e)
                        },
                    }
                },
                PrivateNodeStage::NatGateway => {
                    self.stage = PrivateNodeStage::NatInventory;
                    Ok(
                        PrivateNodeNext::Run(
                            PrivateNodeAction::GetNatGatewayInventory {
                                banner: RunBanner {
                                    n: 3,
                                    total: 4,
                                    title: String::from_str("Get NAT Gateway inventory"),
                                },
                            },
                        ),
                    )
                },
                PrivateNodeStage::PrivateNodes => {
                    self.stage = PrivateNodeStage::Complete;
                    Ok(PrivateNodeNext::Done)
                },
                _ => {
                    proof {
                        assert(false);
                    }
                    Err(Error::PlaybookRunError)
                },
            },
            PrivateNodeInput::Inventory(vms) => {
                if vms.len() == 0 {
                    self.stage = PrivateNodeStage::Complete;
                    Err(Error::EmptyInventory(AnsibleInventoryType::NatGateway))
                } else {
                    let gateway = vms[0].clone();
                    self.nat_gateway = Some(gateway.clone());
                    self.stage = PrivateNodeStage::PrivateNodes;
                    let host = match &self.host {
                        Some(h) => h.clone(),
                        None => {
                            proof {
                                assert(false);
                            }
                            vms[0].clone()
                        },
                    };
                    Ok(
                        PrivateNodeNext::Run(
                            PrivateNodeAction::ProvisionPrivateNodes {
                                banner: RunBanner {
                                    n: 4,
                                    total: 4,
                                    title: String::from_str(
                                        "Provision Private Nodes on the last VM",
                                    ),
                                },
                                name: self.options.current_inventory.name.clone(),
                                host,
                                nat_gateway: gateway,
                            },
                        ),
                    )
                }
            },
        }
    }
}

/// A snapshot with zero node-role entries is rejected with an
/// empty-inventory error for the node group before any NAT-gateway stage
/// runs: the sub-pipeline halts while still at its first stage.
pub proof fn lemma_empty_snapshot_fails_before_nat_gateway(
    pre: PrivateNodeSetup,
    post: PrivateNodeSetup,
    r: Result<PrivateNodeNext, Error>,
)
    requires
        pre.stage == PrivateNodeStage::Infra,
        pre.options.current_inventory.node_vms@.len() == 0,
        PrivateNodeSetup::spec_step(pre, PrivateNodeInput::Succeeded, post, r),
    ensures
        r == Err::<PrivateNodeNext, Error>(Error::EmptyInventory(AnsibleInventoryType::Nodes)),
        post.stage == PrivateNodeStage::Complete,
{
    assert(!spec_matching_host_exists(pre.options.current_inventory));
}

} // verus!
