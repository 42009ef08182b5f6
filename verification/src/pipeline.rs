//! The deployment pipeline: the ordered stage sequence for a full testnet
//! deployment, expressed as a state machine. Each step consumes the outcome
//! of the previous stage and plans the next action for the driver to
//! perform; only the remaining-node stage is tolerated to fail.

use vstd::prelude::*;
use vstd::string::StringExecFns;

use crate::deploy::spec_binaries_doc_entries;
use crate::deploy::spec_node_doc_entries;
use crate::deploy::spec_faucet_doc_entries;
use crate::deploy::spec_rpc_client_doc_entries;
use crate::deploy::DeployCmd;
use crate::error::Error;
use crate::extra_vars::spec_render_doc;
use crate::text::spec_bool_str;
use crate::text::spec_dec_digits;
use crate::text::bool_str;
use crate::text::u64_to_string;

verus! {

/// The heading of one numbered run against the configuration-management
/// runner: run `n` of `total`, with a human-readable stage title.
#[derive(Debug)]
pub struct RunBanner {
    pub n: u16,
    pub total: u16,
    pub title: String,
}

/// One parameterized playbook run: which playbook, against which inventory,
/// with which extra-vars document, and whether the target host must first
/// become reachable over SSH.
#[derive(Debug)]
pub struct PlaybookRun {
    pub playbook: String,
    pub inventory_path: String,
    pub extra_vars: Option<String>,
    pub wait_ssh: bool,
}

/// An action the driver must perform before handing its outcome back to the
/// pipeline.
#[derive(Debug)]
pub enum DeployAction {
    /// Select or create the named infra workspace and apply it with the
    /// given key/value parameters.
    CreateInfra { workspace: String, args: Vec<(String, String)> },
    /// Run one playbook, under the given banner.
    RunPlaybook { banner: RunBanner, run: PlaybookRun },
    /// Query the provisioned genesis host of the named deployment for its
    /// network multiaddress.
    GetGenesisMultiaddr { name: String },
    /// List the full inventory, refreshing from the provisioner, for
    /// operator visibility.
    ListInventory { name: String, node_count: u16 },
}

/// The outcome of a driver action, handed back to the pipeline.
pub enum StageInput {
    /// The action completed.
    Succeeded,
    /// The action failed, classified by the driver.
    Failed(Error),
    /// The genesis multiaddress the driver discovered.
    Multiaddr(String),
}

/// What the pipeline asks for next.
#[derive(Debug)]
pub enum StepNext {
    /// Perform this action and report its outcome.
    Run(DeployAction),
    /// The pipeline completed; the flag records whether the remaining-node
    /// stage failed without aborting the deployment.
    Done { node_provision_failed: bool },
}

/// The pipeline's position: each stage name is the action whose outcome the
/// pipeline is waiting for.
#[derive(Clone, Copy, Debug, PartialEq, Eq, Structural)]
pub enum DeployStage {
    Infra,
    Build,
    Genesis,
    Multiaddr,
    Nodes,
    Faucet,
    RpcClient,
    Inventory,
    Complete,
}

/// The inventory file the runner consumes for one role group:
/// `inventory/.<name>_<role>_inventory_<provider>.yml`.
pub open spec fn spec_inventory_path(
    name: Seq<char>,
    role: Seq<char>,
    provider: Seq<char>,
) -> Seq<char> {
    "inventory/."@ + name + "_"@ + role + "_inventory_"@ + provider + ".yml"@
}

/// Builds the inventory file path for one role group.
pub fn inventory_path(name: &str, role: &str, provider: &str) -> (r: String)
    ensures
        r@ == spec_inventory_path(name@, role@, provider@),
{
    let mut p = String::from_str("inventory/.");
    p.append(name);
    p.append("_");
    p.append(role);
    p.append("_inventory_");
    p.append(provider);
    p.append(".yml");
    proof {
        assert(p@ =~= spec_inventory_path(name@, role@, provider@));
    }
    p
}

/// The infra-creation action: apply the named workspace with the requested
/// VM count and the build-VM flag.
pub open spec fn is_infra_action(cmd: DeployCmd, a: DeployAction) -> bool {
    &&& a matches DeployAction::CreateInfra { workspace, args }
    &&& workspace@ == cmd.name@
    &&& args@.len() == 2
    &&& args@[0].0@ == "node_count"@
    &&& args@[0].1@ == spec_dec_digits(cmd.vm_count as nat)
    &&& args@[1].0@ == "use_custom_bin"@
    &&& args@[1].1@ == spec_bool_str(cmd.sn_codebase_type.spec_build_required())
}

/// The build-stage playbook run.
pub open spec fn is_build_playbook(cmd: DeployCmd, r: PlaybookRun) -> bool {
    &&& r.playbook@ == "build.yml"@
    &&& r.inventory_path@ == spec_inventory_path(cmd.name@, "build"@, cmd.provider@)
    &&& r.wait_ssh
    &&& r.extra_vars matches Some(d) && d@ == spec_render_doc(
        spec_binaries_doc_entries(cmd.sn_codebase_type, cmd.name@),
    )
}

/// The genesis-stage playbook run: a node document with no peer address and
/// no instance-count override.
pub open spec fn is_genesis_playbook(cmd: DeployCmd, r: PlaybookRun) -> bool {
    &&& r.playbook@ == "genesis_node.yml"@
    &&& r.inventory_path@ == spec_inventory_path(cmd.name@, "genesis"@, cmd.provider@)
    &&& r.wait_ssh
    &&& r.extra_vars matches Some(d) && d@ == spec_render_doc(
        spec_node_doc_entries(cmd, None, None),
    )
}

/// The remaining-node playbook run: the full non-genesis node inventory,
/// the discovered genesis address, and the requested node count.
pub open spec fn is_nodes_playbook(cmd: DeployCmd, gm: Seq<char>, r: PlaybookRun) -> bool {
    &&& r.playbook@ == "nodes.yml"@
    &&& r.inventory_path@ == spec_inventory_path(cmd.name@, "node"@, cmd.provider@)
    &&& !r.wait_ssh
    &&& r.extra_vars matches Some(d) && d@ == spec_render_doc(
        spec_node_doc_entries(cmd, Some(gm), Some(cmd.node_count)),
    )
}

/// The faucet playbook run, against the genesis host.
pub open spec fn is_faucet_playbook(cmd: DeployCmd, gm: Seq<char>, r: PlaybookRun) -> bool {
    &&& r.playbook@ == "faucet.yml"@
    &&& r.inventory_path@ == spec_inventory_path(cmd.name@, "genesis"@, cmd.provider@)
    &&& !r.wait_ssh
    &&& r.extra_vars matches Some(d) && d@ == spec_render_doc(spec_faucet_doc_entries(cmd, gm))
}

/// The RPC-client playbook run, against the genesis host.
pub open spec fn is_rpc_client_playbook(cmd: DeployCmd, gm: Seq<char>, r: PlaybookRun) -> bool {
    &&& r.playbook@ == "safenode_rpc_client.yml"@
    &&& r.inventory_path@ == spec_inventory_path(cmd.name@, "genesis"@, cmd.provider@)
    &&& !r.wait_ssh
    &&& r.extra_vars matches Some(d) && d@ == spec_render_doc(
        spec_rpc_client_doc_entries(cmd, gm),
    )
}

impl DeployCmd {
    /// Plans the infra-creation action.
    fn create_infra(&self, enable_build_vm: bool) -> (a: DeployAction)
        requires
            enable_build_vm == self.sn_codebase_type.spec_build_required(),
        ensures
            is_infra_action(*self, a),
    {
        let mut args: Vec<(String, String)> = Vec::new();
        args.push((String::from_str("node_count"), u64_to_string(self.vm_count as u64)));
        args.push((String::from_str("use_custom_bin"), String::from_str(bool_str(enable_build_vm))));
        DeployAction::CreateInfra { workspace: self.name.clone(), args }
    }

    /// Plans the build-stage playbook run.
    fn build_safe_network_binaries(&self) -> (r: PlaybookRun)
        ensures
            is_build_playbook(*self, r),
    {
        let extra_vars = self.build_binaries_extra_vars_doc();
        PlaybookRun {
            playbook: String::from_str("build.yml"),
            inventory_path: inventory_path(self.name.as_str(), "build", self.provider.as_str()),
            extra_vars: Some(extra_vars),
            wait_ssh: true,
        }
    }

    /// Plans the genesis provisioning run: the genesis host is configured
    /// with no peer address and no node-count override.
    pub fn provision_genesis_node(&self) -> (r: PlaybookRun)
        ensures
            is_genesis_playbook(*self, r),
    {
        let extra_vars = match self.build_node_extra_vars_doc(None, None) {
            Ok(d) => d,
            Err(_) => {
                proof {
                    assert(false);
                }
                String::new()
            },
        };
        PlaybookRun {
            playbook: String::from_str("genesis_node.yml"),
            inventory_path: inventory_path(self.name.as_str(), "genesis", self.provider.as_str()),
            extra_vars: Some(extra_vars),
            wait_ssh: true,
        }
    }

    /// Plans the remaining-node provisioning run; the discovered genesis
    /// address must be non-empty.
    pub fn provision_remaining_nodes(&self, genesis_multiaddr: &str) -> (r: Result<
        PlaybookRun,
        Error,
    >)
        ensures
            r is Ok <==> genesis_multiaddr@.len() > 0,
            r is Err ==> r->Err_0 == Error::GenesisMultiAddrNotSupplied,
            r is Ok ==> is_nodes_playbook(*self, genesis_multiaddr@, r->Ok_0),
    {
        let doc = self.build_node_extra_vars_doc(
            Some(genesis_multiaddr.to_owned()),
            Some(self.node_count),
        );
        match doc {
            Ok(extra_vars) => Ok(
                PlaybookRun {
                    playbook: String::from_str("nodes.yml"),
                    inventory_path: inventory_path(
                        self.name.as_str(),
                        "node",
                        self.provider.as_str(),
                    ),
                    extra_vars: Some(extra_vars),
                    wait_ssh: false,
                },
            ),
            Err(e) => Err(e),
        }
    }

    /// Plans the faucet provisioning run; the discovered genesis address
    /// must be non-empty.
    pub fn provision_faucet(&self, genesis_multiaddr: &str) -> (r: Result<PlaybookRun, Error>)
        ensures
            r is Ok <==> genesis_multiaddr@.len() > 0,
            r is Err ==> r->Err_0 == Error::GenesisMultiAddrNotSupplied,
            r is Ok ==> is_faucet_playbook(*self, genesis_multiaddr@, r->Ok_0),
    {
        match self.build_faucet_extra_vars_doc(genesis_multiaddr) {
            Ok(extra_vars) => Ok(
                PlaybookRun {
                    playbook: String::from_str("faucet.yml"),
                    inventory_path: inventory_path(
                        self.name.as_str(),
                        "genesis",
                        self.provider.as_str(),
                    ),
                    extra_vars: Some(extra_vars),
                    wait_ssh: false,
                },
            ),
            Err(e) => Err(e),
        }
    }

    /// Plans the RPC-client provisioning run; the discovered genesis
    /// address must be non-empty.
    pub fn provision_safenode_rpc_client(&self, genesis_multiaddr: &str) -> (r: Result<
        PlaybookRun,
        Error,
    >)
        ensures
            r is Ok <==> genesis_multiaddr@.len() > 0,
            r is Err ==> r->Err_0 == Error::GenesisMultiAddrNotSupplied,
            r is Ok ==> is_rpc_client_playbook(*self, genesis_multiaddr@, r->Ok_0),
    {
        match self.build_safenode_rpc_client_extra_vars_doc(genesis_multiaddr) {
            Ok(extra_vars) => Ok(
                PlaybookRun {
                    playbook: String::from_str("safenode_rpc_client.yml"),
                    inventory_path: inventory_path(
                        self.name.as_str(),
                        "genesis",
                        self.provider.as_str(),
                    ),
                    extra_vars: Some(extra_vars),
                    wait_ssh: false,
                },
            ),
            Err(e) => Err(e),
        }
    }
}

/// The pipeline state machine. Created with the configuration; the driver
/// performs each planned action and hands its outcome to `step` until it is
/// told the pipeline is done or an error aborts it.
pub struct DeployRun {
    pub cmd: DeployCmd,
    pub stage: DeployStage,
    pub genesis_multiaddr: Option<String>,
    pub node_provision_failed: bool,
}

impl DeployRun {
    /// From the remaining-node stage on, a non-empty genesis address is
    /// held; the partial-failure flag can be set only once that stage's
    /// outcome is in.
    pub open spec fn wf(&self) -> bool {
        &&& match self.stage {
            DeployStage::Nodes | DeployStage::Faucet | DeployStage::RpcClient
                | DeployStage::Inventory => {
                self.genesis_multiaddr matches Some(a) && a@.len() > 0
            },
            _ => true,
        }
        &&& match self.stage {
            DeployStage::Infra | DeployStage::Build | DeployStage::Genesis
                | DeployStage::Multiaddr | DeployStage::Nodes => !self.node_provision_failed,
            _ => true,
        }
    }

    /// Which outcomes a stage can report: a multiaddress answers only the
    /// address-discovery stage, plain success answers every other one, and
    /// any stage can fail.
    pub open spec fn input_ok(stage: DeployStage, input: StageInput) -> bool {
        match input {
            StageInput::Succeeded => stage != DeployStage::Multiaddr,
            StageInput::Multiaddr(_) => stage == DeployStage::Multiaddr,
            StageInput::Failed(_) => true,
        }
    }

    /// Starts a deployment: the pipeline waits for the infra-creation
    /// outcome.
    pub fn start(cmd: DeployCmd) -> (r: (DeployRun, DeployAction))
        ensures
            r.0.wf(),
            r.0.cmd == cmd,
            r.0.stage == DeployStage::Infra,
            !r.0.node_provision_failed,
            is_infra_action(cmd, r.1),
    {
        let build = cmd.sn_codebase_type.build_required();
        let action = cmd.create_infra(build);
        (
            DeployRun {
                cmd,
                stage: DeployStage::Infra,
                genesis_multiaddr: None,
                node_provision_failed: false,
            },
            action,
        )
    }

    /// The transition table: what one `step` does for each stage and
    /// outcome. Every failure is fatal and re-raised — the machine halts —
    /// except at the remaining-node stage, where the failure is only
    /// recorded and the pipeline continues; the final outcome reports that
    /// flag. The stage numbering `n of total` counts 4 runs, or 5 when a
    /// build stage runs first.
    pub open spec fn spec_step(
        pre: DeployRun,
        input: StageInput,
        post: DeployRun,
        r: Result<StepNext, Error>,
    ) -> bool {
        let cmd = pre.cmd;
        let build = cmd.sn_codebase_type.spec_build_required();
        let total: u16 = if build {
            5
        } else {
            4
        };
        &&& post.cmd == pre.cmd
        &&& match input {
            StageInput::Failed(e) => {
                if pre.stage == DeployStage::Nodes {
                    &&& post.stage == DeployStage::Faucet
                    &&& post.node_provision_failed
                    &&& post.genesis_multiaddr == pre.genesis_multiaddr
                    &&& r matches Ok(StepNext::Run(DeployAction::RunPlaybook { banner, run }))
                    &&& banner.n == total - 1 && banner.total == total
                    &&& banner.title@ == "Deploy Faucet"@
                    &&& is_faucet_playbook(cmd, pre.genesis_multiaddr->0@, run)
                } else {
                    &&& post.stage == DeployStage::Complete
                    &&& r == Err::<StepNext, Error>(e)
                }
            },
            StageInput::Succeeded => match pre.stage {
                DeployStage::Infra => {
                    &&& post.genesis_multiaddr == pre.genesis_multiaddr
                    &&& post.node_provision_failed == pre.node_provision_failed
                    &&& if build {
                        &&& post.stage == DeployStage::Build
                        &&& r matches Ok(
                            StepNext::Run(DeployAction::RunPlaybook { banner, run }),
                        )
                        &&& banner.n == 1 && banner.total == total
                        &&& banner.title@ == "Build Custom Binaries"@
                        &&& is_build_playbook(cmd, run)
                    } else {
                        &&& post.stage == DeployStage::Genesis
                        &&& r matches Ok(
                            StepNext::Run(DeployAction::RunPlaybook { banner, run }),
                        )
                        &&& banner.n == 1 && banner.total == total
                        &&& banner.title@ == "Provision Genesis Node"@
                        &&& is_genesis_playbook(cmd, run)
                    }
                },
                DeployStage::Build => {
                    &&& post.stage == DeployStage::Genesis
                    &&& post.genesis_multiaddr == pre.genesis_multiaddr
                    &&& post.node_provision_failed == pre.node_provision_failed
                    &&& r matches Ok(StepNext::Run(DeployAction::RunPlaybook { banner, run }))
                    &&& banner.n == 2 && banner.total == total
                    &&& banner.title@ == "Provision Genesis Node"@
                    &&& is_genesis_playbook(cmd, run)
                },
                DeployStage::Genesis => {
                    &&& post.stage == DeployStage::Multiaddr
                    &&& post.genesis_multiaddr == pre.genesis_multiaddr
                    &&& post.node_provision_failed == pre.node_provision_failed
                    &&& r matches Ok(StepNext::Run(DeployAction::GetGenesisMultiaddr { name }))
                    &&& name@ == cmd.name@
                },
                DeployStage::Nodes => {
                    &&& post.stage == DeployStage::Faucet
                    &&& !post.node_provision_failed
                    &&& post.genesis_multiaddr == pre.genesis_multiaddr
                    &&& r matches Ok(StepNext::Run(DeployAction::RunPlaybook { banner, run }))
                    &&& banner.n == total - 1 && banner.total == total
                    &&& banner.title@ == "Deploy Faucet"@
                    &&& is_faucet_playbook(cmd, pre.genesis_multiaddr->0@, run)
                },
                DeployStage::Faucet => {
                    &&& post.stage == DeployStage::RpcClient
                    &&& post.genesis_multiaddr == pre.genesis_multiaddr
                    &&& post.node_provision_failed == pre.node_provision_failed
                    &&& r matches Ok(StepNext::Run(DeployAction::RunPlaybook { banner, run }))
                    &&& banner.n == total && banner.total == total
                    &&& banner.title@ == "Provision RPC Client on Genesis Node"@
                    &&& is_rpc_client_playbook(cmd, pre.genesis_multiaddr->0@, run)
                },
                DeployStage::RpcClient => {
                    &&& post.stage == DeployStage::Inventory
                    &&& post.genesis_multiaddr == pre.genesis_multiaddr
                    &&& post.node_provision_failed == pre.node_provision_failed
                    &&& r matches Ok(
                        StepNext::Run(DeployAction::ListInventory { name, node_count }),
                    )
                    &&& name@ == cmd.name@
                    &&& node_count == cmd.node_count
                },
                DeployStage::Inventory => {
                    &&& post.stage == DeployStage::Complete
                    &&& r == Ok::<StepNext, Error>(
                        StepNext::Done { node_provision_failed: pre.node_provision_failed },
                    )
                },
                _ => false,
            },
            StageInput::Multiaddr(addr) => {
                if addr@.len() == 0 {
                    &&& post.stage == DeployStage::Complete
                    &&& r == Err::<StepNext, Error>(Error::GenesisMultiAddrNotSupplied)
                } else {
                    &&& post.stage == DeployStage::Nodes
                    &&& post.genesis_multiaddr == Some(addr)
                    &&& !post.node_provision_failed
                    &&& r matches Ok(StepNext::Run(DeployAction::RunPlaybook { banner, run }))
                    &&& banner.n == total - 2 && banner.total == total
                    &&& banner.title@ == "Provision Remaining Nodes"@
                    &&& is_nodes_playbook(cmd, addr@, run)
                }
            },
        }
    }

    /// Consumes the outcome of the pending action and plans what follows.
    pub fn step(&mut self, input: StageInput) -> (r: Result<StepNext, Error>)
        requires
            old(self).wf(),
            old(self).stage != DeployStage::Complete,
            DeployRun::input_ok(old(self).stage, input),
        ensures
            final(self).wf(),
            DeployRun::spec_step(*old(self), input, *final(self), r),
    {
        let build = self.cmd.sn_codebase_type.build_required();
        let total: u16 = if build {
            5
        } else {
            4
        };
        match input {
            StageInput::Failed(e) => {
                if matches!(self.stage, DeployStage::Nodes) {
                    self.node_provision_failed = true;
                    self.stage = DeployStage::Faucet;
                    let addr = match &self.genesis_multiaddr {
                        Some(a) => a.as_str(),
                        None => "",
                    };
                    match self.cmd.provision_faucet(addr) {
                        Ok(run) => Ok(
                            StepNext::Run(
                                DeployAction::RunPlaybook {
                                    banner: RunBanner {
                                        n: total - 1,
                                        total,
                                        title: String::from_str("Deploy Faucet"),
                                    },
                                    run,
                                },
                            ),
                        ),
                        Err(err) => Err(err),
                    }
                } else {
                    self.stage = DeployStage::Complete;
                    Err(e)
                }
            },
            StageInput::Succeeded => match self.stage {
                DeployStage::Infra => {
                    if build {
                        self.stage = DeployStage::Build;
                        Ok(
                            StepNext::Run(
                                DeployAction::RunPlaybook {
                                    banner: RunBanner {
                                        n: 1,
                                        total,
                                        title: String::from_str("Build Custom Binaries"),
                                    },
                                    run: self.cmd.build_safe_network_binaries(),
                                },
                            ),
                        )
                    } else {
                        self.stage = DeployStage::Genesis;
                        Ok(
                            StepNext::Run(
                                DeployAction::RunPlaybook {
                                    banner: RunBanner {
                                        n: 1,
                                        total,
                                        title: String::from_str("Provision Genesis Node"),
                                    },
                                    run: self.cmd.provision_genesis_node(),
                                },
                            ),
                        )
                    }
                },
                DeployStage::Build => {
                    self.stage = DeployStage::Genesis;
                    Ok(
                        StepNext::Run(
                            DeployAction::RunPlaybook {
                                banner: RunBanner {
                                    n: 2,
                                    total,
                                    title: String::from_str("Provision Genesis Node"),
                                },
                                run: self.cmd.provision_genesis_node(),
                            },
                        ),
                    )
                },
                DeployStage::Genesis => {
                    self.stage = DeployStage::Multiaddr;
                    Ok(
                        StepNext::Run(
                            DeployAction::GetGenesisMultiaddr { name: self.cmd.name.clone() },
                        ),
                    )
                },
                DeployStage::Nodes => {
                    self.stage = DeployStage::Faucet;
                    let addr = match &self.genesis_multiaddr {
                        Some(a) => a.as_str(),
                        None => "",
                    };
                    match self.cmd.provision_faucet(addr) {
                        Ok(run) => Ok(
                            StepNext::Run(
                                DeployAction::RunPlaybook {
                                    banner: RunBanner {
                                        n: total - 1,
                                        total,
                                        title: String::from_str("Deploy Faucet"),
                                    },
                                    run,
                                },
                            ),
                        ),
                        Err(err) => Err(err),
                    }
                },
                DeployStage::Faucet => {
                    self.stage = DeployStage::RpcClient;
                    let addr = match &self.genesis_multiaddr {
                        Some(a) => a.as_str(),
                        None => "",
                    };
                    match self.cmd.provision_safenode_rpc_client(addr) {
                        Ok(run) => Ok(
                            StepNext::Run(
                                DeployAction::RunPlaybook {
                                    banner: RunBanner {
                                        n: total,
                                        total,
                                        title: String::from_str(
                                            "Provision RPC Client on Genesis Node",
                                        ),
                                    },
                                    run,
                                },
                            ),
                        ),
                        Err(err) => Err(err),
                    }
                },
                DeployStage::RpcClient => {
                    self.stage = DeployStage::Inventory;
                    Ok(
                        StepNext::Run(
                            DeployAction::ListInventory {
                                name: self.cmd.name.clone(),
                                node_count: self.cmd.node_count,
                            },
                        ),
                    )
                },
                DeployStage::Inventory => {
                    self.stage = DeployStage::Complete;
                    Ok(StepNext::Done { node_provision_failed: self.node_provision_failed })
                },
                _ => {
                    proof {
                        assert(false);
                    }
                    Err(Error::PlaybookRunError)
                },
            },
            StageInput::Multiaddr(addr) => {
                if addr.as_str().is_empty() {
                    self.stage = DeployStage::Complete;
                    Err(Error::GenesisMultiAddrNotSupplied)
                } else {
                    self.stage = DeployStage::Nodes;
                    self.genesis_multiaddr = Some(addr);
                    let gm = match &self.genesis_multiaddr {
                        Some(a) => a.as_str(),
                        None => "",
                    };
                    match self.cmd.provision_remaining_nodes(gm) {
                        Ok(run) => Ok(
                            StepNext::Run(
                                DeployAction::RunPlaybook {
                                    banner: RunBanner {
                                        n: total - 2,
                                        total,
                                        title: String::from_str("Provision Remaining Nodes"),
                                    },
                                    run,
                                },
                            ),
                        ),
                        Err(err) => Err(err),
                    }
                }
            },
        }
    }
}

/// A failure of the remaining-node stage does not abort the pipeline: the
/// step still plans the faucet run, and only the partial-failure flag is
/// set.
pub proof fn lemma_node_stage_soft_fails(
    pre: DeployRun,
    e: Error,
    post: DeployRun,
    r: Result<StepNext, Error>,
)
    requires
        pre.stage == DeployStage::Nodes,
        DeployRun::spec_step(pre, StageInput::Failed(e), post, r),
    ensures
        r is Ok,
        post.node_provision_failed,
        post.stage == DeployStage::Faucet,
{
}

/// A failure of any stage other than the remaining-node stage aborts the
/// pipeline with that stage's error.
pub proof fn lemma_other_stage_failure_is_fatal(
    pre: DeployRun,
    e: Error,
    post: DeployRun,
    r: Result<StepNext, Error>,
)
    requires
        pre.stage != DeployStage::Nodes,
        DeployRun::spec_step(pre, StageInput::Failed(e), post, r),
    ensures
        r == Err::<StepNext, Error>(e),
        post.stage == DeployStage::Complete,
{
}

/// The completed pipeline's outcome reports the partial-failure flag as it
/// stood, and nothing downstream can change it: the warning the driver
/// prints from it appears exactly when the remaining-node stage failed.
pub proof fn lemma_outcome_reports_node_failure(
    pre: DeployRun,
    post: DeployRun,
    r: Result<StepNext, Error>,
)
    requires
        pre.stage == DeployStage::Inventory,
        DeployRun::spec_step(pre, StageInput::Succeeded, post, r),
    ensures
        r == Ok::<StepNext, Error>(
            StepNext::Done { node_provision_failed: pre.node_provision_failed },
        ),
{
}

/// The text of the warning the driver emits once when the remaining-node
/// stage soft-failed.
pub fn node_provision_warning() -> (r: String)
    ensures
        r@ == "Some nodes failed to provision without error."@,
{
    String::from_str("Some nodes failed to provision without error.")
}

} // verus!
