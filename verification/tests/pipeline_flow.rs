use testnet_deploy::codebase::SnCodebaseType;
use testnet_deploy::deploy::DeployCmd;
use testnet_deploy::error::Error;
use testnet_deploy::pipeline::node_provision_warning;
use testnet_deploy::pipeline::DeployAction;
use testnet_deploy::pipeline::DeployRun;
use testnet_deploy::pipeline::StageInput;
use testnet_deploy::pipeline::StepNext;

fn versioned_cmd() -> DeployCmd {
    DeployCmd::new(
        String::from("digital_ocean"),
        String::from("beta"),
        30,
        12,
        false,
        None,
        SnCodebaseType::Versioned { safenode_version: String::from("1.2.3") },
        None,
    )
}

fn branch_cmd() -> DeployCmd {
    DeployCmd::new(
        String::from("digital_ocean"),
        String::from("net1"),
        30,
        12,
        false,
        None,
        SnCodebaseType::Branch {
            repo_owner: String::from("owner"),
            branch: String::from("feat"),
            safenode_features: None,
        },
        None,
    )
}

fn expect_playbook(next: Result<StepNext, Error>, n: u16, total: u16, title: &str) -> String {
    match next.unwrap() {
        StepNext::Run(DeployAction::RunPlaybook { banner, run }) => {
            assert_eq!(banner.n, n);
            assert_eq!(banner.total, total);
            assert_eq!(banner.title, title);
            run.playbook
        }
        other => panic!("expected a playbook run, got {:?}", other),
    }
}

#[test]
fn versioned_pipeline_runs_four_numbered_stages() {
    let (mut run, first) = DeployRun::start(versioned_cmd());
    match first {
        DeployAction::CreateInfra { workspace, args } => {
            assert_eq!(workspace, "beta");
            assert_eq!(args.len(), 2);
            assert_eq!(args[0].0, "node_count");
            assert_eq!(args[0].1, "12");
            assert_eq!(args[1].0, "use_custom_bin");
            assert_eq!(args[1].1, "false");
        }
        other => panic!("expected infra creation, got {:?}", other),
    }
    let p = expect_playbook(run.step(StageInput::Succeeded), 1, 4, "Provision Genesis Node");
    assert_eq!(p, "genesis_node.yml");
    match run.step(StageInput::Succeeded).unwrap() {
        StepNext::Run(DeployAction::GetGenesisMultiaddr { name }) => {
            assert_eq!(name, "beta");
        }
        other => panic!("expected address discovery, got {:?}", other),
    }
    let p = expect_playbook(
        run.step(StageInput::Multiaddr(String::from("/ip4/10.0.0.1/tcp/12000"))),
        2,
        4,
        "Provision Remaining Nodes",
    );
    assert_eq!(p, "nodes.yml");
    let p = expect_playbook(run.step(StageInput::Succeeded), 3, 4, "Deploy Faucet");
    assert_eq!(p, "faucet.yml");
    let p = expect_playbook(
        run.step(StageInput::Succeeded),
        4,
        4,
        "Provision RPC Client on Genesis Node",
    );
    assert_eq!(p, "safenode_rpc_client.yml");
    match run.step(StageInput::Succeeded).unwrap() {
        StepNext::Run(DeployAction::ListInventory { name, node_count }) => {
            assert_eq!(name, "beta");
            assert_eq!(node_count, 30);
        }
        other => panic!("expected inventory listing, got {:?}", other),
    }
    match run.step(StageInput::Succeeded).unwrap() {
        StepNext::Done { node_provision_failed } => assert!(!node_provision_failed),
        other => panic!("expected completion, got {:?}", other),
    }
}

#[test]
fn branch_pipeline_builds_first_as_stage_one_of_five() {
    let (mut run, _) = DeployRun::start(branch_cmd());
    let p = expect_playbook(run.step(StageInput::Succeeded), 1, 5, "Build Custom Binaries");
    assert_eq!(p, "build.yml");
    let p = expect_playbook(run.step(StageInput::Succeeded), 2, 5, "Provision Genesis Node");
    assert_eq!(p, "genesis_node.yml");
}

#[test]
fn node_stage_failure_is_soft_and_warned_once() {
    let (mut run, _) = DeployRun::start(versioned_cmd());
    run.step(StageInput::Succeeded).unwrap();
    run.step(StageInput::Succeeded).unwrap();
    run.step(StageInput::Multiaddr(String::from("/ip4/10.0.0.1/tcp/12000"))).unwrap();
    // The remaining-node run fails; the pipeline must continue regardless.
    let next = run.step(StageInput::Failed(Error::PlaybookRunError));
    let p = match next.unwrap() {
        StepNext::Run(DeployAction::RunPlaybook { banner, run }) => {
            assert_eq!(banner.title, "Deploy Faucet");
            run.playbook
        }
        other => panic!("expected the faucet run, got {:?}", other),
    };
    assert_eq!(p, "faucet.yml");
    run.step(StageInput::Succeeded).unwrap();
    run.step(StageInput::Succeeded).unwrap();
    let mut warnings = 0;
    match run.step(StageInput::Succeeded).unwrap() {
        StepNext::Done { node_provision_failed } => {
            assert!(node_provision_failed);
            if node_provision_failed {
                warnings += 1;
            }
        }
        other => panic!("expected completion, got {:?}", other),
    }
    assert_eq!(warnings, 1);
    assert_eq!(node_provision_warning(), "Some nodes failed to provision without error.");
}

#[test]
fn genesis_stage_failure_is_fatal() {
    let (mut run, _) = DeployRun::start(versioned_cmd());
    run.step(StageInput::Succeeded).unwrap();
    let r = run.step(StageInput::Failed(Error::PlaybookRunError));
    assert_eq!(r.unwrap_err(), Error::PlaybookRunError);
}

#[test]
fn infra_stage_failure_is_fatal() {
    let (mut run, _) = DeployRun::start(versioned_cmd());
    let r = run.step(StageInput::Failed(Error::InfraError));
    assert_eq!(r.unwrap_err(), Error::InfraError);
}

#[test]
fn empty_genesis_multiaddr_aborts_the_pipeline() {
    let (mut run, _) = DeployRun::start(versioned_cmd());
    run.step(StageInput::Succeeded).unwrap();
    run.step(StageInput::Succeeded).unwrap();
    let r = run.step(StageInput::Multiaddr(String::new()));
    assert_eq!(r.unwrap_err(), Error::GenesisMultiAddrNotSupplied);
}

#[test]
fn genesis_run_targets_genesis_inventory_and_waits_for_ssh() {
    let (mut run, _) = DeployRun::start(versioned_cmd());
    match run.step(StageInput::Succeeded).unwrap() {
        StepNext::Run(DeployAction::RunPlaybook { banner: _, run }) => {
            assert_eq!(run.inventory_path, "inventory/.beta_genesis_inventory_digital_ocean.yml");
            assert!(run.wait_ssh);
            let doc = run.extra_vars.unwrap();
            assert!(!doc.contains("genesis_multiaddr"));
            assert!(!doc.contains("node_instance_count"));
        }
        other => panic!("expected the genesis run, got {:?}", other),
    }
}

#[test]
fn nodes_run_passes_address_and_count() {
    let (mut run, _) = DeployRun::start(versioned_cmd());
    run.step(StageInput::Succeeded).unwrap();
    run.step(StageInput::Succeeded).unwrap();
    match run.step(StageInput::Multiaddr(String::from("/ip4/10.0.0.1/tcp/12000"))).unwrap() {
        StepNext::Run(DeployAction::RunPlaybook { banner: _, run }) => {
            assert_eq!(run.inventory_path, "inventory/.beta_node_inventory_digital_ocean.yml");
            assert!(!run.wait_ssh);
            let doc = run.extra_vars.unwrap();
            assert!(doc.contains("\"genesis_multiaddr\": \"/ip4/10.0.0.1/tcp/12000\""));
            assert!(doc.contains("\"node_instance_count\": \"30\""));
        }
        other => panic!("expected the remaining-node run, got {:?}", other),
    }
}
