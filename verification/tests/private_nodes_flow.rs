use testnet_deploy::error::AnsibleInventoryType;
use testnet_deploy::error::Error;
use testnet_deploy::inventory::DeploymentInventory;
use testnet_deploy::inventory::DeploymentType;
use testnet_deploy::inventory::EnvironmentDetails;
use testnet_deploy::inventory::EnvironmentType;
use testnet_deploy::inventory::VirtualMachine;
use testnet_deploy::private_nodes::select_private_node_host;
use testnet_deploy::private_nodes::PrivateNodeAction;
use testnet_deploy::private_nodes::PrivateNodeInput;
use testnet_deploy::private_nodes::PrivateNodeNext;
use testnet_deploy::private_nodes::PrivateNodeOptions;
use testnet_deploy::private_nodes::PrivateNodeSetup;

fn vm(name: &str, public_ip: &str, private_ip: &str) -> VirtualMachine {
    VirtualMachine {
        name: String::from(name),
        public_ip_addr: String::from(public_ip),
        private_ip_addr: String::from(private_ip),
    }
}

fn snapshot(node_vms: Vec<VirtualMachine>) -> DeploymentInventory {
    DeploymentInventory {
        name: String::from("beta"),
        environment_details: EnvironmentDetails {
            deployment_type: DeploymentType::New,
            environment_type: EnvironmentType::Development,
        },
        auditor_vms: vec![vm("beta-auditor-1", "1.1.1.1", "10.0.0.11")],
        bootstrap_node_vms: vec![],
        node_vms,
        uploader_vms: vec![vm("beta-uploader-1", "1.1.1.2", "10.0.0.12")],
    }
}

fn three_nodes() -> Vec<VirtualMachine> {
    vec![
        vm("beta-node-1", "2.2.2.1", "10.0.1.1"),
        vm("beta-node-2", "2.2.2.2", "10.0.1.2"),
        vm("beta-node-3", "2.2.2.3", "10.0.1.3"),
    ]
}

#[test]
fn infra_update_derives_counts_from_the_snapshot() {
    let options =
        PrivateNodeOptions { ansible_verbose: false, current_inventory: snapshot(three_nodes()) };
    let (_, action) = PrivateNodeSetup::start(options);
    match action {
        PrivateNodeAction::UpdateInfra(u) => {
            assert_eq!(u.name, "beta");
            assert_eq!(u.additional_vm_count, 1);
            assert_eq!(u.auditor_vm_count, 1);
            assert_eq!(u.bootstrap_vm_count, 0);
            assert_eq!(u.node_vm_count, 3);
            assert_eq!(u.uploader_vm_count, 1);
            assert!(!u.enable_build_vm);
            assert!(u.enable_private_node_vm);
            assert_eq!(u.tfvars_filename, "development.tfvars");
        }
        other => panic!("expected the infra update, got {:?}", other),
    }
}

#[test]
fn bootstrap_snapshot_adds_no_extra_unit() {
    let mut inv = snapshot(three_nodes());
    inv.environment_details.deployment_type = DeploymentType::Bootstrap;
    inv.environment_details.environment_type = EnvironmentType::Production;
    let options = PrivateNodeOptions { ansible_verbose: true, current_inventory: inv };
    let (_, action) = PrivateNodeSetup::start(options);
    match action {
        PrivateNodeAction::UpdateInfra(u) => {
            assert_eq!(u.additional_vm_count, 0);
            assert_eq!(u.tfvars_filename, "production.tfvars");
        }
        other => panic!("expected the infra update, got {:?}", other),
    }
}

#[test]
fn empty_node_group_fails_before_any_nat_gateway_stage() {
    let options =
        PrivateNodeOptions { ansible_verbose: false, current_inventory: snapshot(vec![]) };
    let (mut setup, _) = PrivateNodeSetup::start(options);
    let r = setup.step(PrivateNodeInput::Succeeded);
    assert_eq!(r.unwrap_err(), Error::EmptyInventory(AnsibleInventoryType::Nodes));
}

#[test]
fn last_node_is_selected_by_name_fragment() {
    let inv = snapshot(three_nodes());
    let host = select_private_node_host(&inv).unwrap();
    assert_eq!(host.name, "beta-node-3");
    assert_eq!(host.private_ip_addr, "10.0.1.3");
}

#[test]
fn selection_fails_when_no_name_matches() {
    // Two entries, but none named `beta-node-2`.
    let inv = snapshot(vec![
        vm("beta-node-1", "2.2.2.1", "10.0.1.1"),
        vm("beta-node-9", "2.2.2.9", "10.0.1.9"),
    ]);
    let r = select_private_node_host(&inv);
    assert_eq!(r.unwrap_err(), Error::EmptyInventory(AnsibleInventoryType::Nodes));
}

#[test]
fn full_sub_pipeline_sequences_gateway_then_private_nodes() {
    let options =
        PrivateNodeOptions { ansible_verbose: false, current_inventory: snapshot(three_nodes()) };
    let (mut setup, _) = PrivateNodeSetup::start(options);
    match setup.step(PrivateNodeInput::Succeeded).unwrap() {
        PrivateNodeNext::Run(PrivateNodeAction::ProvisionNatGateway {
            banner,
            name,
            private_ip_addr,
        }) => {
            assert_eq!(banner.n, 2);
            assert_eq!(banner.total, 4);
            assert_eq!(banner.title, "Provision NAT Gateway");
            assert_eq!(name, "beta");
            assert_eq!(private_ip_addr, "10.0.1.3");
        }
        other => panic!("expected the NAT gateway run, got {:?}", other),
    }
    match setup.step(PrivateNodeInput::Succeeded).unwrap() {
        PrivateNodeNext::Run(PrivateNodeAction::GetNatGatewayInventory { banner }) => {
            assert_eq!(banner.n, 3);
            assert_eq!(banner.title, "Get NAT Gateway inventory");
        }
        other => panic!("expected the inventory fetch, got {:?}", other),
    }
    let gateway = vec![vm("beta-nat-gateway-1", "3.3.3.1", "10.0.2.1")];
    match setup.step(PrivateNodeInput::Inventory(gateway)).unwrap() {
        PrivateNodeNext::Run(PrivateNodeAction::ProvisionPrivateNodes {
            banner,
            name,
            host,
            nat_gateway,
        }) => {
            assert_eq!(banner.n, 4);
            assert_eq!(banner.title, "Provision Private Nodes on the last VM");
            assert_eq!(name, "beta");
            assert_eq!(host.name, "beta-node-3");
            assert_eq!(nat_gateway.name, "beta-nat-gateway-1");
        }
        other => panic!("expected the private-node run, got {:?}", other),
    }
    match setup.step(PrivateNodeInput::Succeeded).unwrap() {
        PrivateNodeNext::Done => {}
        other => panic!("expected completion, got {:?}", other),
    }
}

#[test]
fn empty_gateway_inventory_is_fatal() {
    let options =
        PrivateNodeOptions { ansible_verbose: false, current_inventory: snapshot(three_nodes()) };
    let (mut setup, _) = PrivateNodeSetup::start(options);
    setup.step(PrivateNodeInput::Succeeded).unwrap();
    setup.step(PrivateNodeInput::Succeeded).unwrap();
    let r = setup.step(PrivateNodeInput::Inventory(vec![]));
    assert_eq!(r.unwrap_err(), Error::EmptyInventory(AnsibleInventoryType::NatGateway));
}

#[test]
fn sub_pipeline_failures_are_fatal() {
    let options =
        PrivateNodeOptions { ansible_verbose: false, current_inventory: snapshot(three_nodes()) };
    let (mut setup, _) = PrivateNodeSetup::start(options);
    setup.step(PrivateNodeInput::Succeeded).unwrap();
    let r = setup.step(PrivateNodeInput::Failed(Error::PlaybookRunError));
    assert_eq!(r.unwrap_err(), Error::PlaybookRunError);
}
