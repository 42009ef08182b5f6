use testnet_deploy::codebase::SnCodebaseType;
use testnet_deploy::deploy::DeployCmd;
use testnet_deploy::error::Error;

fn versioned_cmd() -> DeployCmd {
    DeployCmd::new(
        String::from("digital_ocean"),
        String::from("beta"),
        30,
        10,
        false,
        None,
        SnCodebaseType::Versioned { safenode_version: String::from("1.2.3") },
        None,
    )
}

fn branch_cmd() -> DeployCmd {
    DeployCmd::new(
        String::from("digital_ocean"),
        String::from("net1"),
        30,
        10,
        false,
        None,
        SnCodebaseType::Branch {
            repo_owner: String::from("owner"),
            branch: String::from("feat"),
            safenode_features: None,
        },
        None,
    )
}

#[test]
fn binaries_doc_main_without_features_is_minimal() {
    let cmd = DeployCmd::new(
        String::from("digital_ocean"),
        String::from("beta"),
        30,
        10,
        false,
        None,
        SnCodebaseType::Main { safenode_features: None },
        None,
    );
    let doc = cmd.build_binaries_extra_vars_doc();
    assert_eq!(doc, "{ \"custom_bin\": \"false\" }");
}

#[test]
fn binaries_doc_main_with_features_names_default_source() {
    let cmd = DeployCmd::new(
        String::from("digital_ocean"),
        String::from("beta"),
        30,
        10,
        false,
        None,
        SnCodebaseType::Main { safenode_features: Some(String::from("verify,metrics")) },
        None,
    );
    let doc = cmd.build_binaries_extra_vars_doc();
    assert_eq!(
        doc,
        "{ \"custom_bin\": \"true\", \"testnet_name\": \"beta\", \"org\": \"maidsafe\", \
         \"branch\": \"main\", \"safenode_features_list\": \"verify,metrics\" }"
    );
}

#[test]
fn binaries_doc_branch_names_owner_and_branch() {
    let doc = branch_cmd().build_binaries_extra_vars_doc();
    assert_eq!(
        doc,
        "{ \"custom_bin\": \"true\", \"testnet_name\": \"net1\", \"org\": \"owner\", \
         \"branch\": \"feat\" }"
    );
}

#[test]
fn node_doc_versioned_exact_text() {
    let cmd = versioned_cmd();
    let doc = cmd
        .build_node_extra_vars_doc(Some(String::from("/ip4/10.0.0.1/tcp/12000")), Some(25))
        .unwrap();
    assert_eq!(
        doc,
        "{ \"provider\": \"digital_ocean\", \"testnet_name\": \"beta\", \
         \"genesis_multiaddr\": \"/ip4/10.0.0.1/tcp/12000\", \
         \"node_instance_count\": \"25\", \"version\": \"1.2.3\", \
         \"node_manager_archive_url\": \"https://sn-node-manager.s3.eu-west-2.amazonaws.com/safenode-manager-latest-x86_64-unknown-linux-musl.tar.gz\", \
         \"node_manager_daemon_archive_url\": \"https://sn-node-manager.s3.eu-west-2.amazonaws.com/safenode-manager-daemon-latest-x86_64-unknown-linux-musl.tar.gz\" }"
    );
}

#[test]
fn node_doc_versioned_has_version_and_no_archive_url() {
    let cmd = versioned_cmd();
    let doc = cmd
        .build_node_extra_vars_doc(Some(String::from("/ip4/10.0.0.1/tcp/12000")), Some(25))
        .unwrap();
    assert!(doc.contains("\"version\": \"1.2.3\""));
    assert!(!doc.contains("node_archive_url"));
}

#[test]
fn node_doc_without_genesis_address_omits_the_key() {
    let cmd = versioned_cmd();
    let doc = cmd.build_node_extra_vars_doc(None, None).unwrap();
    assert!(!doc.contains("genesis_multiaddr"));
    let with = cmd
        .build_node_extra_vars_doc(Some(String::from("/ip4/10.0.0.1/tcp/12000")), None)
        .unwrap();
    assert!(with.contains("\"genesis_multiaddr\": \"/ip4/10.0.0.1/tcp/12000\""));
}

#[test]
fn node_doc_with_empty_genesis_address_is_rejected() {
    let cmd = versioned_cmd();
    let r = cmd.build_node_extra_vars_doc(Some(String::new()), None);
    assert_eq!(r.unwrap_err(), Error::GenesisMultiAddrNotSupplied);
}

#[test]
fn node_doc_branch_scopes_every_archive_url() {
    let cmd = branch_cmd();
    let doc = cmd
        .build_node_extra_vars_doc(Some(String::from("/ip4/10.0.0.1/tcp/12000")), Some(30))
        .unwrap();
    assert!(doc.contains(
        "\"node_archive_url\": \"https://sn-node.s3.eu-west-2.amazonaws.com/owner/feat/safenode-net1-x86_64-unknown-linux-musl.tar.gz\""
    ));
    assert!(doc.contains(
        "\"node_manager_archive_url\": \"https://sn-node.s3.eu-west-2.amazonaws.com/owner/feat/safenode-manager-net1-x86_64-unknown-linux-musl.tar.gz\""
    ));
    assert!(doc.contains(
        "\"node_manager_daemon_archive_url\": \"https://sn-node.s3.eu-west-2.amazonaws.com/owner/feat/safenode-manager-daemon-net1-x86_64-unknown-linux-musl.tar.gz\""
    ));
    assert!(doc.contains("\"org\": \"owner\""));
    assert!(doc.contains("\"branch\": \"feat\""));
}

#[test]
fn node_doc_env_vars_and_logstash_render() {
    let cmd = DeployCmd::new(
        String::from("digital_ocean"),
        String::from("beta"),
        30,
        10,
        true,
        Some((
            String::from("main-stack"),
            vec![String::from("10.0.0.5:5044"), String::from("10.0.0.6:5044")],
        )),
        SnCodebaseType::Versioned { safenode_version: String::from("1.2.3") },
        Some(vec![
            (String::from("RUST_LOG"), String::from("debug")),
            (String::from("KEEP"), String::from("1")),
        ]),
    );
    let doc = cmd.build_node_extra_vars_doc(None, None).unwrap();
    assert!(doc.contains("\"public_rpc\": \"true\""));
    assert!(doc.contains("\"env_variables\": \"RUST_LOG=debug,KEEP=1\""));
    assert!(doc.contains("\"logstash_stack_name\": \"main-stack\""));
    assert!(doc.contains("\"logstash_hosts\": [\"10.0.0.5:5044\", \"10.0.0.6:5044\"]"));
}

#[test]
fn no_doc_carries_a_trailing_separator() {
    let cmd = branch_cmd();
    let docs = vec![
        cmd.build_binaries_extra_vars_doc(),
        cmd.build_node_extra_vars_doc(None, None).unwrap(),
        cmd.build_node_extra_vars_doc(Some(String::from("/ip4/1.2.3.4/tcp/1")), Some(5)).unwrap(),
        cmd.build_faucet_extra_vars_doc("/ip4/1.2.3.4/tcp/1").unwrap(),
        cmd.build_safenode_rpc_client_extra_vars_doc("/ip4/1.2.3.4/tcp/1").unwrap(),
    ];
    for doc in docs {
        assert!(doc.ends_with(" }"));
        assert!(!doc.ends_with(", }"));
        assert!(!doc.contains(", }"));
    }
}

#[test]
fn faucet_doc_requires_nonempty_genesis_address() {
    let cmd = versioned_cmd();
    assert_eq!(
        cmd.build_faucet_extra_vars_doc("").unwrap_err(),
        Error::GenesisMultiAddrNotSupplied
    );
    let doc = cmd.build_faucet_extra_vars_doc("/ip4/10.0.0.1/tcp/12000").unwrap();
    assert!(doc.contains("\"genesis_multiaddr\": \"/ip4/10.0.0.1/tcp/12000\""));
    assert!(doc.contains(
        "\"faucet_archive_url\": \"https://sn-faucet.s3.eu-west-2.amazonaws.com/faucet-latest-x86_64-unknown-linux-musl.tar.gz\""
    ));
}

#[test]
fn rpc_client_doc_requires_nonempty_genesis_address() {
    let cmd = branch_cmd();
    assert_eq!(
        cmd.build_safenode_rpc_client_extra_vars_doc("").unwrap_err(),
        Error::GenesisMultiAddrNotSupplied
    );
    let doc = cmd.build_safenode_rpc_client_extra_vars_doc("/ip4/10.0.0.1/tcp/12000").unwrap();
    assert!(doc.contains(
        "\"safenode_rpc_client_archive_url\": \"https://sn-node.s3.eu-west-2.amazonaws.com/owner/feat/safenode_rpc_client-net1-x86_64-unknown-linux-musl.tar.gz\""
    ));
}
