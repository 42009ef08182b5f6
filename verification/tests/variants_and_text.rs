use testnet_deploy::codebase::branch_url;
use testnet_deploy::codebase::SnCodebaseType;
use testnet_deploy::pipeline::inventory_path;
use testnet_deploy::text::str_contains;
use testnet_deploy::text::u64_to_string;

#[test]
fn build_required_follows_the_variant() {
    assert!(!SnCodebaseType::Main { safenode_features: None }.build_required());
    assert!(
        SnCodebaseType::Main { safenode_features: Some(String::from("metrics")) }.build_required()
    );
    assert!(SnCodebaseType::Branch {
        repo_owner: String::from("owner"),
        branch: String::from("feat"),
        safenode_features: None,
    }
    .build_required());
    assert!(!SnCodebaseType::Versioned { safenode_version: String::from("1.2.3") }
        .build_required());
}

#[test]
fn branch_url_is_owner_and_branch_scoped() {
    let url = branch_url("safenode", "owner", "feat", "net1");
    assert_eq!(
        url,
        "https://sn-node.s3.eu-west-2.amazonaws.com/owner/feat/safenode-net1-x86_64-unknown-linux-musl.tar.gz"
    );
    assert!(url.contains("owner/feat"));
    assert!(url.ends_with("safenode-net1-x86_64-unknown-linux-musl.tar.gz"));
}

#[test]
fn branch_url_shape_holds_for_each_artifact() {
    for artifact in ["safenode", "safenode-manager", "safenode-manager-daemon", "faucet"] {
        let url = branch_url(artifact, "o", "b", "n");
        assert!(url.contains("o/b"));
        assert!(url.ends_with(&format!("{}-n-x86_64-unknown-linux-musl.tar.gz", artifact)));
    }
}

#[test]
fn decimal_rendering_is_exact() {
    assert_eq!(u64_to_string(0), "0");
    assert_eq!(u64_to_string(7), "7");
    assert_eq!(u64_to_string(20), "20");
    assert_eq!(u64_to_string(65535), "65535");
    assert_eq!(u64_to_string(1000001), "1000001");
}

#[test]
fn substring_search_matches_std() {
    assert!(str_contains("beta-node-12", "beta-node-1"));
    assert!(str_contains("abc", ""));
    assert!(!str_contains("", "a"));
    assert!(!str_contains("beta-node-2", "beta-node-3"));
    assert!(str_contains("xxabxabc", "abc"));
}

#[test]
fn inventory_paths_follow_the_naming_convention() {
    assert_eq!(
        inventory_path("beta", "genesis", "digital_ocean"),
        "inventory/.beta_genesis_inventory_digital_ocean.yml"
    );
    assert_eq!(
        inventory_path("net1", "build", "digital_ocean"),
        "inventory/.net1_build_inventory_digital_ocean.yml"
    );
    assert_eq!(
        inventory_path("net1", "node", "digital_ocean"),
        "inventory/.net1_node_inventory_digital_ocean.yml"
    );
}
