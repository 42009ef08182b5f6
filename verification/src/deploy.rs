//! The deployment configuration and the per-stage extra-vars documents
//! derived from it.
//!
//! A `DeployCmd` is created once per deployment invocation and is read-only
//! for the pipeline's duration. Each stage builds its configuration document
//! fresh from it; the exact entry list of every document is pinned by the
//! spec functions here.

use vstd::prelude::*;
use vstd::string::StringExecFns;

use crate::codebase::spec_branch_url;
use crate::codebase::branch_url;
use crate::codebase::SnCodebaseType;
use crate::error::Error;
use crate::extra_vars::spec_render_doc;
use crate::extra_vars::ExtraVarsDocBuilder;
use crate::extra_vars::VarEntry;
use crate::extra_vars::VarValue;
use crate::text::spec_dec_digits;
use crate::text::u64_to_string;

verus! {

/// A scalar entry of an extra-vars document.
pub open spec fn sv(key: Seq<char>, value: Seq<char>) -> VarEntry {
    VarEntry { key, value: VarValue::Scalar(value) }
}

/// The configuration of one deployment: its namespacing name, the requested
/// node and VM counts, whether RPC is publicly reachable, the optional
/// log-shipping target, the active codebase variant, and any environment
/// variables to inject into deployed processes.
pub struct DeployCmd {
    pub provider: String,
    pub name: String,
    pub node_count: u16,
    pub vm_count: u16,
    pub public_rpc: bool,
    pub logstash_details: Option<(String, Vec<String>)>,
    pub sn_codebase_type: SnCodebaseType,
    pub env_variables: Option<Vec<(String, String)>>,
}

/// The `key=value` pairs joined with `,`.
pub open spec fn spec_env_pairs_joined(vars: Seq<(String, String)>) -> Seq<char>
    decreases vars.len(),
{
    if vars.len() == 0 {
        Seq::empty()
    } else if vars.len() == 1 {
        vars[0].0@ + "="@ + vars[0].1@
    } else {
        spec_env_pairs_joined(vars.drop_last()) + ","@ + vars.last().0@ + "="@ + vars.last().1@
    }
}

fn env_pairs_joined(vars: &Vec<(String, String)>) -> (r: String)
    ensures
        r@ == spec_env_pairs_joined(vars@),
{
    let mut acc = String::new();
    let mut i: usize = 0;
    while i < vars.len()
        invariant
            i <= vars.len(),
            acc@ == spec_env_pairs_joined(vars@.subrange(0, i as int)),
        decreases vars.len() - i,
    {
        if i > 0 {
            acc.append(",");
        }
        acc.append(vars[i].0.as_str());
        acc.append("=");
        acc.append(vars[i].1.as_str());
        proof {
            assert(vars@.subrange(0, i + 1).drop_last() =~= vars@.subrange(0, i as int));
            assert(vars@.subrange(0, i + 1).last() == vars@[i as int]);
            assert(acc@ =~= spec_env_pairs_joined(vars@.subrange(0, i + 1)));
        }
        i = i + 1;
    }
    proof {
        assert(vars@.subrange(0, vars@.len() as int) =~= vars@);
    }
    acc
}

/// The entries of the build-stage document: whether a custom binary is
/// built, and if so from which source, with which feature flags.
pub open spec fn spec_binaries_doc_entries(c: SnCodebaseType, name: Seq<char>) -> Seq<VarEntry> {
    match c {
        SnCodebaseType::Main { safenode_features } => match safenode_features {
            Some(features) => seq![
                sv("custom_bin"@, "true"@),
                sv("testnet_name"@, name),
                sv("org"@, "maidsafe"@),
                sv("branch"@, "main"@),
                sv("safenode_features_list"@, features@),
            ],
            None => seq![sv("custom_bin"@, "false"@)],
        },
        SnCodebaseType::Branch { repo_owner, branch, safenode_features } => {
            let head = seq![
                sv("custom_bin"@, "true"@),
                sv("testnet_name"@, name),
                sv("org"@, repo_owner@),
                sv("branch"@, branch@),
            ];
            match safenode_features {
                Some(features) => head + seq![sv("safenode_features_list"@, features@)],
                None => head,
            }
        },
        SnCodebaseType::Versioned { .. } => seq![sv("custom_bin"@, "false"@)],
    }
}

/// The view of an optional owned string.
pub open spec fn view_opt(o: Option<String>) -> Option<Seq<char>> {
    match o {
        Some(s) => Some(s@),
        None => None,
    }
}

/// The leading entries of a node-stage document: provider, deployment name,
/// then the genesis address, instance count and public-RPC flag where they
/// apply.
pub open spec fn spec_node_doc_head(
    cmd: DeployCmd,
    genesis_multiaddr: Option<Seq<char>>,
    node_instance_count: Option<u16>,
) -> Seq<VarEntry> {
    seq![sv("provider"@, cmd.provider@), sv("testnet_name"@, cmd.name@)] + (
    match genesis_multiaddr {
        Some(addr) => seq![sv("genesis_multiaddr"@, addr)],
        None => Seq::empty(),
    }) + (match node_instance_count {
        Some(c) => seq![sv("node_instance_count"@, spec_dec_digits(c as nat))],
        None => Seq::empty(),
    }) + (if cmd.public_rpc {
        seq![sv("public_rpc"@, "true"@)]
    } else {
        Seq::empty()
    })
}

/// The artifact locator of a node-stage document: exactly one of
/// `node_archive_url` (pre-built or branch builds) or `version` (fixed
/// versions).
pub open spec fn spec_node_archive_entries(c: SnCodebaseType, name: Seq<char>) -> Seq<VarEntry> {
    match c {
        SnCodebaseType::Main { safenode_features } => {
            if safenode_features is Some {
                seq![
                    sv(
                        "node_archive_url"@,
                        spec_branch_url("safenode"@, "maidsafe"@, "main"@, name),
                    ),
                ]
            } else {
                seq![
                    sv(
                        "node_archive_url"@,
                        "https://sn-node.s3.eu-west-2.amazonaws.com/safenode-latest-x86_64-unknown-linux-musl.tar.gz"@,
                    ),
                ]
            }
        },
        SnCodebaseType::Branch { repo_owner, branch, .. } => {
            seq![
                sv("node_archive_url"@, spec_branch_url("safenode"@, repo_owner@, branch@, name)),
            ]
        },
        SnCodebaseType::Versioned { safenode_version } => {
            seq![sv("version"@, safenode_version@)]
        },
    }
}

/// The node-manager locator: branch-scoped (with its `branch`/`org` keys)
/// for branch builds, the fixed latest archive otherwise.
pub open spec fn spec_node_manager_entries(c: SnCodebaseType, name: Seq<char>) -> Seq<VarEntry> {
    match c {
        SnCodebaseType::Branch { repo_owner, branch, .. } => {
            seq![
                sv("branch"@, branch@),
                sv("org"@, repo_owner@),
                sv(
                    "node_manager_archive_url"@,
                    spec_branch_url("safenode-manager"@, repo_owner@, branch@, name),
                ),
            ]
        },
        _ => {
            seq![
                sv(
                    "node_manager_archive_url"@,
                    "https://sn-node-manager.s3.eu-west-2.amazonaws.com/safenode-manager-latest-x86_64-unknown-linux-musl.tar.gz"@,
                ),
            ]
        },
    }
}

/// The node-manager daemon locator, shaped like the node-manager one.
pub open spec fn spec_node_manager_daemon_entries(
    c: SnCodebaseType,
    name: Seq<char>,
) -> Seq<VarEntry> {
    match c {
        SnCodebaseType::Branch { repo_owner, branch, .. } => {
            seq![
                sv("branch"@, branch@),
                sv("org"@, repo_owner@),
                sv(
                    "node_manager_daemon_archive_url"@,
                    spec_branch_url("safenode-manager-daemon"@, repo_owner@, branch@, name),
                ),
            ]
        },
        _ => {
            seq![
                sv(
                    "node_manager_daemon_archive_url"@,
                    "https://sn-node-manager.s3.eu-west-2.amazonaws.com/safenode-manager-daemon-latest-x86_64-unknown-linux-musl.tar.gz"@,
                ),
            ]
        },
    }
}

/// The trailing entries of a node-stage document: injected environment
/// variables and the log-shipping target, where configured.
pub open spec fn spec_node_doc_tail(cmd: DeployCmd) -> Seq<VarEntry> {
    (match cmd.env_variables {
        Some(vars) => seq![sv("env_variables"@, spec_env_pairs_joined(vars@))],
        None => Seq::empty(),
    }) + (match cmd.logstash_details {
        Some((stack, hosts)) => seq![
            sv("logstash_stack_name"@, stack@),
            VarEntry { key: "logstash_hosts"@, value: VarValue::Array(hosts.deep_view()) },
        ],
        None => Seq::empty(),
    })
}

/// The full entry list of a node-stage document.
pub open spec fn spec_node_doc_entries(
    cmd: DeployCmd,
    genesis_multiaddr: Option<Seq<char>>,
    node_instance_count: Option<u16>,
) -> Seq<VarEntry> {
    spec_node_doc_head(cmd, genesis_multiaddr, node_instance_count) + spec_node_archive_entries(
        cmd.sn_codebase_type,
        cmd.name@,
    ) + spec_node_manager_entries(cmd.sn_codebase_type, cmd.name@)
        + spec_node_manager_daemon_entries(cmd.sn_codebase_type, cmd.name@)
        + spec_node_doc_tail(cmd)
}

/// The entry list of a faucet-stage document.
pub open spec fn spec_faucet_doc_entries(cmd: DeployCmd, genesis_multiaddr: Seq<char>) -> Seq<
    VarEntry,
> {
    seq![
        sv("provider"@, cmd.provider@),
        sv("testnet_name"@, cmd.name@),
        sv("genesis_multiaddr"@, genesis_multiaddr),
    ] + (match cmd.sn_codebase_type {
        SnCodebaseType::Branch { repo_owner, branch, .. } => {
            seq![
                sv("branch"@, branch@),
                sv("org"@, repo_owner@),
                sv(
                    "faucet_archive_url"@,
                    spec_branch_url("faucet"@, repo_owner@, branch@, cmd.name@),
                ),
            ]
        },
        _ => {
            seq![
                sv(
                    "faucet_archive_url"@,
                    "https://sn-faucet.s3.eu-west-2.amazonaws.com/faucet-latest-x86_64-unknown-linux-musl.tar.gz"@,
                ),
            ]
        },
    })
}

/// The entry list of an RPC-client-stage document.
pub open spec fn spec_rpc_client_doc_entries(cmd: DeployCmd, genesis_multiaddr: Seq<char>) -> Seq<
    VarEntry,
> {
    seq![
        sv("provider"@, cmd.provider@),
        sv("testnet_name"@, cmd.name@),
        sv("genesis_multiaddr"@, genesis_multiaddr),
    ] + (match cmd.sn_codebase_type {
        SnCodebaseType::Branch { repo_owner, branch, .. } => {
            seq![
                sv("branch"@, branch@),
                sv("org"@, repo_owner@),
                sv(
                    "safenode_rpc_client_archive_url"@,
                    spec_branch_url("safenode_rpc_client"@, repo_owner@, branch@, cmd.name@),
                ),
            ]
        },
        _ => {
            seq![
                sv(
                    "safenode_rpc_client_archive_url"@,
                    "https://sn-node-rpc-client.s3.eu-west-2.amazonaws.com/safenode_rpc_client-latest-x86_64-unknown-linux-musl.tar.gz"@,
                ),
            ]
        },
    })
}

/// Whether some entry of the document carries the given key.
pub open spec fn spec_has_key(es: Seq<VarEntry>, key: Seq<char>) -> bool {
    exists|i: int| 0 <= i < es.len() && (#[trigger] es[i]).key == key
}

/// Every key a node-stage document can carry differs from
/// `genesis_multiaddr` and from `node_archive_url` (each key names a
/// different field, and the two targets appear only where stated).
proof fn lemma_doc_keys_distinct()
    ensures
        "provider"@ != "genesis_multiaddr"@,
        "testnet_name"@ != "genesis_multiaddr"@,
        "node_instance_count"@ != "genesis_multiaddr"@,
        "public_rpc"@ != "genesis_multiaddr"@,
        "version"@ != "genesis_multiaddr"@,
        "node_archive_url"@ != "genesis_multiaddr"@,
        "branch"@ != "genesis_multiaddr"@,
        "org"@ != "genesis_multiaddr"@,
        "node_manager_archive_url"@ != "genesis_multiaddr"@,
        "node_manager_daemon_archive_url"@ != "genesis_multiaddr"@,
        "env_variables"@ != "genesis_multiaddr"@,
        "logstash_stack_name"@ != "genesis_multiaddr"@,
        "logstash_hosts"@ != "genesis_multiaddr"@,
        "provider"@ != "node_archive_url"@,
        "testnet_name"@ != "node_archive_url"@,
        "genesis_multiaddr"@ != "node_archive_url"@,
        "node_instance_count"@ != "node_archive_url"@,
        "public_rpc"@ != "node_archive_url"@,
        "version"@ != "node_archive_url"@,
        "branch"@ != "node_archive_url"@,
        "org"@ != "node_archive_url"@,
        "node_manager_archive_url"@ != "node_archive_url"@,
        "node_manager_daemon_archive_url"@ != "node_archive_url"@,
        "env_variables"@ != "node_archive_url"@,
        "logstash_stack_name"@ != "node_archive_url"@,
        "logstash_hosts"@ != "node_archive_url"@,
{
    reveal_strlit("provider");
    reveal_strlit("testnet_name");
    reveal_strlit("genesis_multiaddr");
    reveal_strlit("node_instance_count");
    reveal_strlit("public_rpc");
    reveal_strlit("version");
    reveal_strlit("node_archive_url");
    reveal_strlit("branch");
    reveal_strlit("org");
    reveal_strlit("node_manager_archive_url");
    reveal_strlit("node_manager_daemon_archive_url");
    reveal_strlit("env_variables");
    reveal_strlit("logstash_stack_name");
    reveal_strlit("logstash_hosts");
    assert("provider"@.len() == 8);
    assert("testnet_name"@.len() == 12);
    assert("genesis_multiaddr"@.len() == 17);
    assert("node_instance_count"@.len() == 19);
    assert("public_rpc"@.len() == 10);
    assert("version"@.len() == 7);
    assert("node_archive_url"@.len() == 16);
    assert("branch"@.len() == 6);
    assert("org"@.len() == 3);
    assert("node_manager_archive_url"@.len() == 24);
    assert("node_manager_daemon_archive_url"@.len() == 31);
    assert("env_variables"@.len() == 13);
    assert("logstash_stack_name"@.len() == 19);
    assert("logstash_hosts"@.len() == 14);
}

/// The key at one position of the head of a node-stage document.
proof fn lemma_head_key_at(cmd: DeployCmd, gm: Option<Seq<char>>, count: Option<u16>, i: int)
    requires
        0 <= i < spec_node_doc_head(cmd, gm, count).len(),
    ensures
        ({
            let k = spec_node_doc_head(cmd, gm, count)[i].key;
            k == "provider"@ || k == "testnet_name"@ || (gm is Some && k == "genesis_multiaddr"@)
                || k == "node_instance_count"@ || k == "public_rpc"@
        }),
{
}

/// The key at one position of the artifact-locator part: `version` exactly
/// when the variant is a fixed version, `node_archive_url` otherwise.
proof fn lemma_archive_key_at(c: SnCodebaseType, name: Seq<char>, i: int)
    requires
        0 <= i < spec_node_archive_entries(c, name).len(),
    ensures
        ({
            let k = spec_node_archive_entries(c, name)[i].key;
            if c is Versioned {
                k == "version"@
            } else {
                k == "node_archive_url"@
            }
        }),
{
}

/// The key at one position of the node-manager part.
proof fn lemma_manager_key_at(c: SnCodebaseType, name: Seq<char>, i: int)
    requires
        0 <= i < spec_node_manager_entries(c, name).len(),
    ensures
        ({
            let k = spec_node_manager_entries(c, name)[i].key;
            k == "branch"@ || k == "org"@ || k == "node_manager_archive_url"@
        }),
{
}

/// The key at one position of the node-manager daemon part.
proof fn lemma_manager_daemon_key_at(c: SnCodebaseType, name: Seq<char>, i: int)
    requires
        0 <= i < spec_node_manager_daemon_entries(c, name).len(),
    ensures
        ({
            let k = spec_node_manager_daemon_entries(c, name)[i].key;
            k == "branch"@ || k == "org"@ || k == "node_manager_daemon_archive_url"@
        }),
{
}

/// The key at one position of the tail of a node-stage document.
proof fn lemma_tail_key_at(cmd: DeployCmd, i: int)
    requires
        0 <= i < spec_node_doc_tail(cmd).len(),
    ensures
        ({
            let k = spec_node_doc_tail(cmd)[i].key;
            k == "env_variables"@ || k == "logstash_stack_name"@ || k == "logstash_hosts"@
        }),
{
}

/// Every key of the whole node-stage document, by position.
proof fn lemma_node_doc_key_at(cmd: DeployCmd, gm: Option<Seq<char>>, count: Option<u16>, i: int)
    requires
        0 <= i < spec_node_doc_entries(cmd, gm, count).len(),
    ensures
        ({
            let k = spec_node_doc_entries(cmd, gm, count)[i].key;
            ||| k == "provider"@
            ||| k == "testnet_name"@
            ||| (gm is Some && k == "genesis_multiaddr"@)
            ||| k == "node_instance_count"@
            ||| k == "public_rpc"@
            ||| (!(cmd.sn_codebase_type is Versioned) && k == "node_archive_url"@)
            ||| (cmd.sn_codebase_type is Versioned && k == "version"@)
            ||| k == "branch"@
            ||| k == "org"@
            ||| k == "node_manager_archive_url"@
            ||| k == "node_manager_daemon_archive_url"@
            ||| k == "env_variables"@
            ||| k == "logstash_stack_name"@
            ||| k == "logstash_hosts"@
        }),
{
    let a = spec_node_doc_head(cmd, gm, count);
    let b = spec_node_archive_entries(cmd.sn_codebase_type, cmd.name@);
    let c = spec_node_manager_entries(cmd.sn_codebase_type, cmd.name@);
    let d = spec_node_manager_daemon_entries(cmd.sn_codebase_type, cmd.name@);
    let e = spec_node_doc_tail(cmd);
    let es = spec_node_doc_entries(cmd, gm, count);
    let abcd = a + b + c + d;
    assert(es == abcd + e);
    if i < abcd.len() {
        assert(es[i] == abcd[i]);
        let abc = a + b + c;
        if i < abc.len() {
            assert(abcd[i] == abc[i]);
            let ab = a + b;
            if i < ab.len() {
                assert(abc[i] == ab[i]);
                if i < a.len() {
                    assert(ab[i] == a[i]);
                    lemma_head_key_at(cmd, gm, count, i);
                } else {
                    assert(ab[i] == b[i - a.len()]);
                    lemma_archive_key_at(cmd.sn_codebase_type, cmd.name@, i - a.len());
                }
            } else {
                assert(abc[i] == c[i - ab.len()]);
                lemma_manager_key_at(cmd.sn_codebase_type, cmd.name@, i - ab.len());
            }
        } else {
            assert(abcd[i] == d[i - abc.len()]);
            lemma_manager_daemon_key_at(cmd.sn_codebase_type, cmd.name@, i - abc.len());
        }
    } else {
        assert(es[i] == e[i - abcd.len()]);
        lemma_tail_key_at(cmd, i - abcd.len());
    }
}

/// A node-stage document built without a genesis address omits the
/// `genesis_multiaddr` key entirely; one built with an address carries it.
pub proof fn lemma_node_doc_genesis_key(
    cmd: DeployCmd,
    gm: Option<Seq<char>>,
    count: Option<u16>,
)
    ensures
        gm is Some ==> spec_has_key(
            spec_node_doc_entries(cmd, gm, count),
            "genesis_multiaddr"@,
        ),
        gm is None ==> !spec_has_key(
            spec_node_doc_entries(cmd, gm, count),
            "genesis_multiaddr"@,
        ),
{
    let es = spec_node_doc_entries(cmd, gm, count);
    let head = spec_node_doc_head(cmd, gm, count);
    if gm is Some {
        assert(head[2].key == "genesis_multiaddr"@);
        assert(es[2] == head[2]);
    } else {
        assert forall|i: int| 0 <= i < es.len() implies (#[trigger] es[i]).key
            != "genesis_multiaddr"@ by {
            lemma_node_doc_key_at(cmd, gm, count, i);
            lemma_doc_keys_distinct();
        }
    }
}

/// A node-stage document for a fixed version carries the `version` entry
/// with exactly that version, and no `node_archive_url` key at all.
pub proof fn lemma_versioned_doc_locator(
    cmd: DeployCmd,
    gm: Option<Seq<char>>,
    count: Option<u16>,
)
    requires
        cmd.sn_codebase_type is Versioned,
    ensures
        ({
            let es = spec_node_doc_entries(cmd, gm, count);
            let version = cmd.sn_codebase_type->Versioned_safenode_version;
            exists|i: int| 0 <= i < es.len() && #[trigger] es[i] == sv("version"@, version@)
        }),
        !spec_has_key(spec_node_doc_entries(cmd, gm, count), "node_archive_url"@),
{
    let es = spec_node_doc_entries(cmd, gm, count);
    let head = spec_node_doc_head(cmd, gm, count);
    let version = cmd.sn_codebase_type->Versioned_safenode_version;
    assert(es[head.len() as int] == sv("version"@, version@));
    assert forall|i: int| 0 <= i < es.len() implies (#[trigger] es[i]).key
        != "node_archive_url"@ by {
        lemma_node_doc_key_at(cmd, gm, count, i);
        lemma_doc_keys_distinct();
    }
}

impl DeployCmd {
    /// Records the configuration of one deployment invocation.
    pub fn new(
        provider: String,
        name: String,
        node_count: u16,
        vm_count: u16,
        public_rpc: bool,
        logstash_details: Option<(String, Vec<String>)>,
        sn_codebase_type: SnCodebaseType,
        env_variables: Option<Vec<(String, String)>>,
    ) -> (r: Self)
        ensures
            r == (DeployCmd {
                provider,
                name,
                node_count,
                vm_count,
                public_rpc,
                logstash_details,
                sn_codebase_type,
                env_variables,
            }),
    {
        DeployCmd {
            provider,
            name,
            node_count,
            vm_count,
            public_rpc,
            logstash_details,
            sn_codebase_type,
            env_variables,
        }
    }

    /// Renders the build-stage document for the active variant.
    pub fn build_binaries_extra_vars_doc(&self) -> (r: String)
        ensures
            r@ == spec_render_doc(spec_binaries_doc_entries(self.sn_codebase_type, self.name@)),
    {
        let mut b = ExtraVarsDocBuilder::new();
        match &self.sn_codebase_type {
            SnCodebaseType::Main { safenode_features } => {
                match safenode_features {
                    Some(features) => {
                        b.add_value("custom_bin", "true");
                        b.add_value("testnet_name", self.name.as_str());
                        b.add_value("org", "maidsafe");
                        b.add_value("branch", "main");
                        b.add_value("safenode_features_list", features.as_str());
                    },
                    None => {
                        b.add_value("custom_bin", "false");
                    },
                }
            },
            SnCodebaseType::Branch { repo_owner, branch, safenode_features } => {
                b.add_value("custom_bin", "true");
                b.add_value("testnet_name", self.name.as_str());
                b.add_value("org", repo_owner.as_str());
                b.add_value("branch", branch.as_str());
                if let Some(features) = safenode_features {
                    b.add_value("safenode_features_list", features.as_str());
                }
            },
            SnCodebaseType::Versioned { .. } => {
                b.add_value("custom_bin", "false");
            },
        }
        proof {
            assert(b.entries() =~= spec_binaries_doc_entries(self.sn_codebase_type, self.name@));
        }
        b.build()
    }

    /// Appends the artifact-locator entry for the active variant.
    fn push_archive_entries(&self, b: &mut ExtraVarsDocBuilder)
        requires
            old(b).wf(),
        ensures
            final(b).wf(),
            final(b).entries() == old(b).entries() + spec_node_archive_entries(
                self.sn_codebase_type,
                self.name@,
            ),
    {
        match &self.sn_codebase_type {
            SnCodebaseType::Main { safenode_features } => {
                if safenode_features.is_some() {
                    let url = branch_url("safenode", "maidsafe", "main", self.name.as_str());
                    b.add_value("node_archive_url", url.as_str());
                } else {
                    b.add_value(
                        "node_archive_url",
                        "https://sn-node.s3.eu-west-2.amazonaws.com/safenode-latest-x86_64-unknown-linux-musl.tar.gz",
                    );
                }
            },
            SnCodebaseType::Branch { repo_owner, branch, .. } => {
                let url = branch_url(
                    "safenode",
                    repo_owner.as_str(),
                    branch.as_str(),
                    self.name.as_str(),
                );
                b.add_value("node_archive_url", url.as_str());
            },
            SnCodebaseType::Versioned { safenode_version } => {
                b.add_value("version", safenode_version.as_str());
            },
        }
        proof {
            assert(b.entries() =~= old(b).entries() + spec_node_archive_entries(
                self.sn_codebase_type,
                self.name@,
            ));
        }
    }

    /// Appends the node-manager locator entries for the active variant.
    fn push_manager_entries(&self, b: &mut ExtraVarsDocBuilder)
        requires
            old(b).wf(),
        ensures
            final(b).wf(),
            final(b).entries() == old(b).entries() + spec_node_manager_entries(
                self.sn_codebase_type,
                self.name@,
            ),
    {
        match &self.sn_codebase_type {
            SnCodebaseType::Branch { repo_owner, branch, .. } => {
                b.add_value("branch", branch.as_str());
                b.add_value("org", repo_owner.as_str());
                let url = branch_url(
                    "safenode-manager",
                    repo_owner.as_str(),
                    branch.as_str(),
                    self.name.as_str(),
                );
                b.add_value("node_manager_archive_url", url.as_str());
            },
            _ => {
                b.add_value(
                    "node_manager_archive_url",
                    "https://sn-node-manager.s3.eu-west-2.amazonaws.com/safenode-manager-latest-x86_64-unknown-linux-musl.tar.gz",
                );
            },
        }
        proof {
            assert(b.entries() =~= old(b).entries() + spec_node_manager_entries(
                self.sn_codebase_type,
                self.name@,
            ));
        }
    }

    /// Appends the node-manager daemon locator entries for the active
    /// variant.
    fn push_manager_daemon_entries(&self, b: &mut ExtraVarsDocBuilder)
        requires
            old(b).wf(),
        ensures
            final(b).wf(),
            final(b).entries() == old(b).entries() + spec_node_manager_daemon_entries(
                self.sn_codebase_type,
                self.name@,
            ),
    {
        match &self.sn_codebase_type {
            SnCodebaseType::Branch { repo_owner, branch, .. } => {
                b.add_value("branch", branch.as_str());
                b.add_value("org", repo_owner.as_str());
                let url = branch_url(
                    "safenode-manager-daemon",
                    repo_owner.as_str(),
                    branch.as_str(),
                    self.name.as_str(),
                );
                b.add_value("node_manager_daemon_archive_url", url.as_str());
            },
            _ => {
                b.add_value(
                    "node_manager_daemon_archive_url",
                    "https://sn-node-manager.s3.eu-west-2.amazonaws.com/safenode-manager-daemon-latest-x86_64-unknown-linux-musl.tar.gz",
                );
            },
        }
        proof {
            assert(b.entries() =~= old(b).entries() + spec_node_manager_daemon_entries(
                self.sn_codebase_type,
                self.name@,
            ));
        }
    }

    /// Appends the environment-variable and log-shipping entries, where
    /// configured.
    fn push_tail_entries(&self, b: &mut ExtraVarsDocBuilder)
        requires
            old(b).wf(),
        ensures
            final(b).wf(),
            final(b).entries() == old(b).entries() + spec_node_doc_tail(*self),
    {
        if let Some(vars) = &self.env_variables {
            let joined = env_pairs_joined(vars);
            b.add_value("env_variables", joined.as_str());
        }
        if let Some((stack, hosts)) = &self.logstash_details {
            b.add_value("logstash_stack_name", stack.as_str());
            b.add_list("logstash_hosts", hosts);
        }
        proof {
            assert(b.entries() =~= old(b).entries() + spec_node_doc_tail(*self));
        }
    }

    /// Renders a node-stage document. The genesis address is absent for the
    /// genesis stage itself and present for every later node stage; an
    /// address that is supplied but empty is a programming-contract error.
    pub fn build_node_extra_vars_doc(
        &self,
        genesis_multiaddr: Option<String>,
        node_instance_count: Option<u16>,
    ) -> (r: Result<String, Error>)
        ensures
            r is Err <==> (genesis_multiaddr matches Some(a) && a@.len() == 0),
            r is Err ==> r->Err_0 == Error::GenesisMultiAddrNotSupplied,
            r is Ok ==> r->Ok_0@ == spec_render_doc(
                spec_node_doc_entries(*self, view_opt(genesis_multiaddr), node_instance_count),
            ),
    {
        if let Some(addr) = &genesis_multiaddr {
            if addr.as_str().is_empty() {
                return Err(Error::GenesisMultiAddrNotSupplied);
            }
        }
        let mut b = ExtraVarsDocBuilder::new();
        b.add_value("provider", self.provider.as_str());
        b.add_value("testnet_name", self.name.as_str());
        if let Some(addr) = &genesis_multiaddr {
            b.add_value("genesis_multiaddr", addr.as_str());
        }
        if let Some(count) = node_instance_count {
            let count_text = u64_to_string(count as u64);
            b.add_value("node_instance_count", count_text.as_str());
        }
        if self.public_rpc {
            b.add_value("public_rpc", "true");
        }
        proof {
            assert(b.entries() =~= spec_node_doc_head(
                *self,
                view_opt(genesis_multiaddr),
                node_instance_count,
            ));
        }
        self.push_archive_entries(&mut b);
        self.push_manager_entries(&mut b);
        self.push_manager_daemon_entries(&mut b);
        self.push_tail_entries(&mut b);
        proof {
            assert(b.entries() =~= spec_node_doc_entries(
                *self,
                view_opt(genesis_multiaddr),
                node_instance_count,
            ));
        }
        Ok(b.build())
    }

    /// Renders the faucet-stage document; the genesis address is required
    /// and must be non-empty.
    pub fn build_faucet_extra_vars_doc(&self, genesis_multiaddr: &str) -> (r: Result<
        String,
        Error,
    >)
        ensures
            r is Ok <==> genesis_multiaddr@.len() > 0,
            r is Err ==> r->Err_0 == Error::GenesisMultiAddrNotSupplied,
            r is Ok ==> r->Ok_0@ == spec_render_doc(
                spec_faucet_doc_entries(*self, genesis_multiaddr@),
            ),
    {
        if genesis_multiaddr.is_empty() {
            return Err(Error::GenesisMultiAddrNotSupplied);
        }
        let mut b = ExtraVarsDocBuilder::new();
        b.add_value("provider", self.provider.as_str());
        b.add_value("testnet_name", self.name.as_str());
        b.add_value("genesis_multiaddr", genesis_multiaddr);
        match &self.sn_codebase_type {
            SnCodebaseType::Branch { repo_owner, branch, .. } => {
                b.add_value("branch", branch.as_str());
                b.add_value("org", repo_owner.as_str());
                let url = branch_url(
                    "faucet",
                    repo_owner.as_str(),
                    branch.as_str(),
                    self.name.as_str(),
                );
                b.add_value("faucet_archive_url", url.as_str());
            },
            _ => {
                b.add_value(
                    "faucet_archive_url",
                    "https://sn-faucet.s3.eu-west-2.amazonaws.com/faucet-latest-x86_64-unknown-linux-musl.tar.gz",
                );
            },
        }
        proof {
            assert(b.entries() =~= spec_faucet_doc_entries(*self, genesis_multiaddr@));
        }
        Ok(b.build())
    }

    /// Renders the RPC-client-stage document; the genesis address is
    /// required and must be non-empty.
    pub fn build_safenode_rpc_client_extra_vars_doc(&self, genesis_multiaddr: &str) -> (r: Result<
        String,
        Error,
    >)
        ensures
            r is Ok <==> genesis_multiaddr@.len() > 0,
            r is Err ==> r->Err_0 == Error::GenesisMultiAddrNotSupplied,
            r is Ok ==> r->Ok_0@ == spec_render_doc(
                spec_rpc_client_doc_entries(*self, genesis_multiaddr@),
            ),
    {
        if genesis_multiaddr.is_empty() {
            return Err(Error::GenesisMultiAddrNotSupplied);
        }
        let mut b = ExtraVarsDocBuilder::new();
        b.add_value("provider", self.provider.as_str());
        b.add_value("testnet_name", self.name.as_str());
        b.add_value("genesis_multiaddr", genesis_multiaddr);
        match &self.sn_codebase_type {
            SnCodebaseType::Branch { repo_owner, branch, .. } => {
                b.add_value("branch", branch.as_str());
                b.add_value("org", repo_owner.as_str());
                let url = branch_url(
                    "safenode_rpc_client",
                    repo_owner.as_str(),
                    branch.as_str(),
                    self.name.as_str(),
                );
                b.add_value("safenode_rpc_client_archive_url", url.as_str());
            },
            _ => {
                b.add_value(
                    "safenode_rpc_client_archive_url",
                    "https://sn-node-rpc-client.s3.eu-west-2.amazonaws.com/safenode_rpc_client-latest-x86_64-unknown-linux-musl.tar.gz",
                );
            },
        }
        proof {
            assert(b.entries() =~= spec_rpc_client_doc_entries(*self, genesis_multiaddr@));
        }
        Ok(b.build())
    }
}

} // verus!


