//! The codebase variant: the three mutually exclusive ways the deployed
//! binaries are sourced, and the artifact URLs and build-requirement flag
//! derived from the active variant.

use vstd::prelude::*;
use vstd::string::StringExecFns;

use crate::text::spec_str_contains;

verus! {

/// How the deployed binaries are sourced. Exactly one variant is active per
/// deployment; it determines every artifact URL referenced later.
pub enum SnCodebaseType {
    /// Pre-built binaries from the default organisation's main line,
    /// optionally rebuilt with a list of feature flags.
    Main { safenode_features: Option<String> },
    /// Binaries built from a named branch of a named repository owner.
    Branch { repo_owner: String, branch: String, safenode_features: Option<String> },
    /// Binaries installed by an explicit version rather than by URL.
    Versioned { safenode_version: String },
}

impl SnCodebaseType {
    /// Whether a build stage must run: always for a branch build, for the
    /// main line only when feature flags are set, never for a fixed version.
    pub open spec fn spec_build_required(&self) -> bool {
        match self {
            SnCodebaseType::Main { safenode_features } => safenode_features is Some,
            SnCodebaseType::Branch { .. } => true,
            SnCodebaseType::Versioned { .. } => false,
        }
    }

    /// Derives the build-requirement flag from the active variant.
    pub fn build_required(&self) -> (r: bool)
        ensures
            r == self.spec_build_required(),
    {
        match self {
            SnCodebaseType::Main { safenode_features } => safenode_features.is_some(),
            SnCodebaseType::Branch { .. } => true,
            SnCodebaseType::Versioned { .. } => false,
        }
    }
}

/// The build-requirement flag is a function of the variant alone: never set
/// for a fixed version, always set for a branch build, and for the main line
/// set exactly when feature flags are present.
pub proof fn lemma_build_required_by_variant(c: SnCodebaseType)
    ensures
        c is Versioned ==> !c.spec_build_required(),
        c is Branch ==> c.spec_build_required(),
        c is Main ==> (c.spec_build_required() <==> c->Main_safenode_features is Some),
{
}

/// The suffix every archive name ends with.
pub open spec fn spec_archive_suffix() -> Seq<char> {
    "-x86_64-unknown-linux-musl.tar.gz"@
}

/// A branch-scoped archive URL: the artifact namespaced by repository owner,
/// branch, and deployment name.
pub open spec fn spec_branch_url(
    artifact: Seq<char>,
    org: Seq<char>,
    branch: Seq<char>,
    name: Seq<char>,
) -> Seq<char> {
    "https://sn-node.s3.eu-west-2.amazonaws.com/"@ + org + "/"@ + branch + "/"@ + artifact + "-"@
        + name + spec_archive_suffix()
}

/// Builds a branch-scoped archive URL for one artifact.
pub fn branch_url(artifact: &str, org: &str, branch: &str, name: &str) -> (r: String)
    ensures
        r@ == spec_branch_url(artifact@, org@, branch@, name@),
{
    let mut url = String::from_str("https://sn-node.s3.eu-west-2.amazonaws.com/");
    url.append(org);
    url.append("/");
    url.append(branch);
    url.append("/");
    url.append(artifact);
    url.append("-");
    url.append(name);
    url.append("-x86_64-unknown-linux-musl.tar.gz");
    proof {
        assert(url@ =~= spec_branch_url(artifact@, org@, branch@, name@));
    }
    url
}

/// Every branch-scoped archive URL contains the exact `owner/branch` run and
/// ends with `<artifact>-<name>` followed by the fixed archive suffix.
pub proof fn lemma_branch_url_shape(
    artifact: Seq<char>,
    org: Seq<char>,
    branch: Seq<char>,
    name: Seq<char>,
)
    ensures
        spec_str_contains(spec_branch_url(artifact, org, branch, name), org + "/"@ + branch),
        ({
            let u = spec_branch_url(artifact, org, branch, name);
            let tail = artifact + "-"@ + name + spec_archive_suffix();
            u.len() >= tail.len() && u.subrange(u.len() - tail.len(), u.len() as int) == tail
        }),
{
    let u = spec_branch_url(artifact, org, branch, name);
    let base = "https://sn-node.s3.eu-west-2.amazonaws.com/"@;
    let mid = org + "/"@ + branch;
    assert(u.subrange(base.len() as int, base.len() + mid.len() as int) =~= mid);
    let tail = artifact + "-"@ + name + spec_archive_suffix();
    assert(u.len() >= tail.len());
    assert(u.subrange(u.len() - tail.len(), u.len() as int) =~= tail);
}

} // verus!
