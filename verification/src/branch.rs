//! The identity of the current branch and of the branch it tracks.

use vstd::prelude::*;

verus! {

/// The mathematical content of a [`BranchIdentity`].
pub enum BranchModel {
    Named(Seq<char>),
    Detached,
    Unborn,
}

/// The label shown for a detached `HEAD`.
pub open spec fn detached_label() -> Seq<char> {
    seq!['H', 'E', 'A', 'D']
}

/// The label shown where `HEAD` cannot be resolved at all.
pub open spec fn unborn_label() -> Seq<char> {
    seq!['(', 'n', 'o', ' ', 'b', 'r', 'a', 'n', 'c', 'h', ')']
}

impl BranchModel {
    /// What a status line shows for the branch: the name of a named branch,
    /// a fixed label for the two other states.
    pub open spec fn label(self) -> Seq<char> {
        match self {
            BranchModel::Named(name) => name,
            BranchModel::Detached => detached_label(),
            BranchModel::Unborn => unborn_label(),
        }
    }
}

/// Where `HEAD` stands: on a local branch, on a commit, or nowhere yet.
#[derive(Clone, Debug, PartialEq, Eq)]
pub enum BranchIdentity {
    /// `HEAD` names a branch; this is its short name.
    Named(String),
    /// `HEAD` points at a commit, not at a branch.
    Detached,
    /// `HEAD` cannot be resolved: there is no commit yet.
    Unborn,
}

impl View for BranchIdentity {
    type V = BranchModel;

    open spec fn view(&self) -> BranchModel {
        match self {
            BranchIdentity::Named(name) => BranchModel::Named(name@),
            BranchIdentity::Detached => BranchModel::Detached,
            BranchIdentity::Unborn => BranchModel::Unborn,
        }
    }
}

impl BranchIdentity {
    /// What a status line shows for the branch.
    pub fn label(&self) -> (label: String)
        ensures
            label@ == self@.label(),
    {
        match self {
            BranchIdentity::Named(name) => name.clone(),
            BranchIdentity::Detached => {
                proof {
                    reveal_strlit("HEAD");
                }
                let label = "HEAD".to_string();
                assert(label@ =~= detached_label());
                label
            },
            BranchIdentity::Unborn => {
                proof {
                    reveal_strlit("(no branch)");
                }
                let label = "(no branch)".to_string();
                assert(label@ =~= unborn_label());
                label
            },
        }
    }

    /// Whether `HEAD` names a branch.
    pub fn is_named(&self) -> (named: bool)
        ensures
            named == (self@ is Named),
    {
        match self {
            BranchIdentity::Named(_) => true,
            _ => false,
        }
    }
}

/// The mathematical content of an [`UpstreamIdentity`].
pub struct UpstreamModel {
    pub remote: Seq<char>,
    pub branch: Seq<char>,
}

impl UpstreamModel {
    /// What a status line shows for the upstream: the remote, a slash, the
    /// branch.
    pub open spec fn display(self) -> Seq<char> {
        self.remote + seq!['/'] + self.branch
    }
}

/// The branch that the current branch tracks: a remote and the short name of
/// a branch there.
#[derive(Clone, Debug, PartialEq, Eq)]
pub struct UpstreamIdentity {
    pub remote: String,
    pub branch: String,
}

impl View for UpstreamIdentity {
    type V = UpstreamModel;

    open spec fn view(&self) -> UpstreamModel {
        UpstreamModel { remote: self.remote@, branch: self.branch@ }
    }
}

impl UpstreamIdentity {
    /// What a status line shows for the upstream.
    pub fn display(&self) -> (shown: String)
        ensures
            shown@ == self@.display(),
    {
        let mut shown = self.remote.clone();
        shown.push('/');
        shown.append(self.branch.as_str());
        shown
    }
}

/// Why a branch or its upstream could not be told.
#[derive(Clone, Copy, Debug, PartialEq, Eq, Structural)]
pub enum ResolveError {
    /// The branch tracks nothing, or `HEAD` is on no branch that could.
    NoUpstreamConfigured,
    /// What `HEAD` points at is not the name of a reference.
    InvalidReferenceName,
    /// A name that was resolved is not text.
    InvalidEncoding,
    /// A metadata file that had to be read could not be.
    MetadataReadFailure,
}

/// The view of what resolving a branch gave.
pub open spec fn branch_result_view(result: Result<BranchIdentity, ResolveError>) -> Result<
    BranchModel,
    ResolveError,
> {
    match result {
        Ok(branch) => Ok(branch@),
        Err(error) => Err(error),
    }
}

/// The view of what resolving an upstream gave.
pub open spec fn upstream_result_view(result: Result<UpstreamIdentity, ResolveError>) -> Result<
    UpstreamModel,
    ResolveError,
> {
    match result {
        Ok(upstream) => Ok(upstream@),
        Err(error) => Err(error),
    }
}

} // verus!
