//! Two ways to tell the branch and its upstream, behind one contract.
//!
//! [`ObjectModelLookup`] holds what the object-model library reported of a
//! repository. [`MetadataFiles`] holds the text of `HEAD` and `config`, read
//! without it. Both are a [`Resolver`].

use vstd::prelude::*;
use crate::branch::{
    branch_result_view, upstream_result_view, BranchIdentity, BranchModel, ResolveError,
    UpstreamIdentity, UpstreamModel,
};
use crate::metadata::{
    branch_from_head_file, head_file_branch, heads_namespace, tracked_upstream,
    upstream_from_config,
};
use crate::refname::{is_reference_name, shorten_reference, shortened_reference};
use crate::text::optional_text;

verus! {

/// A way to tell where `HEAD` stands and what it tracks.
pub trait Resolver {
    /// What this resolver says of the branch.
    spec fn branch_model(&self) -> Result<BranchModel, ResolveError>;

    /// What this resolver says of the upstream of `branch`.
    spec fn upstream_model(&self, branch: BranchModel) -> Result<UpstreamModel, ResolveError>;

    /// Where `HEAD` stands.
    fn resolve_branch(&self) -> (branch: Result<BranchIdentity, ResolveError>)
        ensures
            branch_result_view(branch) == self.branch_model(),
    ;

    /// The upstream of `branch`. A `HEAD` that is detached or unborn tracks
    /// nothing, whatever the configuration holds.
    fn resolve_upstream(&self, branch: &BranchIdentity) -> (upstream: Result<
        UpstreamIdentity,
        ResolveError,
    >)
        ensures
            upstream_result_view(upstream) == self.upstream_model(branch@),
            !(branch@ is Named) ==> upstream == Err::<UpstreamIdentity, ResolveError>(
                ResolveError::NoUpstreamConfigured,
            ),
    ;
}

/// What the object model reported of `HEAD`.
#[derive(Clone, Debug, PartialEq, Eq)]
pub enum HeadState {
    /// `HEAD` points at the reference of this full name, and the reference
    /// holds a commit.
    Symbolic(String),
    /// `HEAD` points at a reference that does not exist yet: there is no
    /// commit.
    Unborn,
    /// `HEAD` points at a reference whose name is not text.
    Undecodable,
    /// `HEAD` points at a commit.
    Detached,
    /// `HEAD` could not be read.
    Unresolved,
}

/// The mathematical content of a [`HeadState`].
pub enum HeadModel {
    Symbolic(Seq<char>),
    Unborn,
    Undecodable,
    Detached,
    Unresolved,
}

impl View for HeadState {
    type V = HeadModel;

    open spec fn view(&self) -> HeadModel {
        match self {
            HeadState::Symbolic(name) => HeadModel::Symbolic(name@),
            HeadState::Unborn => HeadModel::Unborn,
            HeadState::Undecodable => HeadModel::Undecodable,
            HeadState::Detached => HeadModel::Detached,
            HeadState::Unresolved => HeadModel::Unresolved,
        }
    }
}

/// What the object model reported of a repository: where `HEAD` points, the
/// name of the remote that the branch fetches from, and the full name there
/// of the reference that it tracks. The last two are absent where the
/// configuration has none, or none that is valid.
#[derive(Clone, Debug, PartialEq, Eq)]
pub struct ObjectModelLookup {
    pub head: HeadState,
    pub remote_name: Option<String>,
    pub upstream_ref: Option<String>,
}

/// The upstream made of a remote and of the short name of the reference
/// that is tracked there. The short name is the branch as it is, with all
/// its segments.
pub open spec fn upstream_of_short_name(remote: Seq<char>, short: Seq<char>) -> UpstreamModel {
    UpstreamModel { remote, branch: short }
}

/// The branch that a `HEAD` of the object model stands for. The target of a
/// symbolic `HEAD` has to be a valid reference name, and its shortened form
/// is the branch. A `HEAD` whose target does not exist yet, and one that
/// could not be read, stand for no branch yet.
pub open spec fn head_state_branch(head: HeadModel) -> Result<BranchModel, ResolveError> {
    match head {
        HeadModel::Symbolic(name) => if is_reference_name(name) {
            Ok(BranchModel::Named(shortened_reference(name)))
        } else {
            Err(ResolveError::InvalidReferenceName)
        },
        HeadModel::Unborn => Ok(BranchModel::Unborn),
        HeadModel::Undecodable => Err(ResolveError::InvalidEncoding),
        HeadModel::Detached => Ok(BranchModel::Detached),
        HeadModel::Unresolved => Ok(BranchModel::Unborn),
    }
}

/// The upstream that the object model gives `branch`: it has to be a named
/// branch, with a remote and with a tracked reference of a valid name.
pub open spec fn lookup_upstream(
    branch: BranchModel,
    remote_name: Option<Seq<char>>,
    upstream_ref: Option<Seq<char>>,
) -> Result<UpstreamModel, ResolveError> {
    if branch is Named && remote_name is Some && upstream_ref is Some && is_reference_name(
        upstream_ref->0,
    ) {
        Ok(upstream_of_short_name(remote_name->0, shortened_reference(upstream_ref->0)))
    } else {
        Err(ResolveError::NoUpstreamConfigured)
    }
}

/// The upstream made of a remote and of the short name of the reference
/// that is tracked there.
pub fn upstream_from_short_name(remote: &str, short: &str) -> (upstream: UpstreamIdentity)
    ensures
        upstream@ == upstream_of_short_name(remote@, short@),
{
    UpstreamIdentity { remote: remote.to_string(), branch: short.to_string() }
}

impl Resolver for ObjectModelLookup {
    open spec fn branch_model(&self) -> Result<BranchModel, ResolveError> {
        head_state_branch(self.head@)
    }

    open spec fn upstream_model(&self, branch: BranchModel) -> Result<
        UpstreamModel,
        ResolveError,
    > {
        lookup_upstream(branch, optional_text(self.remote_name), optional_text(self.upstream_ref))
    }

    /// Where `HEAD` stands. Of a reference under `refs/heads/` the branch is
    /// what follows that prefix, as gix shortens it.
    fn resolve_branch(&self) -> (branch: Result<BranchIdentity, ResolveError>)
        ensures
            self.head@ matches HeadModel::Symbolic(name) ==> (branch is Ok
                && heads_namespace().is_prefix_of(name) ==> branch_result_view(branch) == Ok::<
                BranchModel,
                ResolveError,
            >(BranchModel::Named(name.skip(heads_namespace().len() as int)))),
    {
        match &self.head {
            HeadState::Symbolic(name) => match shorten_reference(name.as_str()) {
                Ok(short) => Ok(BranchIdentity::Named(short)),
                Err(_) => Err(ResolveError::InvalidReferenceName),
            },
            HeadState::Unborn => Ok(BranchIdentity::Unborn),
            HeadState::Undecodable => Err(ResolveError::InvalidEncoding),
            HeadState::Detached => Ok(BranchIdentity::Detached),
            HeadState::Unresolved => Ok(BranchIdentity::Unborn),
        }
    }

    /// The upstream of `branch`. Of a tracked reference under `refs/heads/`
    /// the branch of the upstream is what follows that prefix, with all its
    /// segments, as gix shortens it.
    fn resolve_upstream(&self, branch: &BranchIdentity) -> (upstream: Result<
        UpstreamIdentity,
        ResolveError,
    >)
        ensures
            upstream is Ok ==> branch@ is Named && self.remote_name is Some && self.upstream_ref
                is Some,
            upstream is Ok && heads_namespace().is_prefix_of(self.upstream_ref->0@)
                ==> upstream_result_view(upstream) == Ok::<UpstreamModel, ResolveError>(
                UpstreamModel {
                    remote: self.remote_name->0@,
                    branch: self.upstream_ref->0@.skip(heads_namespace().len() as int),
                },
            ),
    {
        if !branch.is_named() {
            return Err(ResolveError::NoUpstreamConfigured);
        }
        match (&self.remote_name, &self.upstream_ref) {
            (Some(remote), Some(reference)) => match shorten_reference(reference.as_str()) {
                Ok(short) => Ok(upstream_from_short_name(remote.as_str(), short.as_str())),
                Err(_) => Err(ResolveError::NoUpstreamConfigured),
            },
            _ => Err(ResolveError::NoUpstreamConfigured),
        }
    }
}

/// The text of the two metadata files that tell the branch and its upstream.
/// A file that is not there, or cannot be read, is absent.
#[derive(Clone, Debug, PartialEq, Eq)]
pub struct MetadataFiles {
    pub head: Option<String>,
    pub config: Option<String>,
}

/// What the text of `HEAD` says of the branch; without the file there is no
/// branch yet.
pub open spec fn files_branch(head: Option<Seq<char>>) -> BranchModel {
    match head {
        Some(content) => head_file_branch(content),
        None => BranchModel::Unborn,
    }
}

/// The upstream that the text of `config` gives `branch`.
pub open spec fn files_upstream(branch: BranchModel, config: Option<Seq<char>>) -> Result<
    UpstreamModel,
    ResolveError,
> {
    match branch {
        BranchModel::Named(_) => match config {
            Some(content) => tracked_upstream(branch, content),
            None => Err(ResolveError::MetadataReadFailure),
        },
        _ => Err(ResolveError::NoUpstreamConfigured),
    }
}

impl Resolver for MetadataFiles {
    open spec fn branch_model(&self) -> Result<BranchModel, ResolveError> {
        Ok(files_branch(optional_text(self.head)))
    }

    open spec fn upstream_model(&self, branch: BranchModel) -> Result<
        UpstreamModel,
        ResolveError,
    > {
        files_upstream(branch, optional_text(self.config))
    }

    fn resolve_branch(&self) -> (branch: Result<BranchIdentity, ResolveError>) {
        match &self.head {
            Some(content) => Ok(branch_from_head_file(content.as_str())),
            None => Ok(BranchIdentity::Unborn),
        }
    }

    fn resolve_upstream(&self, branch: &BranchIdentity) -> (upstream: Result<
        UpstreamIdentity,
        ResolveError,
    >) {
        match branch {
            BranchIdentity::Named(name) => match &self.config {
                Some(content) => upstream_from_config(name.as_str(), content.as_str()),
                None => Err(ResolveError::MetadataReadFailure),
            },
            _ => Err(ResolveError::NoUpstreamConfigured),
        }
    }
}

} // verus!
