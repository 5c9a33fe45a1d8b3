//! Finding the metadata directory of a repository.
//!
//! The search starts in one directory and goes up. In each directory it
//! looks at the entry named `.git`, and [`locate_step`] says what to do with
//! what was found there. Looking is left to the caller.

use vstd::prelude::*;
use crate::metadata::{gitdir_from_redirect, gitdir_pointer};

verus! {

/// What was found under the name `.git` in one directory.
#[derive(Clone, Debug, PartialEq, Eq)]
pub enum Probe {
    /// A directory.
    Directory,
    /// A file, with its text; without it where the file could not be read.
    File(Option<String>),
    /// Nothing, or nothing of use.
    Absent,
}

/// The mathematical content of a [`Probe`].
pub enum ProbeModel {
    Directory,
    File(Option<Seq<char>>),
    Absent,
}

impl View for Probe {
    type V = ProbeModel;

    open spec fn view(&self) -> ProbeModel {
        match self {
            Probe::Directory => ProbeModel::Directory,
            Probe::File(Some(text)) => ProbeModel::File(Some(text@)),
            Probe::File(None) => ProbeModel::File(None),
            Probe::Absent => ProbeModel::Absent,
        }
    }
}

/// Why no repository was found.
#[derive(Clone, Copy, Debug, PartialEq, Eq, Structural)]
pub enum LocateError {
    /// No directory from the start up to the root holds a `.git`.
    NotARepository,
    /// A `.git` file holds no line that starts with `gitdir:`.
    InvalidGitFile,
    /// A `.git` file could not be read.
    MetadataReadFailure,
}

/// What to do after one look.
#[derive(Clone, Debug, PartialEq, Eq)]
pub enum LocateStep {
    /// The directory is the root of a working tree, and its `.git` is the
    /// metadata directory.
    Found,
    /// The directory is the root of a working tree, and its metadata
    /// directory is at this path, which is absolute or relative to the
    /// directory.
    Redirected(String),
    /// Look in the parent directory.
    Ascend,
    /// Give up.
    Failed(LocateError),
}

/// The mathematical content of a [`LocateStep`].
pub enum LocateStepModel {
    Found,
    Redirected(Seq<char>),
    Ascend,
    Failed(LocateError),
}

impl View for LocateStep {
    type V = LocateStepModel;

    open spec fn view(&self) -> LocateStepModel {
        match self {
            LocateStep::Found => LocateStepModel::Found,
            LocateStep::Redirected(path) => LocateStepModel::Redirected(path@),
            LocateStep::Ascend => LocateStepModel::Ascend,
            LocateStep::Failed(error) => LocateStepModel::Failed(*error),
        }
    }
}

/// What to do after finding `probe` in a directory that has a parent or has
/// none. A directory ends the search, and so does a file: it either points
/// at the metadata directory or is broken. Only where there is nothing does
/// the search go up, and it fails at the root.
pub open spec fn next_step(probe: ProbeModel, has_parent: bool) -> LocateStepModel {
    match probe {
        ProbeModel::Directory => LocateStepModel::Found,
        ProbeModel::File(Some(content)) => match gitdir_pointer(content) {
            Some(path) => LocateStepModel::Redirected(path),
            None => LocateStepModel::Failed(LocateError::InvalidGitFile),
        },
        ProbeModel::File(None) => LocateStepModel::Failed(LocateError::MetadataReadFailure),
        ProbeModel::Absent => if has_parent {
            LocateStepModel::Ascend
        } else {
            LocateStepModel::Failed(LocateError::NotARepository)
        },
    }
}

/// What to do after finding `probe` in a directory that has a parent or has
/// none.
pub fn locate_step(probe: &Probe, has_parent: bool) -> (step: LocateStep)
    ensures
        step@ == next_step(probe@, has_parent),
{
    match probe {
        Probe::Directory => LocateStep::Found,
        Probe::File(Some(content)) => match gitdir_from_redirect(content.as_str()) {
            Some(path) => LocateStep::Redirected(path),
            None => LocateStep::Failed(LocateError::InvalidGitFile),
        },
        Probe::File(None) => LocateStep::Failed(LocateError::MetadataReadFailure),
        Probe::Absent => if has_parent {
            LocateStep::Ascend
        } else {
            LocateStep::Failed(LocateError::NotARepository)
        },
    }
}

} // verus!
