//! The status line: branch, upstream and change token.

use vstd::prelude::*;
use crate::branch::{BranchIdentity, ResolveError, UpstreamIdentity};
use crate::changes::{ChangeCounts, ChangesSummary};
use crate::token::{change_token, SymbolTable};

verus! {

/// The mathematical content of a [`GitStatus`].
pub struct StatusModel {
    pub branch: Seq<char>,
    pub upstream: Option<Seq<char>>,
    pub changes: ChangeCounts,
}

impl StatusModel {
    /// Whether the line shows the upstream: there is one, and it does not
    /// read as the branch does.
    pub open spec fn shows_upstream(self) -> bool {
        self.upstream matches Some(upstream) && upstream != self.branch
    }

    /// The status line: the branch, the upstream where it is shown, and the
    /// change token, with one space between each two.
    pub open spec fn line(self, table: SymbolTable) -> Seq<char> {
        let token = change_token(self.changes, table);
        if self.shows_upstream() {
            self.branch + seq![' '] + self.upstream->0 + seq![' '] + token
        } else {
            self.branch + seq![' '] + token
        }
    }
}

/// What a status line reports: what the branch and its upstream are shown
/// as, and the counts of pending changes.
#[derive(Clone, Debug, PartialEq, Eq)]
pub struct GitStatus {
    pub current_branch: String,
    pub upstream_branch: Option<String>,
    pub changes: ChangesSummary,
}

impl View for GitStatus {
    type V = StatusModel;

    open spec fn view(&self) -> StatusModel {
        StatusModel {
            branch: self.current_branch@,
            upstream: match self.upstream_branch {
                Some(upstream) => Some(upstream@),
                None => None,
            },
            changes: self.changes@,
        }
    }
}

impl GitStatus {
    /// The report for a branch, what resolving its upstream gave, and the
    /// counts. An upstream that could not be resolved is an absent one.
    pub fn from_parts(
        branch: &BranchIdentity,
        upstream: &Result<UpstreamIdentity, ResolveError>,
        changes: ChangesSummary,
    ) -> (status: GitStatus)
        ensures
            status@ == (StatusModel {
                branch: branch@.label(),
                upstream: match upstream {
                    Ok(found) => Some(found@.display()),
                    Err(_) => None,
                },
                changes: changes@,
            }),
    {
        let upstream_branch = match upstream {
            Ok(found) => Some(found.display()),
            Err(_) => None,
        };
        GitStatus { current_branch: branch.label(), upstream_branch, changes }
    }

    /// The status line in the standard notation.
    pub fn format(&self) -> (line: String)
        ensures
            line@ == self@.line(SymbolTable::standard_table()),
            self@.upstream == Some(self@.branch) ==> line@ == self@.branch + seq![' ']
                + change_token(self@.changes, SymbolTable::standard_table()),
            self@.shows_upstream() ==> line@ == self@.branch + seq![' '] + self@.upstream->0
                + seq![' '] + change_token(
                self@.changes,
                SymbolTable::standard_table(),
            ),
    {
        let table = SymbolTable::standard();
        self.format_with(&table)
    }

    /// The status line with the glyphs of `table`.
    pub fn format_with(&self, table: &SymbolTable) -> (line: String)
        ensures
            line@ == self@.line(*table),
            self@.upstream == Some(self@.branch) ==> line@ == self@.branch + seq![' ']
                + change_token(self@.changes, *table),
            self@.shows_upstream() ==> line@ == self@.branch + seq![' '] + self@.upstream->0
                + seq![' '] + change_token(
                self@.changes,
                *table,
            ),
    {
        let mut line = self.current_branch.clone();
        match &self.upstream_branch {
            Some(upstream) => {
                if *upstream != self.current_branch {
                    line.push(' ');
                    line.append(upstream.as_str());
                }
            },
            None => {},
        }
        line.push(' ');
        let token = self.changes.format_with(table);
        line.append(token.as_str());
        line
    }
}

} // verus!
