pub mod branch;
pub mod changes;
pub mod cli;
pub mod decimal;
pub mod locator;
pub mod metadata;
pub mod refname;
pub mod resolve;
pub mod status;
pub mod text;
pub mod token;

pub use branch::{BranchIdentity, ResolveError, UpstreamIdentity};
pub use changes::{
    get_changes_summary, Category, ChangesSummary, PassOutcome, StagedChange, UntrackedPolicy,
    WorktreeChange,
};
pub use status::GitStatus;
pub use token::SymbolTable;
