//! Counts of pending changes, and how the two comparison passes fill them.

use vstd::prelude::*;

verus! {

/// The five kinds of pending change, in the order in which a token lists
/// them.
#[derive(Clone, Copy, Debug, PartialEq, Eq, Structural)]
pub enum Category {
    Staged,
    Renamed,
    Modified,
    Deleted,
    Untracked,
}

/// The order of the categories in a token.
pub open spec fn category_order() -> Seq<Category> {
    seq![
        Category::Staged,
        Category::Renamed,
        Category::Modified,
        Category::Deleted,
        Category::Untracked,
    ]
}

/// The mathematical content of a [`ChangesSummary`]: one count for each
/// category.
pub struct ChangeCounts {
    pub staged: nat,
    pub renamed: nat,
    pub modified: nat,
    pub deleted: nat,
    pub untracked: nat,
}

impl ChangeCounts {
    /// No change of any kind.
    pub open spec fn zero() -> ChangeCounts {
        ChangeCounts { staged: 0, renamed: 0, modified: 0, deleted: 0, untracked: 0 }
    }

    /// The count of one category.
    pub open spec fn get(self, category: Category) -> nat {
        match category {
            Category::Staged => self.staged,
            Category::Renamed => self.renamed,
            Category::Modified => self.modified,
            Category::Deleted => self.deleted,
            Category::Untracked => self.untracked,
        }
    }

    /// These counts with one more change of the given category.
    pub open spec fn plus_one(self, category: Category) -> ChangeCounts {
        match category {
            Category::Staged => ChangeCounts { staged: self.staged + 1, ..self },
            Category::Renamed => ChangeCounts { renamed: self.renamed + 1, ..self },
            Category::Modified => ChangeCounts { modified: self.modified + 1, ..self },
            Category::Deleted => ChangeCounts { deleted: self.deleted + 1, ..self },
            Category::Untracked => ChangeCounts { untracked: self.untracked + 1, ..self },
        }
    }

    /// The number of changes of all categories together.
    pub open spec fn total(self) -> nat {
        self.staged + self.renamed + self.modified + self.deleted + self.untracked
    }

    /// Whether every category is zero.
    pub open spec fn is_clean(self) -> bool {
        self.staged == 0 && self.modified == 0 && self.deleted == 0 && self.renamed == 0
            && self.untracked == 0
    }

    /// The test that picks the categories with a count above zero.
    pub open spec fn is_nonzero(self) -> spec_fn(Category) -> bool {
        |category: Category| self.get(category) > 0
    }

    /// The categories with a count above zero, in token order.
    pub open spec fn nonzero_categories(self) -> Seq<Category> {
        category_order().filter(self.is_nonzero())
    }
}

/// Counts of pending changes, one for each category.
#[derive(Clone, Copy, Debug, PartialEq, Eq, Structural)]
pub struct ChangesSummary {
    pub staged: usize,
    pub modified: usize,
    pub deleted: usize,
    pub renamed: usize,
    pub untracked: usize,
}

impl View for ChangesSummary {
    type V = ChangeCounts;

    open spec fn view(&self) -> ChangeCounts {
        ChangeCounts {
            staged: self.staged as nat,
            renamed: self.renamed as nat,
            modified: self.modified as nat,
            deleted: self.deleted as nat,
            untracked: self.untracked as nat,
        }
    }
}

impl Default for ChangesSummary {
    fn default() -> (summary: ChangesSummary)
        ensures
            summary@ == ChangeCounts::zero(),
    {
        ChangesSummary { staged: 0, modified: 0, deleted: 0, renamed: 0, untracked: 0 }
    }
}

impl ChangesSummary {
    /// Whether every category is zero.
    pub fn is_clean(&self) -> (clean: bool)
        ensures
            clean == self@.is_clean(),
    {
        self.staged == 0 && self.modified == 0 && self.deleted == 0 && self.renamed == 0
            && self.untracked == 0
    }
}

/// How the index differs from the committed tree at one path.
#[derive(Clone, Copy, Debug, PartialEq, Eq, Structural)]
pub enum StagedChange {
    /// The index holds an entry that the tree lacks.
    Addition,
    /// Both hold the entry, with another content or mode.
    Modification,
    /// The tree holds an entry that the index lacks.
    Deletion,
    /// The entry was moved or copied to this path.
    Rewrite,
}

/// How the working tree differs from the index at one path.
#[derive(Clone, Copy, Debug, PartialEq, Eq, Structural)]
pub enum WorktreeChange {
    /// A file that the index does not know.
    Added,
    /// A tracked entry that is gone from disk.
    Removed,
    /// A tracked entry whose content differs.
    Modified,
    /// A tracked entry that became something else, such as a directory.
    TypeChange,
    /// A tracked entry with an unresolved merge.
    Conflict,
    /// A tracked entry found again under another path.
    Renamed,
    /// A tracked entry found a second time under another path.
    Copied,
    /// An entry that the index only promises to add.
    IntentToAdd,
}

/// What to do about files that the index does not know.
#[derive(Clone, Copy, Debug, PartialEq, Eq, Structural)]
pub enum UntrackedPolicy {
    /// Do not look for them at all.
    Exclude,
    /// Count a directory that holds nothing tracked as one.
    Collapse,
    /// Count every file.
    Enumerate,
}

/// What one comparison pass handed over.
#[derive(Clone, Debug, PartialEq, Eq)]
pub enum PassOutcome<T> {
    /// The pass ran to its end and found these entries, in order.
    Completed(Vec<T>),
    /// The index could not be opened, or the walk broke off.
    Failed,
}

impl<T> PassOutcome<T> {
    /// The entries that count: those of a completed pass, none of a failed
    /// one.
    pub open spec fn entries(self) -> Seq<T> {
        match self {
            PassOutcome::Completed(found) => found@,
            PassOutcome::Failed => Seq::empty(),
        }
    }
}

/// The category that one entry of the working-tree pass falls under, if any.
/// An entry without a change falls under none, and neither does an unknown
/// file where the policy excludes them.
pub open spec fn worktree_category(
    policy: UntrackedPolicy,
    entry: Option<WorktreeChange>,
) -> Option<Category> {
    match entry {
        None => None,
        Some(WorktreeChange::Added) => if policy == UntrackedPolicy::Exclude {
            None
        } else {
            Some(Category::Untracked)
        },
        Some(WorktreeChange::Removed) => Some(Category::Deleted),
        Some(WorktreeChange::Modified) => Some(Category::Modified),
        Some(WorktreeChange::TypeChange) => Some(Category::Modified),
        Some(WorktreeChange::Conflict) => Some(Category::Modified),
        Some(WorktreeChange::Renamed) => Some(Category::Renamed),
        Some(WorktreeChange::Copied) => Some(Category::Renamed),
        Some(WorktreeChange::IntentToAdd) => Some(Category::Staged),
    }
}

/// The test that picks the entries of one category.
pub open spec fn falls_under(policy: UntrackedPolicy, category: Category) -> spec_fn(
    Option<WorktreeChange>,
) -> bool {
    |entry: Option<WorktreeChange>| worktree_category(policy, entry) == Some(category)
}

/// The number of entries of the working-tree pass that fall under `category`.
pub open spec fn worktree_count(
    policy: UntrackedPolicy,
    entries: Seq<Option<WorktreeChange>>,
    category: Category,
) -> nat {
    entries.filter(falls_under(policy, category)).len()
}

/// Whether the staged pass is to run: it was asked for, and there is a
/// committed tree to hold the index against. On an unborn branch there is
/// none.
pub open spec fn staged_pass_runs(include_staged: bool, has_committed_tree: bool) -> bool {
    include_staged && has_committed_tree
}

/// The counts that the two passes give together. The staged pass counts each
/// of its entries as staged, whatever its kind, and counts nothing where it
/// does not run. The working-tree pass counts each entry under the one
/// category it falls under.
pub open spec fn summary_counts(
    include_staged: bool,
    has_committed_tree: bool,
    tree_index: Seq<StagedChange>,
    policy: UntrackedPolicy,
    index_worktree: Seq<Option<WorktreeChange>>,
) -> ChangeCounts {
    let from_tree: nat = if staged_pass_runs(include_staged, has_committed_tree) {
        tree_index.len()
    } else {
        0
    };
    ChangeCounts {
        staged: from_tree + worktree_count(policy, index_worktree, Category::Staged),
        renamed: worktree_count(policy, index_worktree, Category::Renamed),
        modified: worktree_count(policy, index_worktree, Category::Modified),
        deleted: worktree_count(policy, index_worktree, Category::Deleted),
        untracked: worktree_count(policy, index_worktree, Category::Untracked),
    }
}

/// The test that picks the entries that fall under some category.
pub open spec fn is_counted(policy: UntrackedPolicy) -> spec_fn(Option<WorktreeChange>) -> bool {
    |entry: Option<WorktreeChange>| worktree_category(policy, entry) is Some
}

/// The working-tree pass counts each entry once at most: the five counts
/// together are the number of entries that fall under a category.
pub proof fn lemma_worktree_entries_count_once(
    policy: UntrackedPolicy,
    entries: Seq<Option<WorktreeChange>>,
)
    ensures
        worktree_count(policy, entries, Category::Staged) + worktree_count(
            policy,
            entries,
            Category::Renamed,
        ) + worktree_count(policy, entries, Category::Modified) + worktree_count(
            policy,
            entries,
            Category::Deleted,
        ) + worktree_count(policy, entries, Category::Untracked) == entries.filter(
            is_counted(policy),
        ).len(),
        entries.filter(is_counted(policy)).len() <= entries.len(),
    decreases entries.len(),
{
    if entries.len() == 0 {
        reveal(Seq::filter);
    } else {
        let rest = entries.drop_last();
        let last = entries.last();
        assert(entries == rest.push(last));
        lemma_worktree_entries_count_once(policy, rest);
        rest.lemma_filter_len_push(falls_under(policy, Category::Staged), last);
        rest.lemma_filter_len_push(falls_under(policy, Category::Renamed), last);
        rest.lemma_filter_len_push(falls_under(policy, Category::Modified), last);
        rest.lemma_filter_len_push(falls_under(policy, Category::Deleted), last);
        rest.lemma_filter_len_push(falls_under(policy, Category::Untracked), last);
        rest.lemma_filter_len_push(is_counted(policy), last);
    }
}

/// No entry is counted twice, in one pass or across the two: the counts
/// together are the entries of the staged pass, where it runs, and the
/// entries of the working-tree pass that fall under a category.
pub proof fn lemma_summary_counts_each_entry_once(
    include_staged: bool,
    has_committed_tree: bool,
    tree_index: Seq<StagedChange>,
    policy: UntrackedPolicy,
    index_worktree: Seq<Option<WorktreeChange>>,
)
    ensures
        summary_counts(
            include_staged,
            has_committed_tree,
            tree_index,
            policy,
            index_worktree,
        ).total() == (if staged_pass_runs(include_staged, has_committed_tree) {
            tree_index.len()
        } else {
            0
        }) + index_worktree.filter(is_counted(policy)).len(),
        summary_counts(
            include_staged,
            has_committed_tree,
            tree_index,
            policy,
            index_worktree,
        ).total() <= tree_index.len() + index_worktree.len(),
{
    lemma_worktree_entries_count_once(policy, index_worktree);
}

/// Where no entry falls under a category, its count is zero.
proof fn lemma_worktree_count_zero(
    policy: UntrackedPolicy,
    entries: Seq<Option<WorktreeChange>>,
    category: Category,
)
    requires
        forall|i: int|
            0 <= i < entries.len() ==> worktree_category(policy, #[trigger] entries[i]) != Some(
                category,
            ),
    ensures
        worktree_count(policy, entries, category) == 0,
    decreases entries.len(),
{
    if entries.len() == 0 {
        reveal(Seq::filter);
    } else {
        let rest = entries.drop_last();
        assert(entries == rest.push(entries.last()));
        assert forall|i: int| 0 <= i < rest.len() implies worktree_category(
            policy,
            #[trigger] rest[i],
        ) != Some(category) by {
            assert(rest[i] == entries[i]);
        }
        lemma_worktree_count_zero(policy, rest, category);
        rest.lemma_filter_len_push(falls_under(policy, category), entries.last());
    }
}

/// On an unborn branch nothing counts as staged, whatever the index holds
/// and whatever was asked for. The one exception is left out by the
/// precondition: an entry that the index only promises to add is met by
/// the working-tree pass, which runs on an unborn branch too.
pub proof fn lemma_unborn_has_nothing_staged(
    include_staged: bool,
    tree_index: Seq<StagedChange>,
    policy: UntrackedPolicy,
    index_worktree: Seq<Option<WorktreeChange>>,
)
    requires
        forall|i: int|
            0 <= i < index_worktree.len() ==> #[trigger] index_worktree[i] != Some(
                WorktreeChange::IntentToAdd,
            ),
    ensures
        summary_counts(include_staged, false, tree_index, policy, index_worktree).staged == 0,
{
    lemma_worktree_count_zero(policy, index_worktree, Category::Staged);
}

/// Whether the staged pass is to run.
pub fn staged_pass_applies(include_staged: bool, has_committed_tree: bool) -> (runs: bool)
    ensures
        runs == staged_pass_runs(include_staged, has_committed_tree),
{
    include_staged && has_committed_tree
}

impl UntrackedPolicy {
    /// Whether the working tree has to be walked for unknown files. Under
    /// `Exclude` the walk is left out, not filtered afterwards.
    pub fn walks_directories(&self) -> (walks: bool)
        ensures
            walks == (*self != UntrackedPolicy::Exclude),
    {
        match self {
            UntrackedPolicy::Exclude => false,
            UntrackedPolicy::Collapse => true,
            UntrackedPolicy::Enumerate => true,
        }
    }
}

/// The category that one entry of the working-tree pass falls under, if any.
pub fn classify_worktree_entry(policy: UntrackedPolicy, entry: Option<WorktreeChange>) -> (category:
    Option<Category>)
    ensures
        category == worktree_category(policy, entry),
{
    match entry {
        None => None,
        Some(WorktreeChange::Added) => match policy {
            UntrackedPolicy::Exclude => None,
            UntrackedPolicy::Collapse => Some(Category::Untracked),
            UntrackedPolicy::Enumerate => Some(Category::Untracked),
        },
        Some(WorktreeChange::Removed) => Some(Category::Deleted),
        Some(WorktreeChange::Modified) => Some(Category::Modified),
        Some(WorktreeChange::TypeChange) => Some(Category::Modified),
        Some(WorktreeChange::Conflict) => Some(Category::Modified),
        Some(WorktreeChange::Renamed) => Some(Category::Renamed),
        Some(WorktreeChange::Copied) => Some(Category::Renamed),
        Some(WorktreeChange::IntentToAdd) => Some(Category::Staged),
    }
}

impl ChangesSummary {
    /// The count of one category.
    pub fn count(&self, category: Category) -> (n: usize)
        ensures
            n == self@.get(category),
    {
        match category {
            Category::Staged => self.staged,
            Category::Renamed => self.renamed,
            Category::Modified => self.modified,
            Category::Deleted => self.deleted,
            Category::Untracked => self.untracked,
        }
    }

    /// Counts one more change of `category`.
    pub fn increment(&mut self, category: Category)
        requires
            old(self)@.get(category) < usize::MAX,
        ensures
            final(self)@ == old(self)@.plus_one(category),
    {
        match category {
            Category::Staged => {
                self.staged += 1;
            },
            Category::Renamed => {
                self.renamed += 1;
            },
            Category::Modified => {
                self.modified += 1;
            },
            Category::Deleted => {
                self.deleted += 1;
            },
            Category::Untracked => {
                self.untracked += 1;
            },
        }
    }

    /// Counts one entry of the staged pass: as staged, whatever its kind.
    pub fn record_staged(&mut self, change: StagedChange)
        requires
            old(self).staged < usize::MAX,
        ensures
            final(self)@ == old(self)@.plus_one(Category::Staged),
    {
        self.increment(Category::Staged);
    }

    /// Counts one entry of the working-tree pass under the category it falls
    /// under, if any.
    pub fn record_worktree(&mut self, policy: UntrackedPolicy, entry: Option<WorktreeChange>)
        requires
            worktree_category(policy, entry) matches Some(category) ==> old(self)@.get(category)
                < usize::MAX,
        ensures
            final(self)@ == match worktree_category(policy, entry) {
                Some(category) => old(self)@.plus_one(category),
                None => old(self)@,
            },
    {
        match classify_worktree_entry(policy, entry) {
            Some(category) => {
                self.increment(category);
            },
            None => {},
        }
    }
}

/// Counting the entries up to and with `entries[i]` is counting those before
/// it and then that one.
proof fn lemma_worktree_count_step(
    policy: UntrackedPolicy,
    entries: Seq<Option<WorktreeChange>>,
    i: int,
    category: Category,
)
    requires
        0 <= i < entries.len(),
    ensures
        worktree_count(policy, entries.take(i + 1), category) == worktree_count(
            policy,
            entries.take(i),
            category,
        ) + (if worktree_category(policy, entries[i]) == Some(category) {
            1nat
        } else {
            0nat
        }),
        worktree_count(policy, entries.take(i + 1), category) <= i + 1,
{
    assert(entries.take(i + 1) == entries.take(i).push(entries[i]));
    entries.take(i).lemma_filter_push(entries[i], falls_under(policy, category));
    entries.take(i + 1).lemma_filter_len(falls_under(policy, category));
}

/// The counts of the pending changes, from what the two passes found.
///
/// `tree_index` is what comparing the committed tree with the index gave,
/// `index_worktree` what comparing the index with the working tree gave. A
/// pass that failed counts as one that found nothing.
pub fn get_changes_summary(
    include_staged: bool,
    has_committed_tree: bool,
    tree_index: &PassOutcome<StagedChange>,
    policy: UntrackedPolicy,
    index_worktree: &PassOutcome<Option<WorktreeChange>>,
) -> (summary: ChangesSummary)
    requires
        tree_index.entries().len() + index_worktree.entries().len() <= usize::MAX,
    ensures
        summary@ == summary_counts(
            include_staged,
            has_committed_tree,
            tree_index.entries(),
            policy,
            index_worktree.entries(),
        ),
        !has_committed_tree ==> summary.staged == worktree_count(
            policy,
            index_worktree.entries(),
            Category::Staged,
        ),
{
    let mut summary = ChangesSummary::default();
    if staged_pass_applies(include_staged, has_committed_tree) {
        match tree_index {
            PassOutcome::Completed(found) => {
                let mut i: usize = 0;
                while i < found.len()
                    invariant
                        i <= found.len(),
                        summary@ == (ChangeCounts { staged: i as nat, ..ChangeCounts::zero() }),
                    decreases found.len() - i,
                {
                    summary.record_staged(found[i]);
                    i += 1;
                }
            },
            PassOutcome::Failed => {},
        }
    }
    let ghost from_tree = summary@.staged;
    let ghost entries = index_worktree.entries();
    proof {
        reveal(Seq::filter);
        assert(entries.take(0) == Seq::<Option<WorktreeChange>>::empty());
    }
    match index_worktree {
        PassOutcome::Completed(found) => {
            let mut i: usize = 0;
            while i < found.len()
                invariant
                    i <= found.len(),
                    found@ == entries,
                    from_tree + entries.len() <= usize::MAX,
                    summary@ == (ChangeCounts {
                        staged: from_tree + worktree_count(
                            policy,
                            entries.take(i as int),
                            Category::Staged,
                        ),
                        renamed: worktree_count(policy, entries.take(i as int), Category::Renamed),
                        modified: worktree_count(
                            policy,
                            entries.take(i as int),
                            Category::Modified,
                        ),
                        deleted: worktree_count(policy, entries.take(i as int), Category::Deleted),
                        untracked: worktree_count(
                            policy,
                            entries.take(i as int),
                            Category::Untracked,
                        ),
                    }),
                decreases found.len() - i,
            {
                proof {
                    lemma_worktree_count_step(policy, entries, i as int, Category::Staged);
                    lemma_worktree_count_step(policy, entries, i as int, Category::Renamed);
                    lemma_worktree_count_step(policy, entries, i as int, Category::Modified);
                    lemma_worktree_count_step(policy, entries, i as int, Category::Deleted);
                    lemma_worktree_count_step(policy, entries, i as int, Category::Untracked);
                }
                summary.record_worktree(policy, found[i]);
                i += 1;
            }
            assert(entries.take(i as int) == entries);
        },
        PassOutcome::Failed => {},
    }
    summary
}

} // verus!
