//! The token that displays the counts of pending changes.

use vstd::prelude::*;
use crate::changes::{category_order, Category, ChangeCounts, ChangesSummary};
use crate::decimal::{decimal, is_digit, lemma_decimal_is_digits, push_decimal};

verus! {

/// The glyphs of a token: one for each category, and one for a clean tree.
#[derive(Clone, Copy, Debug, PartialEq, Eq, Structural)]
pub struct SymbolTable {
    pub staged: char,
    pub renamed: char,
    pub modified: char,
    pub deleted: char,
    pub untracked: char,
    pub clean: char,
}

impl SymbolTable {
    /// The table of the standard notation: `^` staged, `~` renamed,
    /// `~` modified, `-` deleted, `+` untracked and `✓` clean.
    ///
    /// Renamed and modified share their glyph there, so a token such as
    /// `~3` does not say which of the two it counts. The notation is kept
    /// as it is for the sake of the prompts that read it;
    /// [`SymbolTable::with_renamed`] gives renamed a glyph of its own.
    pub open spec fn standard_table() -> SymbolTable {
        SymbolTable {
            staged: '^',
            renamed: '~',
            modified: '~',
            deleted: '-',
            untracked: '+',
            clean: '✓',
        }
    }

    /// The glyph of one category.
    pub open spec fn symbol(self, category: Category) -> char {
        match category {
            Category::Staged => self.staged,
            Category::Renamed => self.renamed,
            Category::Modified => self.modified,
            Category::Deleted => self.deleted,
            Category::Untracked => self.untracked,
        }
    }

    /// Whether `c` is the glyph of some category.
    pub open spec fn is_glyph(self, c: char) -> bool {
        c == self.staged || c == self.renamed || c == self.modified || c == self.deleted || c
            == self.untracked
    }

    /// The table of the standard notation.
    pub fn standard() -> (table: SymbolTable)
        ensures
            table == Self::standard_table(),
    {
        SymbolTable {
            staged: '^',
            renamed: '~',
            modified: '~',
            deleted: '-',
            untracked: '+',
            clean: '✓',
        }
    }

    /// This table with `glyph` for renamed entries, and nothing else changed.
    pub fn with_renamed(self, glyph: char) -> (table: SymbolTable)
        ensures
            table == (SymbolTable { renamed: glyph, ..self }),
    {
        SymbolTable { renamed: glyph, ..self }
    }
}

impl Default for SymbolTable {
    fn default() -> (table: SymbolTable)
        ensures
            table == SymbolTable::standard_table(),
    {
        SymbolTable::standard()
    }
}

/// What a token shows of one category: nothing for a count of zero, else the
/// glyph followed by the count in decimal notation.
pub open spec fn category_token(symbol: char, count: nat) -> Seq<char> {
    if count == 0 {
        Seq::empty()
    } else {
        seq![symbol] + decimal(count)
    }
}

/// The token of `counts`: the clean glyph alone where every count is zero,
/// else what each category shows, in token order and with nothing between.
pub open spec fn change_token(counts: ChangeCounts, table: SymbolTable) -> Seq<char> {
    if counts.is_clean() {
        seq![table.clean]
    } else {
        category_token(table.staged, counts.staged) + category_token(
            table.renamed,
            counts.renamed,
        ) + category_token(table.modified, counts.modified) + category_token(
            table.deleted,
            counts.deleted,
        ) + category_token(table.untracked, counts.untracked)
    }
}

/// The glyph and the count of one category, as a token shows them.
pub open spec fn category_entry(counts: ChangeCounts, table: SymbolTable) -> spec_fn(
    Category,
) -> Seq<char> {
    |category: Category| seq![table.symbol(category)] + decimal(counts.get(category))
}

/// The entries of those of `categories` that have a count above zero, one
/// after the other in the order of `categories`, with nothing between.
pub open spec fn listed_entries(
    counts: ChangeCounts,
    table: SymbolTable,
    categories: Seq<Category>,
) -> Seq<char> {
    categories.filter(counts.is_nonzero()).map_values(category_entry(counts, table)).flatten()
}

/// Listing one more category appends what a token shows of it.
proof fn lemma_listed_entries_push(
    counts: ChangeCounts,
    table: SymbolTable,
    categories: Seq<Category>,
    next: Category,
)
    ensures
        listed_entries(counts, table, categories.push(next)) == listed_entries(
            counts,
            table,
            categories,
        ) + category_token(table.symbol(next), counts.get(next)),
{
    let kept = categories.filter(counts.is_nonzero());
    let entry = category_entry(counts, table);
    categories.lemma_filter_push(next, counts.is_nonzero());
    if counts.get(next) > 0 {
        kept.lemma_push_map_commute(entry, next);
        kept.map_values(entry).lemma_flatten_push(entry(next));
    } else {
        assert(listed_entries(counts, table, categories) + Seq::<char>::empty()
            == listed_entries(counts, table, categories));
    }
}

/// A token that is not the clean glyph holds exactly one entry, glyph and
/// count, for each category with a count above zero, in token order, and
/// nothing else: no separator, and no entry for a count of zero.
pub proof fn lemma_token_lists_nonzero_categories(counts: ChangeCounts, table: SymbolTable)
    requires
        !counts.is_clean(),
    ensures
        change_token(counts, table) == counts.nonzero_categories().map_values(
            category_entry(counts, table),
        ).flatten(),
{
    let none = Seq::<Category>::empty();
    let c1 = none.push(Category::Staged);
    let c2 = c1.push(Category::Renamed);
    let c3 = c2.push(Category::Modified);
    let c4 = c3.push(Category::Deleted);
    let c5 = c4.push(Category::Untracked);
    assert(listed_entries(counts, table, none) == Seq::<char>::empty()) by {
        reveal(Seq::filter);
        assert(none.filter(counts.is_nonzero()).map_values(category_entry(counts, table))
            == Seq::<Seq<char>>::empty());
    }
    lemma_listed_entries_push(counts, table, none, Category::Staged);
    lemma_listed_entries_push(counts, table, c1, Category::Renamed);
    lemma_listed_entries_push(counts, table, c2, Category::Modified);
    lemma_listed_entries_push(counts, table, c3, Category::Deleted);
    lemma_listed_entries_push(counts, table, c4, Category::Untracked);
    assert(c5 == category_order());
    assert(change_token(counts, table) == listed_entries(counts, table, c5));
}

/// A token that is not the clean glyph is made of glyphs and digits alone:
/// nothing separates one entry from the next.
pub proof fn lemma_token_holds_glyphs_and_digits(counts: ChangeCounts, table: SymbolTable)
    requires
        !counts.is_clean(),
    ensures
        forall|i: int|
            0 <= i < change_token(counts, table).len() ==> {
                let c = #[trigger] change_token(counts, table)[i];
                table.is_glyph(c) || is_digit(c)
            },
{
    lemma_decimal_is_digits(counts.staged);
    lemma_decimal_is_digits(counts.renamed);
    lemma_decimal_is_digits(counts.modified);
    lemma_decimal_is_digits(counts.deleted);
    lemma_decimal_is_digits(counts.untracked);
}

/// Appends what a token shows of one category.
fn push_category(out: &mut String, symbol: char, count: usize)
    ensures
        final(out)@ == old(out)@ + category_token(symbol, count as nat),
{
    if count > 0 {
        out.push(symbol);
        push_decimal(out, count);
        assert(old(out)@.push(symbol) + decimal(count as nat) == old(out)@ + (seq![symbol]
            + decimal(count as nat)));
    } else {
        assert(old(out)@ + Seq::<char>::empty() == old(out)@);
    }
}

impl ChangesSummary {
    /// The token of these counts in the standard notation: `✓` alone where
    /// every count is zero, else one entry for each count above zero.
    pub fn format(&self) -> (token: String)
        ensures
            token@ == change_token(self@, SymbolTable::standard_table()),
            self@.is_clean() ==> token@ == seq!['✓'],
            !self@.is_clean() ==> token@ == self@.nonzero_categories().map_values(
                category_entry(self@, SymbolTable::standard_table()),
            ).flatten(),
    {
        let table = SymbolTable::standard();
        self.format_with(&table)
    }

    /// The token of these counts with the glyphs of `table`.
    pub fn format_with(&self, table: &SymbolTable) -> (token: String)
        ensures
            token@ == change_token(self@, *table),
            self@.is_clean() ==> token@ == seq![table.clean],
            !self@.is_clean() ==> token@ == self@.nonzero_categories().map_values(
                category_entry(self@, *table),
            ).flatten(),
    {
        let mut out = String::new();
        if self.is_clean() {
            out.push(table.clean);
            assert(out@ == seq![table.clean]);
            return out;
        }
        proof {
            lemma_token_lists_nonzero_categories(self@, *table);
        }
        push_category(&mut out, table.staged, self.staged);
        push_category(&mut out, table.renamed, self.renamed);
        push_category(&mut out, table.modified, self.modified);
        push_category(&mut out, table.deleted, self.deleted);
        push_category(&mut out, table.untracked, self.untracked);
        assert(out@ == change_token(self@, *table));
        out
    }
}

} // verus!
