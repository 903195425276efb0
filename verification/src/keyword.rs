//! Keywords of a card, resolved against the keyword table of the data set.

use crate::db;
use crate::keyword_type::{KeywordType, KeywordTypeView};
use crate::text::str_eq;
use vstd::prelude::*;

verus! {

/// A keyword as a card shows it: its display name, its kind and the text
/// that explains it. The texts are borrowed from the data set or from the
/// reference that was resolved.
#[derive(Debug, Eq, PartialEq, Ord, PartialOrd)]
pub struct Keyword<'a> {
    name: &'a str,
    name_ref: KeywordType,
    description: &'a str,
}

/// Mathematical value of a [`Keyword`].
pub struct KeywordView {
    pub name: Seq<char>,
    pub name_ref: KeywordTypeView,
    pub description: Seq<char>,
}

impl<'a> View for Keyword<'a> {
    type V = KeywordView;

    closed spec fn view(&self) -> KeywordView {
        KeywordView {
            name: self.name@,
            name_ref: self.name_ref@,
            description: self.description@,
        }
    }
}

/// Whether `index` is the place of the first entry of `table` whose
/// reference is `reference`.
pub open spec fn is_first_entry(table: Seq<db::KeywordView>, reference: Seq<char>, index: int) -> bool {
    &&& 0 <= index < table.len()
    &&& table[index].name_ref == reference
    &&& forall|j: int| 0 <= j < index ==> (#[trigger] table[j]).name_ref != reference
}

/// Whether no entry of `table` has the reference `reference`.
pub open spec fn has_no_entry(table: Seq<db::KeywordView>, reference: Seq<char>) -> bool {
    forall|j: int| 0 <= j < table.len() ==> (#[trigger] table[j]).name_ref != reference
}

impl KeywordView {
    /// The description of a keyword that the table does not hold.
    pub open spec fn placeholder() -> Seq<char> {
        "Keyword not implemented yet"@
    }

    /// The keyword that an entry of the table describes.
    pub open spec fn of_entry(entry: db::KeywordView) -> KeywordView {
        KeywordView {
            name: entry.name,
            name_ref: KeywordTypeView::parse(entry.name_ref),
            description: entry.description,
        }
    }

    /// The keyword that stands for a reference without an entry: it is named
    /// by the reference itself, and its kind is what the reference decodes to.
    pub open spec fn fallback(reference: Seq<char>) -> KeywordView {
        KeywordView {
            name: reference,
            name_ref: KeywordTypeView::parse(reference),
            description: KeywordView::placeholder(),
        }
    }

    /// The keyword that `reference` resolves to: that of the first entry of
    /// `table` with this reference, else the fallback.
    pub open spec fn resolve(table: Seq<db::KeywordView>, reference: Seq<char>) -> KeywordView
        decreases table.len(),
    {
        if table.len() == 0 {
            KeywordView::fallback(reference)
        } else if table[0].name_ref == reference {
            KeywordView::of_entry(table[0])
        } else {
            KeywordView::resolve(table.drop_first(), reference)
        }
    }
}

/// Entries that do not match are passed over.
proof fn lemma_resolve_skip(table: Seq<db::KeywordView>, reference: Seq<char>, count: int)
    requires
        0 <= count <= table.len(),
        forall|j: int| 0 <= j < count ==> (#[trigger] table[j]).name_ref != reference,
    ensures
        KeywordView::resolve(table, reference) == KeywordView::resolve(
            table.skip(count),
            reference,
        ),
    decreases count,
{
    if count == 0 {
        assert(table.skip(0) =~= table);
    } else {
        lemma_resolve_skip(table, reference, count - 1);
        let rest = table.skip(count - 1);
        assert(rest[0] == table[count - 1]);
        assert(rest.drop_first() =~= table.skip(count));
    }
}

/// A reference that the table holds resolves to the name, the kind and the
/// description of its first entry.
pub proof fn lemma_resolve_hit(table: Seq<db::KeywordView>, reference: Seq<char>, index: int)
    requires
        is_first_entry(table, reference, index),
    ensures
        KeywordView::resolve(table, reference) == KeywordView::of_entry(table[index]),
        KeywordView::resolve(table, reference).name == table[index].name,
        KeywordView::resolve(table, reference).description == table[index].description,
{
    lemma_resolve_skip(table, reference, index);
    assert(table.skip(index)[0] == table[index]);
}

/// Whether some entry of `table` has the reference `reference`.
pub open spec fn has_entry(table: Seq<db::KeywordView>, reference: Seq<char>) -> bool {
    exists|j: int| 0 <= j < table.len() && (#[trigger] table[j]).name_ref == reference
}

/// A reference that the table holds has a first entry.
pub proof fn lemma_first_entry_exists(table: Seq<db::KeywordView>, reference: Seq<char>) -> (index:
    int)
    requires
        has_entry(table, reference),
    ensures
        is_first_entry(table, reference, index),
    decreases table.len(),
{
    let j = choose|j: int| 0 <= j < table.len() && (#[trigger] table[j]).name_ref == reference;
    if table[0].name_ref == reference {
        0
    } else {
        let rest = table.drop_first();
        assert(rest[j - 1] == table[j]);
        let found = lemma_first_entry_exists(rest, reference);
        assert(table[found + 1] == rest[found]);
        assert forall|k: int| 0 <= k < found + 1 implies (#[trigger] table[k]).name_ref
            != reference by {
            if k > 0 {
                assert(table[k] == rest[k - 1]);
            }
        }
        found + 1
    }
}

/// Resolving a reference that the table holds gives the exact display name
/// and description of an entry with this reference, the first one.
pub proof fn lemma_resolve_present(table: Seq<db::KeywordView>, reference: Seq<char>)
    requires
        has_entry(table, reference),
    ensures
        exists|index: int|
            is_first_entry(table, reference, index) && KeywordView::resolve(table, reference)
                == KeywordView::of_entry(#[trigger] table[index]),
{
    let index = lemma_first_entry_exists(table, reference);
    lemma_resolve_hit(table, reference, index);
}

/// A reference that the table does not hold resolves to the fallback: a
/// keyword named by the reference, with the placeholder as its description.
pub proof fn lemma_resolve_miss(table: Seq<db::KeywordView>, reference: Seq<char>)
    requires
        has_no_entry(table, reference),
    ensures
        KeywordView::resolve(table, reference) == KeywordView::fallback(reference),
        KeywordView::resolve(table, reference).name == reference,
        KeywordView::resolve(table, reference).description == KeywordView::placeholder(),
{
    lemma_resolve_skip(table, reference, table.len() as int);
}

impl<'a> Keyword<'a> {
    /// Resolves a keyword reference against the keyword table. Always gives
    /// a keyword: a reference without an entry gets the fallback.
    pub fn resolve(table: &'a Vec<db::Keyword>, db_keyword: &'a str) -> (keyword: Keyword<'a>)
        ensures
            keyword@ == KeywordView::resolve(table.deep_view(), db_keyword@),
            has_no_entry(table.deep_view(), db_keyword@) ==> keyword@ == KeywordView::fallback(
                db_keyword@,
            ),
            forall|index: int|
                is_first_entry(table.deep_view(), db_keyword@, index) ==> keyword@
                    == KeywordView::of_entry(table.deep_view()[index]),
    {
        let ghost entries = table.deep_view();
        let mut i: usize = 0;
        while i < table.len()
            invariant
                entries == table.deep_view(),
                i <= table@.len(),
                forall|j: int| 0 <= j < i ==> (#[trigger] entries[j]).name_ref != db_keyword@,
            decreases table@.len() - i,
        {
            let entry = &table[i];
            assert(entries[i as int] == entry.deep_view());
            if str_eq(entry.name_ref.as_str(), db_keyword) {
                proof {
                    lemma_resolve_hit(entries, db_keyword@, i as int);
                }
                return Keyword {
                    name: entry.name.as_str(),
                    name_ref: KeywordType::from_str(entry.name_ref.as_str()),
                    description: entry.description.as_str(),
                };
            }
            i += 1;
        }
        proof {
            lemma_resolve_miss(entries, db_keyword@);
        }
        Keyword {
            name: db_keyword,
            name_ref: KeywordType::from_str(db_keyword),
            description: "Keyword not implemented yet",
        }
    }

    /// The display name.
    pub fn name(&self) -> (name: &'a str)
        ensures
            name@ == self@.name,
    {
        self.name
    }

    /// The kind of keyword.
    pub fn name_ref(&self) -> (name_ref: &KeywordType)
        ensures
            name_ref@ == self@.name_ref,
    {
        &self.name_ref
    }

    /// The text that explains the keyword.
    pub fn description(&self) -> (description: &'a str)
        ensures
            description@ == self@.description,
    {
        self.description
    }
}

} // verus!
