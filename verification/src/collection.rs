//! All cards of a data set, built once from its records.

use crate::card::{build_card, can_build, Card, CardView};
use crate::db;
use crate::error::Error;
use vstd::prelude::*;

verus! {

/// The cards of a data set, in the order of its records.
#[derive(Debug, Default)]
pub struct Collection<'a> {
    pub cards: Vec<Card<'a>>,
}

impl<'a> View for Collection<'a> {
    type V = Seq<CardView>;

    open spec fn view(&self) -> Seq<CardView> {
        self.cards@.map_values(|card: Card<'a>| card@)
    }
}

/// Whether a card can be built from every record of `records`.
pub open spec fn all_can_build(records: Seq<db::CardView>) -> bool {
    forall|i: int| 0 <= i < records.len() ==> can_build(#[trigger] records[i])
}

/// Whether `cards` are the cards built from `records`, one for one and in
/// the same order, with the keywords resolved against `keywords`.
pub open spec fn built_from(
    cards: Seq<CardView>,
    records: Seq<db::CardView>,
    keywords: Seq<db::KeywordView>,
) -> bool {
    &&& cards.len() == records.len()
    &&& forall|i: int|
        0 <= i < records.len() ==> build_card(#[trigger] records[i], keywords) == Ok::<
            CardView,
            Error,
        >(cards[i])
}

impl<'a> Collection<'a> {
    /// Builds the card of every record of the data set, or gives the error of
    /// the first record that holds a malformed card code.
    pub fn try_new(db: &'a db::Db) -> (built: Result<Collection<'a>, Error>)
        ensures
            built is Ok <==> all_can_build(db.deep_view().collection),
            built matches Ok(collection) ==> built_from(
                collection@,
                db.deep_view().collection,
                db.deep_view().globals.keywords,
            ),
            built matches Err(e) ==> e == Error::MalformedCardCode,
    {
        let records = &db.collection.0;
        let ghost values = db.deep_view().collection;
        let ghost keywords = db.deep_view().globals.keywords;
        let mut cards: Vec<Card<'a>> = Vec::new();
        let mut i: usize = 0;
        while i < records.len()
            invariant
                values == db.deep_view().collection,
                values == records.deep_view(),
                keywords == db.globals.keywords.deep_view(),
                i <= records@.len(),
                cards@.len() == i,
                forall|j: int| 0 <= j < i ==> can_build(#[trigger] values[j]),
                forall|j: int|
                    0 <= j < i ==> build_card(#[trigger] values[j], keywords) == Ok::<
                        CardView,
                        Error,
                    >(cards@[j]@),
            decreases records@.len() - i,
        {
            assert(values[i as int] == records@[i as int].deep_view());
            match Card::try_from(&records[i], &db.globals.keywords) {
                Ok(card) => {
                    cards.push(card);
                },
                Err(e) => {
                    return Err(e);
                },
            }
            i += 1;
        }
        Ok(Collection { cards })
    }

    /// Builds the card of every record of a data set whose card codes are
    /// all well formed.
    pub fn new(db: &'a db::Db) -> (collection: Collection<'a>)
        requires
            all_can_build(db.deep_view().collection),
        ensures
            built_from(collection@, db.deep_view().collection, db.deep_view().globals.keywords),
    {
        match Collection::try_new(db) {
            Ok(collection) => collection,
            Err(_) => {
                proof {
                    assert(false);
                }
                Collection { cards: Vec::new() }
            },
        }
    }
}

} // verus!
