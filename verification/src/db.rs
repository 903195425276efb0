//! The raw data set: the records of the reference tables and of the cards,
//! field for field as the data files hold them.

use crate::text::str_eq;
use vstd::prelude::*;

verus! {

/// The whole data set: the reference tables and the cards of a set.
#[derive(Debug)]
pub struct Db {
    pub globals: Globals,
    pub collection: Collection,
}

/// The reference tables.
#[derive(Debug)]
pub struct Globals {
    pub regions: Vec<Region>,
    pub keywords: Vec<Keyword>,
    pub spell_speeds: Vec<SpellSpeed>,
    pub rarities: Vec<Rarity>,
}

/// An entry of the region table.
#[derive(Debug)]
pub struct Region {
    pub abbreviation: String,
    pub icon_absolute_path: String,
    pub name: String,
    pub name_ref: String,
}

/// An entry of the keyword table.
#[derive(Debug)]
pub struct Keyword {
    pub description: String,
    pub name: String,
    pub name_ref: String,
}

/// An entry of the spell-speed table.
#[derive(Debug)]
pub struct SpellSpeed {
    pub name: String,
    pub name_ref: String,
}

/// An entry of the rarity table.
#[derive(Debug)]
pub struct Rarity {
    pub name: String,
    pub name_ref: String,
}

/// The card records of a set, in the order of the data file.
#[derive(Debug)]
pub struct Collection(pub Vec<Card>);

/// The record of one card.
#[derive(Debug)]
pub struct Card {
    pub associated_cards: Vec<String>,
    pub associated_card_refs: Vec<String>,
    pub assets: Vec<Asset>,
    pub region: String,
    pub region_ref: String,
    pub attack: u8,
    pub cost: u8,
    pub health: u8,
    pub description: String,
    pub description_raw: String,
    pub levelup_description: String,
    pub levelup_description_raw: String,
    pub flavor_text: String,
    pub artist_name: String,
    pub name: String,
    pub card_code: String,
    pub keywords: Vec<String>,
    pub keyword_refs: Vec<String>,
    pub spell_speed: String,
    pub spell_speed_ref: String,
    pub rarity: String,
    pub rarity_ref: String,
    pub subtype: String,
    pub supertype: String,
    pub card_type: String,
    pub collectible: bool,
}

/// The two paths of a picture of a card.
#[derive(Debug)]
pub struct Asset {
    pub game_absolute_path: String,
    pub full_absolute_path: String,
}

/// Mathematical value of a [`Region`] entry.
pub struct RegionView {
    pub abbreviation: Seq<char>,
    pub icon_absolute_path: Seq<char>,
    pub name: Seq<char>,
    pub name_ref: Seq<char>,
}

/// Mathematical value of a [`Keyword`] entry.
pub struct KeywordView {
    pub description: Seq<char>,
    pub name: Seq<char>,
    pub name_ref: Seq<char>,
}

/// Mathematical value of a [`SpellSpeed`] entry.
pub struct SpellSpeedView {
    pub name: Seq<char>,
    pub name_ref: Seq<char>,
}

/// Mathematical value of a [`Rarity`] entry.
pub struct RarityView {
    pub name: Seq<char>,
    pub name_ref: Seq<char>,
}

/// Mathematical value of an [`Asset`] record.
pub struct AssetView {
    pub game_absolute_path: Seq<char>,
    pub full_absolute_path: Seq<char>,
}

/// Mathematical value of a [`Card`] record.
pub struct CardView {
    pub associated_cards: Seq<Seq<char>>,
    pub associated_card_refs: Seq<Seq<char>>,
    pub assets: Seq<AssetView>,
    pub region: Seq<char>,
    pub region_ref: Seq<char>,
    pub attack: u8,
    pub cost: u8,
    pub health: u8,
    pub description: Seq<char>,
    pub description_raw: Seq<char>,
    pub levelup_description: Seq<char>,
    pub levelup_description_raw: Seq<char>,
    pub flavor_text: Seq<char>,
    pub artist_name: Seq<char>,
    pub name: Seq<char>,
    pub card_code: Seq<char>,
    pub keywords: Seq<Seq<char>>,
    pub keyword_refs: Seq<Seq<char>>,
    pub spell_speed: Seq<char>,
    pub spell_speed_ref: Seq<char>,
    pub rarity: Seq<char>,
    pub rarity_ref: Seq<char>,
    pub subtype: Seq<char>,
    pub supertype: Seq<char>,
    pub card_type: Seq<char>,
    pub collectible: bool,
}

/// Mathematical value of the [`Globals`].
pub struct GlobalsView {
    pub regions: Seq<RegionView>,
    pub keywords: Seq<KeywordView>,
    pub spell_speeds: Seq<SpellSpeedView>,
    pub rarities: Seq<RarityView>,
}

/// Mathematical value of a [`Db`].
pub struct DbView {
    pub globals: GlobalsView,
    pub collection: Seq<CardView>,
}

impl DeepView for Region {
    type V = RegionView;

    open spec fn deep_view(&self) -> RegionView {
        RegionView {
            abbreviation: self.abbreviation@,
            icon_absolute_path: self.icon_absolute_path@,
            name: self.name@,
            name_ref: self.name_ref@,
        }
    }
}

impl DeepView for Keyword {
    type V = KeywordView;

    open spec fn deep_view(&self) -> KeywordView {
        KeywordView {
            description: self.description@,
            name: self.name@,
            name_ref: self.name_ref@,
        }
    }
}

impl DeepView for SpellSpeed {
    type V = SpellSpeedView;

    open spec fn deep_view(&self) -> SpellSpeedView {
        SpellSpeedView { name: self.name@, name_ref: self.name_ref@ }
    }
}

impl DeepView for Rarity {
    type V = RarityView;

    open spec fn deep_view(&self) -> RarityView {
        RarityView { name: self.name@, name_ref: self.name_ref@ }
    }
}

impl DeepView for Asset {
    type V = AssetView;

    open spec fn deep_view(&self) -> AssetView {
        AssetView {
            game_absolute_path: self.game_absolute_path@,
            full_absolute_path: self.full_absolute_path@,
        }
    }
}

impl DeepView for Card {
    type V = CardView;

    open spec fn deep_view(&self) -> CardView {
        CardView {
            associated_cards: self.associated_cards.deep_view(),
            associated_card_refs: self.associated_card_refs.deep_view(),
            assets: self.assets.deep_view(),
            region: self.region@,
            region_ref: self.region_ref@,
            attack: self.attack,
            cost: self.cost,
            health: self.health,
            description: self.description@,
            description_raw: self.description_raw@,
            levelup_description: self.levelup_description@,
            levelup_description_raw: self.levelup_description_raw@,
            flavor_text: self.flavor_text@,
            artist_name: self.artist_name@,
            name: self.name@,
            card_code: self.card_code@,
            keywords: self.keywords.deep_view(),
            keyword_refs: self.keyword_refs.deep_view(),
            spell_speed: self.spell_speed@,
            spell_speed_ref: self.spell_speed_ref@,
            rarity: self.rarity@,
            rarity_ref: self.rarity_ref@,
            subtype: self.subtype@,
            supertype: self.supertype@,
            card_type: self.card_type@,
            collectible: self.collectible,
        }
    }
}

impl DeepView for Collection {
    type V = Seq<CardView>;

    open spec fn deep_view(&self) -> Seq<CardView> {
        self.0.deep_view()
    }
}

impl DeepView for Globals {
    type V = GlobalsView;

    open spec fn deep_view(&self) -> GlobalsView {
        GlobalsView {
            regions: self.regions.deep_view(),
            keywords: self.keywords.deep_view(),
            spell_speeds: self.spell_speeds.deep_view(),
            rarities: self.rarities.deep_view(),
        }
    }
}

impl DeepView for Db {
    type V = DbView;

    open spec fn deep_view(&self) -> DbView {
        DbView { globals: self.globals.deep_view(), collection: self.collection.deep_view() }
    }
}

/// Whether `index` is the place of the first record of `cards` whose code is
/// `card_code`.
pub open spec fn is_first_with_code(cards: Seq<CardView>, card_code: Seq<char>, index: int) -> bool {
    &&& 0 <= index < cards.len()
    &&& cards[index].card_code == card_code
    &&& forall|j: int| 0 <= j < index ==> (#[trigger] cards[j]).card_code != card_code
}

/// Whether some record of `cards` has the code `card_code`.
pub open spec fn has_code(cards: Seq<CardView>, card_code: Seq<char>) -> bool {
    exists|i: int| 0 <= i < cards.len() && (#[trigger] cards[i]).card_code == card_code
}

impl Db {
    /// Puts the loaded tables and cards together.
    pub fn new(globals: Globals, collection: Collection) -> (db: Db)
        ensures
            db.deep_view() == (DbView {
                globals: globals.deep_view(),
                collection: collection.deep_view(),
            }),
    {
        Db { globals, collection }
    }

    /// The place of the first card record with the code `card_code`, if there
    /// is one.
    pub fn position(&self, card_code: &str) -> (found: Option<usize>)
        ensures
            found is Some <==> has_code(self.deep_view().collection, card_code@),
            found matches Some(index) ==> is_first_with_code(
                self.deep_view().collection,
                card_code@,
                index as int,
            ),
    {
        let cards = &self.collection.0;
        let ghost records = self.deep_view().collection;
        let mut i: usize = 0;
        while i < cards.len()
            invariant
                records == self.deep_view().collection,
                records == cards.deep_view(),
                i <= cards@.len(),
                forall|j: int| 0 <= j < i ==> (#[trigger] records[j]).card_code != card_code@,
            decreases cards@.len() - i,
        {
            assert(records[i as int] == cards@[i as int].deep_view());
            if str_eq(cards[i].card_code.as_str(), card_code) {
                return Some(i);
            }
            i += 1;
        }
        None
    }

    /// The first card record with the code `card_code`, if there is one.
    pub fn find(&self, card_code: &str) -> (found: Option<&Card>)
        ensures
            found is Some <==> has_code(self.deep_view().collection, card_code@),
            found matches Some(record) ==> exists|index: int|
                is_first_with_code(self.deep_view().collection, card_code@, index)
                    && record.deep_view() == self.deep_view().collection[index],
    {
        match self.position(card_code) {
            Some(index) => {
                assert(is_first_with_code(self.deep_view().collection, card_code@, index as int));
                Some(&self.collection.0[index])
            },
            None => None,
        }
    }
}

} // verus!
