//! The typed card and the builder that makes it from a raw record.

use crate::card_code::{parse_card_code, CardCode, CardCodeView};
use crate::card_type::{Type, TypeView};
use crate::db;
use crate::error::Error;
use crate::keyword::{Keyword, KeywordView};
use crate::rarity::{Rarity, RarityView};
use crate::region::{Region, RegionView};
use crate::spell_speed::{SpellSpeed, SpellSpeedView};
use crate::subtype::{Subtype, SubtypeView};
use crate::supertype::{Supertype, SupertypeView};
use vstd::prelude::*;

verus! {

/// A picture of a card: its path inside the game and its path on disk, both
/// borrowed from the raw record, whose value it shares.
#[derive(Debug, Eq, PartialEq, Ord, PartialOrd)]
pub struct Asset<'a> {
    game_absolute_path: &'a str,
    full_absolute_path: &'a str,
}

impl<'a> View for Asset<'a> {
    type V = db::AssetView;

    closed spec fn view(&self) -> db::AssetView {
        db::AssetView {
            game_absolute_path: self.game_absolute_path@,
            full_absolute_path: self.full_absolute_path@,
        }
    }
}

impl<'a> Asset<'a> {
    /// Views a raw asset record: the asset has the value of the record.
    pub fn from(db_asset: &'a db::Asset) -> (asset: Asset<'a>)
        ensures
            asset@ == db_asset.deep_view(),
    {
        Asset {
            game_absolute_path: db_asset.game_absolute_path.as_str(),
            full_absolute_path: db_asset.full_absolute_path.as_str(),
        }
    }

    /// The path of the picture inside the game.
    pub fn game_absolute_path(&self) -> (path: &'a str)
        ensures
            path@ == self@.game_absolute_path,
    {
        self.game_absolute_path
    }

    /// The path of the picture on disk.
    pub fn full_absolute_path(&self) -> (path: &'a str)
        ensures
            path@ == self@.full_absolute_path,
    {
        self.full_absolute_path
    }
}

/// A card with every field decoded. The texts are borrowed from the raw
/// record that the card was built from.
#[derive(Debug, Eq, PartialEq, Ord, PartialOrd)]
pub struct Card<'a> {
    pub associated_cards: Vec<CardCode>,
    pub assets: Vec<Asset<'a>>,
    pub region: Region,
    pub attack: u8,
    pub cost: u8,
    pub health: u8,
    pub description: &'a str,
    pub levelup_description: &'a str,
    pub flavor_text: &'a str,
    pub artist_name: &'a str,
    pub name: &'a str,
    pub card_code: CardCode,
    pub keywords: Vec<Keyword<'a>>,
    pub spell_speed: SpellSpeed,
    pub rarity: Rarity,
    pub supertype: Supertype,
    pub subtype: Subtype,
    pub card_type: Type,
    pub collectible: bool,
}

/// Mathematical value of a [`Card`].
pub struct CardView {
    pub associated_cards: Seq<CardCodeView>,
    pub assets: Seq<db::AssetView>,
    pub region: RegionView,
    pub attack: u8,
    pub cost: u8,
    pub health: u8,
    pub description: Seq<char>,
    pub levelup_description: Seq<char>,
    pub flavor_text: Seq<char>,
    pub artist_name: Seq<char>,
    pub name: Seq<char>,
    pub card_code: CardCodeView,
    pub keywords: Seq<KeywordView>,
    pub spell_speed: SpellSpeedView,
    pub rarity: RarityView,
    pub supertype: SupertypeView,
    pub subtype: SubtypeView,
    pub card_type: TypeView,
    pub collectible: bool,
}

impl<'a> View for Card<'a> {
    type V = CardView;

    open spec fn view(&self) -> CardView {
        CardView {
            associated_cards: self.associated_cards@.map_values(|code: CardCode| code@),
            assets: self.assets@.map_values(|asset: Asset<'a>| asset@),
            region: self.region@,
            attack: self.attack,
            cost: self.cost,
            health: self.health,
            description: self.description@,
            levelup_description: self.levelup_description@,
            flavor_text: self.flavor_text@,
            artist_name: self.artist_name@,
            name: self.name@,
            card_code: self.card_code@,
            keywords: self.keywords@.map_values(|keyword: Keyword<'a>| keyword@),
            spell_speed: self.spell_speed@,
            rarity: self.rarity@,
            supertype: self.supertype@,
            subtype: self.subtype@,
            card_type: self.card_type@,
            collectible: self.collectible,
        }
    }
}

/// Whether every text of `codes` decodes as a card code.
pub open spec fn all_codes_decode(codes: Seq<Seq<char>>) -> bool {
    forall|i: int| 0 <= i < codes.len() ==> parse_card_code(#[trigger] codes[i]) is Ok
}

/// What a list of card-code texts decodes to: the decoded codes in the order
/// given, or the error if one of them is malformed.
pub open spec fn parse_card_codes(codes: Seq<Seq<char>>) -> Result<Seq<CardCodeView>, Error> {
    if all_codes_decode(codes) {
        Ok(Seq::new(codes.len(), |i: int| parse_card_code(codes[i])->Ok_0))
    } else {
        Err(Error::MalformedCardCode)
    }
}

/// The keywords that a list of references resolves to, in the order given.
pub open spec fn resolve_keywords(
    table: Seq<db::KeywordView>,
    references: Seq<Seq<char>>,
) -> Seq<KeywordView> {
    Seq::new(references.len(), |i: int| KeywordView::resolve(table, references[i]))
}

/// Whether a card can be built from `record`: its own code and the codes of
/// its associated cards decode. Nothing else in a record can fail.
pub open spec fn can_build(record: db::CardView) -> bool {
    parse_card_code(record.card_code) is Ok && all_codes_decode(record.associated_card_refs)
}

/// The card that is built from `record`, with the keywords resolved against
/// `keywords`; the error if one of its card codes is malformed.
pub open spec fn build_card(record: db::CardView, keywords: Seq<db::KeywordView>) -> Result<
    CardView,
    Error,
> {
    if can_build(record) {
        Ok(
            CardView {
                associated_cards: parse_card_codes(record.associated_card_refs)->Ok_0,
                assets: record.assets,
                region: RegionView::parse(record.region_ref),
                attack: record.attack,
                cost: record.cost,
                health: record.health,
                description: record.description,
                levelup_description: record.levelup_description,
                flavor_text: record.flavor_text,
                artist_name: record.artist_name,
                name: record.name,
                card_code: parse_card_code(record.card_code)->Ok_0,
                keywords: resolve_keywords(keywords, record.keyword_refs),
                spell_speed: SpellSpeedView::parse(record.spell_speed_ref),
                rarity: RarityView::parse(record.rarity_ref),
                supertype: SupertypeView::parse(record.supertype),
                subtype: SubtypeView::parse(record.subtype),
                card_type: TypeView::parse(record.card_type),
                collectible: record.collectible,
            },
        )
    } else {
        Err(Error::MalformedCardCode)
    }
}

/// Decodes the card codes of a list, in order, and stops at the first one
/// that is malformed.
pub fn decode_card_codes(codes: &Vec<String>) -> (decoded: Result<Vec<CardCode>, Error>)
    ensures
        decoded is Ok <==> all_codes_decode(codes.deep_view()),
        decoded matches Ok(list) ==> parse_card_codes(codes.deep_view()) == Ok::<
            Seq<CardCodeView>,
            Error,
        >(list@.map_values(|code: CardCode| code@)),
        decoded matches Err(e) ==> parse_card_codes(codes.deep_view()) == Err::<
            Seq<CardCodeView>,
            Error,
        >(e),
{
    let ghost texts = codes.deep_view();
    let mut list: Vec<CardCode> = Vec::new();
    let mut i: usize = 0;
    while i < codes.len()
        invariant
            texts == codes.deep_view(),
            i <= codes@.len(),
            list@.len() == i,
            forall|j: int| 0 <= j < i ==> parse_card_code(#[trigger] texts[j]) is Ok,
            forall|j: int|
                0 <= j < i ==> parse_card_code(texts[j]) == Ok::<CardCodeView, Error>(
                    (#[trigger] list@[j])@,
                ),
        decreases codes@.len() - i,
    {
        assert(texts[i as int] == codes@[i as int]@);
        match CardCode::from_str(codes[i].as_str()) {
            Ok(code) => {
                list.push(code);
            },
            Err(e) => {
                return Err(e);
            },
        }
        i += 1;
    }
    assert(list@.map_values(|code: CardCode| code@) =~= Seq::new(
        texts.len(),
        |i: int| parse_card_code(texts[i])->Ok_0,
    ));
    Ok(list)
}

/// Views the raw asset records of a list, in order.
pub fn borrow_assets<'a>(records: &'a Vec<db::Asset>) -> (assets: Vec<Asset<'a>>)
    ensures
        assets@.map_values(|asset: Asset<'a>| asset@) == records.deep_view(),
{
    let mut assets: Vec<Asset<'a>> = Vec::new();
    let mut i: usize = 0;
    while i < records.len()
        invariant
            i <= records@.len(),
            assets@.len() == i,
            forall|j: int| 0 <= j < i ==> (#[trigger] assets@[j])@ == records@[j].deep_view(),
        decreases records@.len() - i,
    {
        assets.push(Asset::from(&records[i]));
        i += 1;
    }
    assert(assets@.map_values(|asset: Asset<'a>| asset@) =~= records.deep_view());
    assets
}

/// Resolves the keyword references of a list, in order.
pub fn resolve_all<'a>(table: &'a Vec<db::Keyword>, references: &'a Vec<String>) -> (keywords: Vec<
    Keyword<'a>,
>)
    ensures
        keywords@.map_values(|keyword: Keyword<'a>| keyword@) == resolve_keywords(
            table.deep_view(),
            references.deep_view(),
        ),
{
    let ghost texts = references.deep_view();
    let mut keywords: Vec<Keyword<'a>> = Vec::new();
    let mut i: usize = 0;
    while i < references.len()
        invariant
            texts == references.deep_view(),
            i <= references@.len(),
            keywords@.len() == i,
            forall|j: int|
                0 <= j < i ==> (#[trigger] keywords@[j])@ == KeywordView::resolve(
                    table.deep_view(),
                    texts[j],
                ),
        decreases references@.len() - i,
    {
        assert(texts[i as int] == references@[i as int]@);
        keywords.push(Keyword::resolve(table, references[i].as_str()));
        i += 1;
    }
    assert(keywords@.map_values(|keyword: Keyword<'a>| keyword@) =~= resolve_keywords(
        table.deep_view(),
        texts,
    ));
    keywords
}

impl<'a> Card<'a> {
    /// Builds the card of a raw record; the keyword references are resolved
    /// against `keywords`.
    ///
    /// Fails exactly when the card's own code or the code of an associated
    /// card is malformed. The enumerations and the keywords never make it
    /// fail: a token outside their lists is kept as `Unknown`.
    pub fn try_from(db_card: &'a db::Card, keywords: &'a Vec<db::Keyword>) -> (built: Result<
        Card<'a>,
        Error,
    >)
        ensures
            built is Ok <==> can_build(db_card.deep_view()),
            built matches Ok(card) ==> build_card(db_card.deep_view(), keywords.deep_view())
                == Ok::<CardView, Error>(card@),
            built matches Err(e) ==> build_card(db_card.deep_view(), keywords.deep_view())
                == Err::<CardView, Error>(e),
            built matches Ok(card) ==> (!TypeView::recognized(db_card.card_type@)
                ==> card@.card_type == TypeView::Unknown(db_card.card_type@)),
    {
        let card_code = match CardCode::from_str(db_card.card_code.as_str()) {
            Ok(code) => code,
            Err(e) => {
                return Err(e);
            },
        };
        let associated_cards = match decode_card_codes(&db_card.associated_card_refs) {
            Ok(list) => list,
            Err(e) => {
                return Err(e);
            },
        };
        Ok(
            Card {
                associated_cards,
                assets: borrow_assets(&db_card.assets),
                region: Region::from_str(db_card.region_ref.as_str()),
                attack: db_card.attack,
                cost: db_card.cost,
                health: db_card.health,
                description: db_card.description.as_str(),
                levelup_description: db_card.levelup_description.as_str(),
                flavor_text: db_card.flavor_text.as_str(),
                artist_name: db_card.artist_name.as_str(),
                name: db_card.name.as_str(),
                card_code,
                keywords: resolve_all(keywords, &db_card.keyword_refs),
                spell_speed: SpellSpeed::from_str(db_card.spell_speed_ref.as_str()),
                rarity: Rarity::from_str(db_card.rarity_ref.as_str()),
                supertype: Supertype::from_str(db_card.supertype.as_str()),
                subtype: Subtype::from_str(db_card.subtype.as_str()),
                card_type: Type::from_str(db_card.card_type.as_str()),
                collectible: db_card.collectible,
            },
        )
    }

    /// Builds the card with the code `card_code` from the first record of the
    /// data set that has this code.
    pub fn try_from_code(db: &'a db::Db, card_code: &str) -> (built: Result<Card<'a>, Error>)
        requires
            db::has_code(db.deep_view().collection, card_code@),
        ensures
            exists|index: int|
                db::is_first_with_code(db.deep_view().collection, card_code@, index) && ({
                    let record = db.deep_view().collection[index];
                    let keywords = db.deep_view().globals.keywords;
                    &&& built is Ok <==> can_build(record)
                    &&& built matches Ok(card) ==> build_card(record, keywords) == Ok::<
                        CardView,
                        Error,
                    >(card@)
                    &&& built matches Err(e) ==> e == Error::MalformedCardCode
                }),
    {
        match db.position(card_code) {
            Some(index) => {
                assert(db::is_first_with_code(
                    db.deep_view().collection,
                    card_code@,
                    index as int,
                ));
                assert(db.deep_view().collection[index as int]
                    == db.collection.0@[index as int].deep_view());
                Card::try_from(&db.collection.0[index], &db.globals.keywords)
            },
            None => {
                proof {
                    assert(false);
                }
                Err(Error::MalformedCardCode)
            },
        }
    }
}

/// A type token outside the list never makes the builder fail: where the
/// card codes of a record decode, the card is built, and its type is
/// `Unknown` with the token unchanged.
pub proof fn lemma_unknown_type_is_kept(record: db::CardView, keywords: Seq<db::KeywordView>)
    requires
        can_build(record),
        !TypeView::recognized(record.card_type),
    ensures
        build_card(record, keywords) matches Ok(card) && card.card_type == TypeView::Unknown(
            record.card_type,
        ),
{
}

} // verus!
