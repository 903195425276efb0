use runeterra::db;
use runeterra::{
    Asset, Card, CardCode, Collection, Error, Keyword, KeywordType, Rarity, Region, SpellSpeed,
    Subtype, Supertype, Type,
};

fn keyword_entry(name_ref: &str, name: &str, description: &str) -> db::Keyword {
    db::Keyword {
        description: description.to_string(),
        name: name.to_string(),
        name_ref: name_ref.to_string(),
    }
}

fn globals() -> db::Globals {
    db::Globals {
        regions: vec![
            db::Region {
                abbreviation: "DE".to_string(),
                icon_absolute_path: "http://dd.b.pvp.net/1_0_0/core/en_us/img/regions/icon-demacia.png"
                    .to_string(),
                name: "Demacia".to_string(),
                name_ref: "Demacia".to_string(),
            },
            db::Region {
                abbreviation: "PZ".to_string(),
                icon_absolute_path:
                    "http://dd.b.pvp.net/1_0_0/core/en_us/img/regions/icon-piltoverzaun.png"
                        .to_string(),
                name: "Piltover & Zaun".to_string(),
                name_ref: "PiltoverZaun".to_string(),
            },
        ],
        keywords: vec![
            keyword_entry(
                "QuickStrike",
                "Quick Attack",
                "While attacking, strikes before its blocker.",
            ),
            keyword_entry(
                "Barrier",
                "Barrier",
                "Negates the next damage the unit would take. Lasts one round.",
            ),
            keyword_entry("Mystery", "Mysterious", "Nobody knows what this does."),
            keyword_entry("Barrier", "Second Barrier", "A later entry with the same reference."),
        ],
        spell_speeds: vec![db::SpellSpeed {
            name: "Burst".to_string(),
            name_ref: "Burst".to_string(),
        }],
        rarities: vec![db::Rarity {
            name: "COMMON".to_string(),
            name_ref: "Common".to_string(),
        }],
    }
}

fn record(card_code: &str) -> db::Card {
    db::Card {
        associated_cards: vec![],
        associated_card_refs: vec![],
        assets: vec![db::Asset {
            game_absolute_path: format!("http://dd.b.pvp.net/set1/en_us/img/cards/{}.png", card_code),
            full_absolute_path: format!(
                "http://dd.b.pvp.net/set1/en_us/img/cards/{}-full.png",
                card_code
            ),
        }],
        region: "Demacia".to_string(),
        region_ref: "Demacia".to_string(),
        attack: 3,
        cost: 2,
        health: 4,
        description: "When I'm summoned, grant me a <link=vocab.Barrier>Barrier</link>."
            .to_string(),
        description_raw: "When I'm summoned, grant me a Barrier.".to_string(),
        levelup_description: String::new(),
        levelup_description_raw: String::new(),
        flavor_text: "\"For Demacia!\"".to_string(),
        artist_name: "SIXMOREVODKA".to_string(),
        name: "Vanguard Defender".to_string(),
        card_code: card_code.to_string(),
        keywords: vec!["Quick Attack".to_string(), "Barrier".to_string()],
        keyword_refs: vec!["QuickStrike".to_string(), "Barrier".to_string()],
        spell_speed: String::new(),
        spell_speed_ref: String::new(),
        rarity: "COMMON".to_string(),
        rarity_ref: "Common".to_string(),
        subtype: "Elite".to_string(),
        supertype: String::new(),
        card_type: "Unit".to_string(),
        collectible: true,
    }
}

fn champion_record() -> db::Card {
    let mut card = record("01PZ040");
    card.associated_cards = vec![];
    card.associated_card_refs = vec!["01PZ040T1".to_string(), "01PZ040T3".to_string()];
    card.region = "Piltover & Zaun".to_string();
    card.region_ref = "PiltoverZaun".to_string();
    card.name = "Jinx".to_string();
    card.keyword_refs = vec!["QuickStrike".to_string(), "NotARealKeyword".to_string()];
    card.rarity_ref = "Champion".to_string();
    card.subtype = String::new();
    card.supertype = "Champion".to_string();
    card.levelup_description = "I've seen your hand empty.".to_string();
    card.collectible = true;
    card.attack = 4;
    card.cost = 4;
    card.health = 3;
    card
}

fn database() -> db::Db {
    db::Db::new(
        globals(),
        db::Collection(vec![
            record("01DE003"),
            champion_record(),
            record("01XX017"),
            record("01DE003"),
        ]),
    )
}

#[test]
fn basic() {
    let db = database();
    assert_ne!(db.collection.0.len(), 0);
}

#[test]
fn new_keeps_the_tables_and_the_cards() {
    let db = database();
    assert_eq!(db.collection.0.len(), 4);
    assert_eq!(db.collection.0[1].name, "Jinx");
    assert_eq!(db.globals.keywords.len(), 4);
    assert_eq!(db.globals.regions.len(), 2);
    assert_eq!(db.globals.spell_speeds.len(), 1);
    assert_eq!(db.globals.rarities.len(), 1);
}

#[test]
fn a_reference_of_the_table_resolves_to_its_entry() {
    let table = globals().keywords;
    let keyword = Keyword::resolve(&table, "QuickStrike");
    assert_eq!(keyword.name(), "Quick Attack");
    assert_eq!(
        keyword.description(),
        "While attacking, strikes before its blocker."
    );
    assert_eq!(keyword.name_ref(), &KeywordType::QuickStrike);
}

#[test]
fn the_first_entry_of_a_reference_wins() {
    let table = globals().keywords;
    let keyword = Keyword::resolve(&table, "Barrier");
    assert_eq!(keyword.name(), "Barrier");
    assert_eq!(
        keyword.description(),
        "Negates the next damage the unit would take. Lasts one round."
    );
    assert_eq!(keyword.name_ref(), &KeywordType::Barrier);
}

#[test]
fn an_entry_with_an_unlisted_reference_has_an_unknown_kind() {
    let table = globals().keywords;
    let keyword = Keyword::resolve(&table, "Mystery");
    assert_eq!(keyword.name(), "Mysterious");
    assert_eq!(keyword.description(), "Nobody knows what this does.");
    assert_eq!(
        keyword.name_ref(),
        &KeywordType::Unknown("Mystery".to_string())
    );
}

#[test]
fn a_reference_without_an_entry_gets_the_fallback() {
    let table = globals().keywords;
    let keyword = Keyword::resolve(&table, "NotARealKeyword");
    assert_eq!(keyword.name(), "NotARealKeyword");
    assert_eq!(keyword.description(), "Keyword not implemented yet");
    assert_eq!(
        keyword.name_ref(),
        &KeywordType::Unknown("NotARealKeyword".to_string())
    );
}

#[test]
fn the_fallback_decodes_a_listed_reference() {
    let table: Vec<db::Keyword> = vec![];
    let keyword = Keyword::resolve(&table, "Elusive");
    assert_eq!(keyword.name(), "Elusive");
    assert_eq!(keyword.description(), "Keyword not implemented yet");
    assert_eq!(keyword.name_ref(), &KeywordType::Elusive);
}

#[test]
fn the_match_is_exact() {
    let table = globals().keywords;
    let keyword = Keyword::resolve(&table, "quickstrike");
    assert_eq!(keyword.name(), "quickstrike");
    assert_eq!(keyword.description(), "Keyword not implemented yet");
    let by_name = Keyword::resolve(&table, "Quick Attack");
    assert_eq!(by_name.name(), "Quick Attack");
    assert_eq!(by_name.description(), "Keyword not implemented yet");
}

#[test]
fn an_asset_views_its_record() {
    let raw = db::Asset {
        game_absolute_path: "game/01DE003.png".to_string(),
        full_absolute_path: "full/01DE003.png".to_string(),
    };
    let asset = Asset::from(&raw);
    assert_eq!(asset.game_absolute_path(), "game/01DE003.png");
    assert_eq!(asset.full_absolute_path(), "full/01DE003.png");
}

#[test]
fn a_card_is_built_field_by_field() {
    let table = globals().keywords;
    let raw = champion_record();
    let card = Card::try_from(&raw, &table).unwrap();
    assert_eq!(card.card_code, CardCode::from_str("01PZ040").unwrap());
    assert_eq!(card.card_code.to_code(), "01PZ040");
    assert_eq!(
        card.associated_cards,
        vec![
            CardCode::from_str("01PZ040T1").unwrap(),
            CardCode::from_str("01PZ040T3").unwrap()
        ]
    );
    assert_eq!(card.associated_cards[1].assoc(), "T3");
    assert_eq!(card.assets.len(), 1);
    assert_eq!(
        card.assets[0].game_absolute_path(),
        "http://dd.b.pvp.net/set1/en_us/img/cards/01PZ040.png"
    );
    assert_eq!(
        card.assets[0].full_absolute_path(),
        "http://dd.b.pvp.net/set1/en_us/img/cards/01PZ040-full.png"
    );
    assert_eq!(card.region, Region::PiltoverZaun);
    assert_eq!(card.attack, 4);
    assert_eq!(card.cost, 4);
    assert_eq!(card.health, 3);
    assert_eq!(
        card.description,
        "When I'm summoned, grant me a <link=vocab.Barrier>Barrier</link>."
    );
    assert_eq!(card.levelup_description, "I've seen your hand empty.");
    assert_eq!(card.flavor_text, "\"For Demacia!\"");
    assert_eq!(card.artist_name, "SIXMOREVODKA");
    assert_eq!(card.name, "Jinx");
    assert_eq!(card.keywords.len(), 2);
    assert_eq!(card.keywords[0].name(), "Quick Attack");
    assert_eq!(card.keywords[0].name_ref(), &KeywordType::QuickStrike);
    assert_eq!(card.keywords[1].name(), "NotARealKeyword");
    assert_eq!(card.keywords[1].description(), "Keyword not implemented yet");
    assert_eq!(card.spell_speed, SpellSpeed::Unknown(String::new()));
    assert_eq!(card.rarity, Rarity::Champion);
    assert_eq!(card.supertype, Supertype::Champion);
    assert_eq!(card.subtype, Subtype::NoSubtype);
    assert_eq!(card.card_type, Type::Unit);
    assert!(card.collectible);
}

#[test]
fn an_unknown_type_does_not_fail() {
    let table = globals().keywords;
    let mut raw = record("01DE003");
    raw.card_type = "Landmark".to_string();
    let card = Card::try_from(&raw, &table).unwrap();
    assert_eq!(card.card_type, Type::Unknown("Landmark".to_string()));
}

#[test]
fn unknown_tokens_are_kept_in_every_enumeration() {
    let table = globals().keywords;
    let mut raw = record("01DE003");
    raw.region_ref = "Bilgewater".to_string();
    raw.spell_speed_ref = "Focus".to_string();
    raw.rarity_ref = "Legendary".to_string();
    raw.supertype = "Hero".to_string();
    raw.subtype = "Dragon".to_string();
    raw.card_type = "".to_string();
    raw.collectible = false;
    let card = Card::try_from(&raw, &table).unwrap();
    assert_eq!(card.region, Region::Unknown("Bilgewater".to_string()));
    assert_eq!(card.spell_speed, SpellSpeed::Unknown("Focus".to_string()));
    assert_eq!(card.rarity, Rarity::Unknown("Legendary".to_string()));
    assert_eq!(card.supertype, Supertype::Unknown("Hero".to_string()));
    assert_eq!(card.subtype, Subtype::Unknown("Dragon".to_string()));
    assert_eq!(card.card_type, Type::Unknown(String::new()));
    assert!(!card.collectible);
}

#[test]
fn the_region_is_decoded_from_the_reference_not_the_name() {
    let table = globals().keywords;
    let mut raw = record("01DE003");
    raw.region = "Demacia".to_string();
    raw.region_ref = "ShadowIsles".to_string();
    let card = Card::try_from(&raw, &table).unwrap();
    assert_eq!(card.region, Region::ShadowIsles);
    assert_eq!(card.card_code.faction(), &Region::Demacia);
}

#[test]
fn a_malformed_card_code_fails_the_build() {
    let table = globals().keywords;
    let raw = record("XX01007");
    assert_eq!(Card::try_from(&raw, &table), Err(Error::MalformedCardCode));
    let mut unknown_type = record("XX01007");
    unknown_type.card_type = "Landmark".to_string();
    assert_eq!(
        Card::try_from(&unknown_type, &table),
        Err(Error::MalformedCardCode)
    );
}

#[test]
fn a_malformed_associated_code_fails_the_build() {
    let table = globals().keywords;
    let mut raw = record("01DE003");
    raw.associated_card_refs = vec![
        "01DE003T1".to_string(),
        "01DEx03T2".to_string(),
        "01DE003T3".to_string(),
    ];
    assert_eq!(Card::try_from(&raw, &table), Err(Error::MalformedCardCode));
}

#[test]
fn the_display_names_of_associated_cards_are_not_decoded() {
    let table = globals().keywords;
    let mut raw = record("01DE003");
    raw.associated_cards = vec!["not a code".to_string()];
    raw.associated_card_refs = vec![];
    let card = Card::try_from(&raw, &table).unwrap();
    assert!(card.associated_cards.is_empty());
}

#[test]
fn an_unknown_region_token_in_the_code_does_not_fail_the_build() {
    let table = globals().keywords;
    let raw = record("01XX017");
    let card = Card::try_from(&raw, &table).unwrap();
    assert_eq!(
        card.card_code.faction(),
        &Region::Unknown("Unimplemented region".to_string())
    );
    assert_eq!(card.card_code.number(), 17);
}

#[test]
fn a_record_is_found_by_its_code() {
    let db = database();
    assert_eq!(db.position("01DE003"), Some(0));
    assert_eq!(db.position("01PZ040"), Some(1));
    assert_eq!(db.position("01XX017"), Some(2));
    assert_eq!(db.position("01PZ041"), None);
    assert_eq!(db.position(""), None);
    assert_eq!(db.position("01pz040"), None);
    assert_eq!(db.find("01PZ040").unwrap().name, "Jinx");
    assert!(db.find("01PZ041").is_none());
}

#[test]
fn a_card_is_built_from_its_code() {
    let db = database();
    let card = Card::try_from_code(&db, "01PZ040").unwrap();
    assert_eq!(card.name, "Jinx");
    assert_eq!(card.keywords[0].name(), "Quick Attack");
    assert_eq!(
        card,
        Card::try_from(&db.collection.0[1], &db.globals.keywords).unwrap()
    );
}

#[test]
fn a_collection_holds_a_card_for_every_record() {
    let db = database();
    let collection = Collection::new(&db);
    assert_eq!(collection.cards.len(), 4);
    assert_eq!(collection.cards[0].name, "Vanguard Defender");
    assert_eq!(collection.cards[1].name, "Jinx");
    assert_eq!(collection.cards[2].card_code.to_code(), "01UN017");
    assert_eq!(collection.cards[3].card_code.to_code(), "01DE003");
    for (card, raw) in collection.cards.iter().zip(db.collection.0.iter()) {
        assert_eq!(card, &Card::try_from(raw, &db.globals.keywords).unwrap());
    }
    let again = Collection::try_new(&db).unwrap();
    assert_eq!(again.cards, collection.cards);
}

#[test]
fn a_collection_fails_on_the_first_malformed_record() {
    let db = db::Db::new(
        globals(),
        db::Collection(vec![record("01DE003"), record("0ADE003"), record("01DE004")]),
    );
    assert!(matches!(
        Collection::try_new(&db),
        Err(Error::MalformedCardCode)
    ));
}

#[test]
fn an_empty_data_set_gives_an_empty_collection() {
    let db = db::Db::new(
        db::Globals {
            regions: vec![],
            keywords: vec![],
            spell_speeds: vec![],
            rarities: vec![],
        },
        db::Collection(vec![]),
    );
    assert!(Collection::new(&db).cards.is_empty());
    assert!(Collection::default().cards.is_empty());
}
