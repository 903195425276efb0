use runeterra::{KeywordType, Rarity, Region, SpellSpeed, Subtype, Supertype, Type};

#[test]
fn region_tokens() {
    assert_eq!(Region::from_str("Neutral"), Region::Neutral);
    assert_eq!(Region::from_str("Demacia"), Region::Demacia);
    assert_eq!(Region::from_str("Freljord"), Region::Freljord);
    assert_eq!(Region::from_str("Ionia"), Region::Ionia);
    assert_eq!(Region::from_str("Noxus"), Region::Noxus);
    assert_eq!(Region::from_str("PiltoverZaun"), Region::PiltoverZaun);
    assert_eq!(Region::from_str("Piltover & Zaun"), Region::PiltoverZaun);
    assert_eq!(Region::from_str("ShadowIsles"), Region::ShadowIsles);
    assert_eq!(Region::from_str("Shadow Isles"), Region::ShadowIsles);
}

#[test]
fn region_unknown_keeps_the_text() {
    for text in [
        "Bilgewater",
        "",
        "demacia",
        "DEMACIA",
        "Demacia ",
        " Demacia",
        "Unknown",
        "Shadow  Isles",
        "Piltover and Zaun",
        "DE",
        "\u{e9}t\u{e9}",
    ] {
        assert_eq!(Region::from_str(text), Region::Unknown(text.to_string()));
    }
}

#[test]
fn region_display_text() {
    assert_eq!(Region::Neutral.to_string(), "Neutral");
    assert_eq!(Region::Demacia.to_string(), "Demacia");
    assert_eq!(Region::Freljord.to_string(), "Freljord");
    assert_eq!(Region::Ionia.to_string(), "Ionia");
    assert_eq!(Region::Noxus.to_string(), "Noxus");
    assert_eq!(Region::PiltoverZaun.to_string(), "Piltover & Zaun");
    assert_eq!(Region::ShadowIsles.to_string(), "Shadow Isles");
    assert_eq!(
        Region::Unknown("Bilgewater".to_string()).to_string(),
        "Bilgewater"
    );
}

#[test]
fn region_text_decodes_to_the_same_region() {
    for region in [
        Region::Neutral,
        Region::Demacia,
        Region::Freljord,
        Region::Ionia,
        Region::Noxus,
        Region::PiltoverZaun,
        Region::ShadowIsles,
        Region::Unknown("Targon".to_string()),
    ] {
        assert_eq!(Region::from_str(&region.to_string()), region);
    }
}

#[test]
fn spell_speed_tokens() {
    assert_eq!(SpellSpeed::from_str("Slow"), SpellSpeed::Slow);
    assert_eq!(SpellSpeed::from_str("Fast"), SpellSpeed::Fast);
    assert_eq!(SpellSpeed::from_str("Burst"), SpellSpeed::Burst);
    assert_eq!(
        SpellSpeed::from_str("Focus"),
        SpellSpeed::Unknown("Focus".to_string())
    );
    assert_eq!(SpellSpeed::from_str(""), SpellSpeed::Unknown(String::new()));
    assert_eq!(
        SpellSpeed::from_str("slow"),
        SpellSpeed::Unknown("slow".to_string())
    );
    assert_eq!(SpellSpeed::Slow.to_string(), "Slow");
    assert_eq!(SpellSpeed::Fast.to_string(), "Fast");
    assert_eq!(SpellSpeed::Burst.to_string(), "Burst");
    assert_eq!(SpellSpeed::Unknown("Focus".to_string()).to_string(), "Focus");
}

#[test]
fn rarity_tokens() {
    assert_eq!(Rarity::from_str("Common"), Rarity::Common);
    assert_eq!(Rarity::from_str("Rare"), Rarity::Rare);
    assert_eq!(Rarity::from_str("Epic"), Rarity::Epic);
    assert_eq!(Rarity::from_str("Champion"), Rarity::Champion);
    assert_eq!(Rarity::from_str("None"), Rarity::NoRarity);
    assert_eq!(
        Rarity::from_str("Legendary"),
        Rarity::Unknown("Legendary".to_string())
    );
    assert_eq!(Rarity::from_str(""), Rarity::Unknown(String::new()));
    assert_eq!(Rarity::from_str("COMMON"), Rarity::Unknown("COMMON".to_string()));
    assert_eq!(Rarity::Common.to_string(), "Common");
    assert_eq!(Rarity::Rare.to_string(), "Rare");
    assert_eq!(Rarity::Epic.to_string(), "Epic");
    assert_eq!(Rarity::Champion.to_string(), "Champion");
    assert_eq!(Rarity::NoRarity.to_string(), "None");
    assert_eq!(Rarity::Unknown("Legendary".to_string()).to_string(), "Legendary");
}

#[test]
fn type_tokens() {
    assert_eq!(Type::from_str("Ability"), Type::Ability);
    assert_eq!(Type::from_str("Spell"), Type::Spell);
    assert_eq!(Type::from_str("Trap"), Type::Trap);
    assert_eq!(Type::from_str("Unit"), Type::Unit);
    assert_eq!(Type::from_str("Landmark"), Type::Unknown("Landmark".to_string()));
    assert_eq!(Type::from_str(""), Type::Unknown(String::new()));
    assert_eq!(Type::from_str("unit"), Type::Unknown("unit".to_string()));
    assert_eq!(Type::Ability.to_string(), "Ability");
    assert_eq!(Type::Spell.to_string(), "Spell");
    assert_eq!(Type::Trap.to_string(), "Trap");
    assert_eq!(Type::Unit.to_string(), "Unit");
    assert_eq!(Type::Unknown("Landmark".to_string()).to_string(), "Landmark");
}

#[test]
fn subtype_tokens() {
    assert_eq!(Subtype::from_str(""), Subtype::NoSubtype);
    assert_eq!(Subtype::from_str("Elite"), Subtype::Elite);
    assert_eq!(Subtype::from_str("Elnuk"), Subtype::Elnuk);
    assert_eq!(Subtype::from_str("Poro"), Subtype::Poro);
    assert_eq!(Subtype::from_str("Spider"), Subtype::Spider);
    assert_eq!(Subtype::from_str("Tech"), Subtype::Tech);
    assert_eq!(Subtype::from_str("Yeti"), Subtype::Yeti);
    assert_eq!(Subtype::from_str("None"), Subtype::Unknown("None".to_string()));
    assert_eq!(Subtype::from_str("Dragon"), Subtype::Unknown("Dragon".to_string()));
    assert_eq!(Subtype::from_str(" "), Subtype::Unknown(" ".to_string()));
    assert_eq!(Subtype::NoSubtype.to_string(), "");
    assert_eq!(Subtype::Elite.to_string(), "Elite");
    assert_eq!(Subtype::Elnuk.to_string(), "Elnuk");
    assert_eq!(Subtype::Poro.to_string(), "Poro");
    assert_eq!(Subtype::Spider.to_string(), "Spider");
    assert_eq!(Subtype::Tech.to_string(), "Tech");
    assert_eq!(Subtype::Yeti.to_string(), "Yeti");
    assert_eq!(Subtype::Unknown("Dragon".to_string()).to_string(), "Dragon");
}

#[test]
fn supertype_tokens() {
    assert_eq!(Supertype::from_str(""), Supertype::NoSupertype);
    assert_eq!(Supertype::from_str("Champion"), Supertype::Champion);
    assert_eq!(
        Supertype::from_str("None"),
        Supertype::Unknown("None".to_string())
    );
    assert_eq!(
        Supertype::from_str("champion"),
        Supertype::Unknown("champion".to_string())
    );
    assert_eq!(Supertype::NoSupertype.to_string(), "");
    assert_eq!(Supertype::Champion.to_string(), "Champion");
    assert_eq!(Supertype::Unknown("Hero".to_string()).to_string(), "Hero");
}

#[test]
fn keyword_tokens() {
    let all = [
        ("Obliterate", KeywordType::Obliterate),
        ("Skill", KeywordType::Skill),
        ("DoubleStrike", KeywordType::DoubleStrike),
        ("Weakest", KeywordType::Weakest),
        ("Elusive", KeywordType::Elusive),
        ("Drain", KeywordType::Drain),
        ("Stun", KeywordType::Stun),
        ("Autoplay", KeywordType::Autoplay),
        ("SpellOverwhelm", KeywordType::SpellOverwhelm),
        ("Barrier", KeywordType::Barrier),
        ("Capture", KeywordType::Capture),
        ("Frostbite", KeywordType::Frostbite),
        ("Burst", KeywordType::Burst),
        ("Fleeting", KeywordType::Fleeting),
        ("Fast", KeywordType::Fast),
        ("Overwhelm", KeywordType::Overwhelm),
        ("QuickStrike", KeywordType::QuickStrike),
        ("Tough", KeywordType::Tough),
        ("Recall", KeywordType::Recall),
        ("Ionia", KeywordType::Ionia),
        ("Regeneration", KeywordType::Regeneration),
        ("Lifesteal", KeywordType::Lifesteal),
        ("Enlightened", KeywordType::Enlightened),
        ("Slow", KeywordType::Slow),
        ("Ephemeral", KeywordType::Ephemeral),
        ("LastBreath", KeywordType::LastBreath),
        ("Challenger", KeywordType::Challenger),
        ("Imbue", KeywordType::Imbue),
        ("Fearsome", KeywordType::Fearsome),
        ("CantBlock", KeywordType::CantBlock),
    ];
    assert_eq!(all.len(), 30);
    for (token, keyword) in all {
        assert_eq!(keyword.to_string(), token);
        assert_eq!(KeywordType::from_str(token), keyword);
    }
}

#[test]
fn keyword_unknown_keeps_the_text() {
    for text in [
        "NotARealKeyword",
        "",
        "Double Attack",
        "Quick Attack",
        "Can't Block",
        "Last Breath",
        "elusive",
        "Trap",
        "Scout",
    ] {
        assert_eq!(
            KeywordType::from_str(text),
            KeywordType::Unknown(text.to_string())
        );
        assert_eq!(KeywordType::Unknown(text.to_string()).to_string(), text);
    }
}
