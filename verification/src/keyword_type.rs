//! The keywords that a card can carry.

use crate::text::str_eq;
use vstd::prelude::*;

verus! {

/// A keyword of the game. `Unknown` keeps the text of a token that is not part
/// of the list.
#[derive(Debug, Eq, PartialEq, Ord, PartialOrd)]
pub enum KeywordType {
    Unknown(String),
    Obliterate,
    Skill,
    DoubleStrike,
    Weakest,
    Elusive,
    Drain,
    Stun,
    Autoplay,
    SpellOverwhelm,
    Barrier,
    Capture,
    Frostbite,
    Burst,
    Fleeting,
    Fast,
    Overwhelm,
    QuickStrike,
    Tough,
    Recall,
    Ionia,
    Regeneration,
    Lifesteal,
    Enlightened,
    Slow,
    Ephemeral,
    LastBreath,
    Challenger,
    Imbue,
    Fearsome,
    CantBlock,
}

/// Mathematical value of a [`KeywordType`].
pub enum KeywordTypeView {
    Unknown(Seq<char>),
    Obliterate,
    Skill,
    DoubleStrike,
    Weakest,
    Elusive,
    Drain,
    Stun,
    Autoplay,
    SpellOverwhelm,
    Barrier,
    Capture,
    Frostbite,
    Burst,
    Fleeting,
    Fast,
    Overwhelm,
    QuickStrike,
    Tough,
    Recall,
    Ionia,
    Regeneration,
    Lifesteal,
    Enlightened,
    Slow,
    Ephemeral,
    LastBreath,
    Challenger,
    Imbue,
    Fearsome,
    CantBlock,
}

impl View for KeywordType {
    type V = KeywordTypeView;

    open spec fn view(&self) -> KeywordTypeView {
        match self {
            KeywordType::Unknown(text) => KeywordTypeView::Unknown(text@),
            KeywordType::Obliterate => KeywordTypeView::Obliterate,
            KeywordType::Skill => KeywordTypeView::Skill,
            KeywordType::DoubleStrike => KeywordTypeView::DoubleStrike,
            KeywordType::Weakest => KeywordTypeView::Weakest,
            KeywordType::Elusive => KeywordTypeView::Elusive,
            KeywordType::Drain => KeywordTypeView::Drain,
            KeywordType::Stun => KeywordTypeView::Stun,
            KeywordType::Autoplay => KeywordTypeView::Autoplay,
            KeywordType::SpellOverwhelm => KeywordTypeView::SpellOverwhelm,
            KeywordType::Barrier => KeywordTypeView::Barrier,
            KeywordType::Capture => KeywordTypeView::Capture,
            KeywordType::Frostbite => KeywordTypeView::Frostbite,
            KeywordType::Burst => KeywordTypeView::Burst,
            KeywordType::Fleeting => KeywordTypeView::Fleeting,
            KeywordType::Fast => KeywordTypeView::Fast,
            KeywordType::Overwhelm => KeywordTypeView::Overwhelm,
            KeywordType::QuickStrike => KeywordTypeView::QuickStrike,
            KeywordType::Tough => KeywordTypeView::Tough,
            KeywordType::Recall => KeywordTypeView::Recall,
            KeywordType::Ionia => KeywordTypeView::Ionia,
            KeywordType::Regeneration => KeywordTypeView::Regeneration,
            KeywordType::Lifesteal => KeywordTypeView::Lifesteal,
            KeywordType::Enlightened => KeywordTypeView::Enlightened,
            KeywordType::Slow => KeywordTypeView::Slow,
            KeywordType::Ephemeral => KeywordTypeView::Ephemeral,
            KeywordType::LastBreath => KeywordTypeView::LastBreath,
            KeywordType::Challenger => KeywordTypeView::Challenger,
            KeywordType::Imbue => KeywordTypeView::Imbue,
            KeywordType::Fearsome => KeywordTypeView::Fearsome,
            KeywordType::CantBlock => KeywordTypeView::CantBlock,
        }
    }
}

impl KeywordTypeView {
    /// Whether `text` is one of the tokens that name a keyword.
    pub open spec fn recognized(text: Seq<char>) -> bool {
        ||| text == "Obliterate"@
        ||| text == "Skill"@
        ||| text == "DoubleStrike"@
        ||| text == "Weakest"@
        ||| text == "Elusive"@
        ||| text == "Drain"@
        ||| text == "Stun"@
        ||| text == "Autoplay"@
        ||| text == "SpellOverwhelm"@
        ||| text == "Barrier"@
        ||| text == "Capture"@
        ||| text == "Frostbite"@
        ||| text == "Burst"@
        ||| text == "Fleeting"@
        ||| text == "Fast"@
        ||| text == "Overwhelm"@
        ||| text == "QuickStrike"@
        ||| text == "Tough"@
        ||| text == "Recall"@
        ||| text == "Ionia"@
        ||| text == "Regeneration"@
        ||| text == "Lifesteal"@
        ||| text == "Enlightened"@
        ||| text == "Slow"@
        ||| text == "Ephemeral"@
        ||| text == "LastBreath"@
        ||| text == "Challenger"@
        ||| text == "Imbue"@
        ||| text == "Fearsome"@
        ||| text == "CantBlock"@
    }

    /// The keyword that `text` decodes to: the named variant of a recognized
    /// token, else `Unknown` with the text unchanged.
    pub open spec fn parse(text: Seq<char>) -> KeywordTypeView {
        if text == "Obliterate"@ {
            KeywordTypeView::Obliterate
        } else if text == "Skill"@ {
            KeywordTypeView::Skill
        } else if text == "DoubleStrike"@ {
            KeywordTypeView::DoubleStrike
        } else if text == "Weakest"@ {
            KeywordTypeView::Weakest
        } else if text == "Elusive"@ {
            KeywordTypeView::Elusive
        } else if text == "Drain"@ {
            KeywordTypeView::Drain
        } else if text == "Stun"@ {
            KeywordTypeView::Stun
        } else if text == "Autoplay"@ {
            KeywordTypeView::Autoplay
        } else if text == "SpellOverwhelm"@ {
            KeywordTypeView::SpellOverwhelm
        } else if text == "Barrier"@ {
            KeywordTypeView::Barrier
        } else if text == "Capture"@ {
            KeywordTypeView::Capture
        } else if text == "Frostbite"@ {
            KeywordTypeView::Frostbite
        } else if text == "Burst"@ {
            KeywordTypeView::Burst
        } else if text == "Fleeting"@ {
            KeywordTypeView::Fleeting
        } else if text == "Fast"@ {
            KeywordTypeView::Fast
        } else if text == "Overwhelm"@ {
            KeywordTypeView::Overwhelm
        } else if text == "QuickStrike"@ {
            KeywordTypeView::QuickStrike
        } else if text == "Tough"@ {
            KeywordTypeView::Tough
        } else if text == "Recall"@ {
            KeywordTypeView::Recall
        } else if text == "Ionia"@ {
            KeywordTypeView::Ionia
        } else if text == "Regeneration"@ {
            KeywordTypeView::Regeneration
        } else if text == "Lifesteal"@ {
            KeywordTypeView::Lifesteal
        } else if text == "Enlightened"@ {
            KeywordTypeView::Enlightened
        } else if text == "Slow"@ {
            KeywordTypeView::Slow
        } else if text == "Ephemeral"@ {
            KeywordTypeView::Ephemeral
        } else if text == "LastBreath"@ {
            KeywordTypeView::LastBreath
        } else if text == "Challenger"@ {
            KeywordTypeView::Challenger
        } else if text == "Imbue"@ {
            KeywordTypeView::Imbue
        } else if text == "Fearsome"@ {
            KeywordTypeView::Fearsome
        } else if text == "CantBlock"@ {
            KeywordTypeView::CantBlock
        } else {
            KeywordTypeView::Unknown(text)
        }
    }

    /// The text of a keyword; an `Unknown` one gives back its text.
    pub open spec fn format(self) -> Seq<char> {
        match self {
            KeywordTypeView::Unknown(text) => text,
            KeywordTypeView::Obliterate => "Obliterate"@,
            KeywordTypeView::Skill => "Skill"@,
            KeywordTypeView::DoubleStrike => "DoubleStrike"@,
            KeywordTypeView::Weakest => "Weakest"@,
            KeywordTypeView::Elusive => "Elusive"@,
            KeywordTypeView::Drain => "Drain"@,
            KeywordTypeView::Stun => "Stun"@,
            KeywordTypeView::Autoplay => "Autoplay"@,
            KeywordTypeView::SpellOverwhelm => "SpellOverwhelm"@,
            KeywordTypeView::Barrier => "Barrier"@,
            KeywordTypeView::Capture => "Capture"@,
            KeywordTypeView::Frostbite => "Frostbite"@,
            KeywordTypeView::Burst => "Burst"@,
            KeywordTypeView::Fleeting => "Fleeting"@,
            KeywordTypeView::Fast => "Fast"@,
            KeywordTypeView::Overwhelm => "Overwhelm"@,
            KeywordTypeView::QuickStrike => "QuickStrike"@,
            KeywordTypeView::Tough => "Tough"@,
            KeywordTypeView::Recall => "Recall"@,
            KeywordTypeView::Ionia => "Ionia"@,
            KeywordTypeView::Regeneration => "Regeneration"@,
            KeywordTypeView::Lifesteal => "Lifesteal"@,
            KeywordTypeView::Enlightened => "Enlightened"@,
            KeywordTypeView::Slow => "Slow"@,
            KeywordTypeView::Ephemeral => "Ephemeral"@,
            KeywordTypeView::LastBreath => "LastBreath"@,
            KeywordTypeView::Challenger => "Challenger"@,
            KeywordTypeView::Imbue => "Imbue"@,
            KeywordTypeView::Fearsome => "Fearsome"@,
            KeywordTypeView::CantBlock => "CantBlock"@,
        }
    }
}

impl KeywordType {
    /// Decodes a keyword token. Never fails: a token outside the list becomes
    /// `Unknown` and keeps its text.
    pub fn from_str(s: &str) -> (decoded: KeywordType)
        ensures
            decoded@ == KeywordTypeView::parse(s@),
            decoded@ is Unknown <==> !KeywordTypeView::recognized(s@),
            !KeywordTypeView::recognized(s@) ==> decoded@ == KeywordTypeView::Unknown(s@),
    {
        if str_eq(s, "Obliterate") {
            KeywordType::Obliterate
        } else if str_eq(s, "Skill") {
            KeywordType::Skill
        } else if str_eq(s, "DoubleStrike") {
            KeywordType::DoubleStrike
        } else if str_eq(s, "Weakest") {
            KeywordType::Weakest
        } else if str_eq(s, "Elusive") {
            KeywordType::Elusive
        } else if str_eq(s, "Drain") {
            KeywordType::Drain
        } else if str_eq(s, "Stun") {
            KeywordType::Stun
        } else if str_eq(s, "Autoplay") {
            KeywordType::Autoplay
        } else if str_eq(s, "SpellOverwhelm") {
            KeywordType::SpellOverwhelm
        } else if str_eq(s, "Barrier") {
            KeywordType::Barrier
        } else if str_eq(s, "Capture") {
            KeywordType::Capture
        } else if str_eq(s, "Frostbite") {
            KeywordType::Frostbite
        } else if str_eq(s, "Burst") {
            KeywordType::Burst
        } else if str_eq(s, "Fleeting") {
            KeywordType::Fleeting
        } else if str_eq(s, "Fast") {
            KeywordType::Fast
        } else if str_eq(s, "Overwhelm") {
            KeywordType::Overwhelm
        } else if str_eq(s, "QuickStrike") {
            KeywordType::QuickStrike
        } else if str_eq(s, "Tough") {
            KeywordType::Tough
        } else if str_eq(s, "Recall") {
            KeywordType::Recall
        } else if str_eq(s, "Ionia") {
            KeywordType::Ionia
        } else if str_eq(s, "Regeneration") {
            KeywordType::Regeneration
        } else if str_eq(s, "Lifesteal") {
            KeywordType::Lifesteal
        } else if str_eq(s, "Enlightened") {
            KeywordType::Enlightened
        } else if str_eq(s, "Slow") {
            KeywordType::Slow
        } else if str_eq(s, "Ephemeral") {
            KeywordType::Ephemeral
        } else if str_eq(s, "LastBreath") {
            KeywordType::LastBreath
        } else if str_eq(s, "Challenger") {
            KeywordType::Challenger
        } else if str_eq(s, "Imbue") {
            KeywordType::Imbue
        } else if str_eq(s, "Fearsome") {
            KeywordType::Fearsome
        } else if str_eq(s, "CantBlock") {
            KeywordType::CantBlock
        } else {
            KeywordType::Unknown(s.to_owned())
        }
    }

    /// The text of the keyword.
    pub fn to_string(&self) -> (text: String)
        ensures
            text@ == self@.format(),
    {
        match self {
            KeywordType::Unknown(text) => text.clone(),
            KeywordType::Obliterate => "Obliterate".to_owned(),
            KeywordType::Skill => "Skill".to_owned(),
            KeywordType::DoubleStrike => "DoubleStrike".to_owned(),
            KeywordType::Weakest => "Weakest".to_owned(),
            KeywordType::Elusive => "Elusive".to_owned(),
            KeywordType::Drain => "Drain".to_owned(),
            KeywordType::Stun => "Stun".to_owned(),
            KeywordType::Autoplay => "Autoplay".to_owned(),
            KeywordType::SpellOverwhelm => "SpellOverwhelm".to_owned(),
            KeywordType::Barrier => "Barrier".to_owned(),
            KeywordType::Capture => "Capture".to_owned(),
            KeywordType::Frostbite => "Frostbite".to_owned(),
            KeywordType::Burst => "Burst".to_owned(),
            KeywordType::Fleeting => "Fleeting".to_owned(),
            KeywordType::Fast => "Fast".to_owned(),
            KeywordType::Overwhelm => "Overwhelm".to_owned(),
            KeywordType::QuickStrike => "QuickStrike".to_owned(),
            KeywordType::Tough => "Tough".to_owned(),
            KeywordType::Recall => "Recall".to_owned(),
            KeywordType::Ionia => "Ionia".to_owned(),
            KeywordType::Regeneration => "Regeneration".to_owned(),
            KeywordType::Lifesteal => "Lifesteal".to_owned(),
            KeywordType::Enlightened => "Enlightened".to_owned(),
            KeywordType::Slow => "Slow".to_owned(),
            KeywordType::Ephemeral => "Ephemeral".to_owned(),
            KeywordType::LastBreath => "LastBreath".to_owned(),
            KeywordType::Challenger => "Challenger".to_owned(),
            KeywordType::Imbue => "Imbue".to_owned(),
            KeywordType::Fearsome => "Fearsome".to_owned(),
            KeywordType::CantBlock => "CantBlock".to_owned(),
        }
    }
}

/// The length of each token of the list and its first 2 characters: enough to
/// tell any two of them apart.
proof fn lemma_tokens()
    ensures
        "Obliterate"@.len() == 10 && "Obliterate"@[0] == 'O' && "Obliterate"@[1] == 'b',
        "Skill"@.len() == 5 && "Skill"@[0] == 'S' && "Skill"@[1] == 'k',
        "DoubleStrike"@.len() == 12 && "DoubleStrike"@[0] == 'D' && "DoubleStrike"@[1] == 'o',
        "Weakest"@.len() == 7 && "Weakest"@[0] == 'W' && "Weakest"@[1] == 'e',
        "Elusive"@.len() == 7 && "Elusive"@[0] == 'E' && "Elusive"@[1] == 'l',
        "Drain"@.len() == 5 && "Drain"@[0] == 'D' && "Drain"@[1] == 'r',
        "Stun"@.len() == 4 && "Stun"@[0] == 'S' && "Stun"@[1] == 't',
        "Autoplay"@.len() == 8 && "Autoplay"@[0] == 'A' && "Autoplay"@[1] == 'u',
        "SpellOverwhelm"@.len() == 14 && "SpellOverwhelm"@[0] == 'S' && "SpellOverwhelm"@[1] == 'p',
        "Barrier"@.len() == 7 && "Barrier"@[0] == 'B' && "Barrier"@[1] == 'a',
        "Capture"@.len() == 7 && "Capture"@[0] == 'C' && "Capture"@[1] == 'a',
        "Frostbite"@.len() == 9 && "Frostbite"@[0] == 'F' && "Frostbite"@[1] == 'r',
        "Burst"@.len() == 5 && "Burst"@[0] == 'B' && "Burst"@[1] == 'u',
        "Fleeting"@.len() == 8 && "Fleeting"@[0] == 'F' && "Fleeting"@[1] == 'l',
        "Fast"@.len() == 4 && "Fast"@[0] == 'F' && "Fast"@[1] == 'a',
        "Overwhelm"@.len() == 9 && "Overwhelm"@[0] == 'O' && "Overwhelm"@[1] == 'v',
        "QuickStrike"@.len() == 11 && "QuickStrike"@[0] == 'Q' && "QuickStrike"@[1] == 'u',
        "Tough"@.len() == 5 && "Tough"@[0] == 'T' && "Tough"@[1] == 'o',
        "Recall"@.len() == 6 && "Recall"@[0] == 'R' && "Recall"@[1] == 'e',
        "Ionia"@.len() == 5 && "Ionia"@[0] == 'I' && "Ionia"@[1] == 'o',
        "Regeneration"@.len() == 12 && "Regeneration"@[0] == 'R' && "Regeneration"@[1] == 'e',
        "Lifesteal"@.len() == 9 && "Lifesteal"@[0] == 'L' && "Lifesteal"@[1] == 'i',
        "Enlightened"@.len() == 11 && "Enlightened"@[0] == 'E' && "Enlightened"@[1] == 'n',
        "Slow"@.len() == 4 && "Slow"@[0] == 'S' && "Slow"@[1] == 'l',
        "Ephemeral"@.len() == 9 && "Ephemeral"@[0] == 'E' && "Ephemeral"@[1] == 'p',
        "LastBreath"@.len() == 10 && "LastBreath"@[0] == 'L' && "LastBreath"@[1] == 'a',
        "Challenger"@.len() == 10 && "Challenger"@[0] == 'C' && "Challenger"@[1] == 'h',
        "Imbue"@.len() == 5 && "Imbue"@[0] == 'I' && "Imbue"@[1] == 'm',
        "Fearsome"@.len() == 8 && "Fearsome"@[0] == 'F' && "Fearsome"@[1] == 'e',
        "CantBlock"@.len() == 9 && "CantBlock"@[0] == 'C' && "CantBlock"@[1] == 'a',
{
    reveal_strlit("Obliterate");
    reveal_strlit("Skill");
    reveal_strlit("DoubleStrike");
    reveal_strlit("Weakest");
    reveal_strlit("Elusive");
    reveal_strlit("Drain");
    reveal_strlit("Stun");
    reveal_strlit("Autoplay");
    reveal_strlit("SpellOverwhelm");
    reveal_strlit("Barrier");
    reveal_strlit("Capture");
    reveal_strlit("Frostbite");
    reveal_strlit("Burst");
    reveal_strlit("Fleeting");
    reveal_strlit("Fast");
    reveal_strlit("Overwhelm");
    reveal_strlit("QuickStrike");
    reveal_strlit("Tough");
    reveal_strlit("Recall");
    reveal_strlit("Ionia");
    reveal_strlit("Regeneration");
    reveal_strlit("Lifesteal");
    reveal_strlit("Enlightened");
    reveal_strlit("Slow");
    reveal_strlit("Ephemeral");
    reveal_strlit("LastBreath");
    reveal_strlit("Challenger");
    reveal_strlit("Imbue");
    reveal_strlit("Fearsome");
    reveal_strlit("CantBlock");
}

/// The text of a named keyword is a token of the list, and it decodes to the
/// same keyword; no two named ones share a text.
pub proof fn lemma_parse_of_format(value: KeywordTypeView)
    requires
        !(value is Unknown),
    ensures
        KeywordTypeView::recognized(value.format()),
        KeywordTypeView::parse(value.format()) == value,
{
    lemma_tokens();
}

/// A text decodes to `Unknown` exactly when it is no token of the list, and
/// then the text is kept as it is.
pub proof fn lemma_unknown_keeps_text(text: Seq<char>)
    ensures
        KeywordTypeView::parse(text) is Unknown <==> !KeywordTypeView::recognized(text),
        !KeywordTypeView::recognized(text) ==> KeywordTypeView::parse(text) == KeywordTypeView::Unknown(text),
        !KeywordTypeView::recognized(text) ==> KeywordTypeView::parse(text).format() == text,
{
}

} // verus!
