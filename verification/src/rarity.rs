//! The rarity of a card.

use crate::text::str_eq;
use vstd::prelude::*;

verus! {

/// How rare a card is. `Unknown` keeps the text of a token that is not part
/// of the list.
#[derive(Debug, Eq, PartialEq, Ord, PartialOrd)]
pub enum Rarity {
    Unknown(String),
    Common,
    Rare,
    Epic,
    Champion,
    NoRarity,
}

/// Mathematical value of a [`Rarity`].
pub enum RarityView {
    Unknown(Seq<char>),
    Common,
    Rare,
    Epic,
    Champion,
    NoRarity,
}

impl View for Rarity {
    type V = RarityView;

    open spec fn view(&self) -> RarityView {
        match self {
            Rarity::Unknown(text) => RarityView::Unknown(text@),
            Rarity::Common => RarityView::Common,
            Rarity::Rare => RarityView::Rare,
            Rarity::Epic => RarityView::Epic,
            Rarity::Champion => RarityView::Champion,
            Rarity::NoRarity => RarityView::NoRarity,
        }
    }
}

impl RarityView {
    /// Whether `text` is one of the tokens that name a rarity.
    pub open spec fn recognized(text: Seq<char>) -> bool {
        ||| text == "Common"@
        ||| text == "Rare"@
        ||| text == "Epic"@
        ||| text == "Champion"@
        ||| text == "None"@
    }

    /// The rarity that `text` decodes to: the named variant of a recognized
    /// token, else `Unknown` with the text unchanged.
    pub open spec fn parse(text: Seq<char>) -> RarityView {
        if text == "Common"@ {
            RarityView::Common
        } else if text == "Rare"@ {
            RarityView::Rare
        } else if text == "Epic"@ {
            RarityView::Epic
        } else if text == "Champion"@ {
            RarityView::Champion
        } else if text == "None"@ {
            RarityView::NoRarity
        } else {
            RarityView::Unknown(text)
        }
    }

    /// The text of a rarity; an `Unknown` one gives back its text.
    pub open spec fn format(self) -> Seq<char> {
        match self {
            RarityView::Unknown(text) => text,
            RarityView::Common => "Common"@,
            RarityView::Rare => "Rare"@,
            RarityView::Epic => "Epic"@,
            RarityView::Champion => "Champion"@,
            RarityView::NoRarity => "None"@,
        }
    }
}

impl Rarity {
    /// Decodes a rarity token. Never fails: a token outside the list becomes
    /// `Unknown` and keeps its text.
    pub fn from_str(s: &str) -> (decoded: Rarity)
        ensures
            decoded@ == RarityView::parse(s@),
            decoded@ is Unknown <==> !RarityView::recognized(s@),
            !RarityView::recognized(s@) ==> decoded@ == RarityView::Unknown(s@),
    {
        if str_eq(s, "Common") {
            Rarity::Common
        } else if str_eq(s, "Rare") {
            Rarity::Rare
        } else if str_eq(s, "Epic") {
            Rarity::Epic
        } else if str_eq(s, "Champion") {
            Rarity::Champion
        } else if str_eq(s, "None") {
            Rarity::NoRarity
        } else {
            Rarity::Unknown(s.to_owned())
        }
    }

    /// The text of the rarity.
    pub fn to_string(&self) -> (text: String)
        ensures
            text@ == self@.format(),
    {
        match self {
            Rarity::Unknown(text) => text.clone(),
            Rarity::Common => "Common".to_owned(),
            Rarity::Rare => "Rare".to_owned(),
            Rarity::Epic => "Epic".to_owned(),
            Rarity::Champion => "Champion".to_owned(),
            Rarity::NoRarity => "None".to_owned(),
        }
    }
}

/// The length of each token of the list and its first character: enough to
/// tell any two of them apart.
proof fn lemma_tokens()
    ensures
        "Common"@.len() == 6 && "Common"@[0] == 'C',
        "Rare"@.len() == 4 && "Rare"@[0] == 'R',
        "Epic"@.len() == 4 && "Epic"@[0] == 'E',
        "Champion"@.len() == 8 && "Champion"@[0] == 'C',
        "None"@.len() == 4 && "None"@[0] == 'N',
{
    reveal_strlit("Common");
    reveal_strlit("Rare");
    reveal_strlit("Epic");
    reveal_strlit("Champion");
    reveal_strlit("None");
}

/// The text of a named rarity is a token of the list, and it decodes to the
/// same rarity; no two named ones share a text.
pub proof fn lemma_parse_of_format(value: RarityView)
    requires
        !(value is Unknown),
    ensures
        RarityView::recognized(value.format()),
        RarityView::parse(value.format()) == value,
{
    lemma_tokens();
}

/// A text decodes to `Unknown` exactly when it is no token of the list, and
/// then the text is kept as it is.
pub proof fn lemma_unknown_keeps_text(text: Seq<char>)
    ensures
        RarityView::parse(text) is Unknown <==> !RarityView::recognized(text),
        !RarityView::recognized(text) ==> RarityView::parse(text) == RarityView::Unknown(text),
        !RarityView::recognized(text) ==> RarityView::parse(text).format() == text,
{
}

} // verus!
