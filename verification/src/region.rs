//! The region enumeration, its text codec and its numeric identity.

use crate::text::str_eq;
use vstd::prelude::*;

verus! {

/// Numeric id that stands for every region outside the card-code table.
pub const UNKNOWN_REGION_ID: u32 = 99;

/// A faction of the game. `Unknown` keeps the text of a token that is not
/// (yet) part of the list.
#[derive(Debug, Eq, PartialEq, Ord, PartialOrd)]
pub enum Region {
    Unknown(String),
    Neutral,
    Demacia,
    Freljord,
    Ionia,
    Noxus,
    PiltoverZaun,
    ShadowIsles,
}

/// Mathematical value of a [`Region`].
pub enum RegionView {
    Unknown(Seq<char>),
    Neutral,
    Demacia,
    Freljord,
    Ionia,
    Noxus,
    PiltoverZaun,
    ShadowIsles,
}

impl View for Region {
    type V = RegionView;

    open spec fn view(&self) -> RegionView {
        match self {
            Region::Unknown(text) => RegionView::Unknown(text@),
            Region::Neutral => RegionView::Neutral,
            Region::Demacia => RegionView::Demacia,
            Region::Freljord => RegionView::Freljord,
            Region::Ionia => RegionView::Ionia,
            Region::Noxus => RegionView::Noxus,
            Region::PiltoverZaun => RegionView::PiltoverZaun,
            Region::ShadowIsles => RegionView::ShadowIsles,
        }
    }
}

impl RegionView {
    /// The region that stands in for every id outside the card-code table.
    pub open spec fn unimplemented() -> RegionView {
        RegionView::Unknown("Unimplemented region"@)
    }

    /// Whether `text` is one of the tokens that name a region.
    pub open spec fn recognized(text: Seq<char>) -> bool {
        ||| text == "Neutral"@
        ||| text == "Demacia"@
        ||| text == "Freljord"@
        ||| text == "Ionia"@
        ||| text == "Noxus"@
        ||| text == "PiltoverZaun"@
        ||| text == "Piltover & Zaun"@
        ||| text == "ShadowIsles"@
        ||| text == "Shadow Isles"@
    }

    /// The region that `text` decodes to: the named variant of a recognized
    /// token, else `Unknown` with the text unchanged.
    pub open spec fn parse(text: Seq<char>) -> RegionView {
        if text == "Neutral"@ {
            RegionView::Neutral
        } else if text == "Demacia"@ {
            RegionView::Demacia
        } else if text == "Freljord"@ {
            RegionView::Freljord
        } else if text == "Ionia"@ {
            RegionView::Ionia
        } else if text == "Noxus"@ {
            RegionView::Noxus
        } else if text == "PiltoverZaun"@ || text == "Piltover & Zaun"@ {
            RegionView::PiltoverZaun
        } else if text == "ShadowIsles"@ || text == "Shadow Isles"@ {
            RegionView::ShadowIsles
        } else {
            RegionView::Unknown(text)
        }
    }

    /// The display text of a region; an `Unknown` region gives back its text.
    pub open spec fn format(self) -> Seq<char> {
        match self {
            RegionView::Unknown(text) => text,
            RegionView::Neutral => "Neutral"@,
            RegionView::Demacia => "Demacia"@,
            RegionView::Freljord => "Freljord"@,
            RegionView::Ionia => "Ionia"@,
            RegionView::Noxus => "Noxus"@,
            RegionView::PiltoverZaun => "Piltover & Zaun"@,
            RegionView::ShadowIsles => "Shadow Isles"@,
        }
    }

    /// Whether the region has an entry in the card-code table.
    pub open spec fn in_code_table(self) -> bool {
        match self {
            RegionView::Demacia
            | RegionView::Freljord
            | RegionView::Ionia
            | RegionView::Noxus
            | RegionView::PiltoverZaun
            | RegionView::ShadowIsles => true,
            _ => false,
        }
    }

    /// The numeric id of a region: `0..=5` for the members of the card-code
    /// table, `99` for every other region.
    pub open spec fn id(self) -> nat {
        match self {
            RegionView::Demacia => 0,
            RegionView::Freljord => 1,
            RegionView::Ionia => 2,
            RegionView::Noxus => 3,
            RegionView::PiltoverZaun => 4,
            RegionView::ShadowIsles => 5,
            _ => 99,
        }
    }

    /// The region of a numeric id; an id outside `0..=5` has no region of its
    /// own and gives the `Unknown` stand-in.
    pub open spec fn from_id(id: nat) -> RegionView {
        if id == 0 {
            RegionView::Demacia
        } else if id == 1 {
            RegionView::Freljord
        } else if id == 2 {
            RegionView::Ionia
        } else if id == 3 {
            RegionView::Noxus
        } else if id == 4 {
            RegionView::PiltoverZaun
        } else if id == 5 {
            RegionView::ShadowIsles
        } else {
            RegionView::unimplemented()
        }
    }
}

impl Region {
    /// Decodes a region token. Never fails: a token outside the list becomes
    /// `Unknown` and keeps its text.
    pub fn from_str(s: &str) -> (region: Region)
        ensures
            region@ == RegionView::parse(s@),
            region@ is Unknown <==> !RegionView::recognized(s@),
            !RegionView::recognized(s@) ==> region@ == RegionView::Unknown(s@),
    {
        if str_eq(s, "Neutral") {
            Region::Neutral
        } else if str_eq(s, "Demacia") {
            Region::Demacia
        } else if str_eq(s, "Freljord") {
            Region::Freljord
        } else if str_eq(s, "Ionia") {
            Region::Ionia
        } else if str_eq(s, "Noxus") {
            Region::Noxus
        } else if str_eq(s, "PiltoverZaun") || str_eq(s, "Piltover & Zaun") {
            Region::PiltoverZaun
        } else if str_eq(s, "ShadowIsles") || str_eq(s, "Shadow Isles") {
            Region::ShadowIsles
        } else {
            Region::Unknown(s.to_owned())
        }
    }

    /// The display text of the region.
    pub fn to_string(&self) -> (text: String)
        ensures
            text@ == self@.format(),
    {
        match self {
            Region::Unknown(text) => text.clone(),
            Region::Neutral => "Neutral".to_owned(),
            Region::Demacia => "Demacia".to_owned(),
            Region::Freljord => "Freljord".to_owned(),
            Region::Ionia => "Ionia".to_owned(),
            Region::Noxus => "Noxus".to_owned(),
            Region::PiltoverZaun => "Piltover & Zaun".to_owned(),
            Region::ShadowIsles => "Shadow Isles".to_owned(),
        }
    }

    /// The region that a numeric id stands for.
    pub fn from_value(value: u32) -> (region: Region)
        ensures
            region@ == RegionView::from_id(value as nat),
    {
        match value {
            0 => Region::Demacia,
            1 => Region::Freljord,
            2 => Region::Ionia,
            3 => Region::Noxus,
            4 => Region::PiltoverZaun,
            5 => Region::ShadowIsles,
            _ => Region::Unknown("Unimplemented region".to_owned()),
        }
    }

    /// The numeric id of the region.
    pub fn value(&self) -> (id: u32)
        ensures
            id == self@.id(),
            id <= 5 || id == UNKNOWN_REGION_ID,
    {
        match self {
            Region::Demacia => 0,
            Region::Freljord => 1,
            Region::Ionia => 2,
            Region::Noxus => 3,
            Region::PiltoverZaun => 4,
            Region::ShadowIsles => 5,
            _ => UNKNOWN_REGION_ID,
        }
    }
}

/// An id of the table decodes to the region that encodes to it, and every
/// other id decodes to a region whose id is the unknown one.
pub proof fn lemma_region_id_round_trip(id: nat)
    ensures
        id <= 5 ==> RegionView::from_id(id).id() == id,
        id > 5 ==> RegionView::from_id(id).id() == 99,
        RegionView::from_id(id).in_code_table() <==> id <= 5,
{
}

/// A region of the table is found again from its id.
pub proof fn lemma_region_of_id(region: RegionView)
    requires
        region.in_code_table(),
    ensures
        region.id() <= 5,
        RegionView::from_id(region.id()) == region,
{
}

/// The length of each token of the list and its first character: enough to
/// tell any two of them apart.
proof fn lemma_tokens()
    ensures
        "Neutral"@.len() == 7 && "Neutral"@[0] == 'N',
        "Demacia"@.len() == 7 && "Demacia"@[0] == 'D',
        "Freljord"@.len() == 8 && "Freljord"@[0] == 'F',
        "Ionia"@.len() == 5 && "Ionia"@[0] == 'I',
        "Noxus"@.len() == 5 && "Noxus"@[0] == 'N',
        "PiltoverZaun"@.len() == 12 && "PiltoverZaun"@[0] == 'P',
        "Piltover & Zaun"@.len() == 15 && "Piltover & Zaun"@[0] == 'P',
        "ShadowIsles"@.len() == 11 && "ShadowIsles"@[0] == 'S',
        "Shadow Isles"@.len() == 12 && "Shadow Isles"@[0] == 'S',
{
    reveal_strlit("Neutral");
    reveal_strlit("Demacia");
    reveal_strlit("Freljord");
    reveal_strlit("Ionia");
    reveal_strlit("Noxus");
    reveal_strlit("PiltoverZaun");
    reveal_strlit("Piltover & Zaun");
    reveal_strlit("ShadowIsles");
    reveal_strlit("Shadow Isles");
}

/// The text of a named region is a token of the list, and it decodes to the
/// same region; no two named ones share a text.
pub proof fn lemma_parse_of_format(value: RegionView)
    requires
        !(value is Unknown),
    ensures
        RegionView::recognized(value.format()),
        RegionView::parse(value.format()) == value,
{
    lemma_tokens();
}

/// A text decodes to `Unknown` exactly when it is no token of the list, and
/// then the text is kept as it is.
pub proof fn lemma_unknown_keeps_text(text: Seq<char>)
    ensures
        RegionView::parse(text) is Unknown <==> !RegionView::recognized(text),
        !RegionView::recognized(text) ==> RegionView::parse(text) == RegionView::Unknown(text),
        !RegionView::recognized(text) ==> RegionView::parse(text).format() == text,
{
}

} // verus!
