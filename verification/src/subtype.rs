//! The subtype of a card.

use crate::text::str_eq;
use vstd::prelude::*;

verus! {

/// The subtype of a card. The empty token stands for a card without one;
/// `Unknown` keeps the text of a token that is not part of the list.
#[derive(Debug, Eq, PartialEq, Ord, PartialOrd)]
pub enum Subtype {
    Unknown(String),
    NoSubtype,
    Elite,
    Elnuk,
    Poro,
    Spider,
    Tech,
    Yeti,
}

/// Mathematical value of a [`Subtype`].
pub enum SubtypeView {
    Unknown(Seq<char>),
    NoSubtype,
    Elite,
    Elnuk,
    Poro,
    Spider,
    Tech,
    Yeti,
}

impl View for Subtype {
    type V = SubtypeView;

    open spec fn view(&self) -> SubtypeView {
        match self {
            Subtype::Unknown(text) => SubtypeView::Unknown(text@),
            Subtype::NoSubtype => SubtypeView::NoSubtype,
            Subtype::Elite => SubtypeView::Elite,
            Subtype::Elnuk => SubtypeView::Elnuk,
            Subtype::Poro => SubtypeView::Poro,
            Subtype::Spider => SubtypeView::Spider,
            Subtype::Tech => SubtypeView::Tech,
            Subtype::Yeti => SubtypeView::Yeti,
        }
    }
}

impl SubtypeView {
    /// Whether `text` is one of the tokens that name a subtype.
    pub open spec fn recognized(text: Seq<char>) -> bool {
        ||| text == ""@
        ||| text == "Elite"@
        ||| text == "Elnuk"@
        ||| text == "Poro"@
        ||| text == "Spider"@
        ||| text == "Tech"@
        ||| text == "Yeti"@
    }

    /// The subtype that `text` decodes to: the named variant of a recognized
    /// token, else `Unknown` with the text unchanged.
    pub open spec fn parse(text: Seq<char>) -> SubtypeView {
        if text == ""@ {
            SubtypeView::NoSubtype
        } else if text == "Elite"@ {
            SubtypeView::Elite
        } else if text == "Elnuk"@ {
            SubtypeView::Elnuk
        } else if text == "Poro"@ {
            SubtypeView::Poro
        } else if text == "Spider"@ {
            SubtypeView::Spider
        } else if text == "Tech"@ {
            SubtypeView::Tech
        } else if text == "Yeti"@ {
            SubtypeView::Yeti
        } else {
            SubtypeView::Unknown(text)
        }
    }

    /// The text of a subtype; an `Unknown` one gives back its text.
    pub open spec fn format(self) -> Seq<char> {
        match self {
            SubtypeView::Unknown(text) => text,
            SubtypeView::NoSubtype => ""@,
            SubtypeView::Elite => "Elite"@,
            SubtypeView::Elnuk => "Elnuk"@,
            SubtypeView::Poro => "Poro"@,
            SubtypeView::Spider => "Spider"@,
            SubtypeView::Tech => "Tech"@,
            SubtypeView::Yeti => "Yeti"@,
        }
    }
}

impl Subtype {
    /// Decodes a subtype token. Never fails: a token outside the list becomes
    /// `Unknown` and keeps its text.
    pub fn from_str(s: &str) -> (decoded: Subtype)
        ensures
            decoded@ == SubtypeView::parse(s@),
            decoded@ is Unknown <==> !SubtypeView::recognized(s@),
            !SubtypeView::recognized(s@) ==> decoded@ == SubtypeView::Unknown(s@),
    {
        if str_eq(s, "") {
            Subtype::NoSubtype
        } else if str_eq(s, "Elite") {
            Subtype::Elite
        } else if str_eq(s, "Elnuk") {
            Subtype::Elnuk
        } else if str_eq(s, "Poro") {
            Subtype::Poro
        } else if str_eq(s, "Spider") {
            Subtype::Spider
        } else if str_eq(s, "Tech") {
            Subtype::Tech
        } else if str_eq(s, "Yeti") {
            Subtype::Yeti
        } else {
            Subtype::Unknown(s.to_owned())
        }
    }

    /// The text of the subtype.
    pub fn to_string(&self) -> (text: String)
        ensures
            text@ == self@.format(),
    {
        match self {
            Subtype::Unknown(text) => text.clone(),
            Subtype::NoSubtype => "".to_owned(),
            Subtype::Elite => "Elite".to_owned(),
            Subtype::Elnuk => "Elnuk".to_owned(),
            Subtype::Poro => "Poro".to_owned(),
            Subtype::Spider => "Spider".to_owned(),
            Subtype::Tech => "Tech".to_owned(),
            Subtype::Yeti => "Yeti".to_owned(),
        }
    }
}

/// The length of each token of the list and its first 3 characters: enough to
/// tell any two of them apart.
proof fn lemma_tokens()
    ensures
        ""@.len() == 0,
        "Elite"@.len() == 5 && "Elite"@[0] == 'E' && "Elite"@[1] == 'l' && "Elite"@[2] == 'i',
        "Elnuk"@.len() == 5 && "Elnuk"@[0] == 'E' && "Elnuk"@[1] == 'l' && "Elnuk"@[2] == 'n',
        "Poro"@.len() == 4 && "Poro"@[0] == 'P' && "Poro"@[1] == 'o' && "Poro"@[2] == 'r',
        "Spider"@.len() == 6 && "Spider"@[0] == 'S' && "Spider"@[1] == 'p' && "Spider"@[2] == 'i',
        "Tech"@.len() == 4 && "Tech"@[0] == 'T' && "Tech"@[1] == 'e' && "Tech"@[2] == 'c',
        "Yeti"@.len() == 4 && "Yeti"@[0] == 'Y' && "Yeti"@[1] == 'e' && "Yeti"@[2] == 't',
{
    reveal_strlit("");
    reveal_strlit("Elite");
    reveal_strlit("Elnuk");
    reveal_strlit("Poro");
    reveal_strlit("Spider");
    reveal_strlit("Tech");
    reveal_strlit("Yeti");
}

/// The text of a named subtype is a token of the list, and it decodes to the
/// same subtype; no two named ones share a text.
pub proof fn lemma_parse_of_format(value: SubtypeView)
    requires
        !(value is Unknown),
    ensures
        SubtypeView::recognized(value.format()),
        SubtypeView::parse(value.format()) == value,
{
    lemma_tokens();
}

/// A text decodes to `Unknown` exactly when it is no token of the list, and
/// then the text is kept as it is.
pub proof fn lemma_unknown_keeps_text(text: Seq<char>)
    ensures
        SubtypeView::parse(text) is Unknown <==> !SubtypeView::recognized(text),
        !SubtypeView::recognized(text) ==> SubtypeView::parse(text) == SubtypeView::Unknown(text),
        !SubtypeView::recognized(text) ==> SubtypeView::parse(text).format() == text,
{
}

} // verus!
