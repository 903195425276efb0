//! The supertype of a card.

use crate::text::str_eq;
use vstd::prelude::*;

verus! {

/// The supertype of a card. The empty token stands for a card without one;
/// `Unknown` keeps the text of a token that is not part of the list.
#[derive(Debug, Eq, PartialEq, Ord, PartialOrd)]
pub enum Supertype {
    Unknown(String),
    NoSupertype,
    Champion,
}

/// Mathematical value of a [`Supertype`].
pub enum SupertypeView {
    Unknown(Seq<char>),
    NoSupertype,
    Champion,
}

impl View for Supertype {
    type V = SupertypeView;

    open spec fn view(&self) -> SupertypeView {
        match self {
            Supertype::Unknown(text) => SupertypeView::Unknown(text@),
            Supertype::NoSupertype => SupertypeView::NoSupertype,
            Supertype::Champion => SupertypeView::Champion,
        }
    }
}

impl SupertypeView {
    /// Whether `text` is one of the tokens that name a supertype.
    pub open spec fn recognized(text: Seq<char>) -> bool {
        ||| text == ""@
        ||| text == "Champion"@
    }

    /// The supertype that `text` decodes to: the named variant of a recognized
    /// token, else `Unknown` with the text unchanged.
    pub open spec fn parse(text: Seq<char>) -> SupertypeView {
        if text == ""@ {
            SupertypeView::NoSupertype
        } else if text == "Champion"@ {
            SupertypeView::Champion
        } else {
            SupertypeView::Unknown(text)
        }
    }

    /// The text of a supertype; an `Unknown` one gives back its text.
    pub open spec fn format(self) -> Seq<char> {
        match self {
            SupertypeView::Unknown(text) => text,
            SupertypeView::NoSupertype => ""@,
            SupertypeView::Champion => "Champion"@,
        }
    }
}

impl Supertype {
    /// Decodes a supertype token. Never fails: a token outside the list becomes
    /// `Unknown` and keeps its text.
    pub fn from_str(s: &str) -> (decoded: Supertype)
        ensures
            decoded@ == SupertypeView::parse(s@),
            decoded@ is Unknown <==> !SupertypeView::recognized(s@),
            !SupertypeView::recognized(s@) ==> decoded@ == SupertypeView::Unknown(s@),
    {
        if str_eq(s, "") {
            Supertype::NoSupertype
        } else if str_eq(s, "Champion") {
            Supertype::Champion
        } else {
            Supertype::Unknown(s.to_owned())
        }
    }

    /// The text of the supertype.
    pub fn to_string(&self) -> (text: String)
        ensures
            text@ == self@.format(),
    {
        match self {
            Supertype::Unknown(text) => text.clone(),
            Supertype::NoSupertype => "".to_owned(),
            Supertype::Champion => "Champion".to_owned(),
        }
    }
}

/// The length of each token of the list: enough to
/// tell any two of them apart.
proof fn lemma_tokens()
    ensures
        ""@.len() == 0,
        "Champion"@.len() == 8,
{
    reveal_strlit("");
    reveal_strlit("Champion");
}

/// The text of a named supertype is a token of the list, and it decodes to the
/// same supertype; no two named ones share a text.
pub proof fn lemma_parse_of_format(value: SupertypeView)
    requires
        !(value is Unknown),
    ensures
        SupertypeView::recognized(value.format()),
        SupertypeView::parse(value.format()) == value,
{
    lemma_tokens();
}

/// A text decodes to `Unknown` exactly when it is no token of the list, and
/// then the text is kept as it is.
pub proof fn lemma_unknown_keeps_text(text: Seq<char>)
    ensures
        SupertypeView::parse(text) is Unknown <==> !SupertypeView::recognized(text),
        !SupertypeView::recognized(text) ==> SupertypeView::parse(text) == SupertypeView::Unknown(text),
        !SupertypeView::recognized(text) ==> SupertypeView::parse(text).format() == text,
{
}

} // verus!
