//! The type of a card.

use crate::text::str_eq;
use vstd::prelude::*;

verus! {

/// What kind of card a card is. `Unknown` keeps the text of a token that is not part
/// of the list.
#[derive(Debug, Eq, PartialEq, Ord, PartialOrd)]
pub enum Type {
    Unknown(String),
    Ability,
    Spell,
    Trap,
    Unit,
}

/// Mathematical value of a [`Type`].
pub enum TypeView {
    Unknown(Seq<char>),
    Ability,
    Spell,
    Trap,
    Unit,
}

impl View for Type {
    type V = TypeView;

    open spec fn view(&self) -> TypeView {
        match self {
            Type::Unknown(text) => TypeView::Unknown(text@),
            Type::Ability => TypeView::Ability,
            Type::Spell => TypeView::Spell,
            Type::Trap => TypeView::Trap,
            Type::Unit => TypeView::Unit,
        }
    }
}

impl TypeView {
    /// Whether `text` is one of the tokens that name a card type.
    pub open spec fn recognized(text: Seq<char>) -> bool {
        ||| text == "Ability"@
        ||| text == "Spell"@
        ||| text == "Trap"@
        ||| text == "Unit"@
    }

    /// The card type that `text` decodes to: the named variant of a recognized
    /// token, else `Unknown` with the text unchanged.
    pub open spec fn parse(text: Seq<char>) -> TypeView {
        if text == "Ability"@ {
            TypeView::Ability
        } else if text == "Spell"@ {
            TypeView::Spell
        } else if text == "Trap"@ {
            TypeView::Trap
        } else if text == "Unit"@ {
            TypeView::Unit
        } else {
            TypeView::Unknown(text)
        }
    }

    /// The text of a card type; an `Unknown` one gives back its text.
    pub open spec fn format(self) -> Seq<char> {
        match self {
            TypeView::Unknown(text) => text,
            TypeView::Ability => "Ability"@,
            TypeView::Spell => "Spell"@,
            TypeView::Trap => "Trap"@,
            TypeView::Unit => "Unit"@,
        }
    }
}

impl Type {
    /// Decodes a card type token. Never fails: a token outside the list becomes
    /// `Unknown` and keeps its text.
    pub fn from_str(s: &str) -> (decoded: Type)
        ensures
            decoded@ == TypeView::parse(s@),
            decoded@ is Unknown <==> !TypeView::recognized(s@),
            !TypeView::recognized(s@) ==> decoded@ == TypeView::Unknown(s@),
    {
        if str_eq(s, "Ability") {
            Type::Ability
        } else if str_eq(s, "Spell") {
            Type::Spell
        } else if str_eq(s, "Trap") {
            Type::Trap
        } else if str_eq(s, "Unit") {
            Type::Unit
        } else {
            Type::Unknown(s.to_owned())
        }
    }

    /// The text of the card type.
    pub fn to_string(&self) -> (text: String)
        ensures
            text@ == self@.format(),
    {
        match self {
            Type::Unknown(text) => text.clone(),
            Type::Ability => "Ability".to_owned(),
            Type::Spell => "Spell".to_owned(),
            Type::Trap => "Trap".to_owned(),
            Type::Unit => "Unit".to_owned(),
        }
    }
}

/// The length of each token of the list and its first character: enough to
/// tell any two of them apart.
proof fn lemma_tokens()
    ensures
        "Ability"@.len() == 7 && "Ability"@[0] == 'A',
        "Spell"@.len() == 5 && "Spell"@[0] == 'S',
        "Trap"@.len() == 4 && "Trap"@[0] == 'T',
        "Unit"@.len() == 4 && "Unit"@[0] == 'U',
{
    reveal_strlit("Ability");
    reveal_strlit("Spell");
    reveal_strlit("Trap");
    reveal_strlit("Unit");
}

/// The text of a named card type is a token of the list, and it decodes to the
/// same card type; no two named ones share a text.
pub proof fn lemma_parse_of_format(value: TypeView)
    requires
        !(value is Unknown),
    ensures
        TypeView::recognized(value.format()),
        TypeView::parse(value.format()) == value,
{
    lemma_tokens();
}

/// A text decodes to `Unknown` exactly when it is no token of the list, and
/// then the text is kept as it is.
pub proof fn lemma_unknown_keeps_text(text: Seq<char>)
    ensures
        TypeView::parse(text) is Unknown <==> !TypeView::recognized(text),
        !TypeView::recognized(text) ==> TypeView::parse(text) == TypeView::Unknown(text),
        !TypeView::recognized(text) ==> TypeView::parse(text).format() == text,
{
}

} // verus!
