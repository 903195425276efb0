//! The speed at which a spell resolves.

use crate::text::str_eq;
use vstd::prelude::*;

verus! {

/// The speed of a spell. `Unknown` keeps the text of a token that is not part
/// of the list.
#[derive(Debug, Eq, PartialEq, Ord, PartialOrd)]
pub enum SpellSpeed {
    Unknown(String),
    Slow,
    Fast,
    Burst,
}

/// Mathematical value of a [`SpellSpeed`].
pub enum SpellSpeedView {
    Unknown(Seq<char>),
    Slow,
    Fast,
    Burst,
}

impl View for SpellSpeed {
    type V = SpellSpeedView;

    open spec fn view(&self) -> SpellSpeedView {
        match self {
            SpellSpeed::Unknown(text) => SpellSpeedView::Unknown(text@),
            SpellSpeed::Slow => SpellSpeedView::Slow,
            SpellSpeed::Fast => SpellSpeedView::Fast,
            SpellSpeed::Burst => SpellSpeedView::Burst,
        }
    }
}

impl SpellSpeedView {
    /// Whether `text` is one of the tokens that name a spell speed.
    pub open spec fn recognized(text: Seq<char>) -> bool {
        ||| text == "Slow"@
        ||| text == "Fast"@
        ||| text == "Burst"@
    }

    /// The spell speed that `text` decodes to: the named variant of a recognized
    /// token, else `Unknown` with the text unchanged.
    pub open spec fn parse(text: Seq<char>) -> SpellSpeedView {
        if text == "Slow"@ {
            SpellSpeedView::Slow
        } else if text == "Fast"@ {
            SpellSpeedView::Fast
        } else if text == "Burst"@ {
            SpellSpeedView::Burst
        } else {
            SpellSpeedView::Unknown(text)
        }
    }

    /// The text of a spell speed; an `Unknown` one gives back its text.
    pub open spec fn format(self) -> Seq<char> {
        match self {
            SpellSpeedView::Unknown(text) => text,
            SpellSpeedView::Slow => "Slow"@,
            SpellSpeedView::Fast => "Fast"@,
            SpellSpeedView::Burst => "Burst"@,
        }
    }
}

impl SpellSpeed {
    /// Decodes a spell speed token. Never fails: a token outside the list becomes
    /// `Unknown` and keeps its text.
    pub fn from_str(s: &str) -> (decoded: SpellSpeed)
        ensures
            decoded@ == SpellSpeedView::parse(s@),
            decoded@ is Unknown <==> !SpellSpeedView::recognized(s@),
            !SpellSpeedView::recognized(s@) ==> decoded@ == SpellSpeedView::Unknown(s@),
    {
        if str_eq(s, "Slow") {
            SpellSpeed::Slow
        } else if str_eq(s, "Fast") {
            SpellSpeed::Fast
        } else if str_eq(s, "Burst") {
            SpellSpeed::Burst
        } else {
            SpellSpeed::Unknown(s.to_owned())
        }
    }

    /// The text of the spell speed.
    pub fn to_string(&self) -> (text: String)
        ensures
            text@ == self@.format(),
    {
        match self {
            SpellSpeed::Unknown(text) => text.clone(),
            SpellSpeed::Slow => "Slow".to_owned(),
            SpellSpeed::Fast => "Fast".to_owned(),
            SpellSpeed::Burst => "Burst".to_owned(),
        }
    }
}

/// The length of each token of the list and its first character: enough to
/// tell any two of them apart.
proof fn lemma_tokens()
    ensures
        "Slow"@.len() == 4 && "Slow"@[0] == 'S',
        "Fast"@.len() == 4 && "Fast"@[0] == 'F',
        "Burst"@.len() == 5 && "Burst"@[0] == 'B',
{
    reveal_strlit("Slow");
    reveal_strlit("Fast");
    reveal_strlit("Burst");
}

/// The text of a named spell speed is a token of the list, and it decodes to the
/// same spell speed; no two named ones share a text.
pub proof fn lemma_parse_of_format(value: SpellSpeedView)
    requires
        !(value is Unknown),
    ensures
        SpellSpeedView::recognized(value.format()),
        SpellSpeedView::parse(value.format()) == value,
{
    lemma_tokens();
}

/// A text decodes to `Unknown` exactly when it is no token of the list, and
/// then the text is kept as it is.
pub proof fn lemma_unknown_keeps_text(text: Seq<char>)
    ensures
        SpellSpeedView::parse(text) is Unknown <==> !SpellSpeedView::recognized(text),
        !SpellSpeedView::recognized(text) ==> SpellSpeedView::parse(text) == SpellSpeedView::Unknown(text),
        !SpellSpeedView::recognized(text) ==> SpellSpeedView::parse(text).format() == text,
{
}

} // verus!
