//! The table between the two-letter region abbreviations of card codes and
//! the numeric region ids.

use crate::region::UNKNOWN_REGION_ID;
use crate::text::str_eq;
use vstd::prelude::*;

verus! {

/// Whether `token` is one of the six abbreviations of the table.
pub open spec fn is_region_abbreviation(token: Seq<char>) -> bool {
    ||| token == "DE"@
    ||| token == "FR"@
    ||| token == "IO"@
    ||| token == "NX"@
    ||| token == "PZ"@
    ||| token == "SI"@
}

/// The id of an abbreviation; `99` for a token outside the table.
pub open spec fn abbreviation_id(token: Seq<char>) -> nat {
    if token == "DE"@ {
        0
    } else if token == "FR"@ {
        1
    } else if token == "IO"@ {
        2
    } else if token == "NX"@ {
        3
    } else if token == "PZ"@ {
        4
    } else if token == "SI"@ {
        5
    } else {
        99
    }
}

/// The abbreviation of an id; `"UN"` for an id outside the table.
pub open spec fn id_abbreviation(id: nat) -> Seq<char> {
    if id == 0 {
        "DE"@
    } else if id == 1 {
        "FR"@
    } else if id == 2 {
        "IO"@
    } else if id == 3 {
        "NX"@
    } else if id == 4 {
        "PZ"@
    } else if id == 5 {
        "SI"@
    } else {
        "UN"@
    }
}

/// Looks an abbreviation up; a token outside the table gives the unknown id.
pub fn region_to_int(abbreviation: &str) -> (id: u32)
    ensures
        id == abbreviation_id(abbreviation@),
        id <= 5 <==> is_region_abbreviation(abbreviation@),
        id <= 5 || id == UNKNOWN_REGION_ID,
{
    if str_eq(abbreviation, "DE") {
        0
    } else if str_eq(abbreviation, "FR") {
        1
    } else if str_eq(abbreviation, "IO") {
        2
    } else if str_eq(abbreviation, "NX") {
        3
    } else if str_eq(abbreviation, "PZ") {
        4
    } else if str_eq(abbreviation, "SI") {
        5
    } else {
        UNKNOWN_REGION_ID
    }
}

/// Looks an id up; an id outside the table gives `"UN"`.
pub fn int_to_region(id: u32) -> (abbreviation: &'static str)
    ensures
        abbreviation@ == id_abbreviation(id as nat),
        abbreviation@.len() == 2,
{
    proof {
        lemma_abbreviation_shape(id as nat);
    }
    match id {
        0 => "DE",
        1 => "FR",
        2 => "IO",
        3 => "NX",
        4 => "PZ",
        5 => "SI",
        _ => "UN",
    }
}

/// What the seven two-letter tokens hold, character by character.
proof fn lemma_tokens()
    ensures
        "DE"@ =~= seq!['D', 'E'],
        "FR"@ =~= seq!['F', 'R'],
        "IO"@ =~= seq!['I', 'O'],
        "NX"@ =~= seq!['N', 'X'],
        "PZ"@ =~= seq!['P', 'Z'],
        "SI"@ =~= seq!['S', 'I'],
        "UN"@ =~= seq!['U', 'N'],
{
    reveal_strlit("DE");
    reveal_strlit("FR");
    reveal_strlit("IO");
    reveal_strlit("NX");
    reveal_strlit("PZ");
    reveal_strlit("SI");
    reveal_strlit("UN");
}

/// Every abbreviation that the table hands out has two characters, and
/// `"UN"` is not an abbreviation of the table.
pub proof fn lemma_abbreviation_shape(id: nat)
    ensures
        id_abbreviation(id).len() == 2,
        !is_region_abbreviation("UN"@),
        abbreviation_id("UN"@) == 99,
{
    lemma_tokens();
    assert("UN"@[0] == 'U');
    assert("DE"@[0] == 'D');
    assert("FR"@[0] == 'F');
    assert("IO"@[0] == 'I');
    assert("NX"@[0] == 'N');
    assert("PZ"@[0] == 'P');
    assert("SI"@[0] == 'S');
}

/// The table is a bijection between the six abbreviations and the ids
/// `0..=5`: an id of the table is found again from its abbreviation.
pub proof fn lemma_id_of_abbreviation(id: nat)
    requires
        id <= 5,
    ensures
        is_region_abbreviation(id_abbreviation(id)),
        abbreviation_id(id_abbreviation(id)) == id,
{
    lemma_tokens();
    assert("DE"@[0] == 'D');
    assert("FR"@[0] == 'F');
    assert("IO"@[0] == 'I');
    assert("NX"@[0] == 'N');
    assert("PZ"@[0] == 'P');
    assert("SI"@[0] == 'S');
}

/// The other direction of the bijection: an abbreviation of the table is
/// found again from its id, and a token outside the table has the unknown id.
pub proof fn lemma_abbreviation_of_id(token: Seq<char>)
    ensures
        is_region_abbreviation(token) ==> abbreviation_id(token) <= 5 && id_abbreviation(
            abbreviation_id(token),
        ) == token,
        !is_region_abbreviation(token) ==> abbreviation_id(token) == 99,
{
}

} // verus!
