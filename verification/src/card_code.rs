//! The compact card identifier `SSRRNNN[AA]`: two digits of set, a two-letter
//! region abbreviation, three digits of number and, on associated cards, a
//! suffix of two characters.

use crate::decimal::{
    digit_str, is_digit, lemma_digit_value, lemma_parse_number_bound, lemma_parse_three_digits,
    lemma_parse_two_digits, lemma_three_digits_of_parse, lemma_two_digits_of_parse, parse_number,
    parse_u32, three_digits, two_digits,
};
use crate::error::Error;
use crate::region::{lemma_region_id_round_trip, lemma_region_of_id, Region, RegionView};
use crate::region_code::{
    abbreviation_id, id_abbreviation, int_to_region, is_region_abbreviation,
    lemma_abbreviation_of_id, lemma_abbreviation_shape, lemma_id_of_abbreviation, region_to_int,
};
use vstd::prelude::*;
use vstd::string::*;

verus! {

/// A decoded card code.
///
/// The fields are kept within what the text form can hold: a set of at most
/// two digits, a number of at most three, and a suffix that is empty or two
/// characters long.
#[derive(Debug, Eq, PartialEq, Ord, PartialOrd)]
pub struct CardCode {
    set: u8,
    faction: Region,
    number: u32,
    assoc: String,
}

/// Mathematical value of a [`CardCode`].
pub struct CardCodeView {
    pub set: nat,
    pub faction: RegionView,
    pub number: nat,
    pub assoc: Seq<char>,
}

impl CardCodeView {
    /// Whether the value fits the text form.
    pub open spec fn wf(self) -> bool {
        &&& self.set <= 99
        &&& self.number <= 999
        &&& (self.assoc.len() == 0 || self.assoc.len() == 2)
    }
}

impl View for CardCode {
    type V = CardCodeView;

    closed spec fn view(&self) -> CardCodeView {
        CardCodeView {
            set: self.set as nat,
            faction: self.faction@,
            number: self.number as nat,
            assoc: self.assoc@,
        }
    }
}

/// What a text decodes to.
///
/// The set is read from the characters `0..2` and the number from `4..7`,
/// each as an unsigned decimal number; a text too short to hold them, or one
/// in which either is no number, is malformed. The characters `2..4` are
/// looked up in the region table, and a token outside the table gives the
/// stand-in for unknown regions instead of an error. The suffix is the
/// characters `7..9` of a text of nine characters and empty otherwise.
pub open spec fn parse_card_code(text: Seq<char>) -> Result<CardCodeView, Error> {
    if text.len() < 7 {
        Err(Error::MalformedCardCode)
    } else {
        match (parse_number(text.subrange(0, 2)), parse_number(text.subrange(4, 7))) {
            (Some(set), Some(number)) => Ok(
                CardCodeView {
                    set,
                    faction: RegionView::from_id(abbreviation_id(text.subrange(2, 4))),
                    number,
                    assoc: if text.len() == 9 {
                        text.subrange(7, 9)
                    } else {
                        Seq::empty()
                    },
                },
            ),
            _ => Err(Error::MalformedCardCode),
        }
    }
}

/// The text of a card code: the set with two digits, the abbreviation of the
/// region (`"UN"` for a region outside the table), the number with three
/// digits, then the suffix.
pub open spec fn format_card_code(code: CardCodeView) -> Seq<char>
    recommends
        code.wf(),
{
    two_digits(code.set) + id_abbreviation(code.faction.id()) + three_digits(code.number)
        + code.assoc
}

/// The texts that formatting produces: seven or nine characters, of which
/// those of the set and of the number are digits.
pub open spec fn is_canonical(text: Seq<char>) -> bool {
    &&& (text.len() == 7 || text.len() == 9)
    &&& is_digit(text[0])
    &&& is_digit(text[1])
    &&& is_digit(text[4])
    &&& is_digit(text[5])
    &&& is_digit(text[6])
}

impl CardCode {
    #[verifier::type_invariant]
    spec fn well_formed(self) -> bool {
        &&& self.set <= 99
        &&& self.number <= 999
        &&& (self.assoc@.len() == 0 || self.assoc@.len() == 2)
    }

    /// Makes a card code of its parts, if they fit the text form.
    pub fn new(set: u8, faction: Region, number: u32, assoc: String) -> (code: Option<CardCode>)
        ensures
            code is Some <==> (CardCodeView {
                set: set as nat,
                faction: faction@,
                number: number as nat,
                assoc: assoc@,
            }).wf(),
            code matches Some(c) ==> c@ == (CardCodeView {
                set: set as nat,
                faction: faction@,
                number: number as nat,
                assoc: assoc@,
            }),
    {
        let suffix_len = assoc.as_str().unicode_len();
        if set <= 99 && number <= 999 && (suffix_len == 0 || suffix_len == 2) {
            Some(CardCode { set, faction, number, assoc })
        } else {
            None
        }
    }

    /// Decodes a card code.
    ///
    /// Fails exactly when the set or the number segment is missing or is no
    /// decimal number; the region segment never makes it fail.
    pub fn from_str(code: &str) -> (parsed: Result<CardCode, Error>)
        ensures
            parsed is Ok <==> parse_card_code(code@) is Ok,
            parsed matches Ok(c) ==> parse_card_code(code@) == Ok::<CardCodeView, Error>(c@)
                && c@.wf(),
            parsed matches Err(e) ==> parse_card_code(code@) == Err::<CardCodeView, Error>(e),
            parsed matches Ok(c) ==> (!is_region_abbreviation(code@.subrange(2, 4)) ==> c@.faction
                == RegionView::unimplemented()),
    {
        let len = code.unicode_len();
        if len < 7 {
            return Err(Error::MalformedCardCode);
        }
        proof {
            if parse_number(code@.subrange(0, 2)) is Some {
                lemma_parse_number_bound(code@.subrange(0, 2));
            }
            if parse_number(code@.subrange(4, 7)) is Some {
                lemma_parse_number_bound(code@.subrange(4, 7));
            }
        }
        let set = match parse_u32(code.substring_char(0, 2)) {
            Some(set) => set,
            None => {
                return Err(Error::MalformedCardCode);
            },
        };
        let number = match parse_u32(code.substring_char(4, 7)) {
            Some(number) => number,
            None => {
                return Err(Error::MalformedCardCode);
            },
        };
        let id = region_to_int(code.substring_char(2, 4));
        let faction = Region::from_value(id);
        let assoc = if len == 9 {
            code.substring_char(7, 9).to_owned()
        } else {
            String::new()
        };
        proof {
            lemma_abbreviation_of_id(code@.subrange(2, 4));
        }
        Ok(CardCode { set: set as u8, faction, number, assoc })
    }

    /// Encodes the card code.
    pub fn to_code(&self) -> (code: String)
        ensures
            code@ == format_card_code(self@),
            code@.len() == 7 + self@.assoc.len(),
    {
        proof {
            use_type_invariant(self);
        }
        let set: u32 = self.set as u32;
        let number: u32 = self.number;
        let mut code = String::new();
        code.append(digit_str(set / 10));
        code.append(digit_str(set % 10));
        code.append(int_to_region(self.faction.value()));
        code.append(digit_str(number / 100));
        code.append(digit_str((number / 10) % 10));
        code.append(digit_str(number % 10));
        code.append(self.assoc.as_str());
        assert(code@ =~= format_card_code(self@));
        code
    }

    /// The set that the card belongs to.
    pub fn set(&self) -> (set: u8)
        ensures
            set == self@.set,
            set <= 99,
    {
        proof {
            use_type_invariant(self);
        }
        self.set
    }

    /// The region of the card.
    pub fn faction(&self) -> (faction: &Region)
        ensures
            faction@ == self@.faction,
    {
        &self.faction
    }

    /// The number of the card within its set.
    pub fn number(&self) -> (number: u32)
        ensures
            number == self@.number,
            number <= 999,
    {
        proof {
            use_type_invariant(self);
        }
        self.number
    }

    /// The suffix of an associated card; empty on any other card.
    pub fn assoc(&self) -> (assoc: &str)
        ensures
            assoc@ == self@.assoc,
            assoc@.len() == 0 || assoc@.len() == 2,
    {
        proof {
            use_type_invariant(self);
        }
        self.assoc.as_str()
    }
}

/// Decoding undoes encoding: a card code that fits the text form and whose
/// region is in the table is found again from its text.
pub proof fn lemma_parse_of_format(code: CardCodeView)
    requires
        code.wf(),
        code.faction.in_code_table(),
    ensures
        parse_card_code(format_card_code(code)) == Ok::<CardCodeView, Error>(code),
{
    let text = format_card_code(code);
    let id = code.faction.id();
    lemma_region_of_id(code.faction);
    lemma_abbreviation_shape(id);
    lemma_id_of_abbreviation(id);
    lemma_parse_two_digits(code.set);
    lemma_parse_three_digits(code.number);
    assert(text.len() == 7 + code.assoc.len());
    assert(text.subrange(0, 2) =~= two_digits(code.set));
    assert(text.subrange(2, 4) =~= id_abbreviation(id));
    assert(text.subrange(4, 7) =~= three_digits(code.number));
    if code.assoc.len() == 2 {
        assert(text.subrange(7, 9) =~= code.assoc);
    } else {
        assert(code.assoc =~= Seq::<char>::empty());
    }
}

/// Encoding undoes decoding: a canonical text whose region token is in the
/// table decodes, and the result is encoded as the same text.
pub proof fn lemma_format_of_parse(text: Seq<char>)
    requires
        is_canonical(text),
        is_region_abbreviation(text.subrange(2, 4)),
    ensures
        parse_card_code(text) matches Ok(code) && code.wf() && code.faction.in_code_table()
            && format_card_code(code) == text,
{
    let token = text.subrange(2, 4);
    lemma_two_digits_of_parse(text[0], text[1]);
    lemma_three_digits_of_parse(text[4], text[5], text[6]);
    assert(text.subrange(0, 2) =~= seq![text[0], text[1]]);
    assert(text.subrange(4, 7) =~= seq![text[4], text[5], text[6]]);
    lemma_abbreviation_of_id(token);
    lemma_region_id_round_trip(abbreviation_id(token));
    lemma_digit_value(text[0]);
    lemma_digit_value(text[1]);
    lemma_digit_value(text[4]);
    lemma_digit_value(text[5]);
    lemma_digit_value(text[6]);
    let code = parse_card_code(text)->Ok_0;
    assert(id_abbreviation(code.faction.id()) == token);
    assert(format_card_code(code) =~= text);
}

/// A region token outside the table never makes decoding fail: where the set
/// and the number are numbers, the text decodes, and its region is the
/// stand-in for unknown regions.
pub proof fn lemma_unknown_region_token(text: Seq<char>)
    requires
        text.len() >= 7,
        parse_number(text.subrange(0, 2)) is Some,
        parse_number(text.subrange(4, 7)) is Some,
        !is_region_abbreviation(text.subrange(2, 4)),
    ensures
        parse_card_code(text) matches Ok(code) && code.faction == RegionView::unimplemented(),
{
    lemma_abbreviation_of_id(text.subrange(2, 4));
}

} // verus!
