//! Ready-made decks.

use vstd::prelude::*;
use vstd::string::StringExecFns;

use super::{deck_list, Deck};
use crate::card::CardDefId;

verus! {

/// The card list of the Miraidon deck: identifier and count of each entry.
pub open spec fn miraidon_list() -> Seq<(Seq<char>, u8)> {
    seq![
        ("CSV1C"@ + seq!['_'] + "050"@, 2u8),
        ("CSV6C"@ + seq!['_'] + "051"@, 2u8),
        ("CS4DaC"@ + seq!['_'] + "137"@, 1u8),
        ("CSV2C"@ + seq!['_'] + "105"@, 1u8),
        ("CSV8C"@ + seq!['_'] + "172"@, 1u8),
        ("151C"@ + seq!['_'] + "151"@, 1u8),
        ("CS6aC"@ + seq!['_'] + "057"@, 1u8),
        ("CS6.5C"@ + seq!['_'] + "020"@, 1u8),
        ("CS5aC"@ + seq!['_'] + "019"@, 1u8),
        ("CS5bC"@ + seq!['_'] + "052"@, 1u8),
        ("CSV6C"@ + seq!['_'] + "023"@, 1u8),
        ("CS5bC"@ + seq!['_'] + "049"@, 1u8),
        ("CSV8C"@ + seq!['_'] + "135"@, 1u8),
        ("CSV1C"@ + seq!['_'] + "107"@, 4u8),
        ("CSV1C"@ + seq!['_'] + "123"@, 3u8),
        ("CSV3C"@ + seq!['_'] + "123"@, 1u8),
        ("CSVH1aC"@ + seq!['_'] + "023"@, 2u8),
        ("CSV6C"@ + seq!['_'] + "125"@, 1u8),
        ("CSV1C"@ + seq!['_'] + "112"@, 4u8),
        ("CSV1C"@ + seq!['_'] + "043"@, 3u8),
        ("CSV7C"@ + seq!['_'] + "177"@, 4u8),
        ("CSV6C"@ + seq!['_'] + "060"@, 2u8),
        ("CSV6C"@ + seq!['_'] + "114"@, 1u8),
        ("CSV1C"@ + seq!['_'] + "109"@, 1u8),
        ("CS5.5C"@ + seq!['_'] + "060"@, 1u8),
        ("CSV8C"@ + seq!['_'] + "183"@, 1u8),
        ("CS5DC"@ + seq!['_'] + "116"@, 1u8),
        ("CSV7C"@ + seq!['_'] + "066"@, 1u8),
        ("CSV1C"@ + seq!['_'] + "118"@, 1u8),
        ("CSV7C"@ + seq!['_'] + "185"@, 1u8),
        ("CSVE1C"@ + seq!['_'] + "LIG"@, 13u8),
    ]
}

/// The "Miraidon" deck.
pub fn miraidon_deck() -> (r: Deck)
    ensures
        r.name@ == "Miraidon"@,
        r.deck_id == 575720,
        r.cards@.len() == 31,
        r.total_cards == 60,
        r.wf(),
        deck_list(r.cards@) == miraidon_list(),
{
    let mut deck = Deck::new(String::from_str("Miraidon"), 575720);
    deck.add_card(CardDefId::new("CSV1C", "050"), 2);
    deck.add_card(CardDefId::new("CSV6C", "051"), 2);
    deck.add_card(CardDefId::new("CS4DaC", "137"), 1);
    deck.add_card(CardDefId::new("CSV2C", "105"), 1);
    deck.add_card(CardDefId::new("CSV8C", "172"), 1);
    deck.add_card(CardDefId::new("151C", "151"), 1);
    deck.add_card(CardDefId::new("CS6aC", "057"), 1);
    deck.add_card(CardDefId::new("CS6.5C", "020"), 1);
    deck.add_card(CardDefId::new("CS5aC", "019"), 1);
    deck.add_card(CardDefId::new("CS5bC", "052"), 1);
    deck.add_card(CardDefId::new("CSV6C", "023"), 1);
    deck.add_card(CardDefId::new("CS5bC", "049"), 1);
    deck.add_card(CardDefId::new("CSV8C", "135"), 1);
    deck.add_card(CardDefId::new("CSV1C", "107"), 4);
    deck.add_card(CardDefId::new("CSV1C", "123"), 3);
    deck.add_card(CardDefId::new("CSV3C", "123"), 1);
    deck.add_card(CardDefId::new("CSVH1aC", "023"), 2);
    deck.add_card(CardDefId::new("CSV6C", "125"), 1);
    deck.add_card(CardDefId::new("CSV1C", "112"), 4);
    deck.add_card(CardDefId::new("CSV1C", "043"), 3);
    deck.add_card(CardDefId::new("CSV7C", "177"), 4);
    deck.add_card(CardDefId::new("CSV6C", "060"), 2);
    deck.add_card(CardDefId::new("CSV6C", "114"), 1);
    deck.add_card(CardDefId::new("CSV1C", "109"), 1);
    deck.add_card(CardDefId::new("CS5.5C", "060"), 1);
    deck.add_card(CardDefId::new("CSV8C", "183"), 1);
    deck.add_card(CardDefId::new("CS5DC", "116"), 1);
    deck.add_card(CardDefId::new("CSV7C", "066"), 1);
    deck.add_card(CardDefId::new("CSV1C", "118"), 1);
    deck.add_card(CardDefId::new("CSV7C", "185"), 1);
    deck.add_card(CardDefId::new("CSVE1C", "LIG"), 13);
    proof {
        assert(deck_list(deck.cards@) =~= seq![
            ("CSV1C"@ + seq!['_'] + "050"@, 2u8),
            ("CSV6C"@ + seq!['_'] + "051"@, 2u8),
            ("CS4DaC"@ + seq!['_'] + "137"@, 1u8),
            ("CSV2C"@ + seq!['_'] + "105"@, 1u8),
            ("CSV8C"@ + seq!['_'] + "172"@, 1u8),
            ("151C"@ + seq!['_'] + "151"@, 1u8),
            ("CS6aC"@ + seq!['_'] + "057"@, 1u8),
            ("CS6.5C"@ + seq!['_'] + "020"@, 1u8),
            ("CS5aC"@ + seq!['_'] + "019"@, 1u8),
            ("CS5bC"@ + seq!['_'] + "052"@, 1u8),
            ("CSV6C"@ + seq!['_'] + "023"@, 1u8),
            ("CS5bC"@ + seq!['_'] + "049"@, 1u8),
            ("CSV8C"@ + seq!['_'] + "135"@, 1u8),
            ("CSV1C"@ + seq!['_'] + "107"@, 4u8),
            ("CSV1C"@ + seq!['_'] + "123"@, 3u8),
            ("CSV3C"@ + seq!['_'] + "123"@, 1u8),
            ("CSVH1aC"@ + seq!['_'] + "023"@, 2u8),
            ("CSV6C"@ + seq!['_'] + "125"@, 1u8),
            ("CSV1C"@ + seq!['_'] + "112"@, 4u8),
            ("CSV1C"@ + seq!['_'] + "043"@, 3u8),
            ("CSV7C"@ + seq!['_'] + "177"@, 4u8),
            ("CSV6C"@ + seq!['_'] + "060"@, 2u8),
            ("CSV6C"@ + seq!['_'] + "114"@, 1u8),
            ("CSV1C"@ + seq!['_'] + "109"@, 1u8),
            ("CS5.5C"@ + seq!['_'] + "060"@, 1u8),
            ("CSV8C"@ + seq!['_'] + "183"@, 1u8),
            ("CS5DC"@ + seq!['_'] + "116"@, 1u8),
            ("CSV7C"@ + seq!['_'] + "066"@, 1u8),
            ("CSV1C"@ + seq!['_'] + "118"@, 1u8),
            ("CSV7C"@ + seq!['_'] + "185"@, 1u8),
            ("CSVE1C"@ + seq!['_'] + "LIG"@, 13u8),
        ]);
    }
    deck
}

/// The card list of the Charizard Pidgeot deck: identifier and count of each entry.
pub open spec fn charizard_pidgeot_list() -> Seq<(Seq<char>, u8)> {
    seq![
        ("CSV5C"@ + seq!['_'] + "075"@, 2u8),
        ("CSV4C"@ + seq!['_'] + "101"@, 2u8),
        ("151C"@ + seq!['_'] + "004"@, 3u8),
        ("CSV5C"@ + seq!['_'] + "015"@, 1u8),
        ("CSV4C"@ + seq!['_'] + "099"@, 2u8),
        ("CS5.5C"@ + seq!['_'] + "032"@, 2u8),
        ("CSV8C"@ + seq!['_'] + "082"@, 1u8),
        ("CSV8C"@ + seq!['_'] + "083"@, 1u8),
        ("CS5bC"@ + seq!['_'] + "049"@, 1u8),
        ("CS5bC"@ + seq!['_'] + "052"@, 1u8),
        ("CS5.5C"@ + seq!['_'] + "007"@, 1u8),
        ("CSV6C"@ + seq!['_'] + "023"@, 1u8),
        ("CSV1C"@ + seq!['_'] + "123"@, 4u8),
        ("CSV3C"@ + seq!['_'] + "123"@, 2u8),
        ("CSVH1aC"@ + seq!['_'] + "023"@, 2u8),
        ("CSV6C"@ + seq!['_'] + "125"@, 1u8),
        ("CS6aC"@ + seq!['_'] + "127"@, 1u8),
        ("CSV1C"@ + seq!['_'] + "112"@, 4u8),
        ("CSV1C"@ + seq!['_'] + "043"@, 3u8),
        ("CSV7C"@ + seq!['_'] + "177"@, 4u8),
        ("CSVH1C"@ + seq!['_'] + "045"@, 4u8),
        ("CSV1C"@ + seq!['_'] + "109"@, 2u8),
        ("CSV8C"@ + seq!['_'] + "183"@, 1u8),
        ("CSV6bC"@ + seq!['_'] + "123"@, 1u8),
        ("CSV8C"@ + seq!['_'] + "173"@, 1u8),
        ("CSV6C"@ + seq!['_'] + "114"@, 2u8),
        ("CSV7C"@ + seq!['_'] + "066"@, 1u8),
        ("CSV1C"@ + seq!['_'] + "117"@, 1u8),
        ("CS6.5C"@ + seq!['_'] + "020"@, 1u8),
        ("CS6.5C"@ + seq!['_'] + "071"@, 1u8),
        ("CSVE1C"@ + seq!['_'] + "FIR"@, 5u8),
        ("CSNC"@ + seq!['_'] + "024"@, 1u8),
    ]
}

/// The "Charizard Pidgeot" deck.
pub fn charizard_pidgeot_deck() -> (r: Deck)
    ensures
        r.name@ == "Charizard Pidgeot"@,
        r.deck_id == 575716,
        r.cards@.len() == 32,
        r.total_cards == 60,
        r.wf(),
        deck_list(r.cards@) == charizard_pidgeot_list(),
{
    let mut deck = Deck::new(String::from_str("Charizard Pidgeot"), 575716);
    deck.add_card(CardDefId::new("CSV5C", "075"), 2);
    deck.add_card(CardDefId::new("CSV4C", "101"), 2);
    deck.add_card(CardDefId::new("151C", "004"), 3);
    deck.add_card(CardDefId::new("CSV5C", "015"), 1);
    deck.add_card(CardDefId::new("CSV4C", "099"), 2);
    deck.add_card(CardDefId::new("CS5.5C", "032"), 2);
    deck.add_card(CardDefId::new("CSV8C", "082"), 1);
    deck.add_card(CardDefId::new("CSV8C", "083"), 1);
    deck.add_card(CardDefId::new("CS5bC", "049"), 1);
    deck.add_card(CardDefId::new("CS5bC", "052"), 1);
    deck.add_card(CardDefId::new("CS5.5C", "007"), 1);
    deck.add_card(CardDefId::new("CSV6C", "023"), 1);
    deck.add_card(CardDefId::new("CSV1C", "123"), 4);
    deck.add_card(CardDefId::new("CSV3C", "123"), 2);
    deck.add_card(CardDefId::new("CSVH1aC", "023"), 2);
    deck.add_card(CardDefId::new("CSV6C", "125"), 1);
    deck.add_card(CardDefId::new("CS6aC", "127"), 1);
    deck.add_card(CardDefId::new("CSV1C", "112"), 4);
    deck.add_card(CardDefId::new("CSV1C", "043"), 3);
    deck.add_card(CardDefId::new("CSV7C", "177"), 4);
    deck.add_card(CardDefId::new("CSVH1C", "045"), 4);
    deck.add_card(CardDefId::new("CSV1C", "109"), 2);
    deck.add_card(CardDefId::new("CSV8C", "183"), 1);
    deck.add_card(CardDefId::new("CSV6bC", "123"), 1);
    deck.add_card(CardDefId::new("CSV8C", "173"), 1);
    deck.add_card(CardDefId::new("CSV6C", "114"), 2);
    deck.add_card(CardDefId::new("CSV7C", "066"), 1);
    deck.add_card(CardDefId::new("CSV1C", "117"), 1);
    deck.add_card(CardDefId::new("CS6.5C", "020"), 1);
    deck.add_card(CardDefId::new("CS6.5C", "071"), 1);
    deck.add_card(CardDefId::new("CSVE1C", "FIR"), 5);
    deck.add_card(CardDefId::new("CSNC", "024"), 1);
    proof {
        assert(deck_list(deck.cards@) =~= seq![
            ("CSV5C"@ + seq!['_'] + "075"@, 2u8),
            ("CSV4C"@ + seq!['_'] + "101"@, 2u8),
            ("151C"@ + seq!['_'] + "004"@, 3u8),
            ("CSV5C"@ + seq!['_'] + "015"@, 1u8),
            ("CSV4C"@ + seq!['_'] + "099"@, 2u8),
            ("CS5.5C"@ + seq!['_'] + "032"@, 2u8),
            ("CSV8C"@ + seq!['_'] + "082"@, 1u8),
            ("CSV8C"@ + seq!['_'] + "083"@, 1u8),
            ("CS5bC"@ + seq!['_'] + "049"@, 1u8),
            ("CS5bC"@ + seq!['_'] + "052"@, 1u8),
            ("CS5.5C"@ + seq!['_'] + "007"@, 1u8),
            ("CSV6C"@ + seq!['_'] + "023"@, 1u8),
            ("CSV1C"@ + seq!['_'] + "123"@, 4u8),
            ("CSV3C"@ + seq!['_'] + "123"@, 2u8),
            ("CSVH1aC"@ + seq!['_'] + "023"@, 2u8),
            ("CSV6C"@ + seq!['_'] + "125"@, 1u8),
            ("CS6aC"@ + seq!['_'] + "127"@, 1u8),
            ("CSV1C"@ + seq!['_'] + "112"@, 4u8),
            ("CSV1C"@ + seq!['_'] + "043"@, 3u8),
            ("CSV7C"@ + seq!['_'] + "177"@, 4u8),
            ("CSVH1C"@ + seq!['_'] + "045"@, 4u8),
            ("CSV1C"@ + seq!['_'] + "109"@, 2u8),
            ("CSV8C"@ + seq!['_'] + "183"@, 1u8),
            ("CSV6bC"@ + seq!['_'] + "123"@, 1u8),
            ("CSV8C"@ + seq!['_'] + "173"@, 1u8),
            ("CSV6C"@ + seq!['_'] + "114"@, 2u8),
            ("CSV7C"@ + seq!['_'] + "066"@, 1u8),
            ("CSV1C"@ + seq!['_'] + "117"@, 1u8),
            ("CS6.5C"@ + seq!['_'] + "020"@, 1u8),
            ("CS6.5C"@ + seq!['_'] + "071"@, 1u8),
            ("CSVE1C"@ + seq!['_'] + "FIR"@, 5u8),
            ("CSNC"@ + seq!['_'] + "024"@, 1u8),
        ]);
    }
    deck
}

/// The "gouging_fire" deck.
pub fn gouging_fire_deck() -> (r: Deck)
    ensures
        r.name@ == "gouging_fire"@,
        r.deck_id == 0,
        r.cards@.len() == 31,
        r.total_cards == 60,
        r.wf(),
        deck_list(r.cards@) == seq![
            ("CS5aC"@ + seq!['_'] + "006"@, 1u8),
            ("CS6.5C"@ + seq!['_'] + "020"@, 1u8),
            ("CSV7C"@ + seq!['_'] + "109"@, 1u8),
            ("CS5DC"@ + seq!['_'] + "126"@, 1u8),
            ("CSV4C"@ + seq!['_'] + "129"@, 2u8),
            ("CSVH1C"@ + seq!['_'] + "043"@, 4u8),
            ("CSV2C"@ + seq!['_'] + "105"@, 1u8),
            ("CS6.5C"@ + seq!['_'] + "012"@, 1u8),
            ("CSVE1C"@ + seq!['_'] + "FIR"@, 6u8),
            ("CSVH1aC"@ + seq!['_'] + "008"@, 3u8),
            ("CSV7C"@ + seq!['_'] + "051"@, 2u8),
            ("CS5.5C"@ + seq!['_'] + "060"@, 1u8),
            ("CS4DaC"@ + seq!['_'] + "056"@, 1u8),
            ("CSV8C"@ + seq!['_'] + "183"@, 2u8),
            ("CSVE1C"@ + seq!['_'] + "DAR"@, 3u8),
            ("151C"@ + seq!['_'] + "151"@, 1u8),
            ("CSV6C"@ + seq!['_'] + "121"@, 4u8),
            ("CSV8C"@ + seq!['_'] + "094"@, 1u8),
            ("CS5DC"@ + seq!['_'] + "116"@, 3u8),
            ("CSVH1aC"@ + seq!['_'] + "023"@, 2u8),
            ("CSV6C"@ + seq!['_'] + "096"@, 1u8),
            ("CS6.5C"@ + seq!['_'] + "066"@, 1u8),
            ("CSV1C"@ + seq!['_'] + "112"@, 3u8),
            ("CSV1C"@ + seq!['_'] + "111"@, 1u8),
            ("CSV8C"@ + seq!['_'] + "135"@, 1u8),
            ("CSV1C"@ + seq!['_'] + "121"@, 1u8),
            ("CSV3C"@ + seq!['_'] + "123"@, 1u8),
            ("CSV1C"@ + seq!['_'] + "118"@, 2u8),
            ("CS5DC"@ + seq!['_'] + "152"@, 4u8),
            ("CSV6C"@ + seq!['_'] + "115"@, 3u8),
            ("CSV8C"@ + seq!['_'] + "176"@, 1u8),
        ],
{
    let mut deck = Deck::new(String::from_str("gouging_fire"), 0);
    deck.add_card(CardDefId::new("CS5aC", "006"), 1);
    deck.add_card(CardDefId::new("CS6.5C", "020"), 1);
    deck.add_card(CardDefId::new("CSV7C", "109"), 1);
    deck.add_card(CardDefId::new("CS5DC", "126"), 1);
    deck.add_card(CardDefId::new("CSV4C", "129"), 2);
    deck.add_card(CardDefId::new("CSVH1C", "043"), 4);
    deck.add_card(CardDefId::new("CSV2C", "105"), 1);
    deck.add_card(CardDefId::new("CS6.5C", "012"), 1);
    deck.add_card(CardDefId::new("CSVE1C", "FIR"), 6);
    deck.add_card(CardDefId::new("CSVH1aC", "008"), 3);
    deck.add_card(CardDefId::new("CSV7C", "051"), 2);
    deck.add_card(CardDefId::new("CS5.5C", "060"), 1);
    deck.add_card(CardDefId::new("CS4DaC", "056"), 1);
    deck.add_card(CardDefId::new("CSV8C", "183"), 2);
    deck.add_card(CardDefId::new("CSVE1C", "DAR"), 3);
    deck.add_card(CardDefId::new("151C", "151"), 1);
    deck.add_card(CardDefId::new("CSV6C", "121"), 4);
    deck.add_card(CardDefId::new("CSV8C", "094"), 1);
    deck.add_card(CardDefId::new("CS5DC", "116"), 3);
    deck.add_card(CardDefId::new("CSVH1aC", "023"), 2);
    deck.add_card(CardDefId::new("CSV6C", "096"), 1);
    deck.add_card(CardDefId::new("CS6.5C", "066"), 1);
    deck.add_card(CardDefId::new("CSV1C", "112"), 3);
    deck.add_card(CardDefId::new("CSV1C", "111"), 1);
    deck.add_card(CardDefId::new("CSV8C", "135"), 1);
    deck.add_card(CardDefId::new("CSV1C", "121"), 1);
    deck.add_card(CardDefId::new("CSV3C", "123"), 1);
    deck.add_card(CardDefId::new("CSV1C", "118"), 2);
    deck.add_card(CardDefId::new("CS5DC", "152"), 4);
    deck.add_card(CardDefId::new("CSV6C", "115"), 3);
    deck.add_card(CardDefId::new("CSV8C", "176"), 1);
    proof {
        assert(deck_list(deck.cards@) =~= seq![
            ("CS5aC"@ + seq!['_'] + "006"@, 1u8),
            ("CS6.5C"@ + seq!['_'] + "020"@, 1u8),
            ("CSV7C"@ + seq!['_'] + "109"@, 1u8),
            ("CS5DC"@ + seq!['_'] + "126"@, 1u8),
            ("CSV4C"@ + seq!['_'] + "129"@, 2u8),
            ("CSVH1C"@ + seq!['_'] + "043"@, 4u8),
            ("CSV2C"@ + seq!['_'] + "105"@, 1u8),
            ("CS6.5C"@ + seq!['_'] + "012"@, 1u8),
            ("CSVE1C"@ + seq!['_'] + "FIR"@, 6u8),
            ("CSVH1aC"@ + seq!['_'] + "008"@, 3u8),
            ("CSV7C"@ + seq!['_'] + "051"@, 2u8),
            ("CS5.5C"@ + seq!['_'] + "060"@, 1u8),
            ("CS4DaC"@ + seq!['_'] + "056"@, 1u8),
            ("CSV8C"@ + seq!['_'] + "183"@, 2u8),
            ("CSVE1C"@ + seq!['_'] + "DAR"@, 3u8),
            ("151C"@ + seq!['_'] + "151"@, 1u8),
            ("CSV6C"@ + seq!['_'] + "121"@, 4u8),
            ("CSV8C"@ + seq!['_'] + "094"@, 1u8),
            ("CS5DC"@ + seq!['_'] + "116"@, 3u8),
            ("CSVH1aC"@ + seq!['_'] + "023"@, 2u8),
            ("CSV6C"@ + seq!['_'] + "096"@, 1u8),
            ("CS6.5C"@ + seq!['_'] + "066"@, 1u8),
            ("CSV1C"@ + seq!['_'] + "112"@, 3u8),
            ("CSV1C"@ + seq!['_'] + "111"@, 1u8),
            ("CSV8C"@ + seq!['_'] + "135"@, 1u8),
            ("CSV1C"@ + seq!['_'] + "121"@, 1u8),
            ("CSV3C"@ + seq!['_'] + "123"@, 1u8),
            ("CSV1C"@ + seq!['_'] + "118"@, 2u8),
            ("CS5DC"@ + seq!['_'] + "152"@, 4u8),
            ("CSV6C"@ + seq!['_'] + "115"@, 3u8),
            ("CSV8C"@ + seq!['_'] + "176"@, 1u8),
        ]);
    }
    deck
}

/// The "future_box" deck.
pub fn future_box_deck() -> (r: Deck)
    ensures
        r.name@ == "future_box"@,
        r.deck_id == 0,
        r.cards@.len() == 22,
        r.total_cards == 60,
        r.wf(),
        deck_list(r.cards@) == seq![
            ("CSV6C"@ + seq!['_'] + "114"@, 1u8),
            ("CSVH1C"@ + seq!['_'] + "043"@, 1u8),
            ("CSV1C"@ + seq!['_'] + "107"@, 4u8),
            ("CSV7C"@ + seq!['_'] + "033"@, 1u8),
            ("CSVE1C"@ + seq!['_'] + "LIG"@, 13u8),
            ("CSV6C"@ + seq!['_'] + "042"@, 1u8),
            ("151C"@ + seq!['_'] + "151"@, 1u8),
            ("CSV7C"@ + seq!['_'] + "180"@, 1u8),
            ("CSV6C"@ + seq!['_'] + "119"@, 4u8),
            ("CSV1C"@ + seq!['_'] + "123"@, 4u8),
            ("CSVE1C"@ + seq!['_'] + "GRA"@, 3u8),
            ("CSV2C"@ + seq!['_'] + "113"@, 1u8),
            ("CSV7C"@ + seq!['_'] + "188"@, 2u8),
            ("CSV6C"@ + seq!['_'] + "116"@, 4u8),
            ("CSVH1aC"@ + seq!['_'] + "023"@, 2u8),
            ("CS6bC"@ + seq!['_'] + "123"@, 1u8),
            ("CSV7C"@ + seq!['_'] + "111"@, 4u8),
            ("CSV1C"@ + seq!['_'] + "121"@, 3u8),
            ("CSV3C"@ + seq!['_'] + "123"@, 3u8),
            ("CSV1C"@ + seq!['_'] + "109"@, 1u8),
            ("CSV7C"@ + seq!['_'] + "153"@, 2u8),
            ("CSV6C"@ + seq!['_'] + "051"@, 3u8),
        ],
{
    let mut deck = Deck::new(String::from_str("future_box"), 0);
    deck.add_card(CardDefId::new("CSV6C", "114"), 1);
    deck.add_card(CardDefId::new("CSVH1C", "043"), 1);
    deck.add_card(CardDefId::new("CSV1C", "107"), 4);
    deck.add_card(CardDefId::new("CSV7C", "033"), 1);
    deck.add_card(CardDefId::new("CSVE1C", "LIG"), 13);
    deck.add_card(CardDefId::new("CSV6C", "042"), 1);
    deck.add_card(CardDefId::new("151C", "151"), 1);
    deck.add_card(CardDefId::new("CSV7C", "180"), 1);
    deck.add_card(CardDefId::new("CSV6C", "119"), 4);
    deck.add_card(CardDefId::new("CSV1C", "123"), 4);
    deck.add_card(CardDefId::new("CSVE1C", "GRA"), 3);
    deck.add_card(CardDefId::new("CSV2C", "113"), 1);
    deck.add_card(CardDefId::new("CSV7C", "188"), 2);
    deck.add_card(CardDefId::new("CSV6C", "116"), 4);
    deck.add_card(CardDefId::new("CSVH1aC", "023"), 2);
    deck.add_card(CardDefId::new("CS6bC", "123"), 1);
    deck.add_card(CardDefId::new("CSV7C", "111"), 4);
    deck.add_card(CardDefId::new("CSV1C", "121"), 3);
    deck.add_card(CardDefId::new("CSV3C", "123"), 3);
    deck.add_card(CardDefId::new("CSV1C", "109"), 1);
    deck.add_card(CardDefId::new("CSV7C", "153"), 2);
    deck.add_card(CardDefId::new("CSV6C", "051"), 3);
    proof {
        assert(deck_list(deck.cards@) =~= seq![
            ("CSV6C"@ + seq!['_'] + "114"@, 1u8),
            ("CSVH1C"@ + seq!['_'] + "043"@, 1u8),
            ("CSV1C"@ + seq!['_'] + "107"@, 4u8),
            ("CSV7C"@ + seq!['_'] + "033"@, 1u8),
            ("CSVE1C"@ + seq!['_'] + "LIG"@, 13u8),
            ("CSV6C"@ + seq!['_'] + "042"@, 1u8),
            ("151C"@ + seq!['_'] + "151"@, 1u8),
            ("CSV7C"@ + seq!['_'] + "180"@, 1u8),
            ("CSV6C"@ + seq!['_'] + "119"@, 4u8),
            ("CSV1C"@ + seq!['_'] + "123"@, 4u8),
            ("CSVE1C"@ + seq!['_'] + "GRA"@, 3u8),
            ("CSV2C"@ + seq!['_'] + "113"@, 1u8),
            ("CSV7C"@ + seq!['_'] + "188"@, 2u8),
            ("CSV6C"@ + seq!['_'] + "116"@, 4u8),
            ("CSVH1aC"@ + seq!['_'] + "023"@, 2u8),
            ("CS6bC"@ + seq!['_'] + "123"@, 1u8),
            ("CSV7C"@ + seq!['_'] + "111"@, 4u8),
            ("CSV1C"@ + seq!['_'] + "121"@, 3u8),
            ("CSV3C"@ + seq!['_'] + "123"@, 3u8),
            ("CSV1C"@ + seq!['_'] + "109"@, 1u8),
            ("CSV7C"@ + seq!['_'] + "153"@, 2u8),
            ("CSV6C"@ + seq!['_'] + "051"@, 3u8),
        ]);
    }
    deck
}

/// The "iron_thorns" deck.
pub fn iron_thorns_deck() -> (r: Deck)
    ensures
        r.name@ == "iron_thorns"@,
        r.deck_id == 0,
        r.cards@.len() == 24,
        r.total_cards == 60,
        r.wf(),
        deck_list(r.cards@) == seq![
            ("CSVH1C"@ + seq!['_'] + "051"@, 3u8),
            ("CSV4C"@ + seq!['_'] + "119"@, 1u8),
            ("CSVH1C"@ + seq!['_'] + "047"@, 2u8),
            ("CSVE1C"@ + seq!['_'] + "LIG"@, 7u8),
            ("CSV7C"@ + seq!['_'] + "180"@, 1u8),
            ("CS5DC"@ + seq!['_'] + "117"@, 1u8),
            ("CSV6C"@ + seq!['_'] + "119"@, 4u8),
            ("CSV1C"@ + seq!['_'] + "123"@, 4u8),
            ("151C"@ + seq!['_'] + "132"@, 1u8),
            ("CS5aC"@ + seq!['_'] + "113"@, 2u8),
            ("CSV2C"@ + seq!['_'] + "113"@, 4u8),
            ("CSV1C"@ + seq!['_'] + "108"@, 4u8),
            ("CS6bC"@ + seq!['_'] + "130"@, 3u8),
            ("CSV6C"@ + seq!['_'] + "116"@, 2u8),
            ("CSVH1aC"@ + seq!['_'] + "023"@, 3u8),
            ("CS6bC"@ + seq!['_'] + "123"@, 2u8),
            ("CSNC"@ + seq!['_'] + "024"@, 4u8),
            ("CSV1C"@ + seq!['_'] + "124"@, 1u8),
            ("CSV7C"@ + seq!['_'] + "197"@, 1u8),
            ("CSV1C"@ + seq!['_'] + "121"@, 2u8),
            ("CSV3C"@ + seq!['_'] + "123"@, 1u8),
            ("CSV7C"@ + seq!['_'] + "091"@, 4u8),
            ("CSV6C"@ + seq!['_'] + "115"@, 1u8),
            ("CSV8C"@ + seq!['_'] + "191"@, 2u8),
        ],
{
    let mut deck = Deck::new(String::from_str("iron_thorns"), 0);
    deck.add_card(CardDefId::new("CSVH1C", "051"), 3);
    deck.add_card(CardDefId::new("CSV4C", "119"), 1);
    deck.add_card(CardDefId::new("CSVH1C", "047"), 2);
    deck.add_card(CardDefId::new("CSVE1C", "LIG"), 7);
    deck.add_card(CardDefId::new("CSV7C", "180"), 1);
    deck.add_card(CardDefId::new("CS5DC", "117"), 1);
    deck.add_card(CardDefId::new("CSV6C", "119"), 4);
    deck.add_card(CardDefId::new("CSV1C", "123"), 4);
    deck.add_card(CardDefId::new("151C", "132"), 1);
    deck.add_card(CardDefId::new("CS5aC", "113"), 2);
    deck.add_card(CardDefId::new("CSV2C", "113"), 4);
    deck.add_card(CardDefId::new("CSV1C", "108"), 4);
    deck.add_card(CardDefId::new("CS6bC", "130"), 3);
    deck.add_card(CardDefId::new("CSV6C", "116"), 2);
    deck.add_card(CardDefId::new("CSVH1aC", "023"), 3);
    deck.add_card(CardDefId::new("CS6bC", "123"), 2);
    deck.add_card(CardDefId::new("CSNC", "024"), 4);
    deck.add_card(CardDefId::new("CSV1C", "124"), 1);
    deck.add_card(CardDefId::new("CSV7C", "197"), 1);
    deck.add_card(CardDefId::new("CSV1C", "121"), 2);
    deck.add_card(CardDefId::new("CSV3C", "123"), 1);
    deck.add_card(CardDefId::new("CSV7C", "091"), 4);
    deck.add_card(CardDefId::new("CSV6C", "115"), 1);
    deck.add_card(CardDefId::new("CSV8C", "191"), 2);
    proof {
        assert(deck_list(deck.cards@) =~= seq![
            ("CSVH1C"@ + seq!['_'] + "051"@, 3u8),
            ("CSV4C"@ + seq!['_'] + "119"@, 1u8),
            ("CSVH1C"@ + seq!['_'] + "047"@, 2u8),
            ("CSVE1C"@ + seq!['_'] + "LIG"@, 7u8),
            ("CSV7C"@ + seq!['_'] + "180"@, 1u8),
            ("CS5DC"@ + seq!['_'] + "117"@, 1u8),
            ("CSV6C"@ + seq!['_'] + "119"@, 4u8),
            ("CSV1C"@ + seq!['_'] + "123"@, 4u8),
            ("151C"@ + seq!['_'] + "132"@, 1u8),
            ("CS5aC"@ + seq!['_'] + "113"@, 2u8),
            ("CSV2C"@ + seq!['_'] + "113"@, 4u8),
            ("CSV1C"@ + seq!['_'] + "108"@, 4u8),
            ("CS6bC"@ + seq!['_'] + "130"@, 3u8),
            ("CSV6C"@ + seq!['_'] + "116"@, 2u8),
            ("CSVH1aC"@ + seq!['_'] + "023"@, 3u8),
            ("CS6bC"@ + seq!['_'] + "123"@, 2u8),
            ("CSNC"@ + seq!['_'] + "024"@, 4u8),
            ("CSV1C"@ + seq!['_'] + "124"@, 1u8),
            ("CSV7C"@ + seq!['_'] + "197"@, 1u8),
            ("CSV1C"@ + seq!['_'] + "121"@, 2u8),
            ("CSV3C"@ + seq!['_'] + "123"@, 1u8),
            ("CSV7C"@ + seq!['_'] + "091"@, 4u8),
            ("CSV6C"@ + seq!['_'] + "115"@, 1u8),
            ("CSV8C"@ + seq!['_'] + "191"@, 2u8),
        ]);
    }
    deck
}

/// The "dialga_metang" deck.
pub fn dialga_metang_deck() -> (r: Deck)
    ensures
        r.name@ == "dialga_metang"@,
        r.deck_id == 0,
        r.cards@.len() == 18,
        r.total_cards == 60,
        r.wf(),
        deck_list(r.cards@) == seq![
            ("CS6aC"@ + seq!['_'] + "083"@, 4u8),
            ("CS6.5C"@ + seq!['_'] + "020"@, 1u8),
            ("CSVH1C"@ + seq!['_'] + "043"@, 4u8),
            ("CSV7C"@ + seq!['_'] + "191"@, 1u8),
            ("CS6.5C"@ + seq!['_'] + "049"@, 1u8),
            ("CSVE1C"@ + seq!['_'] + "MET"@, 15u8),
            ("151C"@ + seq!['_'] + "151"@, 1u8),
            ("CSV7C"@ + seq!['_'] + "180"@, 1u8),
            ("CSNC"@ + seq!['_'] + "008"@, 3u8),
            ("CSV2C"@ + seq!['_'] + "113"@, 1u8),
            ("CSVH1aC"@ + seq!['_'] + "023"@, 3u8),
            ("CSV1C"@ + seq!['_'] + "112"@, 4u8),
            ("CSV1C"@ + seq!['_'] + "121"@, 4u8),
            ("CSV3C"@ + seq!['_'] + "123"@, 4u8),
            ("CSV1C"@ + seq!['_'] + "109"@, 4u8),
            ("CSV7C"@ + seq!['_'] + "147"@, 4u8),
            ("CS5bC"@ + seq!['_'] + "096"@, 3u8),
            ("CSV7C"@ + seq!['_'] + "177"@, 2u8),
        ],
{
    let mut deck = Deck::new(String::from_str("dialga_metang"), 0);
    deck.add_card(CardDefId::new("CS6aC", "083"), 4);
    deck.add_card(CardDefId::new("CS6.5C", "020"), 1);
    deck.add_card(CardDefId::new("CSVH1C", "043"), 4);
    deck.add_card(CardDefId::new("CSV7C", "191"), 1);
    deck.add_card(CardDefId::new("CS6.5C", "049"), 1);
    deck.add_card(CardDefId::new("CSVE1C", "MET"), 15);
    deck.add_card(CardDefId::new("151C", "151"), 1);
    deck.add_card(CardDefId::new("CSV7C", "180"), 1);
    deck.add_card(CardDefId::new("CSNC", "008"), 3);
    deck.add_card(CardDefId::new("CSV2C", "113"), 1);
    deck.add_card(CardDefId::new("CSVH1aC", "023"), 3);
    deck.add_card(CardDefId::new("CSV1C", "112"), 4);
    deck.add_card(CardDefId::new("CSV1C", "121"), 4);
    deck.add_card(CardDefId::new("CSV3C", "123"), 4);
    deck.add_card(CardDefId::new("CSV1C", "109"), 4);
    deck.add_card(CardDefId::new("CSV7C", "147"), 4);
    deck.add_card(CardDefId::new("CS5bC", "096"), 3);
    deck.add_card(CardDefId::new("CSV7C", "177"), 2);
    proof {
        assert(deck_list(deck.cards@) =~= seq![
            ("CS6aC"@ + seq!['_'] + "083"@, 4u8),
            ("CS6.5C"@ + seq!['_'] + "020"@, 1u8),
            ("CSVH1C"@ + seq!['_'] + "043"@, 4u8),
            ("CSV7C"@ + seq!['_'] + "191"@, 1u8),
            ("CS6.5C"@ + seq!['_'] + "049"@, 1u8),
            ("CSVE1C"@ + seq!['_'] + "MET"@, 15u8),
            ("151C"@ + seq!['_'] + "151"@, 1u8),
            ("CSV7C"@ + seq!['_'] + "180"@, 1u8),
            ("CSNC"@ + seq!['_'] + "008"@, 3u8),
            ("CSV2C"@ + seq!['_'] + "113"@, 1u8),
            ("CSVH1aC"@ + seq!['_'] + "023"@, 3u8),
            ("CSV1C"@ + seq!['_'] + "112"@, 4u8),
            ("CSV1C"@ + seq!['_'] + "121"@, 4u8),
            ("CSV3C"@ + seq!['_'] + "123"@, 4u8),
            ("CSV1C"@ + seq!['_'] + "109"@, 4u8),
            ("CSV7C"@ + seq!['_'] + "147"@, 4u8),
            ("CS5bC"@ + seq!['_'] + "096"@, 3u8),
            ("CSV7C"@ + seq!['_'] + "177"@, 2u8),
        ]);
    }
    deck
}

/// The "palkia_dusknoir" deck.
pub fn palkia_dusknoir_deck() -> (r: Deck)
    ensures
        r.name@ == "palkia_dusknoir"@,
        r.deck_id == 0,
        r.cards@.len() == 29,
        r.total_cards == 60,
        r.wf(),
        deck_list(r.cards@) == seq![
            ("CSV6C"@ + seq!['_'] + "114"@, 1u8),
            ("CS6.5C"@ + seq!['_'] + "020"@, 1u8),
            ("CSVE1C"@ + seq!['_'] + "WAT"@, 7u8),
            ("CSV2C"@ + seq!['_'] + "028"@, 1u8),
            ("CSVH1C"@ + seq!['_'] + "043"@, 4u8),
            ("CSV2C"@ + seq!['_'] + "105"@, 1u8),
            ("CSV8C"@ + seq!['_'] + "083"@, 2u8),
            ("CS5.5C"@ + seq!['_'] + "060"@, 1u8),
            ("CSV8C"@ + seq!['_'] + "183"@, 4u8),
            ("151C"@ + seq!['_'] + "151"@, 1u8),
            ("CSV7C"@ + seq!['_'] + "180"@, 1u8),
            ("CS5DC"@ + seq!['_'] + "138"@, 2u8),
            ("CSV7C"@ + seq!['_'] + "123"@, 1u8),
            ("CSNC"@ + seq!['_'] + "003"@, 2u8),
            ("CS6.5C"@ + seq!['_'] + "063"@, 3u8),
            ("CS5bC"@ + seq!['_'] + "051"@, 2u8),
            ("CSV1C"@ + seq!['_'] + "113"@, 1u8),
            ("CSV8C"@ + seq!['_'] + "199"@, 1u8),
            ("CSVH1C"@ + seq!['_'] + "034"@, 1u8),
            ("CS6bC"@ + seq!['_'] + "123"@, 1u8),
            ("CSV1C"@ + seq!['_'] + "112"@, 4u8),
            ("CSV8C"@ + seq!['_'] + "135"@, 1u8),
            ("CSV8C"@ + seq!['_'] + "082"@, 1u8),
            ("CSV3C"@ + seq!['_'] + "123"@, 4u8),
            ("CSV8C"@ + seq!['_'] + "081"@, 3u8),
            ("CSVH1C"@ + seq!['_'] + "045"@, 4u8),
            ("CSV6C"@ + seq!['_'] + "115"@, 3u8),
            ("CSV8C"@ + seq!['_'] + "172"@, 1u8),
            ("CSV7C"@ + seq!['_'] + "177"@, 1u8),
        ],
{
    let mut deck = Deck::new(String::from_str("palkia_dusknoir"), 0);
    deck.add_card(CardDefId::new("CSV6C", "114"), 1);
    deck.add_card(CardDefId::new("CS6.5C", "020"), 1);
    deck.add_card(CardDefId::new("CSVE1C", "WAT"), 7);
    deck.add_card(CardDefId::new("CSV2C", "028"), 1);
    deck.add_card(CardDefId::new("CSVH1C", "043"), 4);
    deck.add_card(CardDefId::new("CSV2C", "105"), 1);
    deck.add_card(CardDefId::new("CSV8C", "083"), 2);
    deck.add_card(CardDefId::new("CS5.5C", "060"), 1);
    deck.add_card(CardDefId::new("CSV8C", "183"), 4);
    deck.add_card(CardDefId::new("151C", "151"), 1);
    deck.add_card(CardDefId::new("CSV7C", "180"), 1);
    deck.add_card(CardDefId::new("CS5DC", "138"), 2);
    deck.add_card(CardDefId::new("CSV7C", "123"), 1);
    deck.add_card(CardDefId::new("CSNC", "003"), 2);
    deck.add_card(CardDefId::new("CS6.5C", "063"), 3);
    deck.add_card(CardDefId::new("CS5bC", "051"), 2);
    deck.add_card(CardDefId::new("CSV1C", "113"), 1);
    deck.add_card(CardDefId::new("CSV8C", "199"), 1);
    deck.add_card(CardDefId::new("CSVH1C", "034"), 1);
    deck.add_card(CardDefId::new("CS6bC", "123"), 1);
    deck.add_card(CardDefId::new("CSV1C", "112"), 4);
    deck.add_card(CardDefId::new("CSV8C", "135"), 1);
    deck.add_card(CardDefId::new("CSV8C", "082"), 1);
    deck.add_card(CardDefId::new("CSV3C", "123"), 4);
    deck.add_card(CardDefId::new("CSV8C", "081"), 3);
    deck.add_card(CardDefId::new("CSVH1C", "045"), 4);
    deck.add_card(CardDefId::new("CSV6C", "115"), 3);
    deck.add_card(CardDefId::new("CSV8C", "172"), 1);
    deck.add_card(CardDefId::new("CSV7C", "177"), 1);
    proof {
        assert(deck_list(deck.cards@) =~= seq![
            ("CSV6C"@ + seq!['_'] + "114"@, 1u8),
            ("CS6.5C"@ + seq!['_'] + "020"@, 1u8),
            ("CSVE1C"@ + seq!['_'] + "WAT"@, 7u8),
            ("CSV2C"@ + seq!['_'] + "028"@, 1u8),
            ("CSVH1C"@ + seq!['_'] + "043"@, 4u8),
            ("CSV2C"@ + seq!['_'] + "105"@, 1u8),
            ("CSV8C"@ + seq!['_'] + "083"@, 2u8),
            ("CS5.5C"@ + seq!['_'] + "060"@, 1u8),
            ("CSV8C"@ + seq!['_'] + "183"@, 4u8),
            ("151C"@ + seq!['_'] + "151"@, 1u8),
            ("CSV7C"@ + seq!['_'] + "180"@, 1u8),
            ("CS5DC"@ + seq!['_'] + "138"@, 2u8),
            ("CSV7C"@ + seq!['_'] + "123"@, 1u8),
            ("CSNC"@ + seq!['_'] + "003"@, 2u8),
            ("CS6.5C"@ + seq!['_'] + "063"@, 3u8),
            ("CS5bC"@ + seq!['_'] + "051"@, 2u8),
            ("CSV1C"@ + seq!['_'] + "113"@, 1u8),
            ("CSV8C"@ + seq!['_'] + "199"@, 1u8),
            ("CSVH1C"@ + seq!['_'] + "034"@, 1u8),
            ("CS6bC"@ + seq!['_'] + "123"@, 1u8),
            ("CSV1C"@ + seq!['_'] + "112"@, 4u8),
            ("CSV8C"@ + seq!['_'] + "135"@, 1u8),
            ("CSV8C"@ + seq!['_'] + "082"@, 1u8),
            ("CSV3C"@ + seq!['_'] + "123"@, 4u8),
            ("CSV8C"@ + seq!['_'] + "081"@, 3u8),
            ("CSVH1C"@ + seq!['_'] + "045"@, 4u8),
            ("CSV6C"@ + seq!['_'] + "115"@, 3u8),
            ("CSV8C"@ + seq!['_'] + "172"@, 1u8),
            ("CSV7C"@ + seq!['_'] + "177"@, 1u8),
        ]);
    }
    deck
}

/// The "palkia_gholdengo" deck.
pub fn palkia_gholdengo_deck() -> (r: Deck)
    ensures
        r.name@ == "palkia_gholdengo"@,
        r.deck_id == 0,
        r.cards@.len() == 31,
        r.total_cards == 60,
        r.wf(),
        deck_list(r.cards@) == seq![
            ("CS5bC"@ + seq!['_'] + "052"@, 1u8),
            ("CSV4C"@ + seq!['_'] + "089"@, 4u8),
            ("CS6.5C"@ + seq!['_'] + "020"@, 1u8),
            ("CSVH1C"@ + seq!['_'] + "051"@, 1u8),
            ("CSVE1C"@ + seq!['_'] + "WAT"@, 6u8),
            ("CSVH1C"@ + seq!['_'] + "043"@, 4u8),
            ("CSV7C"@ + seq!['_'] + "191"@, 3u8),
            ("CS5.5C"@ + seq!['_'] + "060"@, 1u8),
            ("CSVE1C"@ + seq!['_'] + "MET"@, 4u8),
            ("SVP"@ + seq!['_'] + "105"@, 1u8),
            ("CSV7C"@ + seq!['_'] + "180"@, 1u8),
            ("CS5DC"@ + seq!['_'] + "138"@, 2u8),
            ("CSV7C"@ + seq!['_'] + "202"@, 2u8),
            ("CS5bC"@ + seq!['_'] + "111"@, 1u8),
            ("CSNC"@ + seq!['_'] + "003"@, 1u8),
            ("CS5aC"@ + seq!['_'] + "113"@, 1u8),
            ("CS5bC"@ + seq!['_'] + "051"@, 1u8),
            ("CSV6C"@ + seq!['_'] + "125"@, 1u8),
            ("CSV1C"@ + seq!['_'] + "113"@, 1u8),
            ("CSVH1C"@ + seq!['_'] + "034"@, 1u8),
            ("CSV4C"@ + seq!['_'] + "063"@, 3u8),
            ("CSVH1aC"@ + seq!['_'] + "023"@, 2u8),
            ("CS6bC"@ + seq!['_'] + "123"@, 1u8),
            ("CSV1C"@ + seq!['_'] + "112"@, 2u8),
            ("CSV1C"@ + seq!['_'] + "111"@, 1u8),
            ("CSV3C"@ + seq!['_'] + "123"@, 1u8),
            ("CSV1C"@ + seq!['_'] + "109"@, 1u8),
            ("CS5aC"@ + seq!['_'] + "105"@, 1u8),
            ("CSV6C"@ + seq!['_'] + "115"@, 3u8),
            ("CSV7C"@ + seq!['_'] + "177"@, 3u8),
            ("CSV3C"@ + seq!['_'] + "115"@, 4u8),
        ],
{
    let mut deck = Deck::new(String::from_str("palkia_gholdengo"), 0);
    deck.add_card(CardDefId::new("CS5bC", "052"), 1);
    deck.add_card(CardDefId::new("CSV4C", "089"), 4);
    deck.add_card(CardDefId::new("CS6.5C", "020"), 1);
    deck.add_card(CardDefId::new("CSVH1C", "051"), 1);
    deck.add_card(CardDefId::new("CSVE1C", "WAT"), 6);
    deck.add_card(CardDefId::new("CSVH1C", "043"), 4);
    deck.add_card(CardDefId::new("CSV7C", "191"), 3);
    deck.add_card(CardDefId::new("CS5.5C", "060"), 1);
    deck.add_card(CardDefId::new("CSVE1C", "MET"), 4);
    deck.add_card(CardDefId::new("SVP", "105"), 1);
    deck.add_card(CardDefId::new("CSV7C", "180"), 1);
    deck.add_card(CardDefId::new("CS5DC", "138"), 2);
    deck.add_card(CardDefId::new("CSV7C", "202"), 2);
    deck.add_card(CardDefId::new("CS5bC", "111"), 1);
    deck.add_card(CardDefId::new("CSNC", "003"), 1);
    deck.add_card(CardDefId::new("CS5aC", "113"), 1);
    deck.add_card(CardDefId::new("CS5bC", "051"), 1);
    deck.add_card(CardDefId::new("CSV6C", "125"), 1);
    deck.add_card(CardDefId::new("CSV1C", "113"), 1);
    deck.add_card(CardDefId::new("CSVH1C", "034"), 1);
    deck.add_card(CardDefId::new("CSV4C", "063"), 3);
    deck.add_card(CardDefId::new("CSVH1aC", "023"), 2);
    deck.add_card(CardDefId::new("CS6bC", "123"), 1);
    deck.add_card(CardDefId::new("CSV1C", "112"), 2);
    deck.add_card(CardDefId::new("CSV1C", "111"), 1);
    deck.add_card(CardDefId::new("CSV3C", "123"), 1);
    deck.add_card(CardDefId::new("CSV1C", "109"), 1);
    deck.add_card(CardDefId::new("CS5aC", "105"), 1);
    deck.add_card(CardDefId::new("CSV6C", "115"), 3);
    deck.add_card(CardDefId::new("CSV7C", "177"), 3);
    deck.add_card(CardDefId::new("CSV3C", "115"), 4);
    proof {
        assert(deck_list(deck.cards@) =~= seq![
            ("CS5bC"@ + seq!['_'] + "052"@, 1u8),
            ("CSV4C"@ + seq!['_'] + "089"@, 4u8),
            ("CS6.5C"@ + seq!['_'] + "020"@, 1u8),
            ("CSVH1C"@ + seq!['_'] + "051"@, 1u8),
            ("CSVE1C"@ + seq!['_'] + "WAT"@, 6u8),
            ("CSVH1C"@ + seq!['_'] + "043"@, 4u8),
            ("CSV7C"@ + seq!['_'] + "191"@, 3u8),
            ("CS5.5C"@ + seq!['_'] + "060"@, 1u8),
            ("CSVE1C"@ + seq!['_'] + "MET"@, 4u8),
            ("SVP"@ + seq!['_'] + "105"@, 1u8),
            ("CSV7C"@ + seq!['_'] + "180"@, 1u8),
            ("CS5DC"@ + seq!['_'] + "138"@, 2u8),
            ("CSV7C"@ + seq!['_'] + "202"@, 2u8),
            ("CS5bC"@ + seq!['_'] + "111"@, 1u8),
            ("CSNC"@ + seq!['_'] + "003"@, 1u8),
            ("CS5aC"@ + seq!['_'] + "113"@, 1u8),
            ("CS5bC"@ + seq!['_'] + "051"@, 1u8),
            ("CSV6C"@ + seq!['_'] + "125"@, 1u8),
            ("CSV1C"@ + seq!['_'] + "113"@, 1u8),
            ("CSVH1C"@ + seq!['_'] + "034"@, 1u8),
            ("CSV4C"@ + seq!['_'] + "063"@, 3u8),
            ("CSVH1aC"@ + seq!['_'] + "023"@, 2u8),
            ("CS6bC"@ + seq!['_'] + "123"@, 1u8),
            ("CSV1C"@ + seq!['_'] + "112"@, 2u8),
            ("CSV1C"@ + seq!['_'] + "111"@, 1u8),
            ("CSV3C"@ + seq!['_'] + "123"@, 1u8),
            ("CSV1C"@ + seq!['_'] + "109"@, 1u8),
            ("CS5aC"@ + seq!['_'] + "105"@, 1u8),
            ("CSV6C"@ + seq!['_'] + "115"@, 3u8),
            ("CSV7C"@ + seq!['_'] + "177"@, 3u8),
            ("CSV3C"@ + seq!['_'] + "115"@, 4u8),
        ]);
    }
    deck
}

/// The "lost_box" deck.
pub fn lost_box_deck() -> (r: Deck)
    ensures
        r.name@ == "lost_box"@,
        r.deck_id == 0,
        r.cards@.len() == 31,
        r.total_cards == 60,
        r.wf(),
        deck_list(r.cards@) == seq![
            ("CS6.5C"@ + seq!['_'] + "020"@, 1u8),
            ("CSV7C"@ + seq!['_'] + "185"@, 1u8),
            ("CSVE1C"@ + seq!['_'] + "WAT"@, 3u8),
            ("CSV5C"@ + seq!['_'] + "128"@, 1u8),
            ("CS6bC"@ + seq!['_'] + "122"@, 4u8),
            ("CSVH1C"@ + seq!['_'] + "043"@, 4u8),
            ("CS5.5C"@ + seq!['_'] + "060"@, 1u8),
            ("CSV7C"@ + seq!['_'] + "161"@, 2u8),
            ("CSVE1C"@ + seq!['_'] + "LIG"@, 2u8),
            ("CSVE1C"@ + seq!['_'] + "DAR"@, 3u8),
            ("CSV6C"@ + seq!['_'] + "042"@, 1u8),
            ("CS6bC"@ + seq!['_'] + "026"@, 1u8),
            ("CS5bC"@ + seq!['_'] + "128"@, 1u8),
            ("CS5DC"@ + seq!['_'] + "116"@, 4u8),
            ("CS5.5C"@ + seq!['_'] + "065"@, 1u8),
            ("CSVH1aC"@ + seq!['_'] + "023"@, 1u8),
            ("CS6.5C"@ + seq!['_'] + "023"@, 1u8),
            ("CS6bC"@ + seq!['_'] + "123"@, 2u8),
            ("CSV6C"@ + seq!['_'] + "096"@, 1u8),
            ("CS4DaC"@ + seq!['_'] + "137"@, 1u8),
            ("CS6bC"@ + seq!['_'] + "052"@, 4u8),
            ("CS6bC"@ + seq!['_'] + "125"@, 4u8),
            ("CS6.5C"@ + seq!['_'] + "066"@, 1u8),
            ("CSV1C"@ + seq!['_'] + "112"@, 1u8),
            ("CSV8C"@ + seq!['_'] + "135"@, 1u8),
            ("CSV1C"@ + seq!['_'] + "109"@, 4u8),
            ("CSV8C"@ + seq!['_'] + "176"@, 1u8),
            ("CSV6C"@ + seq!['_'] + "051"@, 1u8),
            ("CSV8C"@ + seq!['_'] + "172"@, 1u8),
            ("CSV7C"@ + seq!['_'] + "162"@, 2u8),
            ("CSV7C"@ + seq!['_'] + "177"@, 4u8),
        ],
{
    let mut deck = Deck::new(String::from_str("lost_box"), 0);
    deck.add_card(CardDefId::new("CS6.5C", "020"), 1);
    deck.add_card(CardDefId::new("CSV7C", "185"), 1);
    deck.add_card(CardDefId::new("CSVE1C", "WAT"), 3);
    deck.add_card(CardDefId::new("CSV5C", "128"), 1);
    deck.add_card(CardDefId::new("CS6bC", "122"), 4);
    deck.add_card(CardDefId::new("CSVH1C", "043"), 4);
    deck.add_card(CardDefId::new("CS5.5C", "060"), 1);
    deck.add_card(CardDefId::new("CSV7C", "161"), 2);
    deck.add_card(CardDefId::new("CSVE1C", "LIG"), 2);
    deck.add_card(CardDefId::new("CSVE1C", "DAR"), 3);
    deck.add_card(CardDefId::new("CSV6C", "042"), 1);
    deck.add_card(CardDefId::new("CS6bC", "026"), 1);
    deck.add_card(CardDefId::new("CS5bC", "128"), 1);
    deck.add_card(CardDefId::new("CS5DC", "116"), 4);
    deck.add_card(CardDefId::new("CS5.5C", "065"), 1);
    deck.add_card(CardDefId::new("CSVH1aC", "023"), 1);
    deck.add_card(CardDefId::new("CS6.5C", "023"), 1);
    deck.add_card(CardDefId::new("CS6bC", "123"), 2);
    deck.add_card(CardDefId::new("CSV6C", "096"), 1);
    deck.add_card(CardDefId::new("CS4DaC", "137"), 1);
    deck.add_card(CardDefId::new("CS6bC", "052"), 4);
    deck.add_card(CardDefId::new("CS6bC", "125"), 4);
    deck.add_card(CardDefId::new("CS6.5C", "066"), 1);
    deck.add_card(CardDefId::new("CSV1C", "112"), 1);
    deck.add_card(CardDefId::new("CSV8C", "135"), 1);
    deck.add_card(CardDefId::new("CSV1C", "109"), 4);
    deck.add_card(CardDefId::new("CSV8C", "176"), 1);
    deck.add_card(CardDefId::new("CSV6C", "051"), 1);
    deck.add_card(CardDefId::new("CSV8C", "172"), 1);
    deck.add_card(CardDefId::new("CSV7C", "162"), 2);
    deck.add_card(CardDefId::new("CSV7C", "177"), 4);
    proof {
        assert(deck_list(deck.cards@) =~= seq![
            ("CS6.5C"@ + seq!['_'] + "020"@, 1u8),
            ("CSV7C"@ + seq!['_'] + "185"@, 1u8),
            ("CSVE1C"@ + seq!['_'] + "WAT"@, 3u8),
            ("CSV5C"@ + seq!['_'] + "128"@, 1u8),
            ("CS6bC"@ + seq!['_'] + "122"@, 4u8),
            ("CSVH1C"@ + seq!['_'] + "043"@, 4u8),
            ("CS5.5C"@ + seq!['_'] + "060"@, 1u8),
            ("CSV7C"@ + seq!['_'] + "161"@, 2u8),
            ("CSVE1C"@ + seq!['_'] + "LIG"@, 2u8),
            ("CSVE1C"@ + seq!['_'] + "DAR"@, 3u8),
            ("CSV6C"@ + seq!['_'] + "042"@, 1u8),
            ("CS6bC"@ + seq!['_'] + "026"@, 1u8),
            ("CS5bC"@ + seq!['_'] + "128"@, 1u8),
            ("CS5DC"@ + seq!['_'] + "116"@, 4u8),
            ("CS5.5C"@ + seq!['_'] + "065"@, 1u8),
            ("CSVH1aC"@ + seq!['_'] + "023"@, 1u8),
            ("CS6.5C"@ + seq!['_'] + "023"@, 1u8),
            ("CS6bC"@ + seq!['_'] + "123"@, 2u8),
            ("CSV6C"@ + seq!['_'] + "096"@, 1u8),
            ("CS4DaC"@ + seq!['_'] + "137"@, 1u8),
            ("CS6bC"@ + seq!['_'] + "052"@, 4u8),
            ("CS6bC"@ + seq!['_'] + "125"@, 4u8),
            ("CS6.5C"@ + seq!['_'] + "066"@, 1u8),
            ("CSV1C"@ + seq!['_'] + "112"@, 1u8),
            ("CSV8C"@ + seq!['_'] + "135"@, 1u8),
            ("CSV1C"@ + seq!['_'] + "109"@, 4u8),
            ("CSV8C"@ + seq!['_'] + "176"@, 1u8),
            ("CSV6C"@ + seq!['_'] + "051"@, 1u8),
            ("CSV8C"@ + seq!['_'] + "172"@, 1u8),
            ("CSV7C"@ + seq!['_'] + "162"@, 2u8),
            ("CSV7C"@ + seq!['_'] + "177"@, 4u8),
        ]);
    }
    deck
}

/// The "regidrago" deck.
pub fn regidrago_deck() -> (r: Deck)
    ensures
        r.name@ == "regidrago"@,
        r.deck_id == 0,
        r.cards@.len() == 28,
        r.total_cards == 60,
        r.wf(),
        deck_list(r.cards@) == seq![
            ("CSVH1C"@ + seq!['_'] + "043"@, 4u8),
            ("CSV2C"@ + seq!['_'] + "105"@, 1u8),
            ("CSVE1C"@ + seq!['_'] + "FIR"@, 3u8),
            ("CSVH1aC"@ + seq!['_'] + "008"@, 4u8),
            ("CSV8C"@ + seq!['_'] + "183"@, 1u8),
            ("CSV8C"@ + seq!['_'] + "028"@, 3u8),
            ("151C"@ + seq!['_'] + "151"@, 1u8),
            ("CSV8C"@ + seq!['_'] + "203"@, 1u8),
            ("CSV7C"@ + seq!['_'] + "180"@, 1u8),
            ("CSV8C"@ + seq!['_'] + "159"@, 2u8),
            ("CS5bC"@ + seq!['_'] + "128"@, 1u8),
            ("CSVE1C"@ + seq!['_'] + "GRA"@, 7u8),
            ("CS5aC"@ + seq!['_'] + "113"@, 1u8),
            ("CS6.5C"@ + seq!['_'] + "055"@, 3u8),
            ("CSV1C"@ + seq!['_'] + "079"@, 1u8),
            ("CSV1C"@ + seq!['_'] + "113"@, 1u8),
            ("CSVH1aC"@ + seq!['_'] + "023"@, 2u8),
            ("CS6bC"@ + seq!['_'] + "108"@, 1u8),
            ("CS6.5C"@ + seq!['_'] + "054"@, 3u8),
            ("CSV1C"@ + seq!['_'] + "112"@, 4u8),
            ("CSV8C"@ + seq!['_'] + "135"@, 1u8),
            ("CSV1C"@ + seq!['_'] + "121"@, 4u8),
            ("CSV3C"@ + seq!['_'] + "123"@, 2u8),
            ("CS5.5C"@ + seq!['_'] + "053"@, 1u8),
            ("CSV1C"@ + seq!['_'] + "109"@, 1u8),
            ("CSV6C"@ + seq!['_'] + "115"@, 4u8),
            ("CSV8C"@ + seq!['_'] + "153"@, 1u8),
            ("CSV3C"@ + seq!['_'] + "115"@, 1u8),
        ],
{
    let mut deck = Deck::new(String::from_str("regidrago"), 0);
    deck.add_card(CardDefId::new("CSVH1C", "043"), 4);
    deck.add_card(CardDefId::new("CSV2C", "105"), 1);
    deck.add_card(CardDefId::new("CSVE1C", "FIR"), 3);
    deck.add_card(CardDefId::new("CSVH1aC", "008"), 4);
    deck.add_card(CardDefId::new("CSV8C", "183"), 1);
    deck.add_card(CardDefId::new("CSV8C", "028"), 3);
    deck.add_card(CardDefId::new("151C", "151"), 1);
    deck.add_card(CardDefId::new("CSV8C", "203"), 1);
    deck.add_card(CardDefId::new("CSV7C", "180"), 1);
    deck.add_card(CardDefId::new("CSV8C", "159"), 2);
    deck.add_card(CardDefId::new("CS5bC", "128"), 1);
    deck.add_card(CardDefId::new("CSVE1C", "GRA"), 7);
    deck.add_card(CardDefId::new("CS5aC", "113"), 1);
    deck.add_card(CardDefId::new("CS6.5C", "055"), 3);
    deck.add_card(CardDefId::new("CSV1C", "079"), 1);
    deck.add_card(CardDefId::new("CSV1C", "113"), 1);
    deck.add_card(CardDefId::new("CSVH1aC", "023"), 2);
    deck.add_card(CardDefId::new("CS6bC", "108"), 1);
    deck.add_card(CardDefId::new("CS6.5C", "054"), 3);
    deck.add_card(CardDefId::new("CSV1C", "112"), 4);
    deck.add_card(CardDefId::new("CSV8C", "135"), 1);
    deck.add_card(CardDefId::new("CSV1C", "121"), 4);
    deck.add_card(CardDefId::new("CSV3C", "123"), 2);
    deck.add_card(CardDefId::new("CS5.5C", "053"), 1);
    deck.add_card(CardDefId::new("CSV1C", "109"), 1);
    deck.add_card(CardDefId::new("CSV6C", "115"), 4);
    deck.add_card(CardDefId::new("CSV8C", "153"), 1);
    deck.add_card(CardDefId::new("CSV3C", "115"), 1);
    proof {
        assert(deck_list(deck.cards@) =~= seq![
            ("CSVH1C"@ + seq!['_'] + "043"@, 4u8),
            ("CSV2C"@ + seq!['_'] + "105"@, 1u8),
            ("CSVE1C"@ + seq!['_'] + "FIR"@, 3u8),
            ("CSVH1aC"@ + seq!['_'] + "008"@, 4u8),
            ("CSV8C"@ + seq!['_'] + "183"@, 1u8),
            ("CSV8C"@ + seq!['_'] + "028"@, 3u8),
            ("151C"@ + seq!['_'] + "151"@, 1u8),
            ("CSV8C"@ + seq!['_'] + "203"@, 1u8),
            ("CSV7C"@ + seq!['_'] + "180"@, 1u8),
            ("CSV8C"@ + seq!['_'] + "159"@, 2u8),
            ("CS5bC"@ + seq!['_'] + "128"@, 1u8),
            ("CSVE1C"@ + seq!['_'] + "GRA"@, 7u8),
            ("CS5aC"@ + seq!['_'] + "113"@, 1u8),
            ("CS6.5C"@ + seq!['_'] + "055"@, 3u8),
            ("CSV1C"@ + seq!['_'] + "079"@, 1u8),
            ("CSV1C"@ + seq!['_'] + "113"@, 1u8),
            ("CSVH1aC"@ + seq!['_'] + "023"@, 2u8),
            ("CS6bC"@ + seq!['_'] + "108"@, 1u8),
            ("CS6.5C"@ + seq!['_'] + "054"@, 3u8),
            ("CSV1C"@ + seq!['_'] + "112"@, 4u8),
            ("CSV8C"@ + seq!['_'] + "135"@, 1u8),
            ("CSV1C"@ + seq!['_'] + "121"@, 4u8),
            ("CSV3C"@ + seq!['_'] + "123"@, 2u8),
            ("CS5.5C"@ + seq!['_'] + "053"@, 1u8),
            ("CSV1C"@ + seq!['_'] + "109"@, 1u8),
            ("CSV6C"@ + seq!['_'] + "115"@, 4u8),
            ("CSV8C"@ + seq!['_'] + "153"@, 1u8),
            ("CSV3C"@ + seq!['_'] + "115"@, 1u8),
        ]);
    }
    deck
}

/// The "lugia_archeops" deck.
pub fn lugia_archeops_deck() -> (r: Deck)
    ensures
        r.name@ == "lugia_archeops"@,
        r.deck_id == 0,
        r.cards@.len() == 28,
        r.total_cards == 60,
        r.wf(),
        deck_list(r.cards@) == seq![
            ("CS6aC"@ + seq!['_'] + "127"@, 1u8),
            ("CSV4C"@ + seq!['_'] + "129"@, 4u8),
            ("CSV8C"@ + seq!['_'] + "067"@, 1u8),
            ("CSV3C"@ + seq!['_'] + "116"@, 2u8),
            ("CS6bC"@ + seq!['_'] + "117"@, 2u8),
            ("CSV8C"@ + seq!['_'] + "203"@, 1u8),
            ("CSV8C"@ + seq!['_'] + "121"@, 1u8),
            ("CS5bC"@ + seq!['_'] + "049"@, 2u8),
            ("CS6aC"@ + seq!['_'] + "113"@, 4u8),
            ("CSV8C"@ + seq!['_'] + "207"@, 1u8),
            ("CS6aC"@ + seq!['_'] + "120"@, 4u8),
            ("CSV8C"@ + seq!['_'] + "199"@, 1u8),
            ("CS6.5C"@ + seq!['_'] + "072"@, 1u8),
            ("CSVH1aC"@ + seq!['_'] + "023"@, 3u8),
            ("CSNC"@ + seq!['_'] + "024"@, 3u8),
            ("CSV1C"@ + seq!['_'] + "112"@, 4u8),
            ("CSV1C"@ + seq!['_'] + "120"@, 1u8),
            ("CSV8C"@ + seq!['_'] + "135"@, 1u8),
            ("CSV1C"@ + seq!['_'] + "121"@, 3u8),
            ("CSV3C"@ + seq!['_'] + "123"@, 2u8),
            ("CSV7C"@ + seq!['_'] + "171"@, 2u8),
            ("CS6aC"@ + seq!['_'] + "103"@, 3u8),
            ("CS6aC"@ + seq!['_'] + "102"@, 3u8),
            ("CS6aC"@ + seq!['_'] + "131"@, 4u8),
            ("CSV6C"@ + seq!['_'] + "051"@, 1u8),
            ("CSV8C"@ + seq!['_'] + "172"@, 1u8),
            ("CSV7C"@ + seq!['_'] + "204"@, 3u8),
            ("CS6.5C"@ + seq!['_'] + "071"@, 1u8),
        ],
{
    let mut deck = Deck::new(String::from_str("lugia_archeops"), 0);
    deck.add_card(CardDefId::new("CS6aC", "127"), 1);
    deck.add_card(CardDefId::new("CSV4C", "129"), 4);
    deck.add_card(CardDefId::new("CSV8C", "067"), 1);
    deck.add_card(CardDefId::new("CSV3C", "116"), 2);
    deck.add_card(CardDefId::new("CS6bC", "117"), 2);
    deck.add_card(CardDefId::new("CSV8C", "203"), 1);
    deck.add_card(CardDefId::new("CSV8C", "121"), 1);
    deck.add_card(CardDefId::new("CS5bC", "049"), 2);
    deck.add_card(CardDefId::new("CS6aC", "113"), 4);
    deck.add_card(CardDefId::new("CSV8C", "207"), 1);
    deck.add_card(CardDefId::new("CS6aC", "120"), 4);
    deck.add_card(CardDefId::new("CSV8C", "199"), 1);
    deck.add_card(CardDefId::new("CS6.5C", "072"), 1);
    deck.add_card(CardDefId::new("CSVH1aC", "023"), 3);
    deck.add_card(CardDefId::new("CSNC", "024"), 3);
    deck.add_card(CardDefId::new("CSV1C", "112"), 4);
    deck.add_card(CardDefId::new("CSV1C", "120"), 1);
    deck.add_card(CardDefId::new("CSV8C", "135"), 1);
    deck.add_card(CardDefId::new("CSV1C", "121"), 3);
    deck.add_card(CardDefId::new("CSV3C", "123"), 2);
    deck.add_card(CardDefId::new("CSV7C", "171"), 2);
    deck.add_card(CardDefId::new("CS6aC", "103"), 3);
    deck.add_card(CardDefId::new("CS6aC", "102"), 3);
    deck.add_card(CardDefId::new("CS6aC", "131"), 4);
    deck.add_card(CardDefId::new("CSV6C", "051"), 1);
    deck.add_card(CardDefId::new("CSV8C", "172"), 1);
    deck.add_card(CardDefId::new("CSV7C", "204"), 3);
    deck.add_card(CardDefId::new("CS6.5C", "071"), 1);
    proof {
        assert(deck_list(deck.cards@) =~= seq![
            ("CS6aC"@ + seq!['_'] + "127"@, 1u8),
            ("CSV4C"@ + seq!['_'] + "129"@, 4u8),
            ("CSV8C"@ + seq!['_'] + "067"@, 1u8),
            ("CSV3C"@ + seq!['_'] + "116"@, 2u8),
            ("CS6bC"@ + seq!['_'] + "117"@, 2u8),
            ("CSV8C"@ + seq!['_'] + "203"@, 1u8),
            ("CSV8C"@ + seq!['_'] + "121"@, 1u8),
            ("CS5bC"@ + seq!['_'] + "049"@, 2u8),
            ("CS6aC"@ + seq!['_'] + "113"@, 4u8),
            ("CSV8C"@ + seq!['_'] + "207"@, 1u8),
            ("CS6aC"@ + seq!['_'] + "120"@, 4u8),
            ("CSV8C"@ + seq!['_'] + "199"@, 1u8),
            ("CS6.5C"@ + seq!['_'] + "072"@, 1u8),
            ("CSVH1aC"@ + seq!['_'] + "023"@, 3u8),
            ("CSNC"@ + seq!['_'] + "024"@, 3u8),
            ("CSV1C"@ + seq!['_'] + "112"@, 4u8),
            ("CSV1C"@ + seq!['_'] + "120"@, 1u8),
            ("CSV8C"@ + seq!['_'] + "135"@, 1u8),
            ("CSV1C"@ + seq!['_'] + "121"@, 3u8),
            ("CSV3C"@ + seq!['_'] + "123"@, 2u8),
            ("CSV7C"@ + seq!['_'] + "171"@, 2u8),
            ("CS6aC"@ + seq!['_'] + "103"@, 3u8),
            ("CS6aC"@ + seq!['_'] + "102"@, 3u8),
            ("CS6aC"@ + seq!['_'] + "131"@, 4u8),
            ("CSV6C"@ + seq!['_'] + "051"@, 1u8),
            ("CSV8C"@ + seq!['_'] + "172"@, 1u8),
            ("CSV7C"@ + seq!['_'] + "204"@, 3u8),
            ("CS6.5C"@ + seq!['_'] + "071"@, 1u8),
        ]);
    }
    deck
}

/// The "arceus_giratina" deck.
pub fn arceus_giratina_deck() -> (r: Deck)
    ensures
        r.name@ == "arceus_giratina"@,
        r.deck_id == 0,
        r.cards@.len() == 24,
        r.total_cards == 60,
        r.wf(),
        deck_list(r.cards@) == seq![
            ("CSVH1C"@ + seq!['_'] + "051"@, 4u8),
            ("CSV4C"@ + seq!['_'] + "129"@, 1u8),
            ("CSVH1C"@ + seq!['_'] + "043"@, 4u8),
            ("CSV7C"@ + seq!['_'] + "189"@, 1u8),
            ("CSV7C"@ + seq!['_'] + "033"@, 1u8),
            ("CSV1C"@ + seq!['_'] + "116"@, 1u8),
            ("CS5aC"@ + seq!['_'] + "046"@, 1u8),
            ("CSVE1C"@ + seq!['_'] + "PSY"@, 3u8),
            ("CS5bC"@ + seq!['_'] + "111"@, 2u8),
            ("CSVE1C"@ + seq!['_'] + "GRA"@, 6u8),
            ("CS6bC"@ + seq!['_'] + "107"@, 2u8),
            ("CSV1C"@ + seq!['_'] + "113"@, 1u8),
            ("CS6aC"@ + seq!['_'] + "120"@, 1u8),
            ("CS6bC"@ + seq!['_'] + "130"@, 2u8),
            ("CSVH1aC"@ + seq!['_'] + "023"@, 4u8),
            ("CS6bC"@ + seq!['_'] + "123"@, 2u8),
            ("CS6bC"@ + seq!['_'] + "108"@, 2u8),
            ("CSNC"@ + seq!['_'] + "009"@, 4u8),
            ("CS5aC"@ + seq!['_'] + "107"@, 3u8),
            ("CSNC"@ + seq!['_'] + "024"@, 4u8),
            ("CSV1C"@ + seq!['_'] + "112"@, 4u8),
            ("CSV3C"@ + seq!['_'] + "123"@, 4u8),
            ("CS5aC"@ + seq!['_'] + "105"@, 2u8),
            ("CSV1C"@ + seq!['_'] + "099"@, 1u8),
        ],
{
    let mut deck = Deck::new(String::from_str("arceus_giratina"), 0);
    deck.add_card(CardDefId::new("CSVH1C", "051"), 4);
    deck.add_card(CardDefId::new("CSV4C", "129"), 1);
    deck.add_card(CardDefId::new("CSVH1C", "043"), 4);
    deck.add_card(CardDefId::new("CSV7C", "189"), 1);
    deck.add_card(CardDefId::new("CSV7C", "033"), 1);
    deck.add_card(CardDefId::new("CSV1C", "116"), 1);
    deck.add_card(CardDefId::new("CS5aC", "046"), 1);
    deck.add_card(CardDefId::new("CSVE1C", "PSY"), 3);
    deck.add_card(CardDefId::new("CS5bC", "111"), 2);
    deck.add_card(CardDefId::new("CSVE1C", "GRA"), 6);
    deck.add_card(CardDefId::new("CS6bC", "107"), 2);
    deck.add_card(CardDefId::new("CSV1C", "113"), 1);
    deck.add_card(CardDefId::new("CS6aC", "120"), 1);
    deck.add_card(CardDefId::new("CS6bC", "130"), 2);
    deck.add_card(CardDefId::new("CSVH1aC", "023"), 4);
    deck.add_card(CardDefId::new("CS6bC", "123"), 2);
    deck.add_card(CardDefId::new("CS6bC", "108"), 2);
    deck.add_card(CardDefId::new("CSNC", "009"), 4);
    deck.add_card(CardDefId::new("CS5aC", "107"), 3);
    deck.add_card(CardDefId::new("CSNC", "024"), 4);
    deck.add_card(CardDefId::new("CSV1C", "112"), 4);
    deck.add_card(CardDefId::new("CSV3C", "123"), 4);
    deck.add_card(CardDefId::new("CS5aC", "105"), 2);
    deck.add_card(CardDefId::new("CSV1C", "099"), 1);
    proof {
        assert(deck_list(deck.cards@) =~= seq![
            ("CSVH1C"@ + seq!['_'] + "051"@, 4u8),
            ("CSV4C"@ + seq!['_'] + "129"@, 1u8),
            ("CSVH1C"@ + seq!['_'] + "043"@, 4u8),
            ("CSV7C"@ + seq!['_'] + "189"@, 1u8),
            ("CSV7C"@ + seq!['_'] + "033"@, 1u8),
            ("CSV1C"@ + seq!['_'] + "116"@, 1u8),
            ("CS5aC"@ + seq!['_'] + "046"@, 1u8),
            ("CSVE1C"@ + seq!['_'] + "PSY"@, 3u8),
            ("CS5bC"@ + seq!['_'] + "111"@, 2u8),
            ("CSVE1C"@ + seq!['_'] + "GRA"@, 6u8),
            ("CS6bC"@ + seq!['_'] + "107"@, 2u8),
            ("CSV1C"@ + seq!['_'] + "113"@, 1u8),
            ("CS6aC"@ + seq!['_'] + "120"@, 1u8),
            ("CS6bC"@ + seq!['_'] + "130"@, 2u8),
            ("CSVH1aC"@ + seq!['_'] + "023"@, 4u8),
            ("CS6bC"@ + seq!['_'] + "123"@, 2u8),
            ("CS6bC"@ + seq!['_'] + "108"@, 2u8),
            ("CSNC"@ + seq!['_'] + "009"@, 4u8),
            ("CS5aC"@ + seq!['_'] + "107"@, 3u8),
            ("CSNC"@ + seq!['_'] + "024"@, 4u8),
            ("CSV1C"@ + seq!['_'] + "112"@, 4u8),
            ("CSV3C"@ + seq!['_'] + "123"@, 4u8),
            ("CS5aC"@ + seq!['_'] + "105"@, 2u8),
            ("CSV1C"@ + seq!['_'] + "099"@, 1u8),
        ]);
    }
    deck
}

/// The "raging_bolt" deck.
pub fn raging_bolt_deck() -> (r: Deck)
    ensures
        r.name@ == "raging_bolt"@,
        r.deck_id == 0,
        r.cards@.len() == 27,
        r.total_cards == 60,
        r.wf(),
        deck_list(r.cards@) == seq![
            ("CS6.5C"@ + seq!['_'] + "020"@, 1u8),
            ("CSVH1C"@ + seq!['_'] + "043"@, 4u8),
            ("CSV2C"@ + seq!['_'] + "105"@, 1u8),
            ("CSV6C"@ + seq!['_'] + "082"@, 1u8),
            ("CS5.5C"@ + seq!['_'] + "060"@, 1u8),
            ("CSVH1C"@ + seq!['_'] + "047"@, 2u8),
            ("CSV8C"@ + seq!['_'] + "183"@, 2u8),
            ("CSV8C"@ + seq!['_'] + "028"@, 3u8),
            ("CSVE1C"@ + seq!['_'] + "LIG"@, 3u8),
            ("CSV6C"@ + seq!['_'] + "042"@, 1u8),
            ("CSV7C"@ + seq!['_'] + "180"@, 1u8),
            ("CS5bC"@ + seq!['_'] + "128"@, 1u8),
            ("CSVE1C"@ + seq!['_'] + "GRA"@, 6u8),
            ("CSV6C"@ + seq!['_'] + "121"@, 4u8),
            ("CS6.5C"@ + seq!['_'] + "063"@, 3u8),
            ("CSV2C"@ + seq!['_'] + "113"@, 3u8),
            ("CS5DC"@ + seq!['_'] + "116"@, 2u8),
            ("CSVH1C"@ + seq!['_'] + "034"@, 2u8),
            ("CSVH1aC"@ + seq!['_'] + "023"@, 1u8),
            ("CS6bC"@ + seq!['_'] + "123"@, 1u8),
            ("CSVE1C"@ + seq!['_'] + "FIG"@, 3u8),
            ("CSV1C"@ + seq!['_'] + "111"@, 1u8),
            ("CSV8C"@ + seq!['_'] + "135"@, 1u8),
            ("CSV3C"@ + seq!['_'] + "123"@, 2u8),
            ("CSV1C"@ + seq!['_'] + "118"@, 2u8),
            ("CSV6C"@ + seq!['_'] + "115"@, 4u8),
            ("CSV7C"@ + seq!['_'] + "154"@, 4u8),
        ],
{
    let mut deck = Deck::new(String::from_str("raging_bolt"), 0);
    deck.add_card(CardDefId::new("CS6.5C", "020"), 1);
    deck.add_card(CardDefId::new("CSVH1C", "043"), 4);
    deck.add_card(CardDefId::new("CSV2C", "105"), 1);
    deck.add_card(CardDefId::new("CSV6C", "082"), 1);
    deck.add_card(CardDefId::new("CS5.5C", "060"), 1);
    deck.add_card(CardDefId::new("CSVH1C", "047"), 2);
    deck.add_card(CardDefId::new("CSV8C", "183"), 2);
    deck.add_card(CardDefId::new("CSV8C", "028"), 3);
    deck.add_card(CardDefId::new("CSVE1C", "LIG"), 3);
    deck.add_card(CardDefId::new("CSV6C", "042"), 1);
    deck.add_card(CardDefId::new("CSV7C", "180"), 1);
    deck.add_card(CardDefId::new("CS5bC", "128"), 1);
    deck.add_card(CardDefId::new("CSVE1C", "GRA"), 6);
    deck.add_card(CardDefId::new("CSV6C", "121"), 4);
    deck.add_card(CardDefId::new("CS6.5C", "063"), 3);
    deck.add_card(CardDefId::new("CSV2C", "113"), 3);
    deck.add_card(CardDefId::new("CS5DC", "116"), 2);
    deck.add_card(CardDefId::new("CSVH1C", "034"), 2);
    deck.add_card(CardDefId::new("CSVH1aC", "023"), 1);
    deck.add_card(CardDefId::new("CS6bC", "123"), 1);
    deck.add_card(CardDefId::new("CSVE1C", "FIG"), 3);
    deck.add_card(CardDefId::new("CSV1C", "111"), 1);
    deck.add_card(CardDefId::new("CSV8C", "135"), 1);
    deck.add_card(CardDefId::new("CSV3C", "123"), 2);
    deck.add_card(CardDefId::new("CSV1C", "118"), 2);
    deck.add_card(CardDefId::new("CSV6C", "115"), 4);
    deck.add_card(CardDefId::new("CSV7C", "154"), 4);
    proof {
        assert(deck_list(deck.cards@) =~= seq![
            ("CS6.5C"@ + seq!['_'] + "020"@, 1u8),
            ("CSVH1C"@ + seq!['_'] + "043"@, 4u8),
            ("CSV2C"@ + seq!['_'] + "105"@, 1u8),
            ("CSV6C"@ + seq!['_'] + "082"@, 1u8),
            ("CS5.5C"@ + seq!['_'] + "060"@, 1u8),
            ("CSVH1C"@ + seq!['_'] + "047"@, 2u8),
            ("CSV8C"@ + seq!['_'] + "183"@, 2u8),
            ("CSV8C"@ + seq!['_'] + "028"@, 3u8),
            ("CSVE1C"@ + seq!['_'] + "LIG"@, 3u8),
            ("CSV6C"@ + seq!['_'] + "042"@, 1u8),
            ("CSV7C"@ + seq!['_'] + "180"@, 1u8),
            ("CS5bC"@ + seq!['_'] + "128"@, 1u8),
            ("CSVE1C"@ + seq!['_'] + "GRA"@, 6u8),
            ("CSV6C"@ + seq!['_'] + "121"@, 4u8),
            ("CS6.5C"@ + seq!['_'] + "063"@, 3u8),
            ("CSV2C"@ + seq!['_'] + "113"@, 3u8),
            ("CS5DC"@ + seq!['_'] + "116"@, 2u8),
            ("CSVH1C"@ + seq!['_'] + "034"@, 2u8),
            ("CSVH1aC"@ + seq!['_'] + "023"@, 1u8),
            ("CS6bC"@ + seq!['_'] + "123"@, 1u8),
            ("CSVE1C"@ + seq!['_'] + "FIG"@, 3u8),
            ("CSV1C"@ + seq!['_'] + "111"@, 1u8),
            ("CSV8C"@ + seq!['_'] + "135"@, 1u8),
            ("CSV3C"@ + seq!['_'] + "123"@, 2u8),
            ("CSV1C"@ + seq!['_'] + "118"@, 2u8),
            ("CSV6C"@ + seq!['_'] + "115"@, 4u8),
            ("CSV7C"@ + seq!['_'] + "154"@, 4u8),
        ]);
    }
    deck
}

/// The "gardevoir" deck.
pub fn gardevoir_deck() -> (r: Deck)
    ensures
        r.name@ == "gardevoir"@,
        r.deck_id == 0,
        r.cards@.len() == 29,
        r.total_cards == 60,
        r.wf(),
        deck_list(r.cards@) == seq![
            ("CS5bC"@ + seq!['_'] + "052"@, 1u8),
            ("CSV6C"@ + seq!['_'] + "114"@, 2u8),
            ("CS6.5C"@ + seq!['_'] + "020"@, 1u8),
            ("CSV7C"@ + seq!['_'] + "109"@, 1u8),
            ("CSV6C"@ + seq!['_'] + "065"@, 1u8),
            ("CSVH1C"@ + seq!['_'] + "043"@, 1u8),
            ("CS5aC"@ + seq!['_'] + "043"@, 3u8),
            ("CS5.5C"@ + seq!['_'] + "060"@, 1u8),
            ("CSV8C"@ + seq!['_'] + "183"@, 2u8),
            ("CSVE1C"@ + seq!['_'] + "PSY"@, 7u8),
            ("CSV5C"@ + seq!['_'] + "119"@, 2u8),
            ("CSVE1C"@ + seq!['_'] + "DAR"@, 3u8),
            ("CS6.5C"@ + seq!['_'] + "030"@, 4u8),
            ("CSV1C"@ + seq!['_'] + "123"@, 4u8),
            ("CSV8C"@ + seq!['_'] + "094"@, 2u8),
            ("CSV6C"@ + seq!['_'] + "125"@, 1u8),
            ("CSVH1aC"@ + seq!['_'] + "023"@, 1u8),
            ("CSV2C"@ + seq!['_'] + "060"@, 1u8),
            ("CSV1C"@ + seq!['_'] + "060"@, 1u8),
            ("CSV1C"@ + seq!['_'] + "112"@, 2u8),
            ("CSV3C"@ + seq!['_'] + "123"@, 4u8),
            ("CSV2C"@ + seq!['_'] + "055"@, 2u8),
            ("CSV2C"@ + seq!['_'] + "127"@, 2u8),
            ("CSV1C"@ + seq!['_'] + "109"@, 1u8),
            ("CSV1C"@ + seq!['_'] + "118"@, 2u8),
            ("CSV2C"@ + seq!['_'] + "053"@, 1u8),
            ("CSV6C"@ + seq!['_'] + "115"@, 2u8),
            ("CSV8C"@ + seq!['_'] + "176"@, 1u8),
            ("CSV7C"@ + seq!['_'] + "177"@, 4u8),
        ],
{
    let mut deck = Deck::new(String::from_str("gardevoir"), 0);
    deck.add_card(CardDefId::new("CS5bC", "052"), 1);
    deck.add_card(CardDefId::new("CSV6C", "114"), 2);
    deck.add_card(CardDefId::new("CS6.5C", "020"), 1);
    deck.add_card(CardDefId::new("CSV7C", "109"), 1);
    deck.add_card(CardDefId::new("CSV6C", "065"), 1);
    deck.add_card(CardDefId::new("CSVH1C", "043"), 1);
    deck.add_card(CardDefId::new("CS5aC", "043"), 3);
    deck.add_card(CardDefId::new("CS5.5C", "060"), 1);
    deck.add_card(CardDefId::new("CSV8C", "183"), 2);
    deck.add_card(CardDefId::new("CSVE1C", "PSY"), 7);
    deck.add_card(CardDefId::new("CSV5C", "119"), 2);
    deck.add_card(CardDefId::new("CSVE1C", "DAR"), 3);
    deck.add_card(CardDefId::new("CS6.5C", "030"), 4);
    deck.add_card(CardDefId::new("CSV1C", "123"), 4);
    deck.add_card(CardDefId::new("CSV8C", "094"), 2);
    deck.add_card(CardDefId::new("CSV6C", "125"), 1);
    deck.add_card(CardDefId::new("CSVH1aC", "023"), 1);
    deck.add_card(CardDefId::new("CSV2C", "060"), 1);
    deck.add_card(CardDefId::new("CSV1C", "060"), 1);
    deck.add_card(CardDefId::new("CSV1C", "112"), 2);
    deck.add_card(CardDefId::new("CSV3C", "123"), 4);
    deck.add_card(CardDefId::new("CSV2C", "055"), 2);
    deck.add_card(CardDefId::new("CSV2C", "127"), 2);
    deck.add_card(CardDefId::new("CSV1C", "109"), 1);
    deck.add_card(CardDefId::new("CSV1C", "118"), 2);
    deck.add_card(CardDefId::new("CSV2C", "053"), 1);
    deck.add_card(CardDefId::new("CSV6C", "115"), 2);
    deck.add_card(CardDefId::new("CSV8C", "176"), 1);
    deck.add_card(CardDefId::new("CSV7C", "177"), 4);
    proof {
        assert(deck_list(deck.cards@) =~= seq![
            ("CS5bC"@ + seq!['_'] + "052"@, 1u8),
            ("CSV6C"@ + seq!['_'] + "114"@, 2u8),
            ("CS6.5C"@ + seq!['_'] + "020"@, 1u8),
            ("CSV7C"@ + seq!['_'] + "109"@, 1u8),
            ("CSV6C"@ + seq!['_'] + "065"@, 1u8),
            ("CSVH1C"@ + seq!['_'] + "043"@, 1u8),
            ("CS5aC"@ + seq!['_'] + "043"@, 3u8),
            ("CS5.5C"@ + seq!['_'] + "060"@, 1u8),
            ("CSV8C"@ + seq!['_'] + "183"@, 2u8),
            ("CSVE1C"@ + seq!['_'] + "PSY"@, 7u8),
            ("CSV5C"@ + seq!['_'] + "119"@, 2u8),
            ("CSVE1C"@ + seq!['_'] + "DAR"@, 3u8),
            ("CS6.5C"@ + seq!['_'] + "030"@, 4u8),
            ("CSV1C"@ + seq!['_'] + "123"@, 4u8),
            ("CSV8C"@ + seq!['_'] + "094"@, 2u8),
            ("CSV6C"@ + seq!['_'] + "125"@, 1u8),
            ("CSVH1aC"@ + seq!['_'] + "023"@, 1u8),
            ("CSV2C"@ + seq!['_'] + "060"@, 1u8),
            ("CSV1C"@ + seq!['_'] + "060"@, 1u8),
            ("CSV1C"@ + seq!['_'] + "112"@, 2u8),
            ("CSV3C"@ + seq!['_'] + "123"@, 4u8),
            ("CSV2C"@ + seq!['_'] + "055"@, 2u8),
            ("CSV2C"@ + seq!['_'] + "127"@, 2u8),
            ("CSV1C"@ + seq!['_'] + "109"@, 1u8),
            ("CSV1C"@ + seq!['_'] + "118"@, 2u8),
            ("CSV2C"@ + seq!['_'] + "053"@, 1u8),
            ("CSV6C"@ + seq!['_'] + "115"@, 2u8),
            ("CSV8C"@ + seq!['_'] + "176"@, 1u8),
            ("CSV7C"@ + seq!['_'] + "177"@, 4u8),
        ]);
    }
    deck
}

/// The "blissey_tank" deck.
pub fn blissey_tank_deck() -> (r: Deck)
    ensures
        r.name@ == "blissey_tank"@,
        r.deck_id == 0,
        r.cards@.len() == 27,
        r.total_cards == 60,
        r.wf(),
        deck_list(r.cards@) == seq![
            ("CSVH1C"@ + seq!['_'] + "043"@, 3u8),
            ("CSV4C"@ + seq!['_'] + "119"@, 2u8),
            ("CS5.5C"@ + seq!['_'] + "060"@, 1u8),
            ("CSV8C"@ + seq!['_'] + "183"@, 1u8),
            ("CSVE1C"@ + seq!['_'] + "PSY"@, 2u8),
            ("CSV8C"@ + seq!['_'] + "165"@, 3u8),
            ("CSVE1C"@ + seq!['_'] + "DAR"@, 3u8),
            ("CSV8C"@ + seq!['_'] + "121"@, 2u8),
            ("CSV1C"@ + seq!['_'] + "123"@, 4u8),
            ("CSV8C"@ + seq!['_'] + "094"@, 3u8),
            ("CSV2C"@ + seq!['_'] + "113"@, 3u8),
            ("151C"@ + seq!['_'] + "113"@, 4u8),
            ("CS5.5C"@ + seq!['_'] + "064"@, 2u8),
            ("CSV8C"@ + seq!['_'] + "078"@, 1u8),
            ("CSVH1aC"@ + seq!['_'] + "023"@, 2u8),
            ("CS6bC"@ + seq!['_'] + "123"@, 1u8),
            ("CSNC"@ + seq!['_'] + "024"@, 4u8),
            ("CSVE1C"@ + seq!['_'] + "FIG"@, 2u8),
            ("CSV1C"@ + seq!['_'] + "112"@, 4u8),
            ("CSV1C"@ + seq!['_'] + "121"@, 2u8),
            ("CSV3C"@ + seq!['_'] + "123"@, 4u8),
            ("CSV2C"@ + seq!['_'] + "127"@, 2u8),
            ("CSV1C"@ + seq!['_'] + "109"@, 1u8),
            ("CSV7C"@ + seq!['_'] + "187"@, 1u8),
            ("CSV5C"@ + seq!['_'] + "120"@, 1u8),
            ("CSV6C"@ + seq!['_'] + "115"@, 1u8),
            ("CSV7C"@ + seq!['_'] + "141"@, 1u8),
        ],
{
    let mut deck = Deck::new(String::from_str("blissey_tank"), 0);
    deck.add_card(CardDefId::new("CSVH1C", "043"), 3);
    deck.add_card(CardDefId::new("CSV4C", "119"), 2);
    deck.add_card(CardDefId::new("CS5.5C", "060"), 1);
    deck.add_card(CardDefId::new("CSV8C", "183"), 1);
    deck.add_card(CardDefId::new("CSVE1C", "PSY"), 2);
    deck.add_card(CardDefId::new("CSV8C", "165"), 3);
    deck.add_card(CardDefId::new("CSVE1C", "DAR"), 3);
    deck.add_card(CardDefId::new("CSV8C", "121"), 2);
    deck.add_card(CardDefId::new("CSV1C", "123"), 4);
    deck.add_card(CardDefId::new("CSV8C", "094"), 3);
    deck.add_card(CardDefId::new("CSV2C", "113"), 3);
    deck.add_card(CardDefId::new("151C", "113"), 4);
    deck.add_card(CardDefId::new("CS5.5C", "064"), 2);
    deck.add_card(CardDefId::new("CSV8C", "078"), 1);
    deck.add_card(CardDefId::new("CSVH1aC", "023"), 2);
    deck.add_card(CardDefId::new("CS6bC", "123"), 1);
    deck.add_card(CardDefId::new("CSNC", "024"), 4);
    deck.add_card(CardDefId::new("CSVE1C", "FIG"), 2);
    deck.add_card(CardDefId::new("CSV1C", "112"), 4);
    deck.add_card(CardDefId::new("CSV1C", "121"), 2);
    deck.add_card(CardDefId::new("CSV3C", "123"), 4);
    deck.add_card(CardDefId::new("CSV2C", "127"), 2);
    deck.add_card(CardDefId::new("CSV1C", "109"), 1);
    deck.add_card(CardDefId::new("CSV7C", "187"), 1);
    deck.add_card(CardDefId::new("CSV5C", "120"), 1);
    deck.add_card(CardDefId::new("CSV6C", "115"), 1);
    deck.add_card(CardDefId::new("CSV7C", "141"), 1);
    proof {
        assert(deck_list(deck.cards@) =~= seq![
            ("CSVH1C"@ + seq!['_'] + "043"@, 3u8),
            ("CSV4C"@ + seq!['_'] + "119"@, 2u8),
            ("CS5.5C"@ + seq!['_'] + "060"@, 1u8),
            ("CSV8C"@ + seq!['_'] + "183"@, 1u8),
            ("CSVE1C"@ + seq!['_'] + "PSY"@, 2u8),
            ("CSV8C"@ + seq!['_'] + "165"@, 3u8),
            ("CSVE1C"@ + seq!['_'] + "DAR"@, 3u8),
            ("CSV8C"@ + seq!['_'] + "121"@, 2u8),
            ("CSV1C"@ + seq!['_'] + "123"@, 4u8),
            ("CSV8C"@ + seq!['_'] + "094"@, 3u8),
            ("CSV2C"@ + seq!['_'] + "113"@, 3u8),
            ("151C"@ + seq!['_'] + "113"@, 4u8),
            ("CS5.5C"@ + seq!['_'] + "064"@, 2u8),
            ("CSV8C"@ + seq!['_'] + "078"@, 1u8),
            ("CSVH1aC"@ + seq!['_'] + "023"@, 2u8),
            ("CS6bC"@ + seq!['_'] + "123"@, 1u8),
            ("CSNC"@ + seq!['_'] + "024"@, 4u8),
            ("CSVE1C"@ + seq!['_'] + "FIG"@, 2u8),
            ("CSV1C"@ + seq!['_'] + "112"@, 4u8),
            ("CSV1C"@ + seq!['_'] + "121"@, 2u8),
            ("CSV3C"@ + seq!['_'] + "123"@, 4u8),
            ("CSV2C"@ + seq!['_'] + "127"@, 2u8),
            ("CSV1C"@ + seq!['_'] + "109"@, 1u8),
            ("CSV7C"@ + seq!['_'] + "187"@, 1u8),
            ("CSV5C"@ + seq!['_'] + "120"@, 1u8),
            ("CSV6C"@ + seq!['_'] + "115"@, 1u8),
            ("CSV7C"@ + seq!['_'] + "141"@, 1u8),
        ]);
    }
    deck
}

/// The "dragapult_banette" deck.
pub fn dragapult_banette_deck() -> (r: Deck)
    ensures
        r.name@ == "dragapult_banette"@,
        r.deck_id == 0,
        r.cards@.len() == 32,
        r.total_cards == 60,
        r.wf(),
        deck_list(r.cards@) == seq![
            ("CS5bC"@ + seq!['_'] + "052"@, 1u8),
            ("CSV6C"@ + seq!['_'] + "114"@, 2u8),
            ("CSV7C"@ + seq!['_'] + "194"@, 1u8),
            ("CSV7C"@ + seq!['_'] + "185"@, 1u8),
            ("CSVH1C"@ + seq!['_'] + "043"@, 4u8),
            ("CSVE1C"@ + seq!['_'] + "FIR"@, 3u8),
            ("CSV8C"@ + seq!['_'] + "183"@, 1u8),
            ("CSV1C"@ + seq!['_'] + "115"@, 1u8),
            ("CSVE1C"@ + seq!['_'] + "PSY"@, 4u8),
            ("CSV8C"@ + seq!['_'] + "158"@, 4u8),
            ("CSV8C"@ + seq!['_'] + "159"@, 2u8),
            ("CSV1C"@ + seq!['_'] + "127"@, 1u8),
            ("CS5bC"@ + seq!['_'] + "049"@, 1u8),
            ("CSV1C"@ + seq!['_'] + "123"@, 4u8),
            ("CSV8C"@ + seq!['_'] + "094"@, 1u8),
            ("CS6bC"@ + seq!['_'] + "028"@, 1u8),
            ("CSV1C"@ + seq!['_'] + "113"@, 1u8),
            ("CSV1C"@ + seq!['_'] + "053"@, 2u8),
            ("CSVH1aC"@ + seq!['_'] + "023"@, 1u8),
            ("CS6.5C"@ + seq!['_'] + "023"@, 1u8),
            ("CS6.5C"@ + seq!['_'] + "066"@, 1u8),
            ("CSV1C"@ + seq!['_'] + "112"@, 3u8),
            ("CSV8C"@ + seq!['_'] + "135"@, 1u8),
            ("CSV3C"@ + seq!['_'] + "123"@, 2u8),
            ("CSV6C"@ + seq!['_'] + "128"@, 1u8),
            ("CSVH1C"@ + seq!['_'] + "045"@, 1u8),
            ("CSV5C"@ + seq!['_'] + "120"@, 1u8),
            ("CSV6C"@ + seq!['_'] + "115"@, 2u8),
            ("CSV8C"@ + seq!['_'] + "157"@, 4u8),
            ("CSV7C"@ + seq!['_'] + "178"@, 1u8),
            ("CSV7C"@ + seq!['_'] + "177"@, 4u8),
            ("CSV1C"@ + seq!['_'] + "054"@, 2u8),
        ],
{
    let mut deck = Deck::new(String::from_str("dragapult_banette"), 0);
    deck.add_card(CardDefId::new("CS5bC", "052"), 1);
    deck.add_card(CardDefId::new("CSV6C", "114"), 2);
    deck.add_card(CardDefId::new("CSV7C", "194"), 1);
    deck.add_card(CardDefId::new("CSV7C", "185"), 1);
    deck.add_card(CardDefId::new("CSVH1C", "043"), 4);
    deck.add_card(CardDefId::new("CSVE1C", "FIR"), 3);
    deck.add_card(CardDefId::new("CSV8C", "183"), 1);
    deck.add_card(CardDefId::new("CSV1C", "115"), 1);
    deck.add_card(CardDefId::new("CSVE1C", "PSY"), 4);
    deck.add_card(CardDefId::new("CSV8C", "158"), 4);
    deck.add_card(CardDefId::new("CSV8C", "159"), 2);
    deck.add_card(CardDefId::new("CSV1C", "127"), 1);
    deck.add_card(CardDefId::new("CS5bC", "049"), 1);
    deck.add_card(CardDefId::new("CSV1C", "123"), 4);
    deck.add_card(CardDefId::new("CSV8C", "094"), 1);
    deck.add_card(CardDefId::new("CS6bC", "028"), 1);
    deck.add_card(CardDefId::new("CSV1C", "113"), 1);
    deck.add_card(CardDefId::new("CSV1C", "053"), 2);
    deck.add_card(CardDefId::new("CSVH1aC", "023"), 1);
    deck.add_card(CardDefId::new("CS6.5C", "023"), 1);
    deck.add_card(CardDefId::new("CS6.5C", "066"), 1);
    deck.add_card(CardDefId::new("CSV1C", "112"), 3);
    deck.add_card(CardDefId::new("CSV8C", "135"), 1);
    deck.add_card(CardDefId::new("CSV3C", "123"), 2);
    deck.add_card(CardDefId::new("CSV6C", "128"), 1);
    deck.add_card(CardDefId::new("CSVH1C", "045"), 1);
    deck.add_card(CardDefId::new("CSV5C", "120"), 1);
    deck.add_card(CardDefId::new("CSV6C", "115"), 2);
    deck.add_card(CardDefId::new("CSV8C", "157"), 4);
    deck.add_card(CardDefId::new("CSV7C", "178"), 1);
    deck.add_card(CardDefId::new("CSV7C", "177"), 4);
    deck.add_card(CardDefId::new("CSV1C", "054"), 2);
    proof {
        assert(deck_list(deck.cards@) =~= seq![
            ("CS5bC"@ + seq!['_'] + "052"@, 1u8),
            ("CSV6C"@ + seq!['_'] + "114"@, 2u8),
            ("CSV7C"@ + seq!['_'] + "194"@, 1u8),
            ("CSV7C"@ + seq!['_'] + "185"@, 1u8),
            ("CSVH1C"@ + seq!['_'] + "043"@, 4u8),
            ("CSVE1C"@ + seq!['_'] + "FIR"@, 3u8),
            ("CSV8C"@ + seq!['_'] + "183"@, 1u8),
            ("CSV1C"@ + seq!['_'] + "115"@, 1u8),
            ("CSVE1C"@ + seq!['_'] + "PSY"@, 4u8),
            ("CSV8C"@ + seq!['_'] + "158"@, 4u8),
            ("CSV8C"@ + seq!['_'] + "159"@, 2u8),
            ("CSV1C"@ + seq!['_'] + "127"@, 1u8),
            ("CS5bC"@ + seq!['_'] + "049"@, 1u8),
            ("CSV1C"@ + seq!['_'] + "123"@, 4u8),
            ("CSV8C"@ + seq!['_'] + "094"@, 1u8),
            ("CS6bC"@ + seq!['_'] + "028"@, 1u8),
            ("CSV1C"@ + seq!['_'] + "113"@, 1u8),
            ("CSV1C"@ + seq!['_'] + "053"@, 2u8),
            ("CSVH1aC"@ + seq!['_'] + "023"@, 1u8),
            ("CS6.5C"@ + seq!['_'] + "023"@, 1u8),
            ("CS6.5C"@ + seq!['_'] + "066"@, 1u8),
            ("CSV1C"@ + seq!['_'] + "112"@, 3u8),
            ("CSV8C"@ + seq!['_'] + "135"@, 1u8),
            ("CSV3C"@ + seq!['_'] + "123"@, 2u8),
            ("CSV6C"@ + seq!['_'] + "128"@, 1u8),
            ("CSVH1C"@ + seq!['_'] + "045"@, 1u8),
            ("CSV5C"@ + seq!['_'] + "120"@, 1u8),
            ("CSV6C"@ + seq!['_'] + "115"@, 2u8),
            ("CSV8C"@ + seq!['_'] + "157"@, 4u8),
            ("CSV7C"@ + seq!['_'] + "178"@, 1u8),
            ("CSV7C"@ + seq!['_'] + "177"@, 4u8),
            ("CSV1C"@ + seq!['_'] + "054"@, 2u8),
        ]);
    }
    deck
}

/// The "dragapult_dusknoir" deck.
pub fn dragapult_dusknoir_deck() -> (r: Deck)
    ensures
        r.name@ == "dragapult_dusknoir"@,
        r.deck_id == 0,
        r.cards@.len() == 31,
        r.total_cards == 60,
        r.wf(),
        deck_list(r.cards@) == seq![
            ("CSV6C"@ + seq!['_'] + "114"@, 2u8),
            ("CSV7C"@ + seq!['_'] + "185"@, 1u8),
            ("CSV8C"@ + seq!['_'] + "186"@, 1u8),
            ("CSVH1C"@ + seq!['_'] + "043"@, 3u8),
            ("CSV8C"@ + seq!['_'] + "160"@, 1u8),
            ("CSVE1C"@ + seq!['_'] + "FIR"@, 3u8),
            ("CSV8C"@ + seq!['_'] + "083"@, 2u8),
            ("CSV8C"@ + seq!['_'] + "183"@, 1u8),
            ("CSVE1C"@ + seq!['_'] + "PSY"@, 3u8),
            ("CSV8C"@ + seq!['_'] + "158"@, 3u8),
            ("CSV8C"@ + seq!['_'] + "159"@, 3u8),
            ("CS5bC"@ + seq!['_'] + "128"@, 1u8),
            ("CS5bC"@ + seq!['_'] + "049"@, 1u8),
            ("CSV1C"@ + seq!['_'] + "123"@, 4u8),
            ("CS6bC"@ + seq!['_'] + "028"@, 1u8),
            ("CSV1C"@ + seq!['_'] + "113"@, 1u8),
            ("CS5.5C"@ + seq!['_'] + "065"@, 1u8),
            ("CSVH1aC"@ + seq!['_'] + "023"@, 1u8),
            ("CS6.5C"@ + seq!['_'] + "023"@, 1u8),
            ("CS6.5C"@ + seq!['_'] + "066"@, 1u8),
            ("CSV1C"@ + seq!['_'] + "112"@, 3u8),
            ("CSV8C"@ + seq!['_'] + "135"@, 1u8),
            ("CSV8C"@ + seq!['_'] + "082"@, 1u8),
            ("CSV3C"@ + seq!['_'] + "123"@, 2u8),
            ("CSV8C"@ + seq!['_'] + "081"@, 2u8),
            ("CSVH1C"@ + seq!['_'] + "045"@, 4u8),
            ("CSV5C"@ + seq!['_'] + "120"@, 1u8),
            ("CSV6C"@ + seq!['_'] + "115"@, 2u8),
            ("CSV8C"@ + seq!['_'] + "157"@, 4u8),
            ("CSV7C"@ + seq!['_'] + "177"@, 4u8),
            ("CSV5C"@ + seq!['_'] + "127"@, 1u8),
        ],
{
    let mut deck = Deck::new(String::from_str("dragapult_dusknoir"), 0);
    deck.add_card(CardDefId::new("CSV6C", "114"), 2);
    deck.add_card(CardDefId::new("CSV7C", "185"), 1);
    deck.add_card(CardDefId::new("CSV8C", "186"), 1);
    deck.add_card(CardDefId::new("CSVH1C", "043"), 3);
    deck.add_card(CardDefId::new("CSV8C", "160"), 1);
    deck.add_card(CardDefId::new("CSVE1C", "FIR"), 3);
    deck.add_card(CardDefId::new("CSV8C", "083"), 2);
    deck.add_card(CardDefId::new("CSV8C", "183"), 1);
    deck.add_card(CardDefId::new("CSVE1C", "PSY"), 3);
    deck.add_card(CardDefId::new("CSV8C", "158"), 3);
    deck.add_card(CardDefId::new("CSV8C", "159"), 3);
    deck.add_card(CardDefId::new("CS5bC", "128"), 1);
    deck.add_card(CardDefId::new("CS5bC", "049"), 1);
    deck.add_card(CardDefId::new("CSV1C", "123"), 4);
    deck.add_card(CardDefId::new("CS6bC", "028"), 1);
    deck.add_card(CardDefId::new("CSV1C", "113"), 1);
    deck.add_card(CardDefId::new("CS5.5C", "065"), 1);
    deck.add_card(CardDefId::new("CSVH1aC", "023"), 1);
    deck.add_card(CardDefId::new("CS6.5C", "023"), 1);
    deck.add_card(CardDefId::new("CS6.5C", "066"), 1);
    deck.add_card(CardDefId::new("CSV1C", "112"), 3);
    deck.add_card(CardDefId::new("CSV8C", "135"), 1);
    deck.add_card(CardDefId::new("CSV8C", "082"), 1);
    deck.add_card(CardDefId::new("CSV3C", "123"), 2);
    deck.add_card(CardDefId::new("CSV8C", "081"), 2);
    deck.add_card(CardDefId::new("CSVH1C", "045"), 4);
    deck.add_card(CardDefId::new("CSV5C", "120"), 1);
    deck.add_card(CardDefId::new("CSV6C", "115"), 2);
    deck.add_card(CardDefId::new("CSV8C", "157"), 4);
    deck.add_card(CardDefId::new("CSV7C", "177"), 4);
    deck.add_card(CardDefId::new("CSV5C", "127"), 1);
    proof {
        assert(deck_list(deck.cards@) =~= seq![
            ("CSV6C"@ + seq!['_'] + "114"@, 2u8),
            ("CSV7C"@ + seq!['_'] + "185"@, 1u8),
            ("CSV8C"@ + seq!['_'] + "186"@, 1u8),
            ("CSVH1C"@ + seq!['_'] + "043"@, 3u8),
            ("CSV8C"@ + seq!['_'] + "160"@, 1u8),
            ("CSVE1C"@ + seq!['_'] + "FIR"@, 3u8),
            ("CSV8C"@ + seq!['_'] + "083"@, 2u8),
            ("CSV8C"@ + seq!['_'] + "183"@, 1u8),
            ("CSVE1C"@ + seq!['_'] + "PSY"@, 3u8),
            ("CSV8C"@ + seq!['_'] + "158"@, 3u8),
            ("CSV8C"@ + seq!['_'] + "159"@, 3u8),
            ("CS5bC"@ + seq!['_'] + "128"@, 1u8),
            ("CS5bC"@ + seq!['_'] + "049"@, 1u8),
            ("CSV1C"@ + seq!['_'] + "123"@, 4u8),
            ("CS6bC"@ + seq!['_'] + "028"@, 1u8),
            ("CSV1C"@ + seq!['_'] + "113"@, 1u8),
            ("CS5.5C"@ + seq!['_'] + "065"@, 1u8),
            ("CSVH1aC"@ + seq!['_'] + "023"@, 1u8),
            ("CS6.5C"@ + seq!['_'] + "023"@, 1u8),
            ("CS6.5C"@ + seq!['_'] + "066"@, 1u8),
            ("CSV1C"@ + seq!['_'] + "112"@, 3u8),
            ("CSV8C"@ + seq!['_'] + "135"@, 1u8),
            ("CSV8C"@ + seq!['_'] + "082"@, 1u8),
            ("CSV3C"@ + seq!['_'] + "123"@, 2u8),
            ("CSV8C"@ + seq!['_'] + "081"@, 2u8),
            ("CSVH1C"@ + seq!['_'] + "045"@, 4u8),
            ("CSV5C"@ + seq!['_'] + "120"@, 1u8),
            ("CSV6C"@ + seq!['_'] + "115"@, 2u8),
            ("CSV8C"@ + seq!['_'] + "157"@, 4u8),
            ("CSV7C"@ + seq!['_'] + "177"@, 4u8),
            ("CSV5C"@ + seq!['_'] + "127"@, 1u8),
        ]);
    }
    deck
}

/// The "dragapult_charizard" deck.
pub fn dragapult_charizard_deck() -> (r: Deck)
    ensures
        r.name@ == "dragapult_charizard"@,
        r.deck_id == 0,
        r.cards@.len() == 32,
        r.total_cards == 60,
        r.wf(),
        deck_list(r.cards@) == seq![
            ("CS5bC"@ + seq!['_'] + "052"@, 1u8),
            ("CSV6C"@ + seq!['_'] + "114"@, 2u8),
            ("CSV7C"@ + seq!['_'] + "185"@, 1u8),
            ("CSVH1C"@ + seq!['_'] + "043"@, 3u8),
            ("CSVE1C"@ + seq!['_'] + "FIR"@, 5u8),
            ("CS6.5C"@ + seq!['_'] + "070"@, 1u8),
            ("CSV8C"@ + seq!['_'] + "183"@, 1u8),
            ("CSVE1C"@ + seq!['_'] + "PSY"@, 2u8),
            ("CSV5C"@ + seq!['_'] + "119"@, 1u8),
            ("CSV8C"@ + seq!['_'] + "158"@, 3u8),
            ("CSV8C"@ + seq!['_'] + "159"@, 2u8),
            ("CS5bC"@ + seq!['_'] + "128"@, 1u8),
            ("CS5bC"@ + seq!['_'] + "049"@, 1u8),
            ("CSV1C"@ + seq!['_'] + "123"@, 4u8),
            ("CS6bC"@ + seq!['_'] + "028"@, 1u8),
            ("CSV6C"@ + seq!['_'] + "125"@, 1u8),
            ("CSV5C"@ + seq!['_'] + "075"@, 2u8),
            ("151C"@ + seq!['_'] + "004"@, 2u8),
            ("CSV5C"@ + seq!['_'] + "015"@, 1u8),
            ("CSVH1aC"@ + seq!['_'] + "023"@, 2u8),
            ("CS6.5C"@ + seq!['_'] + "023"@, 1u8),
            ("CS6bC"@ + seq!['_'] + "123"@, 1u8),
            ("CS6.5C"@ + seq!['_'] + "066"@, 1u8),
            ("CSV1C"@ + seq!['_'] + "112"@, 3u8),
            ("CSV8C"@ + seq!['_'] + "135"@, 1u8),
            ("CSV3C"@ + seq!['_'] + "123"@, 2u8),
            ("CSV1C"@ + seq!['_'] + "109"@, 1u8),
            ("CSV8C"@ + seq!['_'] + "173"@, 1u8),
            ("CSVH1C"@ + seq!['_'] + "045"@, 3u8),
            ("CSVH1C"@ + seq!['_'] + "035"@, 1u8),
            ("CSV8C"@ + seq!['_'] + "157"@, 4u8),
            ("CSV7C"@ + seq!['_'] + "177"@, 4u8),
        ],
{
    let mut deck = Deck::new(String::from_str("dragapult_charizard"), 0);
    deck.add_card(CardDefId::new("CS5bC", "052"), 1);
    deck.add_card(CardDefId::new("CSV6C", "114"), 2);
    deck.add_card(CardDefId::new("CSV7C", "185"), 1);
    deck.add_card(CardDefId::new("CSVH1C", "043"), 3);
    deck.add_card(CardDefId::new("CSVE1C", "FIR"), 5);
    deck.add_card(CardDefId::new("CS6.5C", "070"), 1);
    deck.add_card(CardDefId::new("CSV8C", "183"), 1);
    deck.add_card(CardDefId::new("CSVE1C", "PSY"), 2);
    deck.add_card(CardDefId::new("CSV5C", "119"), 1);
    deck.add_card(CardDefId::new("CSV8C", "158"), 3);
    deck.add_card(CardDefId::new("CSV8C", "159"), 2);
    deck.add_card(CardDefId::new("CS5bC", "128"), 1);
    deck.add_card(CardDefId::new("CS5bC", "049"), 1);
    deck.add_card(CardDefId::new("CSV1C", "123"), 4);
    deck.add_card(CardDefId::new("CS6bC", "028"), 1);
    deck.add_card(CardDefId::new("CSV6C", "125"), 1);
    deck.add_card(CardDefId::new("CSV5C", "075"), 2);
    deck.add_card(CardDefId::new("151C", "004"), 2);
    deck.add_card(CardDefId::new("CSV5C", "015"), 1);
    deck.add_card(CardDefId::new("CSVH1aC", "023"), 2);
    deck.add_card(CardDefId::new("CS6.5C", "023"), 1);
    deck.add_card(CardDefId::new("CS6bC", "123"), 1);
    deck.add_card(CardDefId::new("CS6.5C", "066"), 1);
    deck.add_card(CardDefId::new("CSV1C", "112"), 3);
    deck.add_card(CardDefId::new("CSV8C", "135"), 1);
    deck.add_card(CardDefId::new("CSV3C", "123"), 2);
    deck.add_card(CardDefId::new("CSV1C", "109"), 1);
    deck.add_card(CardDefId::new("CSV8C", "173"), 1);
    deck.add_card(CardDefId::new("CSVH1C", "045"), 3);
    deck.add_card(CardDefId::new("CSVH1C", "035"), 1);
    deck.add_card(CardDefId::new("CSV8C", "157"), 4);
    deck.add_card(CardDefId::new("CSV7C", "177"), 4);
    proof {
        assert(deck_list(deck.cards@) =~= seq![
            ("CS5bC"@ + seq!['_'] + "052"@, 1u8),
            ("CSV6C"@ + seq!['_'] + "114"@, 2u8),
            ("CSV7C"@ + seq!['_'] + "185"@, 1u8),
            ("CSVH1C"@ + seq!['_'] + "043"@, 3u8),
            ("CSVE1C"@ + seq!['_'] + "FIR"@, 5u8),
            ("CS6.5C"@ + seq!['_'] + "070"@, 1u8),
            ("CSV8C"@ + seq!['_'] + "183"@, 1u8),
            ("CSVE1C"@ + seq!['_'] + "PSY"@, 2u8),
            ("CSV5C"@ + seq!['_'] + "119"@, 1u8),
            ("CSV8C"@ + seq!['_'] + "158"@, 3u8),
            ("CSV8C"@ + seq!['_'] + "159"@, 2u8),
            ("CS5bC"@ + seq!['_'] + "128"@, 1u8),
            ("CS5bC"@ + seq!['_'] + "049"@, 1u8),
            ("CSV1C"@ + seq!['_'] + "123"@, 4u8),
            ("CS6bC"@ + seq!['_'] + "028"@, 1u8),
            ("CSV6C"@ + seq!['_'] + "125"@, 1u8),
            ("CSV5C"@ + seq!['_'] + "075"@, 2u8),
            ("151C"@ + seq!['_'] + "004"@, 2u8),
            ("CSV5C"@ + seq!['_'] + "015"@, 1u8),
            ("CSVH1aC"@ + seq!['_'] + "023"@, 2u8),
            ("CS6.5C"@ + seq!['_'] + "023"@, 1u8),
            ("CS6bC"@ + seq!['_'] + "123"@, 1u8),
            ("CS6.5C"@ + seq!['_'] + "066"@, 1u8),
            ("CSV1C"@ + seq!['_'] + "112"@, 3u8),
            ("CSV8C"@ + seq!['_'] + "135"@, 1u8),
            ("CSV3C"@ + seq!['_'] + "123"@, 2u8),
            ("CSV1C"@ + seq!['_'] + "109"@, 1u8),
            ("CSV8C"@ + seq!['_'] + "173"@, 1u8),
            ("CSVH1C"@ + seq!['_'] + "045"@, 3u8),
            ("CSVH1C"@ + seq!['_'] + "035"@, 1u8),
            ("CSV8C"@ + seq!['_'] + "157"@, 4u8),
            ("CSV7C"@ + seq!['_'] + "177"@, 4u8),
        ]);
    }
    deck
}

} // verus!
