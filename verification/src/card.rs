//! Cards and deck construction: the closed suit and value enumerations, the
//! three deck-builder functions, and the image-path mapping used by the
//! rendering layer.

use vstd::prelude::*;
use vstd::string::StringExecFns;
use crate::text::{lower_seq, str_eq, to_ascii_lower};

verus! {

/// One playing card: a suit and a value, both drawn from closed enumerations
/// of names (see [`valid_suit`] and [`valid_value`]). Immutable once built;
/// equality and printing go by the two fields.
#[derive(Debug)]
pub struct Card {
    pub suit: String,
    pub value: String,
}

/// The suit names, in the order the builders walk them.
pub open spec fn suit_name(i: int) -> Seq<char> {
    if i == 0 {
        "Spades"@
    } else if i == 1 {
        "Hearts"@
    } else if i == 2 {
        "Clubs"@
    } else {
        "Diamonds"@
    }
}

/// The numeric card values, in builder order: "2" through "9".
/// The range deliberately stops short of "10", reproducing the deck the
/// builders have always produced.
pub open spec fn number_value(j: int) -> Seq<char> {
    if j == 0 {
        "2"@
    } else if j == 1 {
        "3"@
    } else if j == 2 {
        "4"@
    } else if j == 3 {
        "5"@
    } else if j == 4 {
        "6"@
    } else if j == 5 {
        "7"@
    } else if j == 6 {
        "8"@
    } else {
        "9"@
    }
}

/// The face card values, in builder order: Ace, King, Queen, King.
/// "King" appears twice and "Jack" not at all, reproducing the deck the
/// builders have always produced.
pub open spec fn face_value(j: int) -> Seq<char> {
    if j == 0 {
        "Ace"@
    } else if j == 1 {
        "King"@
    } else if j == 2 {
        "Queen"@
    } else {
        "King"@
    }
}

/// The closed enumeration of suit names.
pub open spec fn valid_suit(v: Seq<char>) -> bool {
    ||| v == "Spades"@
    ||| v == "Hearts"@
    ||| v == "Clubs"@
    ||| v == "Diamonds"@
}

/// The closed enumeration of card values: "2".."10" and the four court names.
pub open spec fn valid_value(v: Seq<char>) -> bool {
    ||| v == "2"@
    ||| v == "3"@
    ||| v == "4"@
    ||| v == "5"@
    ||| v == "6"@
    ||| v == "7"@
    ||| v == "8"@
    ||| v == "9"@
    ||| v == "10"@
    ||| v == "Jack"@
    ||| v == "Queen"@
    ||| v == "King"@
    ||| v == "Ace"@
}

/// The sequence produced by `build_number_cards`, card by card: position `k`
/// holds suit `k / 8` and numeric value `k % 8`.
pub open spec fn is_number_deck(s: Seq<Card>) -> bool {
    &&& s.len() == 32
    &&& forall|k: int|
        0 <= k < 32 ==> (#[trigger] s[k]).suit@ == suit_name(k / 8) && s[k].value@ == number_value(
            k % 8,
        )
}

/// The sequence produced by `build_face_cards`, card by card: position `k`
/// holds suit `k / 4` and face value `k % 4`.
pub open spec fn is_face_deck(s: Seq<Card>) -> bool {
    &&& s.len() == 16
    &&& forall|k: int|
        0 <= k < 16 ==> (#[trigger] s[k]).suit@ == suit_name(k / 4) && s[k].value@ == face_value(
            k % 4,
        )
}

/// The sequence produced by `build_complete_deck`: all 32 number cards first,
/// then all 16 face cards, 48 cards in all.
pub open spec fn is_complete_deck(s: Seq<Card>) -> bool {
    &&& s.len() == 48
    &&& is_number_deck(s.subrange(0, 32))
    &&& is_face_deck(s.subrange(32, 48))
}

/// The word spelled for a card value in an image file name; an unmapped
/// value yields the empty segment rather than an error (the silent
/// degradation the rendering layer expects).
pub open spec fn rank_word(v: Seq<char>) -> Seq<char> {
    if v == "2"@ {
        "two"@
    } else if v == "3"@ {
        "three"@
    } else if v == "4"@ {
        "four"@
    } else if v == "5"@ {
        "five"@
    } else if v == "6"@ {
        "six"@
    } else if v == "7"@ {
        "seven"@
    } else if v == "8"@ {
        "eight"@
    } else if v == "9"@ {
        "nine"@
    } else if v == "10"@ {
        "ten"@
    } else if v == "Jack"@ {
        "jack"@
    } else if v == "Queen"@ {
        "queen"@
    } else if v == "King"@ {
        "king"@
    } else if v == "Ace"@ {
        "ace"@
    } else {
        Seq::<char>::empty()
    }
}

/// The relative path of a card's image file:
/// `card_images/{rank word}_{suit lower-cased}.jpg`.
pub open spec fn spec_image_path(suit: Seq<char>, value: Seq<char>) -> Seq<char> {
    "card_images/"@ + rank_word(value) + "_"@ + lower_seq(suit) + ".jpg"@
}

fn suit_str(i: usize) -> (r: &'static str)
    requires
        i < 4,
    ensures
        r@ == suit_name(i as int),
{
    if i == 0 {
        "Spades"
    } else if i == 1 {
        "Hearts"
    } else if i == 2 {
        "Clubs"
    } else {
        "Diamonds"
    }
}

fn number_str(j: usize) -> (r: &'static str)
    requires
        j < 8,
    ensures
        r@ == number_value(j as int),
{
    if j == 0 {
        "2"
    } else if j == 1 {
        "3"
    } else if j == 2 {
        "4"
    } else if j == 3 {
        "5"
    } else if j == 4 {
        "6"
    } else if j == 5 {
        "7"
    } else if j == 6 {
        "8"
    } else {
        "9"
    }
}

fn face_str(j: usize) -> (r: &'static str)
    requires
        j < 4,
    ensures
        r@ == face_value(j as int),
{
    if j == 0 {
        "Ace"
    } else if j == 1 {
        "King"
    } else if j == 2 {
        "Queen"
    } else {
        "King"
    }
}

fn rank_word_str(value: &str) -> (r: &'static str)
    ensures
        r@ == rank_word(value@),
{
    let r: &'static str = if str_eq(value, "2") {
        "two"
    } else if str_eq(value, "3") {
        "three"
    } else if str_eq(value, "4") {
        "four"
    } else if str_eq(value, "5") {
        "five"
    } else if str_eq(value, "6") {
        "six"
    } else if str_eq(value, "7") {
        "seven"
    } else if str_eq(value, "8") {
        "eight"
    } else if str_eq(value, "9") {
        "nine"
    } else if str_eq(value, "10") {
        "ten"
    } else if str_eq(value, "Jack") {
        "jack"
    } else if str_eq(value, "Queen") {
        "queen"
    } else if str_eq(value, "King") {
        "king"
    } else if str_eq(value, "Ace") {
        "ace"
    } else {
        ""
    };
    proof {
        reveal_strlit("");
        assert(""@ =~= Seq::<char>::empty());
    }
    r
}

impl Clone for Card {
    /// A clone keeps both fields.
    fn clone(&self) -> (c: Self)
        ensures
            c == *self,
    {
        Card { suit: self.suit.clone(), value: self.value.clone() }
    }
}

impl Card {
    /// The card's printed form: `Suit: {suit}, Value: {value}`.
    pub open spec fn spec_repr(self) -> Seq<char> {
        "Suit: "@ + self.suit@ + ", Value: "@ + self.value@
    }

    /// Build a card from a suit name and a value name.
    pub fn new(cardsuit: String, cardvalue: String) -> (c: Card)
        ensures
            c.suit@ == cardsuit@,
            c.value@ == cardvalue@,
    {
        Card { suit: cardsuit, value: cardvalue }
    }

    /// A copy of the card's value.
    pub fn get_value(&self) -> (v: String)
        ensures
            v@ == self.value@,
    {
        self.value.clone()
    }

    /// A copy of the card's suit.
    pub fn get_suit(&self) -> (s: String)
        ensures
            s@ == self.suit@,
    {
        self.suit.clone()
    }

    /// The relative path of this card's image file for rendering:
    /// `card_images/{rank word}_{suit lower-cased}.jpg`. A value outside the
    /// closed enumeration yields an empty rank-word segment rather than an
    /// error.
    pub fn get_image_path(&self) -> (r: String)
        ensures
            r@ == spec_image_path(self.suit@, self.value@),
    {
        let rank = rank_word_str(self.value.as_str());
        let lower = to_ascii_lower(self.suit.as_str());
        let mut path = String::from_str("card_images/");
        path.append(rank);
        path.append("_");
        path.append(lower.as_str());
        path.append(".jpg");
        path
    }

    /// The card's human-readable representation.
    pub fn __repr__(&self) -> (r: String)
        ensures
            r@ == self.spec_repr(),
    {
        let mut r = String::from_str("Suit: ");
        r.append(self.suit.as_str());
        r.append(", Value: ");
        r.append(self.value.as_str());
        r
    }
}

/// Build the 32 number cards: for each suit in order, one card per numeric
/// value "2" through "9" (the range stops short of "10").
pub fn build_number_cards() -> (cards: Vec<Card>)
    ensures
        is_number_deck(cards@),
{
    let mut cards: Vec<Card> = Vec::new();
    let mut k: usize = 0;
    while k < 32
        invariant
            k <= 32,
            cards@.len() == k,
            forall|m: int|
                0 <= m < k ==> (#[trigger] cards@[m]).suit@ == suit_name(m / 8)
                    && cards@[m].value@ == number_value(m % 8),
        decreases 32 - k,
    {
        let card = Card {
            suit: String::from_str(suit_str(k / 8)),
            value: String::from_str(number_str(k % 8)),
        };
        cards.push(card);
        k += 1;
    }
    cards
}

/// Build the 16 face cards: for each suit in order, one card per entry of the
/// face list Ace, King, Queen, King (two Kings, no Jack).
pub fn build_face_cards() -> (cards: Vec<Card>)
    ensures
        is_face_deck(cards@),
{
    let mut cards: Vec<Card> = Vec::new();
    let mut k: usize = 0;
    while k < 16
        invariant
            k <= 16,
            cards@.len() == k,
            forall|m: int|
                0 <= m < k ==> (#[trigger] cards@[m]).suit@ == suit_name(m / 4)
                    && cards@[m].value@ == face_value(m % 4),
        decreases 16 - k,
    {
        let card = Card {
            suit: String::from_str(suit_str(k / 4)),
            value: String::from_str(face_str(k % 4)),
        };
        cards.push(card);
        k += 1;
    }
    cards
}

/// Build the full 48-card draw pool: the 32 number cards followed by the 16
/// face cards, in builder order.
pub fn build_complete_deck() -> (cards: Vec<Card>)
    ensures
        is_complete_deck(cards@),
{
    let mut number_cards = build_number_cards();
    let mut face_cards = build_face_cards();
    let ghost num0 = number_cards@;
    let ghost face0 = face_cards@;
    number_cards.append(&mut face_cards);
    proof {
        assert(number_cards@.subrange(0, 32) =~= num0);
        assert(number_cards@.subrange(32, 48) =~= face0);
    }
    number_cards
}

/// For every suit, the number cards hold exactly one card of that suit per
/// numeric value "2" through "9" — it sits at position `8·i + j` — and no
/// card at all carries the value "10".
pub proof fn lemma_number_cards_exact(s: Seq<Card>, i: int, j: int)
    requires
        is_number_deck(s),
        0 <= i < 4,
        0 <= j < 8,
    ensures
        forall|k: int|
            0 <= k < s.len() ==> (((#[trigger] s[k]).suit@ == suit_name(i) && s[k].value@
                == number_value(j)) <==> k == i * 8 + j),
        forall|k: int| 0 <= k < s.len() ==> (#[trigger] s[k]).value@ != "10"@,
{
    reveal_strlit("Spades");
    reveal_strlit("Hearts");
    reveal_strlit("Clubs");
    reveal_strlit("Diamonds");
    reveal_strlit("2");
    reveal_strlit("3");
    reveal_strlit("4");
    reveal_strlit("5");
    reveal_strlit("6");
    reveal_strlit("7");
    reveal_strlit("8");
    reveal_strlit("9");
    reveal_strlit("10");
    assert("Spades"@.len() == 6 && "Hearts"@.len() == 6 && "Clubs"@.len() == 5 && "Diamonds"@.len()
        == 8);
    assert("Spades"@[0] == 'S' && "Hearts"@[0] == 'H');
    assert("2"@[0] == '2' && "3"@[0] == '3' && "4"@[0] == '4' && "5"@[0] == '5' && "6"@[0] == '6'
        && "7"@[0] == '7' && "8"@[0] == '8' && "9"@[0] == '9');
    assert forall|k: int| 0 <= k < s.len() implies (((#[trigger] s[k]).suit@ == suit_name(i)
        && s[k].value@ == number_value(j)) <==> k == i * 8 + j) by {
        let si = k / 8;
        let vj = k % 8;
        assert(s[k].suit@ == suit_name(si) && s[k].value@ == number_value(vj));
        assert(0 <= si < 4 && 0 <= vj < 8);
        if s[k].suit@ == suit_name(i) && s[k].value@ == number_value(j) {
            assert(si == i && vj == j);
            assert(k == 8 * si + vj);
        }
        if k == i * 8 + j {
            assert(k / 8 == i && k % 8 == j);
        }
    };
    assert forall|k: int| 0 <= k < s.len() implies (#[trigger] s[k]).value@ != "10"@ by {
        assert(s[k].value@ == number_value(k % 8));
        assert(number_value(k % 8).len() == 1 && "10"@.len() == 2);
    };
}

/// For every suit, the face cards hold two cards valued "King" — at
/// positions `4·i + 1` and `4·i + 3` — one "Ace", one "Queen", and no card
/// at all valued "Jack".
pub proof fn lemma_face_cards_exact(s: Seq<Card>, i: int)
    requires
        is_face_deck(s),
        0 <= i < 4,
    ensures
        forall|k: int|
            0 <= k < s.len() ==> (((#[trigger] s[k]).suit@ == suit_name(i) && s[k].value@
                == "King"@) <==> (k == i * 4 + 1 || k == i * 4 + 3)),
        forall|k: int|
            0 <= k < s.len() ==> (((#[trigger] s[k]).suit@ == suit_name(i) && s[k].value@
                == "Ace"@) <==> k == i * 4),
        forall|k: int|
            0 <= k < s.len() ==> (((#[trigger] s[k]).suit@ == suit_name(i) && s[k].value@
                == "Queen"@) <==> k == i * 4 + 2),
        forall|k: int| 0 <= k < s.len() ==> (#[trigger] s[k]).value@ != "Jack"@,
{
    reveal_strlit("Spades");
    reveal_strlit("Hearts");
    reveal_strlit("Clubs");
    reveal_strlit("Diamonds");
    reveal_strlit("Ace");
    reveal_strlit("King");
    reveal_strlit("Queen");
    reveal_strlit("Jack");
    assert("Spades"@.len() == 6 && "Hearts"@.len() == 6 && "Clubs"@.len() == 5 && "Diamonds"@.len()
        == 8);
    assert("Spades"@[0] == 'S' && "Hearts"@[0] == 'H');
    assert("Ace"@.len() == 3 && "King"@.len() == 4 && "Queen"@.len() == 5 && "Jack"@.len() == 4);
    assert("King"@[0] == 'K' && "Jack"@[0] == 'J');
    assert forall|k: int| 0 <= k < s.len() implies {
        &&& (((#[trigger] s[k]).suit@ == suit_name(i) && s[k].value@ == "King"@) <==> (k == i * 4
            + 1 || k == i * 4 + 3))
        &&& ((s[k].suit@ == suit_name(i) && s[k].value@ == "Ace"@) <==> k == i * 4)
        &&& ((s[k].suit@ == suit_name(i) && s[k].value@ == "Queen"@) <==> k == i * 4 + 2)
        &&& s[k].value@ != "Jack"@
    } by {
        let si = k / 4;
        let vj = k % 4;
        assert(s[k].suit@ == suit_name(si) && s[k].value@ == face_value(vj));
        assert(0 <= si < 4 && 0 <= vj < 4);
        assert(k == 4 * si + vj);
        if s[k].suit@ == suit_name(i) {
            assert(si == i);
        }
        if k == i * 4 || k == i * 4 + 1 || k == i * 4 + 2 || k == i * 4 + 3 {
            assert(k / 4 == i);
        }
    };
}

/// The rank-word table, spelled out: for every value of the closed
/// enumeration, the word that names its image file.
pub proof fn lemma_rank_word_table()
    ensures
        rank_word("2"@) == "two"@,
        rank_word("3"@) == "three"@,
        rank_word("4"@) == "four"@,
        rank_word("5"@) == "five"@,
        rank_word("6"@) == "six"@,
        rank_word("7"@) == "seven"@,
        rank_word("8"@) == "eight"@,
        rank_word("9"@) == "nine"@,
        rank_word("10"@) == "ten"@,
        rank_word("Jack"@) == "jack"@,
        rank_word("Queen"@) == "queen"@,
        rank_word("King"@) == "king"@,
        rank_word("Ace"@) == "ace"@,
{
    reveal_strlit("2");
    reveal_strlit("3");
    reveal_strlit("4");
    reveal_strlit("5");
    reveal_strlit("6");
    reveal_strlit("7");
    reveal_strlit("8");
    reveal_strlit("9");
    reveal_strlit("10");
    reveal_strlit("Jack");
    reveal_strlit("Queen");
    reveal_strlit("King");
    reveal_strlit("Ace");
    assert("2"@.len() == 1 && "3"@.len() == 1 && "4"@.len() == 1 && "5"@.len() == 1 && "6"@.len()
        == 1 && "7"@.len() == 1 && "8"@.len() == 1 && "9"@.len() == 1);
    assert("10"@.len() == 2 && "Jack"@.len() == 4 && "Queen"@.len() == 5 && "King"@.len() == 4
        && "Ace"@.len() == 3);
    assert("2"@[0] == '2' && "3"@[0] == '3' && "4"@[0] == '4' && "5"@[0] == '5' && "6"@[0] == '6'
        && "7"@[0] == '7' && "8"@[0] == '8' && "9"@[0] == '9');
    assert("King"@[0] == 'K' && "Jack"@[0] == 'J');
}

/// Every card of a freshly built complete deck carries a suit and a value of
/// the closed enumerations: the builders never step outside them.
pub proof fn lemma_complete_deck_valid(s: Seq<Card>)
    requires
        is_complete_deck(s),
    ensures
        forall|k: int|
            0 <= k < s.len() ==> valid_suit((#[trigger] s[k]).suit@) && valid_value(s[k].value@),
{
    assert forall|k: int| 0 <= k < s.len() implies valid_suit((#[trigger] s[k]).suit@)
        && valid_value(s[k].value@) by {
        if k < 32 {
            assert(s[k] == s.subrange(0, 32)[k]);
        } else {
            assert(s[k] == s.subrange(32, 48)[k - 32]);
        }
    };
}

/// The complete deck is determined: any two sequences that satisfy
/// `is_complete_deck` agree, position for position, on suit and value. The
/// builders are pure, so repeated calls, in any order, yield the same 48
/// cards.
pub proof fn lemma_complete_deck_determined(s1: Seq<Card>, s2: Seq<Card>)
    requires
        is_complete_deck(s1),
        is_complete_deck(s2),
    ensures
        s1.len() == s2.len(),
        forall|k: int|
            0 <= k < s1.len() ==> (#[trigger] s1[k]).suit@ == s2[k].suit@ && s1[k].value@
                == s2[k].value@,
{
    assert forall|k: int| 0 <= k < s1.len() implies (#[trigger] s1[k]).suit@ == s2[k].suit@
        && s1[k].value@ == s2[k].value@ by {
        if k < 32 {
            assert(s1[k] == s1.subrange(0, 32)[k]);
            assert(s2[k] == s2.subrange(0, 32)[k]);
        } else {
            assert(s1[k] == s1.subrange(32, 48)[k - 32]);
            assert(s2[k] == s2.subrange(32, 48)[k - 32]);
        }
    };
}

} // verus!
