//! Payment cards, of which only the last digits are kept.

use vstd::prelude::*;
use vstd::std_specs::cmp::{PartialEqSpec, PartialEqSpecImpl};

verus! {

/// How many characters of a card number are kept.
pub const CARD_DIGITS_TO_SAVE: usize = 4;

/// The end of a card number that a card keeps: its last
/// [`CARD_DIGITS_TO_SAVE`] characters.
pub open spec fn last_digits(number: Seq<char>) -> Seq<char>
    recommends
        number.len() >= CARD_DIGITS_TO_SAVE,
{
    number.subrange(number.len() - CARD_DIGITS_TO_SAVE, number.len() as int)
}

/// What a card holds, as mathematical text.
pub struct CardView {
    /// The kept end of the card number.
    pub number: Seq<char>,
    /// The name of the card's holder.
    pub holder: Seq<char>,
    /// When the card expires, in whatever form it was given.
    pub expires_at: Seq<char>,
    /// The card's verification value.
    pub cvv: Seq<char>,
}

/// What a card made of these four texts holds: the kept end of the number, and
/// the other three as they are.
pub open spec fn card_of(
    number: Seq<char>,
    holder: Seq<char>,
    expires_at: Seq<char>,
    cvv: Seq<char>,
) -> CardView {
    CardView { number: last_digits(number), holder: holder, expires_at: expires_at, cvv: cvv }
}

/// A payment card. The full number is never stored: a card keeps the last
/// [`CARD_DIGITS_TO_SAVE`] characters of it and nothing else.
#[derive(Debug)]
pub struct Card {
    number: String,
    holder: String,
    expires_at: String,
    cvv: String,
}

impl View for Card {
    type V = CardView;

    closed spec fn view(&self) -> CardView {
        CardView {
            number: self.number@,
            holder: self.holder@,
            expires_at: self.expires_at@,
            cvv: self.cvv@,
        }
    }
}

impl Card {
    /// Every card holds exactly the kept end of a number.
    #[verifier::type_invariant]
    pub open spec fn masked(self) -> bool {
        self@.number.len() == CARD_DIGITS_TO_SAVE
    }

    /// Makes a card from the full card number, keeping the last
    /// [`CARD_DIGITS_TO_SAVE`] characters of the number and the other three
    /// texts as they are. The number has at least that many characters.
    pub fn new(number: String, holder: String, expires_at: String, cvv: String) -> (card: Card)
        requires
            number@.len() >= CARD_DIGITS_TO_SAVE,
        ensures
            card@ == card_of(number@, holder@, expires_at@, cvv@),
            card@.number.len() == CARD_DIGITS_TO_SAVE,
            number@.len() == CARD_DIGITS_TO_SAVE ==> card@.number == number@,
    {
        let length = number.as_str().unicode_len();
        let kept = number.as_str().substring_char(length - CARD_DIGITS_TO_SAVE, length).to_owned();
        Card { number: kept, holder, expires_at, cvv }
    }

    /// The kept end of the card number.
    pub fn number(&self) -> (number: &str)
        ensures
            number@ == self@.number,
            number@.len() == CARD_DIGITS_TO_SAVE,
    {
        proof {
            use_type_invariant(self);
        }
        self.number.as_str()
    }

    /// The name of the card's holder.
    pub fn holder(&self) -> (holder: &str)
        ensures
            holder@ == self@.holder,
    {
        self.holder.as_str()
    }

    /// When the card expires.
    pub fn expires_at(&self) -> (expires_at: &str)
        ensures
            expires_at@ == self@.expires_at,
    {
        self.expires_at.as_str()
    }

    /// The card's verification value.
    pub fn cvv(&self) -> (cvv: &str)
        ensures
            cvv@ == self@.cvv,
    {
        self.cvv.as_str()
    }
}

impl Clone for Card {
    /// A card that holds the same four texts.
    fn clone(&self) -> (card: Card)
        ensures
            card@ == self@,
    {
        proof {
            use_type_invariant(self);
        }
        Card {
            number: self.number.clone(),
            holder: self.holder.clone(),
            expires_at: self.expires_at.clone(),
            cvv: self.cvv.clone(),
        }
    }
}

impl PartialEq for Card {
    /// Whether the two cards hold the same four texts.
    fn eq(&self, other: &Card) -> (equal: bool) {
        self.number == other.number && self.holder == other.holder
            && self.expires_at == other.expires_at && self.cvv == other.cvv
    }
}

impl PartialEqSpecImpl for Card {
    open spec fn obeys_eq_spec() -> bool {
        true
    }

    open spec fn eq_spec(&self, other: &Card) -> bool {
        self@ == other@
    }
}

/// A card number of exactly [`CARD_DIGITS_TO_SAVE`] characters is kept whole.
pub proof fn lemma_short_number_kept_whole(number: Seq<char>)
    requires
        number.len() == CARD_DIGITS_TO_SAVE,
    ensures
        last_digits(number) == number,
{
}

/// Making a card twice of the same four texts gives two cards that `==`
/// finds equal.
pub proof fn lemma_same_texts_same_card(
    first: Card,
    second: Card,
    number: Seq<char>,
    holder: Seq<char>,
    expires_at: Seq<char>,
    cvv: Seq<char>,
)
    requires
        first@ == card_of(number, holder, expires_at, cvv),
        second@ == card_of(number, holder, expires_at, cvv),
    ensures
        PartialEqSpec::eq_spec(&first, &second),
{
}

} // verus!
