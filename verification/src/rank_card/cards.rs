//! The card designs on offer.
use vstd::prelude::*;
use crate::rank_card::customizations::{Color, Customizations};
use crate::text::str_equal;

verus! {

#[derive(Clone, Copy, Debug, PartialEq, Eq, Structural)]
pub enum Card {
    Classic,
}

impl Default for Card {
    fn default() -> (c: Self)
        ensures
            c == Card::Classic,
    {
        Card::Classic
    }
}

/// The name a design is stored by.
pub open spec fn card_name(c: Card) -> Seq<char> {
    match c {
        Card::Classic => "classic.svg"@,
    }
}

/// The design a stored name stands for.
pub open spec fn card_from_name(name: Seq<char>) -> Option<Card> {
    if name == "classic.svg"@ {
        Some(Card::Classic)
    } else {
        None
    }
}

/// Whether `c` holds the built-in choices of the classic design.
pub open spec fn is_classic_default(c: Customizations) -> bool {
    &&& c.username@ == (255u8, 255u8, 255u8)
    &&& c.rank@ == (255u8, 255u8, 255u8)
    &&& c.level@ == (143u8, 202u8, 92u8)
    &&& c.border@ == (133u8, 79u8, 43u8)
    &&& c.background@ == (97u8, 55u8, 31u8)
    &&& c.progress_foreground@ == (71u8, 122u8, 30u8)
    &&& c.progress_background@ == (143u8, 202u8, 92u8)
    &&& c.background_xp_count@ == (0u8, 0u8, 0u8)
    &&& c.foreground_xp_count@ == (255u8, 255u8, 255u8)
    &&& c.font@ == "Mojang"@
    &&& c.toy is None
    &&& c.internal_name@ == card_name(Card::Classic)
}

impl Card {
    /// The name the design is stored by.
    pub fn name(&self) -> (s: &'static str)
        ensures
            s@ == card_name(*self),
    {
        match self {
            Card::Classic => "classic.svg",
        }
    }

    /// The design stored as `data`, if it names one.
    pub fn from_name(data: &str) -> (r: Option<Self>)
        ensures
            r == card_from_name(data@),
    {
        if str_equal(data, "classic.svg") {
            Some(Card::Classic)
        } else {
            None
        }
    }

    /// What a card of this design looks like before any customisation.
    pub fn default_customizations(&self) -> (c: Customizations)
        ensures
            match self {
                Card::Classic => is_classic_default(c),
            },
    {
        match self {
            Card::Classic => Customizations {
                username: Color::new(255, 255, 255),
                rank: Color::new(255, 255, 255),
                level: Color::new(143, 202, 92),
                border: Color::new(133, 79, 43),
                background: Color::new(97, 55, 31),
                progress_foreground: Color::new(71, 122, 30),
                progress_background: Color::new(143, 202, 92),
                background_xp_count: Color::new(0, 0, 0),
                foreground_xp_count: Color::new(255, 255, 255),
                font: "Mojang".to_string(),
                toy: None,
                internal_name: "classic.svg".to_string(),
            },
        }
    }
}

/// A design's stored name reads back as that design.
pub proof fn law_card_name_roundtrip(c: Card)
    ensures
        card_from_name(card_name(c)) == Some(c),
{
}

} // verus!
