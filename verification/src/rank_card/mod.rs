//! The rank card: what a member can customise on it, the fonts, toys and card
//! designs on offer, and the data a card is drawn from.
pub mod customizations;
pub mod colors;
pub mod font;
pub mod toy;
pub mod cards;
pub mod config;

use vstd::prelude::*;
use crate::rank_card::customizations::Customizations;

verus! {

/// What is put on a card.
#[derive(Debug, Clone, PartialEq, Eq)]
pub struct Context {
    /// Level of the user for display
    pub level: u64,
    /// Rank of the user for display
    pub rank: i64,
    /// Username
    pub name: String,
    /// Percentage of the way to the next level, out of 100
    pub percentage: u64,
    /// Current XP count
    pub current: u64,
    /// Total XP needed to complete this level
    pub needed: u64,
    /// Customization data
    pub customizations: Customizations,
    /// Base64-encoded PNG string.
    pub avatar: String,
}

} // verus!
