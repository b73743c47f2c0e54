//! The data the older card is drawn from.
use vstd::prelude::*;
use crate::slash::colors::Colors;

verus! {

pub struct Context {
    pub level: u64,
    pub rank: i64,
    pub name: String,
    pub discriminator: String,
    pub width: u64,
    pub current: u64,
    pub needed: u64,
    pub font: String,
    pub colors: Colors,
    pub icon: String,
}

} // verus!
