//! The manifest of the card resources: fonts, toys and card designs.
use vstd::prelude::*;
use crate::rank_card::customizations::Customizations;

verus! {

#[derive(Debug, Clone, PartialEq, Eq)]
pub struct Config {
    pub defaults: Defaults,
    pub fonts: Vec<ConfigItem>,
    pub toys: Vec<ConfigItem>,
    pub cards: Vec<CardItem>,
}

#[derive(Debug, Clone, PartialEq, Eq)]
pub struct Defaults {
    pub card: String,
}

/// A font or a toy: the file it is read from (a path), and its names.
#[derive(Debug, Clone, PartialEq, Eq)]
pub struct ConfigItem {
    pub file: String,
    pub internal_name: String,
    pub display_name: String,
}

/// A card design: its template file (a path), its name, and its defaults.
#[derive(Debug, Clone, PartialEq, Eq)]
pub struct CardItem {
    pub file: String,
    pub display_name: String,
    pub customizations: Customizations,
}

/// Something offered to members under a shown name and a stored name.
pub trait NameableItem {
    fn display_name(&self) -> &str;

    fn internal_name(&self) -> &str;
}

impl NameableItem for ConfigItem {
    fn display_name(&self) -> (s: &str)
        ensures
            s@ == self.display_name@,
    {
        self.display_name.as_str()
    }

    fn internal_name(&self) -> (s: &str)
        ensures
            s@ == self.internal_name@,
    {
        self.internal_name.as_str()
    }
}

impl NameableItem for CardItem {
    fn display_name(&self) -> (s: &str)
        ensures
            s@ == self.display_name@,
    {
        self.display_name.as_str()
    }

    /// A design is stored by the name in its customisations.
    fn internal_name(&self) -> (s: &str)
        ensures
            s@ == self.customizations.internal_name@,
    {
        self.customizations.internal_name.as_str()
    }
}

} // verus!
