//! The options of the bot's slash commands, as plain values: users and roles
//! by their ids, colours by the text given for them.
use vstd::prelude::*;
use crate::slash::toy::Toy;

verus! {

/// `/leaderboard`: see the leaderboard for this server.
pub struct LeaderboardCommand;

/// `/rank`: check someone's rank and level.
pub struct RankCommand {
    /// User to check level of
    pub user: Option<u64>,
}

/// `/toy`: pick a toy image to use in your card.
pub struct ToyCommand {
    /// What toy image to use in the card
    pub toy_image: Toy,
}

/// `/card reset`: reset your card to defaults.
pub struct CardCommandReset;

/// `/card fetch`: get your current card settings, including defaults.
pub struct CardCommandFetch {
    /// User to fetch settings of
    pub user: Option<u64>,
}

/// `/card edit`: edit card colors by specifying hex codes for values you would
/// like to change.
pub struct CardCommandEdit {
    pub background: Option<String>,
    pub border: Option<String>,
    pub important: Option<String>,
    pub secondary: Option<String>,
    pub rank: Option<String>,
    pub level: Option<String>,
    pub progress_foreground: Option<String>,
    pub progress_background: Option<String>,
    pub font: Option<CardCommandEditFont>,
    pub toy_image: Option<CardCommandEditToy>,
}

#[derive(Clone, Copy, Debug, PartialEq, Eq, Structural)]
pub enum CardCommandEditFont {
    Mojang,
    Roboto,
    JetBrainsMono,
    MontserratAlt1,
}

/// The value a font option stands for.
pub open spec fn font_value(f: CardCommandEditFont) -> Seq<char> {
    match f {
        CardCommandEditFont::Mojang => "Mojang"@,
        CardCommandEditFont::Roboto => "Roboto"@,
        CardCommandEditFont::JetBrainsMono => "JetBrains Mono"@,
        CardCommandEditFont::MontserratAlt1 => "Montserrat-Alt1"@,
    }
}

impl CardCommandEditFont {
    /// The value the option stands for.
    pub fn value(&self) -> (s: &'static str)
        ensures
            s@ == font_value(*self),
    {
        match self {
            CardCommandEditFont::Mojang => "Mojang",
            CardCommandEditFont::Roboto => "Roboto",
            CardCommandEditFont::JetBrainsMono => "JetBrains Mono",
            CardCommandEditFont::MontserratAlt1 => "Montserrat-Alt1",
        }
    }
}

#[derive(Clone, Copy, Debug, PartialEq, Eq, Hash, Structural)]
pub enum CardCommandEditToy {
    NoToy,
    Airplane,
    Bee,
    Biscuit,
    Chicken,
    Cow,
    Fox,
    GrassBlock,
    Parrot,
    Pickaxe,
    Pig,
    PotionBlue,
    PotionPurple,
    PotionRed,
    Sheep,
    SteveHeart,
    Tree,
}

/// The value a toy option stands for: the toy's file name, or `None`.
pub open spec fn edit_toy_value(t: CardCommandEditToy) -> Seq<char> {
    match t {
        CardCommandEditToy::NoToy => "None"@,
        CardCommandEditToy::Airplane => "airplane.png"@,
        CardCommandEditToy::Bee => "bee.png"@,
        CardCommandEditToy::Biscuit => "biscuit.png"@,
        CardCommandEditToy::Chicken => "chicken.png"@,
        CardCommandEditToy::Cow => "cow.png"@,
        CardCommandEditToy::Fox => "fox.png"@,
        CardCommandEditToy::GrassBlock => "grassblock.png"@,
        CardCommandEditToy::Parrot => "parrot.png"@,
        CardCommandEditToy::Pickaxe => "pickaxe.png"@,
        CardCommandEditToy::Pig => "pig.png"@,
        CardCommandEditToy::PotionBlue => "potion_blue.png"@,
        CardCommandEditToy::PotionPurple => "potion_purple.png"@,
        CardCommandEditToy::PotionRed => "potion_red.png"@,
        CardCommandEditToy::Sheep => "sheep.png"@,
        CardCommandEditToy::SteveHeart => "steveheart.png"@,
        CardCommandEditToy::Tree => "tree.png"@,
    }
}

impl CardCommandEditToy {
    /// The value the option stands for.
    pub fn value(&self) -> (s: &'static str)
        ensures
            s@ == edit_toy_value(*self),
    {
        match self {
            CardCommandEditToy::NoToy => "None",
            CardCommandEditToy::Airplane => "airplane.png",
            CardCommandEditToy::Bee => "bee.png",
            CardCommandEditToy::Biscuit => "biscuit.png",
            CardCommandEditToy::Chicken => "chicken.png",
            CardCommandEditToy::Cow => "cow.png",
            CardCommandEditToy::Fox => "fox.png",
            CardCommandEditToy::GrassBlock => "grassblock.png",
            CardCommandEditToy::Parrot => "parrot.png",
            CardCommandEditToy::Pickaxe => "pickaxe.png",
            CardCommandEditToy::Pig => "pig.png",
            CardCommandEditToy::PotionBlue => "potion_blue.png",
            CardCommandEditToy::PotionPurple => "potion_purple.png",
            CardCommandEditToy::PotionRed => "potion_red.png",
            CardCommandEditToy::Sheep => "sheep.png",
            CardCommandEditToy::SteveHeart => "steveheart.png",
            CardCommandEditToy::Tree => "tree.png",
        }
    }
}

/// The toy to store for an edit: nothing when none was chosen, or when the
/// choice was `None`.
pub open spec fn spec_stored_toy(choice: Option<CardCommandEditToy>) -> Option<Seq<char>> {
    match choice {
        None => None,
        Some(CardCommandEditToy::NoToy) => None,
        Some(t) => Some(edit_toy_value(t)),
    }
}

impl CardCommandEdit {
    /// The toy to store for this edit.
    pub fn stored_toy(&self) -> (r: Option<&'static str>)
        ensures
            match r {
                None => spec_stored_toy(self.toy_image) is None,
                Some(s) => spec_stored_toy(self.toy_image) == Some(s@),
            },
    {
        match self.toy_image {
            None => None,
            Some(CardCommandEditToy::NoToy) => None,
            Some(t) => Some(t.value()),
        }
    }

    /// The font to store for this edit.
    pub fn stored_font(&self) -> (r: Option<&'static str>)
        ensures
            match r {
                None => self.font is None,
                Some(s) => self.font matches Some(f) && s@ == font_value(f),
            },
    {
        match self.font {
            None => None,
            Some(f) => Some(f.value()),
        }
    }
}

/// `/card`: set hex codes for different color schemes in your rank card.
pub enum CardCommand {
    Reset(CardCommandReset),
    Fetch(CardCommandFetch),
    Edit(CardCommandEdit),
}

/// `/xp rewards add`: add a new leveling reward.
pub struct XpCommandRewardsAdd {
    /// What level to grant the role reward at
    pub level: i64,
    /// What role to grant
    pub role: u64,
}

/// `/xp rewards remove`: remove a leveling reward.
pub struct XpCommandRewardsRemove {
    /// What level of role reward to remove
    pub level: Option<i64>,
    /// What role reward to remove
    pub role: Option<u64>,
}

/// `/xp rewards list`: show a list of leveling rewards.
pub struct XpCommandRewardsList;

/// `/xp rewards`: manage automatic role rewards.
pub enum XpCommandRewards {
    Add(XpCommandRewardsAdd),
    Remove(XpCommandRewardsRemove),
    List(XpCommandRewardsList),
}

/// `/xp experience add`: add experience points to a user.
pub struct XpCommandExperienceAdd {
    /// User to add experience to
    pub user: u64,
    /// Amount of experience to add
    pub amount: i64,
}

/// `/xp experience remove`: remove experience points from a user.
pub struct XpCommandExperienceRemove {
    /// User to remove experience from
    pub user: u64,
    /// Amount of experience to remove
    pub amount: i64,
}

/// `/xp experience import`: import a MEE6 levels json file.
pub struct XpCommandExperienceImport {
    /// Where the levels file can be downloaded from
    pub levels: String,
}

/// `/xp experience`: manage user experience in this guild.
pub enum XpCommandExperience {
    Add(XpCommandExperienceAdd),
    Remove(XpCommandExperienceRemove),
    Import(XpCommandExperienceImport),
}

/// `/xp`: manage administrator-only bot functions.
pub enum XpCommand {
    Rewards(XpCommandRewards),
    Experience(XpCommandExperience),
}

} // verus!
