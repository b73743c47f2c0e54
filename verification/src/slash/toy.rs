//! The toys of the older card, and who may pick them.
use vstd::prelude::*;
use crate::text::{decimal, push_decimal, push_str, string_with_capacity};

verus! {

#[derive(Clone, Copy, Debug, PartialEq, Eq, Structural)]
pub enum Toy {
    Fox,
    Parrot,
    GrassBlock,
    Pickaxe,
    SteveHeart,
    Tree,
}

/// The level a member needs before picking a toy.
pub open spec fn spec_level_requirement(t: Toy) -> u64 {
    match t {
        Toy::Pickaxe => 10,
        Toy::Fox | Toy::Parrot => 5,
        Toy::GrassBlock | Toy::SteveHeart | Toy::Tree => 0,
    }
}

/// The name a toy is shown by.
pub open spec fn toy_name(t: Toy) -> Seq<char> {
    match t {
        Toy::Fox => "Fox"@,
        Toy::Parrot => "Parrot"@,
        Toy::GrassBlock => "Grass block"@,
        Toy::Pickaxe => "Pickaxe"@,
        Toy::SteveHeart => "Steve heart"@,
        Toy::Tree => "Tree"@,
    }
}

/// The value a toy is chosen by in the command.
pub open spec fn toy_value(t: Toy) -> Seq<char> {
    match t {
        Toy::Fox => "fox"@,
        Toy::Parrot => "parrot"@,
        Toy::GrassBlock => "grassblock"@,
        Toy::Pickaxe => "pickaxe"@,
        Toy::SteveHeart => "steveheart"@,
        Toy::Tree => "tree"@,
    }
}

/// The reply to a member at `level` who picks `toy`.
pub open spec fn spec_toy_reply(toy: Toy, level: u64) -> Seq<char> {
    if level < spec_level_requirement(toy) {
        "You need at least "@ + decimal(spec_level_requirement(toy) as nat) + " levels for "@
            + toy_name(toy) + " (you have "@ + decimal(level as nat) + ")"@
    } else {
        "Set your toy to "@ + toy_name(toy)
    }
}

impl Toy {
    pub fn level_requirement(self) -> (r: u64)
        ensures
            r == spec_level_requirement(self),
    {
        match self {
            Toy::Pickaxe => 10,
            Toy::Fox | Toy::Parrot => 5,
            Toy::GrassBlock | Toy::SteveHeart | Toy::Tree => 0,
        }
    }

    /// The name the toy is shown by.
    pub fn to_string(&self) -> (s: String)
        ensures
            s@ == toy_name(*self),
    {
        match self {
            Toy::Fox => "Fox".to_string(),
            Toy::Parrot => "Parrot".to_string(),
            Toy::GrassBlock => "Grass block".to_string(),
            Toy::Pickaxe => "Pickaxe".to_string(),
            Toy::SteveHeart => "Steve heart".to_string(),
            Toy::Tree => "Tree".to_string(),
        }
    }

    /// The value the toy is chosen by in the command.
    pub fn value(&self) -> (s: &'static str)
        ensures
            s@ == toy_value(*self),
    {
        match self {
            Toy::Fox => "fox",
            Toy::Parrot => "parrot",
            Toy::GrassBlock => "grassblock",
            Toy::Pickaxe => "pickaxe",
            Toy::SteveHeart => "steveheart",
            Toy::Tree => "tree",
        }
    }
}

/// The reply to a member at `level` who picks `toy`: refused below the toy's
/// level requirement, accepted from it on.
pub fn toy_reply(toy: Toy, level: u64) -> (s: String)
    ensures
        s@ == spec_toy_reply(toy, level),
{
    let name = toy.to_string();
    let mut s = string_with_capacity(64);
    let requirement = toy.level_requirement();
    if level < requirement {
        push_str(&mut s, "You need at least ");
        push_decimal(&mut s, requirement);
        push_str(&mut s, " levels for ");
        push_str(&mut s, name.as_str());
        push_str(&mut s, " (you have ");
        push_decimal(&mut s, level);
        push_str(&mut s, ")");
    } else {
        push_str(&mut s, "Set your toy to ");
        push_str(&mut s, name.as_str());
    }
    assert(s@ == spec_toy_reply(toy, level));
    s
}

} // verus!
