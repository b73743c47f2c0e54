//! The toys, small pictures that can sit on a card.
use vstd::prelude::*;
use crate::text::str_equal;

verus! {

#[derive(Debug, Clone, Copy, PartialEq, Eq, Hash, Structural)]
pub enum Toy {
    Airplane,
    Bee,
    Biscuit,
    Chicken,
    Cow,
    Fox,
    GrassBlock,
    Parrot,
    Pickaxe,
    Pig,
    PotionBlue,
    PotionPurple,
    PotionRed,
    Sheep,
    SteveHeart,
    Tree,
}

/// Who drew a toy.
pub open spec fn toy_author(t: Toy) -> Seq<char> {
    match t {
        Toy::Airplane => "valkyrie_pilot"@,
        _ => "Cyana"@,
    }
}

/// The file a toy's picture is stored in, which is also how a toy is stored.
pub open spec fn toy_filename(t: Toy) -> Seq<char> {
    match t {
        Toy::Airplane => "airplane.png"@,
        Toy::Bee => "bee.png"@,
        Toy::Biscuit => "biscuit.png"@,
        Toy::Chicken => "chicken.png"@,
        Toy::Cow => "cow.png"@,
        Toy::Fox => "fox.png"@,
        Toy::GrassBlock => "grassblock.png"@,
        Toy::Parrot => "parrot.png"@,
        Toy::Pickaxe => "pickaxe.png"@,
        Toy::Pig => "pig.png"@,
        Toy::PotionBlue => "potion_blue.png"@,
        Toy::PotionPurple => "potion_purple.png"@,
        Toy::PotionRed => "potion_red.png"@,
        Toy::Sheep => "sheep.png"@,
        Toy::SteveHeart => "steveheart.png"@,
        Toy::Tree => "tree.png"@,
    }
}

/// The toy a file name stands for.
pub open spec fn toy_from_filename(name: Seq<char>) -> Option<Toy> {
    if name == "bee.png"@ {
        Some(Toy::Bee)
    } else if name == "biscuit.png"@ {
        Some(Toy::Biscuit)
    } else if name == "chicken.png"@ {
        Some(Toy::Chicken)
    } else if name == "cow.png"@ {
        Some(Toy::Cow)
    } else if name == "fox.png"@ {
        Some(Toy::Fox)
    } else if name == "grassblock.png"@ {
        Some(Toy::GrassBlock)
    } else if name == "parrot.png"@ {
        Some(Toy::Parrot)
    } else if name == "pickaxe.png"@ {
        Some(Toy::Pickaxe)
    } else if name == "pig.png"@ {
        Some(Toy::Pig)
    } else if name == "potion_blue.png"@ {
        Some(Toy::PotionBlue)
    } else if name == "potion_purple.png"@ {
        Some(Toy::PotionPurple)
    } else if name == "potion_red.png"@ {
        Some(Toy::PotionRed)
    } else if name == "sheep.png"@ {
        Some(Toy::Sheep)
    } else if name == "steveheart.png"@ {
        Some(Toy::SteveHeart)
    } else if name == "tree.png"@ {
        Some(Toy::Tree)
    } else if name == "airplane.png"@ {
        Some(Toy::Airplane)
    } else {
        None
    }
}

/// The name a toy is shown by.
pub open spec fn toy_name(t: Toy) -> Seq<char> {
    match t {
        Toy::Airplane => "Airplane"@,
        Toy::Bee => "Bee"@,
        Toy::Biscuit => "Biscuit"@,
        Toy::Chicken => "Chicken"@,
        Toy::Cow => "Cow"@,
        Toy::Fox => "Fox"@,
        Toy::GrassBlock => "Grass Block"@,
        Toy::Parrot => "Parrot"@,
        Toy::Pickaxe => "Pickaxe"@,
        Toy::Pig => "Pig"@,
        Toy::PotionBlue => "Blue Potion Bottle"@,
        Toy::PotionPurple => "Purple Potion Bottle"@,
        Toy::PotionRed => "Red Potion Bottle"@,
        Toy::Sheep => "Sheep"@,
        Toy::SteveHeart => "Steve Heart"@,
        Toy::Tree => "Tree"@,
    }
}

impl Toy {
    /// Who drew the toy.
    pub fn author(&self) -> (s: &'static str)
        ensures
            s@ == toy_author(*self),
    {
        match self {
            Toy::Airplane => "valkyrie_pilot",
            _ => "Cyana",
        }
    }

    /// The file the toy's picture is stored in.
    pub fn filename(&self) -> (s: &'static str)
        ensures
            s@ == toy_filename(*self),
    {
        match self {
            Toy::Airplane => "airplane.png",
            Toy::Bee => "bee.png",
            Toy::Biscuit => "biscuit.png",
            Toy::Chicken => "chicken.png",
            Toy::Cow => "cow.png",
            Toy::Fox => "fox.png",
            Toy::GrassBlock => "grassblock.png",
            Toy::Parrot => "parrot.png",
            Toy::Pickaxe => "pickaxe.png",
            Toy::Pig => "pig.png",
            Toy::PotionBlue => "potion_blue.png",
            Toy::PotionPurple => "potion_purple.png",
            Toy::PotionRed => "potion_red.png",
            Toy::Sheep => "sheep.png",
            Toy::SteveHeart => "steveheart.png",
            Toy::Tree => "tree.png",
        }
    }

    /// The toy stored as `data`, if it names one.
    pub fn from_filename(data: &str) -> (r: Option<Self>)
        ensures
            r == toy_from_filename(data@),
    {
        if str_equal(data, "bee.png") {
            Some(Toy::Bee)
        } else if str_equal(data, "biscuit.png") {
            Some(Toy::Biscuit)
        } else if str_equal(data, "chicken.png") {
            Some(Toy::Chicken)
        } else if str_equal(data, "cow.png") {
            Some(Toy::Cow)
        } else if str_equal(data, "fox.png") {
            Some(Toy::Fox)
        } else if str_equal(data, "grassblock.png") {
            Some(Toy::GrassBlock)
        } else if str_equal(data, "parrot.png") {
            Some(Toy::Parrot)
        } else if str_equal(data, "pickaxe.png") {
            Some(Toy::Pickaxe)
        } else if str_equal(data, "pig.png") {
            Some(Toy::Pig)
        } else if str_equal(data, "potion_blue.png") {
            Some(Toy::PotionBlue)
        } else if str_equal(data, "potion_purple.png") {
            Some(Toy::PotionPurple)
        } else if str_equal(data, "potion_red.png") {
            Some(Toy::PotionRed)
        } else if str_equal(data, "sheep.png") {
            Some(Toy::Sheep)
        } else if str_equal(data, "steveheart.png") {
            Some(Toy::SteveHeart)
        } else if str_equal(data, "tree.png") {
            Some(Toy::Tree)
        } else if str_equal(data, "airplane.png") {
            Some(Toy::Airplane)
        } else {
            None
        }
    }

    /// The name the toy is shown by.
    pub fn to_string(&self) -> (s: String)
        ensures
            s@ == toy_name(*self),
    {
        match self {
            Toy::Airplane => "Airplane".to_string(),
            Toy::Bee => "Bee".to_string(),
            Toy::Biscuit => "Biscuit".to_string(),
            Toy::Chicken => "Chicken".to_string(),
            Toy::Cow => "Cow".to_string(),
            Toy::Fox => "Fox".to_string(),
            Toy::GrassBlock => "Grass Block".to_string(),
            Toy::Parrot => "Parrot".to_string(),
            Toy::Pickaxe => "Pickaxe".to_string(),
            Toy::Pig => "Pig".to_string(),
            Toy::PotionBlue => "Blue Potion Bottle".to_string(),
            Toy::PotionPurple => "Purple Potion Bottle".to_string(),
            Toy::PotionRed => "Red Potion Bottle".to_string(),
            Toy::Sheep => "Sheep".to_string(),
            Toy::SteveHeart => "Steve Heart".to_string(),
            Toy::Tree => "Tree".to_string(),
        }
    }
}

/// A toy's file name reads back as that toy.
pub proof fn law_toy_filename_roundtrip(t: Toy)
    ensures
        toy_from_filename(toy_filename(t)) == Some(t),
{
    reveal_strlit("airplane.png");
    reveal_strlit("bee.png");
    reveal_strlit("biscuit.png");
    reveal_strlit("chicken.png");
    reveal_strlit("cow.png");
    reveal_strlit("fox.png");
    reveal_strlit("grassblock.png");
    reveal_strlit("parrot.png");
    reveal_strlit("pickaxe.png");
    reveal_strlit("pig.png");
    reveal_strlit("potion_blue.png");
    reveal_strlit("potion_purple.png");
    reveal_strlit("potion_red.png");
    reveal_strlit("sheep.png");
    reveal_strlit("steveheart.png");
    reveal_strlit("tree.png");
    assert("airplane.png"@.len() == 12);
    assert("bee.png"@.len() == 7);
    assert("biscuit.png"@.len() == 11);
    assert("chicken.png"@.len() == 11);
    assert("cow.png"@.len() == 7);
    assert("fox.png"@.len() == 7);
    assert("grassblock.png"@.len() == 14);
    assert("parrot.png"@.len() == 10);
    assert("pickaxe.png"@.len() == 11);
    assert("pig.png"@.len() == 7);
    assert("potion_blue.png"@.len() == 15);
    assert("potion_purple.png"@.len() == 17);
    assert("potion_red.png"@.len() == 14);
    assert("sheep.png"@.len() == 9);
    assert("steveheart.png"@.len() == 14);
    assert("tree.png"@.len() == 8);
    assert("airplane.png"@[0] == 'a');
    assert("bee.png"@[0] == 'b');
    assert("biscuit.png"@[0] == 'b');
    assert("chicken.png"@[0] == 'c');
    assert("cow.png"@[0] == 'c');
    assert("fox.png"@[0] == 'f');
    assert("grassblock.png"@[0] == 'g');
    assert("parrot.png"@[0] == 'p');
    assert("pickaxe.png"@[0] == 'p');
    assert("pig.png"@[0] == 'p');
    assert("potion_blue.png"@[0] == 'p');
    assert("potion_purple.png"@[0] == 'p');
    assert("potion_red.png"@[0] == 'p');
    assert("sheep.png"@[0] == 's');
    assert("steveheart.png"@[0] == 's');
    assert("tree.png"@[0] == 't');
}

} // verus!
