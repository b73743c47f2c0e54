//! The fonts a card can be drawn in.
use vstd::prelude::*;
use crate::text::str_equal;

verus! {

#[derive(Debug, Clone, Copy, PartialEq, Eq, Structural)]
pub enum Font {
    JetBrainsMono,
    Mojang,
    MontserratAlt1,
    Roboto,
}

/// The name a font is chosen and shown by.
pub open spec fn font_name(f: Font) -> Seq<char> {
    match f {
        Font::JetBrainsMono => "JetBrains Mono"@,
        Font::Mojang => "Mojang"@,
        Font::MontserratAlt1 => "Montserrat Alt1"@,
        Font::Roboto => "Roboto"@,
    }
}

/// The font a name stands for.
pub open spec fn font_from_name(name: Seq<char>) -> Option<Font> {
    if name == "JetBrains Mono"@ {
        Some(Font::JetBrainsMono)
    } else if name == "Mojang"@ {
        Some(Font::Mojang)
    } else if name == "Montserrat Alt1"@ {
        Some(Font::MontserratAlt1)
    } else if name == "Roboto"@ {
        Some(Font::Roboto)
    } else {
        None
    }
}

/// The CSS family name a card's template uses for a font.
pub open spec fn font_family(f: Font) -> Seq<char> {
    match f {
        Font::JetBrainsMono => "'JetBrains Mono'"@,
        Font::Mojang => "Mojang"@,
        Font::MontserratAlt1 => "'Montserrat-Alt1'"@,
        Font::Roboto => "Roboto"@,
    }
}

/// The file a font is loaded from.
pub open spec fn font_filename(f: Font) -> Seq<char> {
    match f {
        Font::JetBrainsMono => "JetBrainsMono.ttf"@,
        Font::Mojang => "Mojang.ttf"@,
        Font::MontserratAlt1 => "MontserratAlt1.ttf"@,
        Font::Roboto => "Roboto.ttf"@,
    }
}

impl Font {
    /// The font `data` names, if it names one.
    pub fn from_name(data: &str) -> (r: Option<Self>)
        ensures
            r == font_from_name(data@),
    {
        if str_equal(data, "JetBrains Mono") {
            Some(Font::JetBrainsMono)
        } else if str_equal(data, "Mojang") {
            Some(Font::Mojang)
        } else if str_equal(data, "Montserrat Alt1") {
            Some(Font::MontserratAlt1)
        } else if str_equal(data, "Roboto") {
            Some(Font::Roboto)
        } else {
            None
        }
    }

    pub fn family(self) -> (s: &'static str)
        ensures
            s@ == font_family(self),
    {
        match self {
            Font::JetBrainsMono => "'JetBrains Mono'",
            Font::Mojang => "Mojang",
            Font::MontserratAlt1 => "'Montserrat-Alt1'",
            Font::Roboto => "Roboto",
        }
    }

    pub fn filename(self) -> (s: &'static str)
        ensures
            s@ == font_filename(self),
    {
        match self {
            Font::JetBrainsMono => "JetBrainsMono.ttf",
            Font::Mojang => "Mojang.ttf",
            Font::MontserratAlt1 => "MontserratAlt1.ttf",
            Font::Roboto => "Roboto.ttf",
        }
    }

    /// The name the font is shown by.
    pub fn to_string(&self) -> (s: String)
        ensures
            s@ == font_name(*self),
    {
        match self {
            Font::JetBrainsMono => "JetBrains Mono".to_string(),
            Font::Mojang => "Mojang".to_string(),
            Font::MontserratAlt1 => "Montserrat Alt1".to_string(),
            Font::Roboto => "Roboto".to_string(),
        }
    }
}

/// A font's shown name reads back as that font.
pub proof fn law_font_name_roundtrip(f: Font)
    ensures
        font_from_name(font_name(f)) == Some(f),
{
    reveal_strlit("JetBrains Mono");
    reveal_strlit("Mojang");
    reveal_strlit("Montserrat Alt1");
    reveal_strlit("Roboto");
    assert("JetBrains Mono"@.len() == 14);
    assert("Mojang"@.len() == 6);
    assert("Montserrat Alt1"@.len() == 15);
    assert("Roboto"@.len() == 6);
    assert("Mojang"@[0] != "Roboto"@[0]);
}

} // verus!
