//! What a member has chosen for their rank card, and how it is shown to them.
use vstd::prelude::*;
use vstd::utf8::encode_utf8;
use crate::hex_color::{
    ColorError, hex_code, parse_hex, spec_hex_code, spec_parse_hex,
};
use crate::text::{push_str, str_equal, string_with_capacity};

verus! {

/// `std::fmt::Error`, the error of a formatting call; it carries nothing.
#[verifier::external_type_specification]
#[verifier::external_body]
pub struct ExFmtError(std::fmt::Error);

/// A colour on the card.
#[derive(Clone, Copy, Debug, PartialEq, Eq, Structural)]
pub struct Color {
    red: u8,
    green: u8,
    blue: u8,
}

impl View for Color {
    type V = (u8, u8, u8);

    closed spec fn view(&self) -> (u8, u8, u8) {
        (self.red, self.green, self.blue)
    }
}

impl Color {
    /// Takes hex-color input and converts it to a Color.
    /// # Errors
    /// Errors if the hex color is invalid
    pub fn from_hex(hex: &str) -> (r: Result<Self, ColorError>)
        ensures
            match r {
                Ok(c) => spec_parse_hex(encode_utf8(hex@)) == Ok::<(u8, u8, u8), ColorError>(c@),
                Err(e) => spec_parse_hex(encode_utf8(hex@)) == Err::<(u8, u8, u8), ColorError>(e),
            },
    {
        match parse_hex(hex) {
            Ok((red, green, blue)) => Ok(Color { red, green, blue }),
            Err(e) => Err(e),
        }
    }

    pub fn new(red: u8, green: u8, blue: u8) -> (c: Self)
        ensures
            c@ == (red, green, blue),
    {
        Color { red, green, blue }
    }

    /// `#RRGGBB`, as the colour is shown.
    pub open spec fn spec_to_string(&self) -> Seq<char> {
        spec_hex_code(self@.0, self@.1, self@.2)
    }

    /// `#RRGGBB`, as the colour is shown.
    pub fn to_string(&self) -> (s: String)
        ensures
            s@ == self.spec_to_string(),
    {
        hex_code(self.red, self.green, self.blue)
    }

    /// Two colours are the same when their channels are.
    pub proof fn lemma_view_eq(a: Self, b: Self)
        ensures
            (a@ == b@) == (a == b),
    {
    }
}

/// Everything a member has chosen for their card.
#[derive(Debug, Clone, PartialEq, Eq)]
pub struct Customizations {
    pub username: Color,
    pub rank: Color,
    pub level: Color,
    pub border: Color,
    pub background: Color,
    pub progress_foreground: Color,
    pub progress_background: Color,
    pub background_xp_count: Color,
    pub foreground_xp_count: Color,
    pub font: String,
    pub toy: Option<String>,
    pub internal_name: String,
}

/// One line of the summary: the name, the value in backticks, and whether the
/// value is the default.
pub open spec fn output_line(name: Seq<char>, value: Seq<char>, is_default: bool) -> Seq<char> {
    name + ": `"@ + value + "`"@ + (if is_default {
        " (default)"@
    } else {
        Seq::<char>::empty()
    }) + "\n"@
}

/// The summary line of one colour.
pub open spec fn color_line(name: Seq<char>, value: Color, default: Color) -> Seq<char> {
    output_line(name, value.spec_to_string(), value == default)
}

/// The summary line of one text setting.
pub open spec fn text_line(name: Seq<char>, value: Seq<char>, default: Seq<char>) -> Seq<char> {
    output_line(name, value, value == default)
}

/// The toy as it is shown: its name, or `None`.
pub open spec fn toy_text(toy: Option<String>) -> Seq<char> {
    match toy {
        Some(t) => t@,
        None => "None"@,
    }
}

impl Customizations {
    /// The colour lines of the summary.
    pub open spec fn spec_color_lines(&self, d: &Self) -> Seq<char> {
        color_line("Important text"@, self.username, d.username) + color_line(
            "Rank"@,
            self.rank,
            d.rank,
        ) + color_line("Level"@, self.level, d.level) + color_line(
            "Border"@,
            self.border,
            d.border,
        ) + color_line("Background"@, self.background, d.background) + color_line(
            "Progress bar completed"@,
            self.progress_foreground,
            d.progress_foreground,
        ) + color_line("Progress bar remaining"@, self.progress_background, d.progress_background)
            + color_line(
            "Progress bar foreground overlay"@,
            self.foreground_xp_count,
            d.foreground_xp_count,
        ) + color_line(
            "Progress bar background overlay"@,
            self.background_xp_count,
            d.background_xp_count,
        )
    }

    /// The whole summary: the colours, the font, the toy and the card, one per
    /// line, each marked when it is the default.
    pub open spec fn spec_display(&self, d: &Self) -> Seq<char> {
        self.spec_color_lines(d) + text_line("Font"@, self.font@, d.font@) + "Toy: `"@ + toy_text(
            self.toy,
        ) + "`\n"@ + text_line("Card"@, self.internal_name@, d.internal_name@)
    }

    /// Generate a user representation of their customizations
    /// # Errors
    /// Never, realistically. Just uses write! internally.
    pub fn display(&self, defaults: &Self) -> (r: Result<String, std::fmt::Error>)
        ensures
            r matches Ok(s) && s@ == self.spec_display(defaults),
    {
        let mut f = string_with_capacity(256);
        push_color_line(&mut f, "Important text", &self.username, &defaults.username);
        push_color_line(&mut f, "Rank", &self.rank, &defaults.rank);
        push_color_line(&mut f, "Level", &self.level, &defaults.level);
        push_color_line(&mut f, "Border", &self.border, &defaults.border);
        push_color_line(&mut f, "Background", &self.background, &defaults.background);
        push_color_line(
            &mut f,
            "Progress bar completed",
            &self.progress_foreground,
            &defaults.progress_foreground,
        );
        push_color_line(
            &mut f,
            "Progress bar remaining",
            &self.progress_background,
            &defaults.progress_background,
        );
        push_color_line(
            &mut f,
            "Progress bar foreground overlay",
            &self.foreground_xp_count,
            &defaults.foreground_xp_count,
        );
        push_color_line(
            &mut f,
            "Progress bar background overlay",
            &self.background_xp_count,
            &defaults.background_xp_count,
        );
        assert(f@ == self.spec_color_lines(defaults));
        push_text_line(&mut f, "Font", self.font.as_str(), defaults.font.as_str());
        push_str(&mut f, "Toy: `");
        match &self.toy {
            Some(t) => push_str(&mut f, t.as_str()),
            None => push_str(&mut f, "None"),
        }
        push_str(&mut f, "`\n");
        push_text_line(&mut f, "Card", self.internal_name.as_str(), defaults.internal_name.as_str());
        assert(f@ == self.spec_display(defaults));
        Ok(f)
    }
}

/// Appends one summary line.
pub fn push_output_line(out: &mut String, name: &str, value: &str, is_default: bool)
    ensures
        final(out)@ == old(out)@ + output_line(name@, value@, is_default),
{
    push_str(out, name);
    push_str(out, ": `");
    push_str(out, value);
    push_str(out, "`");
    if is_default {
        push_str(out, " (default)");
    }
    push_str(out, "\n");
    assert(final(out)@ == old(out)@ + output_line(name@, value@, is_default));
}

fn push_color_line(out: &mut String, name: &str, value: &Color, default: &Color)
    ensures
        final(out)@ == old(out)@ + color_line(name@, *value, *default),
{
    let text = value.to_string();
    push_output_line(out, name, text.as_str(), *value == *default);
}

fn push_text_line(out: &mut String, name: &str, value: &str, default: &str)
    ensures
        final(out)@ == old(out)@ + text_line(name@, value@, default@),
{
    let same = str_equal(value, default);
    push_output_line(out, name, value, same);
}

} // verus!
