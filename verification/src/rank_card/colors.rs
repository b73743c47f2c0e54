//! The nine colours of a card, each against its built-in default.
use vstd::prelude::*;
use vstd::utf8::encode_utf8;
use crate::hex_color::{ColorError, hex_code, parse_hex, spec_hex_code, spec_parse_hex};
use crate::rank_card::customizations::{output_line, push_output_line};
use crate::text::string_with_capacity;

verus! {

/// A colour on the card.
#[derive(Clone, Copy, Debug, PartialEq, Eq, Structural)]
pub struct Color {
    red: u8,
    green: u8,
    blue: u8,
}

impl View for Color {
    type V = (u8, u8, u8);

    closed spec fn view(&self) -> (u8, u8, u8) {
        (self.red, self.green, self.blue)
    }
}

impl Color {
    /// Takes hex-color input and converts it to a Color.
    /// # Errors
    /// Errors if the hex color is invalid
    pub fn from_hex(hex: &str) -> (r: Result<Self, ColorError>)
        ensures
            match r {
                Ok(c) => spec_parse_hex(encode_utf8(hex@)) == Ok::<(u8, u8, u8), ColorError>(c@),
                Err(e) => spec_parse_hex(encode_utf8(hex@)) == Err::<(u8, u8, u8), ColorError>(e),
            },
    {
        match parse_hex(hex) {
            Ok((red, green, blue)) => Ok(Color { red, green, blue }),
            Err(e) => Err(e),
        }
    }

    pub fn new(red: u8, green: u8, blue: u8) -> (c: Self)
        ensures
            c@ == (red, green, blue),
    {
        Color { red, green, blue }
    }

    /// `#RRGGBB`, as the colour is shown.
    pub open spec fn spec_to_string(&self) -> Seq<char> {
        spec_hex_code(self@.0, self@.1, self@.2)
    }

    /// `#RRGGBB`, as the colour is shown.
    pub fn to_string(&self) -> (s: String)
        ensures
            s@ == self.spec_to_string(),
    {
        hex_code(self.red, self.green, self.blue)
    }

    /// Two colours are the same when their channels are.
    pub proof fn lemma_view_eq(a: Self, b: Self)
        ensures
            (a@ == b@) == (a == b),
    {
    }
}

/// The nine colours of a card.
#[derive(Debug, Clone, Copy)]
pub struct Colors {
    pub username: Color,
    pub rank: Color,
    pub level: Color,
    pub border: Color,
    pub background: Color,
    pub progress_foreground: Color,
    pub progress_background: Color,
    pub background_xp_count: Color,
    pub foreground_xp_count: Color,
}

/// The channels of the default colours, in the order of the fields.
pub open spec fn default_channels() -> Seq<(u8, u8, u8)> {
    seq![
        (255u8, 255u8, 255u8),
        (255u8, 255u8, 255u8),
        (143u8, 202u8, 92u8),
        (133u8, 79u8, 43u8),
        (97u8, 55u8, 31u8),
        (71u8, 122u8, 30u8),
        (143u8, 202u8, 92u8),
        (0u8, 0u8, 0u8),
        (255u8, 255u8, 255u8),
    ]
}

/// The summary line of one colour, marked when it is the default.
pub open spec fn default_line(name: Seq<char>, value: Color, default: (u8, u8, u8)) -> Seq<char> {
    output_line(name, value.spec_to_string(), value@ == default)
}

impl Colors {
    /// The colours, in the order of the fields.
    pub open spec fn channels(&self) -> Seq<(u8, u8, u8)> {
        seq![
            self.username@,
            self.rank@,
            self.level@,
            self.border@,
            self.background@,
            self.progress_foreground@,
            self.progress_background@,
            self.background_xp_count@,
            self.foreground_xp_count@,
        ]
    }

    /// One line per colour, each marked when it is the default.
    pub open spec fn spec_to_string(&self) -> Seq<char> {
        let d = default_channels();
        default_line("Important text"@, self.username, d[0]) + default_line(
            "Rank"@,
            self.rank,
            d[1],
        ) + default_line("Level"@, self.level, d[2]) + default_line(
            "Border"@,
            self.border,
            d[3],
        ) + default_line("Background"@, self.background, d[4]) + default_line(
            "Progress bar completed"@,
            self.progress_foreground,
            d[5],
        ) + default_line("Progress bar remaining"@, self.progress_background, d[6])
            + default_line(
            "Progress bar foreground overlay"@,
            self.foreground_xp_count,
            d[8],
        ) + default_line("Progress bar background overlay"@, self.background_xp_count, d[7])
    }

    /// One line per colour, each marked when it is the default.
    pub fn to_string(&self) -> (s: String)
        ensures
            s@ == self.spec_to_string(),
    {
        let d = Colors::default();
        let mut f = string_with_capacity(256);
        push_default_line(&mut f, "Important text", &self.username, &d.username);
        push_default_line(&mut f, "Rank", &self.rank, &d.rank);
        push_default_line(&mut f, "Level", &self.level, &d.level);
        push_default_line(&mut f, "Border", &self.border, &d.border);
        push_default_line(&mut f, "Background", &self.background, &d.background);
        push_default_line(
            &mut f,
            "Progress bar completed",
            &self.progress_foreground,
            &d.progress_foreground,
        );
        push_default_line(
            &mut f,
            "Progress bar remaining",
            &self.progress_background,
            &d.progress_background,
        );
        push_default_line(
            &mut f,
            "Progress bar foreground overlay",
            &self.foreground_xp_count,
            &d.foreground_xp_count,
        );
        push_default_line(
            &mut f,
            "Progress bar background overlay",
            &self.background_xp_count,
            &d.background_xp_count,
        );
        f
    }
}

impl Default for Colors {
    fn default() -> (c: Self)
        ensures
            c.channels() == default_channels(),
    {
        Colors {
            username: Color::new(255, 255, 255),
            rank: Color::new(255, 255, 255),
            level: Color::new(143, 202, 92),
            border: Color::new(133, 79, 43),
            background: Color::new(97, 55, 31),
            progress_foreground: Color::new(71, 122, 30),
            progress_background: Color::new(143, 202, 92),
            background_xp_count: Color::new(0, 0, 0),
            foreground_xp_count: Color::new(255, 255, 255),
        }
    }
}

fn push_default_line(out: &mut String, name: &str, value: &Color, default: &Color)
    ensures
        final(out)@ == old(out)@ + default_line(name@, *value, default@),
{
    let text = value.to_string();
    push_output_line(out, name, text.as_str(), *value == *default);
}

} // verus!
