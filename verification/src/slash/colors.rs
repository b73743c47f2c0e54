//! The colours of the older card: eight of them, read from stored hex codes.
use vstd::prelude::*;
use vstd::utf8::encode_utf8;
use crate::hex_color::{ColorError, hex_code, parse_hex, spec_hex_code, spec_parse_hex};
use crate::text::{push_str, string_with_capacity};

verus! {

#[derive(Clone, Copy, Debug, PartialEq, Eq, Structural)]
pub struct Color {
    red: u8,
    green: u8,
    blue: u8,
}

impl View for Color {
    type V = (u8, u8, u8);

    closed spec fn view(&self) -> (u8, u8, u8) {
        (self.red, self.green, self.blue)
    }
}

impl Color {
    /// Takes hex-color input and converts it to a Color.
    pub fn from_hex(hex: &str) -> (r: Result<Self, ColorError>)
        ensures
            match r {
                Ok(c) => spec_parse_hex(encode_utf8(hex@)) == Ok::<(u8, u8, u8), ColorError>(c@),
                Err(e) => spec_parse_hex(encode_utf8(hex@)) == Err::<(u8, u8, u8), ColorError>(e),
            },
    {
        match parse_hex(hex) {
            Ok((red, green, blue)) => Ok(Color { red, green, blue }),
            Err(e) => Err(e),
        }
    }

    pub fn new(red: u8, green: u8, blue: u8) -> (c: Self)
        ensures
            c@ == (red, green, blue),
    {
        Color { red, green, blue }
    }

    /// `#RRGGBB`, as the colour is shown.
    pub open spec fn spec_to_string(&self) -> Seq<char> {
        spec_hex_code(self@.0, self@.1, self@.2)
    }

    /// `#RRGGBB`, as the colour is shown.
    pub fn to_string(&self) -> (s: String)
        ensures
            s@ == self.spec_to_string(),
    {
        hex_code(self.red, self.green, self.blue)
    }

    /// Two colours are the same when their channels are.
    pub proof fn lemma_view_eq(a: Self, b: Self)
        ensures
            (a@ == b@) == (a == b),
    {
    }
}

#[derive(Debug, Clone, Copy)]
pub struct Colors {
    pub important: Color,
    pub secondary: Color,
    pub rank: Color,
    pub level: Color,
    pub border: Color,
    pub background: Color,
    pub progress_foreground: Color,
    pub progress_background: Color,
}

/// The channels of the default colours, in the order of the fields.
pub open spec fn default_channels() -> Seq<(u8, u8, u8)> {
    seq![
        (255u8, 255u8, 255u8),
        (204u8, 204u8, 204u8),
        (255u8, 255u8, 255u8),
        (143u8, 202u8, 92u8),
        (133u8, 79u8, 43u8),
        (97u8, 55u8, 31u8),
        (71u8, 122u8, 30u8),
        (143u8, 202u8, 92u8),
    ]
}

/// The colour a stored code gives: the code's colour when it reads as one,
/// else the default.
pub open spec fn stored_color(stored: Option<Seq<char>>, default: (u8, u8, u8)) -> (u8, u8, u8) {
    match stored {
        None => default,
        Some(code) => match spec_parse_hex(encode_utf8(code)) {
            Ok(c) => c,
            Err(_) => default,
        },
    }
}

/// The text of an optional stored code.
pub open spec fn stored_text(stored: Option<&str>) -> Option<Seq<char>> {
    match stored {
        None => None,
        Some(code) => Some(code@),
    }
}

/// The line `name: #RRGGBB`.
pub open spec fn color_line(name: Seq<char>, c: Color) -> Seq<char> {
    name + ": "@ + c.spec_to_string() + "\n"@
}

impl Colors {
    /// The colours, in the order of the fields.
    pub open spec fn channels(&self) -> Seq<(u8, u8, u8)> {
        seq![
            self.important@,
            self.secondary@,
            self.rank@,
            self.level@,
            self.border@,
            self.background@,
            self.progress_foreground@,
            self.progress_background@,
        ]
    }

    /// The colours read from a member's stored codes, each falling back to its
    /// default when it is missing or does not read as a colour.
    pub fn from_stored(
        important: Option<&str>,
        secondary: Option<&str>,
        rank: Option<&str>,
        level: Option<&str>,
        border: Option<&str>,
        background: Option<&str>,
        progress_foreground: Option<&str>,
        progress_background: Option<&str>,
    ) -> (c: Self)
        ensures
            ({
                let d = default_channels();
                c.channels() == seq![
                    stored_color(stored_text(important), d[0]),
                    stored_color(stored_text(secondary), d[1]),
                    stored_color(stored_text(rank), d[2]),
                    stored_color(stored_text(level), d[3]),
                    stored_color(stored_text(border), d[4]),
                    stored_color(stored_text(background), d[5]),
                    stored_color(stored_text(progress_foreground), d[6]),
                    stored_color(stored_text(progress_background), d[7]),
                ]
            }),
    {
        let d = Colors::default();
        Colors {
            important: color_or(important, d.important),
            secondary: color_or(secondary, d.secondary),
            rank: color_or(rank, d.rank),
            level: color_or(level, d.level),
            border: color_or(border, d.border),
            background: color_or(background, d.background),
            progress_foreground: color_or(progress_foreground, d.progress_foreground),
            progress_background: color_or(progress_background, d.progress_background),
        }
    }

    /// One `name: #RRGGBB` line per colour.
    pub open spec fn spec_to_string(&self) -> Seq<char> {
        color_line("Important text"@, self.important) + color_line(
            "Secondary text"@,
            self.secondary,
        ) + color_line("Rank"@, self.rank) + color_line("Level"@, self.level) + color_line(
            "Border"@,
            self.border,
        ) + color_line("Background"@, self.background) + color_line(
            "Progress bar completed"@,
            self.progress_foreground,
        ) + color_line("Progress bar remaining"@, self.progress_background)
    }

    /// One `name: #RRGGBB` line per colour.
    pub fn to_string(&self) -> (s: String)
        ensures
            s@ == self.spec_to_string(),
    {
        let mut f = string_with_capacity(256);
        push_color_line(&mut f, "Important text", &self.important);
        push_color_line(&mut f, "Secondary text", &self.secondary);
        push_color_line(&mut f, "Rank", &self.rank);
        push_color_line(&mut f, "Level", &self.level);
        push_color_line(&mut f, "Border", &self.border);
        push_color_line(&mut f, "Background", &self.background);
        push_color_line(&mut f, "Progress bar completed", &self.progress_foreground);
        push_color_line(&mut f, "Progress bar remaining", &self.progress_background);
        f
    }
}

impl Default for Colors {
    fn default() -> (c: Self)
        ensures
            c.channels() == default_channels(),
    {
        Colors {
            important: Color::new(255, 255, 255),
            secondary: Color::new(204, 204, 204),
            rank: Color::new(255, 255, 255),
            level: Color::new(143, 202, 92),
            border: Color::new(133, 79, 43),
            background: Color::new(97, 55, 31),
            progress_foreground: Color::new(71, 122, 30),
            progress_background: Color::new(143, 202, 92),
        }
    }
}

/// A colour option as it is stored: the code in canonical `#RRGGBB` form, or
/// why it is no colour.
pub fn normalized_hex(input: &str) -> (r: Result<String, ColorError>)
    ensures
        match spec_parse_hex(encode_utf8(input@)) {
            Ok((red, green, blue)) => r matches Ok(s) && s@ == spec_hex_code(red, green, blue),
            Err(e) => r matches Err(e2) && e2 == e,
        },
{
    match Color::from_hex(input) {
        Ok(c) => Ok(c.to_string()),
        Err(e) => Err(e),
    }
}

fn color_or(stored: Option<&str>, default: Color) -> (c: Color)
    ensures
        c@ == stored_color(stored_text(stored), default@),
{
    match stored {
        None => default,
        Some(code) => match Color::from_hex(code) {
            Ok(c) => c,
            Err(_) => default,
        },
    }
}

fn push_color_line(out: &mut String, name: &str, c: &Color)
    ensures
        final(out)@ == old(out)@ + color_line(name@, *c),
{
    let text = c.to_string();
    push_str(out, name);
    push_str(out, ": ");
    push_str(out, text.as_str());
    push_str(out, "\n");
    assert(final(out)@ == old(out)@ + color_line(name@, *c));
}

} // verus!
