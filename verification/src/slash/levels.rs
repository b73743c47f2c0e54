//! What `/rank` answers, and what a member's stored card choices amount to.
use vstd::prelude::*;
use crate::rank_card::font::{Font, font_from_name};
use crate::rank_card::toy::{Toy, toy_from_filename};
use crate::text::{
    decimal, push_decimal, push_decimal_4, push_signed_decimal, push_str, signed_decimal,
    string_with_capacity, zero_padded,
};
use base64::Engine;

verus! {

/// What `/rank` answers with.
pub enum RankReply {
    /// A short message, shown only to the one who asked.
    Text(String),
    /// The member's rank card, drawn and sent as a follow-up.
    Card,
}

/// `name#0000`: a user's name and four-digit discriminator.
pub open spec fn tag(name: Seq<char>, discriminator: u16) -> Seq<char> {
    name + "#"@ + zero_padded(decimal(discriminator as nat), 4)
}

/// The message `/rank` answers with, or `None` when it answers with a card:
/// bots are never ranked, and nobody is ranked before their first message.
pub open spec fn spec_rank_text(
    user_is_bot: bool,
    invoker_is_user: bool,
    xp: i64,
    name: Seq<char>,
    discriminator: u16,
) -> Option<Seq<char>> {
    if user_is_bot {
        Some("Bots aren't ranked, that would be silly!"@)
    } else if xp != 0 {
        None
    } else if invoker_is_user {
        Some("You aren't ranked yet, because you haven't sent any messages!"@)
    } else {
        Some(tag(name, discriminator) + " isn't ranked yet, because they haven't sent any messages!"@)
    }
}

/// Decides what `/rank` answers, for the user asked about, who may be the one
/// asking, and that user's XP.
pub fn rank_reply(
    user_is_bot: bool,
    invoker_is_user: bool,
    xp: i64,
    name: &str,
    discriminator: u16,
) -> (r: RankReply)
    ensures
        match r {
            RankReply::Text(s) => spec_rank_text(user_is_bot, invoker_is_user, xp, name@, discriminator)
                == Some(s@),
            RankReply::Card => spec_rank_text(user_is_bot, invoker_is_user, xp, name@, discriminator)
                is None,
        },
{
    if user_is_bot {
        RankReply::Text("Bots aren't ranked, that would be silly!".to_string())
    } else if invoker_is_user {
        if xp == 0 {
            RankReply::Text("You aren't ranked yet, because you haven't sent any messages!".to_string())
        } else {
            RankReply::Card
        }
    } else if xp == 0 {
        let mut s = string_with_capacity(96);
        push_tag(&mut s, name, discriminator);
        push_str(&mut s, " isn't ranked yet, because they haven't sent any messages!");
        RankReply::Text(s)
    } else {
        RankReply::Card
    }
}

/// Appends `name#0000`.
pub fn push_tag(s: &mut String, name: &str, discriminator: u16)
    ensures
        final(s)@ == old(s)@ + tag(name@, discriminator),
{
    push_str(s, name);
    push_str(s, "#");
    push_decimal_4(s, discriminator as u64);
    assert(final(s)@ == old(s)@ + tag(name@, discriminator));
}

/// A member's rank in a guild: one more than the number of members with more
/// XP (a count the database did not give counts as none).
pub fn rank_from_count(count: Option<i64>) -> (r: i64)
    requires
        count matches Some(c) ==> c < i64::MAX,
    ensures
        r == match count {
            Some(c) => c + 1,
            None => 1,
        },
{
    match count {
        Some(c) => c + 1,
        None => 1,
    }
}

/// The text that describes a rank card: who, at which level and rank, and how
/// far they are to the next level, in whole percent.
pub open spec fn spec_card_description(
    name: Seq<char>,
    discriminator: u16,
    level: u64,
    rank: i64,
    percentage: u64,
) -> Seq<char> {
    tag(name, discriminator) + " is level "@ + decimal(level as nat) + " (rank #"@ + signed_decimal(
        rank as int,
    ) + "), and is "@ + decimal(percentage as nat) + "% of the way to level "@ + decimal(
        (level + 1) as nat,
    ) + "."@
}

/// The text that describes a rank card, given the percentage of the way to the
/// next level, already rounded to a whole number.
pub fn card_description(
    name: &str,
    discriminator: u16,
    level: u64,
    rank: i64,
    percentage: u64,
) -> (s: String)
    requires
        level < u64::MAX,
    ensures
        s@ == spec_card_description(name@, discriminator, level, rank, percentage),
{
    let mut s = string_with_capacity(128);
    push_tag(&mut s, name, discriminator);
    push_str(&mut s, " is level ");
    push_decimal(&mut s, level);
    push_str(&mut s, " (rank #");
    push_signed_decimal(&mut s, rank);
    push_str(&mut s, "), and is ");
    push_decimal(&mut s, percentage);
    push_str(&mut s, "% of the way to level ");
    push_decimal(&mut s, level + 1);
    push_str(&mut s, ".");
    s
}

/// Why a card could not be drawn.
#[derive(Clone, Copy, Debug, PartialEq, Eq, Structural)]
pub enum LevelsError {
    /// The stored font is not one on offer.
    InvalidFont,
}

/// The font and toy a member's stored choices give, when they have a stored row
/// (`Some`, holding the stored font and toy file): no font means Roboto, an
/// unknown font is an error, and an unknown toy means no toy.
pub open spec fn spec_card_choices(row: Option<(Option<Seq<char>>, Option<Seq<char>>)>) -> Result<
    (Font, Option<Toy>),
    LevelsError,
> {
    match row {
        None => Ok((Font::Roboto, None)),
        Some((font, toy)) => {
            let t = match toy {
                Some(name) => toy_from_filename(name),
                None => None,
            };
            match font {
                None => Ok((Font::Roboto, t)),
                Some(name) => match font_from_name(name) {
                    Some(f) => Ok((f, t)),
                    None => Err(LevelsError::InvalidFont),
                },
            }
        },
    }
}

/// The toy on a card is the one the member stored, whatever font they stored:
/// none when no toy is stored or the stored file is no known toy. The font is
/// the stored one, Roboto when none is stored, and only an unknown stored font
/// is an error. Without a stored row, the card is Roboto with no toy.
pub proof fn law_card_choices_independent(font: Option<Seq<char>>, toy: Option<Seq<char>>)
    ensures
        spec_card_choices(Some((font, toy))) is Err <==> (font matches Some(n) && font_from_name(
            n,
        ) is None),
        spec_card_choices(Some((font, toy))) matches Ok((f, t)) ==> {
            &&& t == match toy {
                Some(name) => toy_from_filename(name),
                None => None,
            }
            &&& f == match font {
                Some(name) => font_from_name(name)->Some_0,
                None => Font::Roboto,
            }
        },
        spec_card_choices(None) == Ok::<(Font, Option<Toy>), LevelsError>((Font::Roboto, None)),
{
}

/// The stored choices as text.
pub open spec fn stored_choices(has_row: bool, font: Option<&str>, toy: Option<&str>) -> Option<
    (Option<Seq<char>>, Option<Seq<char>>),
> {
    if has_row {
        Some(
            (
                match font {
                    Some(f) => Some(f@),
                    None => None,
                },
                match toy {
                    Some(t) => Some(t@),
                    None => None,
                },
            ),
        )
    } else {
        None
    }
}

/// The font and toy for a member's card, from their stored row if they have one.
pub fn card_choices(has_row: bool, font: Option<&str>, toy: Option<&str>) -> (r: Result<
    (Font, Option<Toy>),
    LevelsError,
>)
    ensures
        r == spec_card_choices(stored_choices(has_row, font, toy)),
{
    if !has_row {
        return Ok((Font::Roboto, None));
    }
    let t = match toy {
        Some(name) => Toy::from_filename(name),
        None => None,
    };
    match font {
        None => Ok((Font::Roboto, t)),
        Some(name) => match Font::from_name(name) {
            Some(f) => Ok((f, t)),
            None => Err(LevelsError::InvalidFont),
        },
    }
}

/// The leaderboard's address for a guild.
pub open spec fn leaderboard_link(guild_id: u64) -> Seq<char> {
    "https://xp.valk.sh/"@ + decimal(guild_id as nat)
}

/// The text of the `/leaderboard` reply: a link to the guild's leaderboard.
pub fn leaderboard_text(guild_id: u64) -> (s: String)
    ensures
        s@ == "[Click to view the leaderboard!]("@ + leaderboard_link(guild_id) + ")"@,
{
    let mut s = string_with_capacity(64);
    push_str(&mut s, "[Click to view the leaderboard!](");
    push_str(&mut s, "https://xp.valk.sh/");
    push_decimal(&mut s, guild_id);
    push_str(&mut s, ")");
    assert(s@ == "[Click to view the leaderboard!]("@ + leaderboard_link(guild_id) + ")"@);
    s
}

/// Where a user's avatar is fetched from: their own picture, or one of the five
/// built-in ones, picked by the discriminator.
pub open spec fn spec_avatar_url(user_id: u64, avatar: Option<Seq<char>>, discriminator: u16) -> Seq<
    char,
> {
    match avatar {
        None => "https://cdn.discordapp.com/embed/avatars/"@ + decimal(user_id as nat) + "/"@
            + decimal((discriminator % 5) as nat) + ".png"@,
        Some(hash) => "https://cdn.discordapp.com/avatars/"@ + decimal(user_id as nat) + "/"@ + hash
            + ".png"@,
    }
}

/// Where a user's avatar is fetched from.
pub fn avatar_url(user_id: u64, avatar: Option<&str>, discriminator: u16) -> (s: String)
    ensures
        s@ == spec_avatar_url(
            user_id,
            match avatar {
                Some(h) => Some(h@),
                None => None,
            },
            discriminator,
        ),
{
    let mut s = string_with_capacity(96);
    match avatar {
        None => {
            push_str(&mut s, "https://cdn.discordapp.com/embed/avatars/");
            push_decimal(&mut s, user_id);
            push_str(&mut s, "/");
            push_decimal(&mut s, (discriminator % 5) as u64);
            push_str(&mut s, ".png");
        },
        Some(hash) => {
            push_str(&mut s, "https://cdn.discordapp.com/avatars/");
            push_decimal(&mut s, user_id);
            push_str(&mut s, "/");
            push_str(&mut s, hash);
            push_str(&mut s, ".png");
        },
    }
    s
}

/// The character of a six-bit value in the standard base64 alphabet.
pub open spec fn base64_char(v: int) -> char {
    if v < 26 {
        ('A' as int + v) as char
    } else if v < 52 {
        ('a' as int + v - 26) as char
    } else if v < 62 {
        ('0' as int + v - 52) as char
    } else if v == 62 {
        '+'
    } else {
        '/'
    }
}

/// Bytes in standard base64, without `=` padding: each three bytes become four
/// characters, a last pair three, a last single byte two.
pub open spec fn base64_no_pad(b: Seq<u8>) -> Seq<char>
    decreases b.len(),
{
    if b.len() == 0 {
        Seq::empty()
    } else {
        let b0 = b[0] as int;
        let b1 = if b.len() > 1 { b[1] as int } else { 0 };
        let b2 = if b.len() > 2 { b[2] as int } else { 0 };
        if b.len() == 1 {
            seq![base64_char(b0 / 4), base64_char((b0 % 4) * 16)]
        } else if b.len() == 2 {
            seq![
                base64_char(b0 / 4),
                base64_char((b0 % 4) * 16 + b1 / 16),
                base64_char((b1 % 16) * 4),
            ]
        } else {
            seq![
                base64_char(b0 / 4),
                base64_char((b0 % 4) * 16 + b1 / 16),
                base64_char((b1 % 16) * 4 + b2 / 64),
                base64_char(b2 % 64),
            ] + base64_no_pad(b.subrange(3, b.len() as int))
        }
    }
}

/// `Engine::encode` of base64's engine with the standard alphabet and no
/// padding: the bytes in base64, as the crate documents it.
#[verifier::external_body]
fn encode_base64_no_pad(bytes: &[u8]) -> (s: String)
    ensures
        s@ == base64_no_pad(bytes@),
{
    base64::engine::GeneralPurpose::new(
        &base64::alphabet::STANDARD,
        base64::engine::general_purpose::NO_PAD,
    ).encode(bytes)
}

/// A PNG image as a `data:` address, for the card template.
pub fn avatar_data_uri(png: &[u8]) -> (s: String)
    ensures
        s@ == "data:image/png;base64,"@ + base64_no_pad(png@),
{
    let encoded = encode_base64_no_pad(png);
    let mut s = string_with_capacity(32);
    push_str(&mut s, "data:image/png;base64,");
    push_str(&mut s, encoded.as_str());
    s
}

} // verus!
