use experienced::slash::levels::{card_description, rank_from_count};
use experienced::hex_color::ColorError;
use experienced::rank_card::font::Font;
use experienced::rank_card::toy::Toy as CardToy;
use experienced::slash::cmd_defs::{
    CardCommandEdit, CardCommandEditFont, CardCommandEditToy, XpCommandRewardsRemove,
};
use experienced::slash::colors::{Color, Colors};
use experienced::slash::help::help;
use experienced::slash::levels::{
    avatar_url, card_choices, leaderboard_text, rank_reply, LevelsError, RankReply,
};
use experienced::slash::manager::{
    added_reward_message, import_message, import_rows, ratelimit_message, removal_message,
    reward_removal, rewards_list_text, Error, Mee6User, RewardRemoval,
};
use experienced::slash::toy::{toy_reply, Toy};

#[test]
fn slash_color_roundtrip_samples() {
    for value in [0u8, 1, 15, 16, 127, 128, 200, 255] {
        let color = Color::new(value, 255 - value, value / 2);
        assert_eq!(Color::from_hex(&color.to_string()), Ok(color));
    }
    assert_eq!(Color::from_hex("#12"), Err(ColorError::InvalidLength));
}

#[test]
fn default_colors_listing() {
    assert_eq!(
        Colors::default().to_string(),
        "Important text: #FFFFFF\n\
         Secondary text: #CCCCCC\n\
         Rank: #FFFFFF\n\
         Level: #8FCA5C\n\
         Border: #854F2B\n\
         Background: #61371F\n\
         Progress bar completed: #477A1E\n\
         Progress bar remaining: #8FCA5C\n"
    );
}

#[test]
fn stored_colors_fall_back_to_defaults() {
    let colors = Colors::from_stored(
        Some("#000000"),
        None,
        Some("zzzzzz"),
        Some("#12345"),
        Some("0A0B0C"),
        None,
        None,
        None,
    );
    let defaults = Colors::default();
    assert_eq!(colors.important, Color::new(0, 0, 0));
    assert_eq!(colors.secondary, defaults.secondary);
    assert_eq!(colors.rank, defaults.rank);
    assert_eq!(colors.level, defaults.level);
    assert_eq!(colors.border, Color::new(10, 11, 12));
    assert_eq!(colors.background, defaults.background);
}

#[test]
fn toy_replies() {
    assert_eq!(toy_reply(Toy::Pickaxe, 3), "You need at least 10 levels for Pickaxe (you have 3)");
    assert_eq!(toy_reply(Toy::Fox, 4), "You need at least 5 levels for Fox (you have 4)");
    assert_eq!(toy_reply(Toy::Fox, 5), "Set your toy to Fox");
    assert_eq!(toy_reply(Toy::Tree, 0), "Set your toy to Tree");
    assert_eq!(toy_reply(Toy::SteveHeart, 0), "Set your toy to Steve heart");
}

#[test]
fn toy_requirements_and_values() {
    assert_eq!(Toy::Pickaxe.level_requirement(), 10);
    assert_eq!(Toy::Parrot.level_requirement(), 5);
    assert_eq!(Toy::GrassBlock.level_requirement(), 0);
    assert_eq!(Toy::GrassBlock.value(), "grassblock");
    assert_eq!(Toy::GrassBlock.to_string(), "Grass block");
}

fn text_of(reply: RankReply) -> Option<String> {
    match reply {
        RankReply::Text(s) => Some(s),
        RankReply::Card => None,
    }
}

#[test]
fn rank_replies() {
    assert_eq!(
        text_of(rank_reply(true, false, 500, "bot", 0)),
        Some("Bots aren't ranked, that would be silly!".to_string())
    );
    assert_eq!(
        text_of(rank_reply(false, true, 0, "me", 1)),
        Some("You aren't ranked yet, because you haven't sent any messages!".to_string())
    );
    assert_eq!(
        text_of(rank_reply(false, false, 0, "valk", 7)),
        Some("valk#0007 isn't ranked yet, because they haven't sent any messages!".to_string())
    );
    assert_eq!(text_of(rank_reply(false, true, 10, "me", 1)), None);
    assert_eq!(text_of(rank_reply(false, false, -3, "valk", 1234)), None);
}

#[test]
fn card_choice_rules() {
    assert_eq!(card_choices(false, Some("Mojang"), None), Ok((Font::Roboto, None)));
    assert_eq!(
        card_choices(true, Some("Mojang"), Some("fox.png")),
        Ok((Font::Mojang, Some(CardToy::Fox)))
    );
    assert_eq!(card_choices(true, None, Some("nope.png")), Ok((Font::Roboto, None)));
    assert_eq!(card_choices(true, Some("Comic Sans"), None), Err(LevelsError::InvalidFont));
}

#[test]
fn links() {
    assert_eq!(leaderboard_text(42), "[Click to view the leaderboard!](https://xp.valk.sh/42)");
    assert_eq!(avatar_url(5, None, 7), "https://cdn.discordapp.com/embed/avatars/5/2.png");
    assert_eq!(avatar_url(5, Some("abc"), 7), "https://cdn.discordapp.com/avatars/5/abc.png");
}

#[test]
fn help_message() {
    let in_guild = help(Some(42), "valk", 1234);
    assert_eq!(in_guild.color, 0x33_33_66);
    assert_eq!(in_guild.title, "Experienced Help");
    assert_eq!(in_guild.footer, "Requested by valk#1234");
    assert_eq!(
        in_guild.author,
        Some(("Leaderboard".to_string(), "https://xp.valk.sh/42".to_string()))
    );
    let names: Vec<&str> = in_guild.fields.iter().map(|f| f.name.as_str()).collect();
    assert_eq!(names, ["/help", "/rank", "/card", "/xp"]);
    assert!(in_guild.fields.iter().all(|f| f.inline));
    assert_eq!(in_guild.fields[0].value, "This command! Takes no arguments.");
    let in_dm = help(None, "valk", 5);
    assert_eq!(in_dm.author, None);
    assert_eq!(in_dm.footer, "Requested by valk#0005");
}

#[test]
fn reward_removal_rules() {
    let both = XpCommandRewardsRemove { level: Some(3), role: Some(5) };
    assert_eq!(reward_removal(&both), Ok(RewardRemoval::ByRole(5)));
    let level = XpCommandRewardsRemove { level: Some(3), role: None };
    assert_eq!(reward_removal(&level), Ok(RewardRemoval::ByLevel(3)));
    let neither = XpCommandRewardsRemove { level: None, role: None };
    assert_eq!(reward_removal(&neither), Err(Error::WrongArgumentCount));
    assert_eq!(
        Error::WrongArgumentCount.to_string(),
        "Command had wrong number of arguments: `/xp rewards remove` requires either a level or a role!!"
    );
    assert_eq!(Error::MissingGuildId.to_string(), "Discord did not send a guild ID!");
}

#[test]
fn manager_messages() {
    assert_eq!(removal_message(RewardRemoval::ByRole(5)), "Removed role reward <@&5>!");
    assert_eq!(removal_message(RewardRemoval::ByLevel(-2)), "Removed role reward for level -2!");
    assert_eq!(added_reward_message(7, 10), "Added role reward <@&7> at level 10!");
    assert_eq!(
        rewards_list_text(&[(1, 5), (2, 10)]),
        "Role reward <@&1> at level 5\nRole reward <@&2> at level 10\n"
    );
    assert_eq!(rewards_list_text(&[]), "");
    assert_eq!(
        ratelimit_message(30),
        "This guild is being ratelimited. Try again in 30 seconds."
    );
    assert_eq!(import_message(3), "Imported 3 rows of user leveling data!");
}

#[test]
fn import_rows_store_ids_as_signed() {
    let users = [
        Mee6User { id: 10, level: 2, xp: 300 },
        Mee6User { id: u64::MAX, level: 0, xp: 5 },
    ];
    let rows = import_rows(&users, 1u64 << 63);
    assert_eq!(rows.len(), 2);
    assert_eq!((rows[0].id, rows[0].guild, rows[0].xp), (10, i64::MIN, 300));
    assert_eq!((rows[1].id, rows[1].guild, rows[1].xp), (-1, i64::MIN, 5));
}

#[test]
fn card_edit_options() {
    let edit = CardCommandEdit {
        background: None,
        border: None,
        important: Some("#fff000".to_string()),
        secondary: None,
        rank: None,
        level: None,
        progress_foreground: None,
        progress_background: None,
        font: Some(CardCommandEditFont::MontserratAlt1),
        toy_image: Some(CardCommandEditToy::NoToy),
    };
    assert_eq!(edit.stored_toy(), None);
    assert_eq!(edit.stored_font(), Some("Montserrat-Alt1"));
    let fox = CardCommandEdit { toy_image: Some(CardCommandEditToy::Fox), font: None, ..edit };
    assert_eq!(fox.stored_toy(), Some("fox.png"));
    assert_eq!(fox.stored_font(), None);
    assert_eq!(CardCommandEditToy::NoToy.value(), "None");
    assert_eq!(CardCommandEditToy::PotionRed.value(), "potion_red.png");
    assert_eq!(CardCommandEditFont::JetBrainsMono.value(), "JetBrains Mono");
}

#[test]
fn card_description_text() {
    assert_eq!(
        card_description("ferris", 7, 3, 2, 45),
        "ferris#0007 is level 3 (rank #2), and is 45% of the way to level 4."
    );
    assert_eq!(
        card_description("a", 1234, 0, 1, 0),
        "a#1234 is level 0 (rank #1), and is 0% of the way to level 1."
    );
}

#[test]
fn rank_is_one_more_than_those_ahead() {
    assert_eq!(rank_from_count(Some(0)), 1);
    assert_eq!(rank_from_count(Some(41)), 42);
    assert_eq!(rank_from_count(None), 1);
}
