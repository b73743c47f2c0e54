use experienced::hex_color::ColorError;
use experienced::rank_card::cards::Card;
use experienced::rank_card::colors::Colors;
use experienced::rank_card::config::{CardItem, ConfigItem, NameableItem};
use experienced::rank_card::customizations::{Color, Customizations};
use experienced::rank_card::font::Font;
use experienced::rank_card::toy::Toy;

#[test]
fn customizations_basic_roundtrip() {
    for red in u8::MIN..=u8::MAX {
        for green in u8::MIN..=u8::MAX {
            for blue in u8::MIN..=u8::MAX {
                let color = Color::new(red, green, blue);
                let text = color.to_string();
                assert_eq!(Ok(color), Color::from_hex(&text));
            }
        }
    }
}

#[test]
fn hex_code_is_upper_case_with_hash() {
    assert_eq!(Color::new(255, 128, 0).to_string(), "#FF8000");
    assert_eq!(Color::new(0, 0, 0).to_string(), "#000000");
    assert_eq!(Color::new(1, 2, 3).to_string(), "#010203");
}

#[test]
fn customizations_toml_roundtrip() {
    for blue in [0u8, 1, 127, 128, 254, 255] {
        let mut table = toml::Table::new();
        for red in u8::MIN..=u8::MAX {
            for green in u8::MIN..=u8::MAX {
                let color = Color::new(red, green, blue);
                table.insert(format!("c{red}_{green}"), toml::Value::String(color.to_string()));
            }
        }
        let text = toml::to_string(&table).unwrap();
        let back: toml::Table = toml::from_str(&text).unwrap();
        for red in u8::MIN..=u8::MAX {
            for green in u8::MIN..=u8::MAX {
                let stored = back[&format!("c{red}_{green}")].as_str().unwrap();
                assert_eq!(Color::from_hex(stored), Ok(Color::new(red, green, blue)));
            }
        }
    }
}

#[test]
fn from_hex_accepts_either_case_and_any_leading_hashes() {
    assert_eq!(Color::from_hex("ff8000"), Ok(Color::new(255, 128, 0)));
    assert_eq!(Color::from_hex("#Ff8000"), Ok(Color::new(255, 128, 0)));
    assert_eq!(Color::from_hex("###ff8000"), Ok(Color::new(255, 128, 0)));
}

#[test]
fn from_hex_invalid_length() {
    assert_eq!(Color::from_hex("#fff"), Err(ColorError::InvalidLength));
    assert_eq!(Color::from_hex(""), Err(ColorError::InvalidLength));
    assert_eq!(Color::from_hex("#1234567"), Err(ColorError::InvalidLength));
    assert_eq!(Color::from_hex("12#456"), Err(ColorError::ParseInt));
}

#[test]
fn from_hex_invalid_digit() {
    assert_eq!(Color::from_hex("#gg0000"), Err(ColorError::ParseInt));
    assert_eq!(Color::from_hex("#00-100"), Err(ColorError::ParseInt));
    assert_eq!(Color::from_hex("#++0000"), Err(ColorError::ParseInt));
    assert_eq!(Color::from_hex("+f+f+f"), Err(ColorError::ParseInt));
    assert_eq!(Color::from_hex("#00+f00"), Err(ColorError::ParseInt));
    // Six bytes, with a two-byte character as the first pair.
    assert_eq!(Color::from_hex("\u{e9}0000"), Err(ColorError::ParseInt));
    // The first pair fails before the second pair, which splits a character, is read.
    assert_eq!(Color::from_hex("zzz\u{e9}0"), Err(ColorError::ParseInt));
}

#[test]
fn color_error_messages() {
    assert_eq!(
        ColorError::InvalidLength.to_string(),
        "Invalid length! Hex data length must be exactly 6 characters!"
    );
    assert_eq!(
        ColorError::ParseInt.to_string(),
        "Integer parsing error: invalid digit found in string!"
    );
}

fn classic() -> Customizations {
    Card::Classic.default_customizations()
}

#[test]
fn display_of_defaults() {
    let defaults = classic();
    let shown = defaults.display(&defaults).unwrap();
    assert_eq!(
        shown,
        "Important text: `#FFFFFF` (default)\n\
         Rank: `#FFFFFF` (default)\n\
         Level: `#8FCA5C` (default)\n\
         Border: `#854F2B` (default)\n\
         Background: `#61371F` (default)\n\
         Progress bar completed: `#477A1E` (default)\n\
         Progress bar remaining: `#8FCA5C` (default)\n\
         Progress bar foreground overlay: `#FFFFFF` (default)\n\
         Progress bar background overlay: `#000000` (default)\n\
         Font: `Mojang` (default)\n\
         Toy: `None`\n\
         Card: `classic.svg` (default)\n"
    );
}

#[test]
fn display_marks_only_defaults() {
    let defaults = classic();
    let mut mine = classic();
    mine.username = Color::new(1, 2, 3);
    mine.font = "Roboto".to_string();
    mine.toy = Some("fox.png".to_string());
    let shown = mine.display(&defaults).unwrap();
    let lines: Vec<&str> = shown.lines().collect();
    assert_eq!(lines[0], "Important text: `#010203`");
    assert_eq!(lines[1], "Rank: `#FFFFFF` (default)");
    assert_eq!(lines[9], "Font: `Roboto`");
    assert_eq!(lines[10], "Toy: `fox.png`");
    assert_eq!(lines[11], "Card: `classic.svg` (default)");
    assert_eq!(lines.len(), 12);
}

#[test]
fn colors_display_against_builtin_defaults() {
    let mut colors = Colors::default();
    assert_eq!(
        colors.to_string(),
        "Important text: `#FFFFFF` (default)\n\
         Rank: `#FFFFFF` (default)\n\
         Level: `#8FCA5C` (default)\n\
         Border: `#854F2B` (default)\n\
         Background: `#61371F` (default)\n\
         Progress bar completed: `#477A1E` (default)\n\
         Progress bar remaining: `#8FCA5C` (default)\n\
         Progress bar foreground overlay: `#FFFFFF` (default)\n\
         Progress bar background overlay: `#000000` (default)\n"
    );
    colors.border = experienced::rank_card::colors::Color::new(0, 0, 255);
    assert!(colors.to_string().contains("Border: `#0000FF`\n"));
}

#[test]
fn classic_defaults() {
    let c = classic();
    assert_eq!(c.username, Color::new(255, 255, 255));
    assert_eq!(c.level, Color::new(143, 202, 92));
    assert_eq!(c.background_xp_count, Color::new(0, 0, 0));
    assert_eq!(c.font, "Mojang");
    assert_eq!(c.toy, None);
    assert_eq!(c.internal_name, Card::Classic.name());
}

#[test]
fn card_names() {
    assert_eq!(Card::Classic.name(), "classic.svg");
    assert_eq!(Card::from_name("classic.svg"), Some(Card::Classic));
    assert_eq!(Card::from_name("classic"), None);
    assert_eq!(Card::default(), Card::Classic);
}

const FONTS: [Font; 4] = [Font::JetBrainsMono, Font::Mojang, Font::MontserratAlt1, Font::Roboto];

#[test]
fn font_names_roundtrip() {
    for font in FONTS {
        assert_eq!(Font::from_name(&font.to_string()), Some(font));
    }
    assert_eq!(Font::from_name("Comic Sans"), None);
    assert_eq!(Font::from_name("jetbrains mono"), None);
}

#[test]
fn font_files_and_families() {
    assert_eq!(Font::JetBrainsMono.family(), "'JetBrains Mono'");
    assert_eq!(Font::MontserratAlt1.family(), "'Montserrat-Alt1'");
    assert_eq!(Font::Mojang.family(), "Mojang");
    assert_eq!(Font::Roboto.filename(), "Roboto.ttf");
    assert_eq!(Font::MontserratAlt1.filename(), "MontserratAlt1.ttf");
    assert_eq!(Font::MontserratAlt1.to_string(), "Montserrat Alt1");
}

const TOYS: [Toy; 16] = [
    Toy::Airplane,
    Toy::Bee,
    Toy::Biscuit,
    Toy::Chicken,
    Toy::Cow,
    Toy::Fox,
    Toy::GrassBlock,
    Toy::Parrot,
    Toy::Pickaxe,
    Toy::Pig,
    Toy::PotionBlue,
    Toy::PotionPurple,
    Toy::PotionRed,
    Toy::Sheep,
    Toy::SteveHeart,
    Toy::Tree,
];

#[test]
fn toy_filenames_roundtrip() {
    for toy in TOYS {
        assert_eq!(Toy::from_filename(toy.filename()), Some(toy));
    }
    assert_eq!(Toy::from_filename("dragon.png"), None);
}

#[test]
fn toy_details() {
    assert_eq!(Toy::Airplane.author(), "valkyrie_pilot");
    assert_eq!(Toy::Bee.author(), "Cyana");
    assert_eq!(Toy::PotionBlue.filename(), "potion_blue.png");
    assert_eq!(Toy::PotionBlue.to_string(), "Blue Potion Bottle");
    assert_eq!(Toy::GrassBlock.to_string(), "Grass Block");
    assert_eq!(Toy::SteveHeart.filename(), "steveheart.png");
}

#[test]
fn nameable_items() {
    let font = ConfigItem {
        file: "fonts/Mojang.ttf".to_string(),
        internal_name: "Mojang".to_string(),
        display_name: "Mojangles".to_string(),
    };
    assert_eq!(font.display_name(), "Mojangles");
    assert_eq!(font.internal_name(), "Mojang");
    let card = CardItem {
        file: "cards/classic.svg".to_string(),
        display_name: "Classic".to_string(),
        customizations: classic(),
    };
    assert_eq!(card.display_name(), "Classic");
    assert_eq!(card.internal_name(), "classic.svg");
}
