//! What `/help` shows.
use vstd::prelude::*;
use crate::slash::levels::{leaderboard_link, push_tag, tag};
use crate::text::{push_decimal, push_str, string_with_capacity};

verus! {

/// One titled entry of an embed.
pub struct EmbedField {
    pub name: String,
    pub value: String,
    pub inline: bool,
}

/// The help message, as the parts of an embed.
pub struct HelpEmbed {
    pub color: u32,
    pub title: String,
    pub fields: Vec<EmbedField>,
    pub footer: String,
    /// The author line: its text and the address it links to.
    pub author: Option<(String, String)>,
}

/// The help entries: one per command, each shown inline.
pub open spec fn help_fields() -> Seq<(Seq<char>, Seq<char>, bool)> {
    seq![
        ("/help"@, "This command! Takes no arguments."@, true),
        ("/rank"@, "Get someone's rank. Takes one optional argument, for the user to rank."@, true),
        ("/card"@, "Usually, edit your card. Anything with an open-ended input needs a hex code. You can `/card fetch` anyone's card with its optional user argument."@, true),
        ("/xp"@, "Commands to manage the bot in this server."@, true),
    ]
}

/// A field as plain values.
pub open spec fn field_view(f: EmbedField) -> (Seq<char>, Seq<char>, bool) {
    (f.name@, f.value@, f.inline)
}

fn field(name: &str, value: &str) -> (f: EmbedField)
    ensures
        field_view(f) == (name@, value@, true),
{
    EmbedField { name: name.to_string(), value: value.to_string(), inline: true }
}

/// The help message for someone asking, in a guild or not: the command list,
/// who asked, and in a guild a link to its leaderboard.
pub fn help(guild_id: Option<u64>, invoker_name: &str, invoker_discriminator: u16) -> (e: HelpEmbed)
    ensures
        e.color == 0x33_33_66,
        e.title@ == "Experienced Help"@,
        e.fields@.map_values(|f: EmbedField| field_view(f)) == help_fields(),
        e.footer@ == "Requested by "@ + tag(invoker_name@, invoker_discriminator),
        match guild_id {
            None => e.author is None,
            Some(id) => e.author matches Some((name, url)) && name@ == "Leaderboard"@ && url@
                == leaderboard_link(id),
        },
{
    let mut fields: Vec<EmbedField> = Vec::new();
    fields.push(field("/help", "This command! Takes no arguments."));
    fields.push(
        field("/rank", "Get someone's rank. Takes one optional argument, for the user to rank."),
    );
    fields.push(
        field(
            "/card",
            "Usually, edit your card. Anything with an open-ended input needs a hex code. You can `/card fetch` anyone's card with its optional user argument.",
        ),
    );
    fields.push(field("/xp", "Commands to manage the bot in this server."));
    assert(fields@.map_values(|f: EmbedField| field_view(f)) == help_fields());
    let mut footer = string_with_capacity(64);
    push_str(&mut footer, "Requested by ");
    push_tag(&mut footer, invoker_name, invoker_discriminator);
    let author = match guild_id {
        Some(id) => {
            let mut url = string_with_capacity(32);
            push_str(&mut url, "https://xp.valk.sh/");
            push_decimal(&mut url, id);
            Some(("Leaderboard".to_string(), url))
        },
        None => None,
    };
    HelpEmbed {
        color: 0x33_33_66,
        title: "Experienced Help".to_string(),
        fields,
        footer,
        author,
    }
}

} // verus!
