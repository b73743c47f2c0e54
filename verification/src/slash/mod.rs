//! The slash-command side of the bot: command options, card colours, toys and
//! the replies that follow from them.
pub mod colors;
pub mod toy;
pub mod cmd_defs;
pub mod levels;
pub mod help;
pub mod render_card;
pub mod manager;
pub mod processor;
