//! Verified core of the Experienced levelling bot: level arithmetic, message
//! templates, role rewards, rank-card customisation, slash-command replies,
//! the permission cache, request signatures and the storage layer's decisions.
pub mod mee6;
pub mod libmee6;
pub mod mee6_xp_to_level;
pub mod text;
pub mod interpolation;
pub mod interpolation_laws;
pub mod common;
pub mod rewards;
pub mod hex_color;
pub mod rank_card;
pub mod slash;
pub mod listener;
pub mod simple_listener;
pub mod database;
pub mod audit_log;
pub mod permission_cache;
pub mod signature;
pub mod web;
pub mod user_cache;

pub use vstd::hash_map::StringHashMap;
