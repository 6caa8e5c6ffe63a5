//! Core of a truth-or-dare chat bot: rating resolution, bounded random
//! selection, catalog pagination and the cursor codec behind the page
//! controls. The logic is verified; the few calls that reach outside of it
//! (a coin, a fresh identity, two Unicode operations) are declared with what
//! is believed of them. Transport and storage live outside this crate.

pub mod chance;
pub mod commands;
pub mod cursor;
pub mod embed;
pub mod guild_settings;
pub mod interactions;
pub mod menu_type;
pub mod pagination;
pub mod questions;
pub mod rating;
pub mod selection;
pub mod text;
pub mod unicode;
