//! Data model and interaction rules of a desktop chat front-end that keeps one
//! conversation and one settings record in a local database.
//!
//! The database, the window and the platform directories live with the
//! program that embeds this library; everything that decides what the
//! records hold and how the user's actions change them lives here.

pub mod interval;
pub mod json;
pub mod model;
pub mod records;
pub mod session;

pub use model::{AppSettings, Conversation, Message};

pub use records::{
    conversation_from_row, default_conversation, default_settings, root_paths_text,
    settings_from_decoded, settings_from_row,
};
pub use session::{stub_reply, ChatSession, Persist};
