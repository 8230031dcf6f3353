//! The verified core of a desktop client for a 2FAuth server: server address
//! checks, configuration defaults, the remembered collapse state of account
//! groups, the layout of the account list, one-time-password display and
//! timing, and the messages shown for errors.

pub mod text;
pub mod config;
pub mod ui_state;
pub mod models;
pub mod account_list;
pub mod otp;
pub mod icons;
pub mod client;
pub mod gettext;
pub mod i18n;
pub mod settings;
pub mod token_store;
