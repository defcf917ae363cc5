//! The decisions of the SCL3 Minecraft launcher: what its configuration means,
//! how its window follows the user, and what it asks of the network, the disk
//! and the credential store.

pub mod accounts;
pub mod avatar;
pub mod components;
pub mod config;
pub mod global;
pub mod install;
pub mod launch;
pub mod laws;
pub mod login;
pub mod mods;
pub mod navigation;
pub mod paths;
pub mod places;
pub mod startup;
pub mod text;
pub mod ui_sync;
pub mod window;
