//! What the launcher promises of its operations, said of what goes into them and what
//! comes out.

pub mod accounts;
pub mod config;
pub mod install;
pub mod launch;
pub mod login;
pub mod mods;
pub mod places;
pub mod settings;
pub mod text;
pub mod window;
