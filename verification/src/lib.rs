//! The decisions of a desktop-settings service: which settings exist, what
//! applying one asks of the system, how the system's answers are read, and
//! what the web front end is told.

pub mod cli;
pub mod command;
pub mod gsettings;
pub mod laws;
pub mod modprobe;
pub mod registry;
pub mod server;
pub mod settings;
pub mod systemctl;
pub mod text;
pub mod value;
