//! Configuration resolution and command dispatch for a project command runner.
//!
//! A project declares named shell commands in a `.hoi.yml` file; a user-wide file may add
//! more. This library turns parsed documents into an effective configuration, resolves a
//! token to a command, and expands the configured entrypoint into a process invocation.
pub mod command_map;
pub mod entrypoint;
pub mod hoi;
pub mod laws;
pub mod listing;
pub mod locator;
pub mod request;
pub mod resolver;
pub mod user_command;

pub use crate::entrypoint::{expand_entrypoint, Invocation};
pub use crate::hoi::{
    default_description, default_entrypoint, default_version, ConfigDocument, Hoi, HoiError,
};
pub use crate::listing::{display_text, get_random_did_you_know, listing};
pub use crate::locator::{environment_files, nearest_config, EnvFile};
pub use crate::request::{parse_request, Request};
pub use crate::resolver::{find_command_by_alias, resolve_command};
pub use crate::user_command::{trimmed, CommandDocument, UserCommand};
