//! The logic of a local SSH workbench server.

pub mod accounts;
pub mod base64_text;
pub mod clock;
pub mod credentials;
pub mod desktop;
pub mod documents;
pub mod error;
pub mod file_sessions;
pub mod files;
pub mod hosts;
pub mod json;
pub mod json_text;
pub mod keys;
pub mod records;
pub mod remote_path;
pub mod replies;
pub mod sessions;
pub mod ssh;
pub mod store;
pub mod tables;
pub mod terminal;
pub mod terminal_loop;
pub mod terminal_socket;
pub mod text;
