//! What the request handlers work with.

pub mod cmd;
pub mod files_list;
pub mod http_files;
pub mod myregex;
pub mod ws;
