//! Smart shortcut engine: shortcuts, aliases, redirects and request auditing.

pub mod audit_log;
pub mod http_headers;
pub mod text;
pub mod connect_info;
pub mod time;
pub mod audit_record;
pub mod web;
pub mod header;
pub mod request_id;
pub mod data_plane;
pub mod control_plane;
pub mod cli;
