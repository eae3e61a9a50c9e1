//! The redirect web server's logic: queries, redirects, health checks and audit records.

pub mod audit_log;
pub mod redirect;
pub mod health;
pub mod state;
