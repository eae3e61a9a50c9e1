//! The data plane: shortcuts (destinations and their aliases), the rules that govern
//! them, and paging through them.

pub mod error;
pub mod model;
pub mod utils;
pub mod pagination;
pub mod client;
pub mod default_fallback;
pub mod delete_aliases;
