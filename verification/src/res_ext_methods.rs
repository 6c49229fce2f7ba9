//! The functions behind the methods on results, one file per group.

pub mod better_expect;
pub mod context;
pub mod map_err_into;
pub mod or_default_context;
pub mod or_exit;
pub mod to_option_context;
pub mod with_context;
