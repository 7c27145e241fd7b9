//! State that the host's implementations of the guest's frameworks keep
//! between calls.

pub mod ns_autorelease_pool;
pub mod opengles;
pub mod ui_color;
pub mod ui_graphics;
