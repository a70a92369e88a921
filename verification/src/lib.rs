//! Verified core of the SixtyFPS procedural macro front end and of the Qt
//! scroll view item: token flattening, item-tree planning and scroll bar
//! event handling.

pub mod tokens;
pub mod token_laws;
pub mod scrollbar;
pub mod frame;
pub mod component;
