//! The list of todos with its selection cursor, and the popup drawn over it.

pub mod list;
pub mod popup;
