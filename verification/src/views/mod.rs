//! The widgets of a workspace, as far as they are more than layout: each has
//! a title, and all but one a subscription of their own.

pub mod about;
pub mod big_number;
pub mod flot;
pub mod log;
