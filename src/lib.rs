//! Ownership, moves and borrowing, shown on two small records.
//!
//! Each demonstration returns the lines it shows, in order, so that the
//! caller decides where they go.

pub mod decimal;
pub mod driver;
pub mod ownership_lifetimes_and_borrowing;

pub use driver::run;
pub use ownership_lifetimes_and_borrowing::{
    borrowing,
    ownership_in_a_nutshell,
    passing_object_from_scope_to_scope,
};
