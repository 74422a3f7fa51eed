//! What the user can set.

pub mod keys;
