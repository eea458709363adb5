//! What the account API decides on its own.

pub mod accounts;
