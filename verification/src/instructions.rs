//! The operations, one module for each group of them.

pub mod admin;
pub mod burn;
pub mod initialize;
pub mod mint;
pub mod pit;
