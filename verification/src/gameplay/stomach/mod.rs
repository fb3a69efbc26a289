//! The stomach: eating props and what is heard while doing so.

pub mod eat;
