//! Props with behaviour of their own.

pub mod intro_crt;
