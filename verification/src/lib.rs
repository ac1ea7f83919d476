//! Core machinery of a publish/subscribe-and-query command layer.
//!
//! The library covers the three pieces every streaming command of the
//! embedding shell depends on: a typed-option decoding layer that turns
//! raw call parameters into validated protocol options, a conversion
//! layer that maps delivered events (samples, queries, replies,
//! discovery announcements) into one generic structured-value shape,
//! and a cancellable adapter that turns a callback-fed bounded channel
//! into a lazily pulled, interruptible sequence that keeps an owned
//! network resource alive for exactly as long as consumption continues.

pub mod commands;
pub mod errors;
pub mod keyexpr;
pub mod options;
pub mod records;
pub mod registry;
pub mod stream;
pub mod value;
