//! A day's calendar events projected onto a fixed grid of rows, together
//! with the decisions of the credential lifecycle that fetching them needs.
//!
//! The library performs no input or output. Wherever a network exchange, a
//! file or the terminal is involved, it decides what is to be done next and
//! is told afterwards what came of it.

pub mod calendar;
pub mod event;
pub mod clock;
pub mod fetch;
pub mod token;
pub mod text;
pub mod auth;
pub mod render;
pub mod schedule;
