//! A client core for the Gemini protocol, with the navigation model of a
//! small browser on top of it.
//!
//! [`gemini`] resolves locations, frames requests, splits and classifies
//! responses, and drives one request from its first step to its outcome.
//! [`ui`] keeps the browser's history and decides what each user action
//! leads to. [`text`] holds the character-level routines both rest on.

pub mod gemini;
pub mod text;
pub mod ui;
