//! Core logic of a setup-wizard front-end: the four-state lifecycle,
//! argument construction for the external setup executable, the cosmetic
//! progress animation, and the formatting of diagnostic messages.
//!
//! Rendering and process supervision live outside this crate; they drive
//! a [`session::SetupSession`] through its verified methods.

pub mod state;
pub mod progress;
pub mod messages;
pub mod args;
pub mod paths;
pub mod session;
