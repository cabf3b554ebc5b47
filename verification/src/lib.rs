//! Core of a terminal user interface: trigger widgets that bind a key to an
//! event producer, a first-match event dispatcher, and the render/read loop
//! that restores the terminal exactly once on every exit path.
//!
//! The terminal backend itself stays outside: the loop here is driven by
//! the per-iteration outcome the backend reports, so every decision the
//! interface makes — what a widget renders, which widget an input
//! occurrence triggers, when the loop ends and with what — carries a
//! verified contract.

pub mod app;
pub mod events;
pub mod key;
pub mod widget;
