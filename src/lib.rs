//! Translates decoded windowing-protocol events into an ordered stream of
//! semantic events and requests, keeping the state of each sub-protocol:
//! drag and drop, keyboard repeat and modifiers, touch contacts, window
//! geometry, devices and input-method composition.
//!
//! [`processor::EventProcessor::process_event`] is the entry point; its
//! transition is stated by [`processor::step`].

pub mod devices;
pub mod dnd;
pub mod event;
pub mod geometry;
pub mod keyboard;
pub mod processor;
pub mod touch;
pub mod windows;
