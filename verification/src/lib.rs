//! Kui is a small vector-based UI toolkit. This crate holds its decision logic: the interaction
//! state of input elements, the handling of pointer and keyboard input, the bookkeeping of
//! dirty states, timed callbacks and lazily created children.
pub mod app_state;
pub mod appearance;
pub mod button;
pub mod canvas;
pub mod ctx;
pub mod element;
pub mod elements;
pub mod event;
pub mod event_loop;
pub mod events;
pub mod flex;
pub mod hooks;
pub mod interactive;
pub mod lazy_linear_layout;
pub mod linear_layout;
pub mod shapes;
pub mod text;
pub mod text_input;
pub mod window_state;
pub mod with_cursor;
pub mod with_data;

use vstd::prelude::*;

verus! {

/// Runs the Kui application.
///
/// The event loop itself is driven by the windowing layer that embeds this library; on its own,
/// this function has nothing to run and returns at once.
pub fn run() {
}

} // verus!
