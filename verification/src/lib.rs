//! Editing engine for a single-line text input control in character-cell
//! user interfaces.
//!
//! The engine owns a text buffer addressed by code-point index, a cursor, an
//! optional selection anchor, an insert/overwrite mode flag, a focus flag and
//! a horizontally scrolling view window. [`Message`]s drive all mutation
//! through [`InputState::handle_message`]; the view window algorithms live on
//! [`ViewWindow`].

mod index;
mod laws;
mod message;
mod ops;
mod render;
mod state;
mod step;
mod window;

pub use index::char_idx_to_byte_idx;
pub use message::Message;
pub use render::RenderCell;
pub use state::InputState;
pub use state::Selection;
pub use window::ViewWindow;
