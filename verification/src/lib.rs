//! Interactive terminal-prompt toolkit: the pure, verified core.
//!
//! The library models each prompt as a keyboard-driven state machine and the
//! redraw protocol as a pure frame computation. All terminal I/O (raw mode,
//! key events, painting) lives outside the library; callers feed plain `Key`
//! values in and take frames and results out.

pub mod add_widget;
pub mod confirm;
pub mod feature_select;
pub mod filter;
pub mod key;
pub mod render;
pub mod search_select;
pub mod strings;
pub mod text_input;

pub use add_widget::{add_widget, AddResult};
pub use confirm::confirm;
pub use feature_select::feature_select;
pub use filter::filter;
pub use key::Key;
pub use search_select::search_select;
pub use text_input::text_input;
