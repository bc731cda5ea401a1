//! Scrolling for the panels of a terminal user interface: key and mouse
//! events turned into movements of a viewport over its content.
//!
//! Each panel keeps its viewport in a scroll core of `cursive`. The functions
//! of [`scroll`] move that viewport as the event asks, after the panel's
//! content had its say; [`rules`] holds the table of what scrolls and when,
//! [`gesture`] the double press that jumps to the top and the drag of a
//! scrollbar, and [`viewport`] what each movement does to a viewport, with
//! the laws that follow.

pub mod event;
pub mod geometry;
pub mod gesture;
pub mod rules;
pub mod scroll;
pub mod scroller;
pub mod viewport;

pub use cursive::view::scroll::Core;
pub use event::{Event, EventResult, Key, Keybindings, MouseButton, MouseEvent};
pub use geometry::{Rect, Vec2};
pub use gesture::{Debounce, Drag};
pub use scroll::{
    conclude, important_area, on_event, on_event_at, scroll_by, try_important_area, ScrollContent,
};
