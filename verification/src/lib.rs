//! The coordination core of a searchable picker: a list of candidate matches
//! filtered by a live query, with keyboard navigation, asynchronous match
//! updates and confirmation.
//!
//! The core performs no I/O and starts no task. Every operation reads plain
//! values, changes the picker's own state, and returns the ordered list of
//! [`Effect`]s that the host has to carry out on the delegate and on the view.

pub mod effect;
pub mod host;
pub mod model;
pub mod options;
pub mod picker;
pub mod render;
pub mod selection;
pub mod theorems;

pub use crate::effect::Effect;
pub use crate::model::ContainerKind;
pub use crate::options::{SearchOptions, SupportedSearchOptions};
pub use crate::picker::{EditorEvent, Picker};
pub use crate::render::{
    Rendered, RenderedBody, RenderedContainer, RenderedElement, RenderedHead, SearchButton,
};
pub use crate::selection::Matches;
