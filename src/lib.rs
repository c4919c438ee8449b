//! A single-line, vim-style text input engine with a scrolling viewport, and a
//! small binary-tree node with shared children.
//!
//! `model` states what each editing operation does to the abstract state of a
//! widget, `input` carries the operations out on `InputState`, and `laws`
//! proves what holds across them.

pub mod binary_tree;
pub mod classify;
pub mod input;
pub mod keys;
pub mod laws;
pub mod model;

pub use binary_tree::{Node, NodeRef};
pub use classify::CharClass;
pub use input::{Input, InputState, Projection};
pub use keys::{action_for, Action, EditEntry, Key, Mode};
pub use model::EditorView;
