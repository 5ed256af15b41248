//! The control core of a terminal panel for audio effects: a fixed catalog
//! of effects, four bounded parameters per effect, the selection that the
//! operator moves around, and the orchestration of the external tools that
//! transform a recording and play it back.

pub mod parameter;
pub mod catalog;
pub mod store;
pub mod widget;
pub mod selection;
pub mod text;
pub mod tools;
pub mod status;
pub mod orchestrator;
pub mod input;
pub mod panel;
pub mod screen;
