//! A keyboard-driven task tracker: the task entity and its identity, the
//! ordered task store, and the focus state machine that decides which panel
//! and which field of the interface is active.

pub mod app;
pub mod input;
pub mod ui;
