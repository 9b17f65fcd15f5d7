//! Core of a terminal todo client and its in-memory task service.
//!
//! The library holds the verified logic: the shared domain vocabulary
//! (tasks, priorities, filters, queries), the task-list model that the
//! service maintains, the wrap-around list navigator, the mode-driven
//! input state machine, the action/event dispatch rules of the background
//! worker, and the pure rendering model. Process plumbing (HTTP transport,
//! terminal drawing, logging) lives outside the library and talks to it
//! through plain values.

pub mod domain;
pub mod model;
pub mod navigate;
pub mod dispatch;
pub mod input;
pub mod drain;
pub mod render;
