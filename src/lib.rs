//! Sorting of newly created files into subdirectories named after their
//! uppercased extension.
//!
//! The library holds the decisions: which change events are acted on, where a
//! file goes, and how each step of a move is judged. A driver performs the
//! filesystem work that the decisions ask for and hands the results back.

pub mod paths;
pub mod category;
pub mod events;
pub mod mover;
pub mod fs_model;
pub mod config;
pub mod service;
