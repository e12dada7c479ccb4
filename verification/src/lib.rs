//! Core logic of a file explorer that caches file metadata in memory and
//! persists it through a key-value store.
pub mod text;
pub mod model;
pub mod paths;
pub mod catalog;
pub mod nodes;
pub mod search;
pub mod icons;
pub mod sizes;
pub mod timefmt;
pub mod views;
pub mod commands;
pub mod session;
pub mod laws;
