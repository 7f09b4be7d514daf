//! In-memory entity stores for news items, posts and users, with
//! full-replace and deep partial-merge updates.

pub mod entity;
pub mod error;
pub mod merge;
pub mod store;
pub mod service;
