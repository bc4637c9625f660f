//! A small personal task list: one task per line of a plain text store.
//!
//! A request adds a task, lists the tasks or clears them ([`command`]). It
//! is served by one operation on the store ([`operation`]), whose text holds
//! one task per line ([`text`], [`store`]). What is printed are notices and
//! numbered tasks ([`listing`], [`line`], [`decimal`]). The store lives in a
//! file in the user's data directory ([`path`]). What is taken on trust from
//! other code stands in [`outside`].

pub mod command;
pub mod decimal;
pub mod error;
pub mod line;
pub mod listing;
pub mod operation;
pub mod outside;
pub mod path;
pub mod store;
pub mod text;
