//! Persistence core of a task tracker: users, tasks and tags, the row codecs
//! that carry them to and from a relational store, and the repository that
//! keeps the task-to-tag relation in step with every write.

pub mod text;
pub mod api;
pub mod db;
pub mod models;
