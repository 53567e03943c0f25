pub mod codec;
pub mod error;
pub mod laws;
pub mod lemmas;
pub mod memory;
pub mod model;
pub mod outcome;
pub mod plan;
pub mod repository;
pub mod sqlite;

pub use error::RepositoryError;
pub use repository::Repository;
pub use sqlite::{DbPool, SqliteRepository};
