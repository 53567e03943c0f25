pub mod error;
pub mod pages;
pub mod tasks;
pub mod users;

pub use error::ApiError;
