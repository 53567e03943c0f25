pub mod ident;
pub mod tag;
pub mod task;
pub mod timestamp;
pub mod user;

pub use tag::Tag;
pub use task::Task;
pub use user::User;
