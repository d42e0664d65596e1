//! An in-process record-management library: a user record with an advisory
//! validity predicate, and a manager that stores users in insertion order
//! and answers queries and statistics over them.

pub mod manager;
pub mod user;
pub mod user_utils;

pub use manager::UserManager;
pub use manager::UserStats;
pub use user::User;
pub use user::UserView;
