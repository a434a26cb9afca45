//! Geoffrey: the decisions of a course-help Discord bot, kept apart from the
//! bot's Discord and database traffic so that they can be verified.
pub mod admin;
pub mod dates;
pub mod errors;
pub mod events;
pub mod flows;
pub mod ids;
pub mod questions;
pub mod records;
pub mod schema;
pub mod store;
pub mod users;
