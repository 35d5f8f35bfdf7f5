pub mod messages;
pub mod registry;
pub mod caller;
pub mod requests;
pub mod users;
