pub mod secret;
pub mod smart;
pub mod store;
