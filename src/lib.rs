pub mod discovery;
pub mod account;
pub mod backends;
pub mod request;
pub mod settings;
