pub mod client;
pub mod request;
