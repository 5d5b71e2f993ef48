pub mod client;
pub mod request;
pub mod response;
