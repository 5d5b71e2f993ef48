pub mod client;
pub mod json;
pub mod laws;
pub mod common;
pub mod dedent;
pub mod request;
pub mod response;
pub mod template;
pub mod utils;
pub mod wire;
pub mod xml_dsl;
