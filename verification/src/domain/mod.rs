//! The trap's model of a request and of the decoys it answers with.

pub mod generator;
pub mod generators;
pub mod payload;
pub mod request;
pub mod request_url;

pub use generator::PayloadGenerator;
pub use payload::Payload;
pub use request::Request;
pub use request_url::RequestUrl;
