pub mod link;
pub mod model;
pub mod platform;
pub mod poller;
pub mod relay;
pub mod source;
pub mod text;
pub mod upload;
