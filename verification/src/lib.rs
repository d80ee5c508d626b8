//! Share consumers: typed configuration, acknowledgement types, record
//! batches and a consumer whose runtime methods report that the broker
//! protocol is not available yet.

pub mod acknowledge;
pub mod client;
pub mod config;
pub mod consumer;
pub mod context;
pub mod error;
pub mod records;
pub mod text;
pub mod util;
