//! Session persistence over a Redis connection manager: the keys, commands
//! and reply handling of the three store operations, with their contracts.

pub mod backend;
pub mod codec;
pub mod command;
pub mod error;
pub mod key;
pub mod store;

pub use error::{RedisStoreError, StoreError};
pub use store::RedisPoolStore;
