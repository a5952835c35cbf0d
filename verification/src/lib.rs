//! Verified core of an asynchronous OPC UA client: the decisions that sit
//! between a callback-driven protocol engine and its asynchronous callers.

pub mod async_client;
pub mod async_monitored_item;
pub mod async_subscription;
pub mod background;
pub mod callback;
pub mod channel;
pub mod error;
pub mod service;
pub mod ua;

pub use async_client::AsyncClient;
pub use async_monitored_item::AsyncMonitoredItem;
pub use async_subscription::AsyncSubscription;
pub use callback::CallbackOnce;
pub use error::Error;
