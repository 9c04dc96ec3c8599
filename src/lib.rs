//! Serving GraphQL queries and subscriptions over one HTTP endpoint: request
//! decoding, the subscription-to-event-stream state machine, the shutdown
//! registry and the `interval` counter.

pub mod adapter;
pub mod engine;
pub mod interval;
pub mod request;
pub mod shutdown;
