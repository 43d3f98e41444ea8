//! Webhooks: endpoints, the events they subscribe to, and deliveries.

pub mod endpoint;
pub mod event;
pub mod event_types;
