//! Core of a push-notification service for report status changes: the report
//! lifecycle state machine, the status cache, the connection registry and the
//! event actor that owns them.

pub mod report_status;
pub mod status_cache;
pub mod app_events;
pub mod connection_registry;
pub mod event_actor;
pub mod chat_message;
pub mod message_bus;
