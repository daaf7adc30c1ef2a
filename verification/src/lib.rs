//! Core of a small message-ingestion facade: choosing a replica endpoint,
//! bounded-retry connection set-up, the record that is forwarded and
//! published, and the bounded buffer of recently consumed events.

pub mod buffer;
pub mod consumer;
pub mod facade;
pub mod json;
pub mod logstore;
pub mod record;
pub mod retry;
pub mod selector;
