//! A verified core for a market-data distribution server.
//!
//! Producers (simulated generators and live ingestion adapters) emit
//! canonical events; a bounded fan-out hub broadcasts the serialized events
//! to every subscriber session; sessions feed inbound control frames into a
//! shared frequency control that paces the producers.

pub mod adapter;
pub mod can_types;
pub mod event;
pub mod freq;
pub mod hub;
pub mod ingest;
pub mod multi_user_types;
pub mod num;
pub mod session;
pub mod sim;
pub mod wire;
