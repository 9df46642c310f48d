//! Message and configuration types for the CAN-bus monitoring interface.
//!
//! Plain data carried over the same transport as the market feed; nothing
//! here computes, so the types are bare records.

use vstd::prelude::*;

verus! {

/// The kinds of error frame a bus can report.
#[derive(Clone, Debug)]
pub enum CANErrorType {
    StuffError,
    FormError,
    AckError,
    BitError,
    CrcError,
    BusOff,
    ErrorPassive,
    TxTimeout,
}

/// How one bus is configured.
#[derive(Clone, Debug)]
pub struct CANBusConfig {
    pub bus_id: u8,
    /// A human-readable bus name, such as "Powertrain".
    pub name: String,
    /// Bit rate in bits per second.
    pub bitrate: u32,
    /// Whether flexible-data-rate frames are enabled.
    pub fd_enabled: bool,
    /// Receive-only: never transmit on this bus.
    pub listen_only: bool,
}

/// The byte order a signal is packed with.
#[derive(Clone, Debug)]
pub enum ByteOrder {
    BigEndian,
    LittleEndian,
}

} // verus!
