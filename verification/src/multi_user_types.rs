//! Core types of the multi-user measurement interface.
//!
//! Plain data describing measurement sessions, their status and the
//! system's bookkeeping; nothing here computes, so the types are bare
//! records.

use vstd::prelude::*;

verus! {

/// What a measurement channel measures.
#[derive(Clone, Debug)]
pub enum MeasurementType {
    Voltage,
    Current,
    Temperature,
    Pressure,
    Acceleration,
    Custom { name: String, unit: String },
}

/// Where a measurement stands in its lifecycle.
#[derive(Clone, Debug)]
pub enum MeasurementStatus {
    Configuring,
    Starting,
    Running,
    Paused,
    Stopping,
    Completed,
    Error { message: String },
}

/// How trustworthy one sample is.
#[derive(Clone, Debug)]
pub enum DataQuality {
    Good,
    Questionable,
    Bad,
    Overflow,
    Underflow,
}

/// The resource ceilings granted to one user.
#[derive(Clone, Debug)]
pub struct UserPermissions {
    pub max_concurrent_measurements: u8,
    pub max_sample_rate_hz: u32,
    pub max_bandwidth_bps: u64,
    pub max_storage_mb: u64,
    pub max_session_duration_hours: u32,
    pub allowed_measurement_types: Vec<MeasurementType>,
}

/// The header of the shared sample-exchange region.
pub struct SharedMemoryHeader {
    /// A magic number validating the region.
    pub magic: u32,
    pub version: u32,
    pub total_size: u64,
    pub write_offset: u64,
    pub read_offset: u64,
    pub measurement_count: u32,
    pub sample_rate: u32,
}

/// Out-of-band happenings attached to sample metadata.
#[derive(Clone, Debug)]
pub enum SystemEvent {
    MeasurementStarted,
    MeasurementStopped,
    DataOverrun,
    TimestampJump,
    ResourceWarning,
}

} // verus!
