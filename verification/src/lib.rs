//! Decoder for the UDP datagram stream of two families of spinning LiDAR
//! sensors: a 32-laser unit and a 64-laser unit.
//!
//! The crate parses fixed 1206-byte datagrams into firing blocks, applies the
//! double-return filter, derives global laser identifiers, reconstructs the
//! 64-laser sensor's telemetry and embedded calibration table from the status
//! byte pair carried by each datagram, and groups the resulting point stream
//! into full sensor rotations.
//!
//! Everything here works on plain bytes and integers.  The floating-point
//! projection into Cartesian coordinates consumes the integer measurements and
//! the raw calibration records that this crate produces.

use vstd::prelude::*;

pub mod clock;
pub mod datetime;
pub mod hdl32;
pub mod hdl64;
pub mod packet;
pub mod pcap;
pub mod project;
pub mod source;
pub mod turn;
pub mod xmlnav;

pub use source::PointSource;
pub use turn::TurnIterator;

verus! {

/// Error returned when a datagram carries a firing-block header that the
/// selected sensor model does not use.
#[derive(Copy, Clone, Debug, PartialEq, Eq, Structural)]
pub struct ConversionError;

/// Errors raised while acquiring raw datagrams from a packet source.
#[derive(Copy, Clone, Debug, PartialEq, Eq, Structural)]
pub enum SourceError {
    /// The capture file does not begin with a known pcap magic number.
    InvalidPcapMagic,
    /// The capture file is big-endian, which is not supported.
    UnsupportedBigEndianPcap,
    /// The capture file's version or link type is not the supported one.
    UnsupportedPcapHeader,
    /// A capture record was cut short of its original length.
    TruncatedPacket,
    /// A datagram shorter than the fixed packet size arrived.
    ShortDatagram,
    /// The underlying transport failed.
    Io,
}

/// Errors surfaced by the composed decoding layers.
#[derive(Copy, Clone, Debug, PartialEq, Eq, Structural)]
pub enum ProcessError {
    /// The packet source failed.
    Source(SourceError),
    /// A datagram carried an unknown firing-block header.
    Conversion(ConversionError),
    /// Status initialisation did not complete within its time window.
    InitTimeout,
    /// The packet source ran out of packets during initialisation.
    SourceExhausted,
}

/// Status listener that does nothing, for sensors without meaningful
/// telemetry.
#[derive(Copy, Clone, Debug, Default)]
pub struct DummyStatusListener;

impl DummyStatusListener {
    /// Initialisation needs no packets.
    pub fn init<T: packet::PacketSource>(_source: &mut T) -> (r: DummyStatusListener) {
        DummyStatusListener
    }

    /// Ignore the byte pair.
    pub fn feed(&mut self, _status: packet::StatusBytes) {
    }

    /// There is no status.
    pub fn get_status(&self) {
    }
}

/// One measurement selected for projection.
///
/// The fields are exactly the integer inputs of the Cartesian projection: the
/// global laser identifier, the raw distance count, the (possibly
/// still-uncalibrated) intensity, the azimuth of the firing block in
/// hundredths of a degree, and the packet timestamp in microseconds from the
/// top of the hour.
#[derive(Copy, Clone, Debug, PartialEq, Eq, Structural)]
pub struct ProjectedPoint {
    /// Global laser index: the in-block position plus the bank offset.
    pub laser_id: u8,
    /// Raw distance count as transmitted by the sensor.
    pub distance: u16,
    /// Raw intensity byte.
    pub intensity: u8,
    /// Azimuth of the firing block, hundredths of a degree.
    pub azimuth: u16,
    /// Microseconds from the top of the hour, for the whole packet.
    pub timestamp: u32,
}

} // verus!
