//! Walking the records of a classic packet-capture file.
//!
//! The file is a little-endian classic capture: a 24-byte global header
//! (magic, version 2.4, link type Ethernet), then records of a 16-byte
//! header — timestamp, included length, original length — followed by the
//! captured bytes.  A datagram record encapsulates the 1206-byte payload
//! behind Ethernet, IPv4 and UDP headers, of which only the last 16 bytes
//! before the payload are read: the source IPv4 address and the UDP source
//! port.  Records whose
//! original length is too short to hold a datagram are skipped; records cut
//! short of their original length are reported as truncated.  The bytes
//! themselves come from whoever mapped or read the file; everything here is
//! index arithmetic over them.

use vstd::prelude::*;

use crate::packet::{le16, le32, PeerAddr};
use crate::SourceError;

verus! {

/// Least original length a record must have to hold a datagram: 1206 bytes
/// of payload behind 14 bytes of Ethernet, 20 of IPv4 and 8 of UDP headers.
pub const MIN_RECORD_LEN: u32 = 1248;

/// What the walk finds at a record boundary.
#[derive(Copy, Clone, Debug, PartialEq, Eq, Structural)]
pub enum RecordStep {
    /// A complete datagram record: the peer it came from, the offset of its
    /// 1206 payload bytes, the capture timestamp (seconds and sub-second
    /// count, as recorded), and where the next record begins.
    Packet { peer: PeerAddr, payload: usize, ts_sec: u32, ts_frac: u32, next: usize },
    /// A record cut short of its original length; resume at `next`.
    Truncated { next: usize },
    /// No further complete record.
    End,
}

/// Whether the file opens with a supported global header: a little-endian
/// magic (microseconds or nanoseconds), version 2.4, link type Ethernet.
pub open spec fn spec_header_ok(d: Seq<u8>) -> bool {
    &&& d.len() >= 24
    &&& (le32(d, 0) == 0xa1b2c3d4 || le32(d, 0) == 0xa1b23c4d)
    &&& le16(d, 4) == 2
    &&& le16(d, 6) == 4
    &&& le32(d, 20) == 1
}

/// The first thing the record walk finds at or after byte `pos`: the next
/// complete datagram record, a truncation, or the end of the file.  Records
/// too short for a datagram are stepped over.
pub open spec fn spec_next_record(d: Seq<u8>, pos: int) -> RecordStep
    decreases d.len() - pos,
{
    if pos < 0 || pos + 16 > d.len() {
        RecordStep::End
    } else {
        let incl = le32(d, pos + 8) as int;
        let orig = le32(d, pos + 12) as int;
        let eth = pos + 16;
        if eth + incl > d.len() {
            RecordStep::End
        } else if orig < MIN_RECORD_LEN {
            spec_next_record(d, eth + incl)
        } else if orig > incl {
            RecordStep::Truncated { next: (eth + incl) as usize }
        } else {
            // the 16 bytes before the payload: source IPv4 (0..4),
            // destination IPv4 (4..8), then the UDP header: source port
            // (8..10, big-endian), destination port, length, checksum
            let hdr = eth + orig - 1222;
            RecordStep::Packet {
                peer: PeerAddr {
                    ip0: d[hdr],
                    ip1: d[hdr + 1],
                    ip2: d[hdr + 2],
                    ip3: d[hdr + 3],
                    port: (256 * d[hdr + 8] + d[hdr + 9]) as u16,
                },
                payload: (hdr + 16) as usize,
                ts_sec: le32(d, pos),
                ts_frac: le32(d, pos + 4),
                next: (eth + incl) as usize,
            }
        }
    }
}

/// A complete record always carries a full payload: its 1206 bytes lie
/// within the file.
pub proof fn lemma_record_payload_in_bounds(d: Seq<u8>, pos: int)
    requires
        d.len() <= usize::MAX,
    ensures
        spec_next_record(d, pos) matches RecordStep::Packet { payload, next, .. } ==> payload
            + 1206 <= next <= d.len(),
    decreases d.len() - pos,
{
    if 0 <= pos && pos + 16 <= d.len() {
        let incl = le32(d, pos + 8) as int;
        let orig = le32(d, pos + 12) as int;
        let eth = pos + 16;
        if eth + incl <= d.len() {
            if orig < MIN_RECORD_LEN {
                lemma_record_payload_in_bounds(d, eth + incl);
            } else if orig <= incl {
                let hdr = eth + orig - 1222;
                assert(0 <= hdr + 16 <= usize::MAX);
                assert(0 <= eth + incl <= usize::MAX);
                assert(hdr + 16 + 1206 == eth + orig);
            }
        }
    }
}

/// A record whose original length is too short for a datagram is skipped
/// silently: the walk continues at the record after it.
pub proof fn lemma_short_record_skipped(d: Seq<u8>, pos: int)
    requires
        0 <= pos,
        pos + 16 <= d.len(),
        pos + 16 + le32(d, pos + 8) <= d.len(),
        le32(d, pos + 12) < MIN_RECORD_LEN,
    ensures
        spec_next_record(d, pos) == spec_next_record(d, pos + 16 + le32(d, pos + 8)),
{
}

/// Find the next complete datagram record at or after byte `start`.
pub fn next_record(d: &[u8], start: usize) -> (r: RecordStep)
    ensures
        r == spec_next_record(d@, start as int),
{
    let len = d.len();
    let mut pos = start;
    loop
        invariant
            spec_next_record(d@, start as int) == spec_next_record(d@, pos as int),
            len == d@.len(),
        decreases len - pos,
    {
        if len < 16 || pos > len - 16 {
            return RecordStep::End;
        }
        let incl = crate::packet::read_u32_le(d, pos + 8);
        let orig = crate::packet::read_u32_le(d, pos + 12);
        let eth = pos + 16;
        if incl as usize > len - eth {
            return RecordStep::End;
        }
        let next = eth + incl as usize;
        if orig < MIN_RECORD_LEN {
            // too short for a datagram: step over it silently
            pos = next;
        } else if orig > incl {
            return RecordStep::Truncated { next };
        } else {
            let hdr = eth + orig as usize - 1222;
            let peer = PeerAddr {
                ip0: d[hdr],
                ip1: d[hdr + 1],
                ip2: d[hdr + 2],
                ip3: d[hdr + 3],
                port: (d[hdr + 8] as u16) * 256 + (d[hdr + 9] as u16),
            };
            let ts_sec = crate::packet::read_u32_le(d, pos);
            let ts_frac = crate::packet::read_u32_le(d, pos + 4);
            return RecordStep::Packet { peer, payload: hdr + 16, ts_sec, ts_frac, next };
        }
    }
}

/// A cursor over a capture file's records.  The bytes themselves stay with
/// the caller and are handed in on each call; the cursor only remembers
/// where the next record begins and which time unit the file uses.
#[derive(Debug)]
pub struct PcapCursor {
    pos: usize,
    is_nano: bool,
}

impl PcapCursor {
    /// Where the next record begins.
    pub closed spec fn position(&self) -> int {
        self.pos as int
    }

    /// Whether the file's sub-second timestamps count nanoseconds rather
    /// than microseconds.
    pub closed spec fn nano(&self) -> bool {
        self.is_nano
    }

    /// Validate the global header and open a cursor on the first record.
    /// Big-endian captures and headers other than version 2.4 over Ethernet
    /// are rejected.
    pub fn new(d: &[u8]) -> (r: Result<PcapCursor, SourceError>)
        ensures
            match r {
                Ok(c) => spec_header_ok(d@) && c.position() == 24 && c.nano() == (le32(d@, 0)
                    == 0xa1b23c4d),
                Err(e) => !spec_header_ok(d@) && e == (if d@.len() < 4 {
                    SourceError::InvalidPcapMagic
                } else if le32(d@, 0) == 0xd4c3b2a1 || le32(d@, 0) == 0x4d3cb2a1 {
                    SourceError::UnsupportedBigEndianPcap
                } else if le32(d@, 0) != 0xa1b2c3d4 && le32(d@, 0) != 0xa1b23c4d {
                    SourceError::InvalidPcapMagic
                } else {
                    SourceError::UnsupportedPcapHeader
                }),
            },
    {
        if d.len() < 4 {
            return Err(SourceError::InvalidPcapMagic);
        }
        let magic = crate::packet::read_u32_le(d, 0);
        let is_nano: bool;
        if magic == 0xa1b2c3d4 {
            is_nano = false;
        } else if magic == 0xa1b23c4d {
            is_nano = true;
        } else if magic == 0xd4c3b2a1 || magic == 0x4d3cb2a1 {
            return Err(SourceError::UnsupportedBigEndianPcap);
        } else {
            return Err(SourceError::InvalidPcapMagic);
        }
        if d.len() < 24 {
            return Err(SourceError::UnsupportedPcapHeader);
        }
        let version_major = crate::packet::read_u16_le(d, 4);
        let version_minor = crate::packet::read_u16_le(d, 6);
        let network = crate::packet::read_u32_le(d, 20);
        if version_major != 2 || version_minor != 4 || network != 1 {
            return Err(SourceError::UnsupportedPcapHeader);
        }
        Ok(PcapCursor { pos: 24, is_nano })
    }

    /// Whether sub-second timestamps are nanoseconds.
    pub fn is_nanoseconds(&self) -> (r: bool)
        ensures
            r == self.nano(),
    {
        self.is_nano
    }

    /// Rewind to the first record.
    pub fn reset(&mut self)
        ensures
            final (self).position() == 24,
            final (self).nano() == old(self).nano(),
    {
        self.pos = 24;
    }

    /// Step to the next complete datagram record of `d`, skipping short
    /// records, and advance past it (or past a truncated record, so that
    /// the walk can continue after the error is reported).
    pub fn next(&mut self, d: &[u8]) -> (r: RecordStep)
        ensures
            r == spec_next_record(d@, old(self).position()),
            final (self).nano() == old(self).nano(),
            final (self).position() == (match r {
                RecordStep::Packet { next, .. } => next as int,
                RecordStep::Truncated { next } => next as int,
                RecordStep::End => old(self).position(),
            }),
    {
        let step = next_record(d, self.pos);
        match step {
            RecordStep::Packet { next, .. } => {
                self.pos = next;
            },
            RecordStep::Truncated { next } => {
                self.pos = next;
            },
            RecordStep::End => {},
        }
        step
    }
}

} // verus!
