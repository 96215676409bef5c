//! Raw datagram layout and parsing.
//!
//! A sensor datagram is exactly 1206 bytes: twelve 100-byte firing blocks,
//! a four-byte little-endian timestamp, and a two-byte status pair.  Each
//! block holds a two-byte bank header, a two-byte little-endian azimuth and
//! thirty-two 3-byte measurements (distance low, distance high, intensity).
//! Measurements whose distance count is zero mean "no return" and are dropped
//! while parsing.

use vstd::prelude::*;

use crate::SourceError;

verus! {

/// Size in bytes of one raw sensor datagram.
pub const PACKET_SIZE: usize = 1206;

/// Number of firing blocks in a datagram.
pub const BLOCKS: usize = 12;

/// Number of laser slots in one firing block.
pub const LASERS: usize = 32;

/// Byte offset of the status id within a datagram.
pub const STATUS_ID: usize = 1204;

/// Byte offset of the status value within a datagram.
pub const STATUS_VALUE: usize = 1205;

/// The little-endian 16-bit value stored at byte offset `i`.
pub open spec fn le16(d: Seq<u8>, i: int) -> u16 {
    (d[i] + 256 * d[i + 1]) as u16
}

/// The little-endian 32-bit value stored at byte offset `i`.
pub open spec fn le32(d: Seq<u8>, i: int) -> u32 {
    (d[i] + 256 * d[i + 1] + 65536 * d[i + 2] + 16777216 * d[i + 3]) as u32
}

/// The little-endian signed 16-bit value stored at byte offset `i`,
/// as a mathematical integer in `-32768..32767`.
pub open spec fn le16s(d: Seq<u8>, i: int) -> int {
    if le16(d, i) >= 32768 {
        le16(d, i) - 65536
    } else {
        le16(d, i) as int
    }
}

/// Reads the little-endian 16-bit value at byte offset `i`.
pub fn read_u16_le(d: &[u8], i: usize) -> (r: u16)
    requires
        i + 2 <= d@.len(),
    ensures
        r == le16(d@, i as int),
{
    d[i] as u16 + (d[i + 1] as u16) * 256
}

/// Reads the little-endian 32-bit value at byte offset `i`.
pub fn read_u32_le(d: &[u8], i: usize) -> (r: u32)
    requires
        i + 4 <= d@.len(),
    ensures
        r == le32(d@, i as int),
{
    d[i] as u32 + (d[i + 1] as u32) * 256 + (d[i + 2] as u32) * 65536 + (d[i + 3] as u32)
        * 16777216
}

/// Reads the little-endian signed 16-bit value at byte offset `i`.
pub fn read_i16_le(d: &[u8], i: usize) -> (r: i16)
    requires
        i + 2 <= d@.len(),
    ensures
        r as int == le16s(d@, i as int),
{
    let v = read_u16_le(d, i);
    if v >= 32768 {
        -((65535 - v) as i16) - 1
    } else {
        v as i16
    }
}

/// Status id and value bytes incorporated into each packet.
#[derive(Copy, Clone, Debug, PartialEq, Eq, Structural)]
pub struct StatusBytes {
    pub id: u8,
    pub value: u8,
}

/// Raw point data.
///
/// Note that `laser` contains the laser position in the block, so it always
/// ranges from 0 to 31, whichever sensor model produced the packet.
#[derive(Copy, Clone, Debug, PartialEq, Eq, Structural)]
pub struct RawPoint {
    pub distance: u16,
    pub intensity: u8,
    pub laser: u8,
}

/// Meta information associated with a received packet.
#[derive(Copy, Clone, Debug, PartialEq, Eq, Structural)]
pub struct PacketMeta {
    /// Azimuth of the packet's first firing block, hundredths of a degree.
    pub azimuth: u16,
    /// Microseconds from the top of the hour.
    pub timestamp: u32,
    /// The telemetry byte pair attached to this packet.
    pub status: StatusBytes,
}

/// One parsed firing block: the bank header, the block azimuth and the
/// measurements whose distance count is non-zero, in laser-slot order.
pub struct Block {
    pub header: (u8, u8),
    pub azimuth: u16,
    pub points: Vec<RawPoint>,
}

/// The status byte pair of a datagram.
pub open spec fn spec_status_bytes(d: Seq<u8>) -> StatusBytes {
    StatusBytes { id: d[STATUS_ID as int], value: d[STATUS_VALUE as int] }
}

/// The meta record of a datagram: first-block azimuth, timestamp, status.
pub open spec fn spec_packet_meta(d: Seq<u8>) -> PacketMeta {
    PacketMeta { azimuth: le16(d, 2), timestamp: le32(d, 1200), status: spec_status_bytes(d) }
}

/// The bank header of firing block `b`.
pub open spec fn spec_block_header(d: Seq<u8>, b: int) -> (u8, u8) {
    (d[100 * b], d[100 * b + 1])
}

/// The azimuth of firing block `b`.
pub open spec fn spec_block_azimuth(d: Seq<u8>, b: int) -> u16 {
    le16(d, 100 * b + 2)
}

/// The raw measurement of laser slot `l` in firing block `b`.
pub open spec fn spec_point_at(d: Seq<u8>, b: int, l: int) -> RawPoint {
    RawPoint {
        distance: le16(d, 100 * b + 4 + 3 * l),
        intensity: d[100 * b + 4 + 3 * l + 2],
        laser: l as u8,
    }
}

/// The measurements of the first `n` laser slots of block `b` whose distance
/// count is non-zero, in slot order.
pub open spec fn spec_block_points_upto(d: Seq<u8>, b: int, n: int) -> Seq<RawPoint>
    decreases n,
{
    if n <= 0 {
        Seq::empty()
    } else {
        let rest = spec_block_points_upto(d, b, n - 1);
        let p = spec_point_at(d, b, n - 1);
        if p.distance != 0 {
            rest.push(p)
        } else {
            rest
        }
    }
}

/// The surviving measurements of firing block `b`, in slot order.
pub open spec fn spec_block_points(d: Seq<u8>, b: int) -> Seq<RawPoint> {
    spec_block_points_upto(d, b, LASERS as int)
}

/// A block's point list never exceeds the number of laser slots considered.
pub proof fn lemma_block_points_len(d: Seq<u8>, b: int, n: int)
    ensures
        spec_block_points_upto(d, b, n).len() <= (if n <= 0 { 0int } else { n }),
    decreases n,
{
    if n > 0 {
        lemma_block_points_len(d, b, n - 1);
    }
}

/// A block whose distance counts are all zero yields no points at all.
pub proof fn lemma_block_all_zero_empty(d: Seq<u8>, b: int, n: int)
    requires
        forall|l: int| 0 <= l < n ==> spec_point_at(d, b, l).distance == 0,
    ensures
        spec_block_points_upto(d, b, n).len() == 0,
    decreases n,
{
    if n > 0 {
        lemma_block_all_zero_empty(d, b, n - 1);
    }
}

/// A block whose distance counts are all non-zero keeps every slot.
pub proof fn lemma_block_all_nonzero_full(d: Seq<u8>, b: int, n: int)
    requires
        forall|l: int| 0 <= l < n ==> spec_point_at(d, b, l).distance != 0,
    ensures
        spec_block_points_upto(d, b, n).len() == (if n <= 0 { 0int } else { n }),
    decreases n,
{
    if n > 0 {
        lemma_block_all_nonzero_full(d, b, n - 1);
    }
}

/// Every parsed point of block `b` records the laser slot it came from, below
/// the slot count considered, and a non-zero distance; the slots appear in
/// strictly increasing order.
pub proof fn lemma_block_points_lasers(d: Seq<u8>, b: int, n: int)
    requires
        0 <= n <= LASERS,
    ensures
        forall|i: int| 0 <= i < spec_block_points_upto(d, b, n).len() ==> (
        #[trigger] spec_block_points_upto(d, b, n)[i]).laser < n && spec_block_points_upto(
            d,
            b,
            n,
        )[i].distance != 0 && spec_block_points_upto(d, b, n)[i] == spec_point_at(
            d,
            b,
            spec_block_points_upto(d, b, n)[i].laser as int,
        ),
        forall|i: int, j: int|
            0 <= i < j < spec_block_points_upto(d, b, n).len() ==> (
            #[trigger] spec_block_points_upto(d, b, n)[i]).laser < (
            #[trigger] spec_block_points_upto(d, b, n)[j]).laser,
    decreases n,
{
    if n > 0 {
        lemma_block_points_lasers(d, b, n - 1);
        let prev = spec_block_points_upto(d, b, n - 1);
        let cur = spec_block_points_upto(d, b, n);
        let p = spec_point_at(d, b, n - 1);
        if p.distance != 0 {
            assert(cur == prev.push(p));
            assert(p.laser == (n - 1) as u8);
            assert(forall|i: int| 0 <= i < prev.len() ==> cur[i] == prev[i]);
            assert(cur[cur.len() - 1] == p);
        } else {
            assert(cur == prev);
        }
    }
}

/// The number of points that the first `n` firing blocks yield in total.
pub open spec fn spec_total_points_upto(d: Seq<u8>, n: int) -> int
    decreases n,
{
    if n <= 0 {
        0
    } else {
        spec_total_points_upto(d, n - 1) + spec_block_points(d, n - 1).len()
    }
}

/// A datagram never yields more than 12 * 32 = 384 points, and exactly that
/// many when every distance count in it is non-zero.
pub proof fn lemma_total_points_bound(d: Seq<u8>, n: int)
    requires
        0 <= n <= BLOCKS,
    ensures
        spec_total_points_upto(d, n) <= n * 32,
        (forall|b: int, l: int|
            0 <= b < n && 0 <= l < LASERS ==> (#[trigger] spec_point_at(d, b, l)).distance != 0)
            ==> spec_total_points_upto(d, n) == n * 32,
    decreases n,
{
    if n > 0 {
        lemma_total_points_bound(d, n - 1);
        lemma_block_points_len(d, n - 1, LASERS as int);
        if forall|b: int, l: int|
            0 <= b < n && 0 <= l < LASERS ==> (#[trigger] spec_point_at(d, b, l)).distance != 0 {
            lemma_block_all_nonzero_full(d, n - 1, LASERS as int);
        }
    }
}

/// Return status bytes from raw packet data.
pub fn get_status(data: &[u8]) -> (r: StatusBytes)
    requires
        data@.len() == PACKET_SIZE,
    ensures
        r == spec_status_bytes(data@),
{
    StatusBytes { id: data[STATUS_ID], value: data[STATUS_VALUE] }
}

/// Parse a raw sensor datagram into its meta record and its twelve firing
/// blocks.  Measurements with a zero distance count are dropped; everything
/// else is handed through unchanged.
pub fn parse_packet(data: &[u8]) -> (r: (PacketMeta, Vec<Block>))
    requires
        data@.len() == PACKET_SIZE,
    ensures
        r.0 == spec_packet_meta(data@),
        r.1@.len() == BLOCKS,
        forall|b: int|
            0 <= b < BLOCKS ==> {
                &&& (#[trigger] r.1@[b]).header == spec_block_header(data@, b)
                &&& r.1@[b].azimuth == spec_block_azimuth(data@, b)
                &&& r.1@[b].points@ == spec_block_points(data@, b)
            },
{
    let timestamp = read_u32_le(data, 1200);
    let a0 = read_u16_le(data, 2);
    let status = get_status(data);
    let meta = PacketMeta { azimuth: a0, timestamp, status };

    let mut blocks: Vec<Block> = Vec::new();
    for b in 0..BLOCKS
        invariant
            data@.len() == PACKET_SIZE,
            blocks@.len() == b,
            forall|k: int|
                0 <= k < b ==> {
                    &&& (#[trigger] blocks@[k]).header == spec_block_header(data@, k)
                    &&& blocks@[k].azimuth == spec_block_azimuth(data@, k)
                    &&& blocks@[k].points@ == spec_block_points(data@, k)
                },
    {
        let base = 100 * b;
        let header = (data[base], data[base + 1]);
        let azimuth = read_u16_le(data, base + 2);

        let mut points: Vec<RawPoint> = Vec::new();
        for l in 0..LASERS
            invariant
                data@.len() == PACKET_SIZE,
                b < BLOCKS,
                base == 100 * b,
                points@ == spec_block_points_upto(data@, b as int, l as int),
        {
            let off = base + 4 + 3 * l;
            let distance = read_u16_le(data, off);
            let intensity = data[off + 2];
            if distance != 0 {
                points.push(RawPoint { distance, intensity, laser: l as u8 });
            }
        }
        blocks.push(Block { header, azimuth, points });
    }
    (meta, blocks)
}

/// The address a datagram arrived from: an IPv4 address and a UDP port.
#[derive(Copy, Clone, Debug, PartialEq, Eq, Structural)]
pub struct PeerAddr {
    pub ip0: u8,
    pub ip1: u8,
    pub ip2: u8,
    pub ip3: u8,
    pub port: u16,
}

/// Source of raw sensor packets.
///
/// `Ok(None)` signals that the source is exhausted.  A yielded packet is
/// always exactly [`PACKET_SIZE`] bytes.  `remaining` bounds how many more
/// packets the source can still yield, so that the loops draining a source
/// terminate.
pub trait PacketSource: Sized {
    /// An upper bound on the number of packets still to come.  A live
    /// source that cannot bound itself may leave the default; verified
    /// draining loops then treat it as already dry.
    open spec fn remaining(&self) -> nat {
        0
    }

    /// Get the next raw packet, or `Ok(None)` if the source is exhausted.
    fn next_packet(&mut self) -> (r: Result<Option<(PeerAddr, Vec<u8>)>, SourceError>)
        ensures
            match r {
                Ok(Some((peer, p))) => p@.len() == PACKET_SIZE && final (self).remaining() < old(
                    self,
                ).remaining(),
                Ok(None) => true,
                Err(e) => true,
            },
    ;
}

/// A packet source replaying an in-memory list of datagrams.
pub struct VecSource {
    packets: Vec<Vec<u8>>,
    pos: usize,
    peer: PeerAddr,
}

impl VecSource {
    /// The byte sequences of the packets not yet yielded, in order.
    pub closed spec fn pending(&self) -> Seq<Seq<u8>> {
        if self.pos <= self.packets@.len() {
            self.packets@.map_values(|p: Vec<u8>| p@).skip(self.pos as int)
        } else {
            Seq::empty()
        }
    }

    /// The address every yielded packet reports.
    pub closed spec fn peer_view(&self) -> PeerAddr {
        self.peer
    }

    /// Build a source over `packets`, all of which must be exactly
    /// [`PACKET_SIZE`] bytes; otherwise `ShortDatagram` is returned.
    pub fn new(packets: Vec<Vec<u8>>, peer: PeerAddr) -> (r: Result<VecSource, SourceError>)
        ensures
            (forall|i: int| 0 <= i < packets@.len() ==> (#[trigger] packets@[i])@.len()
                == PACKET_SIZE) ==> r is Ok,
            match r {
                Ok(s) => {
                    &&& s.pending() == packets@.map_values(|p: Vec<u8>| p@)
                    &&& s.peer_view() == peer
                    &&& s.remaining() == packets@.len()
                },
                Err(e) => e == SourceError::ShortDatagram,
            },
    {
        let mut i: usize = 0;
        while i < packets.len()
            invariant
                i <= packets@.len(),
                forall|k: int| 0 <= k < i ==> (#[trigger] packets@[k])@.len() == PACKET_SIZE,
            decreases packets@.len() - i,
        {
            if packets[i].len() != PACKET_SIZE {
                return Err(SourceError::ShortDatagram);
            }
            i = i + 1;
        }
        let r = VecSource { packets, pos: 0, peer };
        proof {
            assert(r.pending() =~= r.packets@.map_values(|p: Vec<u8>| p@));
        }
        Ok(r)
    }
}

impl PacketSource for VecSource {
    closed spec fn remaining(&self) -> nat {
        if self.pos <= self.packets@.len() {
            (self.packets@.len() - self.pos) as nat
        } else {
            0
        }
    }

    fn next_packet(&mut self) -> (r: Result<Option<(PeerAddr, Vec<u8>)>, SourceError>)
        ensures
            match r {
                Ok(Some((peer, p))) => {
                    &&& old(self).pending().len() > 0
                    &&& p@ == old(self).pending()[0]
                    &&& peer == old(self).peer_view()
                    &&& final (self).pending() == old(self).pending().skip(1)
                },
                Ok(None) => final (self).pending().len() == 0 || old(self).pending()[0].len()
                    != PACKET_SIZE,
                Err(e) => false,
            },
            final (self).peer_view() == old(self).peer_view(),
    {
        if self.pos < self.packets.len() {
            let ghost before = self.pending();
            let p = self.packets[self.pos].clone();
            proof {
                assert(p@ =~= self.packets@.map_values(|q: Vec<u8>| q@)[self.pos as int]);
                assert(before[0] == self.packets@.map_values(|q: Vec<u8>| q@)[self.pos as int]);
            }
            self.pos = self.pos + 1;
            proof {
                assert(self.pending() =~= before.skip(1));
            }
            if p.len() == PACKET_SIZE {
                Ok(Some((self.peer, p)))
            } else {
                // unreachable when built through `new`; exhaust defensively
                self.pos = self.packets.len();
                Ok(None)
            }
        } else {
            Ok(None)
        }
    }
}

} // verus!
