//! Fixed 64-byte test packets for throughput measurement: synthesized sensor
//! values derived from the timestamp, a running checksum, and an explicit
//! little-endian byte layout.

use vstd::prelude::*;

verus! {

/// The marker word opening every test packet.
pub const PACKET_MAGIC: u32 = 0xDEADBEEF;

/// The checksum over a packet's header words: the wrapping sum of the magic,
/// the sequence number, both halves of the timestamp, the counter, and the
/// temperature.
pub open spec fn spec_checksum(seq_no: u32, timestamp_ms: u64, counter: u32, temp: i32) -> u32 {
    PACKET_MAGIC
        .wrapping_add(seq_no)
        .wrapping_add((timestamp_ms / 0x100000000) as u32)
        .wrapping_add((timestamp_ms % 0x100000000) as u32)
        .wrapping_add(counter)
        .wrapping_add(temp as u32)
}

/// Test packet: 64 bytes of structured data.
#[derive(Debug, Clone, Copy)]
pub struct TestPacket {
    pub magic: u32,
    pub seq: u32,
    pub timestamp_ms: u64,
    pub counter: u32,
    pub sensor_temp: i32,
    pub accel_x: i16,
    pub accel_y: i16,
    pub accel_z: i16,
    pub state: u8,
    pub padding: [u8; 29],
    pub checksum: u32,
}

impl TestPacket {
    /// Builds the packet for one transmission: simulated sensor values are
    /// derived from the timestamp, and the checksum covers the header words.
    pub fn new(seq: u32, timestamp_ms: u64, counter: u32) -> (p: TestPacket)
        ensures
            p.magic == PACKET_MAGIC,
            p.seq == seq,
            p.timestamp_ms == timestamp_ms,
            p.counter == counter,
            p.sensor_temp == 2500 + (timestamp_ms as int / 100) % 100,
            p.accel_x == (timestamp_ms as int / 10) % 200 - 100,
            p.accel_y == (timestamp_ms as int / 15) % 200 - 100,
            p.accel_z == 1000 + (timestamp_ms as int / 20) % 100,
            p.state == (timestamp_ms as int / 1000) % 5,
            p.padding@ == Seq::new(29, |i: int| 0u8),
            p.checksum == spec_checksum(seq, timestamp_ms, counter, p.sensor_temp),
    {
        let sensor_temp: i32 = 2500 + ((timestamp_ms / 100) % 100) as i32;
        let pkt = TestPacket {
            magic: PACKET_MAGIC,
            seq,
            timestamp_ms,
            counter,
            sensor_temp,
            accel_x: ((timestamp_ms / 10) % 200) as i16 - 100,
            accel_y: ((timestamp_ms / 15) % 200) as i16 - 100,
            accel_z: 1000 + ((timestamp_ms / 20) % 100) as i16,
            state: ((timestamp_ms / 1000) % 5) as u8,
            padding: [0u8; 29],
            checksum: 0,
        };
        let checksum = PACKET_MAGIC
            .wrapping_add(pkt.seq)
            .wrapping_add((pkt.timestamp_ms / 0x100000000) as u32)
            .wrapping_add((pkt.timestamp_ms % 0x100000000) as u32)
            .wrapping_add(pkt.counter)
            .wrapping_add(pkt.sensor_temp as u32);
        let p = TestPacket { checksum, ..pkt };
        proof {
            assert(p.padding@ =~= Seq::new(29, |i: int| 0u8));
        }
        p
    }

    /// Serializes the packet into its 64-byte wire layout: every multi-byte
    /// field little-endian, in declaration order.
    pub fn as_bytes(&self) -> (out: Vec<u8>)
        ensures
            out@ == le_u32(self.magic) + le_u32(self.seq) + le_u64(self.timestamp_ms)
                + le_u32(self.counter) + le_u32(self.sensor_temp as u32)
                + le_u16(self.accel_x as u16) + le_u16(self.accel_y as u16)
                + le_u16(self.accel_z as u16) + seq![self.state] + self.padding@
                + le_u32(self.checksum),
            out@.len() == 64,
    {
        let mut out: Vec<u8> = Vec::new();
        push_le_u32(&mut out, self.magic);
        push_le_u32(&mut out, self.seq);
        push_le_u64(&mut out, self.timestamp_ms);
        push_le_u32(&mut out, self.counter);
        push_le_u32(&mut out, self.sensor_temp as u32);
        push_le_u16(&mut out, self.accel_x as u16);
        push_le_u16(&mut out, self.accel_y as u16);
        push_le_u16(&mut out, self.accel_z as u16);
        out.push(self.state);
        let ghost before = out@;
        let mut i: usize = 0;
        while i < 29
            invariant
                i <= 29,
                out@ == before + self.padding@.take(i as int),
            decreases 29 - i,
        {
            let arr = &self.padding;
            out.push(arr[i]);
            proof {
                assert(out@ =~= before + self.padding@.take(i + 1));
            }
            i = i + 1;
        }
        proof {
            assert(self.padding@.take(29) =~= self.padding@);
        }
        push_le_u32(&mut out, self.checksum);
        proof {
            assert(out@ =~= le_u32(self.magic) + le_u32(self.seq) + le_u64(self.timestamp_ms)
                + le_u32(self.counter) + le_u32(self.sensor_temp as u32)
                + le_u16(self.accel_x as u16) + le_u16(self.accel_y as u16)
                + le_u16(self.accel_z as u16) + seq![self.state] + self.padding@
                + le_u32(self.checksum));
        }
        out
    }
}

/// The two little-endian bytes of `x`.
pub open spec fn le_u16(x: u16) -> Seq<u8> {
    seq![(x % 256) as u8, (x / 256) as u8]
}

/// The four little-endian bytes of `x`.
pub open spec fn le_u32(x: u32) -> Seq<u8> {
    seq![
        (x % 256) as u8,
        ((x / 256) % 256) as u8,
        ((x / 65536) % 256) as u8,
        (x / 16777216) as u8,
    ]
}

/// The eight little-endian bytes of `x`.
pub open spec fn le_u64(x: u64) -> Seq<u8> {
    le_u32((x % 0x100000000) as u32) + le_u32((x / 0x100000000) as u32)
}

fn push_le_u16(out: &mut Vec<u8>, x: u16)
    ensures
        final(out)@ == old(out)@ + le_u16(x),
{
    out.push((x % 256) as u8);
    out.push((x / 256) as u8);
    proof {
        assert(out@ =~= old(out)@ + le_u16(x));
    }
}

fn push_le_u32(out: &mut Vec<u8>, x: u32)
    ensures
        final(out)@ == old(out)@ + le_u32(x),
{
    out.push((x % 256) as u8);
    out.push(((x / 256) % 256) as u8);
    out.push(((x / 65536) % 256) as u8);
    out.push((x / 16777216) as u8);
    proof {
        assert(out@ =~= old(out)@ + le_u32(x));
    }
}

fn push_le_u64(out: &mut Vec<u8>, x: u64)
    ensures
        final(out)@ == old(out)@ + le_u64(x),
{
    push_le_u32(out, (x % 0x100000000) as u32);
    push_le_u32(out, (x / 0x100000000) as u32);
    proof {
        assert(out@ =~= old(out)@ + le_u64(x));
    }
}

} // verus!
