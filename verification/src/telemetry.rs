//! Framing of the log packets sent to the host over USB serial:
//! two sync bytes, a length byte, a type byte, the payload, and a checksum
//! that is the sum (modulo 256) of the type byte and the payload.

use vstd::prelude::*;

verus! {

/// First sync byte of a log packet.
pub const LOG_SYNC_0: u8 = 0xAA;
/// Second sync byte of a log packet.
pub const LOG_SYNC_1: u8 = 0xBB;
/// Type byte of a packet carrying accelerometer and gyroscope readings.
pub const LOG_TYPE_IMU: u8 = 1;
/// Type byte of a packet carrying an orientation quaternion.
pub const LOG_TYPE_ORIENTATION: u8 = 2;
/// Largest payload that fits the packet buffer with the four header bytes
/// and the checksum.
pub const LOG_PAYLOAD_MAX: usize = 27;

/// The sum of a byte sequence.
pub open spec fn byte_sum(s: Seq<u8>) -> int
    decreases s.len(),
{
    if s.len() == 0 {
        0
    } else {
        byte_sum(s.drop_last()) + s.last()
    }
}

/// The checksum of a packet: type byte plus payload bytes, modulo 256.
pub open spec fn log_checksum(kind: u8, payload: Seq<u8>) -> u8 {
    ((kind + byte_sum(payload)) % 256) as u8
}

/// The packet that carries `payload` under type `kind`.
pub open spec fn log_packet(kind: u8, payload: Seq<u8>) -> Seq<u8> {
    seq![LOG_SYNC_0, LOG_SYNC_1, (payload.len() + 1) as u8, kind] + payload + seq![
        log_checksum(kind, payload),
    ]
}

/// Size of the buffer a log packet is framed in.
pub const LOG_BUFFER_LEN: usize = 32;

/// Frames `payload` as a log packet of type `kind` at the start of `buf`
/// and returns the packet's length. The rest of `buf` is left as it was.
pub fn frame_log_packet(kind: u8, payload: &[u8], buf: &mut [u8; 32]) -> (len: usize)
    requires
        payload@.len() <= LOG_PAYLOAD_MAX,
    ensures
        len == payload@.len() + 5,
        final(buf)@.take(len as int) == log_packet(kind, payload@),
        final(buf)@.skip(len as int) == old(buf)@.skip(len as int),
{
    let n = payload.len();
    buf[0] = LOG_SYNC_0;
    buf[1] = LOG_SYNC_1;
    buf[2] = (n + 1) as u8;
    buf[3] = kind;
    let mut checksum: u8 = kind;
    let mut i: usize = 0;
    while i < n
        invariant
            n == payload@.len(),
            i <= n,
            n <= LOG_PAYLOAD_MAX,
            buf@.len() == LOG_BUFFER_LEN,
            buf@.take(4 + i) == seq![LOG_SYNC_0, LOG_SYNC_1, (n + 1) as u8, kind]
                + payload@.take(i as int),
            buf@.skip(n + 4) == old(buf)@.skip(n + 4),
            checksum == (kind + byte_sum(payload@.take(i as int))) % 256,
        decreases n - i,
    {
        let b = payload[i];
        proof {
            assert(payload@.take(i + 1).drop_last() =~= payload@.take(i as int));
            assert(payload@.take(i + 1).last() == b);
        }
        checksum = checksum.wrapping_add(b);
        let ghost before = buf@;
        buf[4 + i] = b;
        proof {
            assert(buf@ == before.update(4 + i, b));
            assert(buf@.take(4 + i + 1) =~= before.take(4 + i).push(b));
            assert(payload@.take(i + 1) =~= payload@.take(i as int).push(b));
            assert(buf@.skip(n + 4) =~= before.skip(n + 4));
        }
        i = i + 1;
    }
    let ghost before = buf@;
    buf[4 + n] = checksum;
    proof {
        assert(payload@.take(n as int) =~= payload@);
        assert(buf@.take(n + 5) =~= before.take(n + 4).push(checksum));
        assert(buf@.take(n + 5) =~= log_packet(kind, payload@));
        assert(buf@.skip(n + 5) =~= before.skip(n + 5));
        assert(before.skip(n + 5) =~= before.skip(n + 4).drop_first());
        assert(old(buf)@.skip(n + 5) =~= old(buf)@.skip(n + 4).drop_first());
    }
    n + 5
}

/// A framed packet is self-consistent: it starts with the sync bytes, its
/// length byte counts the type byte and the payload, and its last byte is
/// the sum modulo 256 of the bytes from the type byte up to the checksum.
pub proof fn lemma_log_packet_consistent(kind: u8, payload: Seq<u8>)
    requires
        payload.len() <= LOG_PAYLOAD_MAX,
    ensures
        ({
            let p = log_packet(kind, payload);
            &&& p.len() == payload.len() + 5
            &&& p[0] == LOG_SYNC_0
            &&& p[1] == LOG_SYNC_1
            &&& p[2] == p.len() - 4
            &&& p[3] == kind
            &&& p.subrange(4, p.len() - 1) == payload
            &&& p.last() == byte_sum(p.subrange(3, p.len() - 1)) % 256
        }),
{
    let p = log_packet(kind, payload);
    assert(p.subrange(4, p.len() - 1) =~= payload);
    let body = p.subrange(3, p.len() - 1);
    assert(body =~= seq![kind] + payload);
    lemma_byte_sum_prepend(kind, payload);
}

/// Prepending a byte adds it to the sum.
proof fn lemma_byte_sum_prepend(b: u8, s: Seq<u8>)
    ensures
        byte_sum(seq![b] + s) == b + byte_sum(s),
    decreases s.len(),
{
    if s.len() == 0 {
        assert((seq![b] + s).drop_last() =~= Seq::<u8>::empty());
        assert((seq![b] + s).last() == b);
        assert(byte_sum(Seq::<u8>::empty()) == 0);
    } else {
        assert((seq![b] + s).drop_last() =~= seq![b] + s.drop_last());
        assert((seq![b] + s).last() == s.last());
        lemma_byte_sum_prepend(b, s.drop_last());
    }
}

} // verus!
