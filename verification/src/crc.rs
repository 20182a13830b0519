//! Modbus CRC16 (ANSI, reflected polynomial 0xA001) and frame validation.

use vstd::prelude::*;

verus! {

/// One bit step: shift right, and fold the polynomial in when a one fell out.
pub open spec fn crc_shift(crc: u16) -> u16 {
    if crc & 1 != 0 {
        (crc >> 1) ^ 0xA001
    } else {
        crc >> 1
    }
}

/// `n` bit steps in a row.
pub open spec fn crc_steps(crc: u16, n: nat) -> u16
    decreases n,
{
    if n == 0 {
        crc
    } else {
        crc_shift(crc_steps(crc, (n - 1) as nat))
    }
}

/// The running value after one more input byte.
pub open spec fn crc_byte(crc: u16, b: u8) -> u16 {
    crc_steps(crc ^ (b as u16), 8)
}

/// CRC16 of a byte sequence: start at 0xFFFF and absorb the bytes in order.
pub open spec fn crc16_spec(data: Seq<u8>) -> u16
    decreases data.len(),
{
    if data.len() == 0 {
        0xFFFF
    } else {
        crc_byte(crc16_spec(data.drop_last()), data.last())
    }
}

/// A 16-bit value from its low and high byte.
pub open spec fn le_u16(lo: u8, hi: u8) -> u16 {
    (lo as u16) | ((hi as u16) << 8)
}

/// The two bytes of a 16-bit value, low byte first.
pub open spec fn le_bytes(v: u16) -> Seq<u8> {
    seq![(v & 0xFF) as u8, (v >> 8) as u8]
}

/// A frame is valid when it has at least one payload byte and its last two
/// bytes are the little-endian CRC16 of everything before them.
pub open spec fn frame_valid(frame: Seq<u8>) -> bool {
    &&& frame.len() >= 3
    &&& le_u16(frame[frame.len() - 2], frame[frame.len() - 1]) == crc16_spec(
        frame.take(frame.len() - 2),
    )
}

/// CRC16 of the first `n` bytes of `data`.
pub fn crc16_prefix(data: &[u8], n: usize) -> (crc: u16)
    requires
        n <= data@.len(),
    ensures
        crc == crc16_spec(data@.take(n as int)),
{
    let mut crc: u16 = 0xFFFF;
    let mut i: usize = 0;
    while i < n
        invariant
            i <= n <= data@.len(),
            crc == crc16_spec(data@.take(i as int)),
        decreases n - i,
    {
        let ghost before = crc;
        crc = crc ^ (data[i] as u16);
        let ghost mixed = crc;
        let mut k: u8 = 0;
        while k < 8
            invariant
                k <= 8,
                crc == crc_steps(mixed, k as nat),
            decreases 8 - k,
        {
            crc = if (crc & 1) != 0 {
                (crc >> 1) ^ 0xA001
            } else {
                crc >> 1
            };
            k = k + 1;
        }
        proof {
            let next = data@.take(i + 1);
            assert(next.drop_last() =~= data@.take(i as int));
            assert(next.last() == data@[i as int]);
        }
        i = i + 1;
    }
    crc
}

/// CRC16 of `data`.
pub fn crc16(data: &[u8]) -> (crc: u16)
    ensures
        crc == crc16_spec(data@),
{
    proof {
        assert(data@.take(data@.len() as int) =~= data@);
    }
    crc16_prefix(data, data.len())
}

/// Whether `frame` carries a matching CRC16 trailer.
pub fn check_crc(frame: &[u8]) -> (ok: bool)
    ensures
        ok == frame_valid(frame@),
{
    if frame.len() < 3 {
        return false;
    }
    let crc_index: usize = frame.len() - 2;
    let received: u16 = (frame[crc_index] as u16) | ((frame[crc_index + 1] as u16) << 8);
    let calculated: u16 = crc16_prefix(frame, crc_index);
    received == calculated
}

/// Appends the little-endian CRC16 of the current contents.
pub fn append_crc(frame: &mut Vec<u8>)
    ensures
        final(frame)@ == old(frame)@ + le_bytes(crc16_spec(old(frame)@)),
{
    let crc: u16 = crc16(frame.as_slice());
    frame.push((crc & 0xFF) as u8);
    frame.push((crc >> 8) as u8);
    proof {
        assert(final(frame)@ =~= old(frame)@ + le_bytes(crc16_spec(old(frame)@)));
    }
}

/// Splitting a 16-bit value into bytes and joining them again gives it back.
pub proof fn lemma_le_round_trip(v: u16)
    ensures
        le_u16((v & 0xFF) as u8, (v >> 8) as u8) == v,
{
    assert(((v & 0xFF) as u8 as u16) | (((v >> 8) as u8 as u16) << 8) == v) by (bit_vector);
}

/// Round trip: any non-empty payload followed by the little-endian bytes of
/// its own CRC16 is a valid frame.
pub proof fn lemma_crc_round_trip(payload: Seq<u8>)
    requires
        payload.len() >= 1,
    ensures
        frame_valid(payload + le_bytes(crc16_spec(payload))),
{
    let crc = crc16_spec(payload);
    let frame = payload + le_bytes(crc);
    lemma_le_round_trip(crc);
    assert(frame.take(frame.len() - 2) =~= payload);
    assert(frame[frame.len() - 2] == (crc & 0xFF) as u8);
    assert(frame[frame.len() - 1] == (crc >> 8) as u8);
}

/// The bit step never maps two running values to one.
pub proof fn lemma_shift_injective(x: u16, y: u16)
    requires
        x != y,
    ensures
        crc_shift(x) != crc_shift(y),
{
    assert(x != y ==> (if x & 1 != 0 {
        (x >> 1) ^ 0xA001
    } else {
        x >> 1
    }) != (if y & 1 != 0 {
        (y >> 1) ^ 0xA001
    } else {
        y >> 1
    })) by (bit_vector);
}

/// Nor do `n` bit steps in a row.
pub proof fn lemma_steps_injective(x: u16, y: u16, n: nat)
    requires
        x != y,
    ensures
        crc_steps(x, n) != crc_steps(y, n),
    decreases n,
{
    if n > 0 {
        lemma_steps_injective(x, y, (n - 1) as nat);
        lemma_shift_injective(crc_steps(x, (n - 1) as nat), crc_steps(y, (n - 1) as nat));
    }
}

/// Absorbing one byte keeps two running values apart, and two different
/// bytes drive one running value apart.
pub proof fn lemma_byte_injective(c1: u16, b1: u8, c2: u16, b2: u8)
    requires
        (c1 != c2 && b1 == b2) || (c1 == c2 && b1 != b2),
    ensures
        crc_byte(c1, b1) != crc_byte(c2, b2),
{
    assert(((c1 != c2 && b1 == b2) || (c1 == c2 && b1 != b2)) ==> (c1 ^ (b1 as u16)) != (c2 ^ (
    b2 as u16))) by (bit_vector);
    lemma_steps_injective(c1 ^ (b1 as u16), c2 ^ (b2 as u16), 8);
}

/// Changing one byte of a byte sequence changes its CRC16.
pub proof fn lemma_crc_detects_byte_change(data: Seq<u8>, i: int, b: u8)
    requires
        0 <= i < data.len(),
        b != data[i],
    ensures
        crc16_spec(data.update(i, b)) != crc16_spec(data),
    decreases data.len(),
{
    let changed = data.update(i, b);
    if i == data.len() - 1 {
        assert(changed.drop_last() =~= data.drop_last());
        lemma_byte_injective(crc16_spec(data.drop_last()), b, crc16_spec(data.drop_last()), data.last());
    } else {
        assert(changed.drop_last() =~= data.drop_last().update(i, b));
        lemma_crc_detects_byte_change(data.drop_last(), i, b);
        lemma_byte_injective(
            crc16_spec(changed.drop_last()),
            data.last(),
            crc16_spec(data.drop_last()),
            data.last(),
        );
    }
}

/// Tamper sensitivity: changing any one byte of a valid frame, by one bit or
/// by more, makes it invalid.
pub proof fn lemma_tamper_detected(frame: Seq<u8>, i: int, b: u8)
    requires
        frame_valid(frame),
        0 <= i < frame.len(),
        b != frame[i],
    ensures
        !frame_valid(frame.update(i, b)),
{
    let n = frame.len() as int;
    let tampered = frame.update(i, b);
    if i < n - 2 {
        assert(tampered.take(n - 2) =~= frame.take(n - 2).update(i, b));
        lemma_crc_detects_byte_change(frame.take(n - 2), i, b);
    } else {
        assert(tampered.take(n - 2) =~= frame.take(n - 2));
        let lo = frame[n - 2];
        let hi = frame[n - 1];
        let lo2 = tampered[n - 2];
        let hi2 = tampered[n - 1];
        assert(((lo as u16) | ((hi as u16) << 8)) == ((lo2 as u16) | ((hi2 as u16) << 8)) ==> lo
            == lo2 && hi == hi2) by (bit_vector);
    }
}

/// Flipping any single bit of a valid frame makes it invalid.
pub proof fn lemma_bit_flip_detected(frame: Seq<u8>, i: int, bit: u8)
    requires
        frame_valid(frame),
        0 <= i < frame.len(),
        bit < 8,
    ensures
        !frame_valid(frame.update(i, frame[i] ^ (1u8 << bit))),
{
    let b = frame[i];
    assert(bit < 8 ==> (b ^ (1u8 << bit)) != b) by (bit_vector);
    lemma_tamper_detected(frame, i, b ^ (1u8 << bit));
}

} // verus!
