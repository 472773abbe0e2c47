//! The protobuf wire encoding of the published IMU frame. The schema is
//! fixed, so the encoder is written out here and proved against the wire
//! bytes; float values travel as their IEEE-754 bit patterns.

use vstd::prelude::*;

verus! {

/// The base-128 varint encoding of `n`, least significant group first.
pub open spec fn spec_varint(n: nat) -> Seq<u8>
    decreases n,
{
    if n < 128 {
        seq![n as u8]
    } else {
        seq![(n % 128 + 128) as u8] + spec_varint(n / 128)
    }
}

/// The four little-endian bytes of one 32-bit value.
pub open spec fn spec_le32(x: u32) -> Seq<u8> {
    seq![(x & 0xFF) as u8, ((x >> 8) & 0xFF) as u8, ((x >> 16) & 0xFF) as u8, ((x >> 24) & 0xFF) as u8]
}

/// Appends the varint encoding of `n`.
pub fn encode_varint(out: &mut Vec<u8>, n: u64)
    ensures
        final(out)@ == old(out)@ + spec_varint(n as nat),
{
    let mut x = n;
    while x >= 128
        invariant
            old(out)@ + spec_varint(n as nat) =~= out@ + spec_varint(x as nat),
        decreases x,
    {
        out.push((x % 128 + 128) as u8);
        x = x / 128;
    }
    out.push(x as u8);
    proof {
        assert(final(out)@ =~= old(out)@ + spec_varint(n as nat));
    }
}

/// Appends the little-endian bytes of `x`.
pub fn encode_le32(out: &mut Vec<u8>, x: u32)
    ensures
        final(out)@ == old(out)@ + spec_le32(x),
{
    out.push((x & 0xFF) as u8);
    out.push(((x >> 8) & 0xFF) as u8);
    out.push(((x >> 16) & 0xFF) as u8);
    out.push(((x >> 24) & 0xFF) as u8);
    proof {
        assert(final(out)@ =~= old(out)@ + spec_le32(x));
    }
}

/// One published sample, every float as its bit pattern.
pub struct ImuFrame {
    /// Microseconds since the Unix epoch.
    pub timestamp: u64,
    /// Acceleration in g, x y z.
    pub accel: [u32; 3],
    /// Angular velocity in rad/s, x y z.
    pub gyro: [u32; 3],
    /// Magnetic field in gauss, x y z.
    pub mag: [u32; 3],
    /// Temperature in milli-degree Celsius.
    pub temp: u32,
    /// Orientation quaternion, x y z w.
    pub quaternion: [u32; 4],
    /// Yaw, pitch, roll in radians.
    pub euler_angles: [u32; 3],
}

/// A packed field of three floats: its key byte, the payload length 12,
/// then the three values.
pub open spec fn spec_packed3(key: u8, a: u32, b: u32, c: u32) -> Seq<u8> {
    seq![key, 12u8] + spec_le32(a) + spec_le32(b) + spec_le32(c)
}

/// A packed field of four floats: its key byte, the payload length 16, then
/// the four values.
pub open spec fn spec_packed4(key: u8, a: u32, b: u32, c: u32, d: u32) -> Seq<u8> {
    seq![key, 16u8] + spec_le32(a) + spec_le32(b) + spec_le32(c) + spec_le32(d)
}

/// The whole frame on the wire. A zero timestamp and a zero temperature are
/// omitted, as proto3 omits default scalars (either float zero counts, so
/// both sign bits); the five repeated fields are always present with 3, 3,
/// 3, 4 and 3 values.
pub open spec fn spec_encode_frame(f: ImuFrame) -> Seq<u8> {
    (if f.timestamp == 0 {
        Seq::empty()
    } else {
        seq![8u8] + spec_varint(f.timestamp as nat)
    }) + spec_packed3(0x12, f.accel@[0], f.accel@[1], f.accel@[2]) + spec_packed3(
        0x1A,
        f.gyro@[0],
        f.gyro@[1],
        f.gyro@[2],
    ) + spec_packed3(0x22, f.mag@[0], f.mag@[1], f.mag@[2]) + (if f.temp == 0 || f.temp
        == 0x8000_0000 {
        Seq::empty()
    } else {
        seq![0x2Du8] + spec_le32(f.temp)
    }) + spec_packed4(
        0x32,
        f.quaternion@[0],
        f.quaternion@[1],
        f.quaternion@[2],
        f.quaternion@[3],
    ) + spec_packed3(0x3A, f.euler_angles@[0], f.euler_angles@[1], f.euler_angles@[2])
}

/// Appends one packed repeated-float field of three values.
fn encode_packed3(out: &mut Vec<u8>, key: u8, values: &[u32; 3])
    ensures
        final(out)@ == old(out)@ + spec_packed3(key, values@[0], values@[1], values@[2]),
{
    out.push(key);
    out.push(12);
    encode_le32(out, values[0]);
    encode_le32(out, values[1]);
    encode_le32(out, values[2]);
    proof {
        assert(final(out)@ =~= old(out)@ + spec_packed3(key, values@[0], values@[1], values@[2]));
    }
}

/// Appends the packed quaternion field.
fn encode_packed4(out: &mut Vec<u8>, key: u8, values: &[u32; 4])
    ensures
        final(out)@ == old(out)@ + spec_packed4(
            key,
            values@[0],
            values@[1],
            values@[2],
            values@[3],
        ),
{
    out.push(key);
    out.push(16);
    encode_le32(out, values[0]);
    encode_le32(out, values[1]);
    encode_le32(out, values[2]);
    encode_le32(out, values[3]);
    proof {
        assert(final(out)@ =~= old(out)@ + spec_packed4(
            key,
            values@[0],
            values@[1],
            values@[2],
            values@[3],
        ));
    }
}

/// Encodes one frame for the PUB socket, byte for byte as
/// `spec_encode_frame` lays it out.
pub fn encode_imu_frame(f: &ImuFrame) -> (r: Vec<u8>)
    ensures
        r@ == spec_encode_frame(*f),
{
    let mut out: Vec<u8> = Vec::new();
    if f.timestamp != 0 {
        out.push(8);
        encode_varint(&mut out, f.timestamp);
    }
    encode_packed3(&mut out, 0x12, &f.accel);
    encode_packed3(&mut out, 0x1A, &f.gyro);
    encode_packed3(&mut out, 0x22, &f.mag);
    if !(f.temp == 0 || f.temp == 0x8000_0000) {
        out.push(0x2D);
        encode_le32(&mut out, f.temp);
    }
    encode_packed4(&mut out, 0x32, &f.quaternion);
    encode_packed3(&mut out, 0x3A, &f.euler_angles);
    proof {
        assert(out@ =~= spec_encode_frame(*f));
    }
    out
}

/// Every encoded frame carries all five repeated fields with their full
/// element counts, whatever the sample held: 3 acceleration, 3 gyro, 3
/// magnetometer, 4 quaternion and 3 euler values, 14 or 18 wire bytes each,
/// always present.
pub proof fn lemma_frame_field_counts(f: ImuFrame)
    ensures
        f.accel@.len() == 3,
        f.gyro@.len() == 3,
        f.mag@.len() == 3,
        f.quaternion@.len() == 4,
        f.euler_angles@.len() == 3,
        spec_packed3(0x12, f.accel@[0], f.accel@[1], f.accel@[2]).len() == 14,
        spec_packed4(0x32, f.quaternion@[0], f.quaternion@[1], f.quaternion@[2], f.quaternion@[3])
            .len() == 18,
        spec_encode_frame(f).len() >= 74,
{
}

} // verus!
