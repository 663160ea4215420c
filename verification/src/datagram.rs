//! The wire-format decoder for one telemetry datagram.
//!
//! A datagram is a fixed 324-byte little-endian buffer: a naturally aligned
//! 232-byte physics block (`Sled`), a 12-byte trailer, a densely packed
//! 79-byte dashboard block (`Dash`), and one trailing byte.  Decoding is pure
//! reinterpretation: fields that the game emits as 32-bit floats are kept as
//! their IEEE-754 bit patterns (`u32`), so a decoded snapshot re-encodes to
//! exactly the original bytes.

use vstd::prelude::*;
use vstd::bytes::{
    spec_u16_from_le_bytes, spec_u16_to_le_bytes, spec_u32_from_le_bytes, spec_u32_to_le_bytes,
    u16_from_le_bytes, u32_from_le_bytes,
};
use vstd::slice::slice_subrange;

use crate::error::Error;

verus! {

/// Exact wire size of the physics block.
pub const SLED_SIZE: usize = 232;

/// Exact wire size of the dashboard block.
pub const DASH_SIZE: usize = 79;

/// Exact wire size of one whole datagram.
pub const DATAGRAM_SIZE: usize = 324;

/// A three-axis value (x, y, z), in field order on the wire.
#[derive(Clone, Copy, Debug, PartialEq, Eq, Structural)]
pub struct Vector<T> {
    pub x: T,
    pub y: T,
    pub z: T,
}

/// A four-wheel value, in wire order: front left, front right, rear left,
/// rear right.
#[derive(Clone, Copy, Debug, PartialEq, Eq, Structural)]
pub struct Quad<T> {
    pub front_left: T,
    pub front_right: T,
    pub rear_left: T,
    pub rear_right: T,
}

/// The physics block of a snapshot.
///
/// Fields the game transmits as 32-bit floats are held as their raw bit
/// patterns; nothing is interpreted at decode time.
#[derive(Clone, Copy, Debug, PartialEq, Eq, Structural)]
pub struct Sled {
    pub is_race_on: i32,
    pub timestamp_ms: u32,
    /// Float bits: maximum engine speed, revolutions per minute.
    pub engine_max_rpm: u32,
    /// Float bits: idle engine speed, revolutions per minute.
    pub engine_idle_rpm: u32,
    /// Float bits: current engine speed, revolutions per minute.
    pub current_engine_rpm: u32,
    /// Float bits per axis.
    pub acceleration: Vector<u32>,
    /// Float bits per axis.
    pub velocity: Vector<u32>,
    /// Float bits per axis.
    pub angular_velocity: Vector<u32>,
    /// Float bits.
    pub yaw: u32,
    /// Float bits.
    pub pitch: u32,
    /// Float bits.
    pub roll: u32,
    /// Float bits per wheel.
    pub normalized_suspension_travel: Quad<u32>,
    /// Float bits per wheel.
    pub tire_split_ratio: Quad<u32>,
    /// Float bits per wheel.
    pub wheel_rotation_speed: Quad<u32>,
    pub wheel_on_rumble_strip: Quad<i32>,
    /// Float bits per wheel.
    pub wheel_in_puddle_depth: Quad<u32>,
    /// Float bits per wheel.
    pub surface_rumble: Quad<u32>,
    /// Float bits per wheel.
    pub tire_slip_angle: Quad<u32>,
    /// Float bits per wheel.
    pub tire_combined_slip: Quad<u32>,
    /// Float bits per wheel.
    pub suspension_travel_meters: Quad<u32>,
    pub car_ordinal: i32,
    pub car_class: i32,
    pub car_performance_index: i32,
    pub drivetrain_type: i32,
    pub num_cylinders: i32,
}

/// The dashboard block of a snapshot; packed on the wire, no padding.
#[derive(Clone, Copy, Debug, PartialEq, Eq, Structural)]
pub struct Dash {
    /// Float bits per axis.
    pub position: Vector<u32>,
    /// Float bits: meters per second.
    pub speed: u32,
    /// Float bits: watts.
    pub power: u32,
    /// Float bits: newton-meters.
    pub torque: u32,
    /// Float bits per wheel.
    pub tire_temp: Quad<u32>,
    /// Float bits.
    pub boost: u32,
    /// Float bits.
    pub fuel: u32,
    /// Float bits.
    pub distance_traveled: u32,
    /// Float bits: seconds.
    pub best_lap: u32,
    /// Float bits: seconds.
    pub last_lap: u32,
    /// Float bits: seconds.
    pub current_lap: u32,
    /// Float bits: seconds.
    pub current_race_time: u32,
    pub lap_number: u16,
    pub race_position: u8,
    pub accel: u8,
    pub brake: u8,
    pub clutch: u8,
    pub hand_brake: u8,
    pub gear: u8,
    pub steer: i8,
    pub normalized_driving_line: i8,
    pub normalized_ai_brake_difference: i8,
}

/// One decoded telemetry snapshot: physics block, dashboard block, and the
/// trailer fields of currently unknown meaning, preserved verbatim.
#[derive(Clone, Copy, Debug, PartialEq, Eq, Structural)]
pub struct Horizon4Datagram {
    pub sled: Sled,
    /// Four raw trailer bytes, held little-endian in one word.
    pub unknown1: u32,
    /// Float bits; meaning unknown.
    pub unknown2: u32,
    /// Float bits; meaning unknown.
    pub unknown3: u32,
    pub dash: Dash,
    pub unknown4: i8,
}

// ---------------------------------------------------------------------------
// Reading fixed-width scalars out of the byte buffer, spec and exec.
// ---------------------------------------------------------------------------

/// The `u32` stored little-endian at byte offset `off`.
pub open spec fn spec_u32_at(s: Seq<u8>, off: int) -> u32 {
    spec_u32_from_le_bytes(s.subrange(off, off + 4))
}

/// The `i32` stored little-endian at byte offset `off`.
pub open spec fn spec_i32_at(s: Seq<u8>, off: int) -> i32 {
    spec_u32_at(s, off) as i32
}

/// The `u16` stored little-endian at byte offset `off`.
pub open spec fn spec_u16_at(s: Seq<u8>, off: int) -> u16 {
    spec_u16_from_le_bytes(s.subrange(off, off + 2))
}

/// The `i8` stored at byte offset `off`.
pub open spec fn spec_i8_at(s: Seq<u8>, off: int) -> i8 {
    s[off] as i8
}

/// The `Vector` of float bit patterns starting at byte offset `off`.
pub open spec fn spec_vector_at(s: Seq<u8>, off: int) -> Vector<u32> {
    Vector { x: spec_u32_at(s, off), y: spec_u32_at(s, off + 4), z: spec_u32_at(s, off + 8) }
}

/// The `Quad` of float bit patterns starting at byte offset `off`.
pub open spec fn spec_quad_at(s: Seq<u8>, off: int) -> Quad<u32> {
    Quad {
        front_left: spec_u32_at(s, off),
        front_right: spec_u32_at(s, off + 4),
        rear_left: spec_u32_at(s, off + 8),
        rear_right: spec_u32_at(s, off + 12),
    }
}

/// The `Quad` of `i32` values starting at byte offset `off`.
pub open spec fn spec_quad_i32_at(s: Seq<u8>, off: int) -> Quad<i32> {
    Quad {
        front_left: spec_i32_at(s, off),
        front_right: spec_i32_at(s, off + 4),
        rear_left: spec_i32_at(s, off + 8),
        rear_right: spec_i32_at(s, off + 12),
    }
}

fn read_u32(b: &[u8], off: usize) -> (r: u32)
    requires
        off + 4 <= b.len(),
    ensures
        r == spec_u32_at(b@, off as int),
{
    u32_from_le_bytes(slice_subrange(b, off, off + 4))
}

fn read_i32(b: &[u8], off: usize) -> (r: i32)
    requires
        off + 4 <= b.len(),
    ensures
        r == spec_i32_at(b@, off as int),
{
    #[verifier::truncate] (read_u32(b, off) as i32)
}

fn read_u16(b: &[u8], off: usize) -> (r: u16)
    requires
        off + 2 <= b.len(),
    ensures
        r == spec_u16_at(b@, off as int),
{
    u16_from_le_bytes(slice_subrange(b, off, off + 2))
}

fn read_u8(b: &[u8], off: usize) -> (r: u8)
    requires
        off < b.len(),
    ensures
        r == b@[off as int],
{
    *vstd::slice::slice_index_get(b, off)
}

fn read_i8(b: &[u8], off: usize) -> (r: i8)
    requires
        off < b.len(),
    ensures
        r == spec_i8_at(b@, off as int),
{
    #[verifier::truncate] (read_u8(b, off) as i8)
}

fn read_vector(b: &[u8], off: usize) -> (r: Vector<u32>)
    requires
        off + 12 <= b.len(),
    ensures
        r == spec_vector_at(b@, off as int),
{
    Vector { x: read_u32(b, off), y: read_u32(b, off + 4), z: read_u32(b, off + 8) }
}

fn read_quad(b: &[u8], off: usize) -> (r: Quad<u32>)
    requires
        off + 16 <= b.len(),
    ensures
        r == spec_quad_at(b@, off as int),
{
    Quad {
        front_left: read_u32(b, off),
        front_right: read_u32(b, off + 4),
        rear_left: read_u32(b, off + 8),
        rear_right: read_u32(b, off + 12),
    }
}

fn read_quad_i32(b: &[u8], off: usize) -> (r: Quad<i32>)
    requires
        off + 16 <= b.len(),
    ensures
        r == spec_quad_i32_at(b@, off as int),
{
    Quad {
        front_left: read_i32(b, off),
        front_right: read_i32(b, off + 4),
        rear_left: read_i32(b, off + 8),
        rear_right: read_i32(b, off + 12),
    }
}

// ---------------------------------------------------------------------------
// The decoded snapshot as a function of the first 324 bytes of the buffer.
// ---------------------------------------------------------------------------

/// The physics block read at its fixed offsets.
pub open spec fn spec_sled(s: Seq<u8>) -> Sled {
    Sled {
        is_race_on: spec_i32_at(s, 0),
        timestamp_ms: spec_u32_at(s, 4),
        engine_max_rpm: spec_u32_at(s, 8),
        engine_idle_rpm: spec_u32_at(s, 12),
        current_engine_rpm: spec_u32_at(s, 16),
        acceleration: spec_vector_at(s, 20),
        velocity: spec_vector_at(s, 32),
        angular_velocity: spec_vector_at(s, 44),
        yaw: spec_u32_at(s, 56),
        pitch: spec_u32_at(s, 60),
        roll: spec_u32_at(s, 64),
        normalized_suspension_travel: spec_quad_at(s, 68),
        tire_split_ratio: spec_quad_at(s, 84),
        wheel_rotation_speed: spec_quad_at(s, 100),
        wheel_on_rumble_strip: spec_quad_i32_at(s, 116),
        wheel_in_puddle_depth: spec_quad_at(s, 132),
        surface_rumble: spec_quad_at(s, 148),
        tire_slip_angle: spec_quad_at(s, 164),
        tire_combined_slip: spec_quad_at(s, 180),
        suspension_travel_meters: spec_quad_at(s, 196),
        car_ordinal: spec_i32_at(s, 212),
        car_class: spec_i32_at(s, 216),
        car_performance_index: spec_i32_at(s, 220),
        drivetrain_type: spec_i32_at(s, 224),
        num_cylinders: spec_i32_at(s, 228),
    }
}

/// The dashboard block read at its fixed offsets.
pub open spec fn spec_dash(s: Seq<u8>) -> Dash {
    Dash {
        position: spec_vector_at(s, 244),
        speed: spec_u32_at(s, 256),
        power: spec_u32_at(s, 260),
        torque: spec_u32_at(s, 264),
        tire_temp: spec_quad_at(s, 268),
        boost: spec_u32_at(s, 284),
        fuel: spec_u32_at(s, 288),
        distance_traveled: spec_u32_at(s, 292),
        best_lap: spec_u32_at(s, 296),
        last_lap: spec_u32_at(s, 300),
        current_lap: spec_u32_at(s, 304),
        current_race_time: spec_u32_at(s, 308),
        lap_number: spec_u16_at(s, 312),
        race_position: s[314],
        accel: s[315],
        brake: s[316],
        clutch: s[317],
        hand_brake: s[318],
        gear: s[319],
        steer: spec_i8_at(s, 320),
        normalized_driving_line: spec_i8_at(s, 321),
        normalized_ai_brake_difference: spec_i8_at(s, 322),
    }
}

/// The whole snapshot read from the first 324 bytes of `s`.
pub open spec fn spec_decode(s: Seq<u8>) -> Horizon4Datagram {
    Horizon4Datagram {
        sled: spec_sled(s),
        unknown1: spec_u32_at(s, 232),
        unknown2: spec_u32_at(s, 236),
        unknown3: spec_u32_at(s, 240),
        dash: spec_dash(s),
        unknown4: spec_i8_at(s, 323),
    }
}

/// Decodes one datagram.
///
/// A buffer shorter than the exact wire size is rejected as
/// `TruncatedDatagram`; nothing is ever zero-padded.  A buffer of the exact
/// size (or longer, of which the first 324 bytes are one datagram) decodes by
/// pure reinterpretation, with no validation of field contents.
pub fn decode(bytes: &[u8]) -> (r: Result<Horizon4Datagram, Error>)
    ensures
        bytes@.len() < DATAGRAM_SIZE ==> r == Err::<Horizon4Datagram, Error>(
            Error::TruncatedDatagram,
        ),
        bytes@.len() >= DATAGRAM_SIZE ==> r == Ok::<Horizon4Datagram, Error>(spec_decode(bytes@)),
{
    if bytes.len() < DATAGRAM_SIZE {
        return Err(Error::TruncatedDatagram);
    }
    let sled = Sled {
        is_race_on: read_i32(bytes, 0),
        timestamp_ms: read_u32(bytes, 4),
        engine_max_rpm: read_u32(bytes, 8),
        engine_idle_rpm: read_u32(bytes, 12),
        current_engine_rpm: read_u32(bytes, 16),
        acceleration: read_vector(bytes, 20),
        velocity: read_vector(bytes, 32),
        angular_velocity: read_vector(bytes, 44),
        yaw: read_u32(bytes, 56),
        pitch: read_u32(bytes, 60),
        roll: read_u32(bytes, 64),
        normalized_suspension_travel: read_quad(bytes, 68),
        tire_split_ratio: read_quad(bytes, 84),
        wheel_rotation_speed: read_quad(bytes, 100),
        wheel_on_rumble_strip: read_quad_i32(bytes, 116),
        wheel_in_puddle_depth: read_quad(bytes, 132),
        surface_rumble: read_quad(bytes, 148),
        tire_slip_angle: read_quad(bytes, 164),
        tire_combined_slip: read_quad(bytes, 180),
        suspension_travel_meters: read_quad(bytes, 196),
        car_ordinal: read_i32(bytes, 212),
        car_class: read_i32(bytes, 216),
        car_performance_index: read_i32(bytes, 220),
        drivetrain_type: read_i32(bytes, 224),
        num_cylinders: read_i32(bytes, 228),
    };
    let dash = Dash {
        position: read_vector(bytes, 244),
        speed: read_u32(bytes, 256),
        power: read_u32(bytes, 260),
        torque: read_u32(bytes, 264),
        tire_temp: read_quad(bytes, 268),
        boost: read_u32(bytes, 284),
        fuel: read_u32(bytes, 288),
        distance_traveled: read_u32(bytes, 292),
        best_lap: read_u32(bytes, 296),
        last_lap: read_u32(bytes, 300),
        current_lap: read_u32(bytes, 304),
        current_race_time: read_u32(bytes, 308),
        lap_number: read_u16(bytes, 312),
        race_position: read_u8(bytes, 314),
        accel: read_u8(bytes, 315),
        brake: read_u8(bytes, 316),
        clutch: read_u8(bytes, 317),
        hand_brake: read_u8(bytes, 318),
        gear: read_u8(bytes, 319),
        steer: read_i8(bytes, 320),
        normalized_driving_line: read_i8(bytes, 321),
        normalized_ai_brake_difference: read_i8(bytes, 322),
    };
    Ok(
        Horizon4Datagram {
            sled,
            unknown1: read_u32(bytes, 232),
            unknown2: read_u32(bytes, 236),
            unknown3: read_u32(bytes, 240),
            dash,
            unknown4: read_i8(bytes, 323),
        },
    )
}

// ---------------------------------------------------------------------------
// Re-encoding a snapshot to its wire bytes, spec and exec.
// ---------------------------------------------------------------------------

/// The little-endian bytes of an `i32`.
pub open spec fn spec_i32_to_le_bytes(x: i32) -> Seq<u8> {
    spec_u32_to_le_bytes(x as u32)
}

/// The single wire byte of an `i8`.
pub open spec fn spec_i8_to_byte(x: i8) -> Seq<u8> {
    seq![x as u8]
}

/// The wire bytes of a `Vector` of float bit patterns.
pub open spec fn spec_vector_bytes(v: Vector<u32>) -> Seq<u8> {
    spec_u32_to_le_bytes(v.x) + spec_u32_to_le_bytes(v.y) + spec_u32_to_le_bytes(v.z)
}

/// The wire bytes of a `Quad` of float bit patterns.
pub open spec fn spec_quad_bytes(q: Quad<u32>) -> Seq<u8> {
    spec_u32_to_le_bytes(q.front_left) + spec_u32_to_le_bytes(q.front_right)
        + spec_u32_to_le_bytes(q.rear_left) + spec_u32_to_le_bytes(q.rear_right)
}

/// The wire bytes of a `Quad` of `i32` values.
pub open spec fn spec_quad_i32_bytes(q: Quad<i32>) -> Seq<u8> {
    spec_i32_to_le_bytes(q.front_left) + spec_i32_to_le_bytes(q.front_right)
        + spec_i32_to_le_bytes(q.rear_left) + spec_i32_to_le_bytes(q.rear_right)
}

/// The wire bytes of the physics block, fields in wire order.
pub open spec fn spec_sled_bytes(d: Sled) -> Seq<u8> {
    spec_i32_to_le_bytes(d.is_race_on) + spec_u32_to_le_bytes(d.timestamp_ms)
        + spec_u32_to_le_bytes(d.engine_max_rpm) + spec_u32_to_le_bytes(d.engine_idle_rpm)
        + spec_u32_to_le_bytes(d.current_engine_rpm) + spec_vector_bytes(d.acceleration)
        + spec_vector_bytes(d.velocity) + spec_vector_bytes(d.angular_velocity)
        + spec_u32_to_le_bytes(d.yaw) + spec_u32_to_le_bytes(d.pitch)
        + spec_u32_to_le_bytes(d.roll) + spec_quad_bytes(d.normalized_suspension_travel)
        + spec_quad_bytes(d.tire_split_ratio) + spec_quad_bytes(d.wheel_rotation_speed)
        + spec_quad_i32_bytes(d.wheel_on_rumble_strip) + spec_quad_bytes(d.wheel_in_puddle_depth)
        + spec_quad_bytes(d.surface_rumble) + spec_quad_bytes(d.tire_slip_angle)
        + spec_quad_bytes(d.tire_combined_slip) + spec_quad_bytes(d.suspension_travel_meters)
        + spec_i32_to_le_bytes(d.car_ordinal) + spec_i32_to_le_bytes(d.car_class)
        + spec_i32_to_le_bytes(d.car_performance_index) + spec_i32_to_le_bytes(d.drivetrain_type)
        + spec_i32_to_le_bytes(d.num_cylinders)
}

/// The wire bytes of the dashboard block, fields in wire order, packed.
pub open spec fn spec_dash_bytes(d: Dash) -> Seq<u8> {
    spec_vector_bytes(d.position) + spec_u32_to_le_bytes(d.speed) + spec_u32_to_le_bytes(d.power)
        + spec_u32_to_le_bytes(d.torque) + spec_quad_bytes(d.tire_temp)
        + spec_u32_to_le_bytes(d.boost) + spec_u32_to_le_bytes(d.fuel)
        + spec_u32_to_le_bytes(d.distance_traveled) + spec_u32_to_le_bytes(d.best_lap)
        + spec_u32_to_le_bytes(d.last_lap) + spec_u32_to_le_bytes(d.current_lap)
        + spec_u32_to_le_bytes(d.current_race_time) + spec_u16_to_le_bytes(d.lap_number)
        + seq![d.race_position] + seq![d.accel] + seq![d.brake] + seq![d.clutch]
        + seq![d.hand_brake] + seq![d.gear] + spec_i8_to_byte(d.steer)
        + spec_i8_to_byte(d.normalized_driving_line)
        + spec_i8_to_byte(d.normalized_ai_brake_difference)
}

/// The full 324 wire bytes of a snapshot.
pub open spec fn spec_encode(d: Horizon4Datagram) -> Seq<u8> {
    spec_sled_bytes(d.sled) + spec_u32_to_le_bytes(d.unknown1) + spec_u32_to_le_bytes(d.unknown2)
        + spec_u32_to_le_bytes(d.unknown3) + spec_dash_bytes(d.dash)
        + spec_i8_to_byte(d.unknown4)
}

fn put_u32(v: &mut Vec<u8>, x: u32)
    ensures
        final(v)@ == old(v)@ + spec_u32_to_le_bytes(x),
{
    let mut b = vstd::bytes::u32_to_le_bytes(x);
    v.append(&mut b);
}

fn put_i32(v: &mut Vec<u8>, x: i32)
    ensures
        final(v)@ == old(v)@ + spec_i32_to_le_bytes(x),
{
    put_u32(v, #[verifier::truncate] (x as u32));
}

fn put_u16(v: &mut Vec<u8>, x: u16)
    ensures
        final(v)@ == old(v)@ + spec_u16_to_le_bytes(x),
{
    let mut b = vstd::bytes::u16_to_le_bytes(x);
    v.append(&mut b);
}

fn put_u8(v: &mut Vec<u8>, x: u8)
    ensures
        final(v)@ == old(v)@ + seq![x],
{
    v.push(x);
    proof {
        assert(v@ =~= old(v)@ + seq![x]);
    }
}

fn put_i8(v: &mut Vec<u8>, x: i8)
    ensures
        final(v)@ == old(v)@ + spec_i8_to_byte(x),
{
    put_u8(v, #[verifier::truncate] (x as u8));
}

fn put_vector(v: &mut Vec<u8>, w: &Vector<u32>)
    ensures
        final(v)@ == old(v)@ + spec_vector_bytes(*w),
{
    put_u32(v, w.x);
    put_u32(v, w.y);
    put_u32(v, w.z);
    proof {
        assert(v@ =~= old(v)@ + spec_vector_bytes(*w));
    }
}

fn put_quad(v: &mut Vec<u8>, q: &Quad<u32>)
    ensures
        final(v)@ == old(v)@ + spec_quad_bytes(*q),
{
    put_u32(v, q.front_left);
    put_u32(v, q.front_right);
    put_u32(v, q.rear_left);
    put_u32(v, q.rear_right);
    proof {
        assert(v@ =~= old(v)@ + spec_quad_bytes(*q));
    }
}

fn put_quad_i32(v: &mut Vec<u8>, q: &Quad<i32>)
    ensures
        final(v)@ == old(v)@ + spec_quad_i32_bytes(*q),
{
    put_i32(v, q.front_left);
    put_i32(v, q.front_right);
    put_i32(v, q.rear_left);
    put_i32(v, q.rear_right);
    proof {
        assert(v@ =~= old(v)@ + spec_quad_i32_bytes(*q));
    }
}

#[verifier::rlimit(60)]
fn encode_sled(v: &mut Vec<u8>, d: &Sled)
    ensures
        final(v)@ == old(v)@ + spec_sled_bytes(*d),
{
    put_i32(v, d.is_race_on);
    put_u32(v, d.timestamp_ms);
    put_u32(v, d.engine_max_rpm);
    put_u32(v, d.engine_idle_rpm);
    put_u32(v, d.current_engine_rpm);
    put_vector(v, &d.acceleration);
    put_vector(v, &d.velocity);
    put_vector(v, &d.angular_velocity);
    put_u32(v, d.yaw);
    put_u32(v, d.pitch);
    put_u32(v, d.roll);
    put_quad(v, &d.normalized_suspension_travel);
    put_quad(v, &d.tire_split_ratio);
    put_quad(v, &d.wheel_rotation_speed);
    put_quad_i32(v, &d.wheel_on_rumble_strip);
    put_quad(v, &d.wheel_in_puddle_depth);
    put_quad(v, &d.surface_rumble);
    put_quad(v, &d.tire_slip_angle);
    put_quad(v, &d.tire_combined_slip);
    put_quad(v, &d.suspension_travel_meters);
    put_i32(v, d.car_ordinal);
    put_i32(v, d.car_class);
    put_i32(v, d.car_performance_index);
    put_i32(v, d.drivetrain_type);
    put_i32(v, d.num_cylinders);
    proof {
        assert(v@ =~= old(v)@ + spec_sled_bytes(*d));
    }
}

#[verifier::rlimit(60)]
fn encode_dash(v: &mut Vec<u8>, d: &Dash)
    ensures
        final(v)@ == old(v)@ + spec_dash_bytes(*d),
{
    put_vector(v, &d.position);
    put_u32(v, d.speed);
    put_u32(v, d.power);
    put_u32(v, d.torque);
    put_quad(v, &d.tire_temp);
    put_u32(v, d.boost);
    put_u32(v, d.fuel);
    put_u32(v, d.distance_traveled);
    put_u32(v, d.best_lap);
    put_u32(v, d.last_lap);
    put_u32(v, d.current_lap);
    put_u32(v, d.current_race_time);
    put_u16(v, d.lap_number);
    put_u8(v, d.race_position);
    put_u8(v, d.accel);
    put_u8(v, d.brake);
    put_u8(v, d.clutch);
    put_u8(v, d.hand_brake);
    put_u8(v, d.gear);
    put_i8(v, d.steer);
    put_i8(v, d.normalized_driving_line);
    put_i8(v, d.normalized_ai_brake_difference);
    proof {
        assert(v@ =~= old(v)@ + spec_dash_bytes(*d));
    }
}

/// Re-encodes a snapshot to its exact wire bytes.
pub fn encode(d: &Horizon4Datagram) -> (r: Vec<u8>)
    ensures
        r@ == spec_encode(*d),
        r@.len() == DATAGRAM_SIZE,
{
    let mut v: Vec<u8> = Vec::new();
    encode_sled(&mut v, &d.sled);
    put_u32(&mut v, d.unknown1);
    put_u32(&mut v, d.unknown2);
    put_u32(&mut v, d.unknown3);
    encode_dash(&mut v, &d.dash);
    put_i8(&mut v, d.unknown4);
    proof {
        assert(v@ =~= spec_encode(*d));
        lemma_encode_len(*d);
    }
    v
}

// ---------------------------------------------------------------------------
// Round trip: a decoded snapshot re-encodes to the original bytes.
// ---------------------------------------------------------------------------

proof fn lemma_u32_round_at(s: Seq<u8>, off: int)
    requires
        0 <= off,
        off + 4 <= s.len(),
    ensures
        spec_u32_to_le_bytes(spec_u32_at(s, off)) == s.subrange(off, off + 4),
{
    vstd::bytes::lemma_auto_spec_u32_to_from_le_bytes();
}

proof fn lemma_i32_round_at(s: Seq<u8>, off: int)
    requires
        0 <= off,
        off + 4 <= s.len(),
    ensures
        spec_i32_to_le_bytes(spec_i32_at(s, off)) == s.subrange(off, off + 4),
{
    let x = spec_u32_at(s, off);
    assert(((x as i32) as u32) == x) by (bit_vector);
    lemma_u32_round_at(s, off);
}

proof fn lemma_u16_round_at(s: Seq<u8>, off: int)
    requires
        0 <= off,
        off + 2 <= s.len(),
    ensures
        spec_u16_to_le_bytes(spec_u16_at(s, off)) == s.subrange(off, off + 2),
{
    vstd::bytes::lemma_auto_spec_u16_to_from_le_bytes();
}

proof fn lemma_u8_round_at(s: Seq<u8>, off: int)
    requires
        0 <= off,
        off + 1 <= s.len(),
    ensures
        seq![s[off]] == s.subrange(off, off + 1),
{
    assert(seq![s[off]] =~= s.subrange(off, off + 1));
}

proof fn lemma_i8_round_at(s: Seq<u8>, off: int)
    requires
        0 <= off,
        off + 1 <= s.len(),
    ensures
        spec_i8_to_byte(spec_i8_at(s, off)) == s.subrange(off, off + 1),
{
    let b = s[off];
    assert(((b as i8) as u8) == b) by (bit_vector);
    lemma_u8_round_at(s, off);
}

proof fn lemma_subrange_concat(s: Seq<u8>, a: int, b: int, c: int)
    requires
        0 <= a <= b <= c <= s.len(),
    ensures
        s.subrange(a, b) + s.subrange(b, c) == s.subrange(a, c),
{
    assert(s.subrange(a, b) + s.subrange(b, c) =~= s.subrange(a, c));
}

proof fn lemma_vector_round_at(s: Seq<u8>, off: int)
    requires
        0 <= off,
        off + 12 <= s.len(),
    ensures
        spec_vector_bytes(spec_vector_at(s, off)) == s.subrange(off, off + 12),
{
    lemma_u32_round_at(s, off);
    lemma_u32_round_at(s, off + 4);
    lemma_u32_round_at(s, off + 8);
    lemma_subrange_concat(s, off, off + 4, off + 8);
    lemma_subrange_concat(s, off, off + 8, off + 12);
}

proof fn lemma_quad_round_at(s: Seq<u8>, off: int)
    requires
        0 <= off,
        off + 16 <= s.len(),
    ensures
        spec_quad_bytes(spec_quad_at(s, off)) == s.subrange(off, off + 16),
{
    lemma_u32_round_at(s, off);
    lemma_u32_round_at(s, off + 4);
    lemma_u32_round_at(s, off + 8);
    lemma_u32_round_at(s, off + 12);
    lemma_subrange_concat(s, off, off + 4, off + 8);
    lemma_subrange_concat(s, off, off + 8, off + 12);
    lemma_subrange_concat(s, off, off + 12, off + 16);
}

proof fn lemma_quad_i32_round_at(s: Seq<u8>, off: int)
    requires
        0 <= off,
        off + 16 <= s.len(),
    ensures
        spec_quad_i32_bytes(spec_quad_i32_at(s, off)) == s.subrange(off, off + 16),
{
    lemma_i32_round_at(s, off);
    lemma_i32_round_at(s, off + 4);
    lemma_i32_round_at(s, off + 8);
    lemma_i32_round_at(s, off + 12);
    lemma_subrange_concat(s, off, off + 4, off + 8);
    lemma_subrange_concat(s, off, off + 8, off + 12);
    lemma_subrange_concat(s, off, off + 12, off + 16);
}

#[verifier::rlimit(100)]
proof fn lemma_sled_round(s: Seq<u8>)
    requires
        SLED_SIZE <= s.len(),
    ensures
        spec_sled_bytes(spec_sled(s)) == s.subrange(0, SLED_SIZE as int),
{
    lemma_i32_round_at(s, 0);
    lemma_u32_round_at(s, 4);
    lemma_u32_round_at(s, 8);
    lemma_u32_round_at(s, 12);
    lemma_u32_round_at(s, 16);
    lemma_vector_round_at(s, 20);
    lemma_vector_round_at(s, 32);
    lemma_vector_round_at(s, 44);
    lemma_u32_round_at(s, 56);
    lemma_u32_round_at(s, 60);
    lemma_u32_round_at(s, 64);
    lemma_quad_round_at(s, 68);
    lemma_quad_round_at(s, 84);
    lemma_quad_round_at(s, 100);
    lemma_quad_i32_round_at(s, 116);
    lemma_quad_round_at(s, 132);
    lemma_quad_round_at(s, 148);
    lemma_quad_round_at(s, 164);
    lemma_quad_round_at(s, 180);
    lemma_quad_round_at(s, 196);
    lemma_i32_round_at(s, 212);
    lemma_i32_round_at(s, 216);
    lemma_i32_round_at(s, 220);
    lemma_i32_round_at(s, 224);
    lemma_i32_round_at(s, 228);
    lemma_subrange_concat(s, 0, 4, 8);
    lemma_subrange_concat(s, 0, 8, 12);
    lemma_subrange_concat(s, 0, 12, 16);
    lemma_subrange_concat(s, 0, 16, 20);
    lemma_subrange_concat(s, 0, 20, 32);
    lemma_subrange_concat(s, 0, 32, 44);
    lemma_subrange_concat(s, 0, 44, 56);
    lemma_subrange_concat(s, 0, 56, 60);
    lemma_subrange_concat(s, 0, 60, 64);
    lemma_subrange_concat(s, 0, 64, 68);
    lemma_subrange_concat(s, 0, 68, 84);
    lemma_subrange_concat(s, 0, 84, 100);
    lemma_subrange_concat(s, 0, 100, 116);
    lemma_subrange_concat(s, 0, 116, 132);
    lemma_subrange_concat(s, 0, 132, 148);
    lemma_subrange_concat(s, 0, 148, 164);
    lemma_subrange_concat(s, 0, 164, 180);
    lemma_subrange_concat(s, 0, 180, 196);
    lemma_subrange_concat(s, 0, 196, 212);
    lemma_subrange_concat(s, 0, 212, 216);
    lemma_subrange_concat(s, 0, 216, 220);
    lemma_subrange_concat(s, 0, 220, 224);
    lemma_subrange_concat(s, 0, 224, 228);
    lemma_subrange_concat(s, 0, 228, 232);
}

#[verifier::rlimit(100)]
proof fn lemma_dash_round(s: Seq<u8>)
    requires
        323 <= s.len(),
    ensures
        spec_dash_bytes(spec_dash(s)) == s.subrange(244, 323),
{
    lemma_vector_round_at(s, 244);
    lemma_u32_round_at(s, 256);
    lemma_u32_round_at(s, 260);
    lemma_u32_round_at(s, 264);
    lemma_quad_round_at(s, 268);
    lemma_u32_round_at(s, 284);
    lemma_u32_round_at(s, 288);
    lemma_u32_round_at(s, 292);
    lemma_u32_round_at(s, 296);
    lemma_u32_round_at(s, 300);
    lemma_u32_round_at(s, 304);
    lemma_u32_round_at(s, 308);
    lemma_u16_round_at(s, 312);
    lemma_u8_round_at(s, 314);
    lemma_u8_round_at(s, 315);
    lemma_u8_round_at(s, 316);
    lemma_u8_round_at(s, 317);
    lemma_u8_round_at(s, 318);
    lemma_u8_round_at(s, 319);
    lemma_i8_round_at(s, 320);
    lemma_i8_round_at(s, 321);
    lemma_i8_round_at(s, 322);
    lemma_subrange_concat(s, 244, 256, 260);
    lemma_subrange_concat(s, 244, 260, 264);
    lemma_subrange_concat(s, 244, 264, 268);
    lemma_subrange_concat(s, 244, 268, 284);
    lemma_subrange_concat(s, 244, 284, 288);
    lemma_subrange_concat(s, 244, 288, 292);
    lemma_subrange_concat(s, 244, 292, 296);
    lemma_subrange_concat(s, 244, 296, 300);
    lemma_subrange_concat(s, 244, 300, 304);
    lemma_subrange_concat(s, 244, 304, 308);
    lemma_subrange_concat(s, 244, 308, 312);
    lemma_subrange_concat(s, 244, 312, 314);
    lemma_subrange_concat(s, 244, 314, 315);
    lemma_subrange_concat(s, 244, 315, 316);
    lemma_subrange_concat(s, 244, 316, 317);
    lemma_subrange_concat(s, 244, 317, 318);
    lemma_subrange_concat(s, 244, 318, 319);
    lemma_subrange_concat(s, 244, 319, 320);
    lemma_subrange_concat(s, 244, 320, 321);
    lemma_subrange_concat(s, 244, 321, 322);
    lemma_subrange_concat(s, 244, 322, 323);
}

/// The length of the re-encoded bytes is the exact wire size.
pub proof fn lemma_encode_len(d: Horizon4Datagram)
    ensures
        spec_encode(d).len() == DATAGRAM_SIZE,
{
    vstd::bytes::lemma_auto_spec_u32_to_from_le_bytes();
    vstd::bytes::lemma_auto_spec_u16_to_from_le_bytes();
}

/// Decoding a valid-size buffer and re-encoding the snapshot reproduces the
/// original bytes exactly.
pub proof fn lemma_decode_encode(s: Seq<u8>)
    requires
        s.len() == DATAGRAM_SIZE,
    ensures
        spec_encode(spec_decode(s)) == s,
{
    lemma_sled_round(s);
    lemma_u32_round_at(s, 232);
    lemma_u32_round_at(s, 236);
    lemma_u32_round_at(s, 240);
    lemma_dash_round(s);
    lemma_i8_round_at(s, 323);
    lemma_subrange_concat(s, 0, 232, 236);
    lemma_subrange_concat(s, 0, 236, 240);
    lemma_subrange_concat(s, 0, 240, 244);
    lemma_subrange_concat(s, 0, 244, 323);
    lemma_subrange_concat(s, 0, 323, 324);
    assert(s.subrange(0, 324) =~= s);
}

} // verus!
