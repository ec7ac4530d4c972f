//! Packet decoders: checksum validation, the typed packets carried by a frame
//! body, and the values derived from them.
//!
//! A frame body is 15 bytes: 14 payload bytes followed by one checksum byte.
//! Every decoder accepts a body exactly when the checksum byte equals the sum
//! of the payload bytes modulo 256, and then reads its fields from fixed,
//! big-endian positions of the payload.

use vstd::prelude::*;

verus! {

/// Number of payload bytes in a frame body.
pub const PAYLOAD_LEN: usize = 14;

/// Number of bytes in a frame body: the payload followed by its checksum byte.
pub const BODY_LEN: usize = 15;

/// Largest raw pedal reading; larger readings are clamped to it.
pub const PEDAL_MAX: u16 = 1023;

/// Raw pedal reading at (and below) which the throttle is fully open.
pub const PEDAL_FLOOR: u16 = 545;

/// Width of the calibrated pedal range above `PEDAL_FLOOR`.
pub const PEDAL_SPAN: u16 = 478;

/// Tolerated distance between the pedal reading and its baseline.
pub const PEDAL_BASELINE_MARGIN: u16 = 50;

/// Raw pedal readings below this value are implausible.
pub const PEDAL_PLAUSIBLE_MIN: u16 = 475;

/// Sum of all bytes of `s`, as a mathematical integer.
pub open spec fn byte_sum(s: Seq<u8>) -> nat
    decreases s.len(),
{
    if s.len() == 0 {
        0
    } else {
        byte_sum(s.drop_last()) + s.last() as nat
    }
}

/// The checksum of a frame body: the sum of its 14 payload bytes, modulo 256.
pub open spec fn spec_checksum(body: Seq<u8>) -> int {
    (byte_sum(body.subrange(0, PAYLOAD_LEN as int)) % 256) as int
}

/// A frame body is well formed when it has 15 bytes and the last one equals
/// the checksum of the 14 before it.
pub open spec fn checksum_ok(body: Seq<u8>) -> bool {
    body.len() == BODY_LEN && spec_checksum(body) == body[PAYLOAD_LEN as int] as int
}

/// The value of two bytes read as a big-endian unsigned integer.
pub open spec fn spec_be16(hi: u8, lo: u8) -> int {
    hi as int * 256 + lo as int
}

/// The value of four bytes read as a big-endian unsigned integer.
pub open spec fn spec_be32(b0: u8, b1: u8, b2: u8, b3: u8) -> int {
    b0 as int * 16777216 + b1 as int * 65536 + b2 as int * 256 + b3 as int
}

/// `x` limited to the closed interval from `lo` to `hi`.
pub open spec fn spec_clamp(x: int, lo: int, hi: int) -> int {
    if x < lo {
        lo
    } else if x > hi {
        hi
    } else {
        x
    }
}

/// Throttle percentage for a raw pedal reading: the reading is clamped to the
/// calibrated range, scaled to 0..=100 with truncating division, and inverted,
/// so that a reading at the floor is full throttle and one at the top is none.
pub open spec fn spec_throttle(pedal_value: u16) -> int {
    let travel = spec_clamp(pedal_value as int, PEDAL_FLOOR as int, PEDAL_MAX as int)
        - PEDAL_FLOOR as int;
    spec_clamp(100 - (travel * 100) / (PEDAL_SPAN as int), 0, 100)
}

/// Whether a pedal reading counts as faulty: the baseline lies more than the
/// margin below the (clamped) reading, or the reading is implausibly low.
pub open spec fn spec_pedal_fault(baseline_value: u16, pedal_value: u16) -> bool {
    let reference = spec_clamp(
        pedal_value as int,
        PEDAL_BASELINE_MARGIN as int,
        PEDAL_MAX as int,
    ) - PEDAL_BASELINE_MARGIN as int;
    (baseline_value as int) < reference || pedal_value < PEDAL_PLAUSIBLE_MIN
}

/// Whether bit number `bit` (0 is the least significant) is set in `flags`.
pub open spec fn spec_bit(flags: u16, bit: u16) -> bool {
    flags & (1u16 << bit) != 0
}

/// `byte` with bit number `bit` inverted.
pub open spec fn spec_flip_bit(byte: u8, bit: u8) -> u8 {
    byte ^ (1u8 << bit)
}

/// True exactly when the byte is not zero.
pub fn to_bool(num: u8) -> (b: bool)
    ensures
        b == (num != 0),
{
    num != 0
}

/// True exactly when the value is not zero.
pub fn bool_or_not_to_bool(num: u16) -> (b: bool)
    ensures
        b == (num != 0),
{
    num != 0
}

/// Reads two bytes as a big-endian `u16`.
pub fn be_u16(hi: u8, lo: u8) -> (v: u16)
    ensures
        v as int == spec_be16(hi, lo),
{
    (hi as u16) * 256 + (lo as u16)
}

/// Reads four bytes as a big-endian `u32`.
pub fn be_u32(b0: u8, b1: u8, b2: u8, b3: u8) -> (v: u32)
    ensures
        v as int == spec_be32(b0, b1, b2, b3),
{
    (b0 as u32) * 16777216 + (b1 as u32) * 65536 + (b2 as u32) * 256 + (b3 as u32)
}

/// Computes the checksum of the 14 payload bytes of a frame body. The last
/// byte of the body, the transmitted checksum, is not part of the sum.
pub fn get_checksum(bytes: &[u8; 15]) -> (sum: u8)
    ensures
        sum as int == spec_checksum(bytes@),
{
    let mut sum: u8 = 0;
    let mut i: usize = 0;
    while i < PAYLOAD_LEN
        invariant
            i <= PAYLOAD_LEN,
            sum as nat == byte_sum(bytes@.subrange(0, i as int)) % 256,
        decreases PAYLOAD_LEN - i,
    {
        proof {
            let next = bytes@.subrange(0, i + 1);
            assert(next.drop_last() =~= bytes@.subrange(0, i as int));
            assert(next.last() == bytes@[i as int]);
        }
        sum = sum.wrapping_add(bytes[i]);
        i = i + 1;
    }
    sum
}

/// The error of every decoder: the checksum byte does not match the payload.
#[derive(Debug, Clone, Copy, PartialEq, Eq, Structural)]
pub struct PacketChecksumError;

impl PacketChecksumError {
    /// The text shown for this error.
    pub open spec fn spec_message() -> Seq<char> {
        "packet checksum failed, probably corrupte"@
    }

    /// The text shown for this error.
    pub fn message(&self) -> (text: String)
        ensures
            text@ == Self::spec_message(),
    {
        "packet checksum failed, probably corrupte".to_owned()
    }
}

/// A reading of the accelerator pedal sensor.
#[derive(Debug, Clone, Copy, PartialEq, Eq, Structural)]
pub struct PedalPacket {
    /// Raw pedal reading, never above `PEDAL_MAX` when decoded from a frame.
    pub pedal_value: u16,
    /// Raw reading of the reference channel.
    pub baseline_value: u16,
}

impl PedalPacket {
    /// The packet that a well-formed body carries: the baseline is in payload
    /// bytes 0 and 1, the pedal reading in bytes 2 and 3, clamped to `PEDAL_MAX`.
    pub open spec fn spec_decode(body: Seq<u8>) -> PedalPacket {
        PedalPacket {
            pedal_value: spec_clamp(spec_be16(body[2], body[3]), 0, PEDAL_MAX as int) as u16,
            baseline_value: spec_be16(body[0], body[1]) as u16,
        }
    }

    /// Decodes a frame body. Succeeds exactly when the checksum matches.
    pub fn from_bytes(bytes: &[u8; 15]) -> (r: Result<PedalPacket, PacketChecksumError>)
        ensures
            r is Ok <==> checksum_ok(bytes@),
            r matches Ok(p) ==> p == Self::spec_decode(bytes@) && p.pedal_value <= PEDAL_MAX,
    {
        if get_checksum(bytes) != bytes[14] {
            return Err(PacketChecksumError);
        }
        let baseline_value = be_u16(bytes[0], bytes[1]);
        let raw = be_u16(bytes[2], bytes[3]);
        let pedal_value = if raw > PEDAL_MAX {
            PEDAL_MAX
        } else {
            raw
        };
        Ok(PedalPacket { pedal_value, baseline_value })
    }

    /// Throttle opening in percent, from 0 to 100, for any pedal reading.
    pub fn get_throttle_percentage(&self) -> (pct: u8)
        ensures
            pct as int == spec_throttle(self.pedal_value),
            pct <= 100,
    {
        let clamped: u32 = if self.pedal_value < PEDAL_FLOOR {
            PEDAL_FLOOR as u32
        } else if self.pedal_value > PEDAL_MAX {
            PEDAL_MAX as u32
        } else {
            self.pedal_value as u32
        };
        let travel: u32 = clamped - PEDAL_FLOOR as u32;
        let throttle: u32 = 100 - (travel * 100) / (PEDAL_SPAN as u32);
        if throttle > 100 {
            100
        } else {
            throttle as u8
        }
    }

    /// Whether this reading indicates a pedal fault: sensor disagreement or an
    /// implausibly low reading.
    pub fn has_fault(&self) -> (fault: bool)
        ensures
            fault == spec_pedal_fault(self.baseline_value, self.pedal_value),
    {
        let clamped: u16 = if self.pedal_value < PEDAL_BASELINE_MARGIN {
            PEDAL_BASELINE_MARGIN
        } else if self.pedal_value > PEDAL_MAX {
            PEDAL_MAX
        } else {
            self.pedal_value
        };
        self.baseline_value < clamped - PEDAL_BASELINE_MARGIN || self.pedal_value
            < PEDAL_PLAUSIBLE_MIN
    }
}

/// A reading of the wheel speed. The speed is carried as the bit pattern of
/// an IEEE-754 single-precision number of revolutions per minute.
#[derive(Debug, Clone, Copy, PartialEq, Eq, Structural)]
pub struct VelocityPacket {
    /// Bit pattern of the single-precision rpm value.
    pub rpm_bits: u32,
}

impl VelocityPacket {
    /// The packet that a well-formed body carries: rpm is in payload bytes 4 to 7.
    pub open spec fn spec_decode(body: Seq<u8>) -> VelocityPacket {
        VelocityPacket { rpm_bits: spec_be32(body[4], body[5], body[6], body[7]) as u32 }
    }

    /// Decodes a frame body. Succeeds exactly when the checksum matches.
    pub fn from_bytes(bytes: &[u8; 15]) -> (r: Result<VelocityPacket, PacketChecksumError>)
        ensures
            r is Ok <==> checksum_ok(bytes@),
            r matches Ok(p) ==> p == Self::spec_decode(bytes@),
    {
        if get_checksum(bytes) != bytes[14] {
            return Err(PacketChecksumError);
        }
        let rpm_bits = be_u32(bytes[4], bytes[5], bytes[6], bytes[7]);
        Ok(VelocityPacket { rpm_bits })
    }
}

/// The state of the exterior lights.
#[derive(Debug, Clone, Copy, PartialEq, Eq, Structural)]
pub struct LightsPacket {
    pub headlights: bool,
    pub right_blinkers: bool,
    pub left_blinkers: bool,
    pub brake_lights: bool,
}

impl LightsPacket {
    /// The packet that a well-formed body carries: each light is on exactly
    /// when its payload byte is not zero. Byte 0 is the headlights, byte 1 the
    /// left blinkers, byte 2 the right blinkers, byte 3 the brake lights.
    pub open spec fn spec_decode(body: Seq<u8>) -> LightsPacket {
        LightsPacket {
            headlights: body[0] != 0,
            left_blinkers: body[1] != 0,
            right_blinkers: body[2] != 0,
            brake_lights: body[3] != 0,
        }
    }

    /// Decodes a frame body. Succeeds exactly when the checksum matches.
    pub fn from_bytes(bytes: &[u8; 15]) -> (r: Result<LightsPacket, PacketChecksumError>)
        ensures
            r is Ok <==> checksum_ok(bytes@),
            r matches Ok(p) ==> p == Self::spec_decode(bytes@),
    {
        if get_checksum(bytes) != bytes[14] {
            return Err(PacketChecksumError);
        }
        let headlights: bool = to_bool(bytes[0]);
        let left_blinkers: bool = to_bool(bytes[1]);
        let right_blinkers: bool = to_bool(bytes[2]);
        let brake_lights: bool = to_bool(bytes[3]);
        Ok(LightsPacket { headlights, right_blinkers, left_blinkers, brake_lights })
    }
}

/// Temperatures reported by the motor controller, each carried as the bit
/// pattern of an IEEE-754 single-precision number.
#[derive(Debug, Clone, Copy, PartialEq, Eq, Structural)]
pub struct MotorTempaturePacket {
    /// Bit pattern of the controller heatsink temperature.
    pub heatsink_temp_bits: u32,
    /// Bit pattern of the motor temperature.
    pub motor_temp_bits: u32,
}

impl MotorTempaturePacket {
    /// The packet that a well-formed body carries: the heatsink temperature is
    /// in payload bytes 0 to 3, the motor temperature in bytes 4 to 7.
    pub open spec fn spec_decode(body: Seq<u8>) -> MotorTempaturePacket {
        MotorTempaturePacket {
            heatsink_temp_bits: spec_be32(body[0], body[1], body[2], body[3]) as u32,
            motor_temp_bits: spec_be32(body[4], body[5], body[6], body[7]) as u32,
        }
    }

    /// Decodes a frame body. Succeeds exactly when the checksum matches.
    pub fn from_bytes(bytes: &[u8; 15]) -> (r: Result<MotorTempaturePacket, PacketChecksumError>)
        ensures
            r is Ok <==> checksum_ok(bytes@),
            r matches Ok(p) ==> p == Self::spec_decode(bytes@),
    {
        if get_checksum(bytes) != bytes[14] {
            return Err(PacketChecksumError);
        }
        let motor_temp_bits = be_u32(bytes[4], bytes[5], bytes[6], bytes[7]);
        let heatsink_temp_bits = be_u32(bytes[0], bytes[1], bytes[2], bytes[3]);
        Ok(MotorTempaturePacket { heatsink_temp_bits, motor_temp_bits })
    }
}

/// The limits that the motor controller reports as active.
#[derive(Debug, Clone, Copy, PartialEq, Eq, Structural)]
pub struct LimitFlags {
    pub ipm_tempature_or_motor_tempature: bool,
    pub bus_voltage_lower_limit: bool,
    pub bus_voltage_upper_limit: bool,
    pub bus_current: bool,
    pub velocity: bool,
    pub motor_current: bool,
    pub ouput_voltage_pwm: bool,
}

impl LimitFlags {
    /// The limits encoded in a raw flag word: one flag per bit, bits 6 down to 0.
    pub open spec fn spec_decode(limit_flags: u16) -> LimitFlags {
        LimitFlags {
            ipm_tempature_or_motor_tempature: spec_bit(limit_flags, 6),
            bus_voltage_lower_limit: spec_bit(limit_flags, 5),
            bus_voltage_upper_limit: spec_bit(limit_flags, 4),
            bus_current: spec_bit(limit_flags, 3),
            velocity: spec_bit(limit_flags, 2),
            motor_current: spec_bit(limit_flags, 1),
            ouput_voltage_pwm: spec_bit(limit_flags, 0),
        }
    }
}

/// Status words of the motor controller.
#[derive(Debug, Clone, Copy, PartialEq, Eq, Structural)]
pub struct MotorStatusPacket {
    pub rx_error_count: u8,
    pub tx_error_count: u8,
    pub active_motor: u16,
    pub error_flags: u16,
    pub limit_flags: u16,
}

impl MotorStatusPacket {
    /// The packet that a well-formed body carries: the receive and transmit
    /// error counts are payload bytes 0 and 1, followed by three big-endian
    /// words: active motor, error flags and limit flags.
    pub open spec fn spec_decode(body: Seq<u8>) -> MotorStatusPacket {
        MotorStatusPacket {
            rx_error_count: body[0],
            tx_error_count: body[1],
            active_motor: spec_be16(body[2], body[3]) as u16,
            error_flags: spec_be16(body[4], body[5]) as u16,
            limit_flags: spec_be16(body[6], body[7]) as u16,
        }
    }

    /// Decodes a frame body. Succeeds exactly when the checksum matches.
    pub fn from_bytes(bytes: &[u8; 15]) -> (r: Result<MotorStatusPacket, PacketChecksumError>)
        ensures
            r is Ok <==> checksum_ok(bytes@),
            r matches Ok(p) ==> p == Self::spec_decode(bytes@),
    {
        if get_checksum(bytes) != bytes[14] {
            return Err(PacketChecksumError);
        }
        let limit_flags = be_u16(bytes[6], bytes[7]);
        let error_flags = be_u16(bytes[4], bytes[5]);
        let active_motor = be_u16(bytes[2], bytes[3]);
        let tx_error_count = bytes[1];
        let rx_error_count = bytes[0];
        Ok(
            MotorStatusPacket {
                rx_error_count,
                tx_error_count,
                active_motor,
                error_flags,
                limit_flags,
            },
        )
    }

    /// Decodes the limit flag word into one boolean per defined bit. Bits
    /// above bit 6 have no meaning and are ignored.
    pub fn decode_limit_flags(&self) -> (flags: LimitFlags)
        ensures
            flags == LimitFlags::spec_decode(self.limit_flags),
    {
        let word = self.limit_flags;
        proof {
            assert(word & 0x0040 == word & (1u16 << 6u16)) by (bit_vector);
            assert(word & 0x0020 == word & (1u16 << 5u16)) by (bit_vector);
            assert(word & 0x0010 == word & (1u16 << 4u16)) by (bit_vector);
            assert(word & 0x0008 == word & (1u16 << 3u16)) by (bit_vector);
            assert(word & 0x0004 == word & (1u16 << 2u16)) by (bit_vector);
            assert(word & 0x0002 == word & (1u16 << 1u16)) by (bit_vector);
            assert(word & 0x0001 == word & (1u16 << 0u16)) by (bit_vector);
        }
        let ipm_tempature_or_motor_tempature = bool_or_not_to_bool(word & 0x0040);
        let bus_voltage_lower_limit = bool_or_not_to_bool(word & 0x0020);
        let bus_voltage_upper_limit = bool_or_not_to_bool(word & 0x0010);
        let bus_current = bool_or_not_to_bool(word & 0x0008);
        let velocity = bool_or_not_to_bool(word & 0x0004);
        let motor_current = bool_or_not_to_bool(word & 0x0002);
        let ouput_voltage_pwm = bool_or_not_to_bool(word & 0x0001);
        LimitFlags {
            ipm_tempature_or_motor_tempature,
            bus_voltage_lower_limit,
            bus_voltage_upper_limit,
            bus_current,
            velocity,
            motor_current,
            ouput_voltage_pwm,
        }
    }
}

/// A decoded packet of any type.
#[derive(Debug, Clone, Copy, PartialEq, Eq, Structural)]
pub enum Packet {
    Pedal(PedalPacket),
    Velocity(VelocityPacket),
    Lights(LightsPacket),
    MotorTemperature(MotorTempaturePacket),
    MotorStatus(MotorStatusPacket),
}

/// Replacing one byte of a sequence changes the sum of its bytes by the
/// difference between the new and the old byte.
pub proof fn lemma_byte_sum_update(s: Seq<u8>, i: int, b: u8)
    requires
        0 <= i < s.len(),
    ensures
        byte_sum(s.update(i, b)) == byte_sum(s) - s[i] as int + b as int,
    decreases s.len(),
{
    let t = s.update(i, b);
    if i == s.len() - 1 {
        assert(t.drop_last() =~= s.drop_last());
    } else {
        assert(t.drop_last() =~= s.drop_last().update(i, b));
        lemma_byte_sum_update(s.drop_last(), i, b);
    }
}

/// No two frame bodies that differ in exactly one byte are both well formed:
/// a change confined to one byte, payload or checksum, is always detected.
pub proof fn lemma_single_byte_change_detected(body: Seq<u8>, i: int, b: u8)
    requires
        body.len() == BODY_LEN,
        0 <= i < BODY_LEN,
        b != body[i],
    ensures
        !(checksum_ok(body) && checksum_ok(body.update(i, b))),
{
    let changed = body.update(i, b);
    let payload = body.subrange(0, PAYLOAD_LEN as int);
    if i < PAYLOAD_LEN {
        assert(changed.subrange(0, PAYLOAD_LEN as int) =~= payload.update(i, b));
        lemma_byte_sum_update(payload, i, b);
        let before = byte_sum(payload) as int;
        let delta = b as int - body[i] as int;
        assert(byte_sum(payload.update(i, b)) == before + delta);
        assert(-256 < delta < 256 && delta != 0);
        assert((before + delta) % 256 != before % 256);
    } else {
        assert(changed.subrange(0, PAYLOAD_LEN as int) =~= payload);
    }
}

/// Inverting any single bit of a well-formed frame body, in the payload or in
/// the checksum byte, makes the body ill formed; and a body that is well
/// formed after such an inversion was ill formed before it.
pub proof fn lemma_single_bit_flip_detected(body: Seq<u8>, i: int, bit: u8)
    requires
        body.len() == BODY_LEN,
        0 <= i < BODY_LEN,
        bit < 8,
    ensures
        !(checksum_ok(body) && checksum_ok(body.update(i, spec_flip_bit(body[i], bit)))),
{
    let old_byte = body[i];
    assert(old_byte ^ (1u8 << bit) != old_byte) by (bit_vector)
        requires
            bit < 8,
    ;
    lemma_single_byte_change_detected(body, i, spec_flip_bit(old_byte, bit));
}

/// The throttle percentage is between 0 and 100 for every pedal reading, and
/// a larger reading never gives a larger percentage.
pub proof fn lemma_throttle_monotonic(low: u16, high: u16)
    requires
        low <= high,
    ensures
        0 <= spec_throttle(high) <= spec_throttle(low) <= 100,
{
}

/// The limits are the seven lowest binary digits of the flag word: each flag
/// is set exactly when its digit is one.
pub proof fn lemma_limit_flags_are_binary_digits(limit_flags: u16)
    ensures
        ({
            let flags = LimitFlags::spec_decode(limit_flags);
            &&& flags.ouput_voltage_pwm <==> limit_flags % 2 == 1
            &&& flags.motor_current <==> (limit_flags / 2) % 2 == 1
            &&& flags.velocity <==> (limit_flags / 4) % 2 == 1
            &&& flags.bus_current <==> (limit_flags / 8) % 2 == 1
            &&& flags.bus_voltage_upper_limit <==> (limit_flags / 16) % 2 == 1
            &&& flags.bus_voltage_lower_limit <==> (limit_flags / 32) % 2 == 1
            &&& flags.ipm_tempature_or_motor_tempature <==> (limit_flags / 64) % 2 == 1
        }),
{
    let w = limit_flags;
    assert((w & (1u16 << 0u16) != 0) == (w % 2 == 1)) by (bit_vector);
    assert((w & (1u16 << 1u16) != 0) == ((w / 2) % 2 == 1)) by (bit_vector);
    assert((w & (1u16 << 2u16) != 0) == ((w / 4) % 2 == 1)) by (bit_vector);
    assert((w & (1u16 << 3u16) != 0) == ((w / 8) % 2 == 1)) by (bit_vector);
    assert((w & (1u16 << 4u16) != 0) == ((w / 16) % 2 == 1)) by (bit_vector);
    assert((w & (1u16 << 5u16) != 0) == ((w / 32) % 2 == 1)) by (bit_vector);
    assert((w & (1u16 << 6u16) != 0) == ((w / 64) % 2 == 1)) by (bit_vector);
}

/// Only bits 0 to 6 of the flag word matter: two words that agree on them
/// decode to the same limits. With all seven set every limit is reported, with
/// none of them set no limit is.
pub proof fn lemma_limit_flags_low_seven_bits(a: u16, b: u16)
    requires
        a & 0x7f == b & 0x7f,
    ensures
        LimitFlags::spec_decode(a) == LimitFlags::spec_decode(b),
        a & 0x7f == 0x7f ==> LimitFlags::spec_decode(a) == (LimitFlags {
            ipm_tempature_or_motor_tempature: true,
            bus_voltage_lower_limit: true,
            bus_voltage_upper_limit: true,
            bus_current: true,
            velocity: true,
            motor_current: true,
            ouput_voltage_pwm: true,
        }),
        a & 0x7f == 0 ==> LimitFlags::spec_decode(a) == (LimitFlags {
            ipm_tempature_or_motor_tempature: false,
            bus_voltage_lower_limit: false,
            bus_voltage_upper_limit: false,
            bus_current: false,
            velocity: false,
            motor_current: false,
            ouput_voltage_pwm: false,
        }),
{
    assert forall|k: u16| k < 7 implies spec_bit(a, k) == spec_bit(b, k) by {
        assert((a & (1u16 << k) != 0) == (b & (1u16 << k) != 0)) by (bit_vector)
            requires
                a & 0x7f == b & 0x7f,
                k < 7,
        ;
    }
    assert forall|k: u16| k < 7 && a & 0x7f == 0x7f implies spec_bit(a, k) by {
        assert(a & (1u16 << k) != 0) by (bit_vector)
            requires
                a & 0x7f == 0x7f,
                k < 7,
        ;
    }
    assert forall|k: u16| k < 7 && a & 0x7f == 0 implies !spec_bit(a, k) by {
        assert(a & (1u16 << k) == 0) by (bit_vector)
            requires
                a & 0x7f == 0,
                k < 7,
        ;
    }
}

} // verus!
