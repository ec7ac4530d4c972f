use car_telemetry::packets::{
    be_u16, be_u32, bool_or_not_to_bool, get_checksum, to_bool, LightsPacket,
    LimitFlags, MotorStatusPacket, MotorTempaturePacket, PacketChecksumError, PedalPacket,
    VelocityPacket, PEDAL_FLOOR, PEDAL_MAX, PEDAL_SPAN,
};

fn body_with_checksum(payload: [u8; 14]) -> [u8; 15] {
    let mut body = [0u8; 15];
    let mut sum: u32 = 0;
    for i in 0..14 {
        body[i] = payload[i];
        sum += payload[i] as u32;
    }
    body[14] = (sum % 256) as u8;
    body
}

fn verify_checksum(body: &[u8; 15]) -> bool {
    get_checksum(body) == body[14]
}

fn status_with_limits(limit_flags: u16) -> MotorStatusPacket {
    MotorStatusPacket {
        rx_error_count: 0,
        tx_error_count: 0,
        active_motor: 0,
        error_flags: 0,
        limit_flags,
    }
}

#[test]
fn to_bool_is_nonzero_test() {
    assert!(!to_bool(0));
    assert!(to_bool(1));
    assert!(to_bool(255));
    assert!(!bool_or_not_to_bool(0));
    assert!(bool_or_not_to_bool(1));
    assert!(bool_or_not_to_bool(0x8000));
}

#[test]
fn big_endian_words() {
    assert_eq!(be_u16(0x12, 0x34), 0x1234);
    assert_eq!(be_u16(0xff, 0xff), 0xffff);
    assert_eq!(be_u16(0, 1), 1);
    assert_eq!(be_u16(1, 0), 256);
    assert_eq!(be_u32(0x12, 0x34, 0x56, 0x78), 0x1234_5678);
    assert_eq!(be_u32(0xff, 0xff, 0xff, 0xff), u32::MAX);
    assert_eq!(be_u32(0x44, 0x7a, 0, 0), 1000.0f32.to_bits());
    for hi in 0..=255u8 {
        for lo in [0u8, 1, 127, 128, 255] {
            assert_eq!(be_u16(hi, lo), u16::from_be_bytes([hi, lo]));
            assert_eq!(be_u32(lo, hi, lo, hi), u32::from_be_bytes([lo, hi, lo, hi]));
        }
    }
}

#[test]
fn checksum_is_sum_of_payload_mod_256() {
    assert_eq!(get_checksum(&[0; 15]), 0);
    assert_eq!(get_checksum(&[1, 2, 3, 4, 5, 6, 7, 8, 9, 10, 11, 12, 13, 14, 0]), 105);
    // 14 * 255 = 3570 = 13 * 256 + 242
    assert_eq!(get_checksum(&[255; 15]), 242);
    // the checksum byte itself is not summed
    assert_eq!(get_checksum(&[0, 0, 0, 0, 0, 0, 0, 0, 0, 0, 0, 0, 0, 0, 77]), 0);
    assert_eq!(get_checksum(&[200, 100, 0, 0, 0, 0, 0, 0, 0, 0, 0, 0, 0, 0, 0]), 44);
}

#[test]
fn decoders_accept_only_the_matching_checksum_byte() {
    let payload = [9u8, 8, 7, 6, 5, 4, 3, 2, 1, 0, 200, 201, 202, 203];
    let good = body_with_checksum(payload);
    assert!(verify_checksum(&good));
    for c in 0..=255u8 {
        let mut body = good;
        body[14] = c;
        assert_eq!(verify_checksum(&body), c == good[14]);
        assert_eq!(PedalPacket::from_bytes(&body).is_ok(), c == good[14]);
        assert_eq!(VelocityPacket::from_bytes(&body).is_ok(), c == good[14]);
        assert_eq!(LightsPacket::from_bytes(&body).is_ok(), c == good[14]);
        assert_eq!(MotorTempaturePacket::from_bytes(&body).is_ok(), c == good[14]);
        assert_eq!(MotorStatusPacket::from_bytes(&body).is_ok(), c == good[14]);
    }
}

#[test]
fn single_bit_flip_invalidates_a_valid_body() {
    let good = body_with_checksum([0x01, 0xf4, 0x02, 0x58, 0xff, 0, 0x80, 1, 2, 3, 4, 5, 6, 7]);
    assert!(PedalPacket::from_bytes(&good).is_ok());
    for i in 0..15 {
        for bit in 0..8 {
            let mut body = good;
            body[i] ^= 1u8 << bit;
            assert!(!verify_checksum(&body));
            assert_eq!(PedalPacket::from_bytes(&body), Err(PacketChecksumError));
            assert_eq!(MotorStatusPacket::from_bytes(&body), Err(PacketChecksumError));
        }
    }
}

#[test]
fn single_byte_change_invalidates_a_valid_body() {
    let good = body_with_checksum([3, 1, 4, 1, 5, 9, 2, 6, 5, 3, 5, 8, 9, 7]);
    assert!(verify_checksum(&good));
    for i in 0..15 {
        for value in 0..=255u8 {
            let mut body = good;
            body[i] = value;
            assert_eq!(verify_checksum(&body), value == good[i]);
            assert_eq!(LightsPacket::from_bytes(&body).is_ok(), value == good[i]);
        }
    }
}

#[test]
fn single_bit_flip_of_an_invalid_body_may_stay_invalid() {
    let mut body = [0u8; 15];
    body[14] = 3;
    assert!(!verify_checksum(&body));
    body[14] ^= 1;
    assert!(!verify_checksum(&body));
}

#[test]
fn checksum_error_message() {
    assert_eq!(PacketChecksumError.message(), "packet checksum failed, probably corrupte");
}

#[test]
fn pedal_packet_fields() {
    let body = body_with_checksum([0x01, 0xf4, 0x02, 0x58, 0, 0, 0, 0, 0, 0, 0, 0, 0, 0]);
    assert_eq!(body[14], 79);
    assert_eq!(
        PedalPacket::from_bytes(&body),
        Ok(PedalPacket { pedal_value: 600, baseline_value: 500 })
    );
}

#[test]
fn pedal_value_is_clamped_to_1023() {
    let body = body_with_checksum([0xff, 0xff, 0x04, 0x00, 0, 0, 0, 0, 0, 0, 0, 0, 0, 0]);
    assert_eq!(
        PedalPacket::from_bytes(&body),
        Ok(PedalPacket { pedal_value: 1023, baseline_value: 65535 })
    );
    let body = body_with_checksum([0, 0, 0xff, 0xff, 0, 0, 0, 0, 0, 0, 0, 0, 0, 0]);
    assert_eq!(
        PedalPacket::from_bytes(&body),
        Ok(PedalPacket { pedal_value: 1023, baseline_value: 0 })
    );
    let body = body_with_checksum([0, 0, 0x03, 0xff, 0, 0, 0, 0, 0, 0, 0, 0, 0, 0]);
    assert_eq!(
        PedalPacket::from_bytes(&body),
        Ok(PedalPacket { pedal_value: 1023, baseline_value: 0 })
    );
}

#[test]
fn pedal_packet_rejects_bad_checksum() {
    let mut body = body_with_checksum([0x01, 0xf4, 0x02, 0x58, 0, 0, 0, 0, 0, 0, 0, 0, 0, 0]);
    body[14] = body[14].wrapping_add(1);
    assert_eq!(PedalPacket::from_bytes(&body), Err(PacketChecksumError));
}

#[test]
fn calibration_constants_cover_the_pedal_range() {
    assert_eq!(PEDAL_FLOOR + PEDAL_SPAN, PEDAL_MAX);
}

#[test]
fn throttle_exact_values() {
    let throttle =
        |pedal_value: u16| PedalPacket { pedal_value, baseline_value: 0 }.get_throttle_percentage();
    assert_eq!(throttle(0), 100);
    assert_eq!(throttle(545), 100);
    assert_eq!(throttle(546), 100);
    // 5 * 100 / 478 = 1
    assert_eq!(throttle(550), 99);
    // 55 * 100 / 478 = 11
    assert_eq!(throttle(600), 89);
    // 239 * 100 / 478 = 50
    assert_eq!(throttle(784), 50);
    // 477 * 100 / 478 = 99
    assert_eq!(throttle(1022), 1);
    assert_eq!(throttle(1023), 0);
    assert_eq!(throttle(1024), 0);
    assert_eq!(throttle(u16::MAX), 0);
}

#[test]
fn throttle_is_bounded_and_never_increases() {
    let mut previous: u8 = 100;
    for pedal_value in 0..=u16::MAX {
        let pct = PedalPacket { pedal_value, baseline_value: 0 }.get_throttle_percentage();
        assert!(pct <= 100);
        assert!(pct <= previous);
        previous = pct;
    }
}

#[test]
fn throttle_follows_the_formula() {
    for pedal_value in 0..=u16::MAX {
        let travel = (pedal_value as u32).clamp(545, 1023) - 545;
        let expected = (100 - travel * 100 / 478).clamp(0, 100) as u8;
        let pct = PedalPacket { pedal_value, baseline_value: 7 }.get_throttle_percentage();
        assert_eq!(pct, expected);
    }
}

#[test]
fn pedal_fault_rule() {
    let fault = |baseline_value: u16, pedal_value: u16| {
        PedalPacket { pedal_value, baseline_value }.has_fault()
    };
    // baseline within the margin of the reading, reading plausible
    assert!(!fault(550, 600));
    assert!(!fault(600, 600));
    assert!(!fault(1023, 475));
    assert!(!fault(425, 475));
    // baseline more than 50 below the reading
    assert!(fault(549, 600));
    assert!(fault(500, 600));
    assert!(fault(424, 475));
    // implausibly low reading, whatever the baseline
    assert!(fault(1000, 474));
    assert!(fault(0, 0));
    assert!(fault(65535, 10));
    // readings above 1023 count as 1023
    assert!(!fault(973, 2000));
    assert!(fault(972, 2000));
}

#[test]
fn velocity_packet_fields() {
    let body = body_with_checksum([1, 2, 3, 4, 0x44, 0x7a, 0x00, 0x00, 5, 6, 7, 8, 9, 10]);
    let packet = VelocityPacket::from_bytes(&body).unwrap();
    assert_eq!(packet.rpm_bits, 0x447a_0000);
    assert_eq!(f32::from_bits(packet.rpm_bits), 1000.0);
    let body = body_with_checksum([0, 0, 0, 0, 0xc2, 0x28, 0x00, 0x00, 0, 0, 0, 0, 0, 0]);
    let packet = VelocityPacket::from_bytes(&body).unwrap();
    assert_eq!(f32::from_bits(packet.rpm_bits), -42.0);
}

#[test]
fn velocity_packet_rejects_bad_checksum() {
    let mut body = body_with_checksum([0, 0, 0, 0, 0x44, 0x7a, 0, 0, 0, 0, 0, 0, 0, 0]);
    body[4] = 0x45;
    assert_eq!(VelocityPacket::from_bytes(&body), Err(PacketChecksumError));
}

#[test]
fn lights_packet_fields() {
    let body = body_with_checksum([1, 0, 0, 0, 0, 0, 0, 0, 0, 0, 0, 0, 0, 0]);
    assert_eq!(
        LightsPacket::from_bytes(&body),
        Ok(LightsPacket {
            headlights: true,
            right_blinkers: false,
            left_blinkers: false,
            brake_lights: false
        })
    );
    let body = body_with_checksum([0, 7, 0, 0, 0, 0, 0, 0, 0, 0, 0, 0, 0, 0]);
    assert_eq!(
        LightsPacket::from_bytes(&body),
        Ok(LightsPacket {
            headlights: false,
            right_blinkers: false,
            left_blinkers: true,
            brake_lights: false
        })
    );
    let body = body_with_checksum([0, 0, 255, 0, 0, 0, 0, 0, 0, 0, 0, 0, 0, 0]);
    assert_eq!(
        LightsPacket::from_bytes(&body),
        Ok(LightsPacket {
            headlights: false,
            right_blinkers: true,
            left_blinkers: false,
            brake_lights: false
        })
    );
    let body = body_with_checksum([0, 0, 0, 128, 9, 9, 9, 9, 9, 9, 9, 9, 9, 9]);
    assert_eq!(
        LightsPacket::from_bytes(&body),
        Ok(LightsPacket {
            headlights: false,
            right_blinkers: false,
            left_blinkers: false,
            brake_lights: true
        })
    );
}

#[test]
fn lights_packet_byte_one_is_the_left_blinker() {
    let body = [0u8, 1, 0, 0, 0, 0, 0, 0, 0, 0, 0, 0, 0, 0, 1];
    let lights = LightsPacket::from_bytes(&body).unwrap();
    assert!(lights.left_blinkers);
    assert!(!lights.headlights);
    assert!(!lights.right_blinkers);
    assert!(!lights.brake_lights);
}

#[test]
fn lights_packet_reads_only_its_four_bytes() {
    for bits in 0..16u8 {
        let head = bits & 1;
        let left = (bits >> 1) & 1;
        let right = (bits >> 2) & 1;
        let brake = (bits >> 3) & 1;
        let expected = LightsPacket {
            headlights: head != 0,
            left_blinkers: left != 0,
            right_blinkers: right != 0,
            brake_lights: brake != 0,
        };
        let plain = body_with_checksum([head, left, right, brake, 0, 0, 0, 0, 0, 0, 0, 0, 0, 0]);
        let noisy =
            body_with_checksum([head, left, right, brake, 9, 8, 7, 6, 5, 4, 3, 2, 1, 255]);
        assert_eq!(LightsPacket::from_bytes(&plain), Ok(expected));
        assert_eq!(LightsPacket::from_bytes(&noisy), Ok(expected));
    }
}

#[test]
fn lights_packet_rejects_bad_checksum() {
    let mut body = body_with_checksum([1, 1, 1, 1, 0, 0, 0, 0, 0, 0, 0, 0, 0, 0]);
    body[14] ^= 0x80;
    assert_eq!(LightsPacket::from_bytes(&body), Err(PacketChecksumError));
}

#[test]
fn motor_temperature_packet_fields() {
    let heatsink = 41.5f32.to_be_bytes();
    let motor = 88.25f32.to_be_bytes();
    let body = body_with_checksum([
        heatsink[0],
        heatsink[1],
        heatsink[2],
        heatsink[3],
        motor[0],
        motor[1],
        motor[2],
        motor[3],
        0,
        0,
        0,
        0,
        0,
        0,
    ]);
    let packet = MotorTempaturePacket::from_bytes(&body).unwrap();
    assert_eq!(f32::from_bits(packet.heatsink_temp_bits), 41.5);
    assert_eq!(f32::from_bits(packet.motor_temp_bits), 88.25);
}

#[test]
fn motor_temperature_packet_rejects_bad_checksum() {
    let mut body = body_with_checksum([0; 14]);
    body[0] = 1;
    assert_eq!(MotorTempaturePacket::from_bytes(&body), Err(PacketChecksumError));
}

#[test]
fn motor_status_packet_fields() {
    let body = body_with_checksum([3, 4, 0x00, 0x01, 0x12, 0x34, 0x00, 0x7f, 0, 0, 0, 0, 0, 0]);
    assert_eq!(
        MotorStatusPacket::from_bytes(&body),
        Ok(MotorStatusPacket {
            rx_error_count: 3,
            tx_error_count: 4,
            active_motor: 1,
            error_flags: 0x1234,
            limit_flags: 0x007f,
        })
    );
}

#[test]
fn motor_status_packet_rejects_bad_checksum() {
    let mut body = body_with_checksum([3, 4, 0, 1, 0x12, 0x34, 0, 0x7f, 0, 0, 0, 0, 0, 0]);
    body[13] = 1;
    assert_eq!(MotorStatusPacket::from_bytes(&body), Err(PacketChecksumError));
}

#[test]
fn limit_flags_all_and_none() {
    let all = LimitFlags {
        ipm_tempature_or_motor_tempature: true,
        bus_voltage_lower_limit: true,
        bus_voltage_upper_limit: true,
        bus_current: true,
        velocity: true,
        motor_current: true,
        ouput_voltage_pwm: true,
    };
    let none = LimitFlags {
        ipm_tempature_or_motor_tempature: false,
        bus_voltage_lower_limit: false,
        bus_voltage_upper_limit: false,
        bus_current: false,
        velocity: false,
        motor_current: false,
        ouput_voltage_pwm: false,
    };
    assert_eq!(status_with_limits(0x007f).decode_limit_flags(), all);
    assert_eq!(status_with_limits(0xffff).decode_limit_flags(), all);
    assert_eq!(status_with_limits(0).decode_limit_flags(), none);
    assert_eq!(status_with_limits(0xff80).decode_limit_flags(), none);
}

#[test]
fn limit_flags_one_bit_each() {
    let decoded = |limit_flags: u16| {
        let f = status_with_limits(limit_flags).decode_limit_flags();
        [
            f.ouput_voltage_pwm,
            f.motor_current,
            f.velocity,
            f.bus_current,
            f.bus_voltage_upper_limit,
            f.bus_voltage_lower_limit,
            f.ipm_tempature_or_motor_tempature,
        ]
    };
    for bit in 0..16u16 {
        let flags = decoded(1 << bit);
        for position in 0..7u16 {
            assert_eq!(flags[position as usize], position == bit);
        }
    }
}

#[test]
fn limit_flags_ignore_bits_above_six() {
    for low in 0..128u16 {
        let expected = status_with_limits(low).decode_limit_flags();
        for high in [0x0080u16, 0x0100, 0x8000, 0xff80, 0x5500] {
            assert_eq!(status_with_limits(low | high).decode_limit_flags(), expected);
        }
        assert_eq!(expected.ouput_voltage_pwm, low & 1 != 0);
        assert_eq!(expected.motor_current, low & 2 != 0);
        assert_eq!(expected.velocity, low & 4 != 0);
        assert_eq!(expected.bus_current, low & 8 != 0);
        assert_eq!(expected.bus_voltage_upper_limit, low & 16 != 0);
        assert_eq!(expected.bus_voltage_lower_limit, low & 32 != 0);
        assert_eq!(expected.ipm_tempature_or_motor_tempature, low & 64 != 0);
    }
}
