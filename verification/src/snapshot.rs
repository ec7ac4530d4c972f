//! The telemetry snapshot: the latest known value of every telemetry field.
//!
//! Each packet type owns some fields of the snapshot. Applying a packet
//! overwrites the fields it owns and leaves every other field as it was. The
//! warning is sticky: it changes only when a new fault is detected.

use vstd::prelude::*;
use crate::packets::{
    spec_pedal_fault, spec_throttle, LightsPacket, MotorStatusPacket, MotorTempaturePacket,
    Packet, PedalPacket, VelocityPacket,
};
use crate::warning::{
    error_code_text, pedal_fault_text, spec_error_code_text, spec_pedal_fault_text,
};

verus! {

/// The latest decoded telemetry values. Quantities that travel as
/// single-precision numbers are held as their IEEE-754 bit patterns.
#[derive(Debug, PartialEq, Eq)]
pub struct TelemetrySnapshot {
    /// Bit pattern of the latest wheel speed in revolutions per minute.
    pub rpm_bits: u32,
    /// Throttle opening in percent.
    pub throttle: u8,
    pub left_blinker_on: bool,
    pub right_blinker_on: bool,
    pub headlights_on: bool,
    /// Battery management system temperature; no packet carries it.
    pub temp_bms: i32,
    /// Bit pattern of the latest motor temperature.
    pub motor_temp_bits: u32,
    /// The motor controller's limit flag word, as received.
    pub limit_code: u16,
    /// Text of the most recent fault, empty until the first one.
    pub warning: String,
}

/// The mathematical value of a snapshot.
pub struct TelemetryView {
    pub rpm_bits: u32,
    pub throttle: u8,
    pub left_blinker_on: bool,
    pub right_blinker_on: bool,
    pub headlights_on: bool,
    pub temp_bms: i32,
    pub motor_temp_bits: u32,
    pub limit_code: u16,
    pub warning: Seq<char>,
}

impl View for TelemetrySnapshot {
    type V = TelemetryView;

    open spec fn view(&self) -> TelemetryView {
        TelemetryView {
            rpm_bits: self.rpm_bits,
            throttle: self.throttle,
            left_blinker_on: self.left_blinker_on,
            right_blinker_on: self.right_blinker_on,
            headlights_on: self.headlights_on,
            temp_bms: self.temp_bms,
            motor_temp_bits: self.motor_temp_bits,
            limit_code: self.limit_code,
            warning: self.warning@,
        }
    }
}

impl Clone for TelemetrySnapshot {
    /// A copy with the same value in every field.
    fn clone(&self) -> (copy: TelemetrySnapshot)
        ensures
            copy@ == self@,
    {
        TelemetrySnapshot {
            rpm_bits: self.rpm_bits,
            throttle: self.throttle,
            left_blinker_on: self.left_blinker_on,
            right_blinker_on: self.right_blinker_on,
            headlights_on: self.headlights_on,
            temp_bms: self.temp_bms,
            motor_temp_bits: self.motor_temp_bits,
            limit_code: self.limit_code,
            warning: self.warning.clone(),
        }
    }
}

impl TelemetryView {
    /// The snapshot before any packet has arrived.
    pub open spec fn initial() -> TelemetryView {
        TelemetryView {
            rpm_bits: 0,
            throttle: 0,
            left_blinker_on: false,
            right_blinker_on: false,
            headlights_on: false,
            temp_bms: 0,
            motor_temp_bits: 0,
            limit_code: 0,
            warning: Seq::empty(),
        }
    }

    /// After a pedal packet: the throttle is recomputed, and a pedal fault
    /// replaces the warning.
    pub open spec fn with_pedal(self, packet: PedalPacket) -> TelemetryView {
        TelemetryView {
            throttle: spec_throttle(packet.pedal_value) as u8,
            warning: if spec_pedal_fault(packet.baseline_value, packet.pedal_value) {
                spec_pedal_fault_text()
            } else {
                self.warning
            },
            ..self
        }
    }

    /// After a velocity packet: the wheel speed is replaced.
    pub open spec fn with_velocity(self, packet: VelocityPacket) -> TelemetryView {
        TelemetryView { rpm_bits: packet.rpm_bits, ..self }
    }

    /// After a lights packet: blinkers and headlights are replaced. The brake
    /// light is not part of the snapshot.
    pub open spec fn with_lights(self, packet: LightsPacket) -> TelemetryView {
        TelemetryView {
            left_blinker_on: packet.left_blinkers,
            right_blinker_on: packet.right_blinkers,
            headlights_on: packet.headlights,
            ..self
        }
    }

    /// After a motor temperature packet: the motor temperature is replaced.
    /// The heatsink temperature is not part of the snapshot.
    pub open spec fn with_motor_temperature(self, packet: MotorTempaturePacket) -> TelemetryView {
        TelemetryView { motor_temp_bits: packet.motor_temp_bits, ..self }
    }

    /// After a motor status packet: the limit flag word is stored as received,
    /// and a non-zero error flag word replaces the warning.
    pub open spec fn with_motor_status(self, packet: MotorStatusPacket) -> TelemetryView {
        TelemetryView {
            limit_code: packet.limit_flags,
            warning: if packet.error_flags != 0 {
                spec_error_code_text(packet.error_flags)
            } else {
                self.warning
            },
            ..self
        }
    }
}

impl TelemetryView {
    /// After a packet of any type: the update that belongs to its type.
    pub open spec fn with_packet(self, packet: Packet) -> TelemetryView {
        match packet {
            Packet::Pedal(p) => self.with_pedal(p),
            Packet::Velocity(p) => self.with_velocity(p),
            Packet::Lights(p) => self.with_lights(p),
            Packet::MotorTemperature(p) => self.with_motor_temperature(p),
            Packet::MotorStatus(p) => self.with_motor_status(p),
        }
    }
}

impl TelemetrySnapshot {
    /// The snapshot before any packet has arrived: everything off and zero,
    /// and no warning.
    pub fn new() -> (snapshot: TelemetrySnapshot)
        ensures
            snapshot@ == TelemetryView::initial(),
    {
        TelemetrySnapshot {
            rpm_bits: 0,
            throttle: 0,
            left_blinker_on: false,
            right_blinker_on: false,
            headlights_on: false,
            temp_bms: 0,
            motor_temp_bits: 0,
            limit_code: 0,
            warning: String::new(),
        }
    }

    /// Applies a pedal packet.
    pub fn update_pedal(&mut self, packet: &PedalPacket)
        ensures
            final(self)@ == old(self)@.with_pedal(*packet),
    {
        self.throttle = packet.get_throttle_percentage();
        if packet.has_fault() {
            self.warning = pedal_fault_text();
        }
    }

    /// Applies a velocity packet.
    pub fn update_velocity(&mut self, packet: &VelocityPacket)
        ensures
            final(self)@ == old(self)@.with_velocity(*packet),
    {
        self.rpm_bits = packet.rpm_bits;
    }

    /// Applies a lights packet.
    pub fn update_lights(&mut self, packet: &LightsPacket)
        ensures
            final(self)@ == old(self)@.with_lights(*packet),
    {
        self.left_blinker_on = packet.left_blinkers;
        self.right_blinker_on = packet.right_blinkers;
        self.headlights_on = packet.headlights;
    }

    /// Applies a motor temperature packet.
    pub fn update_motor_temperature(&mut self, packet: &MotorTempaturePacket)
        ensures
            final(self)@ == old(self)@.with_motor_temperature(*packet),
    {
        self.motor_temp_bits = packet.motor_temp_bits;
    }

    /// Applies a motor status packet.
    pub fn update_motor_status(&mut self, packet: &MotorStatusPacket)
        ensures
            final(self)@ == old(self)@.with_motor_status(*packet),
    {
        self.limit_code = packet.limit_flags;
        if packet.error_flags != 0 {
            self.warning = error_code_text(packet.error_flags);
        }
    }

    /// Applies a packet of any type through the update of its type.
    pub fn apply(&mut self, packet: &Packet)
        ensures
            final(self)@ == old(self)@.with_packet(*packet),
    {
        match packet {
            Packet::Pedal(p) => self.update_pedal(p),
            Packet::Velocity(p) => self.update_velocity(p),
            Packet::Lights(p) => self.update_lights(p),
            Packet::MotorTemperature(p) => self.update_motor_temperature(p),
            Packet::MotorStatus(p) => self.update_motor_status(p),
        }
    }
}

} // verus!
