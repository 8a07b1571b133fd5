//! Report entities shared by both directions of the translation, the
//! wire-level decoding of Thrustmaster input reports, and the IFORCE
//! packet framing with its XOR checksum.

use vstd::prelude::*;

use crate::config::ThrustmasterConfig;
use crate::{le16, le16_spec, le_i16, le_i16_spec, lo_byte, lo_byte_spec, hi_byte, hi_byte_spec};

verus! {

/// Input report read from the physical Thrustmaster wheel
/// (eight bytes on the wire).
#[derive(Debug, Clone, Copy)]
pub struct ThrustmasterInputReport {
    /// Raw steering value.
    pub steering: i16,
    /// Throttle pedal, 0-255.
    pub throttle: u8,
    /// Brake pedal, 0-255.
    pub brake: u8,
    /// Clutch pedal, 0-255.
    pub clutch: u8,
    /// Button bitfield.
    pub buttons: u16,
    /// D-pad state (0-7 compass points, 8 = centre).
    pub dpad: u8,
}

/// Input report published by the virtual G29 device.
#[derive(Debug, Clone, Copy)]
pub struct G29InputReport {
    /// Always 0x01.
    pub report_id: u8,
    /// 16-bit steering, centre = 0x8000.
    pub steering: u16,
    /// 10-bit value in a 16-bit field.
    pub throttle: u16,
    /// 10-bit value in a 16-bit field.
    pub brake: u16,
    /// 10-bit value in a 16-bit field.
    pub clutch: u16,
    /// 24 buttons in the low bits, D-pad in the top byte.
    pub buttons: u32,
    /// Padding to match the G29 report size.
    pub unused: [u8; 4],
}

/// Output report received from the virtual G29 device (FFB commands
/// emitted by games).
#[derive(Debug, Clone)]
pub struct G29OutputReport {
    pub report_id: u8,
    pub data: Vec<u8>,
}

/// IFORCE command for Thrustmaster force feedback, before framing.
#[derive(Debug, Clone)]
pub struct IforceCommand {
    pub command_id: u8,
    pub data: Vec<u8>,
}

/// Decode an eight-byte Thrustmaster input report: little-endian signed
/// steering in bytes 0-1, one byte per pedal, a little-endian button
/// bitfield in bytes 5-6, and the D-pad in the low nibble of byte 7.
pub fn parse_input_report(data: &[u8]) -> (report: ThrustmasterInputReport)
    requires
        data@.len() >= 8,
    ensures
        report.steering == le_i16_spec(data@[0], data@[1]),
        report.throttle == data@[2],
        report.brake == data@[3],
        report.clutch == data@[4],
        report.buttons == le16_spec(data@[5], data@[6]),
        report.dpad == data@[7] % 16,
{
    let steering = le_i16(data[0], data[1]);
    let throttle = data[2];
    let brake = data[3];
    let clutch = data[4];
    let buttons = le16(data[5], data[6]);
    let dpad = data[7] % 16;

    ThrustmasterInputReport { steering, throttle, brake, clutch, buttons, dpad }
}

/// XOR of all bytes of a sequence.
pub open spec fn xor_fold(s: Seq<u8>) -> u8
    decreases s.len(),
{
    if s.len() == 0 {
        0
    } else {
        xor_fold(s.drop_last()) ^ s.last()
    }
}

proof fn lemma_xor_self_is_zero(x: u8)
    by (bit_vector)
    ensures
        x ^ x == 0,
{
}

/// Frame an IFORCE command for the wire:
/// `[length, command_id, payload..., checksum]` where `length` counts the
/// command id, the payload and the checksum, and the checksum closes the
/// XOR of the whole frame to zero.
pub fn build_iforce_packet(command: &IforceCommand) -> (packet: Vec<u8>)
    requires
        command.data@.len() + 2 <= 255,
    ensures
        packet@.len() == command.data@.len() + 3,
        packet@[0] == command.data@.len() + 2,
        packet@[1] == command.command_id,
        packet@.subrange(2, packet@.len() - 1) == command.data@,
        packet@.last() == xor_fold(packet@.drop_last()),
        xor_fold(packet@) == 0,
{
    let mut packet: Vec<u8> = Vec::new();
    packet.push((command.data.len() + 2) as u8);
    packet.push(command.command_id);

    let mut i: usize = 0;
    while i < command.data.len()
        invariant
            i <= command.data@.len(),
            command.data@.len() + 2 <= 255,
            packet@.len() == i + 2,
            packet@[0] == command.data@.len() + 2,
            packet@[1] == command.command_id,
            packet@.subrange(2, packet@.len() as int) == command.data@.take(i as int),
        decreases command.data@.len() - i,
    {
        packet.push(command.data[i]);
        proof {
            assert(packet@.subrange(2, packet@.len() as int)
                =~= command.data@.take(i + 1 as int));
        }
        i = i + 1;
    }

    let mut checksum: u8 = 0;
    let mut j: usize = 0;
    while j < packet.len()
        invariant
            j <= packet@.len(),
            checksum == xor_fold(packet@.take(j as int)),
        decreases packet@.len() - j,
    {
        proof {
            assert(packet@.take(j + 1 as int).drop_last() =~= packet@.take(j as int));
        }
        checksum = checksum ^ packet[j];
        j = j + 1;
    }

    proof {
        assert(packet@.take(packet@.len() as int) =~= packet@);
    }
    let ghost body = packet@;
    packet.push(checksum);

    proof {
        assert(packet@.drop_last() =~= body);
        assert(packet@.subrange(2, packet@.len() - 1) =~= command.data@) by {
            assert(body.subrange(2, body.len() as int) =~= command.data@.take(
                command.data@.len() as int));
            assert(command.data@.take(command.data@.len() as int) =~= command.data@);
            assert forall|k: int| 0 <= k < command.data@.len() implies packet@.subrange(
                2,
                packet@.len() - 1,
            )[k] == command.data@[k] by {
                assert(packet@[k + 2] == body[k + 2]);
            }
        }
        lemma_xor_self_is_zero(checksum);
    }
    packet
}

/// The vendor-specific setup commands sent to the wheel when it is
/// opened: a set-range command carrying the configured vendor id bytes,
/// then an autocentre-enable command.
pub fn initialization_commands(config: &ThrustmasterConfig) -> (cmds: Vec<IforceCommand>)
    ensures
        cmds@.len() == 2,
        cmds@[0].command_id == 0x01,
        cmds@[0].data@ =~= seq![lo_byte_spec(config.vid), hi_byte_spec(config.vid)],
        cmds@[1].command_id == 0x02,
        cmds@[1].data@ =~= seq![0x01u8],
{
    let range_cmd = IforceCommand {
        command_id: 0x01,
        data: vec![lo_byte(config.vid), hi_byte(config.vid)],
    };
    let autocenter_cmd = IforceCommand { command_id: 0x02, data: vec![0x01] };
    vec![range_cmd, autocenter_cmd]
}

} // verus!
