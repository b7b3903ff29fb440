//! The SHTP wire format: channels, report identifiers, packet headers, input
//! reports and the commands that the driver sends.

use vstd::prelude::*;

verus! {

/// Length of the header in front of every packet: a little-endian length, the
/// channel, and the sequence number on that channel.
pub const PACKET_HEADER_LENGTH: usize = 4;

/// Size of the buffer in which packets for the sensor hub are built.
pub const PACKET_SEND_BUF_LEN: usize = 256;

/// Size of the buffer into which packets from the sensor hub are read.
pub const PACKET_RECV_BUF_LEN: usize = 1024;

/// Number of communication channels.
pub const NUM_CHANNELS: usize = 6;

/// The SHTP command channel.
pub const CHANNEL_COMMAND: u8 = 0;

/// The executable channel.
pub const CHANNEL_EXECUTABLE: u8 = 1;

/// The sensor hub control channel.
pub const CHANNEL_HUB_CONTROL: u8 = 2;

/// Input sensor reports (non-wake, not gyroRV).
pub const CHANNEL_SENSOR_REPORTS: u8 = 3;

/// Command channel: the advertisement.
pub const CMD_RESP_ADVERTISEMENT: u8 = 0;

/// Command channel: the list of errors.
pub const CMD_RESP_ERROR_LIST: u8 = 1;

/// Report ID of the product ID request.
pub const SENSORHUB_PROD_ID_REQ: u8 = 0xF9;

/// Report ID of the product ID response.
pub const SENSORHUB_PROD_ID_RESP: u8 = 0xF8;

/// Report ID of a command response on the hub control channel.
pub const SENSORHUB_COMMAND_RESP: u8 = 0xF1;

/// Report ID of the command that configures a feature report.
pub const SHTP_REPORT_SET_FEATURE_COMMAND: u8 = 0xFD;

/// Report ID of the rotation vector: a unit quaternion with a heading accuracy
/// estimate.
pub const SENSOR_REPORTID_ROTATION_VECTOR: u8 = 0x05;

/// Executable channel: the command that resets the device.
pub const EXECUTABLE_DEVICE_CMD_RESET: u8 = 1;

/// Executable channel: the response to a reset.
pub const EXECUTABLE_DEVICE_RESP_RESET_COMPLETE: u8 = 1;

/// Command response to the initialize command for the whole system.
pub const SH2_INIT_SYSTEM: u8 = 1;

/// Unsolicited response to the initialize command: 4, with the top bit set.
pub const SH2_STARTUP_INIT_UNSOLICITED: u8 = 0x84;

/// Offset of the first input report in a packet: header and timestamp come
/// before it.
pub const FIRST_REPORT_OFFSET: usize = 9;

/// One, as a fixed-point number with Q point 14.
pub const Q14_ONE: i16 = 16384;

/// The heading accuracy that goes with every rotation vector: two radians, as a
/// fixed-point number with Q point 12.
pub const ROTATION_ACCURACY_Q12: i16 = 8192;

/// The signed 16-bit number whose two's complement bytes are `lo` and `hi`.
pub open spec fn le_i16(lo: u8, hi: u8) -> i16 {
    let unsigned = lo + 256 * hi;
    if unsigned < 0x8000 {
        unsigned as i16
    } else {
        (unsigned - 0x1_0000) as i16
    }
}

/// The unsigned number that four little-endian bytes stand for.
pub open spec fn le_u32(b0: u8, b1: u8, b2: u8, b3: u8) -> int {
    b0 + 0x100 * b1 + 0x1_0000 * b2 + 0x100_0000 * b3
}

/// The four header bytes of a packet of `packet_length` bytes.
pub open spec fn packet_header(packet_length: int, channel: u8, sequence_number: u8) -> Seq<u8> {
    seq![
        (packet_length % 0x100) as u8,
        (packet_length / 0x100) as u8,
        channel,
        sequence_number,
    ]
}

/// A whole packet: the header, then the body.
pub open spec fn packet(channel: u8, sequence_number: u8, body: Seq<u8>) -> Seq<u8> {
    packet_header(body.len() + PACKET_HEADER_LENGTH, channel, sequence_number) + body
}

/// The body of the command that asks for report `report_id` every `millis`
/// milliseconds. The interval is in microseconds, little-endian; feature flags,
/// change sensitivity, batch interval and sensor-specific word are zero.
pub open spec fn set_feature_command_body(report_id: u8, millis: u16) -> Seq<u8> {
    let micros: int = millis * 1000;
    seq![
        SHTP_REPORT_SET_FEATURE_COMMAND,
        report_id,
        0u8,
        0u8,
        0u8,
        (micros % 0x100) as u8,
        (micros / 0x100 % 0x100) as u8,
        (micros / 0x1_0000 % 0x100) as u8,
        (micros / 0x100_0000) as u8,
        0u8,
        0u8,
        0u8,
        0u8,
        0u8,
        0u8,
        0u8,
        0u8,
    ]
}

/// The body of the command that resets the device.
pub open spec fn reset_command_body() -> Seq<u8> {
    seq![EXECUTABLE_DEVICE_CMD_RESET]
}

/// The body of the request for the product ID: the report ID, and a reserved
/// byte.
pub open spec fn product_id_request_body() -> Seq<u8> {
    seq![SENSORHUB_PROD_ID_REQ, 0u8]
}

/// The channel that a received packet came on.
pub open spec fn packet_channel(packet: Seq<u8>) -> u8 {
    packet[2]
}

/// The report ID of a received packet: the first byte behind the header, and
/// zero where there is none.
pub open spec fn packet_report_id(packet: Seq<u8>) -> u8 {
    if packet.len() > PACKET_HEADER_LENGTH {
        packet[4]
    } else {
        0
    }
}

/// Whether the advertisement entries (tag, length, value) that begin at
/// `cursor` all have a length byte behind their tag. The last value may be cut
/// short.
pub open spec fn entries_complete(payload: Seq<u8>, cursor: int) -> bool
    decreases
            if cursor < payload.len() {
                payload.len() - cursor
            } else {
                0
            },
{
    if cursor >= payload.len() {
        true
    } else if cursor + 1 >= payload.len() {
        false
    } else {
        entries_complete(payload, cursor + 2 + payload[cursor + 1])
    }
}

/// Whether a received packet holds all the bytes that its handling reads.
pub open spec fn packet_complete(packet: Seq<u8>) -> bool {
    let channel = packet_channel(packet);
    let report_id = packet_report_id(packet);
    &&& packet.len() >= 3
    &&& channel == CHANNEL_COMMAND && report_id == CMD_RESP_ADVERTISEMENT ==> {
        &&& packet.len() >= PACKET_HEADER_LENGTH
        &&& entries_complete(packet.skip(PACKET_HEADER_LENGTH as int), 1)
    }
    &&& channel == CHANNEL_HUB_CONTROL && report_id == SENSORHUB_COMMAND_RESP ==> packet.len() >= 7
    &&& channel == CHANNEL_SENSOR_REPORTS ==> packet.len() >= FIRST_REPORT_OFFSET
}

/// One input report.
pub struct InputReport {
    pub report_id: u8,
    pub data1: i16,
    pub data2: i16,
    pub data3: i16,
    pub data4: i16,
    pub data5: i16,
    /// Where the bytes that were read end.
    pub end: int,
}

/// The input report that begins at `start`. The fourth and fifth value are
/// read only where more than 14, respectively 16 bytes are left.
pub open spec fn input_report(packet: Seq<u8>, start: int) -> InputReport {
    let remaining = packet.len() - start;
    InputReport {
        report_id: packet[start],
        data1: le_i16(packet[start + 4], packet[start + 5]),
        data2: le_i16(packet[start + 6], packet[start + 7]),
        data3: le_i16(packet[start + 8], packet[start + 9]),
        data4: if remaining > 14 {
            le_i16(packet[start + 10], packet[start + 11])
        } else {
            0
        },
        data5: if remaining > 16 {
            le_i16(packet[start + 12], packet[start + 13])
        } else {
            0
        },
        end: start + if remaining > 16 {
            14int
        } else if remaining > 14 {
            12
        } else {
            10
        },
    }
}

/// How many input reports are read out of a packet of `packet_length` bytes.
pub open spec fn report_count(packet_length: int) -> int {
    if packet_length <= 2 * FIRST_REPORT_OFFSET {
        0
    } else {
        (packet_length - 5) / 14
    }
}

/// Where the `i`-th input report of a packet begins.
pub open spec fn report_start(i: int) -> int {
    FIRST_REPORT_OFFSET + 14 * i
}

/// The last rotation vector among the first `n` input reports of a packet.
pub open spec fn latest_rotation(packet: Seq<u8>, n: int) -> Option<InputReport>
    decreases n,
{
    if n <= 0 {
        None
    } else {
        let report = input_report(packet, report_start(n - 1));
        if report.report_id == SENSOR_REPORTID_ROTATION_VECTOR {
            Some(report)
        } else {
            latest_rotation(packet, n - 1)
        }
    }
}

/// Reads a signed 16-bit number from its little-endian bytes.
pub fn read_le_i16(lo: u8, hi: u8) -> (value: i16)
    ensures
        value == le_i16(lo, hi),
{
    let value: i16 = (lo as i16) | ((hi as i16) << 8);
    assert(value == if lo + 256 * hi < 0x8000 {
        lo + 256 * hi
    } else {
        lo + 256 * hi - 0x1_0000
    }) by (bit_vector)
        requires
            value == (lo as i16) | ((hi as i16) << 8),
    ;
    value
}

/// The body of the command that asks for report `report_id` every `millis`
/// milliseconds.
pub fn set_feature_command(report_id: u8, millis: u16) -> (body: [u8; 17])
    ensures
        body@ == set_feature_command_body(report_id, millis),
{
    let micros: u32 = (millis as u32) * 1000;
    assert((micros & 0xFFu32) as u8 == micros % 0x100) by (bit_vector);
    assert(((micros >> 8) & 0xFFu32) as u8 == micros / 0x100 % 0x100) by (bit_vector);
    assert(((micros >> 16) & 0xFFu32) as u8 == micros / 0x1_0000 % 0x100) by (bit_vector);
    assert(((micros >> 24) & 0xFFu32) as u8 == micros / 0x100_0000) by (bit_vector);
    let body: [u8; 17] = [
        SHTP_REPORT_SET_FEATURE_COMMAND,
        report_id,
        0,  // feature flags
        0,  // LSB change sensitivity
        0,  // MSB change sensitivity
        (micros & 0xFFu32) as u8,  // LSB report interval, microseconds
        ((micros >> 8) & 0xFFu32) as u8,
        ((micros >> 16) & 0xFFu32) as u8,
        ((micros >> 24) & 0xFFu32) as u8,  // MSB report interval
        0,  // LSB batch interval
        0,
        0,
        0,  // MSB batch interval
        0,  // LSB sensor-specific config
        0,
        0,
        0,  // MSB sensor-specific config
    ];
    assert(body@ =~= set_feature_command_body(report_id, millis));
    body
}

} // verus!
