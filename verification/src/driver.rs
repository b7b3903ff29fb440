//! The driver of one sensor hub.

use crate::error::WrapperError;
use crate::model::HubState;
use crate::protocol;
use crate::protocol::{
    CHANNEL_COMMAND, CHANNEL_EXECUTABLE, CHANNEL_HUB_CONTROL, CHANNEL_SENSOR_REPORTS,
    CMD_RESP_ADVERTISEMENT, CMD_RESP_ERROR_LIST, EXECUTABLE_DEVICE_CMD_RESET,
    EXECUTABLE_DEVICE_RESP_RESET_COMPLETE, FIRST_REPORT_OFFSET, NUM_CHANNELS,
    PACKET_HEADER_LENGTH, PACKET_RECV_BUF_LEN, PACKET_SEND_BUF_LEN, Q14_ONE, ROTATION_ACCURACY_Q12,
    SENSORHUB_COMMAND_RESP, SENSORHUB_PROD_ID_REQ, SENSORHUB_PROD_ID_RESP,
    SENSOR_REPORTID_ROTATION_VECTOR, SH2_INIT_SYSTEM, SH2_STARTUP_INIT_UNSOLICITED,
};
use crate::step;
use crate::step::{Action, Event, InitPhase, Next};
use vstd::prelude::*;

verus! {

/// A BNO080 sensor hub behind the packet link `SI`.
///
/// The driver carries the link along without using it: the caller performs the
/// I/O on `sensor_interface`, `packet_send_buf` and `packet_recv_buf`.
pub struct BNO080<SI> {
    pub sensor_interface: SI,
    /// Each communication channel with the device has its own sequence number.
    pub sequence_numbers: [u8; NUM_CHANNELS],
    /// Buffer for building and sending packets to the sensor hub.
    pub packet_send_buf: [u8; PACKET_SEND_BUF_LEN],
    /// Buffer for packets received from the sensor hub.
    pub packet_recv_buf: [u8; PACKET_RECV_BUF_LEN],
    /// Length of the last packet received.
    pub last_packet_len_received: usize,
    /// Has the device been successfully reset?
    pub device_reset: bool,
    /// Has the product ID been verified?
    pub prod_id_verified: bool,
    /// Has the device reported its initialization?
    pub init_received: bool,
    /// Have we received the full advertisement?
    pub advert_received: bool,
    /// Have we received an error list?
    pub error_list_received: bool,
    /// The last entry of the last error list that had an entry.
    pub last_error_received: u8,
    /// Channel of the last packet handled.
    pub last_chan_received: u8,
    /// Last unknown report ID on the executable channel.
    pub last_exec_chan_rid: u8,
    /// Last unknown report ID on the command channel.
    pub last_command_chan_rid: u8,
    /// Last unknown report ID on the hub control channel.
    pub last_control_chan_rid: u8,
    /// Rotation vector as unit quaternion (i, j, k, real): fixed-point numbers
    /// with Q point 14, so that 16384 stands for 1.
    pub rotation_quaternion: [i16; 4],
    /// Heading accuracy of rotation vector: radians, as a fixed-point number
    /// with Q point 12, so that 4096 stands for 1. Zero until a rotation vector
    /// has been received.
    pub rot_quaternion_acc: i16,
}

impl<SI> View for BNO080<SI> {
    type V = HubState;

    open spec fn view(&self) -> HubState {
        HubState {
            sequence_numbers: self.sequence_numbers@,
            send_buf: self.packet_send_buf@,
            recv_buf: self.packet_recv_buf@,
            last_packet_len_received: self.last_packet_len_received,
            device_reset: self.device_reset,
            prod_id_verified: self.prod_id_verified,
            init_received: self.init_received,
            advert_received: self.advert_received,
            error_list_received: self.error_list_received,
            last_error_received: self.last_error_received,
            last_chan_received: self.last_chan_received,
            last_exec_chan_rid: self.last_exec_chan_rid,
            last_command_chan_rid: self.last_command_chan_rid,
            last_control_chan_rid: self.last_control_chan_rid,
            rotation_quaternion: self.rotation_quaternion@,
            rot_quaternion_acc: self.rot_quaternion_acc,
        }
    }
}

impl<SI> BNO080<SI> {
    /// A driver that has sent and received nothing.
    pub fn new_with_interface(sensor_interface: SI) -> (driver: Self)
        ensures
            driver@ == HubState::initial(),
            driver.sensor_interface == sensor_interface,
    {
        BNO080 {
            sensor_interface,
            sequence_numbers: [0; NUM_CHANNELS],
            packet_send_buf: [0; PACKET_SEND_BUF_LEN],
            packet_recv_buf: [0; PACKET_RECV_BUF_LEN],
            last_packet_len_received: 0,
            device_reset: false,
            prod_id_verified: false,
            init_received: false,
            advert_received: false,
            error_list_received: false,
            last_error_received: 0,
            last_chan_received: 0,
            last_exec_chan_rid: 0,
            last_command_chan_rid: 0,
            last_control_chan_rid: 0,
            rotation_quaternion: [0; 4],
            rot_quaternion_acc: 0,
        }
    }

    /// Walks over the entries of an advertisement.
    fn handle_advertise_response(&mut self, received_len: usize)
        requires
            PACKET_HEADER_LENGTH <= received_len <= PACKET_RECV_BUF_LEN,
            protocol::entries_complete(
                old(self)@.received_packet(received_len).skip(PACKET_HEADER_LENGTH as int),
                1,
            ),
        ensures
            final(self)@ == old(self)@.advertised(),
            final(self).sensor_interface == old(self).sensor_interface,
    {
        let payload_len: usize = received_len - PACKET_HEADER_LENGTH;
        let payload = &self.packet_recv_buf[PACKET_HEADER_LENGTH..received_len];
        let mut cursor: usize = 1;  // skip response type
        assert(payload@ =~= self@.received_packet(received_len).skip(PACKET_HEADER_LENGTH as int));
        while cursor < payload_len
            invariant
                payload@.len() == payload_len,
                payload_len <= PACKET_RECV_BUF_LEN,
                protocol::entries_complete(payload@, cursor as int),
                cursor <= payload_len + 256,
            decreases payload_len + 256 - cursor,
        {
            let _tag: u8 = payload[cursor];
            cursor += 1;
            let len: u8 = payload[cursor];
            cursor += 1;
            cursor += len as usize;
        }
        self.advert_received = true;
    }

    /// Reads the input report that begins at `outer_cursor`: where it ends, its
    /// report ID and its five values.
    pub fn handle_one_input_report(outer_cursor: usize, msg: &[u8]) -> (report: (
        usize,
        u8,
        i16,
        i16,
        i16,
        i16,
        i16,
    ))
        requires
            outer_cursor + 10 <= msg@.len(),
        ensures
            ({
                let expected = protocol::input_report(msg@, outer_cursor as int);
                &&& report.0 == expected.end
                &&& report.1 == expected.report_id
                &&& report.2 == expected.data1
                &&& report.3 == expected.data2
                &&& report.4 == expected.data3
                &&& report.5 == expected.data4
                &&& report.6 == expected.data5
            }),
    {
        let mut cursor: usize = outer_cursor;
        let remaining: usize = msg.len() - cursor;

        let feature_report_id: u8 = msg[cursor];
        cursor += 1;
        let _rep_seq_num: u8 = msg[cursor];
        cursor += 1;
        let _rep_status: u8 = msg[cursor];
        cursor += 1;
        let _delay: u8 = msg[cursor];
        cursor += 1;

        let data1: i16 = protocol::read_le_i16(msg[cursor], msg[cursor + 1]);
        cursor += 2;
        let data2: i16 = protocol::read_le_i16(msg[cursor], msg[cursor + 1]);
        cursor += 2;
        let data3: i16 = protocol::read_le_i16(msg[cursor], msg[cursor + 1]);
        cursor += 2;
        let data4: i16 = if remaining > 14 {
            let val: i16 = protocol::read_le_i16(msg[cursor], msg[cursor + 1]);
            cursor += 2;
            val
        } else {
            0
        };
        let data5: i16 = if remaining > 16 {
            let val: i16 = protocol::read_le_i16(msg[cursor], msg[cursor + 1]);
            cursor += 2;
            val
        } else {
            0
        };

        (cursor, feature_report_id, data1, data2, data3, data4, data5)
    }

    /// Handles the input reports of a packet. Behind the header and a timestamp
    /// stands a sequence of reports, each with a header of four bytes.
    fn handle_input_report(&mut self, received_len: usize)
        requires
            FIRST_REPORT_OFFSET <= received_len <= PACKET_RECV_BUF_LEN,
        ensures
            final(self)@ == old(self)@.reports_handled(old(self)@.received_packet(received_len)),
            final(self).sensor_interface == old(self).sensor_interface,
    {
        let mut outer_cursor: usize = FIRST_REPORT_OFFSET;
        let payload_len: usize = received_len - outer_cursor;
        let ghost before = *self;
        let ghost packet = self@.received_packet(received_len);
        let ghost count = protocol::report_count(received_len as int);
        let ghost mut i: int = 0;

        // there may be multiple reports per payload
        while outer_cursor < payload_len
            invariant
                FIRST_REPORT_OFFSET <= received_len <= PACKET_RECV_BUF_LEN,
                payload_len == received_len - FIRST_REPORT_OFFSET,
                packet == before@.received_packet(received_len),
                count == protocol::report_count(received_len as int),
                0 <= i <= count,
                i < count ==> outer_cursor == protocol::report_start(i),
                i == count ==> outer_cursor >= payload_len,
                outer_cursor <= received_len,
                self@.recv_buf == before@.recv_buf,
                self.sensor_interface == before.sensor_interface,
                self@ == match protocol::latest_rotation(packet, i) {
                    Some(report) => before@.rotated(report),
                    None => before@,
                },
            decreases received_len - outer_cursor,
        {
            let msg = &self.packet_recv_buf[0..received_len];
            assert(msg@ =~= packet);
            let (inner_cursor, report_id, data1, data2, data3, data4, data5) =
                Self::handle_one_input_report(outer_cursor, msg);
            outer_cursor = inner_cursor;
            proof {
                i = i + 1;
            }
            if report_id == SENSOR_REPORTID_ROTATION_VECTOR {
                self.update_rotation_quaternion(data1, data2, data3, data4, data5);
            }
        }
    }

    /// Keeps the components of the quaternion. The accuracy is not taken from the
    /// report.
    pub fn update_rotation_quaternion(&mut self, q_i: i16, q_j: i16, q_k: i16, q_r: i16, _q_a: i16)
        ensures
            final(self)@ == (HubState {
                rotation_quaternion: seq![q_i, q_j, q_k, q_r],
                rot_quaternion_acc: ROTATION_ACCURACY_Q12,
                ..old(self)@
            }),
            final(self).sensor_interface == old(self).sensor_interface,
    {
        self.rotation_quaternion = [q_i, q_j, q_k, q_r];
        self.rot_quaternion_acc = ROTATION_ACCURACY_Q12;
    }

    /// Goes through an error list: its last entry is kept, if it has one.
    fn handle_error_list(&mut self, received_len: usize)
        requires
            PACKET_HEADER_LENGTH <= received_len <= PACKET_RECV_BUF_LEN,
        ensures
            final(self)@ == old(self)@.errors_listed(old(self)@.received_packet(received_len)),
            final(self).sensor_interface == old(self).sensor_interface,
    {
        let payload_len: usize = received_len - PACKET_HEADER_LENGTH;
        let ghost before = *self;
        let ghost packet = self@.received_packet(received_len);

        self.error_list_received = true;
        let mut cursor: usize = 1;
        while cursor < payload_len
            invariant
                PACKET_HEADER_LENGTH <= received_len <= PACKET_RECV_BUF_LEN,
                payload_len == received_len - PACKET_HEADER_LENGTH,
                packet == before@.received_packet(received_len),
                1 <= cursor,
                cursor == 1 || cursor <= payload_len,
                self.sensor_interface == before.sensor_interface,
                self@ == (HubState {
                    error_list_received: true,
                    last_error_received: if cursor > 1 {
                        packet[PACKET_HEADER_LENGTH + cursor - 1]
                    } else {
                        before@.last_error_received
                    },
                    ..before@
                }),
            decreases payload_len - cursor,
        {
            let err: u8 = self.packet_recv_buf[PACKET_HEADER_LENGTH + cursor];
            self.last_error_received = err;
            cursor += 1;
        }
    }

    /// Whether the entries of an advertisement of `received_len` bytes all have
    /// a length byte behind their tag.
    fn advertise_response_complete(&self, received_len: usize) -> (complete: bool)
        requires
            PACKET_HEADER_LENGTH <= received_len <= PACKET_RECV_BUF_LEN,
        ensures
            complete == protocol::entries_complete(
                self@.received_packet(received_len).skip(PACKET_HEADER_LENGTH as int),
                1,
            ),
    {
        let payload_len: usize = received_len - PACKET_HEADER_LENGTH;
        let payload = &self.packet_recv_buf[PACKET_HEADER_LENGTH..received_len];
        let mut cursor: usize = 1;
        assert(payload@ =~= self@.received_packet(received_len).skip(PACKET_HEADER_LENGTH as int));
        while cursor < payload_len
            invariant
                payload@.len() == payload_len,
                payload_len <= PACKET_RECV_BUF_LEN,
                payload@ == self@.received_packet(received_len).skip(PACKET_HEADER_LENGTH as int),
                protocol::entries_complete(payload@, cursor as int)
                    == protocol::entries_complete(payload@, 1),
                cursor <= payload_len + 256,
            decreases payload_len + 256 - cursor,
        {
            if cursor + 1 >= payload_len {
                return false;
            }
            cursor += 2 + payload[cursor + 1] as usize;
        }
        true
    }

    /// Whether the first `received_len` bytes of the receive buffer hold all the
    /// bytes that [`Self::handle_received_packet`] reads.
    pub fn can_handle_packet(&self, received_len: usize) -> (complete: bool)
        ensures
            complete == self@.can_handle(received_len),
    {
        if received_len > PACKET_RECV_BUF_LEN || received_len < 3 {
            return false;
        }
        let chan_num: u8 = self.packet_recv_buf[2];
        let report_id: u8 = if received_len > PACKET_HEADER_LENGTH {
            self.packet_recv_buf[4]
        } else {
            0
        };
        if chan_num == CHANNEL_COMMAND && report_id == CMD_RESP_ADVERTISEMENT {
            received_len >= PACKET_HEADER_LENGTH && self.advertise_response_complete(received_len)
        } else if chan_num == CHANNEL_HUB_CONTROL && report_id == SENSORHUB_COMMAND_RESP {
            received_len >= 7
        } else if chan_num == CHANNEL_SENSOR_REPORTS {
            received_len >= FIRST_REPORT_OFFSET
        } else {
            true
        }
    }

    /// Handles the packet of `received_len` bytes in the receive buffer.
    pub fn handle_received_packet(&mut self, received_len: usize)
        requires
            old(self)@.can_handle(received_len),
        ensures
            final(self)@ == old(self)@.handled(received_len),
            final(self).sensor_interface == old(self).sensor_interface,
    {
        let ghost packet = self@.received_packet(received_len);
        let chan_num: u8 = self.packet_recv_buf[2];
        let report_id: u8 = if received_len > PACKET_HEADER_LENGTH {
            self.packet_recv_buf[4]
        } else {
            0
        };
        assert(chan_num == protocol::packet_channel(packet));
        assert(report_id == protocol::packet_report_id(packet));

        self.last_chan_received = chan_num;
        match chan_num {
            CHANNEL_COMMAND => {
                match report_id {
                    CMD_RESP_ADVERTISEMENT => {
                        self.handle_advertise_response(received_len);
                    },
                    CMD_RESP_ERROR_LIST => {
                        self.handle_error_list(received_len);
                    },
                    _ => {
                        self.last_command_chan_rid = report_id;
                    },
                }
            },
            CHANNEL_EXECUTABLE => {
                match report_id {
                    EXECUTABLE_DEVICE_RESP_RESET_COMPLETE => {
                        self.device_reset = true;
                    },
                    _ => {
                        self.last_exec_chan_rid = report_id;
                    },
                }
            },
            CHANNEL_HUB_CONTROL => {
                match report_id {
                    SENSORHUB_COMMAND_RESP => {
                        let cmd_resp: u8 = self.packet_recv_buf[6];
                        if cmd_resp == SH2_STARTUP_INIT_UNSOLICITED || cmd_resp == SH2_INIT_SYSTEM {
                            self.init_received = true;
                        }
                    },
                    SENSORHUB_PROD_ID_RESP => {
                        self.prod_id_verified = true;
                    },
                    _ => {
                        self.last_control_chan_rid = report_id;
                    },
                }
            },
            CHANNEL_SENSOR_REPORTS => {
                self.handle_input_report(received_len);
            },
            _ => {},
        }
    }

    /// Prepares a packet for sending, in the send buffer. Returns its length.
    pub fn prep_send_packet(&mut self, channel: u8, body_data: &[u8]) -> (packet_length: usize)
        requires
            old(self)@.can_send(channel, body_data@),
        ensures
            packet_length == body_data@.len() + PACKET_HEADER_LENGTH,
            final(self)@ == old(self)@.prepared(channel, body_data@),
            final(self).sensor_interface == old(self).sensor_interface,
    {
        let ghost before = *self;
        let ghost packet = self@.next_packet(channel, body_data@);
        let body_len: usize = body_data.len();
        let packet_length: usize = body_len + PACKET_HEADER_LENGTH;
        assert(packet_length & 0xFF == packet_length % 0x100) by (bit_vector);
        assert(packet_length >> 8 == packet_length / 0x100) by (bit_vector);
        let sequence_number: u8 = self.sequence_numbers[channel as usize];
        self.sequence_numbers[channel as usize] = sequence_number + 1;

        self.packet_send_buf[0] = (packet_length & 0xFF) as u8;  // LSB
        self.packet_send_buf[1] = (packet_length >> 8) as u8;  // MSB
        self.packet_send_buf[2] = channel;
        self.packet_send_buf[3] = sequence_number;
        let ghost headed = *self;
        let mut copied: usize = 0;
        while copied < body_len
            invariant
                copied <= body_len,
                body_len == body_data@.len(),
                body_len + PACKET_HEADER_LENGTH <= PACKET_SEND_BUF_LEN,
                self.sensor_interface == headed.sensor_interface,
                self@ == (HubState { send_buf: self@.send_buf, ..headed@ }),
                self@.send_buf =~= headed@.send_buf.take(PACKET_HEADER_LENGTH as int)
                    + body_data@.take(copied as int) + headed@.send_buf.skip(
                    PACKET_HEADER_LENGTH + copied,
                ),
            decreases body_len - copied,
        {
            self.packet_send_buf[PACKET_HEADER_LENGTH + copied] = body_data[copied];
            copied += 1;
        }
        assert(body_data@.take(copied as int) =~= body_data@);
        assert(self@.send_buf =~= packet + before@.send_buf.skip(packet.len() as int));
        packet_length
    }

    /// Reads one packet into the receive buffer. The result is its length, or
    /// zero if there was none.
    pub fn receive_packet<E>(&mut self, event: Event<E>) -> (next: Next<
        Result<usize, WrapperError<E>>,
    >)
        requires
            event is Start || event is Read,
        ensures
            (final(self)@, next) == old(self)@.receive_step(event),
            final(self).sensor_interface == old(self).sensor_interface,
    {
        match event {
            Event::Read(outcome) => {
                if let Ok(packet_len) = &outcome {
                    self.last_packet_len_received = *packet_len;
                }
                Next::Return(step::map_comm_error(outcome))
            },
            _ => {
                self.packet_recv_buf[0] = 0;
                self.packet_recv_buf[1] = 0;
                Next::Do(Action::Read)
            },
        }
    }

    /// Receives and handles one message. The result is the number of messages
    /// handled.
    pub fn handle_one_message<E>(&mut self, event: Event<E>) -> (next: Next<u32>)
        requires
            event is Start || event is Read,
            old(self)@.can_take_packet(event),
        ensures
            (final(self)@, next) == old(self)@.handle_one_step(event),
            final(self).sensor_interface == old(self).sensor_interface,
    {
        match self.receive_packet(event) {
            Next::Do(action) => Next::Do(action),
            Next::Return(Ok(received_len)) => {
                if received_len > 0 {
                    self.handle_received_packet(received_len);
                    Next::Return(1)
                } else {
                    Next::Return(0)
                }
            },
            Next::Return(Err(_)) => Next::Return(0),
        }
    }

    /// Receives and handles messages until none is left, with a pause of one
    /// millisecond behind each.
    pub fn handle_all_messages<E>(&mut self, event: Event<E>) -> (next: Next<()>)
        requires
            event is Start || event is Delayed || event is Read,
            old(self)@.can_take_packet(event),
        ensures
            (final(self)@, next) == old(self)@.handle_all_step(event),
            final(self).sensor_interface == old(self).sensor_interface,
    {
        let round: Event<E> = match event {
            Event::Delayed => Event::Start,
            other => other,
        };
        match self.handle_one_message(round) {
            Next::Do(action) => Next::Do(action),
            Next::Return(handled_count) => {
                if handled_count == 0 {
                    Next::Return(())
                } else {
                    Next::Do(Action::Delay(1))
                }
            },
        }
    }

    /// Receives and ignores one message. The result is the size of the packet
    /// received, or zero if there was no packet to read.
    pub fn eat_one_message<E>(&mut self, event: Event<E>) -> (next: Next<usize>)
        requires
            event is Start || event is Read,
        ensures
            (final(self)@, next) == old(self)@.eat_one_step(event),
            final(self).sensor_interface == old(self).sensor_interface,
    {
        match self.receive_packet(event) {
            Next::Do(action) => Next::Do(action),
            Next::Return(Ok(received_len)) => Next::Return(received_len),
            Next::Return(Err(_)) => Next::Return(0),
        }
    }

    /// Consumes all available messages without processing them, with a pause of
    /// one millisecond behind each.
    pub fn eat_all_messages<E>(&mut self, event: Event<E>) -> (next: Next<()>)
        requires
            event is Start || event is Delayed || event is Read,
        ensures
            (final(self)@, next) == old(self)@.eat_all_step(event),
            final(self).sensor_interface == old(self).sensor_interface,
    {
        let round: Event<E> = match event {
            Event::Delayed => Event::Start,
            other => other,
        };
        match self.eat_one_message(round) {
            Next::Do(action) => Next::Do(action),
            Next::Return(eaten_len) => {
                if eaten_len == 0 {
                    Next::Return(())
                } else {
                    Next::Do(Action::Delay(1))
                }
            },
        }
    }

    /// Sends one packet. The result is its length.
    fn send_packet<E>(&mut self, channel: u8, body_data: &[u8], event: Event<E>) -> (next: Next<
        Result<usize, WrapperError<E>>,
    >)
        requires
            event is Start || event is Written,
            event is Start ==> old(self)@.can_send(channel, body_data@),
            body_data@.len() + PACKET_HEADER_LENGTH <= PACKET_SEND_BUF_LEN,
        ensures
            (final(self)@, next) == old(self)@.send_step(channel, body_data@, event),
            final(self).sensor_interface == old(self).sensor_interface,
    {
        match event {
            Event::Written(outcome) => match step::map_comm_error(outcome) {
                Ok(_) => Next::Return(Ok(body_data.len() + PACKET_HEADER_LENGTH)),
                Err(error) => Next::Return(Err(error)),
            },
            _ => {
                let packet_length: usize = self.prep_send_packet(channel, body_data);
                Next::Do(Action::Write(packet_length))
            },
        }
    }

    /// Sends one packet and receives the response. The result is the length of
    /// the response.
    fn send_and_receive_packet<E>(
        &mut self,
        channel: u8,
        body_data: &[u8],
        event: Event<E>,
    ) -> (next: Next<Result<usize, WrapperError<E>>>)
        requires
            event is Start || event is Exchanged,
            event is Start ==> old(self)@.can_send(channel, body_data@),
        ensures
            (final(self)@, next) == old(self)@.exchange_step(channel, body_data@, event),
            final(self).sensor_interface == old(self).sensor_interface,
    {
        match event {
            Event::Exchanged(outcome) => Next::Return(step::map_comm_error(outcome)),
            _ => {
                let packet_length: usize = self.prep_send_packet(channel, body_data);
                Next::Do(Action::Exchange(packet_length))
            },
        }
    }

    /// Enables a particular report.
    fn enable_report<E>(
        &mut self,
        report_id: u8,
        millis_between_reports: u16,
        event: Event<E>,
    ) -> (next: Next<Result<(), WrapperError<E>>>)
        requires
            event is Start || event is Written,
            event is Start ==> old(self)@.sequence_numbers[CHANNEL_HUB_CONTROL as int] < u8::MAX,
        ensures
            (final(self)@, next) == old(self)@.enable_report_step(
                report_id,
                millis_between_reports,
                event,
            ),
            final(self).sensor_interface == old(self).sensor_interface,
    {
        let cmd_body: [u8; 17] = protocol::set_feature_command(report_id, millis_between_reports);
        match self.send_packet(CHANNEL_HUB_CONTROL, cmd_body.as_slice(), event) {
            Next::Do(action) => Next::Do(action),
            Next::Return(Ok(_)) => Next::Return(Ok(())),
            Next::Return(Err(error)) => Next::Return(Err(error)),
        }
    }

    /// Tells the sensor to start reporting the fused rotation vector on a regular
    /// cadence. Note that the maximum valid update rate is 1 kHz, based on the
    /// max update rate of the sensor's gyros.
    pub fn enable_rotation_vector<E>(&mut self, millis_between_reports: u16, event: Event<E>) -> (
        next: Next<Result<(), WrapperError<E>>>)
        requires
            event is Start || event is Written,
            event is Start ==> old(self)@.sequence_numbers[CHANNEL_HUB_CONTROL as int] < u8::MAX,
        ensures
            (final(self)@, next) == old(self)@.enable_rotation_step(millis_between_reports, event),
            (final(self)@, next) == old(self)@.enable_report_step(
                SENSOR_REPORTID_ROTATION_VECTOR,
                millis_between_reports,
                event,
            ),
            final(self).sensor_interface == old(self).sensor_interface,
    {
        self.enable_report(SENSOR_REPORTID_ROTATION_VECTOR, millis_between_reports, event)
    }

    /// Resets the device. The packet that it sends back is not looked at.
    pub fn soft_reset<E>(&mut self, event: Event<E>) -> (next: Next<Result<(), WrapperError<E>>>)
        requires
            event is Start || event is Exchanged,
            event is Start ==> old(self)@.sequence_numbers[CHANNEL_EXECUTABLE as int] < u8::MAX,
        ensures
            (final(self)@, next) == old(self)@.soft_reset_step(event),
            final(self).sensor_interface == old(self).sensor_interface,
    {
        let data: [u8; 1] = [EXECUTABLE_DEVICE_CMD_RESET];
        assert(data@ =~= protocol::reset_command_body());
        match self.send_and_receive_packet(CHANNEL_EXECUTABLE, data.as_slice(), event) {
            Next::Do(action) => Next::Do(action),
            Next::Return(Ok(_)) => Next::Return(Ok(())),
            Next::Return(Err(error)) => Next::Return(Err(error)),
        }
    }

    /// Asks for the product ID, and fails unless the device has given it, now or
    /// before.
    pub fn verify_product_id<E>(&mut self, event: Event<E>) -> (next: Next<
        Result<(), WrapperError<E>>,
    >)
        requires
            event is Start || event is Exchanged,
            event is Start ==> old(self)@.sequence_numbers[CHANNEL_HUB_CONTROL as int] < u8::MAX,
            old(self)@.can_take_response(event),
        ensures
            (final(self)@, next) == old(self)@.verify_product_id_step(event),
            final(self).sensor_interface == old(self).sensor_interface,
    {
        let cmd_body: [u8; 2] = [SENSORHUB_PROD_ID_REQ, 0];
        assert(cmd_body@ =~= protocol::product_id_request_body());
        match self.send_and_receive_packet(CHANNEL_HUB_CONTROL, cmd_body.as_slice(), event) {
            Next::Do(action) => Next::Do(action),
            Next::Return(Err(error)) => Next::Return(Err(error)),
            Next::Return(Ok(recv_len)) => {
                if recv_len > PACKET_HEADER_LENGTH {
                    self.handle_received_packet(recv_len);
                }
                if !self.prod_id_verified {
                    return Next::Return(Err(WrapperError::InvalidChipId(0)));
                }
                Next::Return(Ok(()))
            },
        }
    }

    /// Brings the device up: sets up the link, resets the device, drops what it
    /// says on startup, and verifies the product ID. The device then has all
    /// sensors disabled, waiting for the application to configure it.
    ///
    /// Begins in `InitPhase::SettingUp`, with `Event::Start`.
    pub fn init<E>(&mut self, phase: InitPhase, event: Event<E>) -> (next: (
        InitPhase,
        Next<Result<(), WrapperError<E>>>,
    ))
        requires
            old(self)@.init_expects(phase, event),
        ensures
            (final(self)@, next.0, next.1) == old(self)@.init_step(phase, event),
            final(self).sensor_interface == old(self).sensor_interface,
    {
        match phase {
            InitPhase::SettingUp => match event {
                Event::SetUp(outcome) => match step::map_comm_error(outcome) {
                    Ok(_) => (InitPhase::Settling, Next::Do(Action::Delay(1))),
                    Err(error) => (phase, Next::Return(Err(error))),
                },
                _ => (phase, Next::Do(Action::Setup)),
            },
            InitPhase::Settling => (InitPhase::Resetting, self.soft_reset(Event::Start)),
            InitPhase::Resetting => match self.soft_reset(event) {
                Next::Return(Ok(_)) => (InitPhase::FirstWait, Next::Do(Action::Delay(50))),
                other => (phase, other),
            },
            InitPhase::FirstWait => match self.eat_all_messages(Event::<E>::Start) {
                Next::Do(action) => (InitPhase::FirstDrain, Next::Do(action)),
                Next::Return(_) => (InitPhase::SecondWait, Next::Do(Action::Delay(100))),
            },
            InitPhase::FirstDrain => match self.eat_all_messages(event) {
                Next::Do(action) => (phase, Next::Do(action)),
                Next::Return(_) => (InitPhase::SecondWait, Next::Do(Action::Delay(100))),
            },
            InitPhase::SecondWait => match self.eat_all_messages(Event::<E>::Start) {
                Next::Do(action) => (InitPhase::SecondDrain, Next::Do(action)),
                Next::Return(_) => (InitPhase::Verifying, self.verify_product_id(Event::Start)),
            },
            InitPhase::SecondDrain => match self.eat_all_messages(event) {
                Next::Do(action) => (phase, Next::Do(action)),
                Next::Return(_) => (InitPhase::Verifying, self.verify_product_id(Event::Start)),
            },
            InitPhase::Verifying => (phase, self.verify_product_id(event)),
        }
    }

    /// Reads the quaternion as last reported, in fixed-point numbers with Q point
    /// 14: X, Y, Z and W. Until a rotation vector has been received, which gives
    /// the heading accuracy a value, this is the normalized quaternion of no
    /// rotation.
    pub fn read_quaternion<E>(&mut self) -> (quaternion: Result<[i16; 4], WrapperError<E>>)
        ensures
            quaternion matches Ok(components) && components@ == old(self)@.current_quaternion(),
            *final(self) == *old(self),
    {
        if self.rot_quaternion_acc == 0 {
            let components: [i16; 4] = [0, 0, 0, Q14_ONE];
            assert(components@ =~= self@.current_quaternion());
            Ok(components)
        } else {
            Ok(self.rotation_quaternion)
        }
    }
}

} // verus!
