//! The state of the driver as a mathematical value, and what each operation
//! makes of it.

use crate::protocol;
use crate::protocol::{
    InputReport, CHANNEL_COMMAND, CHANNEL_EXECUTABLE, CHANNEL_HUB_CONTROL, CHANNEL_SENSOR_REPORTS,
    CMD_RESP_ADVERTISEMENT, CMD_RESP_ERROR_LIST, EXECUTABLE_DEVICE_RESP_RESET_COMPLETE,
    NUM_CHANNELS, PACKET_HEADER_LENGTH, PACKET_RECV_BUF_LEN, PACKET_SEND_BUF_LEN,
    Q14_ONE, ROTATION_ACCURACY_Q12, SENSORHUB_COMMAND_RESP, SENSORHUB_PROD_ID_RESP, SH2_INIT_SYSTEM,
    SENSOR_REPORTID_ROTATION_VECTOR, SH2_STARTUP_INIT_UNSOLICITED,
};
use crate::error::WrapperError;
use crate::step;
use crate::step::{Action, Event, InitPhase, Next};
use vstd::prelude::*;

verus! {

/// The state of the driver, without the link.
#[verifier::ext_equal]
pub struct HubState {
    pub sequence_numbers: Seq<u8>,
    pub send_buf: Seq<u8>,
    pub recv_buf: Seq<u8>,
    pub last_packet_len_received: usize,
    pub device_reset: bool,
    pub prod_id_verified: bool,
    pub init_received: bool,
    pub advert_received: bool,
    pub error_list_received: bool,
    pub last_error_received: u8,
    pub last_chan_received: u8,
    pub last_exec_chan_rid: u8,
    pub last_command_chan_rid: u8,
    pub last_control_chan_rid: u8,
    pub rotation_quaternion: Seq<i16>,
    pub rot_quaternion_acc: i16,
}

impl HubState {
    /// Nothing sent, nothing received.
    pub open spec fn initial() -> Self {
        HubState {
            sequence_numbers: Seq::new(NUM_CHANNELS as nat, |i: int| 0u8),
            send_buf: Seq::new(PACKET_SEND_BUF_LEN as nat, |i: int| 0u8),
            recv_buf: Seq::new(PACKET_RECV_BUF_LEN as nat, |i: int| 0u8),
            last_packet_len_received: 0,
            device_reset: false,
            prod_id_verified: false,
            init_received: false,
            advert_received: false,
            error_list_received: false,
            last_error_received: 0,
            last_chan_received: 0,
            last_exec_chan_rid: 0,
            last_command_chan_rid: 0,
            last_control_chan_rid: 0,
            rotation_quaternion: seq![0i16, 0i16, 0i16, 0i16],
            rot_quaternion_acc: 0,
        }
    }

    /// Whether the buffers and tables have their sizes. Every driver's state does.
    pub open spec fn sized(self) -> bool {
        &&& self.sequence_numbers.len() == NUM_CHANNELS
        &&& self.send_buf.len() == PACKET_SEND_BUF_LEN
        &&& self.recv_buf.len() == PACKET_RECV_BUF_LEN
        &&& self.rotation_quaternion.len() == 4
    }

    /// Whether one more packet with this body can be sent on this channel.
    pub open spec fn can_send(self, channel: u8, body: Seq<u8>) -> bool {
        &&& channel < NUM_CHANNELS
        &&& self.sequence_numbers[channel as int] < u8::MAX
        &&& body.len() + PACKET_HEADER_LENGTH <= PACKET_SEND_BUF_LEN
    }

    /// The packet that the next send of `body` on `channel` puts on the link.
    pub open spec fn next_packet(self, channel: u8, body: Seq<u8>) -> Seq<u8> {
        protocol::packet(channel, self.sequence_numbers[channel as int], body)
    }

    /// The packet for `body` stands at the front of the send buffer, and its
    /// sequence number is used up.
    pub open spec fn prepared(self, channel: u8, body: Seq<u8>) -> Self {
        let packet = self.next_packet(channel, body);
        HubState {
            sequence_numbers: self.sequence_numbers.update(
                channel as int,
                (self.sequence_numbers[channel as int] + 1) as u8,
            ),
            send_buf: packet + self.send_buf.skip(packet.len() as int),
            ..self
        }
    }

    /// The length field of the receive buffer is zero.
    pub open spec fn cleared(self) -> Self {
        HubState { recv_buf: self.recv_buf.update(0, 0u8).update(1, 0u8), ..self }
    }

    /// The link has read a packet of `packet_len` bytes.
    pub open spec fn received(self, packet_len: usize) -> Self {
        HubState { last_packet_len_received: packet_len, ..self }
    }

    /// The link has reported `outcome` for a read.
    pub open spec fn after_read<E>(self, outcome: Result<usize, E>) -> Self {
        match outcome {
            Ok(packet_len) => self.received(packet_len),
            Err(_) => self,
        }
    }

    /// The first `received_len` bytes of the receive buffer.
    pub open spec fn received_packet(self, received_len: usize) -> Seq<u8> {
        self.recv_buf.take(received_len as int)
    }

    /// Whether the first `received_len` bytes of the receive buffer can be
    /// handled as a packet.
    pub open spec fn can_handle(self, received_len: usize) -> bool {
        &&& received_len <= PACKET_RECV_BUF_LEN
        &&& protocol::packet_complete(self.received_packet(received_len))
    }

    /// The rotation vector holds the values of this report.
    pub open spec fn rotated(self, report: InputReport) -> Self {
        HubState {
            rotation_quaternion: seq![report.data1, report.data2, report.data3, report.data4],
            rot_quaternion_acc: ROTATION_ACCURACY_Q12,
            ..self
        }
    }

    /// The quaternion to be read: as last reported, and that of no rotation where
    /// no rotation vector has come yet.
    pub open spec fn current_quaternion(self) -> Seq<i16> {
        if self.rot_quaternion_acc == 0 {
            seq![0i16, 0i16, 0i16, Q14_ONE]
        } else {
            self.rotation_quaternion
        }
    }

    /// An advertisement has been handled.
    pub open spec fn advertised(self) -> Self {
        HubState { advert_received: true, ..self }
    }

    /// An error list has been handled: its last entry is kept, and the earlier
    /// value where it has none.
    pub open spec fn errors_listed(self, packet: Seq<u8>) -> Self {
        HubState {
            error_list_received: true,
            last_error_received: if packet.len() > PACKET_HEADER_LENGTH + 1 {
                packet.last()
            } else {
                self.last_error_received
            },
            ..self
        }
    }

    /// The input reports of a packet have been handled: the last rotation vector
    /// among them is kept.
    pub open spec fn reports_handled(self, packet: Seq<u8>) -> Self {
        match protocol::latest_rotation(packet, protocol::report_count(packet.len() as int)) {
            Some(report) => self.rotated(report),
            None => self,
        }
    }

    /// A packet on the command channel has been handled.
    pub open spec fn command_handled(self, packet: Seq<u8>) -> Self {
        let report_id = protocol::packet_report_id(packet);
        if report_id == CMD_RESP_ADVERTISEMENT {
            self.advertised()
        } else if report_id == CMD_RESP_ERROR_LIST {
            self.errors_listed(packet)
        } else {
            HubState { last_command_chan_rid: report_id, ..self }
        }
    }

    /// A packet on the executable channel has been handled.
    pub open spec fn executable_handled(self, packet: Seq<u8>) -> Self {
        let report_id = protocol::packet_report_id(packet);
        if report_id == EXECUTABLE_DEVICE_RESP_RESET_COMPLETE {
            HubState { device_reset: true, ..self }
        } else {
            HubState { last_exec_chan_rid: report_id, ..self }
        }
    }

    /// A packet on the hub control channel has been handled.
    pub open spec fn control_handled(self, packet: Seq<u8>) -> Self {
        let report_id = protocol::packet_report_id(packet);
        if report_id == SENSORHUB_COMMAND_RESP {
            HubState {
                init_received: self.init_received || packet[6] == SH2_STARTUP_INIT_UNSOLICITED
                    || packet[6] == SH2_INIT_SYSTEM,
                ..self
            }
        } else if report_id == SENSORHUB_PROD_ID_RESP {
            HubState { prod_id_verified: true, ..self }
        } else {
            HubState { last_control_chan_rid: report_id, ..self }
        }
    }

    /// The first `received_len` bytes of the receive buffer have been handled as
    /// a packet.
    pub open spec fn handled(self, received_len: usize) -> Self {
        let packet = self.received_packet(received_len);
        let channel = protocol::packet_channel(packet);
        let noted = HubState { last_chan_received: channel, ..self };
        if channel == CHANNEL_COMMAND {
            noted.command_handled(packet)
        } else if channel == CHANNEL_EXECUTABLE {
            noted.executable_handled(packet)
        } else if channel == CHANNEL_HUB_CONTROL {
            noted.control_handled(packet)
        } else if channel == CHANNEL_SENSOR_REPORTS {
            noted.reports_handled(packet)
        } else {
            noted
        }
    }

    /// The outcome of a read has been noted, and the packet handled if there is
    /// one.
    pub open spec fn after_handling<E>(self, outcome: Result<usize, E>) -> Self {
        match outcome {
            Ok(packet_len) => if packet_len > 0 {
                self.received(packet_len).handled(packet_len)
            } else {
                self.received(packet_len)
            },
            Err(_) => self,
        }
    }

    /// The response to the product ID request has been handled, if it has a body.
    pub open spec fn after_response(self, response_len: usize) -> Self {
        if response_len > PACKET_HEADER_LENGTH {
            self.handled(response_len)
        } else {
            self
        }
    }

    /// Receiving one packet: the state after an event, and how it goes on.
    pub open spec fn receive_step<E>(self, event: Event<E>) -> (
        Self,
        Next<Result<usize, WrapperError<E>>>,
    ) {
        match event {
            Event::Start => (self.cleared(), Next::Do(Action::Read)),
            Event::Read(outcome) => (
                self.after_read(outcome),
                Next::Return(step::comm_result(outcome)),
            ),
            _ => arbitrary(),
        }
    }

    /// Receiving and handling one message.
    pub open spec fn handle_one_step<E>(self, event: Event<E>) -> (Self, Next<u32>) {
        match event {
            Event::Start => (self.cleared(), Next::Do(Action::Read)),
            Event::Read(outcome) => (
                self.after_handling(outcome),
                Next::Return(
                    if step::packet_arrived(outcome) {
                        1
                    } else {
                        0
                    },
                ),
            ),
            _ => arbitrary(),
        }
    }

    /// Receiving and handling messages until none is left.
    pub open spec fn handle_all_step<E>(self, event: Event<E>) -> (Self, Next<()>) {
        match event {
            Event::Start | Event::Delayed => (self.cleared(), Next::Do(Action::Read)),
            Event::Read(outcome) => (
                self.after_handling(outcome),
                if step::packet_arrived(outcome) {
                    Next::Do(Action::Delay(1))
                } else {
                    Next::Return(())
                },
            ),
            _ => arbitrary(),
        }
    }

    /// Receiving and dropping one message.
    pub open spec fn eat_one_step<E>(self, event: Event<E>) -> (Self, Next<usize>) {
        match event {
            Event::Start => (self.cleared(), Next::Do(Action::Read)),
            Event::Read(outcome) => (
                self.after_read(outcome),
                Next::Return(
                    match outcome {
                        Ok(packet_len) => packet_len,
                        Err(_) => 0,
                    },
                ),
            ),
            _ => arbitrary(),
        }
    }

    /// Receiving and dropping messages until none is left.
    pub open spec fn eat_all_step<E>(self, event: Event<E>) -> (Self, Next<()>) {
        match event {
            Event::Start | Event::Delayed => (self.cleared(), Next::Do(Action::Read)),
            Event::Read(outcome) => (
                self.after_read(outcome),
                if step::packet_arrived(outcome) {
                    Next::Do(Action::Delay(1))
                } else {
                    Next::Return(())
                },
            ),
            _ => arbitrary(),
        }
    }

    /// Sending one packet.
    pub open spec fn send_step<E>(self, channel: u8, body: Seq<u8>, event: Event<E>) -> (
        Self,
        Next<Result<usize, WrapperError<E>>>,
    ) {
        let packet_length = (body.len() + PACKET_HEADER_LENGTH) as usize;
        match event {
            Event::Start => (
                self.prepared(channel, body),
                Next::Do(Action::Write(packet_length)),
            ),
            Event::Written(Ok(_)) => (self, Next::Return(Ok(packet_length))),
            Event::Written(Err(error)) => (
                self,
                Next::Return(Err(WrapperError::CommError(error))),
            ),
            _ => arbitrary(),
        }
    }

    /// Sending one packet and receiving the response.
    pub open spec fn exchange_step<E>(self, channel: u8, body: Seq<u8>, event: Event<E>) -> (
        Self,
        Next<Result<usize, WrapperError<E>>>,
    ) {
        match event {
            Event::Start => (
                self.prepared(channel, body),
                Next::Do(Action::Exchange((body.len() + PACKET_HEADER_LENGTH) as usize)),
            ),
            Event::Exchanged(outcome) => (self, Next::Return(step::comm_result(outcome))),
            _ => arbitrary(),
        }
    }

    /// Asking for a report at an interval.
    pub open spec fn enable_report_step<E>(
        self,
        report_id: u8,
        millis_between_reports: u16,
        event: Event<E>,
    ) -> (Self, Next<Result<(), WrapperError<E>>>) {
        match event {
            Event::Start => (
                self.prepared(
                    CHANNEL_HUB_CONTROL,
                    protocol::set_feature_command_body(report_id, millis_between_reports),
                ),
                Next::Do(Action::Write(21)),
            ),
            Event::Written(outcome) => (self, Next::Return(step::comm_result(outcome))),
            _ => arbitrary(),
        }
    }

    /// Asking for the rotation vector at an interval.
    pub open spec fn enable_rotation_step<E>(
        self,
        millis_between_reports: u16,
        event: Event<E>,
    ) -> (Self, Next<Result<(), WrapperError<E>>>) {
        self.enable_report_step(SENSOR_REPORTID_ROTATION_VECTOR, millis_between_reports, event)
    }

    /// Resetting the device. What it responds is not looked at.
    pub open spec fn soft_reset_step<E>(self, event: Event<E>) -> (
        Self,
        Next<Result<(), WrapperError<E>>>,
    ) {
        match event {
            Event::Start => (
                self.prepared(CHANNEL_EXECUTABLE, protocol::reset_command_body()),
                Next::Do(Action::Exchange(5)),
            ),
            Event::Exchanged(Ok(_)) => (self, Next::Return(Ok(()))),
            Event::Exchanged(Err(error)) => (
                self,
                Next::Return(Err(WrapperError::CommError(error))),
            ),
            _ => arbitrary(),
        }
    }

    /// Asking for the product ID.
    pub open spec fn verify_product_id_step<E>(self, event: Event<E>) -> (
        Self,
        Next<Result<(), WrapperError<E>>>,
    ) {
        match event {
            Event::Start => (
                self.prepared(CHANNEL_HUB_CONTROL, protocol::product_id_request_body()),
                Next::Do(Action::Exchange(6)),
            ),
            Event::Exchanged(Ok(response_len)) => (
                self.after_response(response_len),
                Next::Return(
                    if self.after_response(response_len).prod_id_verified {
                        Ok(())
                    } else {
                        Err(WrapperError::InvalidChipId(0))
                    },
                ),
            ),
            Event::Exchanged(Err(error)) => (
                self,
                Next::Return(Err(WrapperError::CommError(error))),
            ),
            _ => arbitrary(),
        }
    }

    /// Initializing the device: the state after an event, the phase it is then
    /// in, and how it goes on.
    pub open spec fn init_step<E>(self, phase: InitPhase, event: Event<E>) -> (
        Self,
        InitPhase,
        Next<Result<(), WrapperError<E>>>,
    ) {
        match (phase, event) {
            (InitPhase::SettingUp, Event::Start) => (self, phase, Next::Do(Action::Setup)),
            (InitPhase::SettingUp, Event::SetUp(Ok(_))) => (
                self,
                InitPhase::Settling,
                Next::Do(Action::Delay(1)),
            ),
            (InitPhase::SettingUp, Event::SetUp(Err(error))) => (
                self,
                phase,
                Next::Return(Err(WrapperError::CommError(error))),
            ),
            (InitPhase::Settling, Event::Delayed) => {
                let (next_state, next) = self.soft_reset_step(Event::<E>::Start);
                (next_state, InitPhase::Resetting, next)
            },
            (InitPhase::Resetting, Event::Exchanged(Ok(_))) => (
                self,
                InitPhase::FirstWait,
                Next::Do(Action::Delay(50)),
            ),
            (InitPhase::Resetting, Event::Exchanged(Err(error))) => (
                self,
                phase,
                Next::Return(Err(WrapperError::CommError(error))),
            ),
            (InitPhase::FirstWait, Event::Delayed) => (
                self.cleared(),
                InitPhase::FirstDrain,
                Next::Do(Action::Read),
            ),
            (InitPhase::FirstDrain, Event::Delayed) => (
                self.cleared(),
                phase,
                Next::Do(Action::Read),
            ),
            (InitPhase::FirstDrain, Event::Read(outcome)) => if step::packet_arrived(outcome) {
                (self.after_read(outcome), phase, Next::Do(Action::Delay(1)))
            } else {
                (self.after_read(outcome), InitPhase::SecondWait, Next::Do(Action::Delay(100)))
            },
            (InitPhase::SecondWait, Event::Delayed) => (
                self.cleared(),
                InitPhase::SecondDrain,
                Next::Do(Action::Read),
            ),
            (InitPhase::SecondDrain, Event::Delayed) => (
                self.cleared(),
                phase,
                Next::Do(Action::Read),
            ),
            (InitPhase::SecondDrain, Event::Read(outcome)) => if step::packet_arrived(outcome) {
                (self.after_read(outcome), phase, Next::Do(Action::Delay(1)))
            } else {
                let (next_state, next) = self.after_read(outcome).verify_product_id_step(
                    Event::<E>::Start,
                );
                (next_state, InitPhase::Verifying, next)
            },
            (InitPhase::Verifying, Event::Exchanged(_)) => {
                let (next_state, next) = self.verify_product_id_step(event);
                (next_state, phase, next)
            },
            _ => arbitrary(),
        }
    }

    /// Whether the initialization can take this event in this phase.
    pub open spec fn init_expects<E>(self, phase: InitPhase, event: Event<E>) -> bool {
        match phase {
            InitPhase::SettingUp => event is Start || event is SetUp,
            InitPhase::Settling => {
                &&& event is Delayed
                &&& self.can_send(CHANNEL_EXECUTABLE, protocol::reset_command_body())
            },
            InitPhase::Resetting => event is Exchanged,
            InitPhase::FirstWait => event is Delayed,
            InitPhase::FirstDrain => event is Delayed || event is Read,
            InitPhase::SecondWait => event is Delayed,
            InitPhase::SecondDrain => {
                &&& event is Delayed || event is Read
                &&& event matches Event::Read(outcome) ==> !step::packet_arrived(outcome)
                    ==> self.can_send(CHANNEL_HUB_CONTROL, protocol::product_id_request_body())
            },
            InitPhase::Verifying => {
                &&& event is Exchanged
                &&& self.can_take_response(event)
            },
        }
    }

    /// Whether a packet that this event reports can be handled.
    pub open spec fn can_take_packet<E>(self, event: Event<E>) -> bool {
        event matches Event::Read(Ok(packet_len)) ==> packet_len > 0 ==> self.can_handle(packet_len)
    }

    /// Whether a response that this event reports can be handled, if it has a
    /// body.
    pub open spec fn can_take_response<E>(self, event: Event<E>) -> bool {
        event matches Event::Exchanged(Ok(response_len)) ==> response_len > PACKET_HEADER_LENGTH
            ==> self.can_handle(response_len)
    }
}

} // verus!
