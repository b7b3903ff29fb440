//! What each operation does, in terms of bytes, offsets and fields.
//!
//! The laws here give the numbers of the wire format, and speak of the state
//! before and after: which bytes go out, which bytes are looked at, what is then
//! held, and what is returned.

use crate::driver::BNO080;
use crate::error::WrapperError;
use crate::laws;
use crate::laws::Observed;
use crate::model::HubState;
use crate::protocol;
use crate::step;
use crate::step::{Action, Event, InitPhase, Next};
use vstd::prelude::*;

verus! {

/// The model shows every field of the driver as it is.
pub proof fn law_view_shows_the_fields<SI>(driver: BNO080<SI>)
    ensures
        driver@.sequence_numbers == driver.sequence_numbers@,
        driver@.send_buf == driver.packet_send_buf@,
        driver@.recv_buf == driver.packet_recv_buf@,
        driver@.last_packet_len_received == driver.last_packet_len_received,
        driver@.device_reset == driver.device_reset,
        driver@.prod_id_verified == driver.prod_id_verified,
        driver@.init_received == driver.init_received,
        driver@.advert_received == driver.advert_received,
        driver@.error_list_received == driver.error_list_received,
        driver@.last_error_received == driver.last_error_received,
        driver@.last_chan_received == driver.last_chan_received,
        driver@.last_exec_chan_rid == driver.last_exec_chan_rid,
        driver@.last_command_chan_rid == driver.last_command_chan_rid,
        driver@.last_control_chan_rid == driver.last_control_chan_rid,
        driver@.rotation_quaternion == driver.rotation_quaternion@,
        driver@.rot_quaternion_acc == driver.rot_quaternion_acc,
{
}

/// A new driver holds zeros, and has seen nothing.
pub proof fn law_new_driver_holds_nothing()
    ensures
        ({
            let state = HubState::initial();
            &&& state.sequence_numbers.len() == 6
            &&& forall|i: int| 0 <= i < 6 ==> #[trigger] state.sequence_numbers[i] == 0
            &&& state.send_buf.len() == 256
            &&& forall|i: int| 0 <= i < 256 ==> #[trigger] state.send_buf[i] == 0
            &&& state.recv_buf.len() == 1024
            &&& forall|i: int| 0 <= i < 1024 ==> #[trigger] state.recv_buf[i] == 0
            &&& state.last_packet_len_received == 0
            &&& !state.device_reset
            &&& !state.prod_id_verified
            &&& !state.init_received
            &&& !state.advert_received
            &&& !state.error_list_received
            &&& state.last_error_received == 0
            &&& state.last_chan_received == 0
            &&& state.last_exec_chan_rid == 0
            &&& state.last_command_chan_rid == 0
            &&& state.last_control_chan_rid == 0
            &&& state.rotation_quaternion.len() == 4
            &&& forall|i: int| 0 <= i < 4 ==> #[trigger] state.rotation_quaternion[i] == 0
            &&& state.rot_quaternion_acc == 0
        }),
{
}

/// A packet can be sent if the channel exists, its sequence numbers are not used
/// up, and the body leaves room for the header.
pub proof fn law_when_a_packet_can_be_sent(state: HubState, channel: u8, body: Seq<u8>)
    ensures
        state.can_send(channel, body) == (channel < 6 && state.sequence_numbers[channel as int]
            < 255 && body.len() <= 252),
{
}

/// `after` is `before` with the packet for `body` on `channel` at the front of
/// the send buffer, and that channel's sequence number moved on by one.
pub open spec fn packet_is_put_up(
    before: HubState,
    after: HubState,
    channel: u8,
    body: Seq<u8>,
) -> bool {
    let n = body.len() + 4;
    &&& after == HubState {
        sequence_numbers: after.sequence_numbers,
        send_buf: after.send_buf,
        ..before
    }
    &&& after.send_buf.len() == 256
    &&& after.send_buf[0] + 256 * after.send_buf[1] == n
    &&& after.send_buf[2] == channel
    &&& after.send_buf[3] == before.sequence_numbers[channel as int]
    &&& forall|i: int| 4 <= i < n ==> #[trigger] after.send_buf[i] == body[i - 4]
    &&& forall|i: int| n <= i < 256 ==> #[trigger] after.send_buf[i] == before.send_buf[i]
    &&& after.sequence_numbers.len() == 6
    &&& after.sequence_numbers[channel as int] == before.sequence_numbers[channel as int] + 1
    &&& forall|i: int|
        0 <= i < 6 && i != channel ==> #[trigger] after.sequence_numbers[i]
            == before.sequence_numbers[i]
}

/// Preparing a packet puts it up, byte by byte, and does nothing else.
pub proof fn law_preparing_puts_the_packet_up(state: HubState, channel: u8, body: Seq<u8>)
    requires
        state.sized(),
        channel < 6,
        state.sequence_numbers[channel as int] < 255,
        body.len() <= 252,
    ensures
        packet_is_put_up(state, state.prepared(channel, body), channel, body),
{
}

/// Sending asks for the write of the packet that it has put up. The result is
/// the length of the packet, or the error of the link.
pub proof fn law_sending<E>(
    state: HubState,
    channel: u8,
    body: Seq<u8>,
    written: Result<(), E>,
)
    requires
        state.sized(),
        channel < 6,
        body.len() <= 252,
    ensures
        state.send_step(channel, body, Event::<E>::Start).1 == Next::<
            Result<usize, WrapperError<E>>,
        >::Do(Action::Write((body.len() + 4) as usize)),
        state.sequence_numbers[channel as int] < 255 ==> packet_is_put_up(
            state,
            state.send_step(channel, body, Event::<E>::Start).0,
            channel,
            body,
        ),
        state.send_step(channel, body, Event::Written(written)) == (
            state,
            match written {
                Ok(_) => Next::Return(Ok::<usize, WrapperError<E>>((body.len() + 4) as usize)),
                Err(error) => Next::Return(Err(WrapperError::CommError(error))),
            },
        ),
{
}

/// An exchange asks for the write of the packet that it has put up. The result is
/// the length of the response, or the error of the link.
pub proof fn law_exchanging<E>(
    state: HubState,
    channel: u8,
    body: Seq<u8>,
    exchanged: Result<usize, E>,
)
    requires
        state.sized(),
        channel < 6,
        body.len() <= 252,
    ensures
        state.exchange_step(channel, body, Event::<E>::Start).1 == Next::<
            Result<usize, WrapperError<E>>,
        >::Do(Action::Exchange((body.len() + 4) as usize)),
        state.sequence_numbers[channel as int] < 255 ==> packet_is_put_up(
            state,
            state.exchange_step(channel, body, Event::<E>::Start).0,
            channel,
            body,
        ),
        state.exchange_step(channel, body, Event::Exchanged(exchanged)) == (
            state,
            match exchanged {
                Ok(response_len) => Next::Return(Ok::<usize, WrapperError<E>>(response_len)),
                Err(error) => Next::Return(Err(WrapperError::CommError(error))),
            },
        ),
{
}

/// The packet that asks for a report names it, and carries the interval as
/// microseconds in four little-endian bytes. All other bytes behind the header
/// are zero.
pub proof fn law_report_is_asked_for<E>(state: HubState, report_id: u8, millis: u16)
    requires
        state.sized(),
        state.sequence_numbers[2] < 255,
    ensures
        ({
            let (after, next) = state.enable_report_step(report_id, millis, Event::<E>::Start);
            let sent = after.send_buf;
            &&& next == Next::<Result<(), WrapperError<E>>>::Do(Action::Write(21))
            &&& sent.len() == 256
            &&& sent[0] == 21 && sent[1] == 0 && sent[2] == 2
            &&& sent[3] == state.sequence_numbers[2]
            &&& sent[4] == 0xFD && sent[5] == report_id
            &&& sent[6] == 0 && sent[7] == 0 && sent[8] == 0
            &&& sent[9] + 0x100 * sent[10] + 0x1_0000 * sent[11] + 0x100_0000 * sent[12] == 1000
                * millis
            &&& forall|i: int| 13 <= i < 21 ==> #[trigger] sent[i] == 0
            &&& forall|i: int| 21 <= i < 256 ==> #[trigger] sent[i] == state.send_buf[i]
            &&& after.sequence_numbers.len() == 6
            &&& after.sequence_numbers[2] == state.sequence_numbers[2] + 1
            &&& forall|i: int|
                0 <= i < 6 && i != 2 ==> #[trigger] after.sequence_numbers[i]
                    == state.sequence_numbers[i]
            &&& after == HubState {
                sequence_numbers: after.sequence_numbers,
                send_buf: after.send_buf,
                ..state
            }
        }),
{
    let body = protocol::set_feature_command_body(report_id, millis);
    let sent = state.enable_report_step(report_id, millis, Event::<E>::Start).0.send_buf;
    assert forall|i: int| 4 <= i < 21 implies #[trigger] sent[i] == body[i - 4] by {}
    assert(sent[9] == body[5] && sent[10] == body[6] && sent[11] == body[7] && sent[12] == body[8]);
}

/// Asking for the rotation vector is asking for report 5: that is the report that
/// [`law_last_rotation_is_held`] speaks of.
pub proof fn law_rotation_vector_is_asked_for<E>(state: HubState, millis: u16, event: Event<E>)
    requires
        event is Start || event is Written,
    ensures
        state.enable_rotation_step(millis, event) == state.enable_report_step(5, millis, event),
{
}

/// Asking for a report ends with the write: with nothing, or with the error of
/// the link.
pub proof fn law_report_request_ends_with_the_write<E>(
    state: HubState,
    report_id: u8,
    millis: u16,
    written: Result<(), E>,
)
    ensures
        state.enable_report_step(report_id, millis, Event::Written(written)) == (
            state,
            match written {
                Ok(_) => Next::Return(Ok::<(), WrapperError<E>>(())),
                Err(error) => Next::Return(Err(WrapperError::CommError(error))),
            },
        ),
{
}

/// Resetting exchanges the packet of channel 1 whose body is the byte 1. It ends
/// with the exchange, whatever the response is.
pub proof fn law_resetting<E>(state: HubState, exchanged: Result<usize, E>)
    requires
        state.sized(),
    ensures
        state.soft_reset_step(Event::<E>::Start).1 == Next::<Result<(), WrapperError<E>>>::Do(
            Action::Exchange(5),
        ),
        state.sequence_numbers[1] < 255 ==> packet_is_put_up(
            state,
            state.soft_reset_step(Event::<E>::Start).0,
            1,
            seq![1u8],
        ),
        state.soft_reset_step(Event::Exchanged(exchanged)) == (
            state,
            match exchanged {
                Ok(_) => Next::Return(Ok::<(), WrapperError<E>>(())),
                Err(error) => Next::Return(Err(WrapperError::CommError(error))),
            },
        ),
{
}

/// Asking for the product ID exchanges the packet of channel 2 whose body is
/// 0xF9 and zero.
pub proof fn law_product_id_is_asked_for<E>(state: HubState)
    requires
        state.sized(),
        state.sequence_numbers[2] < 255,
    ensures
        state.verify_product_id_step(Event::<E>::Start).1 == Next::<
            Result<(), WrapperError<E>>,
        >::Do(Action::Exchange(6)),
        packet_is_put_up(
            state,
            state.verify_product_id_step(Event::<E>::Start).0,
            2,
            seq![0xF9u8, 0u8],
        ),
{
}

/// The response to the product ID request is handled like any other packet if it
/// has a body, and not looked at otherwise. The product ID is accepted if it came
/// before, or if the response comes on channel 2 and begins with 0xF8 behind the
/// header.
pub proof fn law_product_id_response<E>(state: HubState, exchanged: Result<usize, E>)
    requires
        state.sized(),
        exchanged matches Ok(response_len) ==> response_len <= 1024,
    ensures
        state.verify_product_id_step(Event::Exchanged(exchanged)) == (match exchanged {
            Ok(response_len) => (
                if response_len > 4 {
                    state.handled(response_len)
                } else {
                    state
                },
                if state.prod_id_verified || (response_len > 4 && state.recv_buf[2] == 2
                    && state.recv_buf[4] == 0xF8) {
                    Next::Return(Ok::<(), WrapperError<E>>(()))
                } else {
                    Next::Return(Err(WrapperError::InvalidChipId(0)))
                },
            ),
            Err(error) => (state, Next::Return(Err(WrapperError::CommError(error)))),
        }),
{
}

/// `after` is `before` with the first two bytes of the receive buffer at zero.
pub open spec fn length_field_is_cleared(before: HubState, after: HubState) -> bool {
    &&& after == HubState { recv_buf: after.recv_buf, ..before }
    &&& after.recv_buf.len() == before.recv_buf.len()
    &&& after.recv_buf[0] == 0
    &&& after.recv_buf[1] == 0
    &&& forall|i: int|
        2 <= i < before.recv_buf.len() ==> #[trigger] after.recv_buf[i] == before.recv_buf[i]
}

/// Every operation that receives begins by asking for a read, with the length
/// field of the receive buffer cleared; and so does every further round of one
/// that goes on until no message is left.
pub proof fn law_receiving_begins_with_a_read<E>(state: HubState)
    requires
        state.sized(),
    ensures
        length_field_is_cleared(state, state.receive_step(Event::<E>::Start).0),
        length_field_is_cleared(state, state.handle_one_step(Event::<E>::Start).0),
        length_field_is_cleared(state, state.eat_one_step(Event::<E>::Start).0),
        length_field_is_cleared(state, state.handle_all_step(Event::<E>::Start).0),
        length_field_is_cleared(state, state.handle_all_step(Event::<E>::Delayed).0),
        length_field_is_cleared(state, state.eat_all_step(Event::<E>::Start).0),
        length_field_is_cleared(state, state.eat_all_step(Event::<E>::Delayed).0),
        state.receive_step(Event::<E>::Start).1 == Next::<Result<usize, WrapperError<E>>>::Do(
            Action::Read,
        ),
        state.handle_one_step(Event::<E>::Start).1 == Next::<u32>::Do(Action::Read),
        state.eat_one_step(Event::<E>::Start).1 == Next::<usize>::Do(Action::Read),
        state.handle_all_step(Event::<E>::Start).1 == Next::<()>::Do(Action::Read),
        state.handle_all_step(Event::<E>::Delayed).1 == Next::<()>::Do(Action::Read),
        state.eat_all_step(Event::<E>::Start).1 == Next::<()>::Do(Action::Read),
        state.eat_all_step(Event::<E>::Delayed).1 == Next::<()>::Do(Action::Read),
{
}

/// A packet that was read is reported by its length, dropped by its length, or
/// handled and counted, whatever stands in the receive buffer; and an operation
/// that goes on until no message is left then pauses for one millisecond.
pub proof fn law_packet_was_read<E>(state: HubState, packet_len: usize)
    requires
        packet_len > 0,
    ensures
        ({
            let event = Event::<E>::Read(Ok(packet_len));
            let noted = HubState { last_packet_len_received: packet_len, ..state };
            let handled = HubState {
                last_packet_len_received: packet_len,
                ..state.handled(packet_len)
            };
            &&& state.receive_step(event) == (
                noted,
                Next::Return(Ok::<usize, WrapperError<E>>(packet_len)),
            )
            &&& state.eat_one_step(event) == (noted, Next::Return(packet_len))
            &&& state.eat_all_step(event) == (noted, Next::<()>::Do(Action::Delay(1)))
            &&& state.handle_one_step(event) == (handled, Next::Return(1u32))
            &&& state.handle_all_step(event) == (handled, Next::<()>::Do(Action::Delay(1)))
        }),
{
    assert(state.received_packet(packet_len) == (HubState {
        last_packet_len_received: packet_len,
        ..state
    }).received_packet(packet_len));
}

/// A read that brought no packet sets the length of the last packet to zero, and
/// ends every operation that receives.
pub proof fn law_nothing_was_read<E>(state: HubState)
    ensures
        ({
            let event = Event::<E>::Read(Ok(0));
            let noted = HubState { last_packet_len_received: 0, ..state };
            &&& state.receive_step(event) == (
                noted,
                Next::Return(Ok::<usize, WrapperError<E>>(0)),
            )
            &&& state.eat_one_step(event) == (noted, Next::Return(0usize))
            &&& state.eat_all_step(event) == (noted, Next::Return(()))
            &&& state.handle_one_step(event) == (noted, Next::Return(0u32))
            &&& state.handle_all_step(event) == (noted, Next::Return(()))
        }),
{
}

/// A read that failed changes nothing, and ends every operation that receives.
/// Only receiving a packet reports the error.
pub proof fn law_read_failed<E>(state: HubState, error: E)
    ensures
        ({
            let event = Event::Read(Err(error));
            &&& state.receive_step(event) == (
                state,
                Next::Return(Err::<usize, WrapperError<E>>(WrapperError::CommError(error))),
            )
            &&& state.eat_one_step(event) == (state, Next::Return(0usize))
            &&& state.eat_all_step(event) == (state, Next::Return(()))
            &&& state.handle_one_step(event) == (state, Next::Return(0u32))
            &&& state.handle_all_step(event) == (state, Next::Return(()))
        }),
{
}

/// What handling a packet does to everything but the rotation vector, by the
/// channel in byte 2 and the report ID in byte 4.
pub proof fn law_handling_by_channel(state: HubState, received_len: usize)
    requires
        state.sized(),
        3 <= received_len <= 1024,
    ensures
        ({
            let after = state.handled(received_len);
            let bytes = state.recv_buf;
            let channel = bytes[2];
            let report_id: u8 = if received_len > 4 {
                bytes[4]
            } else {
                0
            };
            &&& after.sequence_numbers == state.sequence_numbers
            &&& after.send_buf == state.send_buf
            &&& after.recv_buf == state.recv_buf
            &&& after.last_packet_len_received == state.last_packet_len_received
            &&& after.last_chan_received == channel
            &&& after.advert_received == (state.advert_received || (channel == 0 && report_id
                == 0))
            &&& after.error_list_received == (state.error_list_received || (channel == 0
                && report_id == 1))
            &&& after.last_error_received == if channel == 0 && report_id == 1 && received_len
                > 5 {
                bytes[received_len - 1]
            } else {
                state.last_error_received
            }
            &&& after.last_command_chan_rid == if channel == 0 && report_id > 1 {
                report_id
            } else {
                state.last_command_chan_rid
            }
            &&& after.device_reset == (state.device_reset || (channel == 1 && report_id == 1))
            &&& after.last_exec_chan_rid == if channel == 1 && report_id != 1 {
                report_id
            } else {
                state.last_exec_chan_rid
            }
            &&& received_len > 6 || channel != 2 || report_id != 0xF1 ==> after.init_received == (
            state.init_received || (channel == 2 && report_id == 0xF1 && (bytes[6] == 0x84
                || bytes[6] == 1)))
            &&& after.prod_id_verified == (state.prod_id_verified || (channel == 2 && report_id
                == 0xF8))
            &&& after.last_control_chan_rid == if channel == 2 && report_id != 0xF1 && report_id
                != 0xF8 {
                report_id
            } else {
                state.last_control_chan_rid
            }
            &&& channel != 3 ==> after.rotation_quaternion == state.rotation_quaternion
            &&& channel != 3 ==> after.rot_quaternion_acc == state.rot_quaternion_acc
        }),
{
}

/// Whether the signed 16-bit number stands little-endian at this offset.
pub open spec fn number_at(bytes: Seq<u8>, offset: int, value: i16) -> bool {
    (bytes[offset] + 256 * bytes[offset + 1] - value) % 0x1_0000 == 0
}

/// Two bytes give the only signed 16-bit number that agrees with them modulo
/// 65536.
pub proof fn law_number_is_read(lo: u8, hi: u8)
    ensures
        (lo + 256 * hi - protocol::le_i16(lo, hi)) % 0x1_0000 == 0,
{
}

/// What is read of one input report: the ID at its start, and its values from the
/// fifth byte on, two bytes each. The fourth and fifth value need more than 14
/// and 16 bytes to be left, and are zero otherwise.
pub proof fn law_input_report_is_read(msg: Seq<u8>, start: int)
    requires
        0 <= start,
        msg.len() - start >= 10,
    ensures
        ({
            let report = protocol::input_report(msg, start);
            let left = msg.len() - start;
            &&& report.report_id == msg[start]
            &&& number_at(msg, start + 4, report.data1)
            &&& number_at(msg, start + 6, report.data2)
            &&& number_at(msg, start + 8, report.data3)
            &&& left > 14 ==> number_at(msg, start + 10, report.data4)
            &&& left <= 14 ==> report.data4 == 0
            &&& left > 16 ==> number_at(msg, start + 12, report.data5)
            &&& left <= 16 ==> report.data5 == 0
            &&& report.end == if left > 16 {
                start + 14
            } else if left > 14 {
                start + 12
            } else {
                start + 10
            }
        }),
{
}

/// `after` holds the rotation vector that begins at `start` in a packet of
/// `len` bytes.
pub open spec fn rotation_is_held(after: HubState, bytes: Seq<u8>, len: int, start: int) -> bool {
    let q = after.rotation_quaternion;
    &&& q.len() == 4
    &&& number_at(bytes, start + 4, q[0])
    &&& number_at(bytes, start + 6, q[1])
    &&& number_at(bytes, start + 8, q[2])
    &&& len - start > 14 ==> number_at(bytes, start + 10, q[3])
    &&& len - start <= 14 ==> q[3] == 0
    &&& after.rot_quaternion_acc == 8192
}

/// Whether `start` is where the last rotation vector begins that a packet of
/// `len` bytes brings: reports begin at every fourteenth byte from byte 9 on, as
/// long as more than nine bytes are left.
pub open spec fn last_rotation_begins_at(bytes: Seq<u8>, len: int, start: int) -> bool {
    &&& 9 <= start < len - 9
    &&& (start - 9) % 14 == 0
    &&& bytes[start] == 5
    &&& forall|k: int| start < k < len - 9 && (k - 9) % 14 == 0 ==> #[trigger] bytes[k] != 5
}

/// All reports of a packet are read: the last rotation vector among them is the
/// one that is held, and that is read from then on.
pub proof fn law_last_rotation_is_held(state: HubState, received_len: usize, start: int)
    requires
        state.sized(),
        received_len <= 1024,
        state.recv_buf[2] == 3,
        last_rotation_begins_at(state.recv_buf, received_len as int, start),
    ensures
        rotation_is_held(
            state.handled(received_len),
            state.recv_buf,
            received_len as int,
            start,
        ),
        state.handled(received_len).current_quaternion() == state.handled(
            received_len,
        ).rotation_quaternion,
{
    let packet = state.received_packet(received_len);
    let i = (start - 9) / 14;
    let count = protocol::report_count(received_len as int);
    assert(protocol::report_start(i) == start);
    assert forall|j: int| i < j < count implies packet[#[trigger] protocol::report_start(j)] != 5 by {
        let k = protocol::report_start(j);
        assert(start < k < received_len - 9 && (k - 9) % 14 == 0);
        assert(packet[k] == state.recv_buf[k]);
    }
    laws::lemma_latest_rotation(packet, count, i);
    law_input_report_is_read(packet, start);
    assert(packet[start + 4] == state.recv_buf[start + 4]);
    assert(packet[start + 5] == state.recv_buf[start + 5]);
    assert(packet[start + 6] == state.recv_buf[start + 6]);
    assert(packet[start + 7] == state.recv_buf[start + 7]);
    assert(packet[start + 8] == state.recv_buf[start + 8]);
    assert(packet[start + 9] == state.recv_buf[start + 9]);
    if received_len - start > 14 {
        assert(packet[start + 10] == state.recv_buf[start + 10]);
        assert(packet[start + 11] == state.recv_buf[start + 11]);
    }
}

proof fn lemma_no_rotation(packet: Seq<u8>, n: int)
    requires
        forall|j: int| 0 <= j < n ==> packet[#[trigger] protocol::report_start(j)] != 5,
    ensures
        protocol::latest_rotation(packet, n) is None,
    decreases n,
{
    if n > 0 {
        assert(packet[protocol::report_start(n - 1)] != 5);
        lemma_no_rotation(packet, n - 1);
    }
}

/// A packet without a rotation vector keeps the one that is held.
pub proof fn law_no_rotation_keeps_the_old_one(state: HubState, received_len: usize)
    requires
        state.sized(),
        9 <= received_len <= 1024,
        state.recv_buf[2] == 3,
        forall|k: int|
            9 <= k < received_len - 9 && (k - 9) % 14 == 0 ==> #[trigger] state.recv_buf[k] != 5,
    ensures
        state.handled(received_len).rotation_quaternion == state.rotation_quaternion,
        state.handled(received_len).rot_quaternion_acc == state.rot_quaternion_acc,
{
    let packet = state.received_packet(received_len);
    let count = protocol::report_count(received_len as int);
    assert forall|j: int| 0 <= j < count implies packet[#[trigger] protocol::report_start(j)]
        != 5 by {
        let k = protocol::report_start(j);
        assert(9 <= k < received_len - 9 && (k - 9) % 14 == 0);
        assert(packet[k] == state.recv_buf[k]);
    }
    lemma_no_rotation(packet, count);
}

/// A rotation vector that is received while messages are handled, one or all, is
/// held afterwards; one that is received while messages are dropped is not.
pub proof fn law_rotation_arrives<E>(state: HubState, received_len: usize, start: int)
    requires
        state.sized(),
        received_len <= 1024,
        state.recv_buf[2] == 3,
        last_rotation_begins_at(state.recv_buf, received_len as int, start),
    ensures
        ({
            let event = Event::<E>::Read(Ok(received_len));
            let bytes = state.recv_buf;
            let len = received_len as int;
            &&& rotation_is_held(state.handle_one_step(event).0, bytes, len, start)
            &&& rotation_is_held(state.handle_all_step(event).0, bytes, len, start)
            &&& state.handle_one_step(event).0.last_chan_received == 3
            &&& state.handle_all_step(event).0.last_chan_received == 3
            &&& state.eat_one_step(event).0.rotation_quaternion == state.rotation_quaternion
            &&& state.eat_all_step(event).0.rotation_quaternion == state.rotation_quaternion
        }),
{
    law_last_rotation_is_held(state, received_len, start);
    law_packet_was_read::<E>(state, received_len);
}

/// What is read as the quaternion: the four components held, once a rotation
/// vector has set the accuracy; before that (0, 0, 0, 1).
pub proof fn law_quaternion_is_read(state: HubState)
    ensures
        state.rot_quaternion_acc != 0 ==> state.current_quaternion() == state.rotation_quaternion,
        state.rot_quaternion_acc == 0 ==> state.current_quaternion() == seq![
            0i16,
            0i16,
            0i16,
            16384i16,
        ],
{
}

/// Whether a walk over the advertisement entries of a packet goes through these
/// places behind the header: from the second byte on, each entry takes a tag, a
/// length, and that many bytes.
pub open spec fn entries_walk(bytes: Seq<u8>, places: Seq<int>, first: int, last: int) -> bool {
    &&& places.len() > 0
    &&& places[0] == first
    &&& places[places.len() - 1] == last
    &&& forall|j: int| 0 <= j < places.len() ==> first <= #[trigger] places[j] <= last
    &&& forall|j: int, k: int|
        0 <= j < k < places.len() && k == j + 1 ==> #[trigger] places[k] == #[trigger] places[j]
            + 2 + bytes[places[j] + 5]
}

/// Whether there is such a walk from the second byte behind the header to `last`.
pub open spec fn some_entries_walk(bytes: Seq<u8>, last: int) -> bool {
    exists|places: Seq<int>| entries_walk(bytes, places, 1, last)
}

proof fn lemma_incomplete_has_a_walk(bytes: Seq<u8>, len: int, cursor: int) -> (places: Seq<int>)
    requires
        4 <= len <= bytes.len(),
        1 <= cursor,
        !protocol::entries_complete(bytes.take(len).skip(4), cursor),
    ensures
        entries_walk(bytes, places, cursor, len - 5),
    decreases len - cursor,
{
    let payload = bytes.take(len).skip(4);
    if cursor + 1 >= payload.len() {
        seq![cursor]
    } else {
        assert(payload[cursor + 1] == bytes[cursor + 5]);
        let next = cursor + 2 + payload[cursor + 1];
        assert(!protocol::entries_complete(payload, next));
        assert(next < payload.len());
        let rest = lemma_incomplete_has_a_walk(bytes, len, next);
        let places = seq![cursor] + rest;
        assert forall|j: int| 0 <= j < places.len() implies cursor <= #[trigger] places[j] <= len
            - 5 by {
            if j > 0 {
                assert(places[j] == rest[j - 1]);
            } else {
                assert(rest[0] <= len - 5);
            }
        }
        assert forall|j: int, k: int| 0 <= j < k < places.len() && k == j + 1 implies #[trigger] places[k]
            == #[trigger] places[j] + 2 + bytes[places[j] + 5] by {
            assert(places[k] == rest[k - 1]);
            if j > 0 {
                assert(places[j] == rest[j - 1]);
            }
        }
        assert(places[places.len() - 1] == rest[rest.len() - 1]);
        places
    }
}

proof fn lemma_walk_is_incomplete(bytes: Seq<u8>, len: int, places: Seq<int>, cursor: int)
    requires
        4 <= len <= bytes.len(),
        1 <= cursor,
        entries_walk(bytes, places, cursor, len - 5),
    ensures
        !protocol::entries_complete(bytes.take(len).skip(4), cursor),
    decreases places.len(),
{
    let payload = bytes.take(len).skip(4);
    assert(places[0] <= len - 5);
    if places.len() > 1 {
        let rest = places.skip(1);
        assert(places[1] == places[0] + 2 + bytes[places[0] + 5]);
        assert(places[1] <= len - 5);
        assert(payload[cursor + 1] == bytes[cursor + 5]);
        assert forall|j: int| 0 <= j < rest.len() implies places[1] <= #[trigger] rest[j] <= len
            - 5 by {
            assert(rest[j] == places[j + 1]);
            lemma_walk_goes_up(bytes, places, cursor, len - 5, 1, j + 1);
        }
        assert forall|j: int, k: int| 0 <= j < k < rest.len() && k == j + 1 implies #[trigger] rest[k]
            == #[trigger] rest[j] + 2 + bytes[rest[j] + 5] by {
            assert(rest[k] == places[k + 1]);
            assert(rest[j] == places[j + 1]);
        }
        lemma_walk_is_incomplete(bytes, len, rest, places[1]);
    }
}

proof fn lemma_walk_goes_up(
    bytes: Seq<u8>,
    places: Seq<int>,
    first: int,
    last: int,
    j: int,
    k: int,
)
    requires
        entries_walk(bytes, places, first, last),
        1 <= first,
        last + 5 <= bytes.len(),
        0 <= j <= k < places.len(),
    ensures
        places[j] <= places[k],
    decreases k - j,
{
    if j < k {
        lemma_walk_goes_up(bytes, places, first, last, j, k - 1);
        assert(places[k] == places[k - 1] + 2 + bytes[places[k - 1] + 5]);
        assert(places[k] <= last);
    }
}

/// Exactly these packets can be handled: at most 1024 bytes; the channel byte;
/// seven bytes for a command response on channel 2; the header and the timestamp
/// for reports on channel 3; and for an advertisement the header, and no walk over
/// its entries that ends on a tag in the last byte, with no length behind it.
pub proof fn law_when_a_packet_can_be_handled(state: HubState, received_len: usize)
    requires
        state.sized(),
    ensures
        ({
            let bytes = state.recv_buf;
            let report_id: u8 = if received_len > 4 {
                bytes[4]
            } else {
                0
            };
            state.can_handle(received_len) == {
                &&& 3 <= received_len <= 1024
                &&& bytes[2] == 0 && report_id == 0 ==> received_len >= 4 && !some_entries_walk(
                    bytes,
                    received_len - 5,
                )
                &&& bytes[2] == 2 && report_id == 0xF1 ==> received_len >= 7
                &&& bytes[2] == 3 ==> received_len >= 9
            }
        }),
{
    let bytes = state.recv_buf;
    let len = received_len as int;
    if 4 <= len <= 1024 {
        if !protocol::entries_complete(bytes.take(len).skip(4), 1) {
            let places = lemma_incomplete_has_a_walk(bytes, len, 1);
            assert(entries_walk(bytes, places, 1, len - 5));
        } else if some_entries_walk(bytes, len - 5) {
            let last = len - 5;
            let places = choose|places: Seq<int>| entries_walk(bytes, places, 1, last);
            lemma_walk_is_incomplete(bytes, len, places, 1);
        }
    }
}

/// Handling messages needs packets that can be handled, and nothing else of what
/// the link reports; the response to the product ID request needs it only if it
/// has a body.
pub proof fn law_what_must_be_handled<E>(state: HubState, len: usize, event: Event<E>)
    ensures
        state.can_take_packet(Event::<E>::Read(Ok(len))) == (len == 0 || state.can_handle(len)),
        !(event matches Event::Read(Ok(_))) ==> state.can_take_packet(event),
        state.can_take_response(Event::<E>::Exchanged(Ok(len))) == (len <= 4 || state.can_handle(
            len,
        )),
        !(event matches Event::Exchanged(Ok(_))) ==> state.can_take_response(event),
{
}

/// How many of the reads so far have brought no packet.
pub open spec fn empty_reads<E>(observed: Seq<Observed<E>>) -> int
    decreases observed.len(),
{
    if observed.len() == 0 {
        0
    } else {
        empty_reads(observed.drop_last()) + match observed.last().event {
            Event::Read(Ok(packet_len)) => if packet_len == 0 {
                1int
            } else {
                0
            },
            Event::Read(Err(_)) => 1,
            _ => 0,
        }
    }
}

spec fn init_phase_fits<E>(observed: Seq<Observed<E>>, phase: InitPhase) -> bool {
    match phase {
        InitPhase::SettingUp => observed.len() == 0,
        InitPhase::Settling => observed.len() == 1,
        InitPhase::Resetting => observed.len() == 2,
        InitPhase::FirstWait => observed.len() == 3,
        InitPhase::FirstDrain => observed.len() >= 4 && empty_reads(observed) == 0,
        InitPhase::SecondWait => observed.len() > 4 && empty_reads(observed) == 1,
        InitPhase::SecondDrain => observed.len() > 4 && empty_reads(observed) == 1,
        InitPhase::Verifying => observed.len() > 4 && empty_reads(observed) == 2,
    }
}

proof fn lemma_init_phase_fits<E>(state: HubState, observed: Seq<Observed<E>>)
    requires
        laws::init_served(state, observed),
    ensures
        ({
            let (after, phase, next) = laws::init_after(state, observed);
            &&& next is Do ==> init_phase_fits(observed, phase)
            &&& observed.len() < 4 ==> empty_reads(observed) == 0
            &&& next matches Next::Do(action) ==> laws::init_action_fits(phase, action)
        }),
    decreases observed.len(),
{
    if observed.len() > 0 {
        lemma_init_phase_fits(state, observed.drop_last());
    }
}

/// The course of an initialization, by what the link has done so far: it asks for
/// the setup, a delay of 1 ms, the exchange of the reset command and a delay of
/// 50 ms; then it reads, with a pause of 1 ms behind each packet, until a read
/// brings none; after a delay of 100 ms it does so again; and then it exchanges
/// the product ID request. An error of the setup or of an exchange ends it, an
/// error of a read does not. The response decides: it has to be a product ID
/// response, unless the product ID was known before.
pub proof fn law_init_course<E>(state: HubState, observed: Seq<Observed<E>>)
    requires
        state.sized(),
        laws::init_served(state, observed),
        observed.len() > 4 ==> (observed.last().event matches Event::Exchanged(Ok(response_len))
            ==> response_len <= 1024),
    ensures
        ({
            let next = laws::init_after(state, observed).2;
            let n = observed.len();
            &&& n == 0 ==> next == Next::<Result<(), WrapperError<E>>>::Do(Action::Setup)
            &&& n == 1 ==> next == match observed[0].event {
                Event::SetUp(Err(error)) => Next::Return(
                    Err::<(), WrapperError<E>>(WrapperError::CommError(error)),
                ),
                _ => Next::Do(Action::Delay(1)),
            }
            &&& n == 2 ==> next == Next::<Result<(), WrapperError<E>>>::Do(Action::Exchange(5))
            &&& n == 3 ==> next == match observed[2].event {
                Event::Exchanged(Err(error)) => Next::Return(
                    Err::<(), WrapperError<E>>(WrapperError::CommError(error)),
                ),
                _ => Next::Do(Action::Delay(50)),
            }
            &&& n > 3 ==> next == match observed.last().event {
                Event::Read(Ok(packet_len)) => if packet_len > 0 {
                    Next::Do(Action::Delay(1))
                } else if empty_reads(observed) == 1 {
                    Next::Do(Action::Delay(100))
                } else {
                    Next::Do(Action::Exchange(6))
                },
                Event::Read(Err(_)) => if empty_reads(observed) == 1 {
                    Next::Do(Action::Delay(100))
                } else {
                    Next::Do(Action::Exchange(6))
                },
                Event::Exchanged(Err(error)) => Next::Return(
                    Err::<(), WrapperError<E>>(WrapperError::CommError(error)),
                ),
                Event::Exchanged(Ok(response_len)) => if state.prod_id_verified || (response_len
                    > 4 && observed.last().recv_buf[2] == 2 && observed.last().recv_buf[4]
                    == 0xF8) {
                    Next::Return(Ok(()))
                } else {
                    Next::Return(Err(WrapperError::InvalidChipId(0)))
                },
                _ => Next::Do(Action::Read),
            }
        }),
{
    lemma_init_phase_fits(state, observed);
    if observed.len() > 0 {
        let earlier = observed.drop_last();
        lemma_init_phase_fits(state, earlier);
        laws::lemma_init_invariant(state, earlier);
        assert(observed.last() == observed[observed.len() - 1]);
    }
}

/// An initialization that succeeds without the product ID known before has had
/// a product ID response: the last thing the link did was an exchange that left a
/// packet of more than four bytes in the receive buffer, with channel 2 in byte 2
/// and 0xF8 in byte 4. Any other response is refused.
pub proof fn law_init_needs_the_product_id<E>(
    state: HubState,
    observed: Seq<Observed<E>>,
    response_len: usize,
)
    requires
        state.sized(),
        !state.prod_id_verified,
        laws::init_served(state, observed),
        observed.len() > 4,
        response_len <= 1024,
        observed.last().event == Event::<E>::Exchanged(Ok(response_len)),
    ensures
        ({
            let bytes = observed.last().recv_buf;
            let given = response_len > 4 && bytes[2] == 2 && bytes[4] == 0xF8;
            &&& laws::init_after(state, observed).2 == if given {
                Next::Return(Ok::<(), WrapperError<E>>(()))
            } else {
                Next::Return(Err(WrapperError::InvalidChipId(0)))
            }
            &&& laws::init_after(state, observed).0.prod_id_verified == given
        }),
{
    law_init_course(state, observed);
    laws::lemma_init_invariant(state, observed);
}

/// An initialization succeeds only on the response to the product ID request.
pub proof fn law_init_succeeds_on_a_response<E>(state: HubState, observed: Seq<Observed<E>>)
    requires
        state.sized(),
        laws::init_served(state, observed),
        laws::init_after(state, observed).2 matches Next::Return(Ok(_)),
    ensures
        observed.len() > 4,
        observed.last().event matches Event::Exchanged(Ok(_)),
        empty_reads(observed) == 2,
{
    lemma_init_phase_fits(state, observed);
    if observed.len() > 0 {
        lemma_init_phase_fits(state, observed.drop_last());
    }
}

/// What one event of an initialization changes. The two packets that it exchanges
/// are put up when it asks for the exchange: on channel 1 the byte 1, on channel 2
/// the bytes 0xF9 and zero. The length field of the receive buffer is cleared when
/// it asks for a read. A read that did not fail sets the length of the last packet.
/// The last response is handled if it has a body. Nothing else changes.
pub proof fn law_init_changes<E>(state: HubState, observed: Seq<Observed<E>>)
    requires
        state.sized(),
        laws::init_served(state, observed),
        observed.len() > 0,
    ensures
        ({
            let before = HubState {
                recv_buf: observed.last().recv_buf,
                ..laws::init_after(state, observed.drop_last()).0
            };
            let (after, _, next) = laws::init_after(state, observed);
            match next {
                Next::Do(Action::Exchange(packet_length)) => {
                    let noted = HubState {
                        last_packet_len_received: after.last_packet_len_received,
                        ..before
                    };
                    &&& after.last_packet_len_received == match observed.last().event {
                        Event::Read(Ok(packet_len)) => packet_len,
                        _ => before.last_packet_len_received,
                    }
                    &&& packet_length == 5 && before.sequence_numbers[1] < 255 ==> packet_is_put_up(
                        noted,
                        after,
                        1,
                        seq![1u8],
                    )
                    &&& packet_length != 5 && before.sequence_numbers[2] < 255 ==> packet_is_put_up(
                        noted,
                        after,
                        2,
                        seq![0xF9u8, 0u8],
                    )
                },
                Next::Do(Action::Read) => length_field_is_cleared(before, after),
                Next::Do(_) => after == match observed.last().event {
                    Event::Read(Ok(packet_len)) => HubState {
                        last_packet_len_received: packet_len,
                        ..before
                    },
                    _ => before,
                },
                Next::Return(_) => after == match observed.last().event {
                    Event::Exchanged(Ok(response_len)) => if response_len > 4 {
                        before.handled(response_len)
                    } else {
                        before
                    },
                    _ => before,
                },
            }
        }),
{
    let earlier = observed.drop_last();
    lemma_init_phase_fits(state, observed);
    lemma_init_phase_fits(state, earlier);
    laws::lemma_init_invariant(state, earlier);
    lemma_init_keeps_the_send_buffer_size(state, earlier);
}

proof fn lemma_init_keeps_the_send_buffer_size<E>(state: HubState, observed: Seq<Observed<E>>)
    requires
        state.sized(),
        laws::init_served(state, observed),
    ensures
        laws::init_after(state, observed).0.send_buf.len() == 256,
        laws::init_after(state, observed).2 is Do ==> laws::init_after(state, observed).0.sized(),
    decreases observed.len(),
{
    laws::lemma_init_invariant(state, observed);
    if observed.len() > 0 {
        lemma_init_keeps_the_send_buffer_size(state, observed.drop_last());
        laws::lemma_init_invariant(state, observed.drop_last());
    }
}

/// An initialization begins by asking for the setup, and changes nothing yet.
pub proof fn law_init_begins<E>(state: HubState)
    ensures
        laws::init_after(state, Seq::<Observed<E>>::empty()).0 == state,
        state.init_step(InitPhase::SettingUp, Event::<E>::Start).2 == Next::<
            Result<(), WrapperError<E>>,
        >::Do(Action::Setup),
{
}

/// An error of the link is reported as a communications error, and a value as it
/// is.
pub proof fn law_link_results<T, E>(outcome: Result<T, E>)
    ensures
        outcome matches Ok(value) ==> step::comm_result(outcome) == Ok::<T, WrapperError<E>>(value),
        outcome matches Err(error) ==> step::comm_result(outcome) == Err::<T, WrapperError<E>>(
            WrapperError::CommError(error),
        ),
{
}

/// The body of the command that asks for a report, byte by byte.
pub proof fn law_set_feature_command(report_id: u8, millis: u16)
    ensures
        ({
            let body = protocol::set_feature_command_body(report_id, millis);
            &&& body.len() == 17
            &&& body[0] == 0xFD && body[1] == report_id
            &&& body[2] == 0 && body[3] == 0 && body[4] == 0
            &&& body[5] + 0x100 * body[6] + 0x1_0000 * body[7] + 0x100_0000 * body[8] == 1000
                * millis
            &&& forall|i: int| 9 <= i < 17 ==> #[trigger] body[i] == 0
        }),
{
}

} // verus!
