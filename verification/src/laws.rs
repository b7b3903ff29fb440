//! What holds of the driver as a whole.

use crate::driver::BNO080;
use crate::error::WrapperError;
use crate::model::HubState;
use crate::protocol;
use crate::protocol::{
    InputReport, CHANNEL_EXECUTABLE, CHANNEL_HUB_CONTROL, CHANNEL_SENSOR_REPORTS, NUM_CHANNELS,
    PACKET_HEADER_LENGTH, PACKET_RECV_BUF_LEN, PACKET_SEND_BUF_LEN, Q14_ONE, ROTATION_ACCURACY_Q12,
    SENSORHUB_PROD_ID_RESP, SENSOR_REPORTID_ROTATION_VECTOR,
};
use crate::step;
use crate::step::{Action, Event, InitPhase, Next};
use vstd::prelude::*;

verus! {

/// The buffers and tables of every driver have their sizes.
pub proof fn law_every_driver_is_sized<SI>(driver: BNO080<SI>)
    ensures
        driver@.sized(),
{
}

/// The two little-endian bytes of a signed 16-bit number.
pub open spec fn le_bytes(value: i16) -> Seq<u8> {
    let unsigned: int = if value < 0 {
        value + 0x1_0000
    } else {
        value as int
    };
    seq![(unsigned % 0x100) as u8, (unsigned / 0x100) as u8]
}

/// Reading the bytes of a number gives the number back.
pub proof fn law_number_round_trip(value: i16)
    ensures
        protocol::le_i16(le_bytes(value)[0], le_bytes(value)[1]) == value,
{
}

/// A prepared packet stands at the front of the send buffer. Its length field
/// gives its length, the next two bytes its channel and sequence number, and the
/// rest is the body.
pub proof fn law_prepared_packet_decodes(state: HubState, channel: u8, body: Seq<u8>)
    requires
        state.sized(),
        state.can_send(channel, body),
    ensures
        ({
            let buf = state.prepared(channel, body).send_buf;
            let packet_length = buf[0] + 0x100 * buf[1];
            &&& packet_length == body.len() + PACKET_HEADER_LENGTH
            &&& buf.take(packet_length) == state.next_packet(channel, body)
            &&& buf[2] == channel
            &&& buf[3] == state.sequence_numbers[channel as int]
            &&& buf.subrange(PACKET_HEADER_LENGTH as int, packet_length) == body
        }),
{
    let buf = state.prepared(channel, body).send_buf;
    let packet_length = body.len() + PACKET_HEADER_LENGTH;
    assert(buf.take(packet_length) =~= state.next_packet(channel, body));
    assert(buf.subrange(PACKET_HEADER_LENGTH as int, packet_length) =~= body);
}

/// The state after sending bodies on channels, one after the other.
pub open spec fn sent_all(state: HubState, sends: Seq<(u8, Seq<u8>)>) -> HubState
    decreases sends.len(),
{
    if sends.len() == 0 {
        state
    } else {
        sent_all(state, sends.drop_last()).prepared(sends.last().0, sends.last().1)
    }
}

/// How many of the sends are on this channel.
pub open spec fn sends_on(sends: Seq<(u8, Seq<u8>)>, channel: int) -> int
    decreases sends.len(),
{
    if sends.len() == 0 {
        0
    } else {
        sends_on(sends.drop_last(), channel) + if sends.last().0 == channel {
            1int
        } else {
            0
        }
    }
}

/// Every channel counts its own packets: whatever is sent, the sequence number
/// of a channel moves on by the number of packets sent on it.
pub proof fn law_channels_count_their_packets(
    state: HubState,
    sends: Seq<(u8, Seq<u8>)>,
    channel: int,
)
    requires
        state.sized(),
        0 <= channel < NUM_CHANNELS,
        forall|i: int|
            #![trigger sends[i]]
            0 <= i < sends.len() ==> sends[i].0 < NUM_CHANNELS && sends[i].1.len()
                + PACKET_HEADER_LENGTH <= PACKET_SEND_BUF_LEN,
        state.sequence_numbers[channel] + sends_on(sends, channel) <= u8::MAX,
    ensures
        sent_all(state, sends).sequence_numbers.len() == NUM_CHANNELS,
        sent_all(state, sends).sequence_numbers[channel] == state.sequence_numbers[channel]
            + sends_on(sends, channel),
    decreases sends.len(),
{
    if sends.len() > 0 {
        let earlier = sends.drop_last();
        assert forall|i: int| #![trigger earlier[i]] 0 <= i < earlier.len() implies earlier[i].0
            < NUM_CHANNELS && earlier[i].1.len() + PACKET_HEADER_LENGTH <= PACKET_SEND_BUF_LEN by {
            assert(earlier[i] == sends[i]);
        }
        lemma_sends_on_bounds(earlier, channel);
        law_channels_count_their_packets(state, earlier, channel);
    }
}

/// Every packet carries the number of packets sent before it on its channel,
/// whatever was sent on other channels in between.
pub proof fn law_packet_carries_its_number(
    sends: Seq<(u8, Seq<u8>)>,
    channel: u8,
    body: Seq<u8>,
)
    requires
        channel < NUM_CHANNELS,
        body.len() + PACKET_HEADER_LENGTH <= PACKET_SEND_BUF_LEN,
        forall|i: int|
            #![trigger sends[i]]
            0 <= i < sends.len() ==> sends[i].0 < NUM_CHANNELS && sends[i].1.len()
                + PACKET_HEADER_LENGTH <= PACKET_SEND_BUF_LEN,
        sends_on(sends, channel as int) < u8::MAX,
    ensures
        sent_all(HubState::initial(), sends).prepared(channel, body).send_buf[3] == sends_on(
            sends,
            channel as int,
        ),
{
    law_channels_count_their_packets(HubState::initial(), sends, channel as int);
}

proof fn lemma_sends_on_bounds(sends: Seq<(u8, Seq<u8>)>, channel: int)
    ensures
        0 <= sends_on(sends, channel) <= sends.len(),
    decreases sends.len(),
{
    if sends.len() > 0 {
        lemma_sends_on_bounds(sends.drop_last(), channel);
    }
}

/// The interval of a report command, read back from its four bytes, is the
/// requested number of milliseconds in microseconds.
pub proof fn law_report_interval(report_id: u8, millis: u16)
    ensures
        ({
            let body = protocol::set_feature_command_body(report_id, millis);
            protocol::le_u32(body[5], body[6], body[7], body[8]) == 1000 * millis
        }),
{
}

/// Sending leaves alone all that receiving has brought.
pub proof fn law_sending_keeps_what_was_received(state: HubState, channel: u8, body: Seq<u8>)
    ensures
        state.prepared(channel, body) == (HubState {
            sequence_numbers: state.prepared(channel, body).sequence_numbers,
            send_buf: state.prepared(channel, body).send_buf,
            ..state
        }),
{
}

/// Handling a packet leaves alone the sequence numbers, both buffers and the
/// length of the last packet received.
pub proof fn law_handling_keeps_the_link_state(state: HubState, received_len: usize)
    ensures
        state.handled(received_len).sequence_numbers == state.sequence_numbers,
        state.handled(received_len).send_buf == state.send_buf,
        state.handled(received_len).recv_buf == state.recv_buf,
        state.handled(received_len).last_packet_len_received == state.last_packet_len_received,
{
}

/// Handling a packet notes its channel.
pub proof fn law_handling_notes_the_channel(state: HubState, received_len: usize)
    requires
        state.sized(),
        state.can_handle(received_len),
    ensures
        state.handled(received_len).last_chan_received == state.recv_buf[2],
{
}

/// What has once been seen stays seen: handling a packet clears no flag.
pub proof fn law_flags_stay_set(state: HubState, received_len: usize)
    ensures
        state.device_reset ==> state.handled(received_len).device_reset,
        state.prod_id_verified ==> state.handled(received_len).prod_id_verified,
        state.init_received ==> state.handled(received_len).init_received,
        state.advert_received ==> state.handled(received_len).advert_received,
        state.error_list_received ==> state.handled(received_len).error_list_received,
{
}

/// Handling the same packet a second time changes nothing.
pub proof fn law_handling_is_idempotent(state: HubState, received_len: usize)
    ensures
        state.handled(received_len).handled(received_len) == state.handled(received_len),
{
}

/// Every input report that is read lies within its packet, and begins where the
/// one before it ends.
pub proof fn law_reports_fit(packet: Seq<u8>, i: int)
    requires
        0 <= i < protocol::report_count(packet.len() as int),
    ensures
        protocol::input_report(packet, protocol::report_start(i)).end <= packet.len(),
        i + 1 < protocol::report_count(packet.len() as int) ==> protocol::input_report(
            packet,
            protocol::report_start(i),
        ).end == protocol::report_start(i + 1),
{
}

/// The bytes before an input report have no influence on it: it is read as if it
/// stood at the front, and only its end is moved.
pub proof fn law_report_ignores_what_is_before_it(msg: Seq<u8>, cursor: int)
    requires
        0 <= cursor,
        msg.len() - cursor >= 10,
    ensures
        protocol::input_report(msg, cursor) == (InputReport {
            end: protocol::input_report(msg.skip(cursor), 0).end + cursor,
            ..protocol::input_report(msg.skip(cursor), 0)
        }),
{
}

/// The accuracy value of a report, its fifth, has no influence on the state.
pub proof fn law_reported_accuracy_is_ignored(state: HubState, report: InputReport, accuracy: i16)
    ensures
        state.rotated(InputReport { data5: accuracy, ..report }) == state.rotated(report),
        state.rotated(report).rot_quaternion_acc == ROTATION_ACCURACY_Q12,
{
}

pub(crate) proof fn lemma_latest_rotation(packet: Seq<u8>, n: int, i: int)
    requires
        0 <= i < n,
        packet[protocol::report_start(i)] == SENSOR_REPORTID_ROTATION_VECTOR,
        forall|j: int|
            i < j < n ==> packet[#[trigger] protocol::report_start(j)]
                != SENSOR_REPORTID_ROTATION_VECTOR,
    ensures
        protocol::latest_rotation(packet, n) == Some(
            protocol::input_report(packet, protocol::report_start(i)),
        ),
    decreases n,
{
    if i < n - 1 {
        assert(packet[protocol::report_start(n - 1)] != SENSOR_REPORTID_ROTATION_VECTOR);
        lemma_latest_rotation(packet, n - 1, i);
    }
}

/// What the device writes into the last rotation vector of a packet is what the
/// driver then holds, and what is read from it. The fourth component takes part
/// only where more than 14 bytes are left from the start of the report on, and is
/// zero otherwise.
pub proof fn law_rotation_round_trip(
    state: HubState,
    received_len: usize,
    i: int,
    q_i: i16,
    q_j: i16,
    q_k: i16,
    q_r: i16,
)
    requires
        state.sized(),
        state.can_handle(received_len),
        state.recv_buf[2] == CHANNEL_SENSOR_REPORTS,
        0 <= i < protocol::report_count(received_len as int),
        ({
            let start = protocol::report_start(i);
            &&& state.recv_buf[start] == SENSOR_REPORTID_ROTATION_VECTOR
            &&& state.recv_buf.subrange(start + 4, start + 10) == le_bytes(q_i) + le_bytes(q_j)
                + le_bytes(q_k)
            &&& received_len - start > 14 ==> state.recv_buf.subrange(start + 10, start + 12)
                == le_bytes(q_r)
        }),
        forall|j: int|
            i < j < protocol::report_count(received_len as int)
                ==> state.recv_buf[#[trigger] protocol::report_start(j)]
                != SENSOR_REPORTID_ROTATION_VECTOR,
    ensures
        state.handled(received_len).rotation_quaternion == seq![
            q_i,
            q_j,
            q_k,
            if received_len - protocol::report_start(i) > 14 {
                q_r
            } else {
                0i16
            },
        ],
        state.handled(received_len).current_quaternion() == state.handled(
            received_len,
        ).rotation_quaternion,
{
    let packet = state.received_packet(received_len);
    let start = protocol::report_start(i);
    let count = protocol::report_count(received_len as int);
    law_reports_fit(packet, i);
    assert forall|j: int| i < j < count implies packet[#[trigger] protocol::report_start(j)]
        != SENSOR_REPORTID_ROTATION_VECTOR by {
        law_reports_fit(packet, j);
        assert(packet[protocol::report_start(j)] == state.recv_buf[protocol::report_start(j)]);
    }
    lemma_latest_rotation(packet, count, i);
    law_number_round_trip(q_i);
    law_number_round_trip(q_j);
    law_number_round_trip(q_k);
    law_number_round_trip(q_r);
    let first = state.recv_buf.subrange(start + 4, start + 10);
    let written = le_bytes(q_i) + le_bytes(q_j) + le_bytes(q_k);
    assert(first[0] == packet[start + 4] && written[0] == le_bytes(q_i)[0]);
    assert(first[1] == packet[start + 5] && written[1] == le_bytes(q_i)[1]);
    assert(first[2] == packet[start + 6] && written[2] == le_bytes(q_j)[0]);
    assert(first[3] == packet[start + 7] && written[3] == le_bytes(q_j)[1]);
    assert(first[4] == packet[start + 8] && written[4] == le_bytes(q_k)[0]);
    assert(first[5] == packet[start + 9] && written[5] == le_bytes(q_k)[1]);
    if received_len - start > 14 {
        let last = state.recv_buf.subrange(start + 10, start + 12);
        assert(last[0] == packet[start + 10]);
        assert(last[1] == packet[start + 11]);
    }
}

/// Before the first rotation vector, the quaternion that is read is normalized,
/// and its components lie between zero and one.
pub proof fn law_quaternion_is_normalized_before_reports(state: HubState)
    requires
        state.rot_quaternion_acc == 0,
    ensures
        ({
            let q = state.current_quaternion();
            &&& q.len() == 4
            &&& q[0] * q[0] + q[1] * q[1] + q[2] * q[2] + q[3] * q[3] == Q14_ONE * Q14_ONE
            &&& forall|i: int| 0 <= i < 4 ==> 0 <= #[trigger] q[i] <= Q14_ONE
        }),
{
}

/// Only a packet on the channel of sensor reports changes the rotation vector.
pub proof fn law_other_channels_keep_the_rotation(state: HubState, received_len: usize)
    requires
        state.sized(),
        state.can_handle(received_len),
        state.recv_buf[2] != CHANNEL_SENSOR_REPORTS,
    ensures
        state.handled(received_len).rotation_quaternion == state.rotation_quaternion,
        state.handled(received_len).rot_quaternion_acc == state.rot_quaternion_acc,
{
}

/// What the link has done: what stands in the receive buffer now, and the event.
pub struct Observed<E> {
    pub recv_buf: Seq<u8>,
    pub event: Event<E>,
}

/// The state after dropping messages: the link reports the reads one by one,
/// with whatever they have left in the receive buffer.
pub open spec fn drained<E>(state: HubState, reads: Seq<Observed<E>>) -> HubState
    decreases reads.len(),
{
    if reads.len() == 0 {
        state
    } else {
        let asked = drained(state, reads.drop_last()).eat_all_step(Event::<E>::Start).0;
        (HubState { recv_buf: reads.last().recv_buf, ..asked }).eat_all_step(reads.last().event).0
    }
}

/// Dropped messages leave no trace but in the receive buffer and the length of
/// the last packet received.
pub proof fn law_dropped_messages_are_not_processed<E>(state: HubState, reads: Seq<Observed<E>>)
    requires
        forall|i: int| 0 <= i < reads.len() ==> (#[trigger] reads[i]).event is Read,
    ensures
        drained(state, reads) == (HubState {
            recv_buf: drained(state, reads).recv_buf,
            last_packet_len_received: drained(state, reads).last_packet_len_received,
            ..state
        }),
    decreases reads.len(),
{
    if reads.len() > 0 {
        let earlier = reads.drop_last();
        assert forall|i: int| 0 <= i < earlier.len() implies (#[trigger] earlier[i]).event is Read by {
            assert(earlier[i] == reads[i]);
        }
        law_dropped_messages_are_not_processed(state, earlier);
        assert(reads.last() == reads[reads.len() - 1]);
    }
}

/// The state after handling messages one at a time.
pub open spec fn handled_one_by_one<E>(state: HubState, reads: Seq<Observed<E>>) -> HubState
    decreases reads.len(),
{
    if reads.len() == 0 {
        state
    } else {
        let asked = handled_one_by_one(state, reads.drop_last()).handle_one_step(
            Event::<E>::Start,
        ).0;
        (HubState { recv_buf: reads.last().recv_buf, ..asked }).handle_one_step(
            reads.last().event,
        ).0
    }
}

/// The state after so many rounds of handling all messages: each begins at the
/// start or after the pause of the round before it.
pub open spec fn handled_in_rounds<E>(state: HubState, reads: Seq<Observed<E>>) -> HubState
    decreases reads.len(),
{
    if reads.len() == 0 {
        state
    } else {
        let begins = if reads.len() == 1 {
            Event::<E>::Start
        } else {
            Event::<E>::Delayed
        };
        let asked = handled_in_rounds(state, reads.drop_last()).handle_all_step(begins).0;
        (HubState { recv_buf: reads.last().recv_buf, ..asked }).handle_all_step(
            reads.last().event,
        ).0
    }
}

/// Handling all messages is handling one message over and over.
pub proof fn law_handling_all_is_handling_one_repeated<E>(
    state: HubState,
    reads: Seq<Observed<E>>,
)
    requires
        forall|i: int| 0 <= i < reads.len() ==> (#[trigger] reads[i]).event is Read,
    ensures
        handled_in_rounds(state, reads) == handled_one_by_one(state, reads),
    decreases reads.len(),
{
    if reads.len() > 0 {
        let earlier = reads.drop_last();
        assert forall|i: int| 0 <= i < earlier.len() implies (#[trigger] earlier[i]).event is Read by {
            assert(earlier[i] == reads[i]);
        }
        law_handling_all_is_handling_one_repeated(state, earlier);
        assert(reads.last() == reads[reads.len() - 1]);
    }
}

/// Handling all messages, and dropping all messages, end with the read for which
/// handling one message counts none, and dropping one message gives size zero;
/// after any other read they go on after a pause.
pub proof fn law_rounds_end_without_a_message<E>(state: HubState, outcome: Result<usize, E>)
    ensures
        state.handle_all_step(Event::Read(outcome)).1 == (if state.handle_one_step(
            Event::Read(outcome),
        ).1 == Next::Return(0u32) {
            Next::Return(())
        } else {
            Next::Do(Action::Delay(1))
        }),
        state.eat_all_step(Event::Read(outcome)).1 == (if state.eat_one_step(
            Event::Read(outcome),
        ).1 == Next::Return(0usize) {
            Next::Return(())
        } else {
            Next::Do(Action::Delay(1))
        }),
{
}

/// The product ID is accepted if and only if it was given before, or the
/// response is a product ID response on the hub control channel.
pub proof fn law_product_id_accepted<E>(state: HubState, response_len: usize)
    requires
        state.sized(),
        state.can_take_response(Event::<E>::Exchanged(Ok(response_len))),
    ensures
        state.verify_product_id_step(Event::<E>::Exchanged(Ok(response_len))).1 == (if {
            ||| state.prod_id_verified
            ||| {
                &&& response_len > PACKET_HEADER_LENGTH
                &&& state.recv_buf[2] == CHANNEL_HUB_CONTROL
                &&& state.recv_buf[4] == SENSORHUB_PROD_ID_RESP
            }
        } {
            Next::Return(Ok::<(), WrapperError<E>>(()))
        } else {
            Next::Return(Err(WrapperError::InvalidChipId(0)))
        }),
{
}

/// The initialization after what the link has done: the state, the phase and how
/// it goes on.
pub open spec fn init_after<E>(state: HubState, observed: Seq<Observed<E>>) -> (
    HubState,
    InitPhase,
    Next<Result<(), WrapperError<E>>>,
)
    decreases observed.len(),
{
    if observed.len() == 0 {
        state.init_step(InitPhase::SettingUp, Event::<E>::Start)
    } else {
        let (before, phase, next) = init_after(state, observed.drop_last());
        let read = HubState { recv_buf: observed.last().recv_buf, ..before };
        read.init_step(phase, observed.last().event)
    }
}

/// Whether each event reports the action that the initialization had asked for.
pub open spec fn init_served<E>(state: HubState, observed: Seq<Observed<E>>) -> bool
    decreases observed.len(),
{
    observed.len() > 0 ==> {
        &&& init_served(state, observed.drop_last())
        &&& init_after(state, observed.drop_last()).2 matches Next::Do(action)
        &&& step::answers(observed.last().event, action)
        &&& observed.last().recv_buf.len() == PACKET_RECV_BUF_LEN
    }
}

/// The sequence numbers with one more packet on this channel.
pub open spec fn one_more(sequence_numbers: Seq<u8>, channel: u8) -> Seq<u8> {
    sequence_numbers.update(channel as int, (sequence_numbers[channel as int] + 1) as u8)
}

/// The sequence numbers of an initialization that began in `state`, by its phase.
pub open spec fn init_sequence_numbers(state: HubState, phase: InitPhase) -> Seq<u8> {
    match phase {
        InitPhase::SettingUp | InitPhase::Settling => state.sequence_numbers,
        InitPhase::Verifying => one_more(
            one_more(state.sequence_numbers, CHANNEL_EXECUTABLE),
            CHANNEL_HUB_CONTROL,
        ),
        _ => one_more(state.sequence_numbers, CHANNEL_EXECUTABLE),
    }
}

/// Whether this is an action that the initialization asks for in this phase.
pub open spec fn init_action_fits(phase: InitPhase, action: Action) -> bool {
    match phase {
        InitPhase::SettingUp => action is Setup,
        InitPhase::Settling => action is Delay,
        InitPhase::Resetting => action is Exchange,
        InitPhase::FirstWait => action is Delay,
        InitPhase::FirstDrain => action is Read || action is Delay,
        InitPhase::SecondWait => action is Delay,
        InitPhase::SecondDrain => action is Read || action is Delay,
        InitPhase::Verifying => action is Exchange,
    }
}

pub(crate) proof fn lemma_init_invariant<E>(state: HubState, observed: Seq<Observed<E>>)
    requires
        state.sized(),
        init_served(state, observed),
    ensures
        ({
            let (after, phase, next) = init_after(state, observed);
            &&& after.sequence_numbers == init_sequence_numbers(state, phase)
            &&& after.recv_buf.len() == PACKET_RECV_BUF_LEN
            &&& next matches Next::Do(action) ==> init_action_fits(phase, action)
            &&& next matches Next::Do(_) ==> after == (HubState {
                sequence_numbers: after.sequence_numbers,
                send_buf: after.send_buf,
                recv_buf: after.recv_buf,
                last_packet_len_received: after.last_packet_len_received,
                ..state
            })
            &&& next matches Next::Return(Ok(_)) ==> phase is Verifying && after.prod_id_verified
            &&& next matches Next::Return(Err(error)) ==> error is CommError || error
                == WrapperError::<E>::InvalidChipId(0) && phase is Verifying
                && !after.prod_id_verified
        }),
    decreases observed.len(),
{
    if observed.len() > 0 {
        lemma_init_invariant(state, observed.drop_last());
    }
}

/// A caller that reports each action by its event, and whose link gives only a
/// response that can be handled to the product ID request, never brings the
/// initialization into a state that it does not expect.
pub proof fn law_init_expects_its_answers<E>(
    state: HubState,
    observed: Seq<Observed<E>>,
    recv_buf: Seq<u8>,
    event: Event<E>,
)
    requires
        state.sized(),
        state.sequence_numbers[CHANNEL_EXECUTABLE as int] < u8::MAX,
        state.sequence_numbers[CHANNEL_HUB_CONTROL as int] < u8::MAX,
        init_served(state, observed),
        init_after(state, observed).2 matches Next::Do(action) && step::answers(event, action),
        init_after(state, observed).1 is Verifying ==> (HubState {
            recv_buf,
            ..init_after(state, observed).0
        }).can_take_response(event),
    ensures
        (HubState { recv_buf, ..init_after(state, observed).0 }).init_expects(
            init_after(state, observed).1,
            event,
        ),
{
    lemma_init_invariant(state, observed);
}

/// Until the response to the product ID request has come, an initialization
/// processes nothing that the device says: it changes only the sequence numbers,
/// the buffers and the length of the last packet received.
pub proof fn law_init_drops_startup_messages<E>(state: HubState, observed: Seq<Observed<E>>)
    requires
        state.sized(),
        init_served(state, observed),
        init_after(state, observed).2 is Do,
    ensures
        ({
            let after = init_after(state, observed).0;
            after == HubState {
                sequence_numbers: after.sequence_numbers,
                send_buf: after.send_buf,
                recv_buf: after.recv_buf,
                last_packet_len_received: after.last_packet_len_received,
                ..state
            }
        }),
{
    lemma_init_invariant(state, observed);
}

/// The place of a phase in the initialization.
pub open spec fn init_rank(phase: InitPhase) -> int {
    match phase {
        InitPhase::SettingUp => 0,
        InitPhase::Settling => 1,
        InitPhase::Resetting => 2,
        InitPhase::FirstWait => 3,
        InitPhase::FirstDrain => 4,
        InitPhase::SecondWait => 5,
        InitPhase::SecondDrain => 6,
        InitPhase::Verifying => 7,
    }
}

/// The initialization goes through its phases in order: an event that it expects
/// leaves it in its phase or takes it to the next one.
pub proof fn law_init_phases_in_order<E>(state: HubState, phase: InitPhase, event: Event<E>)
    requires
        state.sized(),
        state.init_expects(phase, event),
    ensures
        init_rank(phase) <= init_rank(state.init_step(phase, event).1) <= init_rank(phase) + 1,
{
}

/// The initialization exchanges two packets: the reset command when the link has
/// settled, and the product ID request when the startup messages are dropped.
pub proof fn law_init_exchanges<E>(
    state: HubState,
    phase: InitPhase,
    event: Event<E>,
    packet_length: usize,
)
    requires
        state.sized(),
        state.init_expects(phase, event),
        state.init_step(phase, event).2 == Next::<Result<(), WrapperError<E>>>::Do(
            Action::Exchange(packet_length),
        ),
    ensures
        ({
            let sent = state.init_step(phase, event).0.send_buf.take(packet_length as int);
            ||| phase is Settling && sent == state.next_packet(
                CHANNEL_EXECUTABLE,
                protocol::reset_command_body(),
            )
            ||| phase is SecondDrain && sent == state.next_packet(
                CHANNEL_HUB_CONTROL,
                protocol::product_id_request_body(),
            )
        }),
{
    if phase is Settling {
        law_prepared_packet_decodes(state, CHANNEL_EXECUTABLE, protocol::reset_command_body());
    } else if phase is SecondDrain {
        law_prepared_packet_decodes(state, CHANNEL_HUB_CONTROL, protocol::product_id_request_body());
    }
}

/// An initialization that succeeds has sent exactly one packet on the executable
/// channel and one on the hub control channel, and the product ID is verified.
pub proof fn law_init_success<E>(state: HubState, observed: Seq<Observed<E>>)
    requires
        state.sized(),
        init_served(state, observed),
        init_after(state, observed).2 matches Next::Return(Ok(_)),
    ensures
        init_after(state, observed).0.prod_id_verified,
        init_after(state, observed).0.sequence_numbers == one_more(
            one_more(state.sequence_numbers, CHANNEL_EXECUTABLE),
            CHANNEL_HUB_CONTROL,
        ),
{
    lemma_init_invariant(state, observed);
}

/// An initialization fails only on an error of the link, or because the device
/// did not give its product ID.
pub proof fn law_init_failure<E>(state: HubState, observed: Seq<Observed<E>>)
    requires
        state.sized(),
        init_served(state, observed),
        init_after(state, observed).2 matches Next::Return(Err(_)),
    ensures
        init_after(state, observed).2 matches Next::Return(Err(error)) && (error is CommError || {
            &&& error == WrapperError::<E>::InvalidChipId(0)
            &&& !init_after(state, observed).0.prod_id_verified
        }),
{
    lemma_init_invariant(state, observed);
}

} // verus!
