use bno080::driver::BNO080;
use bno080::error::WrapperError;
use bno080::protocol::{
    read_le_i16, set_feature_command, CHANNEL_COMMAND, CHANNEL_EXECUTABLE, CHANNEL_HUB_CONTROL,
    CHANNEL_SENSOR_REPORTS,
};
use bno080::step::{map_comm_error, Action, Event, InitPhase, Next};
use std::collections::VecDeque;

#[derive(Debug, Clone, PartialEq, Eq)]
struct LinkDown(u8);

/// A link that plays back packets and records what is asked of it.
struct FakeLink {
    available: VecDeque<Result<Vec<u8>, LinkDown>>,
    setup: Result<(), LinkDown>,
    write: Result<(), LinkDown>,
    sent: Vec<Vec<u8>>,
    actions: Vec<Action>,
}

impl FakeLink {
    fn new() -> Self {
        FakeLink {
            available: VecDeque::new(),
            setup: Ok(()),
            write: Ok(()),
            sent: Vec::new(),
            actions: Vec::new(),
        }
    }

    fn with(packets: &[&[u8]]) -> Self {
        let mut link = FakeLink::new();
        for packet in packets {
            link.available.push_back(Ok(packet.to_vec()));
        }
        link
    }
}

type Driver = BNO080<FakeLink>;

fn read(driver: &mut Driver) -> Result<usize, LinkDown> {
    match driver.sensor_interface.available.pop_front() {
        Some(Ok(packet)) => {
            driver.packet_recv_buf[..packet.len()].copy_from_slice(&packet);
            Ok(packet.len())
        }
        Some(Err(error)) => Err(error),
        None => Ok(0),
    }
}

fn perform(driver: &mut Driver, action: Action) -> Event<LinkDown> {
    driver.sensor_interface.actions.push(action);
    match action {
        Action::Setup => Event::SetUp(driver.sensor_interface.setup.clone()),
        Action::Delay(_) => Event::Delayed,
        Action::Write(len) => {
            let packet = driver.packet_send_buf[..len].to_vec();
            driver.sensor_interface.sent.push(packet);
            Event::Written(driver.sensor_interface.write.clone())
        }
        Action::Read => Event::Read(read(driver)),
        Action::Exchange(len) => {
            let packet = driver.packet_send_buf[..len].to_vec();
            driver.sensor_interface.sent.push(packet);
            Event::Exchanged(read(driver))
        }
    }
}

fn run<T>(
    driver: &mut Driver,
    mut step: impl FnMut(&mut Driver, Event<LinkDown>) -> Next<T>,
) -> T {
    let mut event = Event::Start;
    loop {
        match step(driver, event) {
            Next::Do(action) => event = perform(driver, action),
            Next::Return(result) => return result,
        }
    }
}

fn run_init(driver: &mut Driver) -> Result<(), WrapperError<LinkDown>> {
    let mut phase = InitPhase::SettingUp;
    run(driver, |driver, event| {
        let (next_phase, next) = driver.init(phase, event);
        phase = next_phase;
        next
    })
}

fn handle(driver: &mut Driver, packet: &[u8]) {
    driver.packet_recv_buf[..packet.len()].copy_from_slice(packet);
    assert!(driver.can_handle_packet(packet.len()));
    driver.handle_received_packet(packet.len());
}

fn complete(packet: &[u8]) -> bool {
    let mut driver = BNO080::new_with_interface(());
    driver.packet_recv_buf[..packet.len()].copy_from_slice(packet);
    driver.can_handle_packet(packet.len())
}

/// A packet of sensor reports: header, timestamp, then the reports.
fn sensor_packet(reports: &[u8]) -> Vec<u8> {
    let mut packet = vec![0, 0, CHANNEL_SENSOR_REPORTS, 0, 0xFB, 0, 0, 0, 0];
    packet.extend_from_slice(reports);
    packet
}

/// A report of fourteen bytes.
fn report(report_id: u8, values: [i16; 5]) -> Vec<u8> {
    let mut bytes = vec![report_id, 1, 2, 3];
    for value in values {
        bytes.extend_from_slice(&value.to_le_bytes());
    }
    bytes
}

// Product ID response received from a sensor.
const MIDPACK: [u8; 52] = [
    0x34, 0x00, 0x02, 0x7B,
    0xF8, 0x00, 0x01, 0x02,
    0x96, 0xA4, 0x98, 0x00,
    0xE6, 0x00, 0x00, 0x00,
    0x04, 0x00, 0x00, 0x00,
    0xF8, 0x00, 0x04, 0x04,
    0x36, 0xA3, 0x98, 0x00,
    0x95, 0x01, 0x00, 0x00,
    0x02, 0x00, 0x00, 0x00,
    0xF8, 0x00, 0x04, 0x02,
    0xE3, 0xA2, 0x98, 0x00,
    0xD9, 0x01, 0x00, 0x00,
    0x07, 0x00, 0x00, 0x00,
];

// Advertisement received from a sensor.
const ADVERTISING_PACKET_FULL: [u8; 276] = [
    0x14, 0x81, 0x00, 0x01,
    0x00, 0x01, 0x04, 0x00, 0x00, 0x00, 0x00, 0x80, 0x06, 0x31, 0x2e, 0x30, 0x2e, 0x30, 0x00, 0x02, 0x02, 0x00, 0x01, 0x03, 0x02, 0xff, 0x7f, 0x04, 0x02, 0x00, 0x01, 0x05,
    0x02, 0xff, 0x7f, 0x08, 0x05, 0x53, 0x48, 0x54, 0x50, 0x00, 0x06, 0x01, 0x00, 0x09, 0x08, 0x63, 0x6f, 0x6e, 0x74, 0x72, 0x6f, 0x6c, 0x00, 0x01, 0x04, 0x01, 0x00, 0x00,
    0x00, 0x08, 0x0b, 0x65, 0x78, 0x65, 0x63, 0x75, 0x74, 0x61, 0x62, 0x6c, 0x65, 0x00, 0x06, 0x01, 0x01, 0x09, 0x07, 0x64, 0x65, 0x76, 0x69, 0x63, 0x65, 0x00, 0x01, 0x04,
    0x02, 0x00, 0x00, 0x00, 0x08, 0x0a, 0x73, 0x65, 0x6e, 0x73, 0x6f, 0x72, 0x68, 0x75, 0x62, 0x00, 0x06, 0x01, 0x02, 0x09, 0x08, 0x63, 0x6f, 0x6e, 0x74, 0x72, 0x6f, 0x6c,
    0x00, 0x06, 0x01, 0x03, 0x09, 0x0c, 0x69, 0x6e, 0x70, 0x75, 0x74, 0x4e, 0x6f, 0x72, 0x6d, 0x61, 0x6c, 0x00, 0x07, 0x01, 0x04, 0x09, 0x0a, 0x69, 0x6e, 0x70, 0x75, 0x74,
    0x57, 0x61, 0x6b, 0x65, 0x00, 0x06, 0x01, 0x05, 0x09, 0x0c, 0x69, 0x6e, 0x70, 0x75, 0x74, 0x47, 0x79, 0x72, 0x6f, 0x52, 0x76, 0x00, 0x80, 0x06, 0x31, 0x2e, 0x31, 0x2e,
    0x30, 0x00, 0x81, 0x64, 0xf8, 0x10, 0xf5, 0x04, 0xf3, 0x10, 0xf1, 0x10, 0xfb, 0x05, 0xfa, 0x05, 0xfc, 0x11, 0xef, 0x02, 0x01, 0x0a, 0x02, 0x0a, 0x03, 0x0a, 0x04, 0x0a,
    0x05, 0x0e, 0x06, 0x0a, 0x07, 0x10, 0x08, 0x0c, 0x09, 0x0e, 0x0a, 0x08, 0x0b, 0x08, 0x0c, 0x06, 0x0d, 0x06, 0x0e, 0x06, 0x0f, 0x10, 0x10, 0x05, 0x11, 0x0c, 0x12, 0x06,
    0x13, 0x06, 0x14, 0x10, 0x15, 0x10, 0x16, 0x10, 0x17, 0x00, 0x18, 0x08, 0x19, 0x06, 0x1a, 0x00, 0x1b, 0x00, 0x1c, 0x06, 0x1d, 0x00, 0x1e, 0x10, 0x1f, 0x00, 0x20, 0x00,
    0x21, 0x00, 0x22, 0x00, 0x23, 0x00, 0x24, 0x00, 0x25, 0x00, 0x26, 0x00, 0x27, 0x00, 0x28, 0x0e, 0x29, 0x0c, 0x2a, 0x0e
];

#[test]
fn test_new_driver_is_blank() {
    let driver = BNO080::new_with_interface(17u8);
    assert_eq!(driver.sensor_interface, 17);
    assert_eq!(driver.sequence_numbers, [0; 6]);
    assert_eq!(driver.packet_send_buf, [0; 256]);
    assert_eq!(driver.packet_recv_buf, [0; 1024]);
    assert_eq!(driver.last_packet_len_received, 0);
    assert!(!driver.device_reset && !driver.prod_id_verified && !driver.init_received);
    assert!(!driver.advert_received && !driver.error_list_received);
    assert_eq!(driver.rotation_quaternion, [0; 4]);
    assert_eq!(driver.rot_quaternion_acc, 0);
}

#[test]
fn test_send_reset() {
    let mut driver = BNO080::new_with_interface(FakeLink::new());
    let result = run(&mut driver, |driver, event| driver.soft_reset(event));
    assert!(result.is_ok());
    assert_eq!(driver.sensor_interface.sent, vec![vec![5, 0, 1, 0, 1]]);
    assert_eq!(driver.sequence_numbers, [0, 1, 0, 0, 0, 0]);
}

#[test]
fn test_reset_response_is_not_looked_at() {
    let mut driver = BNO080::new_with_interface(FakeLink::with(&[&[5, 0, 1, 0, 1]]));
    let result = run(&mut driver, |driver, event| driver.soft_reset(event));
    assert!(result.is_ok());
    assert!(!driver.device_reset);
    assert_eq!(driver.last_packet_len_received, 0);
}

#[test]
fn test_reset_link_error() {
    let mut link = FakeLink::new();
    link.available.push_back(Err(LinkDown(9)));
    let mut driver = BNO080::new_with_interface(link);
    let result = run(&mut driver, |driver, event| driver.soft_reset(event));
    assert!(matches!(result, Err(WrapperError::CommError(LinkDown(9)))));
}

#[test]
fn test_receive_midpack() {
    let mut driver = BNO080::new_with_interface(FakeLink::with(&[&MIDPACK]));
    let result = run(&mut driver, |driver, event| driver.receive_packet(event));
    assert!(matches!(result, Ok(52)));
    assert_eq!(driver.last_packet_len_received, 52);
    assert_eq!(driver.packet_recv_buf[..52], MIDPACK);
    assert!(!driver.prod_id_verified);
}

#[test]
fn test_receive_clears_the_length_field() {
    let mut driver = BNO080::new_with_interface(FakeLink::new());
    driver.packet_recv_buf = [7; 1024];
    let result = run(&mut driver, |driver, event| driver.receive_packet(event));
    assert!(matches!(result, Ok(0)));
    assert_eq!(driver.packet_recv_buf[..4], [0, 0, 7, 7]);
}

#[test]
fn test_receive_error_keeps_the_last_length() {
    let mut link = FakeLink::with(&[&MIDPACK]);
    link.available.push_back(Err(LinkDown(1)));
    let mut driver = BNO080::new_with_interface(link);
    assert!(run(&mut driver, |driver, event| driver.receive_packet(event)).is_ok());
    let result = run(&mut driver, |driver, event| driver.receive_packet(event));
    assert!(matches!(result, Err(WrapperError::CommError(LinkDown(1)))));
    assert_eq!(driver.last_packet_len_received, 52);
}

#[test]
fn test_handle_adv_message() {
    let mut driver = BNO080::new_with_interface(FakeLink::with(&[&ADVERTISING_PACKET_FULL]));
    let msg_count = run(&mut driver, |driver, event| driver.handle_one_message(event));
    assert_eq!(msg_count, 1, "wrong msg_count");
    assert!(driver.advert_received);
    assert_eq!(driver.last_packet_len_received, 276);
}

#[test]
fn test_handle_one_message_counts() {
    let mut link = FakeLink::new();
    link.available.push_back(Ok(Vec::new()));
    link.available.push_back(Err(LinkDown(1)));
    let mut driver = BNO080::new_with_interface(link);
    assert_eq!(run(&mut driver, |driver, event| driver.handle_one_message(event)), 0);
    assert_eq!(run(&mut driver, |driver, event| driver.handle_one_message(event)), 0);
}

#[test]
fn test_eat_one_message_gives_the_size() {
    let mut link = FakeLink::with(&[&MIDPACK]);
    link.available.push_back(Err(LinkDown(1)));
    let mut driver = BNO080::new_with_interface(link);
    assert_eq!(run(&mut driver, |driver, event| driver.eat_one_message(event)), 52);
    assert!(!driver.prod_id_verified);
    assert_eq!(run(&mut driver, |driver, event| driver.eat_one_message(event)), 0);
    assert_eq!(run(&mut driver, |driver, event| driver.eat_one_message(event)), 0);
}

#[test]
fn test_eat_all_messages_pauses_and_stops() {
    let mut driver =
        BNO080::new_with_interface(FakeLink::with(&[&MIDPACK, &ADVERTISING_PACKET_FULL]));
    run(&mut driver, |driver, event| driver.eat_all_messages(event));
    assert_eq!(
        driver.sensor_interface.actions,
        vec![Action::Read, Action::Delay(1), Action::Read, Action::Delay(1), Action::Read]
    );
    assert!(!driver.prod_id_verified && !driver.advert_received);
    assert_eq!(driver.last_chan_received, 0);
}

#[test]
fn test_handle_all_is_handle_one_repeated() {
    let packets: [&[u8]; 3] = [&MIDPACK, &ADVERTISING_PACKET_FULL, &[0, 0, 1, 0, 1]];
    let mut all = BNO080::new_with_interface(FakeLink::with(&packets));
    run(&mut all, |driver, event| driver.handle_all_messages(event));
    let mut one = BNO080::new_with_interface(FakeLink::with(&packets));
    while run(&mut one, |driver, event| driver.handle_one_message(event)) > 0 {}
    assert!(all.prod_id_verified && all.advert_received && all.device_reset);
    assert!(one.prod_id_verified && one.advert_received && one.device_reset);
    assert_eq!(all.packet_recv_buf, one.packet_recv_buf);
    assert_eq!(all.last_chan_received, one.last_chan_received);
    assert_eq!(all.last_packet_len_received, one.last_packet_len_received);
}

#[test]
fn test_eat_all_messages_stops_at_an_error() {
    let mut link = FakeLink::with(&[&MIDPACK]);
    link.available.push_back(Err(LinkDown(1)));
    link.available.push_back(Ok(MIDPACK.to_vec()));
    let mut driver = BNO080::new_with_interface(link);
    run(&mut driver, |driver, event| driver.eat_all_messages(event));
    assert_eq!(driver.sensor_interface.available.len(), 1);
}

#[test]
fn test_handle_all_messages() {
    let mut driver =
        BNO080::new_with_interface(FakeLink::with(&[&MIDPACK, &ADVERTISING_PACKET_FULL]));
    run(&mut driver, |driver, event| driver.handle_all_messages(event));
    assert_eq!(
        driver.sensor_interface.actions,
        vec![Action::Read, Action::Delay(1), Action::Read, Action::Delay(1), Action::Read]
    );
    assert!(driver.prod_id_verified && driver.advert_received);
}

#[test]
fn test_command_channel() {
    let mut driver = BNO080::new_with_interface(FakeLink::new());
    handle(&mut driver, &[0, 0, CHANNEL_COMMAND, 0, 1, 10, 11, 12]);
    assert!(driver.error_list_received);
    assert_eq!(driver.last_error_received, 12);
    // an empty list keeps the last error
    handle(&mut driver, &[0, 0, CHANNEL_COMMAND, 0, 1]);
    assert_eq!(driver.last_error_received, 12);
    handle(&mut driver, &[0, 0, CHANNEL_COMMAND, 0, 9]);
    assert_eq!(driver.last_command_chan_rid, 9);
    assert!(!driver.advert_received);
    // a bare header counts as an advertisement
    handle(&mut driver, &[0, 0, CHANNEL_COMMAND, 0]);
    assert!(driver.advert_received);
}

#[test]
fn test_executable_channel() {
    let mut driver = BNO080::new_with_interface(FakeLink::new());
    handle(&mut driver, &[0, 0, CHANNEL_EXECUTABLE, 0, 2]);
    assert_eq!(driver.last_exec_chan_rid, 2);
    assert!(!driver.device_reset);
    handle(&mut driver, &[0, 0, CHANNEL_EXECUTABLE, 0, 1]);
    assert!(driver.device_reset);
    assert_eq!(driver.last_exec_chan_rid, 2);
    handle(&mut driver, &[0, 0, CHANNEL_EXECUTABLE]);
    assert_eq!(driver.last_exec_chan_rid, 0);
    assert!(driver.device_reset);
    assert_eq!(driver.last_chan_received, CHANNEL_EXECUTABLE);
}

#[test]
fn test_hub_control_channel() {
    let mut driver = BNO080::new_with_interface(FakeLink::new());
    handle(&mut driver, &[0, 0, CHANNEL_HUB_CONTROL, 0, 0xF1, 0, 4]);
    assert!(!driver.init_received);
    handle(&mut driver, &[0, 0, CHANNEL_HUB_CONTROL, 0, 0xF1, 0, 0x84]);
    assert!(driver.init_received);
    driver.init_received = false;
    handle(&mut driver, &[0, 0, CHANNEL_HUB_CONTROL, 0, 0xF1, 0, 1]);
    assert!(driver.init_received);
    handle(&mut driver, &[0, 0, CHANNEL_HUB_CONTROL, 0, 0xFC]);
    assert_eq!(driver.last_control_chan_rid, 0xFC);
    assert!(!driver.prod_id_verified);
    handle(&mut driver, &[0, 0, CHANNEL_HUB_CONTROL, 0, 0xF8]);
    assert!(driver.prod_id_verified);
    assert!(driver.init_received);
}

#[test]
fn test_unknown_channel() {
    let mut driver = BNO080::new_with_interface(FakeLink::new());
    handle(&mut driver, &[0, 0, 5, 0, 1, 2, 3]);
    assert_eq!(driver.last_chan_received, 5);
    assert!(!driver.device_reset && !driver.error_list_received);
}

#[test]
fn test_incomplete_packets() {
    assert!(!complete(&[]));
    assert!(!complete(&[0, 0]));
    assert!(!complete(&[0, 0, CHANNEL_COMMAND]));
    assert!(complete(&[0, 0, CHANNEL_COMMAND, 0]));
    assert!(complete(&[0, 0, CHANNEL_EXECUTABLE]));
    assert!(!complete(&[0, 0, CHANNEL_HUB_CONTROL, 0, 0xF1, 0]));
    assert!(complete(&[0, 0, CHANNEL_HUB_CONTROL, 0, 0xF1, 0, 0]));
    assert!(!complete(&[0, 0, CHANNEL_SENSOR_REPORTS, 0, 0, 0, 0, 0]));
    assert!(complete(&[0, 0, CHANNEL_SENSOR_REPORTS, 0, 0, 0, 0, 0, 0]));
    // a tag without a length
    assert!(!complete(&[0, 0, CHANNEL_COMMAND, 0, 0, 1]));
    // a value that is cut short
    assert!(complete(&[0, 0, CHANNEL_COMMAND, 0, 0, 1, 200]));
    // a tag without a length behind a whole entry
    assert!(!complete(&[0, 0, CHANNEL_COMMAND, 0, 0, 1, 1, 9, 2]));
    let mut driver = BNO080::new_with_interface(());
    driver.packet_recv_buf[2] = 5;
    assert!(driver.can_handle_packet(1024));
    assert!(!driver.can_handle_packet(1025));
}

#[test]
fn test_numbers() {
    assert_eq!(read_le_i16(0x34, 0x12), 0x1234);
    assert_eq!(read_le_i16(0xFF, 0xFF), -1);
    assert_eq!(read_le_i16(0x00, 0x80), i16::MIN);
    for value in [i16::MIN, -300, -1, 0, 1, 255, 256, i16::MAX] {
        let bytes = value.to_le_bytes();
        assert_eq!(read_le_i16(bytes[0], bytes[1]), value);
    }
}

#[test]
fn test_rotation_vector_round_trip() {
    let mut driver = BNO080::new_with_interface(FakeLink::new());
    let mut reports = report(5, [16384, -16384, 8192, -1, 77]);
    reports.extend_from_slice(&[0, 0, 0]);
    handle(&mut driver, &sensor_packet(&reports));
    assert_eq!(driver.rotation_quaternion, [16384, -16384, 8192, -1]);
    assert_eq!(driver.rot_quaternion_acc, 8192);
    let quaternion: Result<[i16; 4], WrapperError<LinkDown>> = driver.read_quaternion();
    assert!(matches!(quaternion, Ok([16384, -16384, 8192, -1])));
}

#[test]
fn test_read_quaternion_without_data() {
    let mut driver = BNO080::new_with_interface(FakeLink::new());
    let quaternion: Result<[i16; 4], WrapperError<LinkDown>> = driver.read_quaternion();
    assert!(matches!(quaternion, Ok([0, 0, 0, 16384])));
    // a report of another kind brings no rotation vector
    handle(&mut driver, &sensor_packet(&report(1, [1, 2, 3, 4, 5])));
    let quaternion: Result<[i16; 4], WrapperError<LinkDown>> = driver.read_quaternion();
    assert!(matches!(quaternion, Ok([0, 0, 0, 16384])));
    assert_eq!(driver.rotation_quaternion, [0; 4]);
    // a rotation vector of zeros is data
    handle(&mut driver, &sensor_packet(&report(5, [0; 5])));
    let quaternion: Result<[i16; 4], WrapperError<LinkDown>> = driver.read_quaternion();
    assert!(matches!(quaternion, Ok([0, 0, 0, 0])));
}

#[test]
fn test_one_input_report() {
    let mut msg = vec![9, 9, 9];
    msg.extend(report(5, [1, -2, 3, -4, 5]));
    assert_eq!(Driver::handle_one_input_report(3, &msg), (13, 5, 1, -2, 3, 0, 0));
    msg.push(0);
    assert_eq!(Driver::handle_one_input_report(3, &msg), (15, 5, 1, -2, 3, -4, 0));
    msg.extend_from_slice(&[0, 0]);
    assert_eq!(Driver::handle_one_input_report(3, &msg), (17, 5, 1, -2, 3, -4, 5));
    // what stands before the report has no influence
    assert_eq!(Driver::handle_one_input_report(0, &msg[3..]), (14, 5, 1, -2, 3, -4, 5));
}

#[test]
fn test_reported_accuracy_is_ignored() {
    let mut driver = BNO080::new_with_interface(());
    for accuracy in [i16::MIN, 0, 1, i16::MAX] {
        driver.update_rotation_quaternion(1, 2, 3, 4, accuracy);
        assert_eq!(driver.rotation_quaternion, [1, 2, 3, 4]);
        assert_eq!(driver.rot_quaternion_acc, 8192);
    }
}

#[test]
fn test_largest_packet_to_send() {
    let mut driver = BNO080::new_with_interface(());
    let body: Vec<u8> = (0..252).collect();
    assert_eq!(driver.prep_send_packet(5, &body), 256);
    assert_eq!(driver.packet_send_buf[..4], [0, 1, 5, 0]);
    assert_eq!(driver.packet_send_buf[4..], body[..]);
    // a shorter packet leaves the rest of the buffer alone
    assert_eq!(driver.prep_send_packet(5, &[7]), 5);
    assert_eq!(driver.packet_send_buf[..6], [5, 0, 5, 1, 7, 1]);
    for number in 2..=254 {
        driver.prep_send_packet(5, &[]);
        assert_eq!(driver.packet_send_buf[3], number);
    }
    assert_eq!(driver.sequence_numbers, [0, 0, 0, 0, 0, 255]);
}

#[test]
fn test_rotation_vector_needs_room_for_its_fourth_value() {
    let mut driver = BNO080::new_with_interface(FakeLink::new());
    let mut reports = report(5, [1, 2, 3, 4, 5]);
    handle(&mut driver, &sensor_packet(&reports));
    assert_eq!(driver.rotation_quaternion, [1, 2, 3, 0]);
    reports.push(0);
    handle(&mut driver, &sensor_packet(&reports));
    assert_eq!(driver.rotation_quaternion, [1, 2, 3, 4]);
}

#[test]
fn test_other_channels_keep_the_rotation_vector() {
    let mut driver = BNO080::new_with_interface(FakeLink::new());
    let mut packet = sensor_packet(&report(5, [1, 2, 3, 4, 5]));
    for channel in [CHANNEL_EXECUTABLE, CHANNEL_HUB_CONTROL, 4, 5] {
        packet[2] = channel;
        handle(&mut driver, &packet);
        assert_eq!(driver.rotation_quaternion, [0; 4]);
    }
}

#[test]
fn test_last_rotation_vector_counts() {
    let mut driver = BNO080::new_with_interface(FakeLink::new());
    let mut reports = report(5, [1, 2, 3, 4, 5]);
    reports.extend(report(5, [11, 12, 13, 14, 15]));
    reports.extend(report(1, [21, 22, 23, 24, 25]));
    handle(&mut driver, &sensor_packet(&reports));
    assert_eq!(driver.rotation_quaternion, [11, 12, 13, 14]);
    handle(&mut driver, &sensor_packet(&report(1, [31, 32, 33, 34, 35])));
    assert_eq!(driver.rotation_quaternion, [11, 12, 13, 14]);
}

#[test]
fn test_short_report_packet_is_skipped() {
    let mut driver = BNO080::new_with_interface(FakeLink::new());
    // nine bytes behind the timestamp are not enough
    handle(&mut driver, &sensor_packet(&report(5, [1, 2, 3, 4, 5])[..9]));
    assert_eq!(driver.rotation_quaternion, [0; 4]);
    assert_eq!(driver.rot_quaternion_acc, 0);
    handle(&mut driver, &sensor_packet(&report(5, [1, 2, 3, 4, 5])[..10]));
    assert_eq!(driver.rotation_quaternion, [1, 2, 3, 0]);
}

#[test]
fn test_largest_packet_of_reports() {
    let mut driver = BNO080::new_with_interface(FakeLink::new());
    let mut reports = Vec::new();
    for i in 0..72 {
        reports.extend(report(5, [i, i, i, i, i]));
    }
    reports.resize(1015, 0);
    handle(&mut driver, &sensor_packet(&reports));
    assert_eq!(driver.rotation_quaternion, [71, 71, 71, 71]);
}

#[test]
fn test_handling_twice_changes_nothing() {
    let mut driver = BNO080::new_with_interface(FakeLink::new());
    let packet = sensor_packet(&report(5, [1, 2, 3, 4, 5]));
    handle(&mut driver, &packet);
    let quaternion = driver.rotation_quaternion;
    handle(&mut driver, &packet);
    assert_eq!(driver.rotation_quaternion, quaternion);
    assert_eq!(driver.sequence_numbers, [0; 6]);
    assert_eq!(driver.packet_send_buf, [0; 256]);
    assert_eq!(driver.packet_recv_buf[..packet.len()], packet[..]);
}

#[test]
fn test_set_feature_command() {
    // 60000 ms are 60000000 us: 0x03938700
    assert_eq!(
        set_feature_command(8, 60000),
        [0xFD, 8, 0, 0, 0, 0x00, 0x87, 0x93, 0x03, 0, 0, 0, 0, 0, 0, 0, 0]
    );
    let body = set_feature_command(8, u16::MAX);
    assert_eq!(u32::from_le_bytes([body[5], body[6], body[7], body[8]]), 65535 * 1000);
}

#[test]
fn test_enable_rotation_vector() {
    let mut driver = BNO080::new_with_interface(FakeLink::new());
    for sequence_number in 0..2 {
        let result = run(&mut driver, |driver, event| driver.enable_rotation_vector(10, event));
        assert!(result.is_ok());
        assert_eq!(
            driver.sensor_interface.sent[sequence_number as usize],
            vec![
                21, 0, 2, sequence_number, 0xFD, 5, 0, 0, 0, 0x10, 0x27, 0, 0, 0, 0, 0, 0, 0, 0, 0,
                0
            ]
        );
    }
    assert_eq!(driver.sequence_numbers, [0, 0, 2, 0, 0, 0]);
    assert_eq!(driver.sensor_interface.actions, vec![Action::Write(21), Action::Write(21)]);
}

#[test]
fn test_enable_rotation_vector_link_error() {
    let mut link = FakeLink::new();
    link.write = Err(LinkDown(4));
    let mut driver = BNO080::new_with_interface(link);
    let result = run(&mut driver, |driver, event| driver.enable_rotation_vector(10, event));
    assert!(matches!(result, Err(WrapperError::CommError(LinkDown(4)))));
    assert_eq!(driver.sequence_numbers[2], 1);
}

#[test]
fn test_channels_count_their_packets() {
    let mut driver = BNO080::new_with_interface(FakeLink::new());
    for _ in 0..3 {
        let _ = run(&mut driver, |driver, event| driver.enable_rotation_vector(10, event));
        let _ = run(&mut driver, |driver, event| driver.soft_reset(event));
    }
    let _ = run(&mut driver, |driver, event| driver.verify_product_id(event));
    assert_eq!(driver.sequence_numbers, [0, 3, 4, 0, 0, 0]);
    let numbers: Vec<(u8, u8)> =
        driver.sensor_interface.sent.iter().map(|packet| (packet[2], packet[3])).collect();
    assert_eq!(numbers, vec![(2, 0), (1, 0), (2, 1), (1, 1), (2, 2), (1, 2), (2, 3)]);
}

#[test]
fn test_verify_product_id() {
    let mut driver = BNO080::new_with_interface(FakeLink::with(&[&MIDPACK]));
    let result = run(&mut driver, |driver, event| driver.verify_product_id(event));
    assert!(result.is_ok());
    assert!(driver.prod_id_verified);
    assert_eq!(driver.sensor_interface.sent, vec![vec![6, 0, 2, 0, 0xF9, 0]]);
    // a product ID once given stays accepted
    let result = run(&mut driver, |driver, event| driver.verify_product_id(event));
    assert!(result.is_ok());
}

#[test]
fn test_verify_product_id_refused() {
    let mut driver = BNO080::new_with_interface(FakeLink::with(&[
        &[0, 0, CHANNEL_EXECUTABLE, 0, 0xF8],
        &[0, 0, CHANNEL_HUB_CONTROL, 0],
    ]));
    for _ in 0..3 {
        let result = run(&mut driver, |driver, event| driver.verify_product_id(event));
        assert!(matches!(result, Err(WrapperError::InvalidChipId(0))));
    }
    // the first response was handled, the bare header was not
    assert_eq!(driver.last_exec_chan_rid, 0xF8);
    assert_eq!(driver.last_chan_received, CHANNEL_EXECUTABLE);
}

#[test]
fn test_verify_product_id_link_error() {
    let mut link = FakeLink::new();
    link.available.push_back(Err(LinkDown(2)));
    let mut driver = BNO080::new_with_interface(link);
    let result = run(&mut driver, |driver, event| driver.verify_product_id(event));
    assert!(matches!(result, Err(WrapperError::CommError(LinkDown(2)))));
}

#[test]
fn test_init() {
    let reset_done: &[u8] = &[5, 0, 1, 0, 1];
    let mut link = FakeLink::with(&[reset_done, &ADVERTISING_PACKET_FULL, reset_done]);
    link.available.push_back(Ok(Vec::new()));
    link.available.push_back(Ok(MIDPACK.to_vec()));
    link.available.push_back(Ok(Vec::new()));
    link.available.push_back(Ok(MIDPACK.to_vec()));
    let mut driver = BNO080::new_with_interface(link);
    assert!(run_init(&mut driver).is_ok());
    assert!(driver.prod_id_verified);
    assert!(!driver.advert_received && !driver.device_reset);
    assert_eq!(
        driver.sensor_interface.actions,
        vec![
            Action::Setup,
            Action::Delay(1),
            Action::Exchange(5),
            Action::Delay(50),
            Action::Read,
            Action::Delay(1),
            Action::Read,
            Action::Delay(1),
            Action::Read,
            Action::Delay(100),
            Action::Read,
            Action::Delay(1),
            Action::Read,
            Action::Exchange(6),
        ]
    );
    assert_eq!(
        driver.sensor_interface.sent,
        vec![vec![5, 0, 1, 0, 1], vec![6, 0, 2, 0, 0xF9, 0]]
    );
    assert_eq!(driver.sequence_numbers, [0, 1, 1, 0, 0, 0]);
}

#[test]
fn test_init_setup_error() {
    let mut link = FakeLink::new();
    link.setup = Err(LinkDown(3));
    let mut driver = BNO080::new_with_interface(link);
    assert!(matches!(run_init(&mut driver), Err(WrapperError::CommError(LinkDown(3)))));
    assert_eq!(driver.sensor_interface.actions, vec![Action::Setup]);
}

#[test]
fn test_init_reset_error() {
    let mut link = FakeLink::new();
    link.available.push_back(Err(LinkDown(5)));
    let mut driver = BNO080::new_with_interface(link);
    assert!(matches!(run_init(&mut driver), Err(WrapperError::CommError(LinkDown(5)))));
    assert_eq!(driver.sequence_numbers, [0, 1, 0, 0, 0, 0]);
}

#[test]
fn test_init_without_product_id() {
    let mut driver = BNO080::new_with_interface(FakeLink::new());
    assert!(matches!(run_init(&mut driver), Err(WrapperError::InvalidChipId(0))));
}

#[test]
fn test_link_errors_are_wrapped() {
    assert!(matches!(map_comm_error::<u8, u8>(Ok(1)), Ok(1)));
    assert!(matches!(map_comm_error::<u8, u8>(Err(2)), Err(WrapperError::CommError(2))));
}
