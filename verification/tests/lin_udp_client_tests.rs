use signalbroker_lin_transceiver_rp::config::Config;
use signalbroker_lin_transceiver_rp::lin_udp_client::{
    HeaderSync, LinResponse, LinUdpClient, MasterAction, PacketBufferPos, SlaveAction,
};
use signalbroker_lin_transceiver_rp::record::Record;
use signalbroker_lin_transceiver_rp::records::Records;

/// A time, in nanoseconds since the Unix epoch.
const NOW: i128 = 1_700_000_000_000_000_000;

fn table() -> Records {
    let mut records = Records::new();
    records.set_list(vec![
        Record::new(29, 1, 1),
        Record::new(25, 2, 0),
        Record::new(0x3D, 8, 0),
    ]);
    records
}

#[test]
fn packet_buffer_positions() {
    assert_eq!(usize::from(PacketBufferPos::Id), 3);
    assert_eq!(usize::from(PacketBufferPos::Size), 4);
    assert_eq!(usize::from(PacketBufferPos::Payload), 5);
}

#[test]
fn master_is_idle_without_a_message() {
    let mut client = LinUdpClient::new();
    let mut records = table();
    assert!(matches!(client.run_master(&mut records), MasterAction::Idle));
    client.receive_udp_message(&[0, 0, 0, 29]);
    assert!(matches!(client.run_master(&mut records), MasterAction::Idle));
    // a short message is not taken
    assert!(client.has_new_data());
}

#[test]
fn master_reads_slave_frame_for_a_bare_header() {
    let mut client = LinUdpClient::new();
    let mut records = table();
    client.receive_udp_message(&[0, 0, 0, 25, 0]);
    match client.run_master(&mut records) {
        MasterAction::ReadSlave { pid, response_len } => {
            assert_eq!(pid, 0x99);
            assert_eq!(response_len, 3);
        }
        _ => panic!("expected a slave read"),
    }
    assert!(!client.has_new_data());
}

#[test]
fn master_skips_bare_header_of_master_frame() {
    let mut client = LinUdpClient::new();
    let mut records = table();
    client.receive_udp_message(&[0, 0, 0, 29, 0]);
    assert!(matches!(client.run_master(&mut records), MasterAction::Skip));
}

#[test]
fn master_writes_frame_with_checksum() {
    let mut client = LinUdpClient::new();
    let mut records = table();
    client.receive_udp_message(&[0, 0, 0, 29, 1, 0x01]);
    match client.run_master(&mut records) {
        MasterAction::WriteFrame { pid, frame } => {
            assert_eq!(pid, 0xDD);
            // enhanced checksum over the protected id and the data
            assert_eq!(frame, vec![0x01, 0x21]);
        }
        _ => panic!("expected a frame"),
    }
    assert_eq!(records.find_by_id_im(29).unwrap().cache(), &[0x01u8]);
}

#[test]
fn master_uses_classic_checksum_for_diagnostic_ids() {
    let mut client = LinUdpClient::new();
    let mut records = table();
    client.receive_udp_message(&[0, 0, 0, 0x3D, 8, 1, 2, 3, 4, 5, 6, 7, 8]);
    match client.run_master(&mut records) {
        MasterAction::WriteFrame { pid, frame } => {
            assert_eq!(pid, 0x7D);
            assert_eq!(frame, vec![1, 2, 3, 4, 5, 6, 7, 8, 0xDB]);
        }
        _ => panic!("expected a frame"),
    }
}

#[test]
fn master_rejects_wrong_length_and_unknown_id() {
    let mut client = LinUdpClient::new();
    let mut records = table();
    client.receive_udp_message(&[0, 0, 0, 25, 1, 0x01]);
    assert!(matches!(client.run_master(&mut records), MasterAction::InvalidPayload));
    client.receive_udp_message(&[0, 0, 0, 3, 0]);
    assert!(matches!(client.run_master(&mut records), MasterAction::UnknownId));
}

#[test]
fn slave_parity_error() {
    let records = table();
    match LinUdpClient::run_slave(&records, 29) {
        SlaveAction::ParityError { expected } => assert_eq!(expected, 0xDD),
        _ => panic!("expected a parity error"),
    }
}

#[test]
fn slave_unknown_id() {
    let records = table();
    // id 0 with parity bits: 0x80
    assert!(matches!(LinUdpClient::run_slave(&records, 0x80), SlaveAction::UnknownId));
}

#[test]
fn slave_listens_to_master_frames_and_uncached_frames() {
    let records = table();
    match LinUdpClient::run_slave(&records, 0xDD) {
        SlaveAction::Listen { pid, response_len } => {
            assert_eq!(pid, 0xDD);
            assert_eq!(response_len, 2);
        }
        _ => panic!("expected to listen"),
    }
    assert!(matches!(LinUdpClient::run_slave(&records, 0x99), SlaveAction::Listen { .. }));
}

#[test]
fn slave_answers_with_cached_broker_data() {
    let mut records = table();
    let mut client = LinUdpClient::new();
    client.receive_udp_message(&[0, 0, 0, 25, 2, 0x10, 0x20]);
    client.cache_udp_message(&mut records, 25);
    assert!(!client.has_new_data());
    let r = records.find_by_id_im(25).unwrap();
    assert!(r.cache_valid());
    assert_eq!(r.cache(), &[0x10u8, 0x20]);
    match LinUdpClient::run_slave(&records, 0x99) {
        SlaveAction::Respond { pid, frame } => {
            assert_eq!(pid, 0x99);
            // 0x99 + 0x10 + 0x20 = 0xC9, inverted: 0x36
            assert_eq!(frame, vec![0x10, 0x20, 0x36]);
        }
        _ => panic!("expected a response"),
    }
}

#[test]
fn caching_ignores_short_and_absent_messages() {
    let mut records = table();
    let mut client = LinUdpClient::new();
    client.cache_udp_message(&mut records, 25);
    client.receive_udp_message(&[0, 0, 0]);
    client.cache_udp_message(&mut records, 25);
    assert!(!records.find_by_id_im(25).unwrap().cache_valid());
    client.receive_udp_message(&[0, 0, 0, 7, 0]);
    client.cache_udp_message(&mut records, 7);
    assert_eq!(records.get_records().len(), 3);
}

#[test]
fn response_checks() {
    match LinUdpClient::read_lin_and_send_udp(0xDD, 2, &[0x01, 0x21]) {
        LinResponse::Valid { frame } => assert_eq!(frame, vec![0x01, 0x21]),
        _ => panic!("expected a valid frame"),
    }
    assert!(matches!(
        LinUdpClient::read_lin_and_send_udp(0xDD, 2, &[0x01, 0x22]),
        LinResponse::ChecksumMismatch
    ));
    assert!(matches!(
        LinUdpClient::read_lin_and_send_udp(0xDD, 2, &[0x01]),
        LinResponse::Incomplete
    ));
    // a full frame of 8 data bytes is valid and goes to the broker
    let full = [1u8, 2, 3, 4, 5, 6, 7, 8, 0xDB];
    match LinUdpClient::read_lin_and_send_udp(0x7D, 9, &full) {
        LinResponse::Valid { frame } => {
            assert!(LinUdpClient::udp_packet_fits(frame.len()));
            assert_eq!(
                LinUdpClient::udp_message(0x7D, &frame),
                Some(vec![0, 0, 0, 0x3D, 8, 1, 2, 3, 4, 5, 6, 7, 8])
            );
        }
        _ => panic!("expected a valid frame"),
    }
    // classic checksum for id 60
    match LinUdpClient::read_lin_and_send_udp(0x3C, 2, &[0x01, 0xFE]) {
        LinResponse::Valid { frame } => assert_eq!(frame, vec![0x01, 0xFE]),
        _ => panic!("expected a valid frame"),
    }
}

#[test]
fn udp_messages() {
    assert_eq!(
        LinUdpClient::udp_message(0xDD, &[0x01, 0x21]),
        Some(vec![0, 0, 0, 29, 1, 0x01])
    );
    assert_eq!(LinUdpClient::udp_message(0x99, &[]), Some(vec![0, 0, 0, 25, 0]));
    assert_eq!(
        LinUdpClient::udp_message(0x80, &[1, 2, 3, 4, 5, 6, 7, 8]),
        Some(vec![0, 0, 0, 0, 7, 1, 2, 3, 4, 5, 6, 7])
    );
    assert_eq!(LinUdpClient::udp_message(0x80, &[0u8; 13]), None);
    // a full LIN frame: 8 data bytes and the checksum
    assert_eq!(
        LinUdpClient::udp_message(0x80, &[1, 2, 3, 4, 5, 6, 7, 8, 0xDB]),
        Some(vec![0, 0, 0, 0, 8, 1, 2, 3, 4, 5, 6, 7, 8])
    );
    assert_eq!(LinUdpClient::udp_message(0x80, &[9u8; 12]).unwrap().len(), 16);
}

#[test]
fn udp_packet_fits() {
    assert!(LinUdpClient::udp_packet_fits(0));
    assert!(LinUdpClient::udp_packet_fits(1));
    assert!(LinUdpClient::udp_packet_fits(8));
    assert!(LinUdpClient::udp_packet_fits(9));
    assert!(LinUdpClient::udp_packet_fits(12));
    assert!(LinUdpClient::udp_packet_fits(13));
    assert!(!LinUdpClient::udp_packet_fits(256));
    assert!(LinUdpClient::udp_packet_fits(257));
}

#[test]
fn header_sync() {
    let mut sync = HeaderSync::new(0x12, 0x00, 0x55);
    assert!(!sync.is_synched());
    sync.shift(0xDD);
    assert!(sync.is_synched());
    assert_eq!(sync.pid(), 0xDD);
    assert_eq!(sync.tries, 1);
    let mut config = Config::new(1, NOW);
    sync.count(&mut config);
    let c = config.counters();
    assert_eq!(c.synched_packages, 1);
    assert_eq!(c.unsynched_packages, 1);
    assert_eq!(c.sync_count, 1);
}

#[test]
fn header_sync_in_place() {
    let sync = HeaderSync::new(0x00, 0x55, 0x99);
    assert!(sync.is_synched());
    let mut config = Config::new(1, NOW);
    sync.count(&mut config);
    let c = config.counters();
    assert_eq!(c.synched_packages, 1);
    assert_eq!(c.unsynched_packages, 0);
    assert_eq!(c.sync_count, 0);
}

#[test]
fn header_sync_tries_wrap() {
    let mut sync = HeaderSync::new(1, 1, 1);
    sync.tries = 65534;
    sync.shift(1);
    assert_eq!(sync.tries, 0);
}
