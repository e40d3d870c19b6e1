use signalbroker_lin_transceiver_rp::{
    ConfigHash, Counter, HeartBeatModes, NodeMode, ServerMessageOffsets, UdpPort,
};

#[test]
fn node_mode_bytes() {
    assert_eq!(u8::from(NodeMode::Slave), 0x00);
    assert_eq!(u8::from(NodeMode::Master), 0x01);
    assert_eq!(u8::from(NodeMode::Undefined), 0xFF);
}

#[test]
fn node_mode_round_trip() {
    for mode in [NodeMode::Slave, NodeMode::Master, NodeMode::Undefined] {
        assert_eq!(NodeMode::from_u8(u8::from(mode)), mode);
    }
    for b in [0x00u8, 0x01, 0xFF] {
        assert_eq!(u8::from(NodeMode::from_u8(b)), b);
    }
}

#[test]
fn heart_beat_mode_tags() {
    assert_eq!(u8::from(HeartBeatModes::TxLin), 0x1);
    assert_eq!(u8::from(HeartBeatModes::RxLin), 0x2);
    assert_eq!(u8::from(HeartBeatModes::TxUdp), 0x3);
    assert_eq!(u8::from(HeartBeatModes::RxUdp), 0x4);
    assert_eq!(u8::from(HeartBeatModes::SyncCount), 0x5);
    assert_eq!(u8::from(HeartBeatModes::UnSynchedPackages), 0x6);
    assert_eq!(u8::from(HeartBeatModes::SynchedPackages), 0x7);
}

#[test]
fn server_message_offsets() {
    assert_eq!(u8::from(ServerMessageOffsets::Header), 0);
    assert_eq!(u8::from(ServerMessageOffsets::RibId), 1);
    assert_eq!(u8::from(ServerMessageOffsets::HashHigh), 2);
    assert_eq!(u8::from(ServerMessageOffsets::HashLow), 3);
    assert_eq!(u8::from(ServerMessageOffsets::Identifier), 4);
    assert_eq!(u8::from(ServerMessageOffsets::PayloadSizeHigh), 5);
    assert_eq!(u8::from(ServerMessageOffsets::PayloadSizeLow), 6);
    assert_eq!(u8::from(ServerMessageOffsets::PayloadStart), 7);
}

#[test]
fn counter_new_default_and_clear() {
    let zero = Counter {
        rx_over_lin: 0,
        tx_over_lin: 0,
        rx_over_udp: 0,
        tx_over_udp: 0,
        sync_count: 0,
        unsynched_packages: 0,
        synched_packages: 0,
    };
    assert_eq!(Counter::new(), zero);
    assert_eq!(Counter::default(), zero);
    let mut c = Counter {
        rx_over_lin: 1,
        tx_over_lin: 2,
        rx_over_udp: 3,
        tx_over_udp: 4,
        sync_count: 5,
        unsynched_packages: 6,
        synched_packages: 7,
    };
    c.clear_counters();
    assert_eq!(c, zero);
}

#[test]
fn config_hash_starts_at_default() {
    let h = ConfigHash::new();
    assert_eq!(h.device_hash, 0xFFFF);
    assert_eq!(h.client_port_hash, 0xFFFF);
    assert_eq!(h.host_port_hash, 0xFFFF);
    assert_eq!(h.node_mode_hash, 0xFFFF);
    assert_eq!(h.message_sizes_hash, 0xFFFF);
    assert_eq!(h.nad_hash, 0xFFFF);
    assert_eq!(ConfigHash::default(), h);
}

#[test]
fn udp_port_defaults() {
    let p = UdpPort::new();
    assert_eq!(p.udp_server_config_port, 4001);
    assert_eq!(p.udp_target_config_port, 4000);
    assert_eq!(p.udp_lin_host_port, 0);
    assert_eq!(p.udp_lin_client_port, 0);
    assert_eq!(UdpPort::default(), p);
}
