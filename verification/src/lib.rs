//! Protocol logic of a LIN-bus transceiver that bridges a LIN bus and a
//! UDP signal broker: the configuration exchanged with the broker, the
//! table of LIN frames, and the frames that travel in both directions.
use vstd::prelude::*;

pub mod config;
pub mod lin_frame;
pub mod lin_udp_client;
pub mod record;
pub mod records;

verus! {

/// Header byte that starts every message exchanged with the broker.
pub const HEADER: u8 = 0x04;
/// Configuration item: the UDP port of the broker that LIN traffic goes to.
pub const HOST_PORT: u8 = 0x01;
/// Configuration item: the UDP port this device listens on for LIN traffic.
pub const CLIENT_PORT: u8 = 0x02;
/// Configuration item: the table of LIN frames (id, size, master flag).
pub const MESSAGE_SIZES: u8 = 0x04;
/// Configuration item: the LIN node mode (slave or master).
pub const NODE_MODE: u8 = 0x08;
/// Message kind of a heartbeat.
pub const HEART_BEAT: u8 = 0x10;
/// Configuration item: the node address for diagnostics.
pub const NAD: u8 = 0x20;

/// The break byte that starts a LIN header.
pub const BREAK: u8 = 0x00;
/// The sync field that follows the break in a LIN header.
pub const SYN_FILED: u8 = 0x55;

/// Role of this device on the LIN bus.
#[derive(Clone, Copy, Debug, PartialEq, Eq, Structural)]
pub enum NodeMode {
    Slave,
    Master,
    Undefined,
}

/// The wire value of a node mode.
pub open spec fn node_mode_byte(mode: NodeMode) -> u8 {
    match mode {
        NodeMode::Slave => 0x00,
        NodeMode::Master => 0x01,
        NodeMode::Undefined => 0xFF,
    }
}

/// The bytes that name a node mode on the wire.
pub open spec fn is_node_mode_byte(val: u8) -> bool {
    val == 0x00 || val == 0x01 || val == 0xFF
}

/// The node mode that a wire value names.
pub open spec fn node_mode_of(val: u8) -> NodeMode {
    if val == 0x00 {
        NodeMode::Slave
    } else if val == 0x01 {
        NodeMode::Master
    } else {
        NodeMode::Undefined
    }
}

impl NodeMode {
    /// Decodes a node mode from its wire value; only the three values that
    /// name a mode are accepted.
    pub fn from_u8(val: u8) -> (mode: NodeMode)
        requires
            is_node_mode_byte(val),
        ensures
            mode == node_mode_of(val),
            node_mode_byte(mode) == val,
    {
        match val {
            0x00 => NodeMode::Slave,
            0x01 => NodeMode::Master,
            _ => NodeMode::Undefined,
        }
    }
}

/// Encoding a node mode and decoding it again gives the same mode, and
/// decoding a valid byte and encoding it again gives the same byte.
pub proof fn lemma_node_mode_round_trip(mode: NodeMode, val: u8)
    ensures
        node_mode_of(node_mode_byte(mode)) == mode,
        is_node_mode_byte(node_mode_byte(mode)),
        is_node_mode_byte(val) ==> node_mode_byte(node_mode_of(val)) == val,
{
}

impl From<NodeMode> for u8 {
    fn from(val: NodeMode) -> (b: u8) {
        match val {
            NodeMode::Slave => 0x00,
            NodeMode::Master => 0x01,
            NodeMode::Undefined => 0xFF,
        }
    }
}

impl vstd::std_specs::convert::FromSpecImpl<NodeMode> for u8 {
    open spec fn obeys_from_spec() -> bool {
        true
    }

    open spec fn from_spec(val: NodeMode) -> u8 {
        node_mode_byte(val)
    }
}

/// Layout of a message from the broker: the byte offset of each field.
pub enum ServerMessageOffsets {
    Header,
    RibId,
    HashHigh,
    HashLow,
    Identifier,
    PayloadSizeHigh,
    PayloadSizeLow,
    PayloadStart,
}

/// The byte offset of a field of a broker message.
pub open spec fn server_message_offset(field: ServerMessageOffsets) -> u8 {
    match field {
        ServerMessageOffsets::Header => 0x0,
        ServerMessageOffsets::RibId => 0x1,
        ServerMessageOffsets::HashHigh => 0x2,
        ServerMessageOffsets::HashLow => 0x3,
        ServerMessageOffsets::Identifier => 0x4,
        ServerMessageOffsets::PayloadSizeHigh => 0x5,
        ServerMessageOffsets::PayloadSizeLow => 0x6,
        ServerMessageOffsets::PayloadStart => 0x7,
    }
}

impl From<ServerMessageOffsets> for u8 {
    fn from(val: ServerMessageOffsets) -> (b: u8) {
        match val {
            ServerMessageOffsets::Header => 0x0,
            ServerMessageOffsets::RibId => 0x1,
            ServerMessageOffsets::HashHigh => 0x2,
            ServerMessageOffsets::HashLow => 0x3,
            ServerMessageOffsets::Identifier => 0x4,
            ServerMessageOffsets::PayloadSizeHigh => 0x5,
            ServerMessageOffsets::PayloadSizeLow => 0x6,
            ServerMessageOffsets::PayloadStart => 0x7,
        }
    }
}

impl vstd::std_specs::convert::FromSpecImpl<ServerMessageOffsets> for u8 {
    open spec fn obeys_from_spec() -> bool {
        true
    }

    open spec fn from_spec(val: ServerMessageOffsets) -> u8 {
        server_message_offset(val)
    }
}

/// The counters that a heartbeat reports, each tagged by one of these kinds.
pub enum HeartBeatModes {
    TxLin,
    RxLin,
    TxUdp,
    RxUdp,
    SyncCount,
    UnSynchedPackages,
    SynchedPackages,
}

/// The tag byte of a heartbeat counter.
pub open spec fn heart_beat_mode_tag(mode: HeartBeatModes) -> u8 {
    match mode {
        HeartBeatModes::TxLin => 0x1,
        HeartBeatModes::RxLin => 0x2,
        HeartBeatModes::TxUdp => 0x3,
        HeartBeatModes::RxUdp => 0x4,
        HeartBeatModes::SyncCount => 0x5,
        HeartBeatModes::UnSynchedPackages => 0x6,
        HeartBeatModes::SynchedPackages => 0x7,
    }
}

impl From<HeartBeatModes> for u8 {
    fn from(val: HeartBeatModes) -> (b: u8) {
        match val {
            HeartBeatModes::TxLin => 0x1,
            HeartBeatModes::RxLin => 0x2,
            HeartBeatModes::TxUdp => 0x3,
            HeartBeatModes::RxUdp => 0x4,
            HeartBeatModes::SyncCount => 0x5,
            HeartBeatModes::UnSynchedPackages => 0x6,
            HeartBeatModes::SynchedPackages => 0x7,
        }
    }
}

impl vstd::std_specs::convert::FromSpecImpl<HeartBeatModes> for u8 {
    open spec fn obeys_from_spec() -> bool {
        true
    }

    open spec fn from_spec(val: HeartBeatModes) -> u8 {
        heart_beat_mode_tag(val)
    }
}

/// Traffic counters, reported by the heartbeat and reset after each one.
#[derive(Clone, Copy, Debug, PartialEq, Eq, Structural)]
pub struct Counter {
    pub rx_over_lin: u16,
    pub tx_over_lin: u16,
    pub rx_over_udp: u16,
    pub tx_over_udp: u16,
    pub sync_count: u16,
    pub unsynched_packages: u16,
    pub synched_packages: u16,
}

/// Every counter at zero.
pub open spec fn zero_counter() -> Counter {
    Counter {
        rx_over_lin: 0,
        tx_over_lin: 0,
        rx_over_udp: 0,
        tx_over_udp: 0,
        sync_count: 0,
        unsynched_packages: 0,
        synched_packages: 0,
    }
}

impl Counter {
    pub fn new() -> (c: Self)
        ensures
            c == zero_counter(),
    {
        Self {
            rx_over_lin: 0,
            tx_over_lin: 0,
            rx_over_udp: 0,
            tx_over_udp: 0,
            sync_count: 0,
            unsynched_packages: 0,
            synched_packages: 0,
        }
    }

    pub fn clear_counters(&mut self)
        ensures
            *final(self) == zero_counter(),
        no_unwind
    {
        self.rx_over_lin = 0;
        self.tx_over_lin = 0;
        self.rx_over_udp = 0;
        self.tx_over_udp = 0;
        self.sync_count = 0;
        self.unsynched_packages = 0;
        self.synched_packages = 0;
    }
}

impl Default for Counter {
    fn default() -> (c: Self)
        ensures
            c == zero_counter(),
    {
        Self::new()
    }
}

/// The hash of the device configuration and, for each configuration item,
/// the device hash under which that item was last received.
#[derive(Clone, Copy, Debug, PartialEq, Eq, Structural)]
pub struct ConfigHash {
    pub device_hash: u16,
    pub client_port_hash: u16,
    pub host_port_hash: u16,
    pub node_mode_hash: u16,
    pub message_sizes_hash: u16,
    pub nad_hash: u16,
}

/// The hash that every entry holds before anything was received.
pub const DEFAULT_HASH: u16 = 0xFFFF;

impl ConfigHash {
    /// The configuration hashes before anything was received.
    pub open spec fn spec_new() -> ConfigHash {
        ConfigHash {
            device_hash: DEFAULT_HASH,
            client_port_hash: DEFAULT_HASH,
            host_port_hash: DEFAULT_HASH,
            node_mode_hash: DEFAULT_HASH,
            message_sizes_hash: DEFAULT_HASH,
            nad_hash: DEFAULT_HASH,
        }
    }

    /// Every hash at the default.
    pub fn new() -> (h: Self)
        ensures
            h == ConfigHash::spec_new(),
    {
        let default_hash: u16 = DEFAULT_HASH;
        Self {
            device_hash: default_hash,
            client_port_hash: default_hash,
            host_port_hash: default_hash,
            node_mode_hash: default_hash,
            message_sizes_hash: default_hash,
            nad_hash: default_hash,
        }
    }
}

impl Default for ConfigHash {
    fn default() -> (h: Self)
        ensures
            h == ConfigHash::spec_new(),
    {
        Self::new()
    }
}

/// The UDP ports: the fixed configuration ports and the LIN traffic ports
/// that the broker assigns.
#[derive(Clone, Copy, Debug, PartialEq, Eq, Structural)]
pub struct UdpPort {
    pub udp_server_config_port: u16,
    pub udp_target_config_port: u16,
    pub udp_lin_host_port: u16,
    pub udp_lin_client_port: u16,
}

impl UdpPort {
    /// The ports before the broker has assigned any.
    pub open spec fn spec_new() -> UdpPort {
        UdpPort {
            udp_server_config_port: 4001,
            udp_target_config_port: 4000,
            udp_lin_host_port: 0,
            udp_lin_client_port: 0,
        }
    }

    pub fn new() -> (p: Self)
        ensures
            p == UdpPort::spec_new(),
    {
        Self {
            udp_server_config_port: 4001,
            udp_target_config_port: 4000,
            udp_lin_client_port: 0,
            udp_lin_host_port: 0,
        }
    }
}

impl Default for UdpPort {
    fn default() -> (p: Self)
        ensures
            p == UdpPort::spec_new(),
    {
        Self::new()
    }
}

/// The serial ports of the device, one LIN bus each.
pub struct UartConfig {
    pub lin_ports: Vec<LinConfig>,
}

/// One LIN bus: `uart` is the serial device (such as /dev/ttyAMA0) and
/// `rib_id` the device identifier that the broker configuration names.
pub struct LinConfig {
    pub uart: String,
    pub rib_id: u8,
}

} // verus!
