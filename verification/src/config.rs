//! The device configuration that the broker sends, the heartbeat, and the
//! requests for configuration items that are still missing.
use vstd::prelude::*;

use crate::record::{fresh_record, Record, RecordView};
use crate::records::{record_views, Records};
use crate::{
    is_node_mode_byte, node_mode_of, zero_counter, ConfigHash, Counter, NodeMode, UdpPort,
    CLIENT_PORT, HEADER, HEART_BEAT, HOST_PORT, MESSAGE_SIZES, NAD, NODE_MODE,
};

verus! {

/// Length of the buffer that holds the last message from the broker.
pub const SERVER_DATA_LEN: usize = 128;

/// Milliseconds between two heartbeats.
pub const HEART_BEAT_PERIOD_MILLIS: u64 = 2000;

/// Byte offset of the first payload byte of a broker message.
pub const PAYLOAD_START: usize = 7;

/// Bytes per entry of the frame table in a message sizes item.
pub const RECORD_SIZE: usize = 3;

/// Length of a heartbeat message.
pub const HEART_BEAT_LEN: usize = 28;

/// Payload length of a heartbeat: seven counters of three bytes each.
pub const HEART_BEAT_PAYLOAD_LEN: u8 = 0x15;

/// Length of a configuration request.
pub const CONFIG_REQUEST_LEN: usize = 7;

/// The address of the broker.
#[derive(Clone, Copy, Debug, PartialEq, Eq)]
pub enum HostIp {
    V4([u8; 4]),
    V6([u16; 8]),
}

/// The state of the configuration, as the contracts speak of it.
#[verifier::ext_equal]
pub struct ConfigView {
    pub rib_id: u8,
    pub udp_ports: UdpPort,
    pub heart_beat_period_millis: u64,
    pub latest_updated_nanos: i128,
    pub ip_address_server: HostIp,
    pub hashes: ConfigHash,
    pub server_data: Seq<u8>,
    pub new_data: bool,
    pub counters: Counter,
    pub node_mode: NodeMode,
    pub nad: u8,
    pub received_ip: bool,
}

/// Nanoseconds by which the last heartbeat of a new device lies before
/// its creation, so that the first heartbeat is due at once.
pub const HEART_BEAT_HEAD_START_NANOS: i128 = 5_000_000_000;

/// Nanoseconds in a millisecond.
pub const NANOS_PER_MILLI: i128 = 1_000_000;

/// The configuration of a device, created at time `now_nanos`, before the
/// broker has sent anything.
pub open spec fn initial_config(rib_id: u8, now_nanos: i128) -> ConfigView {
    ConfigView {
        rib_id,
        udp_ports: UdpPort::spec_new(),
        heart_beat_period_millis: HEART_BEAT_PERIOD_MILLIS,
        latest_updated_nanos: (now_nanos - HEART_BEAT_HEAD_START_NANOS) as i128,
        ip_address_server: HostIp::V4([255u8, 255u8, 255u8, 255u8]),
        hashes: ConfigHash::spec_new(),
        server_data: Seq::new(SERVER_DATA_LEN as nat, |i: int| 0u8),
        new_data: false,
        counters: zero_counter(),
        node_mode: NodeMode::Undefined,
        nad: 0,
        received_ip: false,
    }
}

/// The big-endian 16-bit value at `at` and `at + 1`.
pub open spec fn be16(data: Seq<u8>, at: int) -> u16 {
    (data[at] as int * 256 + data[at + 1] as int) as u16
}

/// The high byte of a 16-bit value.
pub open spec fn high_byte(x: u16) -> u8 {
    (x / 256) as u8
}

/// The low byte of a 16-bit value.
pub open spec fn low_byte(x: u16) -> u8 {
    (x % 256) as u8
}

/// The configuration item that a broker message carries.
pub open spec fn message_item(data: Seq<u8>) -> u8 {
    data[4]
}

/// The payload size that a broker message announces.
pub open spec fn message_size(data: Seq<u8>) -> u16 {
    be16(data, 5)
}

/// The frame table that a message sizes item carries: `count` entries of
/// id, size and master flag, each a fresh record.
pub open spec fn message_records(data: Seq<u8>, count: int) -> Seq<RecordView> {
    Seq::new(
        count as nat,
        |i: int| fresh_record(data[7 + 3 * i], data[8 + 3 * i], data[9 + 3 * i]),
    )
}

/// A broker message that the parser can take: a frame table fits in the
/// buffer, and a node mode item names one of the three modes.
pub open spec fn parse_is_safe(data: Seq<u8>) -> bool {
    &&& message_item(data) == MESSAGE_SIZES ==> PAYLOAD_START + (message_size(data) as int / 3) * 3
        <= SERVER_DATA_LEN
    &&& (message_item(data) == NODE_MODE && message_size(data) == 1) ==> is_node_mode_byte(data[7])
}

/// The configuration after the pending broker message was read: the device
/// hash is the one the message carries, and the item it names (when its
/// payload has the right size) takes its value, with its hash set to the
/// device hash that was current before the message.
pub open spec fn after_server_message(c: ConfigView) -> ConfigView {
    let d = c.server_data;
    let prev = c.hashes.device_hash;
    let hashes = ConfigHash { device_hash: be16(d, 2), ..c.hashes };
    let base = ConfigView { new_data: false, hashes, ..c };
    let item = message_item(d);
    let size = message_size(d);
    if item == HOST_PORT && size == 2 {
        ConfigView {
            udp_ports: UdpPort { udp_lin_host_port: be16(d, 7), ..c.udp_ports },
            hashes: ConfigHash { host_port_hash: prev, ..hashes },
            ..base
        }
    } else if item == CLIENT_PORT && size == 2 {
        ConfigView {
            udp_ports: UdpPort { udp_lin_client_port: be16(d, 7), ..c.udp_ports },
            hashes: ConfigHash { client_port_hash: prev, ..hashes },
            ..base
        }
    } else if item == MESSAGE_SIZES {
        ConfigView { hashes: ConfigHash { message_sizes_hash: prev, ..hashes }, ..base }
    } else if item == NODE_MODE && size == 1 {
        ConfigView {
            node_mode: node_mode_of(d[7]),
            hashes: ConfigHash { node_mode_hash: prev, ..hashes },
            ..base
        }
    } else if item == NAD && size == 1 {
        ConfigView { nad: d[7], hashes: ConfigHash { nad_hash: prev, ..hashes }, ..base }
    } else {
        base
    }
}

/// The frame table after the pending broker message was read: a message
/// sizes item replaces it; every other message leaves it.
pub open spec fn records_after_server_message(c: ConfigView, records: Seq<RecordView>) -> Seq<
    RecordView,
> {
    let d = c.server_data;
    if message_item(d) == MESSAGE_SIZES {
        message_records(d, message_size(d) as int / 3)
    } else {
        records
    }
}

/// The first configuration item whose hash differs from the device hash,
/// in the order host port, client port, node mode, message sizes, NAD.
pub open spec fn pending_config_item(h: ConfigHash) -> Option<u8> {
    if h.host_port_hash != h.device_hash {
        Some(HOST_PORT)
    } else if h.client_port_hash != h.device_hash {
        Some(CLIENT_PORT)
    } else if h.node_mode_hash != h.device_hash {
        Some(NODE_MODE)
    } else if h.message_sizes_hash != h.device_hash {
        Some(MESSAGE_SIZES)
    } else if h.nad_hash != h.device_hash {
        Some(NAD)
    } else {
        None
    }
}

/// A heartbeat is due at time `now_nanos` when more than the heartbeat
/// period has passed since the last one.
pub open spec fn heartbeat_due_at(c: ConfigView, now_nanos: i128) -> bool {
    now_nanos - c.latest_updated_nanos > c.heart_beat_period_millis as int * NANOS_PER_MILLI
}

/// The configuration after a heartbeat was started at time `now_nanos`:
/// that time is the time of the last heartbeat.
pub open spec fn after_heartbeat(c: ConfigView, now_nanos: i128) -> ConfigView {
    ConfigView { latest_updated_nanos: now_nanos, ..c }
}

/// The clock stands before the time of the last heartbeat.
#[derive(Debug, Clone, Copy, PartialEq, Eq)]
pub struct ClockBehind;

/// The request for a configuration item: header, device id, device hash,
/// the item, and an empty payload.
pub open spec fn config_request_bytes(c: ConfigView, item: u8) -> Seq<u8> {
    seq![
        HEADER,
        c.rib_id,
        high_byte(c.hashes.device_hash),
        low_byte(c.hashes.device_hash),
        item,
        0u8,
        0u8,
    ]
}

/// The heartbeat: header, device id, device hash, the heartbeat kind, the
/// payload length, then each counter behind its tag. The synched packages
/// entry carries the high byte of the unsynched packages counter and the
/// low byte of the synched packages counter.
pub open spec fn heartbeat_bytes(c: ConfigView) -> Seq<u8> {
    let k = c.counters;
    seq![
        HEADER,
        c.rib_id,
        high_byte(c.hashes.device_hash),
        low_byte(c.hashes.device_hash),
        HEART_BEAT,
        0x00u8,
        HEART_BEAT_PAYLOAD_LEN,
        0x2u8,
        high_byte(k.rx_over_lin),
        low_byte(k.rx_over_lin),
        0x1u8,
        high_byte(k.tx_over_lin),
        low_byte(k.tx_over_lin),
        0x4u8,
        high_byte(k.rx_over_udp),
        low_byte(k.rx_over_udp),
        0x3u8,
        high_byte(k.tx_over_udp),
        low_byte(k.tx_over_udp),
        0x5u8,
        high_byte(k.sync_count),
        low_byte(k.sync_count),
        0x6u8,
        high_byte(k.unsynched_packages),
        low_byte(k.unsynched_packages),
        0x7u8,
        high_byte(k.unsynched_packages),
        low_byte(k.synched_packages),
    ]
}

/// `BigEndian::read_u16` of the `byteorder` crate.
///
/// The contract claims what the crate documents and its source computes:
/// the first two bytes read as a big-endian value. It panics on fewer than
/// two bytes, which `requires` leaves out.
#[verifier::external_body]
fn read_u16_be(buf: &[u8]) -> (v: u16)
    requires
        buf@.len() >= 2,
    ensures
        v == buf@[0] as int * 256 + buf@[1] as int,
{
    <byteorder::BigEndian as byteorder::ByteOrder>::read_u16(buf)
}

/// The configuration of one device: what the broker has sent, the last
/// message from the broker, and the traffic counters.
pub struct Config {
    rib_id: u8,
    udp_ports: UdpPort,
    heart_beat_period_millis: u64,
    latest_updated_nanos: i128,
    ip_address_server: HostIp,
    hashes: ConfigHash,
    server_data: Vec<u8>,
    new_data: bool,
    counters: Counter,
    node_mode: NodeMode,
    nad: u8,
    received_ip: bool,
}

impl View for Config {
    type V = ConfigView;

    closed spec fn view(&self) -> ConfigView {
        ConfigView {
            rib_id: self.rib_id,
            udp_ports: self.udp_ports,
            heart_beat_period_millis: self.heart_beat_period_millis,
            latest_updated_nanos: self.latest_updated_nanos,
            ip_address_server: self.ip_address_server,
            hashes: self.hashes,
            server_data: Seq::new(SERVER_DATA_LEN as nat, |i: int| self.server_data@[i]),
            new_data: self.new_data,
            counters: self.counters,
            node_mode: self.node_mode,
            nad: self.nad,
            received_ip: self.received_ip,
        }
    }
}

impl Config {
    #[verifier::type_invariant]
    spec fn inv(&self) -> bool {
        self.server_data.len() == SERVER_DATA_LEN
    }

    /// The configuration of a device created at time `now_nanos`
    /// (nanoseconds since the Unix epoch), before the broker has sent
    /// anything; its last heartbeat lies 5 seconds back.
    pub fn new(rib_id: u8, now_nanos: i128) -> (c: Self)
        requires
            now_nanos >= i128::MIN + HEART_BEAT_HEAD_START_NANOS,
        ensures
            c@ == initial_config(rib_id, now_nanos),
    {
        let c = Self {
            rib_id,
            udp_ports: UdpPort::new(),
            heart_beat_period_millis: HEART_BEAT_PERIOD_MILLIS,
            latest_updated_nanos: now_nanos - HEART_BEAT_HEAD_START_NANOS,
            ip_address_server: HostIp::V4([255u8, 255u8, 255u8, 255u8]),
            hashes: ConfigHash::new(),
            server_data: vec![0u8; 128],
            new_data: false,
            counters: Counter::new(),
            node_mode: NodeMode::Undefined,
            nad: 0,
            received_ip: false,
        };
        assert(c@.server_data =~= initial_config(rib_id, now_nanos).server_data);
        c
    }
    pub fn increment_un_synched_packages(&mut self)
        requires
            old(self)@.counters.unsynched_packages < u16::MAX,
        ensures
            final(self)@ == (ConfigView {
                counters: Counter {
                    unsynched_packages: (old(self)@.counters.unsynched_packages + 1) as u16,
                    ..old(self)@.counters
                },
                ..old(self)@
            }),
    {
        proof {
            use_type_invariant(&*self);
        }
        self.counters.unsynched_packages = self.counters.unsynched_packages + 1;
    }

    pub fn set_synch_count(&mut self, val: u16)
        ensures
            final(self)@ == (ConfigView {
                counters: Counter { sync_count: val, ..old(self)@.counters },
                ..old(self)@
            }),
    {
        proof {
            use_type_invariant(&*self);
        }
        self.counters.sync_count = val;
    }

    pub fn increment_synched_packages(&mut self)
        requires
            old(self)@.counters.synched_packages < u16::MAX,
        ensures
            final(self)@ == (ConfigView {
                counters: Counter {
                    synched_packages: (old(self)@.counters.synched_packages + 1) as u16,
                    ..old(self)@.counters
                },
                ..old(self)@
            }),
    {
        proof {
            use_type_invariant(&*self);
        }
        self.counters.synched_packages = self.counters.synched_packages + 1;
    }

    pub fn increment_rx_over_lin(&mut self)
        requires
            old(self)@.counters.rx_over_lin < u16::MAX,
        ensures
            final(self)@ == (ConfigView {
                counters: Counter {
                    rx_over_lin: (old(self)@.counters.rx_over_lin + 1) as u16,
                    ..old(self)@.counters
                },
                ..old(self)@
            }),
    {
        proof {
            use_type_invariant(&*self);
        }
        self.counters.rx_over_lin = self.counters.rx_over_lin + 1;
    }

    pub fn increment_rx_over_udp(&mut self)
        requires
            old(self)@.counters.rx_over_udp < u16::MAX,
        ensures
            final(self)@ == (ConfigView {
                counters: Counter {
                    rx_over_udp: (old(self)@.counters.rx_over_udp + 1) as u16,
                    ..old(self)@.counters
                },
                ..old(self)@
            }),
    {
        proof {
            use_type_invariant(&*self);
        }
        self.counters.rx_over_udp = self.counters.rx_over_udp + 1;
    }

    pub fn increment_tx_over_udp(&mut self)
        requires
            old(self)@.counters.tx_over_udp < u16::MAX,
        ensures
            final(self)@ == (ConfigView {
                counters: Counter {
                    tx_over_udp: (old(self)@.counters.tx_over_udp + 1) as u16,
                    ..old(self)@.counters
                },
                ..old(self)@
            }),
    {
        proof {
            use_type_invariant(&*self);
        }
        self.counters.tx_over_udp = self.counters.tx_over_udp + 1;
    }

    pub fn increment_tx_over_lin(&mut self)
        requires
            old(self)@.counters.tx_over_lin < u16::MAX,
        ensures
            final(self)@ == (ConfigView {
                counters: Counter {
                    tx_over_lin: (old(self)@.counters.tx_over_lin + 1) as u16,
                    ..old(self)@.counters
                },
                ..old(self)@
            }),
    {
        proof {
            use_type_invariant(&*self);
        }
        self.counters.tx_over_lin = self.counters.tx_over_lin + 1;
    }

    /// The traffic counters.
    pub fn counters(&self) -> (c: Counter)
        ensures
            c == self@.counters,
    {
        self.counters
    }

    /// The address of the broker.
    pub fn host_ip(&self) -> (ip: HostIp)
        ensures
            ip == self@.ip_address_server,
    {
        self.ip_address_server
    }

    /// The UDP port of the broker that LIN traffic goes to.
    pub fn host_port(&self) -> (port: u16)
        ensures
            port == self@.udp_ports.udp_lin_host_port,
    {
        self.udp_ports.udp_lin_host_port
    }

    /// The UDP port this device listens on for LIN traffic.
    pub fn client_port(&self) -> (port: u16)
        ensures
            port == self@.udp_ports.udp_lin_client_port,
    {
        self.udp_ports.udp_lin_client_port
    }

    /// Whether the address of the broker is known.
    pub fn received_ip(&self) -> (b: bool)
        ensures
            b == self@.received_ip,
    {
        self.received_ip
    }

    pub fn node_mode(&self) -> (mode: NodeMode)
        ensures
            mode == self@.node_mode,
    {
        self.node_mode
    }

    /// The node address that the broker has set.
    pub fn nad(&self) -> (nad: u8)
        ensures
            nad == self@.nad,
    {
        self.nad
    }

    /// Stores a message from the broker, to be read by `parse_server_message`.
    /// The message fills the whole buffer.
    pub fn set_server_data(&mut self, data: &[u8])
        requires
            data@.len() == SERVER_DATA_LEN,
        ensures
            final(self)@ == (ConfigView { server_data: data@, new_data: true, ..old(self)@ }),
    {
        proof {
            use_type_invariant(&*self);
        }
        let mut buf: Vec<u8> = Vec::new();
        let mut i: usize = 0;
        while i < data.len()
            invariant
                data@.len() == SERVER_DATA_LEN,
                i <= data@.len(),
                buf@ =~= data@.subrange(0, i as int),
            decreases data@.len() - i,
        {
            buf.push(data[i]);
            i = i + 1;
        }
        self.server_data = buf;
        self.new_data = true;
        assert(self@.server_data =~= data@);
    }

    /// Records the address the broker sent from; from now on it is known.
    pub fn set_server_ip_address(&mut self, address: HostIp)
        ensures
            final(self)@ == (ConfigView {
                ip_address_server: address,
                received_ip: true,
                ..old(self)@
            }),
    {
        proof {
            use_type_invariant(&*self);
        }
        self.ip_address_server = address;
        self.received_ip = true;
    }

    /// Whether a heartbeat is due, given the time since the last one: it is
    /// once more than the heartbeat period has passed.
    pub fn heartbeat_due(&self, elapsed_nanos: u128) -> (due: bool)
        ensures
            due == (elapsed_nanos > self@.heart_beat_period_millis as int * 1_000_000),
    {
        elapsed_nanos > self.heart_beat_period_millis as u128 * 1_000_000u128
    }

    /// Starts a heartbeat at time `now_nanos` (nanoseconds since the Unix
    /// epoch) if one is due (see `heartbeat_due_at`): the heartbeat message
    /// is returned and `now_nanos` becomes the time of the last heartbeat;
    /// otherwise nothing changes. A clock that stands before the last
    /// heartbeat is an error. The counters are cleared by `clear_counters`
    /// once the message has gone out.
    pub fn send_heartbeat(&mut self, now_nanos: i128) -> (res: Result<Option<Vec<u8>>, ClockBehind>)
        ensures
            now_nanos < old(self)@.latest_updated_nanos ==> res is Err && final(self)@ == old(self)@,
            now_nanos >= old(self)@.latest_updated_nanos && heartbeat_due_at(old(self)@, now_nanos)
                ==> (res matches Ok(Some(msg)) && msg@ == heartbeat_bytes(old(self)@)
                && final(self)@ == after_heartbeat(old(self)@, now_nanos)),
            now_nanos >= old(self)@.latest_updated_nanos && !heartbeat_due_at(old(self)@, now_nanos)
                ==> res == Ok::<Option<Vec<u8>>, ClockBehind>(None) && final(self)@ == old(self)@,
    {
        proof {
            use_type_invariant(&*self);
        }
        if now_nanos < self.latest_updated_nanos {
            return Err(ClockBehind);
        }
        let period = self.heart_beat_period_millis as i128 * NANOS_PER_MILLI;
        if self.latest_updated_nanos > i128::MAX - period || now_nanos <= self.latest_updated_nanos
            + period {
            return Ok(None);
        }
        self.latest_updated_nanos = now_nanos;
        let msg = self.heartbeat_message();
        Ok(Some(msg))
    }

    /// The heartbeat message that reports the counters (see `heartbeat_bytes`).
    pub fn heartbeat_message(&self) -> (msg: Vec<u8>)
        ensures
            msg@ == heartbeat_bytes(self@),
            msg@.len() == HEART_BEAT_LEN,
            msg@[6] as int == msg@.len() - PAYLOAD_START,
    {
        let k = self.counters;
        let h = self.hashes.device_hash;
        let mut data: Vec<u8> = Vec::with_capacity(30);
        data.push(HEADER);
        data.push(self.rib_id);
        data.push((h / 256) as u8);
        data.push((h % 256) as u8);
        data.push(HEART_BEAT);
        data.push(0x00);
        data.push(HEART_BEAT_PAYLOAD_LEN);
        data.push(u8::from(crate::HeartBeatModes::RxLin));
        data.push((k.rx_over_lin / 256) as u8);
        data.push((k.rx_over_lin % 256) as u8);
        data.push(u8::from(crate::HeartBeatModes::TxLin));
        data.push((k.tx_over_lin / 256) as u8);
        data.push((k.tx_over_lin % 256) as u8);
        data.push(u8::from(crate::HeartBeatModes::RxUdp));
        data.push((k.rx_over_udp / 256) as u8);
        data.push((k.rx_over_udp % 256) as u8);
        data.push(u8::from(crate::HeartBeatModes::TxUdp));
        data.push((k.tx_over_udp / 256) as u8);
        data.push((k.tx_over_udp % 256) as u8);
        data.push(u8::from(crate::HeartBeatModes::SyncCount));
        data.push((k.sync_count / 256) as u8);
        data.push((k.sync_count % 256) as u8);
        data.push(u8::from(crate::HeartBeatModes::UnSynchedPackages));
        data.push((k.unsynched_packages / 256) as u8);
        data.push((k.unsynched_packages % 256) as u8);
        data.push(u8::from(crate::HeartBeatModes::SynchedPackages));
        data.push((k.unsynched_packages / 256) as u8);
        data.push((k.synched_packages % 256) as u8);
        assert(data@ =~= heartbeat_bytes(self@));
        data
    }

    /// Resets the traffic counters once a heartbeat has reported them.
    pub fn clear_counters(&mut self)
        ensures
            final(self)@ == (ConfigView { counters: zero_counter(), ..old(self)@ }),
    {
        proof {
            use_type_invariant(&*self);
        }
        self.counters.clear_counters();
    }

    /// The configuration item to request from the broker next, if any:
    /// the first whose hash differs from the device hash. The configuration
    /// is complete when there is none.
    pub fn next_config_request(&self) -> (item: Option<u8>)
        ensures
            item == pending_config_item(self@.hashes),
            item is None <==> (self@.hashes.host_port_hash == self@.hashes.device_hash
                && self@.hashes.client_port_hash == self@.hashes.device_hash
                && self@.hashes.node_mode_hash == self@.hashes.device_hash
                && self@.hashes.message_sizes_hash == self@.hashes.device_hash
                && self@.hashes.nad_hash == self@.hashes.device_hash),
    {
        let h = self.hashes;
        if h.host_port_hash != h.device_hash {
            Some(HOST_PORT)
        } else if h.client_port_hash != h.device_hash {
            Some(CLIENT_PORT)
        } else if h.node_mode_hash != h.device_hash {
            Some(NODE_MODE)
        } else if h.message_sizes_hash != h.device_hash {
            Some(MESSAGE_SIZES)
        } else if h.nad_hash != h.device_hash {
            Some(NAD)
        } else {
            None
        }
    }

    /// The request to the broker for a configuration item (see
    /// `config_request_bytes`).
    pub fn config_request_message(&self, item: u8) -> (msg: Vec<u8>)
        ensures
            msg@ == config_request_bytes(self@, item),
            msg@.len() == CONFIG_REQUEST_LEN,
    {
        let h = self.hashes.device_hash;
        let mut data: Vec<u8> = Vec::with_capacity(10);
        data.push(HEADER);
        data.push(self.rib_id);
        data.push((h / 256) as u8);
        data.push((h % 256) as u8);
        data.push(item);
        data.push(0x00);
        data.push(0x00);
        assert(data@ =~= config_request_bytes(self@, item));
        data
    }

    /// The UDP ports.
    pub fn udp_ports(&self) -> (ports: UdpPort)
        ensures
            ports == self@.udp_ports,
    {
        self.udp_ports
    }

    /// Whether `parse_server_message` can take the pending message, if any
    /// (see `parse_is_safe`).
    pub fn pending_message_is_safe(&self) -> (ok: bool)
        ensures
            ok == (self@.new_data ==> parse_is_safe(self@.server_data)),
    {
        proof {
            use_type_invariant(self);
        }
        if !self.new_data {
            return true;
        }
        let ghost d = self@.server_data;
        assert(forall|i: int| 0 <= i < SERVER_DATA_LEN ==> self.server_data@[i] == d[i]);
        let item = self.server_data[4];
        let size = read_u16_be(vstd::slice::slice_subrange(self.server_data.as_slice(), 5, 7));
        if item == MESSAGE_SIZES && PAYLOAD_START + (size as usize / RECORD_SIZE) * RECORD_SIZE
            > SERVER_DATA_LEN {
            return false;
        }
        if item == NODE_MODE && size == 1 {
            let b = self.server_data[PAYLOAD_START];
            return b == 0x00 || b == 0x01 || b == 0xFF;
        }
        true
    }

    /// Reads the pending broker message, if there is one (see
    /// `after_server_message` and `records_after_server_message`).
    ///
    /// The device hash becomes the one the message carries; an item of the
    /// right size takes its value and records, as its hash, the device hash
    /// from before the message. Nothing happens without a pending message.
    pub fn parse_server_message(&mut self, records: &mut Records)
        requires
            old(self)@.new_data ==> parse_is_safe(old(self)@.server_data),
        ensures
            !old(self)@.new_data ==> final(self)@ == old(self)@ && final(records)@ == old(records)@,
            old(self)@.new_data ==> final(self)@ == after_server_message(old(self)@)
                && final(records)@ == records_after_server_message(old(self)@, old(records)@),
    {
        proof {
            use_type_invariant(&*self);
        }
        let device_hash = self.hashes.device_hash;
        if !self.new_data {
            return;
        }
        self.new_data = false;
        let ghost d = old(self)@.server_data;
        assert(forall|i: int| 0 <= i < SERVER_DATA_LEN ==> self.server_data@[i] == d[i]);
        let data = self.server_data.as_slice();
        self.hashes.device_hash = read_u16_be(vstd::slice::slice_subrange(data, 2, 4));
        let item = self.server_data[4];
        if item == 0 {
            return;
        }
        let size = read_u16_be(vstd::slice::slice_subrange(self.server_data.as_slice(), 5, 7));
        if item == HOST_PORT {
            if size != 2 {
                return;
            }
            let host_port = read_u16_be(
                vstd::slice::slice_subrange(self.server_data.as_slice(), PAYLOAD_START, PAYLOAD_START + 2),
            );
            self.udp_ports.udp_lin_host_port = host_port;
            self.hashes.host_port_hash = device_hash;
        } else if item == CLIENT_PORT {
            if size != 2 {
                return;
            }
            let client_port = read_u16_be(
                vstd::slice::slice_subrange(self.server_data.as_slice(), PAYLOAD_START, PAYLOAD_START + 2),
            );
            self.udp_ports.udp_lin_client_port = client_port;
            self.hashes.client_port_hash = device_hash;
        } else if item == MESSAGE_SIZES {
            let entries: usize = size as usize / RECORD_SIZE;
            let mut list: Vec<Record> = Vec::new();
            let mut k: usize = 0;
            while k < entries
                invariant
                    entries == size as int / 3,
                    PAYLOAD_START + entries * 3 <= SERVER_DATA_LEN,
                    self.server_data@.len() == SERVER_DATA_LEN,
                    forall|i: int| 0 <= i < SERVER_DATA_LEN ==> self.server_data@[i] == d[i],
                    k <= entries,
                    record_views(list@) =~= message_records(d, k as int),
                decreases entries - k,
            {
                let v = PAYLOAD_START + k * RECORD_SIZE;
                let r = Record::new(self.server_data[v], self.server_data[v + 1], self.server_data[v + 2]);
                let ghost prev = list@;
                list.push(r);
                assert(list@ == prev.push(r));
                assert(record_views(list@) =~= record_views(prev).push(r@));
                k = k + 1;
            }
            records.set_list(list);
            self.hashes.message_sizes_hash = device_hash;
        } else if item == NODE_MODE {
            if size != 1 {
                return;
            }
            self.node_mode = NodeMode::from_u8(self.server_data[PAYLOAD_START]);
            self.hashes.node_mode_hash = device_hash;
        } else if item == NAD {
            if size != 1 {
                return;
            }
            self.nad = self.server_data[PAYLOAD_START];
            self.hashes.nad_hash = device_hash;
        }
    }
}

/// Answers settle the configuration: once the broker answers with the
/// device hash the device already has, an answer for an item (of the right
/// size) makes that item agree with the device hash, so it is not requested
/// again; the device hash and the other items stay as they were.
pub proof fn lemma_answer_settles_item(c: ConfigView)
    requires
        be16(c.server_data, 2) == c.hashes.device_hash,
    ensures
        ({
            let item = message_item(c.server_data);
            let size = message_size(c.server_data);
            let answered = (item == HOST_PORT && size == 2) || (item == CLIENT_PORT && size == 2)
                || item == MESSAGE_SIZES || (item == NODE_MODE && size == 1) || (item == NAD && size
                == 1);
            let h = after_server_message(c).hashes;
            &&& h.device_hash == c.hashes.device_hash
            &&& answered ==> pending_config_item(h) != Some(item)
            &&& !answered ==> h == c.hashes
        }),
{
}

/// Heartbeats are more than the heartbeat period apart: once a heartbeat
/// was started at `t1`, the next is due at `t2` only if `t2` lies more than
/// the period after `t1`. Every other operation keeps the time of the last
/// heartbeat and the period as they are.
pub proof fn lemma_heartbeats_apart(c: ConfigView, t1: i128, t2: i128)
    requires
        heartbeat_due_at(c, t1),
        heartbeat_due_at(after_heartbeat(c, t1), t2),
    ensures
        t2 - t1 > c.heart_beat_period_millis as int * NANOS_PER_MILLI,
        after_heartbeat(c, t1).heart_beat_period_millis == c.heart_beat_period_millis,
{
}

/// The big-endian value of the two bytes at `at` and `at + 1`, as an integer.
pub open spec fn be_pair(m: Seq<u8>, at: int) -> int {
    m[at] as int * 256 + m[at + 1] as int
}

/// What a heartbeat reports: after the header (header byte, device id, the
/// device hash big-endian, the heartbeat kind and a payload of 21 bytes),
/// each counter's tag is followed by that counter, big-endian: received
/// over LIN, sent over LIN, received over UDP, sent over UDP, the sync
/// count, the unsynched packages; the synched packages entry carries the
/// unsynched counter's high byte and the synched counter's low byte.
pub proof fn lemma_heartbeat_reports_counters(c: ConfigView)
    ensures
        ({
            let m = heartbeat_bytes(c);
            let k = c.counters;
            &&& m.len() == HEART_BEAT_LEN
            &&& m[0] == HEADER && m[1] == c.rib_id && m[4] == HEART_BEAT
            &&& be_pair(m, 2) == c.hashes.device_hash
            &&& be_pair(m, 5) == HEART_BEAT_LEN - PAYLOAD_START
            &&& m[7] == crate::heart_beat_mode_tag(crate::HeartBeatModes::RxLin)
                && be_pair(m, 8) == k.rx_over_lin
            &&& m[10] == crate::heart_beat_mode_tag(crate::HeartBeatModes::TxLin)
                && be_pair(m, 11) == k.tx_over_lin
            &&& m[13] == crate::heart_beat_mode_tag(crate::HeartBeatModes::RxUdp)
                && be_pair(m, 14) == k.rx_over_udp
            &&& m[16] == crate::heart_beat_mode_tag(crate::HeartBeatModes::TxUdp)
                && be_pair(m, 17) == k.tx_over_udp
            &&& m[19] == crate::heart_beat_mode_tag(crate::HeartBeatModes::SyncCount)
                && be_pair(m, 20) == k.sync_count
            &&& m[22] == crate::heart_beat_mode_tag(crate::HeartBeatModes::UnSynchedPackages)
                && be_pair(m, 23) == k.unsynched_packages
            &&& m[25] == crate::heart_beat_mode_tag(crate::HeartBeatModes::SynchedPackages)
                && m[26] as int == k.unsynched_packages as int / 256
                && m[27] as int == k.synched_packages as int % 256
        }),
{
    let k = c.counters;
    lemma_bytes_of(c.hashes.device_hash);
    lemma_bytes_of(k.rx_over_lin);
    lemma_bytes_of(k.tx_over_lin);
    lemma_bytes_of(k.rx_over_udp);
    lemma_bytes_of(k.tx_over_udp);
    lemma_bytes_of(k.sync_count);
    lemma_bytes_of(k.unsynched_packages);
    lemma_bytes_of(k.synched_packages);
}

/// The high and low bytes of a 16-bit value make it up again.
pub proof fn lemma_bytes_of(x: u16)
    ensures
        high_byte(x) as int * 256 + low_byte(x) as int == x,
        high_byte(x) as int == x as int / 256,
        low_byte(x) as int == x as int % 256,
{
}

/// A configuration request carries the header byte, the device id, the
/// device hash big-endian, the requested item and an empty payload.
pub proof fn lemma_config_request_layout(c: ConfigView, item: u8)
    ensures
        ({
            let m = config_request_bytes(c, item);
            &&& m.len() == CONFIG_REQUEST_LEN
            &&& m[0] == HEADER && m[1] == c.rib_id && m[4] == item
            &&& be_pair(m, 2) == c.hashes.device_hash
            &&& be_pair(m, 5) == 0
        }),
{
    lemma_bytes_of(c.hashes.device_hash);
}

/// What reading a broker message does, item by item: the device hash
/// becomes the message's hash; an item of the right size takes the
/// payload's value and the device hash from before the message as its
/// hash; nothing else changes. A frame table item holds `size / 3` fresh
/// records, entry `i` made of the payload bytes `3 i`, `3 i + 1`, `3 i + 2`.
pub proof fn lemma_server_message_effect(c: ConfigView, records: Seq<RecordView>)
    ensures
        ({
            let d = c.server_data;
            let a = after_server_message(c);
            let h = a.hashes;
            let item = d[4];
            let size = be_pair(d, 5);
            let prev = c.hashes.device_hash;
            let host = item == HOST_PORT && size == 2;
            let client = item == CLIENT_PORT && size == 2;
            let table = item == MESSAGE_SIZES;
            let mode = item == NODE_MODE && size == 1;
            let nad = item == NAD && size == 1;
            &&& !a.new_data
            &&& h.device_hash == be_pair(d, 2)
            &&& a.rib_id == c.rib_id && a.counters == c.counters && a.server_data == d
            &&& a.received_ip == c.received_ip && a.ip_address_server == c.ip_address_server
            &&& a.latest_updated_nanos == c.latest_updated_nanos
            &&& a.heart_beat_period_millis == c.heart_beat_period_millis
            &&& a.udp_ports.udp_server_config_port == c.udp_ports.udp_server_config_port
            &&& a.udp_ports.udp_target_config_port == c.udp_ports.udp_target_config_port
            &&& (if host {
                a.udp_ports.udp_lin_host_port == be_pair(d, 7) && h.host_port_hash == prev
            } else {
                a.udp_ports.udp_lin_host_port == c.udp_ports.udp_lin_host_port && h.host_port_hash
                    == c.hashes.host_port_hash
            })
            &&& (if client {
                a.udp_ports.udp_lin_client_port == be_pair(d, 7) && h.client_port_hash == prev
            } else {
                a.udp_ports.udp_lin_client_port == c.udp_ports.udp_lin_client_port
                    && h.client_port_hash == c.hashes.client_port_hash
            })
            &&& (if mode {
                crate::node_mode_byte(a.node_mode) == d[7] || !is_node_mode_byte(d[7])
            } else {
                a.node_mode == c.node_mode
            })
            &&& mode ==> h.node_mode_hash == prev
            &&& !mode ==> h.node_mode_hash == c.hashes.node_mode_hash
            &&& (if nad {
                a.nad == d[7] && h.nad_hash == prev
            } else {
                a.nad == c.nad && h.nad_hash == c.hashes.nad_hash
            })
            &&& (if table {
                h.message_sizes_hash == prev
            } else {
                h.message_sizes_hash == c.hashes.message_sizes_hash
            })
            &&& !table ==> records_after_server_message(c, records) == records
            &&& table ==> {
                let r = records_after_server_message(c, records);
                &&& r.len() == size / 3
                &&& forall|i: int|
                    0 <= i < size / 3 ==> r[i].id == d[7 + 3 * i] && r[i].size == d[8 + 3 * i]
                        && r[i].master == d[9 + 3 * i] && !r[i].cache_valid && r[i].write_cache
                        =~= Seq::new(8, |j: int| 0u8)
            }
        }),
{
    let d = c.server_data;
    assert(be16(d, 2) == be_pair(d, 2));
    assert(be16(d, 5) == be_pair(d, 5));
    assert(be16(d, 7) == be_pair(d, 7));
}

} // verus!
