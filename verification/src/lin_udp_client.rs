//! The decisions of the LIN side: what a master sends for a request from
//! the broker, what a slave answers to a header on the bus, which bytes go
//! to the broker, and how a LIN header is found in the byte stream.
use vstd::prelude::*;

use crate::config::{Config, ConfigView};
use crate::lin_frame::{
    frame_bytes, frame_with_checksum, id_of, is_protected_id, lemma_protected_id, protected_id,
    spec_protected_id, MAX_FRAME_ID,
};
use crate::record::{cached, lemma_cache_reads_back_write, written, RecordView, MAX_FRAME_DATA};
use crate::records::{has_id, is_first_with_id, lemma_first_with_id_unique, Records};
use crate::{Counter, BREAK, SYN_FILED};

verus! {

/// Positions of the fields of a UDP message of LIN traffic.
pub enum PacketBufferPos {
    Id,
    Size,
    Payload,
}

/// The byte offset of a field of a UDP message of LIN traffic.
pub open spec fn packet_buffer_offset(pos: PacketBufferPos) -> usize {
    match pos {
        PacketBufferPos::Id => 3,
        PacketBufferPos::Size => 4,
        PacketBufferPos::Payload => 5,
    }
}

impl From<PacketBufferPos> for usize {
    fn from(val: PacketBufferPos) -> (offset: usize) {
        match val {
            PacketBufferPos::Id => 3,
            PacketBufferPos::Size => 4,
            PacketBufferPos::Payload => 5,
        }
    }
}

impl vstd::std_specs::convert::FromSpecImpl<PacketBufferPos> for usize {
    open spec fn obeys_from_spec() -> bool {
        true
    }

    open spec fn from_spec(val: PacketBufferPos) -> usize {
        packet_buffer_offset(val)
    }
}

/// Length of a UDP message of LIN traffic without payload.
pub const MIN_UDP_MESSAGE_LEN: usize = 5;

/// The longest payload a UDP message to the broker may announce.
pub const MAX_UDP_PAYLOAD_LEN: u8 = 11;

/// The payload length that a UDP message to the broker announces for
/// frame bytes of length `len` (data and checksum): one less than the
/// length taken modulo 256, or 0 for no bytes. It is -1 where the length
/// modulo 256 is 0, which the computation cannot take.
pub open spec fn udp_length(len: int) -> int {
    if len == 0 {
        0
    } else {
        (len % 256) - 1
    }
}

/// Frame bytes of this length can be put into a UDP message: the announced
/// length is defined, and unless it is rejected (over 11) or 0, the length
/// is exactly one more than the announced length (data and checksum).
pub open spec fn udp_packet_ok(len: int) -> bool {
    let l = udp_length(len);
    len == 0 || (len % 256 != 0 && (l > MAX_UDP_PAYLOAD_LEN || l == 0 || len == l + 1))
}

/// The UDP message to the broker for a LIN frame: three zero bytes, the
/// frame id, the announced length, and that many bytes of the frame (its
/// data without the checksum); none when the announced length is over 11.
pub open spec fn udp_message_bytes(pid: u8, data: Seq<u8>) -> Option<Seq<u8>> {
    let l = udp_length(data.len() as int);
    if l > MAX_UDP_PAYLOAD_LEN {
        None
    } else {
        Some(seq![0u8, 0u8, 0u8, id_of(pid), l as u8] + data.subrange(0, l))
    }
}

/// The state of the UDP side, as the contracts speak of it.
pub struct LinUdpClientView {
    pub data: Seq<u8>,
    pub new_data: bool,
}

/// What a master does for the pending message from the broker.
pub enum MasterAction {
    /// No new message, or one shorter than a message header: nothing to do.
    Idle,
    /// No record has the frame id of the message.
    UnknownId,
    /// The message is neither a bare header nor a header with the frame's data.
    InvalidPayload,
    /// A bare header for a master frame: nothing is sent.
    Skip,
    /// Send the LIN header, then read the slave's response of `response_len`
    /// bytes (data and checksum).
    ReadSlave { pid: u8, response_len: usize },
    /// Send the LIN header, then the frame bytes (data and checksum).
    WriteFrame { pid: u8, frame: Vec<u8> },
}

/// What a slave does for a LIN header it has read.
pub enum SlaveAction {
    /// The parity bits of the header's identifier are wrong.
    ParityError { expected: u8 },
    /// No record has the frame id of the header.
    UnknownId,
    /// Tell the broker about the header, then read the response of
    /// `response_len` bytes (data and checksum) that another node sends.
    Listen { pid: u8, response_len: usize },
    /// Send the cached frame bytes (data and checksum), then tell the broker
    /// about the header.
    Respond { pid: u8, frame: Vec<u8> },
}

/// The outcome of reading a frame's response from the bus.
pub enum LinResponse {
    /// Fewer (or more) bytes than the frame has came in.
    Incomplete,
    /// The checksum byte does not match the data.
    ChecksumMismatch,
    /// The frame bytes (data and checksum), checksum verified.
    Valid { frame: Vec<u8> },
}

/// A pending message that the master can take: its frame id is a six-bit
/// id, and when it carries the frame's data, the frame has at most 8 bytes.
pub open spec fn master_input_ok(data: Seq<u8>, records: Seq<RecordView>) -> bool {
    &&& data[3] <= MAX_FRAME_ID
    &&& forall|i: int|
        is_first_with_id(records, data[3], i) ==> (data.len() != MIN_UDP_MESSAGE_LEN && data.len()
            == MIN_UDP_MESSAGE_LEN + records[i].size ==> records[i].size <= MAX_FRAME_DATA)
}

/// A pending message that can be cached: it is not empty, and the frame it
/// names, if any, has at most 8 bytes, all of them in the message.
pub open spec fn cache_input_ok(data: Seq<u8>, records: Seq<RecordView>) -> bool {
    &&& data.len() != 0
    &&& data.len() >= 4 ==> forall|i: int|
        is_first_with_id(records, data[3], i) ==> MIN_UDP_MESSAGE_LEN + records[i].size <= data.len()
            && records[i].size <= MAX_FRAME_DATA
}

/// The frame data that a message from the broker carries for a record.
pub open spec fn message_payload(data: Seq<u8>, r: RecordView) -> Seq<u8> {
    data.subrange(MIN_UDP_MESSAGE_LEN as int, MIN_UDP_MESSAGE_LEN + r.size)
}

/// The record after a message from the broker was cached into it.
pub open spec fn cached_record(data: Seq<u8>, r: RecordView) -> RecordView {
    RecordView { cache_valid: true, ..written(r, message_payload(data, r)) }
}

/// The records after a message from the broker was cached: the first
/// record with the message's frame id holds its data and is valid.
pub open spec fn records_after_cache(data: Seq<u8>, records: Seq<RecordView>) -> Seq<RecordView> {
    if data.len() >= 4 && has_id(records, data[3]) {
        let i = choose|i: int| is_first_with_id(records, data[3], i);
        records.update(i, cached_record(data, records[i]))
    } else {
        records
    }
}

/// A header that the slave can answer: where it answers from its cache,
/// the frame has at most 8 bytes.
pub open spec fn slave_input_ok(records: Seq<RecordView>, pid: u8) -> bool {
    is_protected_id(pid) ==> forall|i: int|
        is_first_with_id(records, id_of(pid), i) ==> (records[i].master != 1
            && records[i].cache_valid ==> records[i].size <= MAX_FRAME_DATA)
}

/// The frame bytes a slave sends for a header, if it answers from its
/// cache: those of the first record with the header's id, when the header
/// is valid and the record is a valid slave frame.
pub open spec fn slave_frame(records: Seq<RecordView>, pid: u8) -> Option<Seq<u8>> {
    if is_protected_id(pid) && has_id(records, id_of(pid)) {
        let r = records[choose|i: int| is_first_with_id(records, id_of(pid), i)];
        if r.master != 1 && r.cache_valid {
            Some(frame_with_checksum(pid, cached(r)))
        } else {
            None
        }
    } else {
        None
    }
}

/// The UDP side of the device: the last message from the broker.
pub struct LinUdpClient {
    data: Vec<u8>,
    new_data: bool,
}

impl View for LinUdpClient {
    type V = LinUdpClientView;

    closed spec fn view(&self) -> LinUdpClientView {
        LinUdpClientView { data: self.data@, new_data: self.new_data }
    }
}

impl LinUdpClient {
    /// No message from the broker yet.
    pub fn new() -> (c: Self)
        ensures
            c@ == (LinUdpClientView { data: Seq::empty(), new_data: false }),
    {
        Self { data: Vec::new(), new_data: false }
    }

    /// Stores a message that came from the broker; it is pending until
    /// taken.
    pub fn receive_udp_message(&mut self, message: &[u8])
        ensures
            final(self)@ == (LinUdpClientView { data: message@, new_data: true }),
    {
        self.data = vstd::slice::slice_to_vec(message);
        self.new_data = true;
    }

    /// Whether a message from the broker is pending.
    pub fn has_new_data(&self) -> (b: bool)
        ensures
            b == self@.new_data,
    {
        self.new_data
    }

    /// Whether `run_master` can take the pending message (see
    /// `master_input_ok`).
    pub fn master_input_is_ok(&self, records: &Records) -> (ok: bool)
        ensures
            ok == (self@.new_data && self@.data.len() >= MIN_UDP_MESSAGE_LEN ==> master_input_ok(
                self@.data,
                records@,
            )),
    {
        let len = self.data.len();
        if !self.new_data || len < MIN_UDP_MESSAGE_LEN {
            return true;
        }
        let id = self.data[3];
        if id > MAX_FRAME_ID {
            return false;
        }
        let ghost rs = records@;
        match records.find_by_id_im(id) {
            None => true,
            Some(r) => {
                let ghost i = choose|i: int| is_first_with_id(rs, id, i) && r@ == rs[i];
                proof {
                    assert forall|k: int| is_first_with_id(rs, id, k) implies k == i by {
                        lemma_first_with_id_unique(rs, id, i, k);
                    }
                }
                let size = r.size() as usize;
                !(len != MIN_UDP_MESSAGE_LEN && len == MIN_UDP_MESSAGE_LEN + size) || size
                    <= MAX_FRAME_DATA
            },
        }
    }

    /// Whether `cache_udp_message` can take the pending message (see
    /// `cache_input_ok`).
    pub fn cache_input_is_ok(&self, records: &Records) -> (ok: bool)
        ensures
            ok == (self@.new_data ==> cache_input_ok(self@.data, records@)),
    {
        let len = self.data.len();
        if !self.new_data {
            return true;
        }
        if len == 0 {
            return false;
        }
        if len < 4 {
            return true;
        }
        let id = self.data[3];
        let ghost rs = records@;
        match records.find_by_id_im(id) {
            None => true,
            Some(r) => {
                let ghost i = choose|i: int| is_first_with_id(rs, id, i) && r@ == rs[i];
                proof {
                    assert forall|k: int| is_first_with_id(rs, id, k) implies k == i by {
                        lemma_first_with_id_unique(rs, id, i, k);
                    }
                }
                let size = r.size() as usize;
                MIN_UDP_MESSAGE_LEN + size <= len && size <= MAX_FRAME_DATA
            },
        }
    }

    /// Whether `run_slave` can answer a header with identifier `pid` (see
    /// `slave_input_ok`).
    pub fn slave_input_is_ok(records: &Records, pid: u8) -> (ok: bool)
        ensures
            ok == slave_input_ok(records@, pid),
    {
        let id = pid & MAX_FRAME_ID;
        assert(id <= MAX_FRAME_ID) by (bit_vector)
            requires
                id == pid & 0x3Fu8,
        ;
        assert(id == id_of(pid));
        if protected_id(id) != pid {
            return true;
        }
        let ghost rs = records@;
        match records.find_by_id_im(id) {
            None => {
                assert forall|i: int| !is_first_with_id(rs, id, i) by {
                    if is_first_with_id(rs, id, i) {
                        assert(rs[i].id == id);
                    }
                }
                true
            },
            Some(r) => {
                let ghost i = choose|i: int| is_first_with_id(rs, id, i) && r@ == rs[i];
                proof {
                    assert forall|k: int| is_first_with_id(rs, id, k) implies k == i by {
                        lemma_first_with_id_unique(rs, id, i, k);
                    }
                }
                !(!r.is_master() && r.cache_valid()) || (r.size() as usize) <= MAX_FRAME_DATA
            },
        }
    }

    /// Takes the pending message from the broker, as a master.
    ///
    /// A message is a header of 5 bytes (with the frame id at offset 3),
    /// possibly followed by the frame's data. A bare header for a slave
    /// frame asks to read the slave's response; a header with the frame's
    /// data writes the data to the record and sends it on the bus.
    pub fn run_master(&mut self, records: &mut Records) -> (action: MasterAction)
        requires
            old(self)@.new_data && old(self)@.data.len() >= MIN_UDP_MESSAGE_LEN ==> master_input_ok(
                old(self)@.data,
                old(records)@,
            ),
        ensures
            !(old(self)@.new_data && old(self)@.data.len() >= MIN_UDP_MESSAGE_LEN) ==> action
                is Idle && final(self)@ == old(self)@ && final(records)@ == old(records)@,
            old(self)@.new_data && old(self)@.data.len() >= MIN_UDP_MESSAGE_LEN ==> {
                let data = old(self)@.data;
                let rs = old(records)@;
                let id = data[3];
                let pid = spec_protected_id(id);
                &&& final(self)@ == (LinUdpClientView { new_data: false, ..old(self)@ })
                &&& !has_id(rs, id) ==> action is UnknownId && final(records)@ == rs
                &&& forall|i: int|
                    is_first_with_id(rs, id, i) ==> {
                        let r = rs[i];
                        &&& (data.len() != MIN_UDP_MESSAGE_LEN && data.len() != MIN_UDP_MESSAGE_LEN
                            + r.size) ==> action is InvalidPayload && final(records)@ == rs
                        &&& (data.len() == MIN_UDP_MESSAGE_LEN && r.master == 1) ==> action is Skip
                            && final(records)@ == rs
                        &&& (data.len() == MIN_UDP_MESSAGE_LEN && r.master != 1) ==> action
                            == (MasterAction::ReadSlave { pid, response_len: (r.size + 1) as usize })
                            && final(records)@ == rs
                        &&& (data.len() != MIN_UDP_MESSAGE_LEN && data.len() == MIN_UDP_MESSAGE_LEN
                            + r.size) ==> (action matches MasterAction::WriteFrame { pid: p, frame }
                            && p == pid && frame@ == frame_with_checksum(pid, message_payload(data, r))
                            && final(records)@ == rs.update(i, written(r, message_payload(data, r))))
                    }
            },
    {
        if !self.new_data || self.data.len() < MIN_UDP_MESSAGE_LEN {
            return MasterAction::Idle;
        }
        self.new_data = false;
        let id = self.data[usize::from(PacketBufferPos::Id)];
        let pid = protected_id(id);
        proof {
            lemma_protected_id(id);
        }
        let record = records.find_by_id_im(id);
        let ghost rs = old(records)@;
        match record {
            None => MasterAction::UnknownId,
            Some(record) => {
                let ghost i = choose|i: int| is_first_with_id(rs, id, i) && record@ == rs[i];
                proof {
                    assert forall|k: int| is_first_with_id(rs, id, k) implies k == i by {
                        lemma_first_with_id_unique(rs, id, i, k);
                    }
                }
                let len = self.data.len();
                let size = record.size() as usize;
                if !(len == MIN_UDP_MESSAGE_LEN || len == MIN_UDP_MESSAGE_LEN + size) {
                    return MasterAction::InvalidPayload;
                }
                if len == MIN_UDP_MESSAGE_LEN {
                    if !record.is_master() {
                        MasterAction::ReadSlave { pid, response_len: size + 1 }
                    } else {
                        MasterAction::Skip
                    }
                } else {
                    let payload = vstd::slice::slice_subrange(
                        self.data.as_slice(),
                        usize::from(PacketBufferPos::Payload),
                        MIN_UDP_MESSAGE_LEN + size,
                    );
                    match records.find_by_id(id) {
                        Some(r) => {
                            proof {
                                lemma_cache_reads_back_write(r@, payload@);
                            }
                            r.set_write_cache(payload);
                            let frame = frame_bytes(pid, r.cache());
                            MasterAction::WriteFrame { pid, frame }
                        },
                        None => MasterAction::UnknownId,
                    }
                }
            },
        }
    }
    /// Takes the pending message from the broker, as a slave: its data goes
    /// into the write cache of the first record with its frame id, which
    /// becomes valid (see `records_after_cache`). A message shorter than 4
    /// bytes is dropped.
    pub fn cache_udp_message(&mut self, records: &mut Records, _record_id: u8)
        requires
            old(self)@.new_data ==> cache_input_ok(old(self)@.data, old(records)@),
        ensures
            !old(self)@.new_data ==> final(self)@ == old(self)@ && final(records)@ == old(records)@,
            old(self)@.new_data ==> final(self)@ == (LinUdpClientView {
                new_data: false,
                ..old(self)@
            }) && final(records)@ == records_after_cache(old(self)@.data, old(records)@),
    {
        if !self.new_data {
            return;
        }
        self.new_data = false;
        if self.data.len() < 4 && self.data.len() != 0 {
            return;
        }
        let id = self.data[usize::from(PacketBufferPos::Id)];
        let ghost rs = old(records)@;
        let ghost data = self.data@;
        match records.find_by_id(id) {
            Some(record) => {
                let ghost i = choose|i: int| is_first_with_id(rs, id, i) && record@ == rs[i];
                proof {
                    let c = choose|i: int| is_first_with_id(rs, data[3], i);
                    lemma_first_with_id_unique(rs, id, i, c);
                }
                let size = record.size() as usize;
                let payload = vstd::slice::slice_subrange(
                    self.data.as_slice(),
                    usize::from(PacketBufferPos::Payload),
                    MIN_UDP_MESSAGE_LEN + size,
                );
                record.set_write_cache(payload);
                record.set_cache_valid(true);
            },
            None => {},
        }
    }

    /// Decides how a slave answers a LIN header with identifier `pid`: a
    /// header with wrong parity bits or an unknown frame id is not answered;
    /// a master frame, or a slave frame without valid cached data, is
    /// listened to; otherwise the cached frame is sent.
    pub fn run_slave(records: &Records, pid: u8) -> (action: SlaveAction)
        requires
            slave_input_ok(records@, pid),
        ensures
            !is_protected_id(pid) ==> action == (SlaveAction::ParityError {
                expected: spec_protected_id(id_of(pid)),
            }),
            is_protected_id(pid) && !has_id(records@, id_of(pid)) ==> action is UnknownId,
            forall|i: int|
                is_protected_id(pid) && is_first_with_id(records@, id_of(pid), i) ==> {
                    let r = records@[i];
                    &&& (r.master == 1 || !r.cache_valid) ==> action == (SlaveAction::Listen {
                        pid,
                        response_len: (r.size + 1) as usize,
                    })
                    &&& (r.master != 1 && r.cache_valid) ==> (action matches SlaveAction::Respond {
                        pid: p,
                        frame,
                    } && p == pid && frame@ == frame_with_checksum(pid, cached(r)))
                },
            slave_frame(records@, pid) matches Some(f) ==> (action matches SlaveAction::Respond {
                frame,
                ..
            } && frame@ == f),
            slave_frame(records@, pid) is None ==> !(action is Respond),
    {
        let id = pid & MAX_FRAME_ID;
        assert(id <= MAX_FRAME_ID) by (bit_vector)
            requires
                id == pid & 0x3Fu8,
        ;
        let expected = protected_id(id);
        if expected != pid {
            return SlaveAction::ParityError { expected };
        }
        let ghost rs = records@;
        match records.find_by_id_im(id) {
            None => SlaveAction::UnknownId,
            Some(record) => {
                let ghost i = choose|i: int| is_first_with_id(rs, id, i) && record@ == rs[i];
                proof {
                    assert forall|k: int| is_first_with_id(rs, id, k) implies k == i by {
                        lemma_first_with_id_unique(rs, id, i, k);
                    }
                }
                if record.is_master() || !record.cache_valid() {
                    SlaveAction::Listen { pid, response_len: record.size() as usize + 1 }
                } else {
                    let frame = frame_bytes(pid, record.cache());
                    SlaveAction::Respond { pid, frame }
                }
            },
        }
    }

    /// Checks the response to a header with identifier `pid` that came in
    /// from the bus: `response` holds the bytes read where `response_len`
    /// (data and checksum) were expected. A complete response whose
    /// checksum matches its data is a valid frame.
    pub fn read_lin_and_send_udp(pid: u8, response_len: usize, response: &[u8]) -> (outcome:
        LinResponse)
        requires
            is_protected_id(pid),
            response_len >= 1,
            response@.len() == response_len ==> response_len <= MAX_FRAME_DATA + 1,
        ensures
            response@.len() != response_len ==> outcome is Incomplete,
            response@.len() == response_len ==> {
                let data = response@.subrange(0, response_len - 1);
                &&& frame_with_checksum(pid, data) == response@ ==> (outcome matches LinResponse::Valid {
                    frame,
                } && frame@ == response@ && udp_packet_ok(frame@.len() as int) && udp_message_bytes(
                    pid,
                    frame@,
                ) == Some(seq![0u8, 0u8, 0u8, id_of(pid), (response_len - 1) as u8] + data))
                &&& frame_with_checksum(pid, data) != response@ ==> outcome is ChecksumMismatch
            },
    {
        if response.len() != response_len {
            return LinResponse::Incomplete;
        }
        let size = response_len - 1;
        let data = vstd::slice::slice_subrange(response, 0, size);
        let frame = frame_bytes(pid, data);
        if frame[size] == response[size] {
            assert(frame@ =~= response@);
            LinResponse::Valid { frame }
        } else {
            assert(frame@[size as int] != response@[size as int]);
            LinResponse::ChecksumMismatch
        }
    }

    /// Whether frame bytes of length `len` can be put into a UDP message to
    /// the broker (see `udp_packet_ok`).
    pub fn udp_packet_fits(len: usize) -> (ok: bool)
        ensures
            ok == udp_packet_ok(len as int),
    {
        if len == 0 {
            return true;
        }
        let t = len % 256;
        if t == 0 {
            return false;
        }
        let l = t - 1;
        l > MAX_UDP_PAYLOAD_LEN as usize || l == 0 || len == l + 1
    }

    /// The UDP message that tells the broker about a LIN frame with
    /// identifier `pid` and frame bytes `data` (data and checksum), or none
    /// when its announced length is over 11 (see `udp_message_bytes`). The
    /// message announces how many frame bytes it carries.
    pub fn udp_message(pid: u8, data: &[u8]) -> (msg: Option<Vec<u8>>)
        requires
            udp_packet_ok(data@.len() as int),
        ensures
            msg is None <==> udp_message_bytes(pid, data@) is None,
            msg matches Some(m) ==> udp_message_bytes(pid, data@) == Some(m@) && m@[4] as int
                == m@.len() - MIN_UDP_MESSAGE_LEN && m@[3] == id_of(pid),
    {
        let n = data.len();
        let length: u8 = if n == 0 {
            0
        } else {
            ((n % 256) as u8) - 1
        };
        if length > MAX_UDP_PAYLOAD_LEN {
            return None;
        }
        let id = pid & MAX_FRAME_ID;
        let mut msg: Vec<u8> = Vec::new();
        msg.push(0);
        msg.push(0);
        msg.push(0);
        msg.push(id);
        msg.push(length);
        let mut i: usize = 0;
        while i < length as usize
            invariant
                length as int == udp_length(n as int),
                length <= MAX_UDP_PAYLOAD_LEN,
                length != 0 ==> n == length + 1,
                n == data@.len(),
                i <= length,
                msg@ =~= seq![0u8, 0u8, 0u8, id, length] + data@.subrange(0, i as int),
            decreases length - i,
        {
            msg.push(data[i]);
            i = i + 1;
        }
        Some(msg)
    }
}

/// Finds a LIN header (a break, the sync field, then the identifier) in
/// the bytes read from the bus: a window of the last three bytes, and how
/// many bytes were shifted in before the window held a header (counted
/// modulo 65535).
pub struct HeaderSync {
    pub first: u8,
    pub second: u8,
    pub third: u8,
    pub tries: u16,
}

impl HeaderSync {
    /// Starts from the first three bytes read.
    pub fn new(first: u8, second: u8, third: u8) -> (s: Self)
        ensures
            s == (HeaderSync { first, second, third, tries: 0 }),
    {
        HeaderSync { first, second, third, tries: 0 }
    }

    /// The window holds a header: a break followed by the sync field.
    pub fn is_synched(&self) -> (b: bool)
        ensures
            b == (self.first == BREAK && self.second == SYN_FILED),
    {
        self.first == BREAK && self.second == SYN_FILED
    }

    /// Shifts the next byte read into the window.
    pub fn shift(&mut self, byte: u8)
        ensures
            final(self).first == old(self).second,
            final(self).second == old(self).third,
            final(self).third == byte,
            final(self).tries == (old(self).tries + 1) % (u16::MAX as int),
    {
        self.first = self.second;
        self.second = self.third;
        self.third = byte;
        self.tries = ((self.tries as u32 + 1) % (u16::MAX as u32)) as u16;
    }

    /// The identifier byte of the header.
    pub fn pid(&self) -> (pid: u8)
        ensures
            pid == self.third,
    {
        self.third
    }

    /// Counts the header in the traffic counters: one more synched package,
    /// and when bytes had to be skipped, one more unsynched package and the
    /// number of bytes skipped.
    pub fn count(&self, config: &mut Config)
        requires
            old(config)@.counters.synched_packages < u16::MAX,
            self.tries > 0 ==> old(config)@.counters.unsynched_packages < u16::MAX,
        ensures
            final(config)@ == (ConfigView {
                counters: Counter {
                    synched_packages: (old(config)@.counters.synched_packages + 1) as u16,
                    unsynched_packages: if self.tries > 0 {
                        (old(config)@.counters.unsynched_packages + 1) as u16
                    } else {
                        old(config)@.counters.unsynched_packages
                    },
                    sync_count: if self.tries > 0 {
                        self.tries
                    } else {
                        old(config)@.counters.sync_count
                    },
                    ..old(config)@.counters
                },
                ..old(config)@
            }),
    {
        config.increment_synched_packages();
        if self.tries > 0 {
            config.increment_un_synched_packages();
            config.set_synch_count(self.tries);
        }
    }
}

/// What the broker sends for a slave frame is what the slave answers with:
/// once a message for a known slave frame is cached, a header for that
/// frame is answered with the message's data and its checksum.
pub proof fn lemma_cached_message_is_answered(data: Seq<u8>, records: Seq<RecordView>, pid: u8)
    requires
        data.len() >= 4,
        cache_input_ok(data, records),
        is_protected_id(pid),
        id_of(pid) == data[3],
        forall|i: int| is_first_with_id(records, data[3], i) ==> records[i].master != 1,
    ensures
        forall|i: int|
            is_first_with_id(records, data[3], i) ==> slave_frame(
                records_after_cache(data, records),
                pid,
            ) == Some(frame_with_checksum(pid, message_payload(data, records[i]))),
{
    assert forall|i: int| is_first_with_id(records, data[3], i) implies slave_frame(
        records_after_cache(data, records),
        pid,
    ) == Some(frame_with_checksum(pid, message_payload(data, records[i]))) by {
        let c = choose|i: int| is_first_with_id(records, data[3], i);
        lemma_first_with_id_unique(records, data[3], i, c);
        let after = records_after_cache(data, records);
        let r = records[i];
        assert(after == records.update(i, cached_record(data, r)));
        assert(is_first_with_id(after, data[3], i));
        assert(has_id(after, data[3]));
        let k = choose|k: int| is_first_with_id(after, id_of(pid), k);
        lemma_first_with_id_unique(after, data[3], i, k);
        lemma_cache_reads_back_write(r, message_payload(data, r));
    }
}

/// Caching a broker message changes only the first record with the
/// message's frame id: that record keeps its id, size and master flag,
/// becomes valid and caches the message's data; every other record is
/// left exactly as it was. A message shorter than 4 bytes, or one for a
/// frame id that no record has, changes nothing.
pub proof fn lemma_cache_changes_only_its_record(data: Seq<u8>, records: Seq<RecordView>)
    requires
        cache_input_ok(data, records),
    ensures
        ({
            let after = records_after_cache(data, records);
            &&& after.len() == records.len()
            &&& (data.len() < 4 || !has_id(records, data[3])) ==> after == records
            &&& data.len() >= 4 ==> forall|i: int|
                is_first_with_id(records, data[3], i) ==> {
                    &&& after[i].id == records[i].id
                    &&& after[i].size == records[i].size
                    &&& after[i].master == records[i].master
                    &&& after[i].cache_valid
                    &&& cached(after[i]) == data.subrange(
                        MIN_UDP_MESSAGE_LEN as int,
                        MIN_UDP_MESSAGE_LEN + records[i].size,
                    )
                    &&& forall|j: int| 0 <= j < records.len() && j != i ==> after[j] == records[j]
                }
        }),
{
    if data.len() >= 4 && has_id(records, data[3]) {
        crate::records::lemma_first_with_id_exists(records, data[3]);
        let c = choose|i: int| is_first_with_id(records, data[3], i);
        assert forall|i: int| is_first_with_id(records, data[3], i) implies {
            let after = records_after_cache(data, records);
            &&& after[i].id == records[i].id
            &&& after[i].size == records[i].size
            &&& after[i].master == records[i].master
            &&& after[i].cache_valid
            &&& cached(after[i]) == data.subrange(
                MIN_UDP_MESSAGE_LEN as int,
                MIN_UDP_MESSAGE_LEN + records[i].size,
            )
            &&& forall|j: int| 0 <= j < records.len() && j != i ==> after[j] == records[j]
        } by {
            lemma_first_with_id_unique(records, data[3], i, c);
            lemma_cache_reads_back_write(records[i], message_payload(data, records[i]));
        }
    } else if data.len() >= 4 {
        assert forall|i: int| !is_first_with_id(records, data[3], i) by {
            if is_first_with_id(records, data[3], i) {
                assert(records[i].id == data[3]);
            }
        }
    }
}

/// A UDP message to the broker for frame bytes `data` (data and checksum)
/// starts with three zero bytes and the frame id, announces `l`, one less
/// than the number of bytes, and carries the first `l` bytes (the checksum
/// is left out); there is none exactly when `l` is over 11.
pub proof fn lemma_udp_message_layout(pid: u8, data: Seq<u8>)
    requires
        udp_packet_ok(data.len() as int),
    ensures
        (udp_message_bytes(pid, data) is None) == (data.len() % 256 > MAX_UDP_PAYLOAD_LEN + 1),
        udp_message_bytes(pid, data) matches Some(m) ==> {
            &&& m[0] == 0 && m[1] == 0 && m[2] == 0
            &&& m[3] == id_of(pid)
            &&& m.len() == MIN_UDP_MESSAGE_LEN + m[4]
            &&& data.len() > 0 && data.len() < 256 ==> m[4] == data.len() - 1
            &&& forall|j: int| 0 <= j < m[4] ==> m[MIN_UDP_MESSAGE_LEN + j] == data[j]
        },
{
}

} // verus!
