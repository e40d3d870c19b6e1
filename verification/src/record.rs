use vstd::prelude::*;

verus! {

/// Number of data bytes that a LIN frame carries at most.
pub const MAX_FRAME_DATA: usize = 8;

/// The state of a record, as the contracts speak of it.
pub struct RecordView {
    pub id: u8,
    pub size: u8,
    pub master: u8,
    pub cache_valid: bool,
    pub write_cache: Seq<u8>,
}

/// A fresh record: nothing cached, the write cache all zero.
pub open spec fn fresh_record(id: u8, size: u8, master: u8) -> RecordView {
    RecordView {
        id,
        size,
        master,
        cache_valid: false,
        write_cache: Seq::new(MAX_FRAME_DATA as nat, |i: int| 0u8),
    }
}

/// The record after `data` was written to the front of its write cache.
pub open spec fn written(r: RecordView, data: Seq<u8>) -> RecordView {
    RecordView {
        write_cache: Seq::new(
            MAX_FRAME_DATA as nat,
            |i: int|
                if i < data.len() {
                    data[i]
                } else {
                    r.write_cache[i]
                },
        ),
        ..r
    }
}

/// The bytes that a record sends: the first `size` bytes of its write cache.
pub open spec fn cached(r: RecordView) -> Seq<u8> {
    Seq::new(r.size as nat, |i: int| r.write_cache[i])
}

/// A record holds the data of one LIN frame.
///
/// `id` is the LIN frame id, `size` its number of data bytes, `master`
/// tells whether the frame is a master frame (1) or an arbitration frame
/// (0), and `cache_valid` whether the write cache holds data for this frame.
#[derive(Debug, PartialEq)]
pub struct Record {
    id: u8,
    size: u8,
    master: u8,
    cache_valid: bool,
    write_cache: Vec<u8>,
}

impl View for Record {
    type V = RecordView;

    closed spec fn view(&self) -> RecordView {
        RecordView {
            id: self.id,
            size: self.size,
            master: self.master,
            cache_valid: self.cache_valid,
            write_cache: Seq::new(MAX_FRAME_DATA as nat, |i: int| self.write_cache@[i]),
        }
    }
}

/// The write cache of every record holds one frame's worth of bytes.
pub proof fn lemma_write_cache_len(r: Record)
    ensures
        r@.write_cache.len() == MAX_FRAME_DATA,
{
}

impl Record {
    #[verifier::type_invariant]
    spec fn inv(&self) -> bool {
        self.write_cache.len() == MAX_FRAME_DATA
    }

    /// Creates a record with an empty (all zero) write cache that is not valid.
    pub fn new(id: u8, size: u8, master: u8) -> (r: Self)
        ensures
            r@ == fresh_record(id, size, master),
    {
        let r = Self { id, size, master, cache_valid: false, write_cache: vec![0x00u8; 8] };
        assert(r@.write_cache =~= fresh_record(id, size, master).write_cache);
        r
    }

    pub fn id(&self) -> (id: u8)
        ensures
            id == self@.id,
    {
        self.id
    }

    pub fn size(&self) -> (size: u8)
        ensures
            size == self@.size,
    {
        self.size
    }

    /// A record is a master frame when its master flag is exactly 1.
    pub fn is_master(&self) -> (b: bool)
        ensures
            b == (self@.master == 1),
    {
        self.master == 1
    }

    pub fn set_cache_valid(&mut self, cache_valid: bool)
        ensures
            final(self)@ == (RecordView { cache_valid, ..old(self)@ }),
    {
        proof {
            use_type_invariant(&*self);
        }
        self.cache_valid = cache_valid;
    }

    pub fn cache_valid(&self) -> (b: bool)
        ensures
            b == self@.cache_valid,
    {
        self.cache_valid
    }

    /// Writes `data` to the front of the write cache; the rest stays.
    pub fn set_write_cache(&mut self, data: &[u8])
        requires
            data@.len() <= MAX_FRAME_DATA,
        ensures
            final(self)@ == written(old(self)@, data@),
    {
        proof {
            use_type_invariant(&*self);
        }
        let n = data.len();
        let mut cache: Vec<u8> = self.write_cache.clone();
        assert(cache@ =~= self.write_cache@);
        let mut i: usize = 0;
        while i < n
            invariant
                n == data@.len(),
                n <= MAX_FRAME_DATA,
                i <= n,
                cache@.len() == MAX_FRAME_DATA,
                forall|j: int| 0 <= j < i ==> cache@[j] == data@[j],
                forall|j: int| i <= j < MAX_FRAME_DATA ==> cache@[j] == old(self).write_cache@[j],
            decreases n - i,
        {
            cache.set(i, data[i]);
            i = i + 1;
        }
        self.write_cache = cache;
        assert(self@.write_cache =~= written(old(self)@, data@).write_cache);
    }

    /// The bytes of the frame: the first `size` bytes of the write cache.
    pub fn cache(&self) -> (c: &[u8])
        requires
            self@.size <= MAX_FRAME_DATA,
        ensures
            c@ == cached(self@),
    {
        proof {
            use_type_invariant(self);
        }
        let c = vstd::slice::slice_subrange(self.write_cache.as_slice(), 0, self.size as usize);
        assert(c@ =~= cached(self@));
        c
    }
}

impl Clone for Record {
    fn clone(&self) -> (r: Self)
        ensures
            r@ == self@,
    {
        proof {
            use_type_invariant(self);
        }
        let write_cache = self.write_cache.clone();
        let r = Record {
            id: self.id,
            size: self.size,
            master: self.master,
            cache_valid: self.cache_valid,
            write_cache,
        };
        assert(r@.write_cache =~= self@.write_cache);
        r
    }
}

/// What is read back after a write: once `data` of exactly `size` bytes
/// (at most one frame) is written to a record, its cached frame is `data`.
pub proof fn lemma_cache_reads_back_write(r: RecordView, data: Seq<u8>)
    requires
        data.len() == r.size,
        r.size <= MAX_FRAME_DATA,
    ensures
        cached(written(r, data)) == data,
{
    assert(cached(written(r, data)) =~= data);
}

} // verus!
