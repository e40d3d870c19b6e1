use vstd::prelude::*;

use crate::record::{Record, RecordView};

verus! {

/// The views of a list of records.
pub open spec fn record_views(list: Seq<Record>) -> Seq<RecordView> {
    list.map_values(|r: Record| r@)
}

/// `i` is the position of the first record with the given id.
pub open spec fn is_first_with_id(s: Seq<RecordView>, id: u8, i: int) -> bool {
    &&& 0 <= i < s.len()
    &&& s[i].id == id
    &&& forall|j: int| 0 <= j < i ==> s[j].id != id
}

/// Some record has the given id.
pub open spec fn has_id(s: Seq<RecordView>, id: u8) -> bool {
    exists|i: int| 0 <= i < s.len() && s[i].id == id
}

/// When some record has an id, a first record with that id exists.
pub proof fn lemma_first_with_id_exists(s: Seq<RecordView>, id: u8)
    requires
        has_id(s, id),
    ensures
        exists|i: int| is_first_with_id(s, id, i),
    decreases s.len(),
{
    if s[0].id == id {
        assert(is_first_with_id(s, id, 0));
    } else {
        let w = choose|j: int| 0 <= j < s.len() && s[j].id == id;
        let t = s.subrange(1, s.len() as int);
        assert(t[w - 1] == s[w]);
        lemma_first_with_id_exists(t, id);
        let k = choose|k: int| is_first_with_id(t, id, k);
        assert forall|j: int| 0 <= j < k + 1 implies s[j].id != id by {
            if j > 0 {
                assert(s[j] == t[j - 1]);
            }
        }
        assert(is_first_with_id(s, id, k + 1));
    }
}

/// Only one position holds the first record with a given id.
pub proof fn lemma_first_with_id_unique(s: Seq<RecordView>, id: u8, i: int, k: int)
    requires
        is_first_with_id(s, id, i),
        is_first_with_id(s, id, k),
    ensures
        i == k,
{
    if i < k {
        assert(s[i].id != id);
    } else if k < i {
        assert(s[k].id != id);
    }
}

/// Holds the records, one per LIN frame, that the device knows about.
pub struct Records {
    record_list: Vec<Record>,
}

impl View for Records {
    type V = Seq<RecordView>;

    closed spec fn view(&self) -> Seq<RecordView> {
        record_views(self.record_list@)
    }
}

impl Records {
    /// Creates an empty collection (with room for 30 records).
    pub fn new() -> (r: Self)
        ensures
            r@ == Seq::<RecordView>::empty(),
    {
        let r = Self { record_list: Vec::with_capacity(30) };
        assert(r@ =~= Seq::<RecordView>::empty());
        r
    }

    /// Replaces the whole list of records.
    pub fn set_list(&mut self, records: Vec<Record>)
        ensures
            final(self)@ == record_views(records@),
    {
        self.record_list = records;
    }

    /// A copy of the list of records.
    pub fn get_records(&self) -> (list: Vec<Record>)
        ensures
            record_views(list@) == self@,
    {
        let list = self.record_list.clone();
        assert(record_views(list@) =~= self@) by {
            assert forall|i: int| 0 <= i < list@.len() implies list@[i]@ == self.record_list@[i]@ by {
                assert(cloned::<Record>(self.record_list[i], list[i]));
            }
        }
        list
    }

    /// The position of the first record with the given id.
    fn position_of(&self, id: u8) -> (pos: Option<usize>)
        ensures
            pos is Some <==> has_id(self@, id),
            pos matches Some(i) ==> is_first_with_id(self@, id, i as int) && i < self.record_list@.len(),
    {
        let n = self.record_list.len();
        let mut i: usize = 0;
        while i < n
            invariant
                n == self.record_list@.len(),
                n == self@.len(),
                i <= n,
                forall|j: int| 0 <= j < i ==> self@[j].id != id,
            decreases n - i,
        {
            assert(self@[i as int] == self.record_list@[i as int]@);
            if self.record_list[i].id() == id {
                return Some(i);
            }
            i = i + 1;
        }
        None
    }

    /// Searches the collection for the first record with `id` and returns a
    /// copy of it, or `None` when no record has that id.
    pub fn find_by_id_im(&self, id: u8) -> (found: Option<Record>)
        ensures
            found is Some <==> has_id(self@, id),
            found matches Some(r) ==> exists|i: int| is_first_with_id(self@, id, i) && r@ == self@[i],
    {
        match self.position_of(id) {
            Some(i) => {
                let r = self.record_list[i].clone();
                assert(self@[i as int] == self.record_list@[i as int]@);
                Some(r)
            },
            None => None,
        }
    }

    /// Searches the collection for the first record with `id` and returns a
    /// mutable reference to it, or `None` when no record has that id.
    pub fn find_by_id(&mut self, id: u8) -> (found: Option<&mut Record>)
        ensures
            found is Some <==> has_id(old(self)@, id),
            found is None ==> final(self)@ == old(self)@,
            found matches Some(r) ==> exists|i: int|
                is_first_with_id(old(self)@, id, i) && (*r)@ == old(self)@[i] && final(self)@
                    == old(self)@.update(i, (*final(r))@),
    {
        match self.position_of(id) {
            Some(i) => {
                assert(self@[i as int] == self.record_list@[i as int]@);
                let r = &mut self.record_list[i];
                Some(r)
            },
            None => None,
        }
    }
}

} // verus!
