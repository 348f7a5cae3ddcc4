//! The content-addressed store: code → canonical offer bytes, with
//! insert-if-absent writes and point lookups.
use vstd::prelude::*;


verus! {

/// Compares two byte strings.
pub fn same_bytes(a: &[u8], b: &[u8]) -> (r: bool)
    ensures
        r == (a@ == b@),
{
    if a.len() != b.len() {
        return false;
    }
    let mut i: usize = 0;
    while i < a.len()
        invariant
            a@.len() == b@.len(),
            i <= a@.len(),
            forall|j: int| 0 <= j < i ==> a@[j] == b@[j],
        decreases a@.len() - i,
    {
        if a[i] != b[i] {
            return false;
        }
        i = i + 1;
    }
    assert(a@ =~= b@);
    true
}

/// One stored record.
pub struct StoredOffer {
    pub code: [u8; 12],
    pub payload: Vec<u8>,
}

/// What a write did. A code already held with other bytes is a collision:
/// the first writer wins and the later bytes are refused.
#[derive(PartialEq, Eq, Structural, Debug, Clone, Copy)]
pub enum PutOutcome {
    Inserted,
    AlreadyStored,
    Collision,
}

/// What writing `payload` under a code does, given what the code already
/// holds: an absent code is written; the same bytes again change nothing;
/// other bytes are a collision, and the first writer's bytes stay.
pub fn put_decision(existing: Option<&[u8]>, payload: &[u8]) -> (r: PutOutcome)
    ensures
        r == match existing {
            None => PutOutcome::Inserted,
            Some(e) => if e@ == payload@ {
                PutOutcome::AlreadyStored
            } else {
                PutOutcome::Collision
            },
        },
{
    match existing {
        None => PutOutcome::Inserted,
        Some(e) => if same_bytes(e, payload) {
            PutOutcome::AlreadyStored
        } else {
            PutOutcome::Collision
        },
    }
}

/// An in-memory content-addressed store. Its model is a finite map from
/// codes to payloads; a record, once there, is never changed or removed.
pub struct OfferStore {
    records: Vec<StoredOffer>,
    contents: Ghost<Map<Seq<u8>, Seq<u8>>>,
}

impl View for OfferStore {
    type V = Map<Seq<u8>, Seq<u8>>;

    closed spec fn view(&self) -> Map<Seq<u8>, Seq<u8>> {
        self.contents@
    }
}

impl OfferStore {
    /// Records and model agree, codes are unique, every code has the fixed
    /// width, and there are as many records as codes in the model.
    pub closed spec fn wf(&self) -> bool {
        &&& forall|i: int|
            0 <= i < self.records@.len() ==> #[trigger] self.contents@.contains_key(
                self.records@[i].code@,
            ) && self.contents@[self.records@[i].code@] == self.records@[i].payload@
        &&& forall|c: Seq<u8>|
            #[trigger] self.contents@.contains_key(c) ==> exists|i: int|
                0 <= i < self.records@.len() && self.records@[i].code@ == c
        &&& forall|i: int, j: int|
            0 <= i < j < self.records@.len() ==> self.records@[i].code@ != self.records@[j].code@
        &&& self.contents@.dom().finite()
        &&& self.contents@.dom().len() == self.records@.len()
    }

    /// An empty store.
    pub fn new() -> (s: Self)
        ensures
            s.wf(),
            s@ == Map::<Seq<u8>, Seq<u8>>::empty(),
    {
        OfferStore { records: Vec::new(), contents: Ghost(Map::empty()) }
    }

    /// Position of the record under `code`, if any.
    fn find(&self, code: &[u8; 12]) -> (r: Option<usize>)
        requires
            self.wf(),
        ensures
            match r {
                Some(i) => i < self.records@.len() && self.records@[i as int].code@ == code@,
                None => !self@.contains_key(code@),
            },
    {
        let mut i: usize = 0;
        while i < self.records.len()
            invariant
                self.wf(),
                i <= self.records@.len(),
                forall|j: int| 0 <= j < i ==> self.records@[j].code@ != code@,
            decreases self.records@.len() - i,
        {
            if same_bytes(&self.records[i].code, code) {
                return Some(i);
            }
            i = i + 1;
        }
        None
    }

    /// Looks up the payload stored under `code`; absence is a normal result.
    pub fn get(&self, code: &[u8; 12]) -> (r: Option<Vec<u8>>)
        requires
            self.wf(),
        ensures
            r == None::<Vec<u8>> <==> !self@.contains_key(code@),
            r matches Some(p) ==> self@[code@] == p@,
    {
        match self.find(code) {
            Some(i) => {
                let p = self.records[i].payload.clone();
                assert(self.contents@.contains_key(self.records@[i as int].code@));
                Some(p)
            },
            None => None,
        }
    }

    /// Stores `payload` under `code` unless the code is already held. The
    /// same bytes again change nothing; other bytes under a held code are a
    /// collision and change nothing either.
    pub fn put(&mut self, code: [u8; 12], payload: Vec<u8>) -> (r: PutOutcome)
        requires
            old(self).wf(),
        ensures
            final(self).wf(),
            !old(self)@.contains_key(code@) ==> r == PutOutcome::Inserted && final(self)@ == old(
                self,
            )@.insert(code@, payload@),
            old(self)@.contains_key(code@) && old(self)@[code@] == payload@ ==> r
                == PutOutcome::AlreadyStored && final(self)@ == old(self)@,
            old(self)@.contains_key(code@) && old(self)@[code@] != payload@ ==> r
                == PutOutcome::Collision && final(self)@ == old(self)@,
    {
        match self.find(&code) {
            Some(i) => {
                assert(self.contents@.contains_key(self.records@[i as int].code@));
                put_decision(Some(self.records[i].payload.as_slice()), payload.as_slice())
            },
            None => {
                let ghost old_records = self.records@;
                let ghost old_contents = self.contents@;
                let ghost key = code@;
                let ghost value = payload@;
                self.records.push(StoredOffer { code, payload });
                self.contents = Ghost(old_contents.insert(key, value));
                assert forall|i: int| 0 <= i < self.records@.len() implies #[trigger] self.contents@.contains_key(
                    self.records@[i].code@,
                ) && self.contents@[self.records@[i].code@] == self.records@[i].payload@ by {
                    if i < old_records.len() {
                        assert(self.records@[i] == old_records[i]);
                        assert(old_contents.contains_key(old_records[i].code@));
                    }
                }
                assert forall|c: Seq<u8>| #[trigger] self.contents@.contains_key(c) implies exists|i: int|
                    0 <= i < self.records@.len() && self.records@[i].code@ == c by {
                    if c == key {
                        assert(self.records@[old_records.len() as int].code@ == c);
                    } else {
                        assert(old_contents.contains_key(c));
                        let i = choose|i: int| 0 <= i < old_records.len() && old_records[i].code@ == c;
                        assert(self.records@[i] == old_records[i]);
                    }
                }
                assert forall|i: int, j: int|
                    0 <= i < j < self.records@.len() implies self.records@[i].code@
                    != self.records@[j].code@ by {
                    if j == old_records.len() {
                        assert(self.records@[i] == old_records[i]);
                        assert(old_contents.contains_key(old_records[i].code@));
                    } else {
                        assert(self.records@[i] == old_records[i]);
                        assert(self.records@[j] == old_records[j]);
                    }
                }
                PutOutcome::Inserted
            },
        }
    }

    /// Number of records held.
    pub fn len(&self) -> (r: usize)
        requires
            self.wf(),
        ensures
            r == self@.dom().len(),
    {
        self.records.len()
    }
}

} // verus!
