//! The process registry: one entry per punch-out session, keyed by an
//! id that is never reused, all entries kept for the registry's life.

use vstd::prelude::*;

use crate::external::random_u128;
use crate::payload::CallUpPayload;
use crate::text::append_bytes;
use crate::text::dec_digits;
use crate::text::u128_to_dec;

verus! {

/// A process identifier: a random token paired with a serial that the
/// registry never hands out twice.
#[derive(Clone, Copy, Debug, PartialEq, Eq, Structural)]
pub struct ProcessId {
    pub token: u128,
    pub serial: u64,
}

impl ProcessId {
    /// The id written out: the token, a separator, the serial.
    pub open spec fn spec_text(self) -> Seq<u8> {
        dec_digits(self.token as nat) + seq![45u8] + dec_digits(self.serial as nat)
    }

    pub fn text(&self) -> (r: Vec<u8>)
        ensures
            r@ == self.spec_text(),
    {
        let mut v = u128_to_dec(self.token);
        v.push(45);
        let ser = u128_to_dec(self.serial as u128);
        append_bytes(&mut v, &ser);
        proof {
            assert(v@ =~= self.spec_text());
        }
        v
    }
}

/// One punch-out session: its id, the latest call-up payload, and the
/// documents of the latest confirmation attempt.
#[derive(Clone, Debug)]
pub struct PunchoutProcess {
    pub id: ProcessId,
    pub call_up_posted_data: Option<CallUpPayload>,
    pub cxml_request: Option<Vec<u8>>,
    pub cxml_response: Option<Vec<u8>>,
}

/// A process as `start` creates it: nothing received or sent yet.
pub open spec fn empty_process(id: ProcessId) -> PunchoutProcess {
    PunchoutProcess { id, call_up_posted_data: None, cxml_request: None, cxml_response: None }
}

/// The index of the first entry with this id, if any.
pub open spec fn spec_index_of(s: Seq<PunchoutProcess>, id: ProcessId) -> Option<int>
    decreases s.len(),
{
    if s.len() == 0 {
        None
    } else if s[0].id == id {
        Some(0int)
    } else {
        match spec_index_of(s.drop_first(), id) {
            Some(j) => Some(j + 1),
            None => None,
        }
    }
}

/// What a found (or missing) index means, entry by entry.
pub proof fn lemma_index_of(s: Seq<PunchoutProcess>, id: ProcessId)
    ensures
        match spec_index_of(s, id) {
            Some(j) => 0 <= j < s.len() && s[j].id == id && forall|k: int|
                0 <= k < j ==> s[k].id != id,
            None => forall|k: int| 0 <= k < s.len() ==> s[k].id != id,
        },
    decreases s.len(),
{
    if s.len() == 0 {
    } else if s[0].id == id {
    } else {
        lemma_index_of(s.drop_first(), id);
        assert(forall|k: int| 1 <= k < s.len() ==> s[k] == s.drop_first()[k - 1]);
    }
}

/// The registry of all processes ever started.
pub struct ProcessRegistry {
    pub processes: Vec<PunchoutProcess>,
    pub next_serial: u64,
}

impl ProcessRegistry {
    /// Every id is unique, no serial reaches `next_serial`, and no
    /// process holds a response document without its request document.
    pub open spec fn wf(self) -> bool {
        &&& forall|i: int|
            0 <= i < self.processes@.len() ==> (#[trigger] self.processes@[i]).id.serial
                < self.next_serial
        &&& forall|i: int, j: int|
            0 <= i < j < self.processes@.len() ==> (#[trigger] self.processes@[i]).id.serial != (
            #[trigger] self.processes@[j]).id.serial
        &&& forall|i: int|
            0 <= i < self.processes@.len() ==> ((#[trigger] self.processes@[i]).cxml_response
                is Some ==> self.processes@[i].cxml_request is Some)
        &&& forall|i: int|
            0 <= i < self.processes@.len() ==> ((#[trigger] self.processes@[i]).cxml_request
                is Some ==> self.processes@[i].call_up_posted_data is Some)
    }

    /// The id is present in the registry.
    pub open spec fn has_id(self, id: ProcessId) -> bool {
        spec_index_of(self.processes@, id) is Some
    }

    /// An empty registry.
    pub fn new() -> (r: ProcessRegistry)
        ensures
            r.wf(),
            r.processes@.len() == 0,
            r.next_serial == 0,
    {
        ProcessRegistry { processes: Vec::new(), next_serial: 0 }
    }

    /// The index of the entry with this id, if any.
    pub fn find_index(&self, id: ProcessId) -> (r: Option<usize>)
        ensures
            match r {
                Some(j) => j < self.processes@.len() && self.processes@[j as int].id == id
                    && spec_index_of(self.processes@, id) == Some(j as int),
                None => spec_index_of(self.processes@, id) is None,
            },
    {
        let n = self.processes.len();
        let mut i: usize = 0;
        while i < n
            invariant
                i <= n,
                n == self.processes@.len(),
                forall|k: int| 0 <= k < i ==> (#[trigger] self.processes@[k]).id != id,
            decreases n - i,
        {
            let p = &self.processes[i];
            if p.id.token == id.token && p.id.serial == id.serial {
                proof {
                    assert(self.processes@[i as int].id == id);
                    lemma_index_of(self.processes@, id);
                }
                return Some(i);
            }
            proof {
                assert(self.processes@[i as int].id != id);
            }
            i += 1;
        }
        proof {
            lemma_index_of(self.processes@, id);
        }
        None
    }

    /// Read access to the process with this id, if any.
    pub fn get(&self, id: ProcessId) -> (r: Option<&PunchoutProcess>)
        ensures
            match r {
                Some(p) => self.has_id(id) && *p == self.processes@[spec_index_of(
                    self.processes@,
                    id,
                )->0],
                None => !self.has_id(id),
            },
    {
        match self.find_index(id) {
            Some(j) => Some(&self.processes[j]),
            None => None,
        }
    }

    /// Inserts a new empty process under a freshly generated id and
    /// returns that id, which was absent from the registry beforehand.
    pub fn create(&mut self) -> (id: ProcessId)
        requires
            old(self).wf(),
            old(self).next_serial < u64::MAX,
        ensures
            final(self).wf(),
            !old(self).has_id(id),
            final(self).has_id(id),
            id.serial == old(self).next_serial,
            final(self).next_serial == old(self).next_serial + 1,
            final(self).processes@ == old(self).processes@.push(empty_process(id)),
    {
        let token = random_u128();
        let id = ProcessId { token, serial: self.next_serial };
        proof {
            lemma_index_of(self.processes@, id);
            if self.has_id(id) {
                let j = spec_index_of(self.processes@, id)->0;
                assert(self.processes@[j].id.serial < self.next_serial);
            }
        }
        self.processes.push(
            PunchoutProcess {
                id,
                call_up_posted_data: None,
                cxml_request: None,
                cxml_response: None,
            },
        );
        self.next_serial = self.next_serial + 1;
        proof {
            lemma_index_of(self.processes@, id);
            if spec_index_of(self.processes@, id) is None {
                assert(self.processes@[self.processes@.len() - 1].id == id);
            }
        }
        id
    }
}

} // verus!
