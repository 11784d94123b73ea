//! Laws that relate several operations: id uniqueness over the
//! registry's life, wholesale payload overwrite across two call-ups,
//! what a confirmation without a call-up leaves behind, and
//! read-after-write visibility of the confirmation documents.

use vstd::prelude::*;

use crate::lifecycle::confirmable;
use crate::payload::CallUpPayload;
use crate::registry::spec_index_of;
use crate::registry::ProcessId;
use crate::registry::ProcessRegistry;
use crate::registry::PunchoutProcess;

verus! {

/// In a well-formed registry no two entries share an id: every id a
/// start handed out stays unique for the registry's life.
pub proof fn lemma_ids_pairwise_distinct(s: ProcessRegistry)
    requires
        s.wf(),
    ensures
        forall|i: int, j: int|
            0 <= i < j < s.processes@.len() ==> (#[trigger] s.processes@[i]).id != (
            #[trigger] s.processes@[j]).id,
{
    assert forall|i: int, j: int| 0 <= i < j < s.processes@.len() implies (
    #[trigger] s.processes@[i]).id != (#[trigger] s.processes@[j]).id by {
        assert(s.processes@[i].id.serial != s.processes@[j].id.serial);
    }
}

/// Two sequences whose entries carry the same ids index an id at the
/// same place.
pub proof fn lemma_index_of_same_ids(s: Seq<PunchoutProcess>, t: Seq<PunchoutProcess>, id: ProcessId)
    requires
        s.len() == t.len(),
        forall|k: int| 0 <= k < s.len() ==> (#[trigger] s[k]).id == t[k].id,
    ensures
        spec_index_of(s, id) == spec_index_of(t, id),
    decreases s.len(),
{
    if s.len() == 0 {
    } else {
        assert(s[0].id == t[0].id);
        assert(forall|k: int|
            0 <= k < s.drop_first().len() ==> (#[trigger] s.drop_first()[k]).id
                == t.drop_first()[k].id);
        lemma_index_of_same_ids(s.drop_first(), t.drop_first(), id);
    }
}

/// Overwrite, not merge: after a call-up stored `a` and a second
/// call-up stored `b` on the same process, the payload on that process
/// is exactly `b`.
pub proof fn lemma_call_up_overwrites(
    s0: ProcessRegistry,
    s1: ProcessRegistry,
    s2: ProcessRegistry,
    id: ProcessId,
    a: CallUpPayload,
    b: CallUpPayload,
)
    requires
        s0.has_id(id),
        s1.processes@ == s0.processes@.update(
            spec_index_of(s0.processes@, id)->0,
            PunchoutProcess {
                call_up_posted_data: Some(a),
                ..s0.processes@[spec_index_of(s0.processes@, id)->0]
            },
        ),
        s2.processes@ == s1.processes@.update(
            spec_index_of(s1.processes@, id)->0,
            PunchoutProcess {
                call_up_posted_data: Some(b),
                ..s1.processes@[spec_index_of(s1.processes@, id)->0]
            },
        ),
    ensures
        s2.processes@[spec_index_of(s0.processes@, id)->0].call_up_posted_data == Some(b),
{
    crate::registry::lemma_index_of(s0.processes@, id);
    let j = spec_index_of(s0.processes@, id)->0;
    assert(forall|k: int|
        0 <= k < s0.processes@.len() ==> (#[trigger] s0.processes@[k]).id == s1.processes@[k].id);
    lemma_index_of_same_ids(s0.processes@, s1.processes@, id);
}

/// A confirmation against a process with no call-up cannot produce a
/// document, and both documents are absent on that process.
pub proof fn lemma_confirm_without_call_up(s: ProcessRegistry, id: ProcessId)
    requires
        s.wf(),
        s.has_id(id),
        s.processes@[spec_index_of(s.processes@, id)->0].call_up_posted_data is None,
    ensures
        !confirmable(s, id),
        s.processes@[spec_index_of(s.processes@, id)->0].cxml_request is None,
        s.processes@[spec_index_of(s.processes@, id)->0].cxml_response is None,
{
    crate::registry::lemma_index_of(s.processes@, id);
    let j = spec_index_of(s.processes@, id)->0;
    assert(s.processes@[j].cxml_request is None) by {
        if s.processes@[j].cxml_request is Some {
            assert(s.processes@[j].call_up_posted_data is Some);
        }
    }
    assert(s.processes@[j].cxml_response is None) by {
        if s.processes@[j].cxml_response is Some {
            assert(s.processes@[j].cxml_request is Some);
        }
    }
}

/// Read-after-write: once a reply body is recorded for a process, a
/// snapshot of the registry shows that process holding both the request
/// document it already had and the recorded response.
pub proof fn lemma_snapshot_after_confirm(
    s0: ProcessRegistry,
    s1: ProcessRegistry,
    id: ProcessId,
    body: Vec<u8>,
)
    requires
        s0.has_id(id),
        s0.processes@[spec_index_of(s0.processes@, id)->0].cxml_request is Some,
        s1.processes@ == s0.processes@.update(
            spec_index_of(s0.processes@, id)->0,
            PunchoutProcess {
                cxml_response: Some(body),
                ..s0.processes@[spec_index_of(s0.processes@, id)->0]
            },
        ),
    ensures
        ({
            let j = spec_index_of(s0.processes@, id)->0;
            &&& s1.processes@[j].cxml_request == s0.processes@[spec_index_of(
                s0.processes@,
                id,
            )->0].cxml_request
            &&& s1.processes@[j].cxml_request is Some
            &&& s1.processes@[j].cxml_response == Some(body)
        }),
{
    crate::registry::lemma_index_of(s0.processes@, id);
}

} // verus!
