//! The lifecycle coordinator: every request operates on one registry
//! entry.  A process is started with nothing attached, each call-up
//! overwrites its payload wholesale, and a confirmation first stores the
//! synthesized request document, then — once the reply has been read —
//! the response document.  The outbound call itself happens between the
//! two confirmation steps, outside the library.

use vstd::prelude::*;
use vstd::string::StrSliceExecFns;

use crate::document::spec_order_document;
use crate::document::synthesize_order_document;
use crate::errors::OciError;
use crate::external::now_rfc3339;
use crate::external::random_u128;
use crate::payload::extract_fields;
use crate::payload::extract_ok;
use crate::payload::key_description;
use crate::payload::key_first_price;
use crate::payload::key_product_id;
use crate::payload::parse_dec_rep;
use crate::payload::spec_text_at;
use crate::payload::spec_total;
use crate::payload::CallUpPayload;
use crate::redirect::build_redirect;
use crate::redirect::opt_view;
use crate::redirect::spec_redirect;
use crate::redirect::LoginConfig;
use crate::registry::empty_process;
use crate::registry::spec_index_of;
use crate::registry::ProcessId;
use crate::registry::ProcessRegistry;
use crate::registry::PunchoutProcess;
use crate::text::copy_bytes;
use crate::text::dec_digits;
use crate::text::u128_to_dec;

verus! {

/// A confirmation can produce a document for this id: the process
/// exists, a call-up arrived, and its payload extracts cleanly.
pub open spec fn confirmable(s: ProcessRegistry, id: ProcessId) -> bool {
    &&& s.has_id(id)
    &&& {
        let p = s.processes@[spec_index_of(s.processes@, id)->0];
        &&& p.call_up_posted_data is Some
        &&& extract_ok(p.call_up_posted_data->0.entries@)
    }
}

impl ProcessRegistry {
    /// Starts a process: inserts a fresh empty entry and assembles the
    /// redirect into the remote catalog session for its id.
    pub fn start_oci(&mut self, cfg: &LoginConfig, go_to_product: Option<u64>) -> (r: (
        ProcessId,
        Vec<u8>,
    ))
        requires
            old(self).wf(),
            old(self).next_serial < u64::MAX,
        ensures
            final(self).wf(),
            !old(self).has_id(r.0),
            final(self).has_id(r.0),
            r.0.serial == old(self).next_serial,
            final(self).next_serial == old(self).next_serial + 1,
            final(self).processes@ == old(self).processes@.push(empty_process(r.0)),
            r.1@ == spec_redirect(
                cfg.login_base@,
                opt_view(cfg.login_query),
                cfg.self_base_url@,
                r.0.spec_text(),
                go_to_product,
            ),
    {
        let id = self.create();
        let id_text = id.text();
        let url = build_redirect(cfg, &id_text, go_to_product);
        (id, url)
    }

    /// Attaches a call-up payload to its process, overwriting any
    /// earlier payload wholesale; an unknown id changes nothing.
    pub fn oci_call_up(&mut self, id: ProcessId, payload: CallUpPayload) -> (r: Result<
        (),
        OciError,
    >)
        requires
            old(self).wf(),
        ensures
            final(self).wf(),
            final(self).next_serial == old(self).next_serial,
            r is Ok <==> old(self).has_id(id),
            match r {
                Ok(_) => {
                    let j = spec_index_of(old(self).processes@, id)->0;
                    final(self).processes@ == old(self).processes@.update(
                        j,
                        PunchoutProcess {
                            call_up_posted_data: Some(payload),
                            ..old(self).processes@[j]
                        },
                    )
                },
                Err(e) => e is NotFound && *final(self) == *old(self),
            },
    {
        match self.find_index(id) {
            None => Err(OciError::NotFound),
            Some(j) => {
                let entry = &mut self.processes[j];
                entry.call_up_posted_data = Some(payload);
                Ok(())
            },
        }
    }

    /// The first confirmation step: looks the process up, extracts the
    /// order fields from its payload, synthesizes the order-request
    /// document, and stores it on the process before anything is sent.
    /// The returned document is exactly what was stored.
    #[verifier::rlimit(80)]
    pub fn confirm_begin(&mut self, id: ProcessId, token: &Vec<u8>, template: &Vec<u8>) -> (r:
        Result<Vec<u8>, OciError>)
        requires
            old(self).wf(),
        ensures
            final(self).wf(),
            final(self).next_serial == old(self).next_serial,
            r is Ok <==> confirmable(*old(self), id),
            match r {
                Ok(doc) => {
                    let j = spec_index_of(old(self).processes@, id)->0;
                    let p = old(self).processes@[j];
                    let e = p.call_up_posted_data->0.entries@;
                    &&& exists|n: u128, t: Seq<u8>|
                        doc@ == spec_order_document(
                            template@,
                            token@,
                            dec_digits(n as nat),
                            t,
                            id.spec_text(),
                            spec_text_at(e, key_product_id())->0,
                            spec_text_at(e, key_description())->0,
                            parse_dec_rep(spec_text_at(e, key_first_price())->0)->0,
                            spec_total(e)->0,
                        )
                    &&& final(self).processes@.len() == old(self).processes@.len()
                    &&& forall|k: int|
                        0 <= k < old(self).processes@.len() && k != j ==> final(self).processes@[k]
                            == old(self).processes@[k]
                    &&& final(self).processes@[j].id == p.id
                    &&& final(self).processes@[j].call_up_posted_data == p.call_up_posted_data
                    &&& final(self).processes@[j].cxml_response == p.cxml_response
                    &&& final(self).processes@[j].cxml_request matches Some(d) && d@ == doc@
                },
                Err(err) => *final(self) == *old(self) && ((err is NotFound && !old(self).has_id(id))
                    || (err is MalformedCallUpData && old(self).has_id(id) && !confirmable(
                    *old(self),
                    id,
                ))),
            },
    {
        let j = match self.find_index(id) {
            None => {
                return Err(OciError::NotFound);
            },
            Some(j) => j,
        };
        let fields = match &self.processes[j].call_up_posted_data {
            None => {
                return Err(OciError::MalformedCallUpData);
            },
            Some(p) => match extract_fields(p) {
                Ok(f) => f,
                Err(e) => {
                    return Err(e);
                },
            },
        };
        let payload_id = random_u128();
        let uniq = u128_to_dec(payload_id);
        let ts_string = now_rfc3339();
        let ts = ts_string.as_str().as_bytes_vec();
        let id_text = id.text();
        let doc = synthesize_order_document(template, &fields, token, &id_text, &uniq, &ts);
        let stored = copy_bytes(&doc);
        let entry = &mut self.processes[j];
        entry.cxml_request = Some(stored);
        proof {
            let e = old(self).processes@[j as int].call_up_posted_data->0.entries@;
            assert(doc@ == spec_order_document(
                template@,
                token@,
                dec_digits(payload_id as nat),
                ts@,
                id.spec_text(),
                spec_text_at(e, key_product_id())->0,
                spec_text_at(e, key_description())->0,
                parse_dec_rep(spec_text_at(e, key_first_price())->0)->0,
                spec_total(e)->0,
            ));
        }
        Ok(doc)
    }

    /// The second confirmation step: records the reply body read from
    /// the confirmation endpoint.  An unknown id is `NotFound`; a
    /// process that never had a request document stored is refused, so
    /// a response never exists without its request.
    #[verifier::rlimit(80)]
    pub fn confirm_finish(&mut self, id: ProcessId, response_body: Vec<u8>) -> (r: Result<
        (),
        OciError,
    >)
        requires
            old(self).wf(),
        ensures
            final(self).wf(),
            final(self).next_serial == old(self).next_serial,
            match r {
                Ok(_) => {
                    let j = spec_index_of(old(self).processes@, id)->0;
                    &&& old(self).has_id(id)
                    &&& old(self).processes@[j].cxml_request is Some
                    &&& final(self).processes@ == old(self).processes@.update(
                        j,
                        PunchoutProcess {
                            cxml_response: Some(response_body),
                            ..old(self).processes@[j]
                        },
                    )
                },
                Err(err) => *final(self) == *old(self) && ((err is NotFound && !old(self).has_id(id))
                    || (err is MalformedCallUpData && old(self).has_id(id) && old(
                    self,
                ).processes@[spec_index_of(old(self).processes@, id)->0].cxml_request is None)),
            },
    {
        match self.find_index(id) {
            None => Err(OciError::NotFound),
            Some(j) => {
                let has_request = self.processes[j].cxml_request.is_some();
                if !has_request {
                    return Err(OciError::MalformedCallUpData);
                }
                let entry = &mut self.processes[j];
                entry.cxml_response = Some(response_body);
                Ok(())
            },
        }
    }

    /// The listing: every process ever started, in creation order.
    pub fn active_oci_processes(&self) -> (r: &Vec<PunchoutProcess>)
        ensures
            r@ == self.processes@,
    {
        &self.processes
    }
}

} // verus!
