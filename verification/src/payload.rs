//! The call-up payload — a flat mapping of string keys to loosely typed
//! scalar values — and the extraction of the order fields from it.
//!
//! Extraction is all or nothing: if a required field is absent, not
//! textual, or unparsable, or if any entry under the price prefix fails
//! to parse, the whole extraction fails and nothing is aggregated.

use vstd::prelude::*;
use vstd::string::StrSliceExecFns;
use vstd::string::StringSliceAdditionalSpecFns;

use crate::decimal::dec_add;
use crate::decimal::dec_add_in_range;
use crate::decimal::dec_add_pair;
use crate::decimal::dec_pair;
use crate::decimal::dec_wf;
use crate::decimal::parse_decimal;
use crate::decimal::parse_decimal_bytes;
use crate::decimal::Dec;
use crate::errors::OciError;
use crate::text::starts_with;
use crate::text::bytes_eq;

verus! {

/// One scalar of the call-up payload.  Only textual scalars take part
/// in extraction; any other scalar keeps its raw rendering so that a
/// snapshot can echo it.
#[derive(Clone, Debug, PartialEq, Eq)]
pub enum CallUpValue {
    Text(Vec<u8>),
    Untyped(Vec<u8>),
}

/// The flat key/value mapping a call-up delivers.
#[derive(Clone, Debug, PartialEq, Eq)]
pub struct CallUpPayload {
    pub entries: Vec<(Vec<u8>, CallUpValue)>,
}

/// The fields an order document needs.
#[derive(Clone, Debug, PartialEq, Eq)]
pub struct ExtractedFields {
    pub product_id: Vec<u8>,
    pub description: Vec<u8>,
    pub first_price: Dec,
    pub total_amount: Dec,
}

pub open spec fn key_product_id() -> Seq<u8> {
    "NEW_ITEM-EXT_PRODUCT_ID[1]".spec_bytes()
}

pub open spec fn key_description() -> Seq<u8> {
    "NEW_ITEM-DESCRIPTION[1]".spec_bytes()
}

pub open spec fn key_first_price() -> Seq<u8> {
    "NEW_ITEM-PRICE[1]".spec_bytes()
}

/// Every key under this prefix is a line-item price.
pub open spec fn price_prefix() -> Seq<u8> {
    "NEW_ITEM-PRICE".spec_bytes()
}

/// The value under the first entry whose key is `key`.
pub open spec fn lookup_spec(entries: Seq<(Vec<u8>, CallUpValue)>, key: Seq<u8>) -> Option<
    CallUpValue,
>
    decreases entries.len(),
{
    if entries.len() == 0 {
        None
    } else if entries[0].0@ == key {
        Some(entries[0].1)
    } else {
        lookup_spec(entries.drop_first(), key)
    }
}

/// The text under `key`, when the entry exists and is textual.
pub open spec fn spec_text_at(entries: Seq<(Vec<u8>, CallUpValue)>, key: Seq<u8>) -> Option<
    Seq<u8>,
> {
    match lookup_spec(entries, key) {
        Some(CallUpValue::Text(t)) => Some(t@),
        _ => None,
    }
}

/// A parsed decimal that fits the machine representation.
pub open spec fn parse_dec_rep(t: Seq<u8>) -> Option<(int, nat)> {
    match parse_decimal(t) {
        Some((m, sc)) => if -i128::MAX <= m <= i128::MAX && sc <= u32::MAX {
            Some((m, sc))
        } else {
            None
        },
        None => None,
    }
}

/// The running total over every price entry, folded front to back from
/// `acc`; `None` as soon as one price entry is not parsable text or a
/// value leaves the machine range.
pub open spec fn total_fold(entries: Seq<(Vec<u8>, CallUpValue)>, acc: (int, nat)) -> Option<
    (int, nat),
>
    decreases entries.len(),
{
    if entries.len() == 0 {
        Some(acc)
    } else {
        let e = entries[0];
        let rest = entries.drop_first();
        if price_prefix().is_prefix_of(e.0@) {
            match e.1 {
                CallUpValue::Text(t) => match parse_dec_rep(t@) {
                    Some(v) => if dec_add_in_range(acc, v) {
                        total_fold(rest, dec_add_pair(acc, v))
                    } else {
                        None
                    },
                    None => None,
                },
                CallUpValue::Untyped(_) => None,
            }
        } else {
            total_fold(rest, acc)
        }
    }
}

/// The sum of all price entries, from zero.
pub open spec fn spec_total(entries: Seq<(Vec<u8>, CallUpValue)>) -> Option<(int, nat)> {
    total_fold(entries, (0int, 0nat))
}

/// Extraction succeeds exactly on these payloads.
pub open spec fn extract_ok(entries: Seq<(Vec<u8>, CallUpValue)>) -> bool {
    &&& spec_text_at(entries, key_product_id()) is Some
    &&& spec_text_at(entries, key_description()) is Some
    &&& spec_text_at(entries, key_first_price()) is Some
    &&& parse_dec_rep(spec_text_at(entries, key_first_price())->0) is Some
    &&& spec_total(entries) is Some
}

impl CallUpPayload {
    /// The value under the first entry whose key is `key`.
    pub fn lookup<'a>(&'a self, key: &Vec<u8>) -> (r: Option<&'a CallUpValue>)
        ensures
            match r {
                Some(v) => lookup_spec(self.entries@, key@) == Some(*v),
                None => lookup_spec(self.entries@, key@) is None,
            },
    {
        let mut i: usize = 0;
        let n = self.entries.len();
        proof {
            assert(self.entries@.skip(0) =~= self.entries@);
        }
        while i < n
            invariant
                i <= n,
                n == self.entries@.len(),
                lookup_spec(self.entries@, key@) == lookup_spec(
                    self.entries@.skip(i as int),
                    key@,
                ),
            decreases n - i,
        {
            proof {
                assert(self.entries@.skip(i as int)[0] == self.entries@[i as int]);
                assert(self.entries@.skip(i as int).drop_first() =~= self.entries@.skip(i + 1));
            }
            if bytes_eq(&self.entries[i].0, key) {
                return Some(&self.entries[i].1);
            }
            i += 1;
        }
        None
    }
}

/// The sum of every entry under the price prefix, or `None` when one
/// such entry is not parsable text or a value leaves the machine range.
pub fn total_price(payload: &CallUpPayload) -> (r: Option<Dec>)
    ensures
        match r {
            Some(d) => spec_total(payload.entries@) == Some(dec_pair(d)) && dec_wf(d),
            None => spec_total(payload.entries@) is None,
        },
{
    let mut acc = Dec { mantissa: 0, scale: 0 };
    let prefix = price_prefix_bytes();
    let mut i: usize = 0;
    let n = payload.entries.len();
    proof {
        assert(payload.entries@.skip(0) =~= payload.entries@);
    }
    while i < n
        invariant
            i <= n,
            n == payload.entries@.len(),
            dec_wf(acc),
            prefix@ == price_prefix(),
            spec_total(payload.entries@) == total_fold(
                payload.entries@.skip(i as int),
                dec_pair(acc),
            ),
        decreases n - i,
    {
        proof {
            assert(payload.entries@.skip(i as int)[0] == payload.entries@[i as int]);
            assert(payload.entries@.skip(i as int).drop_first() =~= payload.entries@.skip(i + 1));
        }
        if starts_with(&payload.entries[i].0, &prefix) {
            match &payload.entries[i].1 {
                CallUpValue::Text(t) => {
                    match parse_decimal_bytes(t) {
                        Some(d) => {
                            match dec_add(acc, d) {
                                Some(next) => {
                                    acc = next;
                                },
                                None => {
                                    return None;
                                },
                            }
                        },
                        None => {
                            return None;
                        },
                    }
                },
                CallUpValue::Untyped(_) => {
                    return None;
                },
            }
        }
        i += 1;
    }
    proof {
        assert(payload.entries@.skip(n as int) =~= Seq::<(Vec<u8>, CallUpValue)>::empty());
    }
    Some(acc)
}

pub fn key_product_id_bytes() -> (r: Vec<u8>)
    ensures
        r@ == key_product_id(),
{
    "NEW_ITEM-EXT_PRODUCT_ID[1]".as_bytes_vec()
}

pub fn key_description_bytes() -> (r: Vec<u8>)
    ensures
        r@ == key_description(),
{
    "NEW_ITEM-DESCRIPTION[1]".as_bytes_vec()
}

pub fn key_first_price_bytes() -> (r: Vec<u8>)
    ensures
        r@ == key_first_price(),
{
    "NEW_ITEM-PRICE[1]".as_bytes_vec()
}

pub fn price_prefix_bytes() -> (r: Vec<u8>)
    ensures
        r@ == price_prefix(),
{
    "NEW_ITEM-PRICE".as_bytes_vec()
}

/// Reads the order fields from a call-up payload, all or nothing.
pub fn extract_fields(payload: &CallUpPayload) -> (r: Result<ExtractedFields, OciError>)
    ensures
        match r {
            Ok(f) => {
                &&& extract_ok(payload.entries@)
                &&& spec_text_at(payload.entries@, key_product_id()) == Some(f.product_id@)
                &&& spec_text_at(payload.entries@, key_description()) == Some(f.description@)
                &&& parse_dec_rep(spec_text_at(payload.entries@, key_first_price())->0) == Some(
                    dec_pair(f.first_price),
                )
                &&& spec_total(payload.entries@) == Some(dec_pair(f.total_amount))
                &&& dec_wf(f.first_price)
                &&& dec_wf(f.total_amount)
            },
            Err(e) => e is MalformedCallUpData && !extract_ok(payload.entries@),
        },
{
    let key_pid = key_product_id_bytes();
    let product_id = match payload.lookup(&key_pid) {
        Some(CallUpValue::Text(t)) => crate::text::copy_bytes(t),
        _ => {
            return Err(OciError::MalformedCallUpData);
        },
    };
    let key_desc = key_description_bytes();
    let description = match payload.lookup(&key_desc) {
        Some(CallUpValue::Text(t)) => crate::text::copy_bytes(t),
        _ => {
            return Err(OciError::MalformedCallUpData);
        },
    };
    let key_fp = key_first_price_bytes();
    let first_price = match payload.lookup(&key_fp) {
        Some(CallUpValue::Text(t)) => match parse_decimal_bytes(t) {
            Some(d) => d,
            None => {
                return Err(OciError::MalformedCallUpData);
            },
        },
        _ => {
            return Err(OciError::MalformedCallUpData);
        },
    };
    let total_amount = match total_price(payload) {
        Some(d) => d,
        None => {
            return Err(OciError::MalformedCallUpData);
        },
    };
    Ok(ExtractedFields { product_id, description, first_price, total_amount })
}

} // verus!
