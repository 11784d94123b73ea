//! Synthesis of the order-request document: literal substitution of the
//! named placeholders in a caller-supplied template, with the fixed mock
//! address values.  Values are inserted verbatim, with no escaping —
//! acceptable only because this is a mock; a production system must
//! build its markup safely.

use vstd::prelude::*;
use vstd::string::StrSliceExecFns;
use vstd::string::StringSliceAdditionalSpecFns;

use crate::decimal::dec_wf;
use crate::decimal::render_dec;
use crate::decimal::render_dec_bytes;
use crate::payload::ExtractedFields;
use crate::template::pair_views;
use crate::template::substitute;
use crate::template::substitute_bytes;
use crate::text::append_bytes;
use crate::text::copy_bytes;

verus! {

/// The order id derived from the process id.
pub open spec fn spec_order_id(id_text: Seq<u8>) -> Seq<u8> {
    id_text + "-order-id".spec_bytes()
}

/// The auxiliary item id derived from the process id.
pub open spec fn spec_auxiliary_id(id_text: Seq<u8>) -> Seq<u8> {
    id_text + "_unused-auxiliary-id".spec_bytes()
}

/// Every placeholder with the text that replaces it, in the order the
/// passes run.
pub open spec fn spec_replacements(
    token: Seq<u8>,
    uniq: Seq<u8>,
    ts: Seq<u8>,
    id_text: Seq<u8>,
    total: Seq<u8>,
    product_id: Seq<u8>,
    first_price: Seq<u8>,
    description: Seq<u8>,
) -> Seq<(Seq<u8>, Seq<u8>)> {
    seq![
        ("%cxml-order-request-token%".spec_bytes(), token),
        ("%unique-id%".spec_bytes(), uniq),
        ("%timestamp%".spec_bytes(), ts),
        ("%order-id%".spec_bytes(), spec_order_id(id_text)),
        ("%order-date%".spec_bytes(), ts),
        ("%order-amount%".spec_bytes(), total),
        ("%ship-to-final-client-name%".spec_bytes(), "Example Company Ltd.".spec_bytes()),
        ("%ship-to-deliver-to%".spec_bytes(), "John Doe".spec_bytes()),
        ("%ship-to-street%".spec_bytes(), "Short Street 123/B".spec_bytes()),
        ("%ship-to-city%".spec_bytes(), "Nowhere".spec_bytes()),
        ("%ship-to-postal%".spec_bytes(), "12312".spec_bytes()),
        ("%ship-to-country-code%".spec_bytes(), "AT".spec_bytes()),
        ("%ship-to-country%".spec_bytes(), "Austria".spec_bytes()),
        ("%bill-to-final-client-name%".spec_bytes(), "Example Company Ltd. Billing".spec_bytes()),
        ("%bill-to-deliver-to%".spec_bytes(), "Jane Duh".spec_bytes()),
        ("%bill-to-street%".spec_bytes(), "Long Street 456/C2".spec_bytes()),
        ("%bill-to-city%".spec_bytes(), "Somewhere".spec_bytes()),
        ("%bill-to-postal%".spec_bytes(), "23423".spec_bytes()),
        ("%bill-to-country-code%".spec_bytes(), "UK".spec_bytes()),
        ("%bill-to-country%".spec_bytes(), "United Kingdom".spec_bytes()),
        ("%item-supplier-part-id%".spec_bytes(), product_id),
        ("%item-supplier-auxiliary-id%".spec_bytes(), spec_auxiliary_id(id_text)),
        ("%item-price%".spec_bytes(), first_price),
        ("%item-language-code%".spec_bytes(), "en".spec_bytes()),
        ("%item-description%".spec_bytes(), description),
    ]
}

/// The document: the template with every placeholder replaced, the
/// amounts written in canonical decimal form.
pub open spec fn spec_order_document(
    template: Seq<u8>,
    token: Seq<u8>,
    uniq: Seq<u8>,
    ts: Seq<u8>,
    id_text: Seq<u8>,
    product_id: Seq<u8>,
    description: Seq<u8>,
    first_price: (int, nat),
    total: (int, nat),
) -> Seq<u8> {
    substitute(
        template,
        spec_replacements(
            token,
            uniq,
            ts,
            id_text,
            render_dec(total.0, total.1),
            product_id,
            render_dec(first_price.0, first_price.1),
            description,
        ),
    )
}

/// Generates the order-request document from the extracted fields, the
/// caller's token, the process id, and a fresh unique id and timestamp.
pub fn synthesize_order_document(
    template: &Vec<u8>,
    fields: &ExtractedFields,
    token: &Vec<u8>,
    id_text: &Vec<u8>,
    unique_id: &Vec<u8>,
    timestamp: &Vec<u8>,
) -> (r: Vec<u8>)
    requires
        dec_wf(fields.first_price),
        dec_wf(fields.total_amount),
    ensures
        r@ == spec_order_document(
            template@,
            token@,
            unique_id@,
            timestamp@,
            id_text@,
            fields.product_id@,
            fields.description@,
            (fields.first_price.mantissa as int, fields.first_price.scale as nat),
            (fields.total_amount.mantissa as int, fields.total_amount.scale as nat),
        ),
{
    let mut order_id = copy_bytes(id_text);
    let oid_suffix = "-order-id".as_bytes_vec();
    append_bytes(&mut order_id, &oid_suffix);
    let mut auxiliary_id = copy_bytes(id_text);
    let aux_suffix = "_unused-auxiliary-id".as_bytes_vec();
    append_bytes(&mut auxiliary_id, &aux_suffix);
    let total = render_dec_bytes(fields.total_amount);
    let first_price = render_dec_bytes(fields.first_price);
    let mut pairs: Vec<(Vec<u8>, Vec<u8>)> = Vec::new();
    pairs.push(("%cxml-order-request-token%".as_bytes_vec(), copy_bytes(token)));
    pairs.push(("%unique-id%".as_bytes_vec(), copy_bytes(unique_id)));
    pairs.push(("%timestamp%".as_bytes_vec(), copy_bytes(timestamp)));
    pairs.push(("%order-id%".as_bytes_vec(), order_id));
    pairs.push(("%order-date%".as_bytes_vec(), copy_bytes(timestamp)));
    pairs.push(("%order-amount%".as_bytes_vec(), total));
    pairs.push(("%ship-to-final-client-name%".as_bytes_vec(), "Example Company Ltd.".as_bytes_vec()));
    pairs.push(("%ship-to-deliver-to%".as_bytes_vec(), "John Doe".as_bytes_vec()));
    pairs.push(("%ship-to-street%".as_bytes_vec(), "Short Street 123/B".as_bytes_vec()));
    pairs.push(("%ship-to-city%".as_bytes_vec(), "Nowhere".as_bytes_vec()));
    pairs.push(("%ship-to-postal%".as_bytes_vec(), "12312".as_bytes_vec()));
    pairs.push(("%ship-to-country-code%".as_bytes_vec(), "AT".as_bytes_vec()));
    pairs.push(("%ship-to-country%".as_bytes_vec(), "Austria".as_bytes_vec()));
    pairs.push(
        ("%bill-to-final-client-name%".as_bytes_vec(), "Example Company Ltd. Billing".as_bytes_vec()),
    );
    pairs.push(("%bill-to-deliver-to%".as_bytes_vec(), "Jane Duh".as_bytes_vec()));
    pairs.push(("%bill-to-street%".as_bytes_vec(), "Long Street 456/C2".as_bytes_vec()));
    pairs.push(("%bill-to-city%".as_bytes_vec(), "Somewhere".as_bytes_vec()));
    pairs.push(("%bill-to-postal%".as_bytes_vec(), "23423".as_bytes_vec()));
    pairs.push(("%bill-to-country-code%".as_bytes_vec(), "UK".as_bytes_vec()));
    pairs.push(("%bill-to-country%".as_bytes_vec(), "United Kingdom".as_bytes_vec()));
    pairs.push(("%item-supplier-part-id%".as_bytes_vec(), copy_bytes(&fields.product_id)));
    pairs.push(("%item-supplier-auxiliary-id%".as_bytes_vec(), auxiliary_id));
    pairs.push(("%item-price%".as_bytes_vec(), first_price));
    pairs.push(("%item-language-code%".as_bytes_vec(), "en".as_bytes_vec()));
    pairs.push(("%item-description%".as_bytes_vec(), copy_bytes(&fields.description)));
    proof {
        assert(pair_views(pairs@) =~= spec_replacements(
            token@,
            unique_id@,
            timestamp@,
            id_text@,
            render_dec(fields.total_amount.mantissa as int, fields.total_amount.scale as nat),
            fields.product_id@,
            render_dec(fields.first_price.mantissa as int, fields.first_price.scale as nat),
            fields.description@,
        ));
    }
    substitute_bytes(template, &pairs)
}

} // verus!
