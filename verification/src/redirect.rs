//! Assembly of the redirect that sends a shopper into the remote
//! catalog session: fixed protocol parameters, the callback hook for
//! one process, optional deep-link parameters, and the query already
//! present on the configured login URI.

use vstd::prelude::*;
use vstd::string::StrSliceExecFns;
use vstd::string::StringSliceAdditionalSpecFns;

use crate::encoding::percent_encode;
use crate::encoding::percent_encoded;
use crate::template::pair_views;
use crate::text::append_bytes;
use crate::text::copy_bytes;
use crate::text::dec_digits;
use crate::text::u128_to_dec;

verus! {

/// What the redirect builder is configured with: the login URI split
/// from its pre-existing query, and this service's own base URL.
pub struct LoginConfig {
    /// The punch-out login URI, without its query.
    pub login_base: Vec<u8>,
    /// The query already present on the login URI, if any.
    pub login_query: Option<Vec<u8>>,
    /// This service's externally visible base URL, slash-terminated.
    pub self_base_url: Vec<u8>,
}

pub open spec fn opt_view(o: Option<Vec<u8>>) -> Option<Seq<u8>> {
    match o {
        Some(v) => Some(v@),
        None => None,
    }
}

/// One parameter as encoded query text: `key=value`, both sides
/// percent-encoded.
pub open spec fn pair_enc(p: (Seq<u8>, Seq<u8>)) -> Seq<u8> {
    percent_encoded(p.0) + seq![61u8] + percent_encoded(p.1)
}

/// The parameters joined with `&`, each percent-encoded.
pub open spec fn query_of(params: Seq<(Seq<u8>, Seq<u8>)>) -> Seq<u8>
    decreases params.len(),
{
    if params.len() == 0 {
        Seq::empty()
    } else if params.len() == 1 {
        pair_enc(params[0])
    } else {
        pair_enc(params[0]) + seq![38u8] + query_of(params.drop_first())
    }
}

/// Appending a parameter appends its encoding, after a separator when
/// something is already there.
pub proof fn lemma_query_push(s: Seq<(Seq<u8>, Seq<u8>)>, p: (Seq<u8>, Seq<u8>))
    ensures
        query_of(s.push(p)) == if s.len() == 0 {
            pair_enc(p)
        } else {
            query_of(s) + seq![38u8] + pair_enc(p)
        },
    decreases s.len(),
{
    if s.len() == 0 {
        assert(s.push(p).len() == 1);
        assert(s.push(p)[0] == p);
    } else {
        lemma_query_push(s.drop_first(), p);
        assert(s.push(p).drop_first() =~= s.drop_first().push(p));
        assert(s.push(p)[0] == s[0]);
        if s.len() == 1 {
            assert(query_of(s) == pair_enc(s[0]));
        } else {
            assert((pair_enc(s[0]) + seq![38u8] + query_of(s.drop_first())) + seq![38u8]
                + pair_enc(p) =~= pair_enc(s[0]) + seq![38u8] + (query_of(s.drop_first())
                + seq![38u8] + pair_enc(p)));
        }
    }
}

/// Joins the parameters with `&`, percent-encoding each key and value.
pub fn build_query(params: &Vec<(Vec<u8>, Vec<u8>)>) -> (r: Vec<u8>)
    ensures
        r@ == query_of(pair_views(params@)),
{
    let mut out: Vec<u8> = Vec::new();
    let mut i: usize = 0;
    let n = params.len();
    proof {
        assert(pair_views(params@).take(0) =~= Seq::<(Seq<u8>, Seq<u8>)>::empty());
    }
    while i < n
        invariant
            i <= n,
            n == params@.len(),
            out@ == query_of(pair_views(params@).take(i as int)),
        decreases n - i,
    {
        if i > 0 {
            out.push(38);
        }
        let key_enc = percent_encode(&params[i].0);
        append_bytes(&mut out, &key_enc);
        out.push(61);
        let val_enc = percent_encode(&params[i].1);
        append_bytes(&mut out, &val_enc);
        proof {
            let views = pair_views(params@);
            assert(views.take(i as int).push(views[i as int]) =~= views.take(i + 1));
            lemma_query_push(views.take(i as int), views[i as int]);
            assert(views[i as int] == (params@[i as int].0@, params@[i as int].1@));
            if i == 0 {
                assert(out@ =~= pair_enc(views[0]));
            } else {
                assert(out@ =~= query_of(views.take(i as int)) + seq![38u8] + pair_enc(
                    views[i as int],
                ));
            }
        }
        i += 1;
    }
    proof {
        assert(pair_views(params@).take(n as int) =~= pair_views(params@));
    }
    out
}

/// The callback URL for one process: the service base, the call-up
/// route, and the process id.
pub open spec fn spec_hook_url(self_base: Seq<u8>, id_text: Seq<u8>) -> Seq<u8> {
    self_base + "oci-call-up/".spec_bytes() + id_text
}

pub fn hook_url_bytes(self_base: &Vec<u8>, id_text: &Vec<u8>) -> (r: Vec<u8>)
    ensures
        r@ == spec_hook_url(self_base@, id_text@),
{
    let mut v = copy_bytes(self_base);
    let seg = "oci-call-up/".as_bytes_vec();
    append_bytes(&mut v, &seg);
    append_bytes(&mut v, id_text);
    proof {
        assert(v@ =~= spec_hook_url(self_base@, id_text@));
    }
    v
}

/// The login parameters for one process: the fixed protocol constants,
/// and the deep-link pair only when a product hint is given.
pub open spec fn spec_login_params(self_base: Seq<u8>, id_text: Seq<u8>, go: Option<u64>) -> Seq<
    (Seq<u8>, Seq<u8>),
> {
    let fixed = seq![
        ("HOOK_URL".spec_bytes(), spec_hook_url(self_base, id_text)),
        ("OCI_VERSION".spec_bytes(), "4.0".spec_bytes()),
        ("OPI_VERSION".spec_bytes(), "1.0".spec_bytes()),
        ("http_content_charset".spec_bytes(), "utf-8".spec_bytes()),
        ("returntarget".spec_bytes(), "_parent".spec_bytes()),
    ];
    match go {
        None => fixed,
        Some(n) => fixed + seq![
            ("PRODUCTID".spec_bytes(), dec_digits(n as nat)),
            ("FUNCTION".spec_bytes(), "DETAILADD".spec_bytes()),
        ],
    }
}

/// The complete redirect URI: the configured login URI with the
/// assembled parameters appended to any query it already had.
pub open spec fn spec_redirect(
    login_base: Seq<u8>,
    login_query: Option<Seq<u8>>,
    self_base: Seq<u8>,
    id_text: Seq<u8>,
    go: Option<u64>,
) -> Seq<u8> {
    let q = query_of(spec_login_params(self_base, id_text, go));
    let q2 = match login_query {
        None => q,
        Some(existing) => existing + seq![38u8] + q,
    };
    login_base + seq![63u8] + q2
}

/// Builds the redirect URI for one process.
pub fn build_redirect(cfg: &LoginConfig, id_text: &Vec<u8>, go_to_product: Option<u64>) -> (r: Vec<
    u8,
>)
    ensures
        r@ == spec_redirect(
            cfg.login_base@,
            opt_view(cfg.login_query),
            cfg.self_base_url@,
            id_text@,
            go_to_product,
        ),
{
    let mut params: Vec<(Vec<u8>, Vec<u8>)> = Vec::new();
    params.push(("HOOK_URL".as_bytes_vec(), hook_url_bytes(&cfg.self_base_url, id_text)));
    params.push(("OCI_VERSION".as_bytes_vec(), "4.0".as_bytes_vec()));
    params.push(("OPI_VERSION".as_bytes_vec(), "1.0".as_bytes_vec()));
    params.push(("http_content_charset".as_bytes_vec(), "utf-8".as_bytes_vec()));
    params.push(("returntarget".as_bytes_vec(), "_parent".as_bytes_vec()));
    match go_to_product {
        Some(n) => {
            params.push(("PRODUCTID".as_bytes_vec(), u128_to_dec(n as u128)));
            params.push(("FUNCTION".as_bytes_vec(), "DETAILADD".as_bytes_vec()));
        },
        None => {},
    }
    proof {
        assert(pair_views(params@) =~= spec_login_params(
            cfg.self_base_url@,
            id_text@,
            go_to_product,
        ));
    }
    let query = build_query(&params);
    let mut out = copy_bytes(&cfg.login_base);
    out.push(63);
    match &cfg.login_query {
        Some(existing) => {
            append_bytes(&mut out, existing);
            out.push(38);
            append_bytes(&mut out, &query);
            proof {
                assert(out@ =~= cfg.login_base@ + seq![63u8] + (existing@ + seq![38u8] + query@));
            }
        },
        None => {
            append_bytes(&mut out, &query);
            proof {
                assert(out@ =~= cfg.login_base@ + seq![63u8] + query@);
            }
        },
    }
    out
}

} // verus!
