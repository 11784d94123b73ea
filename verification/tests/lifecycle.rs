use punchout_mock::errors::OciError;
use punchout_mock::payload::{extract_fields, CallUpPayload, CallUpValue};
use punchout_mock::redirect::LoginConfig;
use punchout_mock::registry::{ProcessId, ProcessRegistry};

const TEMPLATE: &str = "payload=%unique-id%;ts=%timestamp%;secret=%cxml-order-request-token%;\
order=%order-id%;date=%order-date%;<Money currency=\"EUR\">%order-amount%</Money>;\
ship=%ship-to-final-client-name%|%ship-to-deliver-to%|%ship-to-street%|%ship-to-city%|\
%ship-to-postal%|%ship-to-country-code%|%ship-to-country%;\
bill=%bill-to-final-client-name%|%bill-to-deliver-to%|%bill-to-street%|%bill-to-city%|\
%bill-to-postal%|%bill-to-country-code%|%bill-to-country%;\
part=%item-supplier-part-id%;aux=%item-supplier-auxiliary-id%;\
price=<Money currency=\"EUR\">%item-price%</Money>;lang=%item-language-code%;\
desc=%item-description%";

fn b(s: &str) -> Vec<u8> {
    s.as_bytes().to_vec()
}

fn s(v: &[u8]) -> String {
    String::from_utf8(v.to_vec()).unwrap()
}

fn config() -> LoginConfig {
    LoginConfig {
        login_base: b("https://punchout.example/login"),
        login_query: None,
        self_base_url: b("http://localhost:8080/"),
    }
}

fn basket() -> CallUpPayload {
    CallUpPayload {
        entries: vec![
            (b("NEW_ITEM-EXT_PRODUCT_ID[1]"), CallUpValue::Text(b("SKU1"))),
            (b("NEW_ITEM-DESCRIPTION[1]"), CallUpValue::Text(b("Widget"))),
            (b("NEW_ITEM-PRICE[1]"), CallUpValue::Text(b("10.50"))),
            (b("NEW_ITEM-PRICE[2]"), CallUpValue::Text(b("5.25"))),
        ],
    }
}

#[test]
fn start_issues_fresh_unique_ids() {
    let mut reg = ProcessRegistry::new();
    let (id1, _) = reg.start_oci(&config(), None);
    let (id2, _) = reg.start_oci(&config(), None);
    let (id3, _) = reg.start_oci(&config(), Some(7));
    assert_ne!(id1, id2);
    assert_ne!(id1, id3);
    assert_ne!(id2, id3);
    let procs = reg.active_oci_processes();
    assert_eq!(procs.len(), 3);
    assert_eq!(procs[0].id, id1);
    assert_eq!(procs[1].id, id2);
    assert_eq!(procs[2].id, id3);
}

#[test]
fn started_process_is_empty() {
    let mut reg = ProcessRegistry::new();
    let (id, _) = reg.start_oci(&config(), None);
    let procs = reg.active_oci_processes();
    assert_eq!(procs[0].id, id);
    assert!(procs[0].call_up_posted_data.is_none());
    assert!(procs[0].cxml_request.is_none());
    assert!(procs[0].cxml_response.is_none());
}

#[test]
fn call_up_on_unknown_id_changes_nothing() {
    let mut reg = ProcessRegistry::new();
    let (id, _) = reg.start_oci(&config(), None);
    let bogus = ProcessId { token: id.token.wrapping_add(1), serial: 999 };
    let r = reg.oci_call_up(bogus, basket());
    assert_eq!(r, Err(OciError::NotFound));
    let procs = reg.active_oci_processes();
    assert_eq!(procs.len(), 1);
    assert_eq!(procs[0].id, id);
    assert!(procs[0].call_up_posted_data.is_none());
}

#[test]
fn call_up_overwrites_wholesale() {
    let mut reg = ProcessRegistry::new();
    let (id, _) = reg.start_oci(&config(), None);
    let first = CallUpPayload {
        entries: vec![
            (b("NEW_ITEM-PRICE[1]"), CallUpValue::Text(b("1.00"))),
            (b("OLD-KEY"), CallUpValue::Text(b("stale"))),
        ],
    };
    let second = basket();
    assert!(reg.oci_call_up(id, first).is_ok());
    assert!(reg.oci_call_up(id, second.clone()).is_ok());
    let procs = reg.active_oci_processes();
    assert_eq!(procs[0].call_up_posted_data.as_ref(), Some(&second));
}

#[test]
fn confirm_without_call_up_stores_nothing() {
    let mut reg = ProcessRegistry::new();
    let (id, _) = reg.start_oci(&config(), None);
    let r = reg.confirm_begin(id, &b("secret-1"), &b(TEMPLATE));
    assert_eq!(r, Err(OciError::MalformedCallUpData));
    let procs = reg.active_oci_processes();
    assert!(procs[0].cxml_request.is_none());
    assert!(procs[0].cxml_response.is_none());
}

#[test]
fn confirm_on_unknown_id_is_not_found() {
    let mut reg = ProcessRegistry::new();
    let bogus = ProcessId { token: 5, serial: 5 };
    let r = reg.confirm_begin(bogus, &b("secret-1"), &b(TEMPLATE));
    assert_eq!(r, Err(OciError::NotFound));
}

#[test]
fn confirm_synthesizes_and_stores_the_document() {
    let mut reg = ProcessRegistry::new();
    let (id, _) = reg.start_oci(&config(), None);
    assert!(reg.oci_call_up(id, basket()).is_ok());
    let doc = reg.confirm_begin(id, &b("secret-1"), &b(TEMPLATE)).unwrap();
    let text = s(&doc);
    assert!(text.contains("<Money currency=\"EUR\">15.75</Money>"));
    assert!(text.contains("part=SKU1"));
    assert!(text.contains("desc=Widget"));
    assert!(text.contains("price=<Money currency=\"EUR\">10.5</Money>"));
    assert!(text.contains("secret=secret-1"));
    assert!(!text.contains('%'));
    let id_text = s(&id.text());
    assert!(text.contains(&format!("order={}-order-id", id_text)));
    assert!(text.contains(&format!("aux={}_unused-auxiliary-id", id_text)));
    // What would be dispatched is exactly what was stored.
    let procs = reg.active_oci_processes();
    assert_eq!(procs[0].cxml_request.as_ref(), Some(&doc));
    assert!(procs[0].cxml_response.is_none());
}

#[test]
fn one_bad_price_aborts_the_whole_confirmation() {
    let mut reg = ProcessRegistry::new();
    let (id, _) = reg.start_oci(&config(), None);
    let mut payload = basket();
    payload.entries[3].1 = CallUpValue::Text(b("not-a-number"));
    assert!(reg.oci_call_up(id, payload).is_ok());
    let r = reg.confirm_begin(id, &b("secret-1"), &b(TEMPLATE));
    assert_eq!(r, Err(OciError::MalformedCallUpData));
    let procs = reg.active_oci_processes();
    assert!(procs[0].cxml_request.is_none());
    assert!(procs[0].cxml_response.is_none());
}

#[test]
fn non_textual_price_aborts_the_whole_confirmation() {
    let mut reg = ProcessRegistry::new();
    let (id, _) = reg.start_oci(&config(), None);
    let mut payload = basket();
    payload.entries[3].1 = CallUpValue::Untyped(b("5.25"));
    assert!(reg.oci_call_up(id, payload).is_ok());
    let r = reg.confirm_begin(id, &b("secret-1"), &b(TEMPLATE));
    assert_eq!(r, Err(OciError::MalformedCallUpData));
}

#[test]
fn missing_required_field_is_malformed() {
    let mut reg = ProcessRegistry::new();
    let (id, _) = reg.start_oci(&config(), None);
    let payload = CallUpPayload {
        entries: vec![(b("NEW_ITEM-PRICE[1]"), CallUpValue::Text(b("10.50")))],
    };
    assert!(reg.oci_call_up(id, payload).is_ok());
    let r = reg.confirm_begin(id, &b("secret-1"), &b(TEMPLATE));
    assert_eq!(r, Err(OciError::MalformedCallUpData));
}

#[test]
fn snapshot_shows_both_documents_after_confirmation() {
    let mut reg = ProcessRegistry::new();
    let (id, _) = reg.start_oci(&config(), None);
    assert!(reg.oci_call_up(id, basket()).is_ok());
    let doc = reg.confirm_begin(id, &b("secret-1"), &b(TEMPLATE)).unwrap();
    assert!(reg.confirm_finish(id, b("<cXML>accepted</cXML>")).is_ok());
    let procs = reg.active_oci_processes();
    assert_eq!(procs[0].cxml_request.as_ref(), Some(&doc));
    assert_eq!(procs[0].cxml_response.as_ref(), Some(&b("<cXML>accepted</cXML>")));
}

#[test]
fn a_second_confirmation_recomputes_the_request() {
    let mut reg = ProcessRegistry::new();
    let (id, _) = reg.start_oci(&config(), None);
    assert!(reg.oci_call_up(id, basket()).is_ok());
    let first = reg.confirm_begin(id, &b("secret-1"), &b(TEMPLATE)).unwrap();
    assert!(reg.confirm_finish(id, b("<ok/>")).is_ok());
    // No guard against re-triggering: the document is synthesized anew
    // (with a fresh payload id), and the old reply stays until a new
    // one is recorded.
    let second = reg.confirm_begin(id, &b("secret-2"), &b(TEMPLATE)).unwrap();
    assert_ne!(first, second);
    assert!(String::from_utf8(second.clone()).unwrap().contains("secret=secret-2"));
    let procs = reg.active_oci_processes();
    assert_eq!(procs[0].cxml_request.as_ref(), Some(&second));
    assert_eq!(procs[0].cxml_response.as_ref(), Some(&b("<ok/>")));
}

#[test]
fn finish_without_begin_is_refused() {
    let mut reg = ProcessRegistry::new();
    let (id, _) = reg.start_oci(&config(), None);
    let r = reg.confirm_finish(id, b("<ok/>"));
    assert_eq!(r, Err(OciError::MalformedCallUpData));
    assert!(reg.active_oci_processes()[0].cxml_response.is_none());
}

#[test]
fn ids_are_written_as_token_dash_serial() {
    let id = ProcessId { token: 77, serial: 0 };
    assert_eq!(String::from_utf8(id.text()).unwrap(), "77-0");
    let big = ProcessId { token: u128::MAX, serial: 12 };
    assert_eq!(
        String::from_utf8(big.text()).unwrap(),
        "340282366920938463463374607431768211455-12"
    );
}

#[test]
fn get_finds_started_processes_only() {
    let mut reg = ProcessRegistry::new();
    let (id, _) = reg.start_oci(&config(), None);
    assert_eq!(reg.get(id).unwrap().id, id);
    assert!(reg.get(ProcessId { token: id.token, serial: id.serial + 1 }).is_none());
}

#[test]
fn extraction_reads_the_declared_fields() {
    let payload = basket();
    let f = extract_fields(&payload).unwrap();
    assert_eq!(s(&f.product_id), "SKU1");
    assert_eq!(s(&f.description), "Widget");
    assert_eq!(f.first_price.mantissa, 1050);
    assert_eq!(f.first_price.scale, 2);
    assert_eq!(f.total_amount.mantissa, 1575);
    assert_eq!(f.total_amount.scale, 2);
}

#[test]
fn extraction_sums_every_price_entry() {
    let payload = CallUpPayload {
        entries: vec![
            (b("NEW_ITEM-EXT_PRODUCT_ID[1]"), CallUpValue::Text(b("A"))),
            (b("NEW_ITEM-DESCRIPTION[1]"), CallUpValue::Text(b("B"))),
            (b("NEW_ITEM-PRICE[1]"), CallUpValue::Text(b("1.5"))),
            (b("NEW_ITEM-PRICE[2]"), CallUpValue::Text(b("2"))),
            (b("NEW_ITEM-PRICE[3]"), CallUpValue::Text(b("0.25"))),
            (b("NEW_ITEM-QUANTITY[1]"), CallUpValue::Text(b("10"))),
        ],
    };
    let f = extract_fields(&payload).unwrap();
    assert_eq!(f.total_amount.mantissa, 375);
    assert_eq!(f.total_amount.scale, 2);
}

#[test]
fn extraction_requires_textual_required_fields() {
    let payload = CallUpPayload {
        entries: vec![
            (b("NEW_ITEM-EXT_PRODUCT_ID[1]"), CallUpValue::Untyped(b("17"))),
            (b("NEW_ITEM-DESCRIPTION[1]"), CallUpValue::Text(b("B"))),
            (b("NEW_ITEM-PRICE[1]"), CallUpValue::Text(b("1.5"))),
        ],
    };
    assert_eq!(extract_fields(&payload), Err(OciError::MalformedCallUpData));
}
