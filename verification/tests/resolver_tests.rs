use idili::facade::{lookup_request, lookup_resolve};
use idili::resolver::{resolve_fetch, FetchOutcome, LookupError};

#[test]
fn empty_address_rejected_before_any_network_call() {
    // `lookup_request` is the whole of the lookup path before the network
    // is touched: rejection here means no call was issued.
    assert_eq!(lookup_request(""), Err(LookupError::InvalidAddress));
}

#[test]
fn non_empty_address_passed_on_unchanged() {
    let addr = "VLD0:7fmbzW2YkbzCtmPRSpU4HPQKSKsFwgadzBhSg_A7u0o";
    let d = lookup_request(addr).expect("a non-empty address is accepted");
    assert_eq!(d.as_text(), addr);
}

#[test]
fn missing_value_is_empty_record_not_network_error() {
    assert_eq!(resolve_fetch(FetchOutcome::Missing), Err(LookupError::EmptyRecord));
}

#[test]
fn stored_text_round_trips_unchanged() {
    let bytes = "hello".as_bytes().to_vec();
    assert_eq!(resolve_fetch(FetchOutcome::Value(bytes)), Ok("hello".to_string()));
}

#[test]
fn invalid_utf8_value_is_decode_error() {
    assert_eq!(
        resolve_fetch(FetchOutcome::Value(vec![0xff, 0xfe])),
        Err(LookupError::DecodeError)
    );
}

#[test]
fn empty_value_decodes_to_empty_text() {
    assert_eq!(resolve_fetch(FetchOutcome::Value(Vec::new())), Ok(String::new()));
}

#[test]
fn transport_failure_is_network_error() {
    assert_eq!(resolve_fetch(FetchOutcome::TransportFailed), Err(LookupError::NetworkError));
}

#[test]
fn absent_session_is_network_error() {
    assert_eq!(resolve_fetch(FetchOutcome::NoSession), Err(LookupError::NetworkError));
}

#[test]
fn unparseable_key_is_invalid_address() {
    assert_eq!(resolve_fetch(FetchOutcome::InvalidKey), Err(LookupError::InvalidAddress));
}

#[test]
fn facade_resolution_matches_resolver() {
    assert_eq!(
        lookup_resolve(FetchOutcome::Value("répondu".as_bytes().to_vec())),
        Ok("répondu".to_string())
    );
    assert_eq!(lookup_resolve(FetchOutcome::Missing), Err(LookupError::EmptyRecord));
}
