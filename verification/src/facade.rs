//! The command façade: the three operations the UI can invoke, each a
//! thin, validated entry point over the session manager and the DHT
//! resolver.
//!
//! Every operation returns a plain result value; none can panic across the
//! UI boundary. The network client's own asynchronous calls run outside
//! this crate: `connect_veilid` decides whether an attach request must go
//! out, and a lookup is validated by `lookup_request` before any network
//! round-trip and completed by `lookup_resolve` on the fetch report.

use vstd::prelude::*;

use crate::resolver::{
    resolve_fetch, resolve_result, text_result_matches, DhtAddress, FetchOutcome, LookupError,
};
use crate::session::{after_ensure_attached, attach_decision, Session};

verus! {

/// The connect operation: delegates to the session manager's
/// `ensure_attached` and reports whether an outbound attach request must
/// be issued now. A no-op whenever the session is not running, the network
/// is not detached, or a request is already outstanding, so the UI may
/// invoke it on every connect action.
pub fn connect_veilid(session: &mut Session) -> (issue_attach: bool)
    ensures
        issue_attach == attach_decision(*old(session)),
        *final(session) == after_ensure_attached(*old(session)),
{
    session.ensure_attached()
}

/// The identity operation: the first configured routing-table node
/// identifier as text, or the empty string when no session exists or no
/// identity is assigned yet.
pub fn get_node_id(session: Option<&Session>) -> (r: String)
    ensures
        match session {
            None => r@ == Seq::<char>::empty(),
            Some(s) => {
                &&& s.node_ids@.len() == 0 ==> r@ == Seq::<char>::empty()
                &&& s.node_ids@.len() > 0 ==> r@ == s.node_ids@[0]@
            },
        },
{
    match session {
        None => String::new(),
        Some(s) => s.current_node_identity(),
    }
}

/// Validates a lookup's address before any network round-trip: an empty
/// address is rejected immediately as `InvalidAddress`; any other address
/// is passed on unchanged for the network client to parse.
pub fn lookup_request(address: &str) -> (r: Result<DhtAddress, LookupError>)
    ensures
        address@.len() == 0 ==> r matches Err(LookupError::InvalidAddress),
        address@.len() > 0 ==> (r matches Ok(d) && d.text@ == address@),
{
    if address.is_empty() {
        Err(LookupError::InvalidAddress)
    } else {
        Ok(DhtAddress { text: address.to_owned() })
    }
}

/// Completes a lookup: classifies the network side's fetch report into the
/// record's text or one of the closed errors, per `resolve_result`.
pub fn lookup_resolve(outcome: FetchOutcome) -> (r: Result<String, LookupError>)
    ensures
        text_result_matches(r, resolve_result(outcome@)),
{
    resolve_fetch(outcome)
}

} // verus!
