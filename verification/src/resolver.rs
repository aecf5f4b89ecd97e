//! The DHT resolver: classifies the outcome of a distributed-hash-table
//! lookup into a closed error taxonomy.
//!
//! A lookup parses the user-supplied address into a typed cryptographic
//! key, opens the corresponding record, and fetches its current value at
//! the first subkey, force-refreshed from the network. The parsing, opening
//! and fetching are the network client's asynchronous work and happen
//! outside this crate; the caller reports what happened as a
//! `FetchOutcome`, and `resolve_fetch` turns that report into the record's
//! text or one of four errors — never a crash, and never an opaque
//! library-level error.

use vstd::prelude::*;
use vstd::utf8::{decode_utf8, encode_utf8, valid_utf8};

use crate::text::utf8_to_text;

verus! {

/// The closed error taxonomy a lookup surfaces to the UI boundary.
#[derive(Clone, Copy, Debug, PartialEq, Eq, Structural)]
pub enum LookupError {
    /// The input could not be used as a network key; user-correctable.
    InvalidAddress,
    /// The address is valid but the record currently holds no value; a
    /// normal outcome, not a failure.
    EmptyRecord,
    /// The record's content is not valid UTF-8 text.
    DecodeError,
    /// Any failure originating from the network library.
    NetworkError,
}

/// A validated lookup address: non-empty text awaiting cryptographic
/// parsing by the network client.
#[derive(Clone, Debug, PartialEq, Eq)]
pub struct DhtAddress {
    pub text: String,
}

impl DhtAddress {
    /// The address text, for handing to the network client's key parser.
    pub fn as_text(&self) -> (r: &str)
        ensures
            r@ == self.text@,
    {
        self.text.as_str()
    }
}

/// What the network side of a lookup reported back.
pub enum FetchOutcome {
    /// No client exists in this process.
    NoSession,
    /// The address did not parse as a typed cryptographic key.
    InvalidKey,
    /// Opening the record or fetching its value failed in the network
    /// library.
    TransportFailed,
    /// The record holds no value at the first subkey.
    Missing,
    /// The raw bytes of the record's current value.
    Value(Vec<u8>),
}

/// The mathematical value of a `FetchOutcome`.
pub enum FetchView {
    NoSession,
    InvalidKey,
    TransportFailed,
    Missing,
    Value(Seq<u8>),
}

impl View for FetchOutcome {
    type V = FetchView;

    open spec fn view(&self) -> FetchView {
        match self {
            FetchOutcome::NoSession => FetchView::NoSession,
            FetchOutcome::InvalidKey => FetchView::InvalidKey,
            FetchOutcome::TransportFailed => FetchView::TransportFailed,
            FetchOutcome::Missing => FetchView::Missing,
            FetchOutcome::Value(bytes) => FetchView::Value(bytes@),
        }
    }
}

/// How each fetch report resolves: a missing client or a transport failure
/// is a `NetworkError`, an unparseable address an `InvalidAddress`, an
/// absent value an `EmptyRecord`, and a present value its UTF-8 decoding —
/// or a `DecodeError` when the bytes are not valid UTF-8.
pub open spec fn resolve_result(o: FetchView) -> Result<Seq<char>, LookupError> {
    match o {
        FetchView::NoSession => Err(LookupError::NetworkError),
        FetchView::InvalidKey => Err(LookupError::InvalidAddress),
        FetchView::TransportFailed => Err(LookupError::NetworkError),
        FetchView::Missing => Err(LookupError::EmptyRecord),
        FetchView::Value(bytes) => if valid_utf8(bytes) {
            Ok(decode_utf8(bytes))
        } else {
            Err(LookupError::DecodeError)
        },
    }
}

/// An executable lookup result carries exactly a mathematical one: same
/// success or failure, the same text, the same error.
pub open spec fn text_result_matches(
    r: Result<String, LookupError>,
    m: Result<Seq<char>, LookupError>,
) -> bool {
    match (r, m) {
        (Ok(s), Ok(t)) => s@ == t,
        (Err(e), Err(f)) => e == f,
        _ => false,
    }
}

/// Turns the network side's fetch report into the lookup's result, per
/// `resolve_result`.
pub fn resolve_fetch(outcome: FetchOutcome) -> (r: Result<String, LookupError>)
    ensures
        text_result_matches(r, resolve_result(outcome@)),
{
    match outcome {
        FetchOutcome::NoSession => Err(LookupError::NetworkError),
        FetchOutcome::InvalidKey => Err(LookupError::InvalidAddress),
        FetchOutcome::TransportFailed => Err(LookupError::NetworkError),
        FetchOutcome::Missing => Err(LookupError::EmptyRecord),
        FetchOutcome::Value(bytes) => match utf8_to_text(bytes) {
            Some(text) => Ok(text),
            None => Err(LookupError::DecodeError),
        },
    }
}

/// A stored UTF-8 text payload round-trips through a lookup unchanged:
/// resolving a fetched value that holds the encoding of `text` yields
/// exactly `text`.
pub proof fn lemma_stored_text_round_trip(text: Seq<char>)
    ensures
        resolve_result(FetchView::Value(encode_utf8(text))) == Ok::<Seq<char>, LookupError>(text),
{
    vstd::utf8::encode_utf8_valid_utf8(text);
    vstd::utf8::encode_utf8_decode_utf8(text);
}

} // verus!
