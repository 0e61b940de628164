//! Inbound requests and the precondition checks made on them before any
//! upstream call.

use vstd::prelude::*;
use vstd::utf8::encode_utf8;

verus! {

/// The least length, in bytes of UTF-8, of an autocomplete query.
pub const MIN_QUERY_LENGTH: usize = 4;

/// Body of an autocomplete request.
#[derive(Debug, PartialEq, Eq)]
pub struct AutoCompleteRequest {
    pub query: String,
}

pub ghost struct AutoCompleteRequestView {
    pub query: Seq<char>,
}

impl View for AutoCompleteRequest {
    type V = AutoCompleteRequestView;

    open spec fn view(&self) -> AutoCompleteRequestView {
        AutoCompleteRequestView { query: self.query@ }
    }
}

/// Body of a hotel pricing request: the currency, which is echoed back to the
/// client, and whatever else the provider understands, which is forwarded
/// untouched.
#[derive(Debug, PartialEq, Eq)]
pub struct SerpRequest {
    pub currency: String,
    pub provider_fields: serde_json::Value,
}

pub ghost struct SerpRequestView {
    pub currency: Seq<char>,
    pub provider_fields: serde_json::Value,
}

impl View for SerpRequest {
    type V = SerpRequestView;

    open spec fn view(&self) -> SerpRequestView {
        SerpRequestView { currency: self.currency@, provider_fields: self.provider_fields }
    }
}

/// Why a request was turned away before any upstream call.
#[derive(Clone, Copy, Debug, PartialEq, Eq, Structural)]
pub enum ValidationError {
    /// The autocomplete query has fewer than [`MIN_QUERY_LENGTH`] bytes.
    QueryTooShort,
}

/// The length of a query as the validator counts it: bytes of its UTF-8
/// text, not characters or graphemes.
pub open spec fn query_length(query: Seq<char>) -> nat {
    encode_utf8(query).len()
}

/// Whether an autocomplete query is long enough to be forwarded.
pub open spec fn query_accepted(query: Seq<char>) -> bool {
    query_length(query) >= MIN_QUERY_LENGTH
}

/// What the validator decides for an autocomplete request.
pub open spec fn auto_complete_verdict(request: AutoCompleteRequestView) -> Result<
    (),
    ValidationError,
> {
    if query_accepted(request.query) {
        Ok(())
    } else {
        Err(ValidationError::QueryTooShort)
    }
}

/// Checks an autocomplete request: it passes exactly when its query has at
/// least four bytes.
pub fn validate_auto_complete(request: &AutoCompleteRequest) -> (verdict: Result<
    (),
    ValidationError,
>)
    ensures
        verdict == auto_complete_verdict(request@),
{
    if request.query.as_str().as_bytes().len() < MIN_QUERY_LENGTH {
        Err(ValidationError::QueryTooShort)
    } else {
        Ok(())
    }
}

impl ValidationError {
    /// The reason as the client reads it.
    pub open spec fn reason_spec(self) -> Seq<char> {
        match self {
            ValidationError::QueryTooShort => "Query should be at least 4 letters"@,
        }
    }

    /// The reason as the client reads it.
    pub fn reason(&self) -> (s: &'static str)
        ensures
            s@ == self.reason_spec(),
    {
        match self {
            ValidationError::QueryTooShort => "Query should be at least 4 letters",
        }
    }
}

} // verus!
