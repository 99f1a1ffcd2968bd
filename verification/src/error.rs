//! The ways in which pool lookups and quotes fail.

use vstd::prelude::*;
use vstd::string::StringExecFns;
use crate::text::concat2;

verus! {

/// A failure of a lookup or of a quote. Failures of one pool never touch the
/// results of another: callers keep them per pool.
#[derive(Debug, PartialEq, Eq)]
pub enum TracyError {
    /// No query configuration is registered for the pool's chain, or the
    /// registered one lacks the endpoint that the query needs.
    ConfigMissing { chain: String },
    /// A quote from reserves was asked of a pool that cannot give one. The
    /// fault says what about the pool stands in the way.
    UnsupportedPoolShape { fault: ShapeFault },
    /// The pool holds no asset of that denom.
    DenomNotFound { denom: String },
    /// The price source could not be reached or its answer could not be read.
    ExternalQueryFailure { endpoint: String, cause: String },
    /// No pool has that address.
    AddressNotFound { address: String },
    /// The denom-trace cache could not be read or written. Never fatal.
    CacheIOFailure { cause: String },
}

/// What about a pool keeps it from being priced from its reserves.
#[derive(Debug, PartialEq, Eq)]
pub enum ShapeFault {
    /// It does not hold exactly two assets.
    AssetCount,
    /// A reserve or a weight, given here, is no 128-bit decimal number.
    NotANumber { text: String },
    /// The formula has no value: a reserve or weight of the asset that
    /// enters is zero, or a product leaves the 128-bit range.
    NoValue,
}

/// A `ShapeFault` with its text as a character sequence.
pub enum ShapeFaultView {
    AssetCount,
    NotANumber { text: Seq<char> },
    NoValue,
}

impl View for ShapeFault {
    type V = ShapeFaultView;

    open spec fn view(&self) -> ShapeFaultView {
        match *self {
            ShapeFault::AssetCount => ShapeFaultView::AssetCount,
            ShapeFault::NotANumber { text } => ShapeFaultView::NotANumber { text: text@ },
            ShapeFault::NoValue => ShapeFaultView::NoValue,
        }
    }
}

/// The sentence that says that `text` is no number.
pub open spec fn not_a_number(text: Seq<char>) -> Seq<char> {
    "Not a decimal number in range: "@ + text
}

/// The sentence that says that `text` is no number.
pub fn not_a_number_text(text: &str) -> (sentence: String)
    ensures
        sentence@ == not_a_number(text@),
{
    concat2("Not a decimal number in range: ", text)
}

impl ShapeFaultView {
    /// The sentence that reports the fault.
    pub open spec fn message(self) -> Seq<char> {
        match self {
            ShapeFaultView::AssetCount => {
                "Can only calculate quote for pools with 2 assets, estimate quote instead."@
            },
            ShapeFaultView::NotANumber { text } => not_a_number(text),
            ShapeFaultView::NoValue => "Quote is undefined or does not fit 128 bits."@,
        }
    }
}

impl ShapeFault {
    /// The sentence that reports the fault.
    pub fn message(&self) -> (text: String)
        ensures
            text@ == self@.message(),
    {
        match self {
            ShapeFault::AssetCount => String::from_str(
                "Can only calculate quote for pools with 2 assets, estimate quote instead.",
            ),
            ShapeFault::NotANumber { text } => not_a_number_text(text.as_str()),
            ShapeFault::NoValue => String::from_str("Quote is undefined or does not fit 128 bits."),
        }
    }
}

impl Clone for ShapeFault {
    fn clone(&self) -> (copy: ShapeFault)
        ensures
            copy == *self,
    {
        match self {
            ShapeFault::AssetCount => ShapeFault::AssetCount,
            ShapeFault::NotANumber { text } => ShapeFault::NotANumber { text: text.clone() },
            ShapeFault::NoValue => ShapeFault::NoValue,
        }
    }
}

/// What a `TracyError` says, with its texts as character sequences.
pub enum TracyErrorView {
    ConfigMissing { chain: Seq<char> },
    UnsupportedPoolShape { fault: ShapeFaultView },
    DenomNotFound { denom: Seq<char> },
    ExternalQueryFailure { endpoint: Seq<char>, cause: Seq<char> },
    AddressNotFound { address: Seq<char> },
    CacheIOFailure { cause: Seq<char> },
}

impl View for TracyError {
    type V = TracyErrorView;

    open spec fn view(&self) -> TracyErrorView {
        match *self {
            TracyError::ConfigMissing { chain } => TracyErrorView::ConfigMissing { chain: chain@ },
            TracyError::UnsupportedPoolShape { fault } => TracyErrorView::UnsupportedPoolShape {
                fault: fault@,
            },
            TracyError::DenomNotFound { denom } => TracyErrorView::DenomNotFound { denom: denom@ },
            TracyError::ExternalQueryFailure { endpoint, cause } => {
                TracyErrorView::ExternalQueryFailure { endpoint: endpoint@, cause: cause@ }
            },
            TracyError::AddressNotFound { address } => {
                TracyErrorView::AddressNotFound { address: address@ }
            },
            TracyError::CacheIOFailure { cause } => TracyErrorView::CacheIOFailure { cause: cause@ },
        }
    }
}

impl TracyErrorView {
    /// The sentence that reports this failure.
    pub open spec fn message(self) -> Seq<char> {
        match self {
            TracyErrorView::ConfigMissing { chain } => "No config for chain "@ + chain,
            TracyErrorView::UnsupportedPoolShape { fault } => fault.message(),
            TracyErrorView::DenomNotFound { denom } => "Cannot find denom: "@ + denom,
            TracyErrorView::ExternalQueryFailure { endpoint, cause } => {
                "Query to "@ + endpoint + " failed: "@ + cause
            },
            TracyErrorView::AddressNotFound { address } => "No pool with address "@ + address,
            TracyErrorView::CacheIOFailure { cause } => "Denom trace cache unavailable: "@ + cause,
        }
    }
}

impl TracyError {
    /// The sentence that reports this failure.
    pub fn message(&self) -> (text: String)
        ensures
            text@ == self@.message(),
    {
        match self {
            TracyError::ConfigMissing { chain } => concat2("No config for chain ", chain.as_str()),
            TracyError::UnsupportedPoolShape { fault } => fault.message(),
            TracyError::DenomNotFound { denom } => concat2("Cannot find denom: ", denom.as_str()),
            TracyError::ExternalQueryFailure { endpoint, cause } => {
                let mut text = concat2("Query to ", endpoint.as_str());
                text.append(" failed: ");
                text.append(cause.as_str());
                text
            },
            TracyError::AddressNotFound { address } => concat2(
                "No pool with address ",
                address.as_str(),
            ),
            TracyError::CacheIOFailure { cause } => concat2(
                "Denom trace cache unavailable: ",
                cause.as_str(),
            ),
        }
    }
}

/// The view of a result that may hold a quote.
pub open spec fn quote_result_view(r: Result<crate::Quote, TracyError>) -> Result<
    crate::QuoteView,
    TracyErrorView,
> {
    match r {
        Ok(quote) => Ok(quote@),
        Err(error) => Err(error@),
    }
}

/// The view of a result that may hold a plain value.
pub open spec fn value_result_view<T>(r: Result<T, TracyError>) -> Result<T, TracyErrorView> {
    match r {
        Ok(value) => Ok(value),
        Err(error) => Err(error@),
    }
}

impl Clone for TracyError {
    fn clone(&self) -> (copy: TracyError)
        ensures
            copy == *self,
    {
        match self {
            TracyError::ConfigMissing { chain } => TracyError::ConfigMissing {
                chain: chain.clone(),
            },
            TracyError::UnsupportedPoolShape { fault } => TracyError::UnsupportedPoolShape {
                fault: fault.clone(),
            },
            TracyError::DenomNotFound { denom } => TracyError::DenomNotFound {
                denom: denom.clone(),
            },
            TracyError::ExternalQueryFailure { endpoint, cause } => {
                TracyError::ExternalQueryFailure { endpoint: endpoint.clone(), cause: cause.clone() }
            },
            TracyError::AddressNotFound { address } => TracyError::AddressNotFound {
                address: address.clone(),
            },
            TracyError::CacheIOFailure { cause } => TracyError::CacheIOFailure {
                cause: cause.clone(),
            },
        }
    }
}

} // verus!
