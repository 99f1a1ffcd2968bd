//! Reading what a contract of the Juno chain answered: out of the envelope,
//! out of base64, and down to the amount.

use vstd::prelude::*;
use vstd::string::StringExecFns;
use vstd::string::StringSliceAdditionalSpecFns;
use vstd::utf8::decode_utf8;
use vstd::utf8::valid_utf8;
use crate::error::TracyError;
use crate::error::TracyErrorView;
use crate::pools::juno_pool::WasmContractResponse;
use crate::pools::juno_pool::WasmErrorResponse;
use crate::pools::juno_pool::WasmPoolPriceResponse;
use crate::query::reply_view;
use crate::util::encoding::base64_decode;
use crate::util::encoding::base64_standard_decoded;
use crate::util::encoding::text_from_utf8;
use crate::util::encoding::Base64Failure;

verus! {

/// The contract's answer in the envelope that carried it. A node that
/// reports an error has not answered, whatever else it sent; an envelope
/// that could not be read is a failure with the reader's words as cause.
pub open spec fn smart_of(
    reported: Option<WasmErrorResponse>,
    response: Result<WasmContractResponse, String>,
    endpoint: Seq<char>,
) -> Result<Seq<char>, TracyErrorView> {
    match (reported, response) {
        (Some(report), _) => Err(
            TracyErrorView::ExternalQueryFailure { endpoint, cause: report.error@ },
        ),
        (None, Err(cause)) => Err(TracyErrorView::ExternalQueryFailure { endpoint, cause: cause@ }),
        (None, Ok(envelope)) => Ok(envelope.result.smart@),
    }
}

/// Reads the answer of a contract out of what the node sent. `reported` is
/// the node's answer read as an error report, where it is one; `response` is
/// the same answer read as an envelope, or why it is none.
pub fn smart_of_reply(
    reported: Option<WasmErrorResponse>,
    response: Result<WasmContractResponse, String>,
    endpoint: &String,
) -> (r: Result<String, TracyError>)
    ensures
        reply_view(r) == smart_of(reported, response, endpoint@),
{
    match reported {
        Some(report) => Err(
            TracyError::ExternalQueryFailure { endpoint: endpoint.clone(), cause: report.error },
        ),
        None => match response {
            Err(cause) => Err(TracyError::ExternalQueryFailure { endpoint: endpoint.clone(), cause }),
            Ok(envelope) => Ok(envelope.result.smart),
        },
    }
}

/// The text that a contract answered, decoded from base64. An answer that is
/// too long to decode, no base64 or no UTF-8 is a failure of the query.
pub open spec fn payload_of(smart: Seq<u8>, endpoint: Seq<char>) -> Result<
    Seq<char>,
    TracyErrorView,
> {
    if smart.len() > isize::MAX {
        Err(TracyErrorView::ExternalQueryFailure { endpoint, cause: "Answer is too long."@ })
    } else {
        match base64_standard_decoded(smart) {
            Err(failure) => Err(
                TracyErrorView::ExternalQueryFailure { endpoint, cause: failure.spec_message() },
            ),
            Ok(bytes) => if valid_utf8(bytes) {
                Ok(decode_utf8(bytes))
            } else {
                Err(
                    TracyErrorView::ExternalQueryFailure {
                        endpoint,
                        cause: "Answer is not UTF-8."@,
                    },
                )
            },
        }
    }
}

/// Decodes the answer of a contract with `base64::decode_config`. What
/// follows the decoding is `payload_from_decoded`.
pub fn decode_payload(smart: &str, endpoint: &String) -> (r: Result<String, TracyError>)
    ensures
        reply_view(r) == payload_of(smart.spec_bytes(), endpoint@),
{
    if smart.as_bytes().len() > isize::MAX as usize {
        return Err(
            TracyError::ExternalQueryFailure {
                endpoint: endpoint.clone(),
                cause: String::from_str("Answer is too long."),
            },
        );
    }
    payload_from_decoded(base64_decode(smart), endpoint)
}

/// The text that decoded bytes hold, or the failure that the decoding or
/// the bytes amount to.
pub fn payload_from_decoded(decoded: Result<Vec<u8>, Base64Failure>, endpoint: &String) -> (r:
    Result<String, TracyError>)
    ensures
        reply_view(r) == match decoded {
            Err(failure) => Err::<Seq<char>, TracyErrorView>(
                TracyErrorView::ExternalQueryFailure {
                    endpoint: endpoint@,
                    cause: failure.spec_message(),
                },
            ),
            Ok(bytes) => if valid_utf8(bytes@) {
                Ok(decode_utf8(bytes@))
            } else {
                Err(
                    TracyErrorView::ExternalQueryFailure {
                        endpoint: endpoint@,
                        cause: "Answer is not UTF-8."@,
                    },
                )
            },
        },
{
    match decoded {
        Err(failure) => Err(
            TracyError::ExternalQueryFailure {
                endpoint: endpoint.clone(),
                cause: failure.message(),
            },
        ),
        Ok(bytes) => match text_from_utf8(bytes) {
            Some(text) => Ok(text),
            None => Err(
                TracyError::ExternalQueryFailure {
                    endpoint: endpoint.clone(),
                    cause: String::from_str("Answer is not UTF-8."),
                },
            ),
        },
    }
}

/// The amount that a pool contract answered: the first of the two that is
/// there. An answer without amount is a failure of the query.
pub open spec fn amount_of(response: WasmPoolPriceResponse, endpoint: Seq<char>) -> Result<
    Seq<char>,
    TracyErrorView,
> {
    match (response.token1_amount, response.token2_amount) {
        (Some(amount), _) => Ok(amount@),
        (None, Some(amount)) => Ok(amount@),
        (None, None) => Err(
            TracyErrorView::ExternalQueryFailure {
                endpoint,
                cause: "The pool answered no amount."@,
            },
        ),
    }
}

/// The amount that a pool contract answered, as text.
pub fn amount_of_response(response: WasmPoolPriceResponse, endpoint: &String) -> (r: Result<
    String,
    TracyError,
>)
    ensures
        reply_view(r) == amount_of(response, endpoint@),
{
    match response.token1_amount {
        Some(amount) => Ok(amount),
        None => match response.token2_amount {
            Some(amount) => Ok(amount),
            None => Err(
                TracyError::ExternalQueryFailure {
                    endpoint: endpoint.clone(),
                    cause: String::from_str("The pool answered no amount."),
                },
            ),
        },
    }
}

} // verus!
