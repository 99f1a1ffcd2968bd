//! What a pool asks of a chain when it cannot price a swap from its own
//! reserves, and how the answer becomes a quote.

use vstd::prelude::*;
use crate::error::not_a_number;
use crate::error::not_a_number_text;
use crate::error::TracyError;
use crate::error::TracyErrorView;
use vstd::string::StringExecFns;
use crate::text::decimal_digits;
use crate::text::format_u128;
use crate::text::parse_u128;
use crate::text::parse_u128_spec;
use crate::Quote;
use crate::QuoteView;

verus! {

/// A price question for a chain. The caller sends it and hands the answer
/// back; nothing here touches the network.
#[derive(Debug, PartialEq, Eq)]
pub enum PriceQuery {
    /// Ask the chain's swap estimator what `token_in` (an amount followed by
    /// a denom) gives in `token_out_denom` on the pool `pool_id`.
    SwapEstimate {
        endpoint: String,
        sender: String,
        pool_id: u64,
        token_in: String,
        token_out_denom: String,
    },
    /// Ask the pool contract at `contract` for its price: a GET of `url`
    /// with the query parameter `encoding=base64`.
    ContractPrice { endpoint: String, contract: String, url: String },
}

/// A `PriceQuery` with its texts as character sequences.
pub enum PriceQueryView {
    SwapEstimate {
        endpoint: Seq<char>,
        sender: Seq<char>,
        pool_id: u64,
        token_in: Seq<char>,
        token_out_denom: Seq<char>,
    },
    ContractPrice { endpoint: Seq<char>, contract: Seq<char>, url: Seq<char> },
}

impl PriceQueryView {
    /// Where the question goes.
    pub open spec fn endpoint(self) -> Seq<char> {
        match self {
            PriceQueryView::SwapEstimate { endpoint, .. } => endpoint,
            PriceQueryView::ContractPrice { endpoint, .. } => endpoint,
        }
    }

    /// The address of the pool that the question is about.
    pub open spec fn pool_address(self) -> Seq<char> {
        match self {
            PriceQueryView::SwapEstimate { sender, .. } => sender,
            PriceQueryView::ContractPrice { contract, .. } => contract,
        }
    }

    /// The address to fetch, without its parameters.
    pub open spec fn request_url(self) -> Seq<char> {
        match self {
            PriceQueryView::SwapEstimate { endpoint, pool_id, .. } => estimate_url(
                endpoint,
                pool_id,
            ),
            PriceQueryView::ContractPrice { url, .. } => url,
        }
    }

    /// The parameters that go with the address, as names and values.
    pub open spec fn request_parameters(self) -> Seq<(Seq<char>, Seq<char>)> {
        match self {
            PriceQueryView::SwapEstimate { sender, pool_id, token_in, token_out_denom, .. } => seq![
                ("sender"@, sender),
                ("token_in"@, token_in),
                ("routes.pool_id"@, decimal_digits(pool_id as nat)),
                ("routes.token_out_denom"@, token_out_denom),
            ],
            PriceQueryView::ContractPrice { .. } => contract_parameters(),
        }
    }
}

/// The parameters that go with every question to a contract: the answer
/// is wanted in base64.
pub open spec fn contract_parameters() -> Seq<(Seq<char>, Seq<char>)> {
    seq![("encoding"@, "base64"@)]
}

/// The parameters that go with every question to a contract.
pub fn contract_request_parameters() -> (parameters: Vec<(String, String)>)
    ensures
        parameter_views(parameters@) == contract_parameters(),
{
    let mut parameters: Vec<(String, String)> = Vec::new();
    parameters.push(parameter("encoding", "base64"));
    assert(parameter_views(parameters@) =~= contract_parameters());
    parameters
}

/// The address at which the node `endpoint` estimates a swap on the pool
/// `pool_id`.
pub open spec fn estimate_url(endpoint: Seq<char>, pool_id: u64) -> Seq<char> {
    endpoint + "/osmosis/gamm/v1beta1/"@ + decimal_digits(pool_id as nat)
        + "/estimate/swap_exact_amount_in"@
}

/// The views of a list of parameters.
pub open spec fn parameter_views(parameters: Seq<(String, String)>) -> Seq<(Seq<char>, Seq<char>)> {
    parameters.map_values(|p: (String, String)| (p.0@, p.1@))
}

/// A parameter of a request.
fn parameter(name: &str, value: &str) -> (p: (String, String))
    ensures
        p.0@ == name@,
        p.1@ == value@,
{
    (String::from_str(name), String::from_str(value))
}

impl View for PriceQuery {
    type V = PriceQueryView;

    open spec fn view(&self) -> PriceQueryView {
        match *self {
            PriceQuery::SwapEstimate { endpoint, sender, pool_id, token_in, token_out_denom } => {
                PriceQueryView::SwapEstimate {
                    endpoint: endpoint@,
                    sender: sender@,
                    pool_id,
                    token_in: token_in@,
                    token_out_denom: token_out_denom@,
                }
            },
            PriceQuery::ContractPrice { endpoint, contract, url } => {
                PriceQueryView::ContractPrice { endpoint: endpoint@, contract: contract@, url: url@ }
            },
        }
    }
}

impl Clone for PriceQuery {
    fn clone(&self) -> (copy: PriceQuery)
        ensures
            copy == *self,
    {
        match self {
            PriceQuery::SwapEstimate { endpoint, sender, pool_id, token_in, token_out_denom } => {
                PriceQuery::SwapEstimate {
                    endpoint: endpoint.clone(),
                    sender: sender.clone(),
                    pool_id: *pool_id,
                    token_in: token_in.clone(),
                    token_out_denom: token_out_denom.clone(),
                }
            },
            PriceQuery::ContractPrice { endpoint, contract, url } => PriceQuery::ContractPrice {
                endpoint: endpoint.clone(),
                contract: contract.clone(),
                url: url.clone(),
            },
        }
    }
}

impl PriceQuery {
    /// Where the question goes.
    pub fn endpoint(&self) -> (endpoint: &String)
        ensures
            endpoint@ == self@.endpoint(),
    {
        match self {
            PriceQuery::SwapEstimate { endpoint, .. } => endpoint,
            PriceQuery::ContractPrice { endpoint, .. } => endpoint,
        }
    }

    /// The address of the pool that the question is about.
    pub fn pool_address(&self) -> (address: &String)
        ensures
            address@ == self@.pool_address(),
    {
        match self {
            PriceQuery::SwapEstimate { sender, .. } => sender,
            PriceQuery::ContractPrice { contract, .. } => contract,
        }
    }

    /// The address to fetch, without its parameters.
    pub fn request_url(&self) -> (url: String)
        ensures
            url@ == self@.request_url(),
    {
        match self {
            PriceQuery::SwapEstimate { endpoint, pool_id, .. } => {
                let mut url = endpoint.clone();
                url.append("/osmosis/gamm/v1beta1/");
                url.append(format_u128(*pool_id as u128).as_str());
                url.append("/estimate/swap_exact_amount_in");
                url
            },
            PriceQuery::ContractPrice { url, .. } => url.clone(),
        }
    }

    /// The parameters that go with the address, as names and values.
    pub fn request_parameters(&self) -> (parameters: Vec<(String, String)>)
        ensures
            parameter_views(parameters@) == self@.request_parameters(),
    {
        let mut parameters: Vec<(String, String)> = Vec::new();
        match self {
            PriceQuery::SwapEstimate { sender, pool_id, token_in, token_out_denom, .. } => {
                parameters.push(parameter("sender", sender.as_str()));
                parameters.push(parameter("token_in", token_in.as_str()));
                parameters.push(
                    parameter("routes.pool_id", format_u128(*pool_id as u128).as_str()),
                );
                parameters.push(parameter("routes.token_out_denom", token_out_denom.as_str()));
            },
            PriceQuery::ContractPrice { .. } => {
                return contract_request_parameters();
            },
        }
        assert(parameter_views(parameters@) =~= self@.request_parameters());
        parameters
    }

    /// The failure to report when the question could not be asked or its
    /// answer could not be read: it names the endpoint and the cause.
    pub fn failure(&self, cause: String) -> (error: TracyError)
        ensures
            error@ == (TracyErrorView::ExternalQueryFailure {
                endpoint: self@.endpoint(),
                cause: cause@,
            }),
    {
        TracyError::ExternalQueryFailure { endpoint: self.endpoint().clone(), cause }
    }
}

/// Where a quote stands after the pool has been consulted.
#[derive(Debug, PartialEq, Eq)]
pub enum QuoteStep {
    /// The pool priced the swap from its own reserves.
    Done(Quote),
    /// The chain has to be asked.
    Ask(PriceQuery),
}

/// A `QuoteStep` with its texts as character sequences.
pub enum QuoteStepView {
    Done(QuoteView),
    Ask(PriceQueryView),
}

impl View for QuoteStep {
    type V = QuoteStepView;

    open spec fn view(&self) -> QuoteStepView {
        match *self {
            QuoteStep::Done(quote) => QuoteStepView::Done(quote@),
            QuoteStep::Ask(query) => QuoteStepView::Ask(query@),
        }
    }
}

/// The view of a result that may hold a question.
pub open spec fn query_result_view(r: Result<PriceQuery, TracyError>) -> Result<
    PriceQueryView,
    TracyErrorView,
> {
    match r {
        Ok(query) => Ok(query@),
        Err(error) => Err(error@),
    }
}

/// The view of a result that may hold a step.
pub open spec fn step_result_view(r: Result<QuoteStep, TracyError>) -> Result<
    QuoteStepView,
    TracyErrorView,
> {
    match r {
        Ok(step) => Ok(step@),
        Err(error) => Err(error@),
    }
}

/// The view of what a price source answered: the amount as text, or the
/// failure.
pub open spec fn reply_view(reply: Result<String, TracyError>) -> Result<
    Seq<char>,
    TracyErrorView,
> {
    match reply {
        Ok(text) => Ok(text@),
        Err(error) => Err(error@),
    }
}

/// The quote that an answer amounts to. A failure stays what it is; an
/// amount that is no 128-bit decimal number is a failure of the query.
pub open spec fn quote_of_reply(
    amount: u128,
    address: Seq<char>,
    endpoint: Seq<char>,
    reply: Result<Seq<char>, TracyErrorView>,
) -> Result<QuoteView, TracyErrorView> {
    match reply {
        Err(error) => Err(error),
        Ok(text) => match parse_u128_spec(text) {
            Some(amount_out) => Ok(QuoteView::priced(amount, amount_out, address)),
            None => Err(
                TracyErrorView::ExternalQueryFailure {
                    endpoint,
                    cause: not_a_number(text),
                },
            ),
        },
    }
}

/// Turns the answer of a price source into the quote of the pool at
/// `address` for `amount` entering it.
pub fn quote_from_reply(
    amount: u128,
    address: &String,
    endpoint: &String,
    reply: Result<String, TracyError>,
) -> (r: Result<Quote, TracyError>)
    ensures
        crate::error::quote_result_view(r) == quote_of_reply(
            amount,
            address@,
            endpoint@,
            reply_view(reply),
        ),
{
    match reply {
        Err(error) => Err(error),
        Ok(text) => match parse_u128(text.as_str()) {
            Some(amount_out) => Ok(Quote::priced(amount, amount_out, address.clone())),
            None => {
                let cause = not_a_number_text(text.as_str());
                Err(TracyError::ExternalQueryFailure { endpoint: endpoint.clone(), cause })
            },
        },
    }
}

} // verus!
