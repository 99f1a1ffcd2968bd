//! Liquidity-pool aggregation and swap quoting across chains.
//!
//! Pools of several chains are held in one aggregator ([`dex::DexAgg`]) and
//! looked up by denom, chain or address. A quote for a pair is computed from
//! a pool's own reserves or asked from the chain.
//!
//! Nothing here touches the network or the disk. Where a chain has to be
//! asked, the library hands out the question and takes the answer back:
//! [`quotes::start_quotes`] consults every pool that holds the pair, the
//! caller sends the questions that come out of it, and
//! [`quotes::finish_quotes`] turns the answers into quotes. Resolving a
//! cross-chain denom goes the same way, through
//! [`util::denom_trace::resolve_ibc`] and
//! [`util::denom_trace::resolve_with_trace`].
//!
//! Every function states what it returns in terms of a model of its
//! arguments: texts are sequences of characters, lists are sequences, and
//! the configuration of the chains is a map.

use vstd::prelude::*;
use vstd::string::StringExecFns;

pub mod config;
pub mod dex;
pub mod error;
pub mod graph;
pub mod pools;
pub mod query;
pub mod quotes;
pub mod report;
pub mod text;
pub mod util;

use crate::error::TracyError;
use crate::error::TracyErrorView;
use crate::query::reply_view;
use crate::query::step_result_view;
use crate::query::QuoteStep;
use crate::query::QuoteStepView;
use crate::text::clone_text_option;
use crate::text::concat2;

verus! {

/// The outcome of one swap computation on one pool: either the amounts and
/// the pool that gave them, or the reason why there are none. A quote is
/// made once and read afterwards: exactly one of the output amount and the
/// error is there.
#[derive(Debug, PartialEq, Eq)]
pub struct Quote {
    token_in: Option<u128>,
    token_out: Option<u128>,
    pool_address: Option<String>,
    error: Option<String>,
}

/// A `Quote` with its texts as character sequences.
pub struct QuoteView {
    pub token_in: Option<u128>,
    pub token_out: Option<u128>,
    pub pool_address: Option<Seq<char>>,
    pub error: Option<Seq<char>>,
}

impl QuoteView {
    /// The quote of a swap that a pool priced.
    pub open spec fn priced(amount_in: u128, amount_out: u128, address: Seq<char>) -> QuoteView {
        QuoteView {
            token_in: Some(amount_in),
            token_out: Some(amount_out),
            pool_address: Some(address),
            error: None,
        }
    }

    /// The quote of a swap that failed: it carries the error and nothing else.
    pub open spec fn failed(error: Seq<char>) -> QuoteView {
        QuoteView { token_in: None, token_out: None, pool_address: None, error: Some(error) }
    }

    /// Exactly one of the output amount and the error is there, and a failed
    /// quote carries only its error.
    pub open spec fn wf(self) -> bool {
        &&& self.token_out is Some <==> self.error is None
        &&& self.error is Some ==> self.token_in is None && self.pool_address is None
    }
}

impl View for Quote {
    type V = QuoteView;

    closed spec fn view(&self) -> QuoteView {
        QuoteView {
            token_in: self.token_in,
            token_out: self.token_out,
            pool_address: match self.pool_address {
                Some(a) => Some(a@),
                None => None,
            },
            error: match self.error {
                Some(e) => Some(e@),
                None => None,
            },
        }
    }
}

impl Quote {
    #[verifier::type_invariant]
    spec fn inv(self) -> bool {
        self@.wf()
    }

    /// The quote of a swap of `amount_in` that the pool at `address` priced
    /// at `amount_out`.
    pub fn priced(amount_in: u128, amount_out: u128, address: String) -> (q: Quote)
        ensures
            q@ == QuoteView::priced(amount_in, amount_out, address@),
    {
        Quote {
            token_in: Some(amount_in),
            token_out: Some(amount_out),
            pool_address: Some(address),
            error: None,
        }
    }

    /// The quote that reports `error`: the message between braces, no amounts
    /// and no address.
    pub fn failed(error: &TracyError) -> (q: Quote)
        ensures
            q@ == QuoteView::failed("{"@ + error@.message() + "}"@),
    {
        let mut text = concat2("{", error.message().as_str());
        text.append("}");
        Quote { token_in: None, token_out: None, pool_address: None, error: Some(text) }
    }

    /// The quote itself, or the quote that reports why there is none.
    pub fn from_result(result: Result<Quote, TracyError>) -> (q: Quote)
        ensures
            q@ == match result {
                Ok(quote) => quote@,
                Err(error) => QuoteView::failed("{"@ + error@.message() + "}"@),
            },
    {
        match result {
            Ok(quote) => quote,
            Err(error) => Quote::failed(&error),
        }
    }

    /// The amount that was offered.
    pub fn token_in(&self) -> (amount: Option<u128>)
        ensures
            amount == self@.token_in,
            self@.wf(),
    {
        proof {
            use_type_invariant(self);
        }
        self.token_in
    }

    /// The amount that the pool gives for it.
    pub fn token_out(&self) -> (amount: Option<u128>)
        ensures
            amount == self@.token_out,
            self@.wf(),
    {
        proof {
            use_type_invariant(self);
        }
        self.token_out
    }

    /// The address of the pool that priced the swap.
    pub fn pool_address(&self) -> (address: Option<String>)
        ensures
            address.deep_view() == self@.pool_address,
            self@.wf(),
    {
        proof {
            use_type_invariant(self);
        }
        match &self.pool_address {
            Some(a) => Some(a.clone()),
            None => None,
        }
    }

    /// Why there is no amount.
    pub fn error(&self) -> (error: Option<String>)
        ensures
            error.deep_view() == self@.error,
            self@.wf(),
    {
        proof {
            use_type_invariant(self);
        }
        match &self.error {
            Some(e) => Some(e.clone()),
            None => None,
        }
    }
}

impl Clone for Quote {
    fn clone(&self) -> (copy: Quote)
        ensures
            copy == *self,
    {
        proof {
            use_type_invariant(self);
        }
        Quote {
            token_in: self.token_in,
            token_out: self.token_out,
            pool_address: clone_text_option(&self.pool_address),
            error: clone_text_option(&self.error),
        }
    }
}

/// How the pools of one chain are queried. The caller supplies it with each
/// request.
#[derive(Debug, PartialEq, Eq)]
pub struct PoolConfig {
    pub grpc_url: Option<String>,
    pub rest_url: Option<String>,
    pub rpc_url: Option<String>,
    /// Ask the chain for an estimate instead of computing from reserves.
    pub estimate_quote: bool,
}

/// A `PoolConfig` with its texts as character sequences.
pub struct PoolConfigView {
    pub grpc_url: Option<Seq<char>>,
    pub rest_url: Option<Seq<char>>,
    pub rpc_url: Option<Seq<char>>,
    pub estimate_quote: bool,
}

impl View for PoolConfig {
    type V = PoolConfigView;

    open spec fn view(&self) -> PoolConfigView {
        PoolConfigView {
            grpc_url: self.grpc_url.deep_view(),
            rest_url: self.rest_url.deep_view(),
            rpc_url: self.rpc_url.deep_view(),
            estimate_quote: self.estimate_quote,
        }
    }
}

impl Clone for PoolConfig {
    fn clone(&self) -> (copy: PoolConfig)
        ensures
            copy == *self,
    {
        PoolConfig {
            grpc_url: clone_text_option(&self.grpc_url),
            rest_url: clone_text_option(&self.rest_url),
            rpc_url: clone_text_option(&self.rpc_url),
            estimate_quote: self.estimate_quote,
        }
    }
}

/// What every pool offers, whatever its chain and its way of pricing.
pub trait Pool {
    /// The denoms under which the pool is found.
    spec fn spec_token_denoms(&self) -> Seq<Seq<char>>;

    /// The chain that the pool lives on.
    spec fn spec_chain(&self) -> Seq<char>;

    /// The address that identifies the pool on its chain, if it has one.
    spec fn spec_address(&self) -> Option<Seq<char>>;

    /// Where a quote for `amount` of `token_in` in `token_out` stands once
    /// the pool has been consulted: priced, to be asked from the chain, or
    /// failed.
    spec fn spec_get_quote(
        &self,
        amount: u128,
        token_in: Seq<char>,
        token_out: Seq<char>,
        config: PoolConfigView,
    ) -> Result<QuoteStepView, TracyErrorView>;

    /// Consults the pool for a swap of `amount` of `token_in_denom` for
    /// `token_out_denom`. The pool prices the swap itself where it can and
    /// `config` allows it; otherwise it hands out the question for the
    /// chain.
    fn get_quote(
        &self,
        amount: u128,
        token_in_denom: &str,
        token_out_denom: &str,
        config: &PoolConfig,
    ) -> (r: Result<QuoteStep, TracyError>)
        ensures
            step_result_view(r) == self.spec_get_quote(
                amount,
                token_in_denom@,
                token_out_denom@,
                config@,
            ),
    ;

    /// The denoms under which the pool is found.
    fn token_denoms(&self) -> (denoms: Vec<String>)
        ensures
            denoms.deep_view() == self.spec_token_denoms(),
    ;

    /// Whether the pool is found under `denom`.
    fn has_denom(&self, denom: &str) -> (yes: bool)
        ensures
            yes == self.spec_token_denoms().contains(denom@),
    ;

    /// The chain that the pool lives on.
    fn chain(&self) -> (tag: String)
        ensures
            tag@ == self.spec_chain(),
    ;

    /// The address that identifies the pool on its chain. A pool that was
    /// recorded without address has none to give.
    fn address(&self) -> (r: Result<String, TracyError>)
        ensures
            reply_view(r) == match self.spec_address() {
                Some(address) => Ok::<Seq<char>, TracyErrorView>(address),
                None => Err(TracyErrorView::AddressNotFound { address: Seq::empty() }),
            },
    ;
}

} // verus!
