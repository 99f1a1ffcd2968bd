//! Swap pools of the Juno chain. Such a pool cannot be priced from its
//! snapshot: the pool contract is asked. This file holds the records and
//! builds the questions; sending them is the caller's part.

use vstd::prelude::*;
use vstd::string::StringExecFns;
use vstd::utf8::is_ascii_chars;
use vstd::utf8::is_ascii_chars_concat;
use vstd::utf8::is_ascii_chars_encode_utf8;
use crate::error::TracyError;
use crate::error::TracyErrorView;
use crate::query::query_result_view;
use crate::query::PriceQuery;
use crate::query::PriceQueryView;
use crate::query::QuoteStep;
use crate::query::QuoteStepView;
use crate::text::clone_text_option;
use crate::text::decimal_digits;
use crate::text::format_u128;
use crate::text::lemma_decimal_digits_u128;
use crate::text::lemma_texts_push;
use crate::text::str_eq;
use crate::util::encoding::base64_encode;
use crate::util::encoding::base64_standard;
use crate::Pool;
use crate::PoolConfig;
use crate::PoolConfigView;

verus! {


/// The envelope in which a contract's answer arrives.
#[derive(Debug, PartialEq, Eq)]
pub struct WasmContractResponse {
    pub result: WasmContractRaw,
}

/// The answer of a contract, encoded in base64.
#[derive(Debug, PartialEq, Eq)]
pub struct WasmContractRaw {
    pub smart: String,
}

/// What is known of a token on Juno.
#[derive(Debug, PartialEq, Eq)]
pub struct JunoToken {
    pub name: Option<String>,
    pub symbol: Option<String>,
    pub total_supply: Option<String>,
    pub address: Option<String>,
    pub decimals: Option<u64>,
}

/// A swap pool of two tokens as its snapshot records it.
#[derive(Debug, PartialEq, Eq)]
pub struct WasmPool {
    pub pool_address: Option<String>,
    pub lp_token_address: String,
    pub lp_token_supply: String,
    pub token1: Option<JunoToken>,
    pub token1_denom: JunoDenom,
    pub token1_reserve: String,
    pub token2: Option<JunoToken>,
    pub token2_denom: JunoDenom,
    pub token2_reserve: String,
}

/// How a pool names one of its tokens: a native denom or the address of a
/// token contract.
#[derive(Debug, PartialEq, Eq)]
pub struct JunoDenom {
    pub native: Option<String>,
    pub cw20: Option<String>,
}

/// The contracts that run one code id.
#[derive(Debug, PartialEq, Eq)]
pub struct WasmCodeContracts {
    pub result: Vec<String>,
}

/// The price that a pool contract answers: one of the two amounts.
#[derive(Debug, PartialEq, Eq)]
pub struct WasmPoolPriceResponse {
    pub token1_amount: Option<String>,
    pub token2_amount: Option<String>,
}

/// The envelope in which a node reports that a query failed.
#[derive(Debug, PartialEq, Eq)]
pub struct WasmErrorResponse {
    pub error: String,
}

impl Clone for JunoToken {
    fn clone(&self) -> (copy: JunoToken)
        ensures
            copy == *self,
    {
        JunoToken {
            name: clone_text_option(&self.name),
            symbol: clone_text_option(&self.symbol),
            total_supply: clone_text_option(&self.total_supply),
            address: clone_text_option(&self.address),
            decimals: self.decimals,
        }
    }
}

impl Clone for JunoDenom {
    fn clone(&self) -> (copy: JunoDenom)
        ensures
            copy == *self,
    {
        JunoDenom { native: clone_text_option(&self.native), cw20: clone_text_option(&self.cw20) }
    }
}

/// A copy of a token that may be absent.
fn clone_token_option(token: &Option<JunoToken>) -> (copy: Option<JunoToken>)
    ensures
        copy == *token,
{
    match token {
        Some(t) => Some(t.clone()),
        None => None,
    }
}

impl Clone for WasmPool {
    fn clone(&self) -> (copy: WasmPool)
        ensures
            copy == *self,
    {
        WasmPool {
            pool_address: clone_text_option(&self.pool_address),
            lp_token_address: self.lp_token_address.clone(),
            lp_token_supply: self.lp_token_supply.clone(),
            token1: clone_token_option(&self.token1),
            token1_denom: self.token1_denom.clone(),
            token1_reserve: self.token1_reserve.clone(),
            token2: clone_token_option(&self.token2),
            token2_denom: self.token2_denom.clone(),
            token2_reserve: self.token2_reserve.clone(),
        }
    }
}

/// The question that asks a pool contract for a price: what `amount` of the
/// token that enters the pool gives of the other. With `for2` the amount is
/// of the second token and the price is for the first; without it the
/// amount is of the first token and the price is for the second.
pub open spec fn price_message(amount: u128, for2: bool) -> Seq<char> {
    (if for2 {
        "{ \"token2_for_token1_price\" : { \"token2_amount\": \""@
    } else {
        "{ \"token1_for_token2_price\" : { \"token1_amount\": \""@
    }) + decimal_digits(amount as nat) + "\" } }"@
}

/// The address at which the node `api` answers `message` for the contract
/// at `contract_address`. The message is given in base64.
pub open spec fn contract_query_url(
    api: Seq<char>,
    contract_address: Seq<char>,
    message: Seq<char>,
) -> Seq<char> {
    api + "/wasm/contract/"@ + contract_address + "/smart/"@ + message
}

/// The address at which the node `api` lists the contracts of `code_id`.
pub open spec fn contracts_url(api: Seq<char>, code_id: u64) -> Seq<char> {
    api + "/wasm/code/"@ + decimal_digits(code_id as nat) + "/contracts"@
}

/// A price question is plain ASCII and short.
pub proof fn lemma_price_message_plain(amount: u128, for2: bool)
    ensures
        is_ascii_chars(price_message(amount, for2)),
        price_message(amount, for2).len() <= 94,
{
    reveal_strlit("{ \"token2_for_token1_price\" : { \"token2_amount\": \"");
    reveal_strlit("{ \"token1_for_token2_price\" : { \"token1_amount\": \"");
    reveal_strlit("\" } }");
    lemma_decimal_digits_u128(amount);
    let head = if for2 {
        "{ \"token2_for_token1_price\" : { \"token2_amount\": \""@
    } else {
        "{ \"token1_for_token2_price\" : { \"token1_amount\": \""@
    };
    let digits = decimal_digits(amount as nat);
    let tail = "\" } }"@;
    is_ascii_chars_concat(head + digits, head, digits);
    is_ascii_chars_concat(head + digits + tail, head + digits, tail);
}

/// The text of a price question.
pub fn price_question(amount: u128, for2: bool) -> (message: String)
    ensures
        message@ == price_message(amount, for2),
{
    let mut message = if for2 {
        String::from_str("{ \"token2_for_token1_price\" : { \"token2_amount\": \"")
    } else {
        String::from_str("{ \"token1_for_token2_price\" : { \"token1_amount\": \"")
    };
    message.append(format_u128(amount).as_str());
    message.append("\" } }");
    message
}

/// The address at which the node `api` answers `message`, given in base64,
/// for the contract at `contract_address`.
pub fn query_contract_url(api: &str, contract_address: &str, message: &str) -> (url: String)
    ensures
        url@ == contract_query_url(api@, contract_address@, message@),
{
    let mut url = String::from_str(api);
    url.append("/wasm/contract/");
    url.append(contract_address);
    url.append("/smart/");
    url.append(message);
    url
}

/// The address at which the node `api` lists the contracts of `code_id`.
pub fn get_contracts_url(api: &str, code_id: u64) -> (url: String)
    ensures
        url@ == contracts_url(api@, code_id),
{
    let mut url = String::from_str(api);
    url.append("/wasm/code/");
    url.append(format_u128(code_id as u128).as_str());
    url.append("/contracts");
    url
}

/// The question that asks a pool contract on the node `api` for a price.
pub fn get_price_for(api: &str, contract_address: &str, amount: u128, for2: bool) -> (query:
    PriceQuery)
    ensures
        query@ == (PriceQueryView::ContractPrice {
            endpoint: api@,
            contract: contract_address@,
            url: contract_query_url(
                api@,
                contract_address@,
                base64_standard(vstd::utf8::encode_utf8(price_message(amount, for2))),
            ),
        }),
{
    let message = price_question(amount, for2);
    proof {
        lemma_price_message_plain(amount, for2);
        is_ascii_chars_encode_utf8(message@);
    }
    let encoded = base64_encode(message.as_str());
    PriceQuery::ContractPrice {
        endpoint: String::from_str(api),
        contract: String::from_str(contract_address),
        url: query_contract_url(api, contract_address, encoded.as_str()),
    }
}

/// The symbol of a token, where the token and its symbol are known.
pub open spec fn symbol_of(token: Option<JunoToken>) -> Option<Seq<char>> {
    match token {
        Some(t) => match t.symbol {
            Some(symbol) => Some(symbol@),
            None => None,
        },
        None => None,
    }
}

/// The symbol of a token, where the token and its symbol are known.
fn token_symbol(token: &Option<JunoToken>) -> (symbol: Option<&String>)
    ensures
        symbol.deep_view() == symbol_of(*token),
{
    match token {
        Some(t) => match &t.symbol {
            Some(symbol) => Some(symbol),
            None => None,
        },
        None => None,
    }
}

/// Whether a symbol that may be absent is `denom`.
fn symbol_is(symbol: Option<&String>, denom: &str) -> (yes: bool)
    ensures
        yes == (symbol.deep_view() == Some(denom@)),
{
    match symbol {
        Some(s) => str_eq(s.as_str(), denom),
        None => false,
    }
}

impl WasmPool {
    /// The denoms under which the pool is found: the symbols of its two
    /// tokens, as far as they are known.
    pub open spec fn listed_denoms(&self) -> Seq<Seq<char>> {
        (match symbol_of(self.token1) {
            Some(symbol) => seq![symbol],
            None => Seq::empty(),
        }) + (match symbol_of(self.token2) {
            Some(symbol) => seq![symbol],
            None => Seq::empty(),
        })
    }

    /// Whether it is the second token that enters the pool: `Some(false)`
    /// for a swap of the first token for the second, `Some(true)` for a
    /// swap of the second for the first, `None` where the two denoms are
    /// not the pool's pair.
    pub open spec fn second_enters(&self, token_in: Seq<char>, token_out: Seq<char>) -> Option<
        bool,
    > {
        if symbol_of(self.token1) == Some(token_in) && symbol_of(self.token2) == Some(token_out) {
            Some(false)
        } else if symbol_of(self.token2) == Some(token_in) && symbol_of(self.token1) == Some(
            token_out,
        ) {
            Some(true)
        } else {
            None
        }
    }

    /// The denom to report where the two denoms are not the pool's pair:
    /// the one that enters, unless the pool knows it.
    pub open spec fn unmatched_denom(&self, token_in: Seq<char>, token_out: Seq<char>) -> Seq<
        char,
    > {
        if symbol_of(self.token1) == Some(token_in) || symbol_of(self.token2) == Some(token_in) {
            token_out
        } else {
            token_in
        }
    }

    /// The question to put to the pool contract. The checks are made in
    /// this order: the two denoms are the pool's pair; the pool has an
    /// address; a REST endpoint is configured.
    pub open spec fn spec_price_request(
        &self,
        amount: u128,
        token_in: Seq<char>,
        token_out: Seq<char>,
        config: PoolConfigView,
    ) -> Result<PriceQueryView, TracyErrorView> {
        match (self.second_enters(token_in, token_out), self.pool_address, config.rest_url) {
            (None, _, _) => Err(
                TracyErrorView::DenomNotFound { denom: self.unmatched_denom(token_in, token_out) },
            ),
            (_, None, _) => Err(TracyErrorView::AddressNotFound { address: Seq::empty() }),
            (_, _, None) => Err(TracyErrorView::ConfigMissing { chain: "juno"@ }),
            (Some(for2), Some(address), Some(api)) => Ok(
                PriceQueryView::ContractPrice {
                    endpoint: api,
                    contract: address@,
                    url: contract_query_url(
                        api,
                        address@,
                        base64_standard(vstd::utf8::encode_utf8(price_message(amount, for2))),
                    ),
                },
            ),
        }
    }

    /// Whether the pool is found under `denom`.
    pub fn lists_denom(&self, denom: &str) -> (yes: bool)
        ensures
            yes == self.listed_denoms().contains(denom@),
    {
        let first = symbol_is(token_symbol(&self.token1), denom);
        let second = symbol_is(token_symbol(&self.token2), denom);
        proof {
            let listed = self.listed_denoms();
            if first {
                assert(listed[0] == denom@);
            }
            if second {
                assert(listed[listed.len() - 1] == denom@);
            }
        }
        first || second
    }

    /// The question to put to the pool contract for a swap of `amount` of
    /// `token_in` for `token_out`: the amount is named as an amount of the
    /// token that enters, and the price is asked for the other.
    pub fn price_request(&self, amount: u128, token_in: &str, token_out: &str, config: &PoolConfig) -> (r:
        Result<PriceQuery, TracyError>)
        ensures
            query_result_view(r) == self.spec_price_request(amount, token_in@, token_out@, config@),
    {
        let symbol1 = token_symbol(&self.token1);
        let symbol2 = token_symbol(&self.token2);
        let in_is_first = symbol_is(symbol1, token_in);
        let in_is_second = symbol_is(symbol2, token_in);
        let for2 = if in_is_first && symbol_is(symbol2, token_out) {
            false
        } else if in_is_second && symbol_is(symbol1, token_out) {
            true
        } else {
            let unmatched = if in_is_first || in_is_second {
                token_out
            } else {
                token_in
            };
            return Err(TracyError::DenomNotFound { denom: String::from_str(unmatched) });
        };
        let address = match &self.pool_address {
            Some(address) => address,
            None => {
                return Err(TracyError::AddressNotFound { address: String::new() });
            },
        };
        match &config.rest_url {
            Some(api) => Ok(get_price_for(api.as_str(), address.as_str(), amount, for2)),
            None => Err(TracyError::ConfigMissing { chain: String::from_str("juno") }),
        }
    }
}

impl Pool for WasmPool {
    open spec fn spec_token_denoms(&self) -> Seq<Seq<char>> {
        self.listed_denoms()
    }

    open spec fn spec_chain(&self) -> Seq<char> {
        "juno"@
    }

    open spec fn spec_address(&self) -> Option<Seq<char>> {
        match self.pool_address {
            Some(address) => Some(address@),
            None => None,
        }
    }

    /// Such a pool never prices a swap itself: the pool contract is to be
    /// asked, whatever `estimate_quote` says.
    open spec fn spec_get_quote(
        &self,
        amount: u128,
        token_in: Seq<char>,
        token_out: Seq<char>,
        config: PoolConfigView,
    ) -> Result<QuoteStepView, TracyErrorView> {
        match self.spec_price_request(amount, token_in, token_out, config) {
            Ok(query) => Ok(QuoteStepView::Ask(query)),
            Err(error) => Err(error),
        }
    }

    fn get_quote(
        &self,
        amount: u128,
        token_in_denom: &str,
        token_out_denom: &str,
        config: &PoolConfig,
    ) -> (r: Result<QuoteStep, TracyError>) {
        match self.price_request(amount, token_in_denom, token_out_denom, config) {
            Ok(query) => Ok(QuoteStep::Ask(query)),
            Err(error) => Err(error),
        }
    }

    fn token_denoms(&self) -> (denoms: Vec<String>) {
        let mut denoms: Vec<String> = Vec::new();
        if let Some(symbol) = token_symbol(&self.token1) {
            let ghost before = denoms;
            denoms.push(symbol.clone());
            proof {
                lemma_texts_push(before, denoms, *symbol);
            }
        }
        if let Some(symbol) = token_symbol(&self.token2) {
            let ghost before = denoms;
            denoms.push(symbol.clone());
            proof {
                lemma_texts_push(before, denoms, *symbol);
            }
        }
        denoms
    }

    fn has_denom(&self, denom: &str) -> (yes: bool) {
        self.lists_denom(denom)
    }

    fn chain(&self) -> (tag: String) {
        String::from_str("juno")
    }

    fn address(&self) -> (r: Result<String, TracyError>) {
        match &self.pool_address {
            Some(address) => Ok(address.clone()),
            None => Err(TracyError::AddressNotFound { address: String::new() }),
        }
    }
}

} // verus!
