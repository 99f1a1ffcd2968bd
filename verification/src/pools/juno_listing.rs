//! What the job that lists the pools of the Juno chain decides between its
//! calls to the chain: where a token's details come from, which pools are
//! listed, and which tokens are new.

use vstd::prelude::*;
use vstd::string::StringExecFns;
use vstd::utf8::is_ascii_chars_encode_utf8;
use crate::pools::juno_pool::contracts_url;
use crate::pools::juno_pool::get_contracts_url;
use crate::pools::juno_pool::JunoDenom;
use crate::pools::juno_pool::JunoToken;
use crate::pools::juno_pool::WasmCodeContracts;
use crate::pools::juno_pool::WasmPool;
use crate::text::second_segment;
use crate::text::segment_after_slash;
use crate::text::starts_with;
use crate::text::str_eq;
use crate::util::encoding::base64_encode;
use crate::util::encoding::base64_standard;
use crate::util::denom_trace::DenomTrace;

verus! {

/// Where what is known of a token comes from.
#[derive(Debug, PartialEq, Eq)]
pub enum TokenSource {
    /// The token contract at `address` has to be asked.
    Contract { address: String },
    /// The token is known as it stands.
    Known(JunoToken),
    /// The trace of the hash `hash` has to be looked up; `origin` is the
    /// hashed denom as the pool names it.
    Trace { origin: String, hash: String },
    /// Nothing tells what the token is.
    Unknown,
}

/// A `TokenSource` with its texts as character sequences.
pub enum TokenSourceView {
    Contract { address: Seq<char> },
    Known(JunoTokenView),
    Trace { origin: Seq<char>, hash: Seq<char> },
    Unknown,
}

impl View for TokenSource {
    type V = TokenSourceView;

    open spec fn view(&self) -> TokenSourceView {
        match *self {
            TokenSource::Contract { address } => TokenSourceView::Contract { address: address@ },
            TokenSource::Known(token) => TokenSourceView::Known(token@),
            TokenSource::Trace { origin, hash } => TokenSourceView::Trace {
                origin: origin@,
                hash: hash@,
            },
            TokenSource::Unknown => TokenSourceView::Unknown,
        }
    }
}

/// The token of the chain itself.
pub open spec fn native_juno() -> JunoTokenView {
    JunoTokenView {
        name: Some("ujuno"@),
        symbol: Some("ujuno"@),
        total_supply: None,
        address: None,
        decimals: Some(6u64),
    }
}

/// The token that a trace stands for: its symbol is the base denom of the
/// trace and its address the hashed denom.
pub open spec fn traced_token(origin: Seq<char>, base_denom: Seq<char>) -> JunoTokenView {
    JunoTokenView {
        name: None,
        symbol: Some(base_denom),
        total_supply: None,
        address: Some(origin),
        decimals: Some(6u64),
    }
}

/// Where what is known of the token `denom` comes from. A token contract
/// is asked; the chain's own denom is known; a cross-chain denom is traced
/// by the hash that follows its first slash, and is unknown where it has no
/// slash; a native denom that is the address of a contract is asked like a
/// contract.
pub open spec fn source_of(denom: JunoDenom) -> TokenSourceView {
    match (denom.cw20, denom.native) {
        (Some(address), _) => TokenSourceView::Contract { address: address@ },
        (None, Some(native)) => if native@ == "ujuno"@ {
            TokenSourceView::Known(native_juno())
        } else if "ibc"@.is_prefix_of(native@) {
            match second_segment(native@) {
                Some(hash) => TokenSourceView::Trace { origin: native@, hash },
                None => TokenSourceView::Unknown,
            }
        } else if "juno"@.is_prefix_of(native@) {
            TokenSourceView::Contract { address: native@ }
        } else {
            TokenSourceView::Unknown
        },
        (None, None) => TokenSourceView::Unknown,
    }
}

/// Decides where what is known of the token `denom` comes from.
pub fn token_source(denom: &JunoDenom) -> (source: TokenSource)
    ensures
        source@ == source_of(*denom),
{
    if let Some(address) = &denom.cw20 {
        return TokenSource::Contract { address: address.clone() };
    }
    let native = match &denom.native {
        Some(native) => native,
        None => {
            return TokenSource::Unknown;
        },
    };
    if str_eq(native.as_str(), "ujuno") {
        TokenSource::Known(
            JunoToken {
                name: Some(String::from_str("ujuno")),
                symbol: Some(String::from_str("ujuno")),
                total_supply: None,
                address: None,
                decimals: Some(6),
            },
        )
    } else if starts_with(native.as_str(), "ibc") {
        match segment_after_slash(native.as_str()) {
            Some(hash) => TokenSource::Trace {
                origin: native.clone(),
                hash: String::from_str(hash),
            },
            None => TokenSource::Unknown,
        }
    } else if starts_with(native.as_str(), "juno") {
        TokenSource::Contract { address: native.clone() }
    } else {
        TokenSource::Unknown
    }
}

/// The token that a trace stands for.
pub fn token_from_trace(origin: String, trace: DenomTrace) -> (token: JunoToken)
    ensures
        token@ == traced_token(origin@, trace.base_denom@),
{
    JunoToken {
        name: None,
        symbol: Some(trace.base_denom),
        total_supply: None,
        address: Some(origin),
        decimals: Some(6),
    }
}

/// What a token contract answered, with the address of the contract put in.
pub fn token_at(token: JunoToken, contract_address: &str) -> (placed: JunoToken)
    ensures
        placed.name == token.name,
        placed.symbol == token.symbol,
        placed.total_supply == token.total_supply,
        placed.decimals == token.decimals,
        placed.address.deep_view() == Some(contract_address@),
{
    JunoToken {
        name: token.name,
        symbol: token.symbol,
        total_supply: token.total_supply,
        address: Some(String::from_str(contract_address)),
        decimals: token.decimals,
    }
}

/// The question that asks a token contract what it is.
pub open spec fn token_info_message() -> Seq<char> {
    "{ \"token_info\" : {} }"@
}

/// The question that asks a pool contract what it holds.
pub open spec fn pool_info_message() -> Seq<char> {
    "{ \"info\" : {} }"@
}

/// The question that asks a token contract what it is, in base64.
pub fn token_info_question() -> (encoded: String)
    ensures
        encoded@ == base64_standard(vstd::utf8::encode_utf8(token_info_message())),
{
    proof {
        reveal_strlit("{ \"token_info\" : {} }");
        is_ascii_chars_encode_utf8(token_info_message());
    }
    base64_encode("{ \"token_info\" : {} }")
}

/// The question that asks a pool contract what it holds, in base64.
pub fn pool_info_question() -> (encoded: String)
    ensures
        encoded@ == base64_standard(vstd::utf8::encode_utf8(pool_info_message())),
{
    proof {
        reveal_strlit("{ \"info\" : {} }");
        is_ascii_chars_encode_utf8(pool_info_message());
    }
    base64_encode("{ \"info\" : {} }")
}

/// The code that the pool contracts of the chain run.
pub const POOL_CODE_ID: u64 = 16;

/// The address at which the node `api` lists the pool contracts.
pub fn pool_contracts_url(api: &str) -> (url: String)
    ensures
        url@ == contracts_url(api@, POOL_CODE_ID),
{
    get_contracts_url(api, POOL_CODE_ID)
}

/// The contracts of a listing.
pub fn contracts_of(listing: WasmCodeContracts) -> (contracts: Vec<String>)
    ensures
        contracts == listing.result,
{
    listing.result
}

impl WasmPool {
    /// Whether one of the two reserves is empty. Such a pool is most
    /// likely not in use and is left out of a snapshot.
    pub open spec fn spec_is_empty(&self) -> bool {
        self.token1_reserve@ == "0"@ || self.token2_reserve@ == "0"@
    }

    /// Whether one of the two reserves is empty.
    pub fn is_empty(&self) -> (empty: bool)
        ensures
            empty == self.spec_is_empty(),
    {
        str_eq(self.token1_reserve.as_str(), "0") || str_eq(self.token2_reserve.as_str(), "0")
    }

    /// The pool as a snapshot lists it: what the contract at `contract`
    /// answered, with the address of the contract and what is known of its
    /// two tokens put in.
    pub fn listed(self, contract: String, token1: JunoToken, token2: JunoToken) -> (pool: WasmPool)
        ensures
            pool == (WasmPool {
                pool_address: Some(contract),
                token1: Some(token1),
                token2: Some(token2),
                ..self
            }),
    {
        WasmPool {
            pool_address: Some(contract),
            lp_token_address: self.lp_token_address,
            lp_token_supply: self.lp_token_supply,
            token1: Some(token1),
            token1_denom: self.token1_denom,
            token1_reserve: self.token1_reserve,
            token2: Some(token2),
            token2_denom: self.token2_denom,
            token2_reserve: self.token2_reserve,
        }
    }
}

/// What is known of a token, with its texts as character sequences.
pub struct JunoTokenView {
    pub name: Option<Seq<char>>,
    pub symbol: Option<Seq<char>>,
    pub total_supply: Option<Seq<char>>,
    pub address: Option<Seq<char>>,
    pub decimals: Option<u64>,
}

impl View for JunoToken {
    type V = JunoTokenView;

    open spec fn view(&self) -> JunoTokenView {
        JunoTokenView {
            name: self.name.deep_view(),
            symbol: self.symbol.deep_view(),
            total_supply: self.total_supply.deep_view(),
            address: self.address.deep_view(),
            decimals: self.decimals,
        }
    }
}

/// Whether two texts that may be absent are the same.
fn same_text_option(a: &Option<String>, b: &Option<String>) -> (same: bool)
    ensures
        same == (a.deep_view() == b.deep_view()),
{
    match (a, b) {
        (Some(x), Some(y)) => str_eq(x.as_str(), y.as_str()),
        (None, None) => true,
        _ => false,
    }
}

impl JunoToken {
    /// Whether two tokens are the same in every field.
    pub fn same_as(&self, other: &JunoToken) -> (same: bool)
        ensures
            same == (self@ == other@),
    {
        let same_decimals = match (self.decimals, other.decimals) {
            (Some(a), Some(b)) => a == b,
            (None, None) => true,
            _ => false,
        };
        same_decimals && same_text_option(&self.name, &other.name) && same_text_option(
            &self.symbol,
            &other.symbol,
        ) && same_text_option(&self.total_supply, &other.total_supply) && same_text_option(
            &self.address,
            &other.address,
        )
    }
}

/// Whether a token is among `assets`.
pub open spec fn holds_token(assets: Seq<JunoToken>, token: JunoToken) -> bool {
    exists|i: int| 0 <= i < assets.len() && (#[trigger] assets[i])@ == token@
}

/// Adds a token to the list of known assets unless it is among them.
pub fn add_asset(assets: &mut Vec<JunoToken>, token: JunoToken)
    ensures
        final(assets)@ == if holds_token(old(assets)@, token) {
            old(assets)@
        } else {
            old(assets)@.push(token)
        },
{
    let mut i: usize = 0;
    while i < assets.len()
        invariant
            i <= assets.len(),
            assets@ == old(assets)@,
            forall|j: int| 0 <= j < i ==> (#[trigger] assets@[j])@ != token@,
        decreases assets.len() - i,
    {
        if assets[i].same_as(&token) {
            return ;
        }
        i += 1;
    }
    assets.push(token);
}

} // verus!
