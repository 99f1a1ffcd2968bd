//! Quoting a pair across all pools that hold it. Each pool is consulted on
//! its own and answers in its own slot: what fails for one pool is written
//! into that pool's slot and touches no other.

use vstd::prelude::*;
use vstd::string::StringExecFns;
use crate::config::ChainConfigs;
use crate::dex::AnyPool;
use crate::dex::DexAgg;
use crate::error::TracyError;
use crate::error::TracyErrorView;
use crate::query::quote_from_reply;
use crate::query::quote_of_reply;
use crate::query::reply_view;
use crate::query::step_result_view;
use crate::query::QuoteStep;
use crate::query::QuoteStepView;
use crate::Pool;
use crate::PoolConfig;
use crate::PoolConfigView;
use crate::Quote;
use crate::QuoteView;

verus! {

impl AnyPool {
    /// Whether the pool is asked for a quote of the pair: it is found under
    /// both denoms and, where a chain is named, lives on that chain.
    pub open spec fn is_candidate(
        &self,
        denom_in: Seq<char>,
        denom_out: Seq<char>,
        chain: Option<Seq<char>>,
    ) -> bool {
        &&& self.lists(denom_in)
        &&& self.lists(denom_out)
        &&& chain matches Some(tag) ==> self.lives_on(tag)
    }

    /// Whether the pool is asked for a quote of the pair.
    pub fn asked(&self, denom_in: &str, denom_out: &str, chain: Option<&str>) -> (yes: bool)
        ensures
            yes == self.is_candidate(denom_in@, denom_out@, chain.deep_view()),
    {
        if !self.has_denom(denom_in) || !self.has_denom(denom_out) {
            return false;
        }
        match chain {
            Some(tag) => self.on_chain(tag),
            None => true,
        }
    }
}

/// The pools that are asked for a quote of the pair, in their order.
pub open spec fn candidates(
    pools: Seq<AnyPool>,
    denom_in: Seq<char>,
    denom_out: Seq<char>,
    chain: Option<Seq<char>>,
) -> Seq<AnyPool> {
    pools.filter(|pool: AnyPool| pool.is_candidate(denom_in, denom_out, chain))
}

/// Where the quote of one pool stands once the pool has been consulted. The
/// pool is consulted with `supplied` or, where nothing is supplied, with
/// the configuration registered for its chain; where there is none either,
/// the quote has failed.
pub open spec fn first_step(
    pool: AnyPool,
    configs: Map<Seq<char>, PoolConfigView>,
    supplied: Option<PoolConfigView>,
    amount: u128,
    denom_in: Seq<char>,
    denom_out: Seq<char>,
) -> Result<QuoteStepView, TracyErrorView> {
    match supplied {
        Some(config) => pool.spec_get_quote(amount, denom_in, denom_out, config),
        None => if configs.contains_key(pool.spec_chain()) {
            pool.spec_get_quote(amount, denom_in, denom_out, configs[pool.spec_chain()])
        } else {
            Err(TracyErrorView::ConfigMissing { chain: pool.spec_chain() })
        },
    }
}

/// The slot of a failed quote: the message between braces and nothing else.
pub open spec fn failed_slot(error: TracyErrorView) -> QuoteView {
    QuoteView::failed("{"@ + error.message() + "}"@)
}

/// What stands in a pool's slot at the end. A quote that the pool gave
/// stands as it is and a failure stands as a failed slot. Where the chain
/// had to be asked, the slot is what its answer amounts to; an answer that
/// never came is a failure of the query.
pub open spec fn slot(
    step: Result<QuoteStepView, TracyErrorView>,
    amount: u128,
    reply: Option<Result<Seq<char>, TracyErrorView>>,
) -> QuoteView {
    match step {
        Err(error) => failed_slot(error),
        Ok(QuoteStepView::Done(quote)) => quote,
        Ok(QuoteStepView::Ask(query)) => match reply {
            None => failed_slot(
                TracyErrorView::ExternalQueryFailure {
                    endpoint: query.endpoint(),
                    cause: "No answer."@,
                },
            ),
            Some(answer) => match quote_of_reply(
                amount,
                query.pool_address(),
                query.endpoint(),
                answer,
            ) {
                Ok(quote) => quote,
                Err(error) => failed_slot(error),
            },
        },
    }
}

/// The view of an answer that may be missing.
pub open spec fn answer_view(reply: Option<Result<String, TracyError>>) -> Option<
    Result<Seq<char>, TracyErrorView>,
> {
    match reply {
        Some(answer) => Some(reply_view(answer)),
        None => None,
    }
}

/// The answer for slot `i`: none where the list of answers ends before.
pub open spec fn answer_at(replies: Seq<Option<Result<String, TracyError>>>, i: int) -> Option<
    Result<Seq<char>, TracyErrorView>,
> {
    if 0 <= i < replies.len() {
        answer_view(replies[i])
    } else {
        None
    }
}

/// The view of a configuration that the caller may have supplied.
pub open spec fn supplied_view(supplied: Option<&PoolConfig>) -> Option<PoolConfigView> {
    match supplied {
        Some(config) => Some(config@),
        None => None,
    }
}

/// Consults one pool for a quote.
pub fn start_quote(
    pool: &AnyPool,
    configs: &ChainConfigs,
    supplied: Option<&PoolConfig>,
    amount: u128,
    denom_in: &str,
    denom_out: &str,
) -> (step: Result<QuoteStep, TracyError>)
    ensures
        step_result_view(step) == first_step(
            *pool,
            configs@,
            supplied_view(supplied),
            amount,
            denom_in@,
            denom_out@,
        ),
{
    match supplied {
        Some(config) => pool.get_quote(amount, denom_in, denom_out, config),
        None => {
            let chain = pool.chain();
            match configs.get(chain.as_str()) {
                Some(config) => pool.get_quote(amount, denom_in, denom_out, config),
                None => Err(TracyError::ConfigMissing { chain }),
            }
        },
    }
}

/// Fills one slot.
pub fn finish_quote(
    step: Result<QuoteStep, TracyError>,
    amount: u128,
    reply: Option<Result<String, TracyError>>,
) -> (quote: Quote)
    ensures
        quote@ == slot(step_result_view(step), amount, answer_view(reply)),
{
    match step {
        Err(error) => Quote::failed(&error),
        Ok(QuoteStep::Done(quote)) => quote,
        Ok(QuoteStep::Ask(query)) => match reply {
            None => Quote::failed(&query.failure(String::from_str("No answer."))),
            Some(answer) => Quote::from_result(
                quote_from_reply(amount, query.pool_address(), query.endpoint(), answer),
            ),
        },
    }
}

/// Where the quote of each candidate stands once its pool has been
/// consulted: one entry for each candidate, in their order.
pub open spec fn first_steps(
    pools: Seq<AnyPool>,
    configs: Map<Seq<char>, PoolConfigView>,
    supplied: Option<PoolConfigView>,
    amount: u128,
    denom_in: Seq<char>,
    denom_out: Seq<char>,
    chain: Option<Seq<char>>,
) -> Seq<Result<QuoteStepView, TracyErrorView>> {
    candidates(pools, denom_in, denom_out, chain).map_values(
        |pool: AnyPool| first_step(pool, configs, supplied, amount, denom_in, denom_out),
    )
}

/// The views of a list of steps.
pub open spec fn step_views(steps: Seq<Result<QuoteStep, TracyError>>) -> Seq<
    Result<QuoteStepView, TracyErrorView>,
> {
    steps.map_values(|step: Result<QuoteStep, TracyError>| step_result_view(step))
}

/// The views of a list of quotes.
pub open spec fn quote_views(quotes: Seq<Quote>) -> Seq<QuoteView> {
    quotes.map_values(|quote: Quote| quote@)
}

/// The batch: one slot for each step, each filled from its own step and
/// its own answer.
pub open spec fn batch(
    steps: Seq<Result<QuoteStepView, TracyErrorView>>,
    amount: u128,
    replies: Seq<Option<Result<String, TracyError>>>,
) -> Seq<QuoteView> {
    Seq::new(steps.len(), |i: int| slot(steps[i], amount, answer_at(replies, i)))
}

/// Whether a slot ends as a failure: the pool failed, or the chain had to
/// be asked and gave no answer that amounts to a quote.
pub open spec fn slot_fails(
    step: Result<QuoteStepView, TracyErrorView>,
    amount: u128,
    reply: Option<Result<Seq<char>, TracyErrorView>>,
) -> bool {
    match step {
        Err(_) => true,
        Ok(QuoteStepView::Done(_)) => false,
        Ok(QuoteStepView::Ask(query)) => match reply {
            None => true,
            Some(answer) => quote_of_reply(
                amount,
                query.pool_address(),
                query.endpoint(),
                answer,
            ) is Err,
        },
    }
}

/// A batch has one slot for each step. A slot that fails holds an error and
/// neither amounts nor address; and whatever happens to the answer of one
/// pool, the slots of all other pools are what they would have been.
pub proof fn lemma_failure_stays_in_its_slot(
    steps: Seq<Result<QuoteStepView, TracyErrorView>>,
    amount: u128,
    replies: Seq<Option<Result<String, TracyError>>>,
    other_replies: Seq<Option<Result<String, TracyError>>>,
    failing: int,
)
    requires
        0 <= failing < steps.len(),
        forall|j: int|
            0 <= j < steps.len() && j != failing ==> answer_at(replies, j) == answer_at(
                other_replies,
                j,
            ),
    ensures
        batch(steps, amount, replies).len() == steps.len(),
        slot_fails(steps[failing], amount, answer_at(replies, failing)) ==> {
            let failed = batch(steps, amount, replies)[failing];
            &&& failed.error is Some
            &&& failed.token_in is None
            &&& failed.token_out is None
            &&& failed.pool_address is None
        },
        forall|j: int|
            0 <= j < steps.len() && j != failing ==> batch(steps, amount, replies)[j] == batch(
                steps,
                amount,
                other_replies,
            )[j],
{
}

/// A slot that does not fail holds a quote with both amounts, the address
/// of its pool and no error, unless the pool itself gave another.
pub proof fn lemma_answered_slot(
    step: Result<QuoteStepView, TracyErrorView>,
    amount: u128,
    reply: Option<Result<Seq<char>, TracyErrorView>>,
)
    requires
        step matches Ok(QuoteStepView::Ask(_)),
        !slot_fails(step, amount, reply),
    ensures
        slot(step, amount, reply).token_in == Some(amount),
        slot(step, amount, reply).token_out is Some,
        slot(step, amount, reply).pool_address is Some,
        slot(step, amount, reply).error is None,
{
}

/// A copy of an answer that may be missing.
fn clone_answer(reply: &Option<Result<String, TracyError>>) -> (copy: Option<
    Result<String, TracyError>,
>)
    ensures
        copy == *reply,
{
    match reply {
        Some(Ok(text)) => Some(Ok(text.clone())),
        Some(Err(error)) => Some(Err(error.clone())),
        None => None,
    }
}

/// Consults every candidate pool for a quote of `amount` of `denom_in` in
/// `denom_out`. The candidates are the pools that are found under both
/// denoms and, where `chain` names one, live on that chain. The result has
/// one entry for each candidate, in the order of the pools: a quote, a
/// question for the chain, or the failure of that pool.
pub fn start_quotes(
    agg: &DexAgg,
    denom_in: &str,
    denom_out: &str,
    amount: u128,
    chain: Option<&str>,
    supplied: Option<&PoolConfig>,
) -> (steps: Vec<Result<QuoteStep, TracyError>>)
    ensures
        step_views(steps@) == first_steps(
            agg.spec_pools(),
            agg.spec_config(),
            supplied_view(supplied),
            amount,
            denom_in@,
            denom_out@,
            chain.deep_view(),
        ),
        steps@.len() == candidates(agg.spec_pools(), denom_in@, denom_out@, chain.deep_view()).len(),
{
    let pools = agg.pools();
    let configs = agg.config();
    let ghost wanted = |pool: AnyPool| pool.is_candidate(denom_in@, denom_out@, chain.deep_view());
    let ghost consult = |pool: AnyPool|
        first_step(pool, configs@, supplied_view(supplied), amount, denom_in@, denom_out@);
    let mut steps: Vec<Result<QuoteStep, TracyError>> = Vec::new();
    let mut i: usize = 0;
    proof {
        reveal(Seq::filter);
    }
    while i < pools.len()
        invariant
            i <= pools.len(),
            wanted == |pool: AnyPool| pool.is_candidate(denom_in@, denom_out@, chain.deep_view()),
            consult == |pool: AnyPool|
                first_step(pool, configs@, supplied_view(supplied), amount, denom_in@, denom_out@),
            step_views(steps@) == pools@.take(i as int).filter(wanted).map_values(consult),
        decreases pools.len() - i,
    {
        proof {
            assert(pools@.take(i + 1) =~= pools@.take(i as int).push(pools@[i as int]));
            pools@.take(i as int).lemma_filter_push(pools@[i as int], wanted);
        }
        if pools[i].asked(denom_in, denom_out, chain) {
            let ghost before = steps@;
            let step = start_quote(&pools[i], configs, supplied, amount, denom_in, denom_out);
            steps.push(step);
            proof {
                assert(step_views(before.push(step)) =~= step_views(before).push(
                    step_result_view(step),
                ));
            }
        }
        i += 1;
    }
    proof {
        assert(pools@.take(pools.len() as int) =~= pools@);
    }
    steps
}

/// Fills the batch: one quote for each step, in their order. The answer to
/// the question of step `i` is `replies[i]`; steps that asked nothing
/// take no answer, and a question without answer is a failed query.
pub fn finish_quotes(
    steps: Vec<Result<QuoteStep, TracyError>>,
    amount: u128,
    replies: &Vec<Option<Result<String, TracyError>>>,
) -> (quotes: Vec<Quote>)
    ensures
        quote_views(quotes@) == batch(step_views(steps@), amount, replies@),
        quotes@.len() == steps@.len(),
{
    let mut quotes: Vec<Quote> = Vec::new();
    let mut i: usize = 0;
    assert(steps@.len() == steps.len());
    for step in iter: steps
        invariant
            iter.seq() == steps@,
            steps@.len() <= usize::MAX,
            i == iter.index(),
            quotes@.len() == i,
            forall|k: int|
                0 <= k < i ==> (#[trigger] quotes@[k])@ == slot(
                    step_result_view(steps@[k]),
                    amount,
                    answer_at(replies@, k),
                ),
    {
        let reply = if i < replies.len() {
            clone_answer(&replies[i])
        } else {
            None
        };
        quotes.push(finish_quote(step, amount, reply));
        i += 1;
    }
    quotes
}

/// Quotes `amount` of `denom_in` in `denom_out` on every candidate pool,
/// given the answers that the chains gave to the questions of
/// `start_quotes`. The batch has exactly one quote for each candidate, in
/// the order of the pools. A pool that fails has its error in its own slot
/// and nothing else there; the slots of the other pools do not depend on
/// it.
pub fn get_quotes(
    agg: &DexAgg,
    denom_in: &str,
    denom_out: &str,
    amount: u128,
    chain: Option<&str>,
    supplied: Option<&PoolConfig>,
    replies: &Vec<Option<Result<String, TracyError>>>,
) -> (quotes: Vec<Quote>)
    ensures
        quotes@.len() == candidates(
            agg.spec_pools(),
            denom_in@,
            denom_out@,
            chain.deep_view(),
        ).len(),
        quote_views(quotes@) == batch(
            first_steps(
                agg.spec_pools(),
                agg.spec_config(),
                supplied_view(supplied),
                amount,
                denom_in@,
                denom_out@,
                chain.deep_view(),
            ),
            amount,
            replies@,
        ),
{
    let steps = start_quotes(agg, denom_in, denom_out, amount, chain, supplied);
    finish_quotes(steps, amount, replies)
}

} // verus!
