//! The parameter source: what each request of a run asks for.
//!
//! In literal mode every request goes to the configured URL. In templated
//! mode each request carries a query of four numbers, scaled from raw values
//! that the caller draws from a random source of its choice.

use vstd::prelude::*;
use crate::config::{copy_token, RunConfig, Target, TargetView};
use crate::entropy::keyed_hash;
use crate::plan::Batch;
use crate::text::{decimal, decimal_text, hundredths, hundredths_text};

verus! {

/// One request to perform.
#[derive(Debug)]
pub struct RequestTask {
    pub sequence_id: usize,
    pub resolved_url: String,
    pub auth_token: Option<String>,
}

/// A request to perform, as a mathematical value.
pub ghost struct RequestTaskView {
    pub sequence_id: nat,
    pub resolved_url: Seq<char>,
    pub auth_token: Option<Seq<char>>,
}

impl View for RequestTask {
    type V = RequestTaskView;

    open spec fn view(&self) -> RequestTaskView {
        RequestTaskView {
            sequence_id: self.sequence_id as nat,
            resolved_url: self.resolved_url@,
            auth_token: crate::config::token_text(self.auth_token),
        }
    }
}

/// Four raw values from a random source, one for each number of a
/// templated request. Any values will do, and values may repeat.
#[derive(Clone, Copy, Debug, PartialEq, Eq, Structural)]
pub struct Draws {
    pub initial: u64,
    pub contribution: u64,
    pub rate: u64,
    pub years: u64,
}

/// The numbers of one templated request.
#[derive(Clone, Copy, Debug, PartialEq, Eq, Structural)]
pub struct Parameters {
    /// The initial amount, from 500 to 100000.
    pub initial_amount: u64,
    /// The periodic contribution, from 50 to 5000.
    pub contribution: u64,
    /// The rate in hundredths, from 10 to 20000: 0.10 to 200.00.
    pub rate_hundredths: u64,
    /// The duration in years, from 1 to 50.
    pub years: u64,
}

/// The smallest initial amount.
pub const MIN_INITIAL_AMOUNT: u64 = 500;

/// The largest initial amount.
pub const MAX_INITIAL_AMOUNT: u64 = 100_000;

/// The smallest periodic contribution.
pub const MIN_CONTRIBUTION: u64 = 50;

/// The largest periodic contribution.
pub const MAX_CONTRIBUTION: u64 = 5_000;

/// The smallest rate, in hundredths: 0.10.
pub const MIN_RATE_HUNDREDTHS: u64 = 10;

/// The largest rate, in hundredths: 200.00.
pub const MAX_RATE_HUNDREDTHS: u64 = 20_000;

/// The shortest duration in years.
pub const MIN_YEARS: u64 = 1;

/// The longest duration in years.
pub const MAX_YEARS: u64 = 50;

/// The value from `low` to `high` that raw value `raw` is scaled to.
pub open spec fn scaled(raw: u64, low: u64, high: u64) -> int {
    low + (raw as int) % (high - low + 1)
}

/// The numbers that `draws` is scaled to.
pub open spec fn parameters_of(draws: Draws) -> Parameters {
    Parameters {
        initial_amount: scaled(draws.initial, MIN_INITIAL_AMOUNT, MAX_INITIAL_AMOUNT) as u64,
        contribution: scaled(draws.contribution, MIN_CONTRIBUTION, MAX_CONTRIBUTION) as u64,
        rate_hundredths: scaled(draws.rate, MIN_RATE_HUNDREDTHS, MAX_RATE_HUNDREDTHS) as u64,
        years: scaled(draws.years, MIN_YEARS, MAX_YEARS) as u64,
    }
}

impl Parameters {
    /// Whether each number lies in the range set for it.
    pub open spec fn in_range(self) -> bool {
        &&& MIN_INITIAL_AMOUNT <= self.initial_amount <= MAX_INITIAL_AMOUNT
        &&& MIN_CONTRIBUTION <= self.contribution <= MAX_CONTRIBUTION
        &&& MIN_RATE_HUNDREDTHS <= self.rate_hundredths <= MAX_RATE_HUNDREDTHS
        &&& MIN_YEARS <= self.years <= MAX_YEARS
    }

    /// The four numbers as the parameters of a query, in their fixed order.
    pub open spec fn query(self) -> Seq<(Seq<char>, Seq<char>)> {
        seq![
            ("initial"@, decimal_text(self.initial_amount as nat)),
            ("contribution"@, decimal_text(self.contribution as nat)),
            ("rate"@, hundredths_text(self.rate_hundredths as nat)),
            ("years"@, decimal_text(self.years as nat)),
        ]
    }
}

/// One parameter of a query.
#[derive(Debug)]
pub struct QueryParam {
    pub key: String,
    pub value: String,
}

impl View for QueryParam {
    type V = (Seq<char>, Seq<char>);

    open spec fn view(&self) -> (Seq<char>, Seq<char>) {
        (self.key@, self.value@)
    }
}

/// The views of a list of parameters.
pub open spec fn params_view(params: Seq<QueryParam>) -> Seq<(Seq<char>, Seq<char>)> {
    Seq::new(params.len(), |i: int| params[i]@)
}

/// One parameter as it stands in a query: key, `=`, value.
pub open spec fn pair_text(pair: (Seq<char>, Seq<char>)) -> Seq<char> {
    pair.0 + seq!['='] + pair.1
}

/// A query: its parameters in order, with `&` between them.
pub open spec fn query_text(params: Seq<(Seq<char>, Seq<char>)>) -> Seq<char>
    decreases params.len(),
{
    if params.len() == 0 {
        Seq::empty()
    } else if params.len() == 1 {
        pair_text(params[0])
    } else {
        query_text(params.drop_last()) + seq!['&'] + pair_text(params.last())
    }
}

/// A URL: the base, and after a `?` the query, where there is one.
pub open spec fn url_text(base: Seq<char>, params: Seq<(Seq<char>, Seq<char>)>) -> Seq<char> {
    if params.len() == 0 {
        base
    } else {
        base + seq!['?'] + query_text(params)
    }
}

/// The URL of a request: the configured one, or the base with the query of
/// the numbers that `draws` is scaled to.
pub open spec fn resolved_url(target: TargetView, draws: Draws) -> Seq<char> {
    match target {
        TargetView::Literal { url } => url,
        TargetView::Templated { base_url } => url_text(base_url, parameters_of(draws).query()),
    }
}

/// `raw` scaled into the range from `low` to `high`.
fn scale(raw: u64, low: u64, high: u64) -> (value: u64)
    requires
        low <= high,
        high - low < u64::MAX,
    ensures
        value == scaled(raw, low, high),
        low <= value <= high,
{
    let span = high - low + 1;
    low + raw % span
}

/// The numbers of a templated request, scaled from raw values.
pub fn synthesize(draws: Draws) -> (parameters: Parameters)
    ensures
        parameters == parameters_of(draws),
        parameters.in_range(),
{
    Parameters {
        initial_amount: scale(draws.initial, MIN_INITIAL_AMOUNT, MAX_INITIAL_AMOUNT),
        contribution: scale(draws.contribution, MIN_CONTRIBUTION, MAX_CONTRIBUTION),
        rate_hundredths: scale(draws.rate, MIN_RATE_HUNDREDTHS, MAX_RATE_HUNDREDTHS),
        years: scale(draws.years, MIN_YEARS, MAX_YEARS),
    }
}

/// The URL made of `base` and the query of `params`.
pub fn url_with_query(base: &str, params: &Vec<QueryParam>) -> (url: String)
    ensures
        url@ == url_text(base@, params_view(params@)),
{
    let mut url = String::from_str(base);
    let ghost all = params_view(params@);
    let mut i: usize = 0;
    while i < params.len()
        invariant
            i <= params.len(),
            all == params_view(params@),
            url@ == url_text(base@, all.take(i as int)),
        decreases params.len() - i,
    {
        proof {
            reveal_strlit("?");
            reveal_strlit("&");
            reveal_strlit("=");
        }
        if i == 0 {
            url.append("?");
        } else {
            url.append("&");
        }
        url.append(params[i].key.as_str());
        url.append("=");
        url.append(params[i].value.as_str());
        assert(all.take(i as int + 1).drop_last() =~= all.take(i as int));
        i = i + 1;
    }
    assert(all.take(i as int) =~= all);
    url
}

/// The URL of a templated request to `base`.
pub fn templated_url(base: &str, parameters: &Parameters) -> (url: String)
    ensures
        url@ == url_text(base@, parameters.query()),
{
    let mut params: Vec<QueryParam> = Vec::new();
    params.push(
        QueryParam { key: String::from_str("initial"), value: decimal(parameters.initial_amount as u128) },
    );
    params.push(
        QueryParam {
            key: String::from_str("contribution"),
            value: decimal(parameters.contribution as u128),
        },
    );
    params.push(
        QueryParam { key: String::from_str("rate"), value: hundredths(parameters.rate_hundredths as u128) },
    );
    params.push(QueryParam { key: String::from_str("years"), value: decimal(parameters.years as u128) });
    assert(params_view(params@) =~= parameters.query());
    url_with_query(base, &params)
}

/// Four raw values, drawn afresh at each call from a random source of
/// their own. Calls at the same time do not disturb each other.
pub fn fresh_draws() -> (draws: Draws) {
    let state = std::hash::RandomState::new();
    Draws {
        initial: keyed_hash(&state, 0),
        contribution: keyed_hash(&state, 1),
        rate: keyed_hash(&state, 2),
        years: keyed_hash(&state, 3),
    }
}

/// The task of the request with sequence id `sequence_id`. In literal mode
/// `draws` is not looked at.
pub fn make_task(config: &RunConfig, sequence_id: usize, draws: Draws) -> (task: RequestTask)
    ensures
        task@ == (RequestTaskView {
            sequence_id: sequence_id as nat,
            resolved_url: resolved_url(config@.target, draws),
            auth_token: config@.auth_token,
        }),
{
    let resolved_url = match config.target() {
        Target::Literal { url } => url.clone(),
        Target::Templated { base_url } => {
            let parameters = synthesize(draws);
            templated_url(base_url.as_str(), &parameters)
        },
    };
    RequestTask { sequence_id, resolved_url, auth_token: copy_token(config.auth_token()) }
}

/// The task of the request with sequence id `sequence_id`, with freshly
/// drawn numbers where the target is a template.
pub fn next_task(config: &RunConfig, sequence_id: usize) -> (task: RequestTask)
    ensures
        task@.sequence_id == sequence_id,
        task@.auth_token == config@.auth_token,
        exists|draws: Draws| task@.resolved_url == resolved_url(config@.target, draws),
{
    let draws = fresh_draws();
    let task = make_task(config, sequence_id, draws);
    task
}

/// The tasks of a batch, one for each of its requests, in the order of
/// their sequence ids.
pub fn batch_tasks(config: &RunConfig, batch: &Batch) -> (tasks: Vec<RequestTask>)
    requires
        batch.start_id + batch.count <= usize::MAX,
    ensures
        tasks@.len() == batch.count,
        forall|i: int|
            0 <= i < tasks@.len() ==> (#[trigger] tasks@[i])@.sequence_id == batch.start_id + i
                && tasks@[i]@.auth_token == config@.auth_token && (exists|draws: Draws|
                tasks@[i]@.resolved_url == resolved_url(config@.target, draws)),
{
    let mut tasks: Vec<RequestTask> = Vec::new();
    let mut i: usize = 0;
    while i < batch.count
        invariant
            i <= batch.count,
            batch.start_id + batch.count <= usize::MAX,
            tasks@.len() == i,
            forall|k: int|
                0 <= k < tasks@.len() ==> (#[trigger] tasks@[k])@.sequence_id == batch.start_id
                    + k && tasks@[k]@.auth_token == config@.auth_token && (exists|draws: Draws|
                    tasks@[k]@.resolved_url == resolved_url(config@.target, draws)),
        decreases batch.count - i,
    {
        tasks.push(next_task(config, batch.start_id + i));
        i = i + 1;
    }
    tasks
}

} // verus!
