//! Chart request handler: request validation, cache consultation, collection
//! of the concurrent name lookups' results, and response assembly.
//!
//! The handler is the decision half of the RPC method. The surrounding binary
//! drives it: it calls [`ChartService::start`], performs the store fetch or
//! the wait that `start` answers with, fans the name lookups out, and hands
//! every remote outcome back to [`finish`]. Each function here is total over
//! whatever those remote calls returned.

use vstd::prelude::*;

use crate::cache::{
    chart_result_view, kind_of, lookup_kind, slot_after_begin, ChartCache, Lookup, SlotView,
    StoreError, TTL_SECONDS,
};
use crate::domain::{Category, Chart, Timeframe};
use crate::wire::{pb_chart_data_of, GetChartResponse, PbChartData};

verus! {

/// Failure of one name-enrichment lookup. The lookup is remote and is not
/// retried; any one failure fails the whole request.
#[derive(Clone, Copy, Debug, PartialEq, Eq, Structural)]
pub enum LookupError {
    NotFound,
    Timeout,
    Network,
}

/// The three request outcomes the `GetChart` method can fail with. The
/// internal variant keeps its cause for server-side diagnostics; the message
/// shown to the caller never carries it.
#[derive(Debug)]
pub enum RequestError {
    /// The request named a category ordinal outside the closed set.
    InvalidCategory,
    /// The chart computed successfully but holds no entries.
    NotFound,
    /// A store fetch or an enrichment lookup failed.
    Internal { detail: String },
}

impl RequestError {
    /// The message a caller of the service is shown. An internal error is
    /// collapsed to an opaque message: its detail stays server-side.
    pub fn message(&self) -> (r: &'static str)
        ensures
            *self is InvalidCategory ==> r@ == "invalid category value"@,
            *self is NotFound ==> r@ == "Cannot find data for given timeframe."@,
            *self matches RequestError::Internal { .. } ==> r@ == "Internal server error"@,
    {
        match self {
            RequestError::InvalidCategory => "invalid category value",
            RequestError::NotFound => "Cannot find data for given timeframe.",
            RequestError::Internal { .. } => "Internal server error",
        }
    }
}

/// A validated request: the decoded timeframe and the decoded category, where
/// `None` means all categories.
#[derive(Clone, Copy, Debug, PartialEq, Eq, Structural)]
pub struct ChartQuery {
    pub timeframe: Timeframe,
    pub category: Option<Category>,
}

impl ChartQuery {
    /// Code of the category half of the key: 0 for "all categories", the
    /// category ordinal plus one otherwise, so that the two states are
    /// distinct keys.
    pub open spec fn spec_cat_code(self) -> u64 {
        match self.category {
            None => 0,
            Some(c) => (c.spec_repr() + 1) as u64,
        }
    }

    /// Cache key of this query.
    pub open spec fn spec_key(self) -> u64 {
        (self.spec_cat_code() * 64 + self.timeframe.spec_repr()) as u64
    }

    pub fn key(self) -> (k: u64)
        ensures
            k == self.spec_key(),
    {
        let cat_code: u64 = match self.category {
            None => 0,
            Some(c) => c.repr() as u64 + 1,
        };
        let tf: u64 = self.timeframe.repr() as u64;
        cat_code * 64 + tf
    }
}

/// Distinct queries have distinct cache keys, so requests for different
/// (category, timeframe) pairs proceed independently.
pub proof fn lemma_key_injective(q1: ChartQuery, q2: ChartQuery)
    requires
        q1.spec_key() == q2.spec_key(),
    ensures
        q1 == q2,
{
    assert(q1.timeframe.spec_repr() == q2.timeframe.spec_repr() && q1.spec_cat_code()
        == q2.spec_cat_code());
}

/// The category a request's optional ordinal decodes to: `Some(category)` on
/// a well-formed request (`None` meaning all categories), or `None` where the
/// ordinal is outside the closed set and the request must be rejected.
pub open spec fn spec_validated_category(category_raw: Option<i32>) -> Option<Option<Category>> {
    match category_raw {
        None => Some(None),
        Some(c) => match Category::spec_from_repr(c) {
            Some(cat) => Some(Some(cat)),
            None => None,
        },
    }
}

/// Validate a raw request. The category is strict: an unrecognized ordinal is
/// a client error, rejected before any other work. The timeframe is lenient:
/// an unrecognized ordinal falls back to `Unspecified` and proceeds normally.
/// The asymmetry is deliberate — timeframe has a defined default, category
/// does not.
pub fn validate_request(timeframe_raw: i32, category_raw: Option<i32>) -> (r: Result<
    ChartQuery,
    RequestError,
>)
    ensures
        match spec_validated_category(category_raw) {
            Some(category) => r matches Ok(q) && q == (ChartQuery {
                timeframe: Timeframe::spec_decode(timeframe_raw),
                category,
            }),
            None => r matches Err(e) && e is InvalidCategory,
        },
{
    let category: Option<Category> = match category_raw {
        Some(c) => match Category::from_repr(c) {
            Some(cat) => Some(cat),
            None => {
                return Err(RequestError::InvalidCategory);
            },
        },
        None => None,
    };
    Ok(ChartQuery { timeframe: Timeframe::decode(timeframe_raw), category })
}

/// What [`ChartService::start`] tells the caller to do next.
pub enum StartOutcome {
    /// The request is malformed; answer with this error and stop.
    Rejected(RequestError),
    /// The request is valid; act on the cache's answer for `query`'s key.
    Proceed { query: ChartQuery, lookup: Lookup },
}

/// The RPC-facing chart service: the cache it owns is the pipeline's only
/// mutable shared state, created at process startup and never persisted.
pub struct ChartService {
    pub cache: ChartCache,
}

impl ChartService {
    /// A service with an empty chart cache whose entries live 24 hours.
    pub fn new_server() -> (s: ChartService)
        ensures
            s.cache.wf(),
            s.cache.ttl == TTL_SECONDS,
            forall|k: u64| s.cache.spec_get(k) == None::<SlotView>,
    {
        ChartService { cache: ChartCache::new(TTL_SECONDS) }
    }

    /// First half of a `GetChart` request at time `now`: validate, then
    /// consult the cache. A request with an unrecognized category ordinal is
    /// rejected as a client error before the cache — and hence the store — is
    /// touched at all. A valid request is answered exactly as
    /// [`ChartCache::begin`] answers for the query's key.
    pub fn start(&mut self, timeframe_raw: i32, category_raw: Option<i32>, now: u64) -> (r:
        StartOutcome)
        requires
            old(self).cache.wf(),
        ensures
            final(self).cache.wf(),
            final(self).cache.ttl == old(self).cache.ttl,
            match spec_validated_category(category_raw) {
                None => (r matches StartOutcome::Rejected(e) && e is InvalidCategory)
                    && *final(self) == *old(self),
                Some(category) => {
                    let q = ChartQuery {
                        timeframe: Timeframe::spec_decode(timeframe_raw),
                        category,
                    };
                    let slot0 = old(self).cache.spec_get(q.spec_key());
                    &&& (r matches StartOutcome::Proceed { query, lookup } && query == q
                        && kind_of(lookup) == lookup_kind(slot0, old(self).cache.ttl, now) && (
                    lookup matches Lookup::Hit(v) ==> (slot0 matches Some(
                        SlotView::Settled { value, computed_at },
                    ) && chart_result_view(v) == value)))
                    &&& final(self).cache.spec_get(q.spec_key()) == slot_after_begin(
                        slot0,
                        old(self).cache.ttl,
                        now,
                    )
                    &&& forall|k2: u64|
                        k2 != q.spec_key() ==> final(self).cache.spec_get(k2) == old(
                            self,
                        ).cache.spec_get(k2)
                },
            },
    {
        let query = match validate_request(timeframe_raw, category_raw) {
            Ok(q) => q,
            Err(e) => {
                return StartOutcome::Rejected(e);
            },
        };
        let key = query.key();
        let lookup = self.cache.begin(key, now);
        StartOutcome::Proceed { query, lookup }
    }
}

/// Judge a chart computation's outcome. A store failure is an internal error
/// whose exact cause is kept for diagnostics only; a successfully computed
/// chart with no entries is not-found, never an empty success; any other
/// chart passes through to enrichment.
pub fn chart_outcome(result: Result<Chart, StoreError>) -> (r: Result<Chart, RequestError>)
    ensures
        match result {
            Err(e) => r matches Err(re) && (re matches RequestError::Internal { detail } && detail@
                == e@),
            Ok(c) => if c@.data.len() == 0 {
                r matches Err(re) && re is NotFound
            } else {
                r matches Ok(c2) && c2 == c
            },
        },
{
    match result {
        Err(e) => Err(RequestError::Internal { detail: e.detail }),
        Ok(c) => if c.data.len() == 0 {
            Err(RequestError::NotFound)
        } else {
            Ok(c)
        },
    }
}

/// The item identifiers to enrich, one per chart entry and in the chart's
/// order.
pub fn item_ids(chart: &Chart) -> (ids: Vec<String>)
    ensures
        ids@.len() == chart@.data.len(),
        forall|i: int| 0 <= i < ids@.len() ==> ids@[i]@ == chart@.data[i].rating.snap_id,
{
    let mut ids: Vec<String> = Vec::new();
    let mut i: usize = 0;
    while i < chart.data.len()
        invariant
            i <= chart.data@.len(),
            ids@.len() == i as int,
            forall|j: int| 0 <= j < i as int ==> ids@[j]@ == chart.data@[j]@.rating.snap_id,
        decreases chart.data@.len() - i,
    {
        ids.push(chart.data[i].rating.snap_id.clone());
        i = i + 1;
    }
    ids
}

/// Whether every enrichment lookup succeeded.
pub open spec fn all_ok(results: Seq<Result<String, LookupError>>) -> bool {
    forall|i: int| 0 <= i < results.len() ==> results[i] is Ok
}

/// Collect the concurrent enrichment lookups' results positionally. All of
/// them succeeded: the resolved names, in the same order. Any one of them
/// failed: one internal error for the whole request — a partial response is
/// never built.
pub fn collect_names(results: &Vec<Result<String, LookupError>>) -> (r: Result<
    Vec<String>,
    RequestError,
>)
    ensures
        all_ok(results@) ==> (r matches Ok(names) && names@.len() == results@.len() && (forall|i: int|
            #![trigger results@[i]]
            0 <= i < results@.len() ==> (results@[i] matches Ok(s) && names@[i]@ == s@))),
        !all_ok(results@) ==> (r matches Err(e) && e matches RequestError::Internal { .. }),
{
    let mut names: Vec<String> = Vec::new();
    let mut i: usize = 0;
    while i < results.len()
        invariant
            i <= results@.len(),
            names@.len() == i as int,
            forall|j: int|
                #![trigger results@[j]]
                0 <= j < i as int ==> (results@[j] matches Ok(s) && names@[j]@ == s@),
        decreases results@.len() - i,
    {
        match &results[i] {
            Ok(name) => names.push(name.clone()),
            Err(_) => {
                return Err(
                    RequestError::Internal { detail: "enrichment lookup failed".to_owned() },
                );
            },
        }
        i = i + 1;
    }
    Ok(names)
}

/// The category half of a response: the decoded ordinal, `None` if the
/// request named no category.
pub open spec fn spec_category_repr(category: Option<Category>) -> Option<i32> {
    match category {
        None => None,
        Some(c) => Some(c.spec_repr()),
    }
}

/// Assemble the response: the decoded timeframe and category as ordinals, and
/// one wire entry per chart entry, each paired positionally with its resolved
/// name — the chart's original order, never the lookups' completion order.
pub fn build_response(query: ChartQuery, chart: &Chart, names: &Vec<String>) -> (resp:
    GetChartResponse)
    requires
        names@.len() == chart@.data.len(),
    ensures
        resp@.timeframe == query.timeframe.spec_repr(),
        resp@.category == spec_category_repr(query.category),
        resp@.ordered_chart_data.len() == chart@.data.len(),
        forall|i: int|
            0 <= i < chart@.data.len() ==> resp@.ordered_chart_data[i] == pb_chart_data_of(
                chart@.data[i],
                names@[i]@,
            ),
{
    let mut ordered_chart_data: Vec<PbChartData> = Vec::new();
    let mut i: usize = 0;
    while i < chart.data.len()
        invariant
            i <= chart.data@.len(),
            names@.len() == chart.data@.len(),
            ordered_chart_data@.len() == i as int,
            forall|j: int|
                0 <= j < i as int ==> ordered_chart_data@[j]@ == pb_chart_data_of(
                    chart.data@[j]@,
                    names@[j]@,
                ),
        decreases chart.data@.len() - i,
    {
        ordered_chart_data.push(
            PbChartData::from_chart_data_and_snap_name(chart.data[i].clone(), names[i].clone()),
        );
        i = i + 1;
    }
    let category: Option<i32> = match query.category {
        None => None,
        Some(c) => Some(c.repr()),
    };
    GetChartResponse { timeframe: query.timeframe.repr(), category, ordered_chart_data }
}

/// Second half of a `GetChart` request, entered once every enrichment lookup
/// has completed: all of them resolved, and the response pairs each chart
/// entry with its name in the chart's own order; any one of them failed, and
/// the whole request fails with one internal error.
pub fn finish(query: ChartQuery, chart: &Chart, results: &Vec<Result<String, LookupError>>) -> (r:
    Result<GetChartResponse, RequestError>)
    requires
        results@.len() == chart@.data.len(),
    ensures
        all_ok(results@) ==> (r matches Ok(resp) && resp@.timeframe == query.timeframe.spec_repr()
            && resp@.category == spec_category_repr(query.category)
            && resp@.ordered_chart_data.len() == chart@.data.len() && (forall|i: int|
            #![trigger results@[i]]
            0 <= i < chart@.data.len() ==> (results@[i] matches Ok(s)
                && resp@.ordered_chart_data[i] == pb_chart_data_of(chart@.data[i], s@)))),
        !all_ok(results@) ==> (r matches Err(e) && e matches RequestError::Internal { .. }),
{
    let names = match collect_names(results) {
        Ok(names) => names,
        Err(e) => {
            return Err(e);
        },
    };
    Ok(build_response(query, chart, &names))
}

} // verus!
