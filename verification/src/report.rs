//! Cost calculation and the aggregation pass over fetched buckets.
//!
//! Costs are exact integers in nano-dollars: a rate is nano-dollars per
//! token, so a record's cost is a sum of token-count times rate
//! products.  The aggregation walks every bucket in order, emits one row
//! per record, and accumulates the five totals.
use vstd::prelude::*;
use vstd::arithmetic::mul::{lemma_mul_nonnegative, lemma_mul_upper_bound};
use vstd::string::StringExecFns;
use crate::api::{Bucket, UsageResponse, UsageResult};
use crate::clock::{date_text_of, format_date, ts_in_date_range};
use crate::models::{get_base_model_name, spec_base_model, spec_lookup, ModelPricing, PricingTable};

verus! {

/// The display label of a record's model: the reported identifier, or
/// `unknown` when the server reported none.
pub open spec fn spec_model_label(r: UsageResult) -> Seq<char> {
    match r.model {
        Some(m) => m@,
        None => "unknown"@,
    }
}

/// The non-cached share of a record's input tokens.  When the reported
/// cached count exceeds the total, the share is taken as zero rather
/// than underflowing.
pub open spec fn spec_non_cached(r: UsageResult) -> int {
    if r.input_cached_tokens <= r.input_tokens {
        r.input_tokens - r.input_cached_tokens
    } else {
        0
    }
}

/// A record's cost in nano-dollars under the given rates.
pub open spec fn spec_cost_nanos(r: UsageResult, p: ModelPricing) -> int {
    spec_non_cached(r) * p.input + r.input_cached_tokens * p.cached_input + r.output_tokens
        * p.output
}

/// A record's cost in nano-dollars under a pricing table: the cost under
/// its base model's rates, or zero when the base model is unpriced.
pub open spec fn spec_record_cost(r: UsageResult, table: Seq<(String, ModelPricing)>) -> int {
    match spec_lookup(table, spec_base_model(spec_model_label(r))) {
        Some(p) => spec_cost_nanos(r, p),
        None => 0,
    }
}

/// The sum of `f` over a sequence of records.
pub open spec fn sum_records(s: Seq<UsageResult>, f: spec_fn(UsageResult) -> int) -> int
    decreases s.len(),
{
    if s.len() == 0 {
        0
    } else {
        sum_records(s.drop_last(), f) + f(s.last())
    }
}

/// The sum of `f` over every record of every bucket.
pub open spec fn sum_buckets(data: Seq<Bucket>, f: spec_fn(UsageResult) -> int) -> int
    decreases data.len(),
{
    if data.len() == 0 {
        0
    } else {
        sum_buckets(data.drop_last(), f) + sum_records(data.last().results@, f)
    }
}

/// How many records all the buckets hold together.
pub open spec fn count_records(data: Seq<Bucket>) -> int
    decreases data.len(),
{
    if data.len() == 0 {
        0
    } else {
        count_records(data.drop_last()) + data.last().results@.len()
    }
}

/// The requests a record contributes to the totals.
pub open spec fn f_requests() -> spec_fn(UsageResult) -> int {
    |r: UsageResult| r.num_model_requests as int
}

/// The non-cached input tokens a record contributes to the totals.
pub open spec fn f_non_cached() -> spec_fn(UsageResult) -> int {
    |r: UsageResult| spec_non_cached(r)
}

/// The cached input tokens a record contributes to the totals.
pub open spec fn f_cached() -> spec_fn(UsageResult) -> int {
    |r: UsageResult| r.input_cached_tokens as int
}

/// The output tokens a record contributes to the totals.
pub open spec fn f_output() -> spec_fn(UsageResult) -> int {
    |r: UsageResult| r.output_tokens as int
}

/// The cost a record contributes to the totals under `table`.
pub open spec fn f_cost(table: Seq<(String, ModelPricing)>) -> spec_fn(UsageResult) -> int {
    |r: UsageResult| spec_record_cost(r, table)
}

/// Whether every bucket's start time can be rendered as a date.
pub open spec fn spec_dates_ok(data: Seq<Bucket>) -> bool {
    forall|i: int| 0 <= i < data.len() ==> ts_in_date_range(#[trigger] data[i].start_time)
}

/// Whether each of the five totals fits the accumulator type.
pub open spec fn spec_sums_fit(data: Seq<Bucket>, table: Seq<(String, ModelPricing)>) -> bool {
    &&& sum_buckets(data, f_requests()) <= u128::MAX
    &&& sum_buckets(data, f_non_cached()) <= u128::MAX
    &&& sum_buckets(data, f_cached()) <= u128::MAX
    &&& sum_buckets(data, f_output()) <= u128::MAX
    &&& sum_buckets(data, f_cost(table)) <= u128::MAX
}

/// Running totals over every record: requests, non-cached input tokens,
/// cached input tokens, output tokens, and cost in nano-dollars.
#[derive(Debug, Clone, Copy, PartialEq, Eq, Structural)]
pub struct UsageTotals {
    pub requests: u128,
    pub input_tokens: u128,
    pub cached_tokens: u128,
    pub output_tokens: u128,
    pub cost_nanos: u128,
}

/// One display row: the bucket's date, the record's model label, its
/// token counts with the non-cached share in `input_tokens`, and its
/// cost in nano-dollars.
#[derive(Debug, Clone)]
pub struct ReportRow {
    pub date: String,
    pub model: String,
    pub requests: u64,
    pub input_tokens: u64,
    pub cached_tokens: u64,
    pub output_tokens: u64,
    pub cost_nanos: u128,
}

/// The aggregated report: one row per (bucket, record) pair in bucket
/// order, and the totals over all of them.
#[derive(Debug, Clone)]
pub struct UsageReport {
    pub rows: Vec<ReportRow>,
    pub totals: UsageTotals,
}

/// Why a report could not be built.
#[derive(Debug, Clone, Copy, PartialEq, Eq, Structural)]
pub enum ReportError {
    /// A bucket's start time lies outside the renderable date range.
    InvalidTimestamp,
    /// A total would not fit its accumulator.
    TotalsOverflow,
}

/// Whether `row` renders `r` from the bucket starting at `start_time`.
pub open spec fn spec_row_matches(
    row: ReportRow,
    start_time: i64,
    r: UsageResult,
    table: Seq<(String, ModelPricing)>,
) -> bool {
    &&& row.date@ == date_text_of(start_time)
    &&& row.model@ == spec_model_label(r)
    &&& row.requests == r.num_model_requests
    &&& row.input_tokens == spec_non_cached(r)
    &&& row.cached_tokens == r.input_cached_tokens
    &&& row.output_tokens == r.output_tokens
    &&& row.cost_nanos == spec_record_cost(r, table)
}

/// Whether `rep` is exactly the report of `data` under `table`: one
/// matching row per record, in bucket-then-record order, and totals
/// equal to the five sums.
pub open spec fn spec_report_matches(
    rep: UsageReport,
    data: Seq<Bucket>,
    table: Seq<(String, ModelPricing)>,
) -> bool {
    &&& rep.rows@.len() == count_records(data)
    &&& (forall|i: int, j: int|
        0 <= i < data.len() && 0 <= j < data[i].results@.len() ==> spec_row_matches(
            rep.rows@[count_records(data.take(i)) + j],
            data[i].start_time,
            #[trigger] data[i].results@[j],
            table,
        ))
    &&& rep.totals.requests == sum_buckets(data, f_requests())
    &&& rep.totals.input_tokens == sum_buckets(data, f_non_cached())
    &&& rep.totals.cached_tokens == sum_buckets(data, f_cached())
    &&& rep.totals.output_tokens == sum_buckets(data, f_output())
    &&& rep.totals.cost_nanos == sum_buckets(data, f_cost(table))
}

/// A record's cost is never negative.
pub proof fn lemma_record_cost_nonneg(r: UsageResult, table: Seq<(String, ModelPricing)>)
    ensures
        spec_record_cost(r, table) >= 0,
{
    match spec_lookup(table, spec_base_model(spec_model_label(r))) {
        Some(p) => {
            lemma_mul_nonnegative(spec_non_cached(r), p.input as int);
            lemma_mul_nonnegative(r.input_cached_tokens as int, p.cached_input as int);
            lemma_mul_nonnegative(r.output_tokens as int, p.output as int);
        },
        None => {},
    }
}

/// A record whose base model has no pricing entry costs exactly zero;
/// its token counts still reach the totals, whose sums do not consult
/// the pricing table.
pub proof fn lemma_unpriced_cost_zero(r: UsageResult, table: Seq<(String, ModelPricing)>)
    requires
        spec_lookup(table, spec_base_model(spec_model_label(r))) is None,
    ensures
        spec_record_cost(r, table) == 0,
{
}

/// A report built from no buckets holds no rows and all-zero totals.
pub proof fn lemma_empty_report(rep: UsageReport, table: Seq<(String, ModelPricing)>)
    requires
        spec_report_matches(rep, Seq::<Bucket>::empty(), table),
    ensures
        rep.rows@.len() == 0,
        rep.totals.requests == 0,
        rep.totals.input_tokens == 0,
        rep.totals.cached_tokens == 0,
        rep.totals.output_tokens == 0,
        rep.totals.cost_nanos == 0,
{
}

proof fn lemma_sum_records_take_step(s: Seq<UsageResult>, f: spec_fn(UsageResult) -> int, j: int)
    requires
        0 <= j < s.len(),
    ensures
        sum_records(s.take(j + 1), f) == sum_records(s.take(j), f) + f(s[j]),
{
    assert(s.take(j + 1).drop_last() =~= s.take(j));
    assert(s.take(j + 1).last() == s[j]);
}

proof fn lemma_sum_buckets_take_step(data: Seq<Bucket>, f: spec_fn(UsageResult) -> int, i: int)
    requires
        0 <= i < data.len(),
    ensures
        sum_buckets(data.take(i + 1), f) == sum_buckets(data.take(i), f) + sum_records(
            data[i].results@,
            f,
        ),
{
    assert(data.take(i + 1).drop_last() =~= data.take(i));
    assert(data.take(i + 1).last() == data[i]);
}

proof fn lemma_count_take_step(data: Seq<Bucket>, i: int)
    requires
        0 <= i < data.len(),
    ensures
        count_records(data.take(i + 1)) == count_records(data.take(i)) + data[i].results@.len(),
{
    assert(data.take(i + 1).drop_last() =~= data.take(i));
    assert(data.take(i + 1).last() == data[i]);
}

proof fn lemma_count_nonneg(data: Seq<Bucket>, a: int)
    requires
        0 <= a <= data.len(),
    ensures
        count_records(data.take(a)) >= 0,
    decreases a,
{
    if a > 0 {
        lemma_count_take_step(data, a - 1);
        lemma_count_nonneg(data, a - 1);
    } else {
        assert(data.take(0) =~= Seq::<Bucket>::empty());
    }
}

proof fn lemma_count_mono(data: Seq<Bucket>, a: int, b: int)
    requires
        0 <= a <= b <= data.len(),
    ensures
        count_records(data.take(a)) <= count_records(data.take(b)),
    decreases b - a,
{
    if a < b {
        lemma_count_mono(data, a, b - 1);
        lemma_count_take_step(data, b - 1);
    }
}

proof fn lemma_sum_records_prefix(s: Seq<UsageResult>, f: spec_fn(UsageResult) -> int, j: int)
    requires
        forall|r: UsageResult| #[trigger] f(r) >= 0,
        0 <= j <= s.len(),
    ensures
        sum_records(s.take(j), f) <= sum_records(s, f),
    decreases s.len() - j,
{
    if j == s.len() {
        assert(s.take(j) =~= s);
    } else {
        lemma_sum_records_take_step(s, f, j);
        lemma_sum_records_prefix(s, f, j + 1);
    }
}

proof fn lemma_sum_buckets_prefix(data: Seq<Bucket>, f: spec_fn(UsageResult) -> int, i: int)
    requires
        forall|r: UsageResult| #[trigger] f(r) >= 0,
        0 <= i <= data.len(),
    ensures
        sum_buckets(data.take(i), f) <= sum_buckets(data, f),
    decreases data.len() - i,
{
    if i == data.len() {
        assert(data.take(i) =~= data);
    } else {
        lemma_sum_buckets_take_step(data, f, i);
        lemma_sum_records_nonneg_take(data[i].results@, f, data[i].results@.len() as int);
        assert(data[i].results@.take(data[i].results@.len() as int) =~= data[i].results@);
        lemma_sum_buckets_prefix(data, f, i + 1);
    }
}

proof fn lemma_sum_records_nonneg_take(s: Seq<UsageResult>, f: spec_fn(UsageResult) -> int, j: int)
    requires
        forall|r: UsageResult| #[trigger] f(r) >= 0,
        0 <= j <= s.len(),
    ensures
        sum_records(s.take(j), f) >= 0,
    decreases j,
{
    if j > 0 {
        lemma_sum_records_take_step(s, f, j - 1);
        lemma_sum_records_nonneg_take(s, f, j - 1);
    } else {
        assert(s.take(0) =~= Seq::<UsageResult>::empty());
    }
}

/// The partial sum over the first `i` buckets plus the first `j` records
/// of bucket `i`, plus record `j` itself, never exceeds the whole sum.
proof fn lemma_partial_le_total(data: Seq<Bucket>, f: spec_fn(UsageResult) -> int, i: int, j: int)
    requires
        forall|r: UsageResult| #[trigger] f(r) >= 0,
        0 <= i < data.len(),
        0 <= j < data[i].results@.len(),
    ensures
        sum_buckets(data.take(i), f) + sum_records(data[i].results@.take(j), f) + f(
            data[i].results@[j],
        ) <= sum_buckets(data, f),
{
    lemma_sum_records_take_step(data[i].results@, f, j);
    lemma_sum_records_prefix(data[i].results@, f, j + 1);
    lemma_sum_buckets_take_step(data, f, i);
    lemma_sum_buckets_prefix(data, f, i + 1);
}

/// Each of the five per-record contributions is non-negative.
proof fn lemma_contributions_nonneg(table: Seq<(String, ModelPricing)>)
    ensures
        forall|r: UsageResult| #[trigger] (f_requests())(r) >= 0,
        forall|r: UsageResult| #[trigger] (f_non_cached())(r) >= 0,
        forall|r: UsageResult| #[trigger] (f_cached())(r) >= 0,
        forall|r: UsageResult| #[trigger] (f_output())(r) >= 0,
        forall|r: UsageResult| #[trigger] (f_cost(table))(r) >= 0,
{
    assert forall|r: UsageResult| #[trigger] (f_cost(table))(r) >= 0 by {
        lemma_record_cost_nonneg(r, table);
    }
}

/// Computes a record's exact cost in nano-dollars under the given
/// rates, or reports that it does not fit the result type.  The
/// non-cached share of input tokens is priced at the input rate, the
/// cached share at the cached rate, and output tokens at the output
/// rate.
pub fn calculate_cost(usage: &UsageResult, pricing: &ModelPricing) -> (r: Option<u128>)
    ensures
        r is Some <==> spec_cost_nanos(*usage, *pricing) <= u128::MAX,
        r matches Some(c) ==> c == spec_cost_nanos(*usage, *pricing),
{
    let non_cached: u64 = if usage.input_cached_tokens <= usage.input_tokens {
        usage.input_tokens - usage.input_cached_tokens
    } else {
        0
    };
    proof {
        lemma_mul_upper_bound(non_cached as int, u64::MAX as int, pricing.input as int, u64::MAX as int);
        lemma_mul_upper_bound(
            usage.input_cached_tokens as int,
            u64::MAX as int,
            pricing.cached_input as int,
            u64::MAX as int,
        );
        lemma_mul_upper_bound(
            usage.output_tokens as int,
            u64::MAX as int,
            pricing.output as int,
            u64::MAX as int,
        );
        lemma_mul_nonnegative(non_cached as int, pricing.input as int);
        lemma_mul_nonnegative(usage.input_cached_tokens as int, pricing.cached_input as int);
        lemma_mul_nonnegative(usage.output_tokens as int, pricing.output as int);
    }
    let p1: u128 = (non_cached as u128) * (pricing.input as u128);
    let p2: u128 = (usage.input_cached_tokens as u128) * (pricing.cached_input as u128);
    let p3: u128 = (usage.output_tokens as u128) * (pricing.output as u128);
    if p1 > u128::MAX - p2 {
        return None;
    }
    let s12: u128 = p1 + p2;
    if s12 > u128::MAX - p3 {
        return None;
    }
    Some(s12 + p3)
}

/// Builds the report of a drained response under a pricing table:
/// resolves each record's base model, prices it (zero when unpriced),
/// emits one row per record in bucket order, and accumulates the
/// totals.  Fails exactly when some bucket's start time cannot be
/// rendered as a date or some total does not fit its accumulator.
pub fn build_report(resp: &UsageResponse, pricing: &PricingTable) -> (r: Result<
    UsageReport,
    ReportError,
>)
    ensures
        r is Ok <==> (spec_dates_ok(resp.data@) && spec_sums_fit(resp.data@, pricing.entries@)),
        r matches Ok(rep) ==> spec_report_matches(rep, resp.data@, pricing.entries@),
        r matches Err(e) ==> (e == ReportError::InvalidTimestamp ==> !spec_dates_ok(resp.data@)),
        r matches Err(e) ==> (e == ReportError::TotalsOverflow ==> !spec_sums_fit(
            resp.data@,
            pricing.entries@,
        )),
{
    let data = &resp.data;
    let ghost table = pricing.entries@;
    proof {
        lemma_contributions_nonneg(table);
    }
    let mut rows: Vec<ReportRow> = Vec::new();
    let mut t_req: u128 = 0;
    let mut t_in: u128 = 0;
    let mut t_cached: u128 = 0;
    let mut t_out: u128 = 0;
    let mut t_cost: u128 = 0;
    let n = data.len();
    let mut i: usize = 0;
    proof {
        assert(data@.take(0) =~= Seq::<Bucket>::empty());
    }
    while i < n
        invariant
            data@ == resp.data@,
            n == data@.len(),
            i <= n,
            table == pricing.entries@,
            forall|r: UsageResult| #[trigger] (f_requests())(r) >= 0,
            forall|r: UsageResult| #[trigger] (f_non_cached())(r) >= 0,
            forall|r: UsageResult| #[trigger] (f_cached())(r) >= 0,
            forall|r: UsageResult| #[trigger] (f_output())(r) >= 0,
            forall|r: UsageResult| #[trigger] (f_cost(table))(r) >= 0,
            rows@.len() == count_records(data@.take(i as int)),
            forall|i2: int, j2: int|
                0 <= i2 < i && 0 <= j2 < data@[i2].results@.len() ==> spec_row_matches(
                    rows@[count_records(data@.take(i2)) + j2],
                    data@[i2].start_time,
                    #[trigger] data@[i2].results@[j2],
                    table,
                ),
            forall|i2: int| 0 <= i2 < i ==> ts_in_date_range(#[trigger] data@[i2].start_time),
            t_req == sum_buckets(data@.take(i as int), f_requests()),
            t_in == sum_buckets(data@.take(i as int), f_non_cached()),
            t_cached == sum_buckets(data@.take(i as int), f_cached()),
            t_out == sum_buckets(data@.take(i as int), f_output()),
            t_cost == sum_buckets(data@.take(i as int), f_cost(table)),
        decreases n - i,
    {
        let date = match format_date(data[i].start_time) {
            Some(d) => d,
            None => {
                proof {
                    assert(!ts_in_date_range(data@[i as int].start_time));
                    assert(!spec_dates_ok(data@));
                }
                return Err(ReportError::InvalidTimestamp);
            },
        };
        let m = data[i].results.len();
        let mut j: usize = 0;
        proof {
            assert(data@[i as int].results@.take(0) =~= Seq::<UsageResult>::empty());
        }
        while j < m
            invariant
                data@ == resp.data@,
                n == data@.len(),
                i < n,
                m == data@[i as int].results@.len(),
                j <= m,
                table == pricing.entries@,
                forall|r: UsageResult| #[trigger] (f_requests())(r) >= 0,
                forall|r: UsageResult| #[trigger] (f_non_cached())(r) >= 0,
                forall|r: UsageResult| #[trigger] (f_cached())(r) >= 0,
                forall|r: UsageResult| #[trigger] (f_output())(r) >= 0,
                forall|r: UsageResult| #[trigger] (f_cost(table))(r) >= 0,
                date@ == date_text_of(data@[i as int].start_time),
                ts_in_date_range(data@[i as int].start_time),
                rows@.len() == count_records(data@.take(i as int)) + j,
                forall|i2: int, j2: int|
                    0 <= i2 < i && 0 <= j2 < data@[i2].results@.len() ==> spec_row_matches(
                        rows@[count_records(data@.take(i2)) + j2],
                        data@[i2].start_time,
                        #[trigger] data@[i2].results@[j2],
                        table,
                    ),
                forall|j2: int|
                    0 <= j2 < j ==> spec_row_matches(
                        rows@[count_records(data@.take(i as int)) + j2],
                        data@[i as int].start_time,
                        #[trigger] data@[i as int].results@[j2],
                        table,
                    ),
                forall|i2: int| 0 <= i2 < i ==> ts_in_date_range(#[trigger] data@[i2].start_time),
                t_req == sum_buckets(data@.take(i as int), f_requests()) + sum_records(
                    data@[i as int].results@.take(j as int),
                    f_requests(),
                ),
                t_in == sum_buckets(data@.take(i as int), f_non_cached()) + sum_records(
                    data@[i as int].results@.take(j as int),
                    f_non_cached(),
                ),
                t_cached == sum_buckets(data@.take(i as int), f_cached()) + sum_records(
                    data@[i as int].results@.take(j as int),
                    f_cached(),
                ),
                t_out == sum_buckets(data@.take(i as int), f_output()) + sum_records(
                    data@[i as int].results@.take(j as int),
                    f_output(),
                ),
                t_cost == sum_buckets(data@.take(i as int), f_cost(table)) + sum_records(
                    data@[i as int].results@.take(j as int),
                    f_cost(table),
                ),
            decreases m - j,
        {
            let rec = &data[i].results[j];
            let ghost grec = data@[i as int].results@[j as int];
            proof {
                assert(*rec == grec);
            }
            let label: String = match &rec.model {
                Some(mname) => mname.clone(),
                None => String::from_str("unknown"),
            };
            let base = get_base_model_name(label.as_str());
            let cost: u128 = match pricing.get(base) {
                Some(p) => match calculate_cost(rec, &p) {
                    Some(c) => c,
                    None => {
                        proof {
                            lemma_partial_le_total(data@, f_cost(table), i as int, j as int);
                        }
                        return Err(ReportError::TotalsOverflow);
                    },
                },
                None => 0,
            };
            proof {
                assert(cost == spec_record_cost(grec, table));
            }
            let non_cached: u64 = if rec.input_cached_tokens <= rec.input_tokens {
                rec.input_tokens - rec.input_cached_tokens
            } else {
                0
            };
            let v_req: u128 = rec.num_model_requests as u128;
            if t_req > u128::MAX - v_req {
                proof {
                    lemma_partial_le_total(data@, f_requests(), i as int, j as int);
                }
                return Err(ReportError::TotalsOverflow);
            }
            t_req = t_req + v_req;
            let v_in: u128 = non_cached as u128;
            if t_in > u128::MAX - v_in {
                proof {
                    lemma_partial_le_total(data@, f_non_cached(), i as int, j as int);
                }
                return Err(ReportError::TotalsOverflow);
            }
            t_in = t_in + v_in;
            let v_cached: u128 = rec.input_cached_tokens as u128;
            if t_cached > u128::MAX - v_cached {
                proof {
                    lemma_partial_le_total(data@, f_cached(), i as int, j as int);
                }
                return Err(ReportError::TotalsOverflow);
            }
            t_cached = t_cached + v_cached;
            let v_out: u128 = rec.output_tokens as u128;
            if t_out > u128::MAX - v_out {
                proof {
                    lemma_partial_le_total(data@, f_output(), i as int, j as int);
                }
                return Err(ReportError::TotalsOverflow);
            }
            t_out = t_out + v_out;
            if t_cost > u128::MAX - cost {
                proof {
                    lemma_partial_le_total(data@, f_cost(table), i as int, j as int);
                }
                return Err(ReportError::TotalsOverflow);
            }
            t_cost = t_cost + cost;
            let row = ReportRow {
                date: date.clone(),
                model: label,
                requests: rec.num_model_requests,
                input_tokens: non_cached,
                cached_tokens: rec.input_cached_tokens,
                output_tokens: rec.output_tokens,
                cost_nanos: cost,
            };
            proof {
                assert(spec_row_matches(row, data@[i as int].start_time, grec, table));
            }
            let ghost rows_pre = rows@;
            rows.push(row);
            proof {
                lemma_count_nonneg(data@, i as int);
                lemma_sum_records_take_step(data@[i as int].results@, f_requests(), j as int);
                lemma_sum_records_take_step(data@[i as int].results@, f_non_cached(), j as int);
                lemma_sum_records_take_step(data@[i as int].results@, f_cached(), j as int);
                lemma_sum_records_take_step(data@[i as int].results@, f_output(), j as int);
                lemma_sum_records_take_step(data@[i as int].results@, f_cost(table), j as int);
                assert(rows@ == rows_pre.push(row));
                assert(rows@[count_records(data@.take(i as int)) + j as int] == row);
                assert forall|i2: int, j2: int|
                    0 <= i2 < i && 0 <= j2 < data@[i2].results@.len() implies spec_row_matches(
                    rows@[count_records(data@.take(i2)) + j2],
                    data@[i2].start_time,
                    data@[i2].results@[j2],
                    table,
                ) by {
                    lemma_count_nonneg(data@, i2);
                    lemma_count_take_step(data@, i2);
                    lemma_count_mono(data@, i2 + 1, i as int);
                    let k = count_records(data@.take(i2)) + j2;
                    assert(0 <= k < rows_pre.len());
                    assert(rows@[k] == rows_pre[k]);
                    assert(spec_row_matches(
                        rows_pre[k],
                        data@[i2].start_time,
                        data@[i2].results@[j2],
                        table,
                    ));
                }
            }
            j = j + 1;
        }
        proof {
            lemma_count_nonneg(data@, i as int);
            lemma_count_take_step(data@, i as int);
            lemma_sum_buckets_take_step(data@, f_requests(), i as int);
            lemma_sum_buckets_take_step(data@, f_non_cached(), i as int);
            lemma_sum_buckets_take_step(data@, f_cached(), i as int);
            lemma_sum_buckets_take_step(data@, f_output(), i as int);
            lemma_sum_buckets_take_step(data@, f_cost(table), i as int);
            assert(data@[i as int].results@.take(m as int) =~= data@[i as int].results@);
        }
        i = i + 1;
    }
    proof {
        assert(data@.take(n as int) =~= data@);
    }
    let totals = UsageTotals {
        requests: t_req,
        input_tokens: t_in,
        cached_tokens: t_cached,
        output_tokens: t_out,
        cost_nanos: t_cost,
    };
    let rep = UsageReport { rows, totals };
    Ok(rep)
}

} // verus!
