use usage_report::api::{Bucket, UsagePager, UsageResponse, UsageResult};
use usage_report::clock::{get_start_time_for_days_ago, now_timestamp, start_time_from};
use usage_report::models::{base_model_name, get_base_model_name, get_model_pricing, model_pricing, ModelPricing};
use usage_report::numfmt::{format_cost, format_number, format_signed};
use usage_report::report::{build_report, calculate_cost, ReportError};

fn record(
    model: Option<&str>,
    input: u64,
    cached: u64,
    output: u64,
    requests: u64,
) -> UsageResult {
    UsageResult {
        input_tokens: input,
        output_tokens: output,
        num_model_requests: requests,
        model: model.map(|m| m.to_string()),
        input_cached_tokens: cached,
    }
}

fn page(data: Vec<Bucket>, has_more: bool, next_page: Option<&str>) -> UsageResponse {
    UsageResponse {
        object: "page".to_string(),
        data,
        has_more,
        next_page: next_page.map(|c| c.to_string()),
    }
}

#[test]
fn normalizer_prefers_specific_prefixes() {
    assert_eq!(base_model_name("gpt-5-mini-2025-01-01"), "gpt-5-mini");
    assert_eq!(base_model_name("gpt-5-turbo"), "gpt-5");
    assert_eq!(base_model_name("unknown-model"), "unknown-model");
}

#[test]
fn normalizer_more_cases() {
    assert_eq!(get_base_model_name("gpt-5-mini-2025-01-01"), "gpt-5-mini");
    assert_eq!(get_base_model_name("gpt-5-nano-preview"), "gpt-5-nano");
    assert_eq!(get_base_model_name("gpt-4.1-mini-2025"), "gpt-4.1-mini");
    assert_eq!(get_base_model_name("gpt-4.1-nano"), "gpt-4.1-nano");
    assert_eq!(get_base_model_name("gpt-4.1-2025"), "gpt-4.1");
    assert_eq!(get_base_model_name("o4-mini-deep-research"), "o4-mini");
    assert_eq!(get_base_model_name("o3-pro"), "o3");
    assert_eq!(get_base_model_name(""), "");
}

#[test]
fn format_number_separates_thousands() {
    assert_eq!(format_number(1234567), "1,234,567");
    assert_eq!(format_number(0), "0");
    assert_eq!(format_number(999), "999");
    assert_eq!(format_number(1000), "1,000");
    assert_eq!(format_number(1000000), "1,000,000");
    assert_eq!(format_number(u64::MAX), "18,446,744,073,709,551,615");
}

#[test]
fn format_cost_four_decimals() {
    assert_eq!(format_cost(11_250_000_000), "11.2500");
    assert_eq!(format_cost(0), "0.0000");
    assert_eq!(format_cost(49_999), "0.0000");
    assert_eq!(format_cost(50_000), "0.0001");
    assert_eq!(format_cost(1_000_000_000), "1.0000");
    assert_eq!(format_cost(123_456_789), "0.1235");
}

#[test]
fn format_signed_handles_negatives() {
    assert_eq!(format_signed(0), "0");
    assert_eq!(format_signed(1234), "1234");
    assert_eq!(format_signed(-5), "-5");
    assert_eq!(format_signed(i64::MIN), "-9223372036854775808");
}

#[test]
fn cost_of_mixed_cached_usage() {
    let rec = record(Some("o3"), 2_000_000, 500_000, 1_000_000, 1);
    let rates = ModelPricing { input: 2000, cached_input: 500, output: 8000 };
    let cost = calculate_cost(&rec, &rates).unwrap();
    assert_eq!(cost, 11_250_000_000);
    assert_eq!(format_cost(cost), "11.2500");
}

#[test]
fn cost_clamps_excess_cached_tokens() {
    let rec = record(Some("o3"), 5, 10, 2, 1);
    let rates = ModelPricing { input: 2000, cached_input: 500, output: 8000 };
    let cost = calculate_cost(&rec, &rates).unwrap();
    assert_eq!(cost, 10 * 500 + 2 * 8000);
}

#[test]
fn pricing_table_lookup() {
    let table = model_pricing();
    let p = table.get("gpt-5").unwrap();
    assert_eq!(p, ModelPricing { input: 1250, cached_input: 125, output: 10000 });
    let p = table.get("gpt-4.1-nano").unwrap();
    assert_eq!(p, ModelPricing { input: 100, cached_input: 25, output: 400 });
    assert!(table.get("unknown-model").is_none());
    assert!(table.get("gpt-5-mini-2025").is_none());
    let other = get_model_pricing();
    assert_eq!(other.get("o4-mini").unwrap(), ModelPricing { input: 1100, cached_input: 275, output: 4400 });
}

#[test]
fn pager_drains_three_pages_in_order() {
    let mut pager = UsagePager::new(1_700_000_000);
    assert!(!pager.done);

    let req = pager.next_request();
    assert_eq!(req.len(), 3);
    assert_eq!(req[0], ("start_time".to_string(), "1700000000".to_string()));
    assert_eq!(req[1], ("group_by".to_string(), "model".to_string()));
    assert_eq!(req[2], ("bucket_width".to_string(), "1d".to_string()));

    let b1 = Bucket { start_time: 100, results: vec![record(Some("o3"), 1, 0, 1, 1)] };
    let b2 = Bucket { start_time: 200, results: vec![] };
    let b3 = Bucket { start_time: 300, results: vec![record(None, 2, 1, 2, 2)] };

    pager.absorb_page(page(vec![b1], true, Some("cursor-2")));
    assert!(!pager.done);
    let req = pager.next_request();
    assert_eq!(req.len(), 4);
    assert_eq!(req[3], ("page".to_string(), "cursor-2".to_string()));

    pager.absorb_page(page(vec![b2], true, Some("cursor-3")));
    assert!(!pager.done);
    let req = pager.next_request();
    assert_eq!(req[3], ("page".to_string(), "cursor-3".to_string()));

    pager.absorb_page(page(vec![b3], false, None));
    assert!(pager.done);
    assert_eq!(pager.pages_fetched, 3);

    let unified = pager.finish();
    assert_eq!(unified.object, "page");
    assert!(!unified.has_more);
    assert!(unified.next_page.is_none());
    assert_eq!(unified.data.len(), 3);
    assert_eq!(unified.data[0].start_time, 100);
    assert_eq!(unified.data[1].start_time, 200);
    assert_eq!(unified.data[2].start_time, 300);
}

#[test]
fn pager_stops_without_cursor() {
    let mut pager = UsagePager::new(0);
    pager.absorb_page(page(vec![], true, None));
    assert!(pager.done);
    assert_eq!(pager.pages_fetched, 1);
}

#[test]
fn pager_stops_when_no_more() {
    let mut pager = UsagePager::new(0);
    pager.absorb_page(page(vec![], false, Some("cursor-x")));
    assert!(pager.done);
}

#[test]
fn start_time_counts_back_whole_days() {
    assert_eq!(start_time_from(1_700_000_000, 3), 1_700_000_000 - 3 * 86400);
    assert_eq!(start_time_from(0, 1), -86400);
    let now = now_timestamp();
    let (clock, st) = get_start_time_for_days_ago(2);
    assert!((clock - now).abs() <= 5);
    assert_eq!(st, clock - 2 * 86400);
}

#[test]
fn report_of_empty_data_is_all_zeros() {
    let resp = page(vec![], false, None);
    let rep = build_report(&resp, &model_pricing()).unwrap();
    assert!(rep.rows.is_empty());
    assert_eq!(rep.totals.requests, 0);
    assert_eq!(rep.totals.input_tokens, 0);
    assert_eq!(rep.totals.cached_tokens, 0);
    assert_eq!(rep.totals.output_tokens, 0);
    assert_eq!(rep.totals.cost_nanos, 0);
    assert_eq!(format_cost(rep.totals.cost_nanos), "0.0000");
}

#[test]
fn report_prices_and_totals_records() {
    let bucket = Bucket {
        start_time: 1431648000,
        results: vec![
            record(Some("gpt-5-2025-08-07"), 2_000_000, 500_000, 1_000_000, 7),
            record(None, 10, 4, 20, 2),
        ],
    };
    let resp = page(vec![bucket], false, None);
    let rep = build_report(&resp, &model_pricing()).unwrap();
    assert_eq!(rep.rows.len(), 2);

    let row = &rep.rows[0];
    assert_eq!(row.date, "2015-05-15");
    assert_eq!(row.model, "gpt-5-2025-08-07");
    assert_eq!(row.requests, 7);
    assert_eq!(row.input_tokens, 1_500_000);
    assert_eq!(row.cached_tokens, 500_000);
    assert_eq!(row.output_tokens, 1_000_000);
    // 1.5M tokens at 1250 plus 0.5M at 125 plus 1M at 10000 nano-dollars
    assert_eq!(row.cost_nanos, 1_500_000 * 1250 + 500_000 * 125 + 1_000_000 * 10000);

    let row = &rep.rows[1];
    assert_eq!(row.model, "unknown");
    assert_eq!(row.cost_nanos, 0);
    assert_eq!(row.input_tokens, 6);

    assert_eq!(rep.totals.requests, 9);
    assert_eq!(rep.totals.input_tokens, 1_500_006);
    assert_eq!(rep.totals.cached_tokens, 500_004);
    assert_eq!(rep.totals.output_tokens, 1_000_020);
    assert_eq!(rep.totals.cost_nanos, 1_500_000 * 1250 + 500_000 * 125 + 1_000_000 * 10000);
}

#[test]
fn report_epoch_start_renders_unix_origin() {
    let bucket = Bucket { start_time: 0, results: vec![record(None, 0, 0, 0, 0)] };
    let resp = page(vec![bucket], false, None);
    let rep = build_report(&resp, &model_pricing()).unwrap();
    assert_eq!(rep.rows[0].date, "1970-01-01");
}

#[test]
fn report_rejects_out_of_range_timestamp() {
    let bucket = Bucket { start_time: i64::MAX, results: vec![] };
    let resp = page(vec![bucket], false, None);
    let err = build_report(&resp, &model_pricing()).unwrap_err();
    assert_eq!(err, ReportError::InvalidTimestamp);
}
