use motion_cam::decimal::u64_to_string;
use motion_cam::file_stream::content_range_value;
use motion_cam::range::open_range;
use motion_cam::range::RangeOutcome;
use motion_cam::range::RangePlan;
use motion_cam::range::RangeRequest;
use motion_cam::range::STATUS_PARTIAL_CONTENT;
use motion_cam::range::STATUS_RANGE_NOT_SATISFIABLE;

#[test]
fn open_range_resolves_zero_end_to_last_byte() {
    // (start 0, end 0, total 1000) -> 206 with bytes 0-999/1000
    let out = open_range(0, 0, 1000);
    assert_eq!(
        out,
        RangeOutcome::Partial(RangePlan { start: 0, end: 999, total_size: 1000 })
    );
    assert_eq!(out.status(), STATUS_PARTIAL_CONTENT);
    assert_eq!(out.status(), 206);
    assert_eq!(content_range_value(0, 999, 1000).as_str(), "bytes 0-999/1000");
}

#[test]
fn open_range_inverted_range_is_not_satisfiable() {
    // start 500 > end 100
    let out = open_range(500, 100, 1000);
    assert_eq!(out, RangeOutcome::NotSatisfiable);
    assert_eq!(out.status(), STATUS_RANGE_NOT_SATISFIABLE);
    assert_eq!(out.status(), 416);
}

#[test]
fn open_range_start_at_total_size_is_not_satisfiable() {
    // start == total_size
    let out = open_range(1000, 0, 1000);
    assert_eq!(out, RangeOutcome::NotSatisfiable);
    assert_eq!(out.status(), 416);
}

#[test]
fn open_range_end_past_last_byte_is_not_satisfiable() {
    assert_eq!(open_range(0, 1000, 1000), RangeOutcome::NotSatisfiable);
    assert_eq!(open_range(0, 5000, 1000), RangeOutcome::NotSatisfiable);
}

#[test]
fn open_range_accepts_interior_ranges() {
    let out = open_range(500, 999, 1000);
    assert_eq!(
        out,
        RangeOutcome::Partial(RangePlan { start: 500, end: 999, total_size: 1000 })
    );
    match out {
        RangeOutcome::Partial(plan) => assert_eq!(plan.read_len(), 500),
        RangeOutcome::NotSatisfiable => panic!("expected a partial response"),
    }
    // a single byte
    let single = open_range(3, 3, 10);
    assert_eq!(
        single,
        RangeOutcome::Partial(RangePlan { start: 3, end: 3, total_size: 10 })
    );
    match single {
        RangeOutcome::Partial(plan) => assert_eq!(plan.read_len(), 1),
        RangeOutcome::NotSatisfiable => panic!("expected a partial response"),
    }
}

#[test]
fn open_range_empty_file_satisfies_nothing() {
    assert_eq!(open_range(0, 0, 0), RangeOutcome::NotSatisfiable);
    assert_eq!(open_range(5, 9, 0), RangeOutcome::NotSatisfiable);
}

#[test]
fn from_raw_decodes_the_zero_sentinel() {
    assert_eq!(RangeRequest::from_raw(5, 0), RangeRequest { start: 5, end: None });
    assert_eq!(RangeRequest::from_raw(5, 17), RangeRequest { start: 5, end: Some(17) });
}

#[test]
fn explicit_request_resolves_like_the_raw_form() {
    let req = RangeRequest { start: 10, end: None };
    assert_eq!(
        req.resolve(100),
        RangeOutcome::Partial(RangePlan { start: 10, end: 99, total_size: 100 })
    );
    let capped = RangeRequest { start: 10, end: Some(100) };
    assert_eq!(capped.resolve(100), RangeOutcome::NotSatisfiable);
}

#[test]
fn decimal_rendering_is_exact() {
    assert_eq!(u64_to_string(0).as_str(), "0");
    assert_eq!(u64_to_string(7).as_str(), "7");
    assert_eq!(u64_to_string(10).as_str(), "10");
    assert_eq!(u64_to_string(906050).as_str(), "906050");
    assert_eq!(
        u64_to_string(u64::MAX).as_str(),
        "18446744073709551615"
    );
}

#[test]
fn content_range_value_formats_all_three_numbers() {
    assert_eq!(
        content_range_value(1023, 2047, 4096).as_str(),
        "bytes 1023-2047/4096"
    );
}
