use cluster_tools::feed::{deserialize_i64_lenient, deserialize_request_gpus, json_candidate, FeedValue};

#[test]
fn gpu_requests_are_lenient() {
    assert_eq!(deserialize_request_gpus(FeedValue::Int(3)), 3);
    assert_eq!(deserialize_request_gpus(FeedValue::Int(-3)), 0);
    assert_eq!(deserialize_request_gpus(FeedValue::Int(i64::MIN)), 0);
    assert_eq!(deserialize_request_gpus(FeedValue::Int(i64::MAX)), i32::MAX);
    assert_eq!(deserialize_request_gpus(FeedValue::UInt(2)), 2);
    assert_eq!(deserialize_request_gpus(FeedValue::UInt(4294967295)), i32::MAX);
    assert_eq!(deserialize_request_gpus(FeedValue::UInt(i32::MAX as u64)), i32::MAX);
    assert_eq!(deserialize_request_gpus(FeedValue::Text), 0);
    assert_eq!(deserialize_request_gpus(FeedValue::Other), 0);
}

#[test]
fn integers_are_lenient() {
    assert_eq!(deserialize_i64_lenient(FeedValue::Int(-3)), -3);
    assert_eq!(deserialize_i64_lenient(FeedValue::UInt(1_700_000_000)), 1_700_000_000);
    assert_eq!(deserialize_i64_lenient(FeedValue::UInt(u64::MAX)), i64::MAX);
    assert_eq!(deserialize_i64_lenient(FeedValue::Text), 0);
    assert_eq!(deserialize_i64_lenient(FeedValue::Other), 0);
}

#[test]
fn json_is_cut_out_of_noise() {
    assert_eq!(json_candidate("warning: x\n[1, 2]\nbye"), "[1, 2]");
    assert_eq!(json_candidate("note {\"a\": [1]} end"), "[1]");
    assert_eq!(json_candidate("x {\"a\": 1} y"), "{\"a\": 1}");
    assert_eq!(json_candidate("  hello \n"), "hello");
    assert_eq!(json_candidate("[abc"), "[abc");
    assert_eq!(json_candidate("] ["), "");
    assert_eq!(json_candidate(""), "");
}
