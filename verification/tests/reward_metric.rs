use sv2_custom_proxy::metric::{metric_query_url, metric_value_text, share_timestamp_texts, MetricError};
use sv2_custom_proxy::reward::{
    block_height_from_body, block_reward_from_stats_body, retries_exhausted_message,
    reward_from_stats, Network, RetryStep, RewardError, RewardRetry,
};
use sv2_custom_proxy::text::IntParseError;

#[test]
fn network_names() {
    assert_eq!(Network::from_name(""), Some(Network::Mainnet));
    assert_eq!(Network::from_name("testnet3"), Some(Network::Testnet3));
    assert_eq!(Network::from_name("testnet4"), Some(Network::Testnet4));
    assert_eq!(Network::from_name("signet"), None);
    assert_eq!(Network::from_name("Testnet3"), None);
}

#[test]
fn block_and_stats_urls() {
    assert_eq!(Network::Mainnet.block_url("00ab"), "https://mempool.space/api/block/00ab");
    assert_eq!(
        Network::Testnet3.block_url("00ab"),
        "https://mempool.space/testnet/api/block/00ab"
    );
    assert_eq!(
        Network::Testnet4.block_url("00ab"),
        "https://mempool.space/testnet4/api/block/00ab"
    );
    assert_eq!(
        Network::Mainnet.reward_stats_url(),
        "https://mempool.space/api/v1/mining/reward-stats/1"
    );
    assert_eq!(
        Network::Testnet3.reward_stats_url(),
        "https://mempool.space/testnet/api/v1/mining/reward-stats/1"
    );
    assert_eq!(
        Network::Testnet4.reward_stats_url(),
        "https://mempool.space/testnet4/api/v1/mining/reward-stats/1"
    );
}

#[test]
fn reward_when_stats_cover_the_block() {
    assert_eq!(reward_from_stats(840000, Some(840000), Some(840000), Some("318750000")), Ok(318750000));
}

#[test]
fn reward_errors() {
    assert_eq!(reward_from_stats(5, None, Some(5), Some("1")), Err(RewardError::MissingStartBlock));
    assert_eq!(reward_from_stats(5, Some(5), None, Some("1")), Err(RewardError::MissingEndBlock));
    assert_eq!(reward_from_stats(5, Some(5), Some(5), None), Err(RewardError::MissingTotalReward));
    assert_eq!(reward_from_stats(5, Some(4), Some(5), Some("1")), Err(RewardError::HeightMismatch));
    assert_eq!(reward_from_stats(5, Some(6), Some(6), Some("1")), Err(RewardError::HeightMismatch));
    assert_eq!(reward_from_stats(6, Some(5), Some(5), None), Err(RewardError::HeightMismatch));
    assert_eq!(
        reward_from_stats(5, Some(5), Some(5), Some("x")),
        Err(RewardError::InvalidTotalReward(IntParseError::InvalidDigit))
    );
}

#[test]
fn block_height_from_json() {
    assert_eq!(block_height_from_body(r#"{"id":"00","height":840000}"#), Ok(840000));
    assert_eq!(block_height_from_body(r#"{"height":"840000"}"#), Err(RewardError::MissingHeight));
    assert_eq!(block_height_from_body(r#"{"height":-1}"#), Err(RewardError::MissingHeight));
    assert_eq!(block_height_from_body("[]"), Err(RewardError::MissingHeight));
    assert!(matches!(block_height_from_body("not json"), Err(RewardError::Json(_))));
}

#[test]
fn block_reward_from_stats_json() {
    let body = r#"{"startBlock":840000,"endBlock":840000,"totalReward":"318750000","totalFee":"0"}"#;
    assert_eq!(block_reward_from_stats_body(840000, body), Ok(318750000));
    assert_eq!(block_reward_from_stats_body(839999, body), Err(RewardError::HeightMismatch));
    let no_total = r#"{"startBlock":1,"endBlock":1,"totalReward":318750000}"#;
    assert_eq!(block_reward_from_stats_body(1, no_total), Err(RewardError::MissingTotalReward));
    assert!(matches!(block_reward_from_stats_body(1, "{"), Err(RewardError::Json(_))));
}

#[test]
fn reward_error_messages() {
    assert_eq!(RewardError::InvalidNetwork.message(), "Invalid NETWORK environment variable");
    assert_eq!(RewardError::MissingHeight.message(), "Failed to parse height from response");
    assert_eq!(RewardError::HeightMismatch.message(), "Block height mismatch");
    assert_eq!(
        RewardError::InvalidTotalReward(IntParseError::Empty).message(),
        "".parse::<u64>().unwrap_err().to_string()
    );
    assert_eq!(
        RewardError::InvalidTotalReward(IntParseError::InvalidDigit).message(),
        "x".parse::<u64>().unwrap_err().to_string()
    );
    assert_eq!(
        RewardError::InvalidTotalReward(IntParseError::PosOverflow).message(),
        "99999999999999999999".parse::<u64>().unwrap_err().to_string()
    );
    assert_eq!(RewardError::Http("boom".to_string()).message(), "boom");
    assert_eq!(retries_exhausted_message(), "Failed to fetch block reward after multiple attempts");
}

#[test]
fn retry_gives_up_after_all_attempts_fail() {
    let mut r = RewardRetry::new(3);
    let mut fetches = 0;
    loop {
        match r.next_step() {
            RetryStep::Fetch => {
                fetches += 1;
                assert_eq!(r.record(&Err(RewardError::MissingHeight)), RetryStep::Sleep);
            }
            RetryStep::GiveUp => break,
            other => panic!("unexpected {other:?}"),
        }
    }
    assert_eq!(fetches, 3);
}

#[test]
fn retry_delivers_first_reward() {
    let mut r = RewardRetry::new(24);
    assert_eq!(r.next_step(), RetryStep::Fetch);
    assert_eq!(r.record(&Err(RewardError::HeightMismatch)), RetryStep::Sleep);
    assert_eq!(r.next_step(), RetryStep::Fetch);
    assert_eq!(r.record(&Ok(625000000)), RetryStep::Delivered(625000000));
    assert_eq!(r.attempt, 1);
    assert_eq!(RewardRetry::new(0).next_step(), RetryStep::GiveUp);
}

#[test]
fn metric_query_url_layout() {
    assert_eq!(
        metric_query_url("http://10.5.0.9:9090", "sv2_block_template_value", "1700000000"),
        "http://10.5.0.9:9090/api/v1/query?query=sv2_block_template_value &time=1700000000"
    );
}

#[test]
fn metric_value_from_query_reply() {
    let body = r#"{"status":"success","data":{"resultType":"vector","result":[{"metric":{},"value":[1700000000.5,"312500000"]}]}}"#;
    assert_eq!(metric_value_text(body), Ok("312500000".to_string()));
    let empty = r#"{"status":"success","data":{"resultType":"vector","result":[]}}"#;
    assert_eq!(metric_value_text(empty), Err(MetricError::MissingValue));
    let short = r#"{"data":{"result":[{"value":[1]}]}}"#;
    assert_eq!(metric_value_text(short), Err(MetricError::MissingValue));
    let number = r#"{"data":{"result":[{"value":[1, 2]}]}}"#;
    assert_eq!(metric_value_text(number), Err(MetricError::MissingValue));
    assert!(matches!(metric_value_text("oops"), Err(MetricError::Json(_))));
}

#[test]
fn metric_error_messages() {
    assert_eq!(MetricError::MissingValue.message(), "Failed to parse metric value");
    assert_eq!(MetricError::Json("bad".to_string()).message(), "Error parsing JSON: bad");
}

#[test]
fn share_timestamps_for_nonce() {
    let body = "# HELP share_submission_timestamp Timestamp of the submitted share\n\
                # TYPE share_submission_timestamp gauge\n\
                share_submission_timestamp{nonce=\"123\"} 1700000000123\r\n\
                share_submission_timestamp{nonce=\"456\"} 1700000000456\n\
                other_metric{nonce=\"123\"} 5\n\
                share_submission_timestamp{nonce=\"1234\"}\t1700000000999";
    assert_eq!(
        share_timestamp_texts(body, 123),
        vec!["1700000000123".to_string(), "1700000000999".to_string()]
    );
    assert_eq!(share_timestamp_texts(body, 456), vec!["1700000000456".to_string()]);
    assert_eq!(share_timestamp_texts(body, 8), Vec::<String>::new());
    // the nonce is looked for anywhere in the line, the value included
    assert_eq!(share_timestamp_texts(body, 7).len(), 3);
    assert_eq!(share_timestamp_texts("share_submission_timestamp{nonce=\"9\"}", 9), Vec::<String>::new());
    assert_eq!(share_timestamp_texts("", 9), Vec::<String>::new());
}

#[test]
fn json_members_are_found_by_key() {
    // a repeated key keeps its last value, as serde_json's map does
    assert_eq!(block_height_from_body(r#"{"height":1,"height":2}"#), Ok(2));
    assert_eq!(block_height_from_body(r#"{"a":{"height":3},"height":4}"#), Ok(4));
    assert_eq!(block_height_from_body(r#"{"height":18446744073709551615}"#), Ok(u64::MAX));
    assert_eq!(block_height_from_body(r#"{"height":1.0}"#), Err(RewardError::MissingHeight));
    assert_eq!(block_height_from_body(r#"  {"height":7}  "#), Ok(7));
    assert!(matches!(block_height_from_body(r#"{"height":7} x"#), Err(RewardError::Json(_))));
}

/// The scan that the solution interceptor makes of a metrics page, written
/// with std's own text functions.
fn scan_with_std(body: &str, nonce: u32) -> Vec<String> {
    let mut found = Vec::new();
    for line in body.lines() {
        if line.starts_with("share_submission_timestamp{nonce=\"") && line.contains(&nonce.to_string()) {
            let parts: Vec<&str> = line.split_whitespace().collect();
            if let Some(t) = parts.get(1) {
                found.push(t.to_string());
            }
        }
    }
    found
}

#[test]
fn share_scan_agrees_with_std_text_functions() {
    let bodies = [
        "",
        "\n",
        "share_submission_timestamp{nonce=\"5\"} 1\r\nshare_submission_timestamp{nonce=\"5\"} 2\r",
        "share_submission_timestamp{nonce=\"50\"}\n share_submission_timestamp{nonce=\"5\"} 3\n",
        "share_submission_timestamp{nonce=\"5\"}   4   extra\n\n\nshare_submission_timestamp{nonce=\"5\"}",
        "share_submission_timestamp{nonce=\"4294967295\"} 1.7e12\nshare_submission_timestamp{nonce=\"5\"}\u{a0}6",
    ];
    for body in bodies {
        for nonce in [5u32, 50, 4294967295, 1, 0] {
            assert_eq!(share_timestamp_texts(body, nonce), scan_with_std(body, nonce), "{body:?} {nonce}");
        }
    }
}
