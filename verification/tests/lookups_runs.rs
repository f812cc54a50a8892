use sv2_custom_proxy::intercept::{
    intercept_new_template, intercept_prev_hash, intercept_submit_share_extended,
    intercept_submit_solution, Sv2Message,
};
use sv2_custom_proxy::json::Json;
use sv2_custom_proxy::lookup::{
    lookups, Lookup, REWARD_LOOKUP_ATTEMPTS, REWARD_RETRY_SECS, TEMPLATE_VALUE_AGE_SECS,
};
use sv2_custom_proxy::metric::metric_sample;
use sv2_custom_proxy::reward::{block_height, block_reward, RewardError};
use sv2_custom_proxy::setup::{Interceptor, ProxyType};
use sv2_custom_proxy::text::{str_eq, IntParseError};

fn object(members: Vec<(&str, Json)>) -> Json {
    Json::Object(members.into_iter().map(|(k, v)| (k.to_string(), v)).collect())
}

#[test]
fn prev_hash_lookups_in_order() {
    let mut prev_hash = vec![0u8; 32];
    prev_hash[0] = 0xab;
    prev_hash[31] = 0x01;
    let plan = intercept_prev_hash(&Sv2Message::SetNewPrevHash { prev_hash }).unwrap();
    let list = lookups(&plan);
    assert_eq!(list.len(), 2);
    match &list[0] {
        Lookup::MetricAt { address, metric, age_secs } => {
            assert_eq!(address, "http://10.5.0.9:9090");
            assert_eq!(metric, "sv2_block_template_value");
            assert_eq!(*age_secs, 2);
        }
        other => panic!("unexpected first lookup {:?}", other),
    }
    match &list[1] {
        Lookup::BlockReward { hash, attempts, retry_secs } => {
            assert_eq!(hash, plan.block_hash.as_ref().unwrap());
            assert!(hash.starts_with("01") && hash.ends_with("ab"));
            assert_eq!(*attempts, 24);
            assert_eq!(*retry_secs, 5);
        }
        other => panic!("unexpected second lookup {:?}", other),
    }
}

#[test]
fn lookup_constants() {
    assert_eq!(REWARD_LOOKUP_ATTEMPTS, 24);
    assert_eq!(REWARD_RETRY_SECS, 5);
    assert_eq!(TEMPLATE_VALUE_AGE_SECS, 2);
}

#[test]
fn solution_looks_up_the_share_page() {
    let plan = intercept_submit_solution(&Sv2Message::SubmitSolution { header_nonce: 3735928559 })
        .unwrap();
    let list = lookups(&plan);
    assert_eq!(list.len(), 1);
    match &list[0] {
        Lookup::ShareTimes { url, nonce } => {
            assert_eq!(url, "http://10.5.0.17:3456/metrics");
            assert_eq!(*nonce, 3735928559);
        }
        other => panic!("unexpected lookup {:?}", other),
    }
}

#[test]
fn other_plans_look_nothing_up() {
    let template = intercept_new_template(&Sv2Message::NewTemplate {
        template_id: 7,
        coinbase_tx_value_remaining: 1,
    })
    .unwrap();
    assert!(lookups(&template).is_empty());
    let share = intercept_submit_share_extended(&Sv2Message::SubmitSharesExtended { nonce: 9 })
        .unwrap();
    assert!(lookups(&share).is_empty());
}

#[test]
fn one_count_per_message_over_a_run() {
    let cases = [
        (Interceptor::SubmitShareError, Sv2Message::SubmitSharesError),
        (Interceptor::DeclareMiningJobError, Sv2Message::DeclareMiningJobError),
        (
            Interceptor::ProvideMissingTransactionsSuccess,
            Sv2Message::ProvideMissingTransactionsSuccess,
        ),
    ];
    for (interceptor, message) in cases {
        let received = vec![message.clone(); 5];
        let mut counted = 0;
        for m in &received {
            let plan = interceptor.plan(m).unwrap();
            assert!(plan.stamp.is_none() && plan.probe.is_none() && plan.gauge_value.is_none());
            assert!(lookups(&plan).is_empty());
            if plan.count {
                counted += 1;
            }
        }
        assert_eq!(counted, 5);
        assert!(interceptor.plan(&Sv2Message::Reconnect).is_none());
        assert!(interceptor.plan(&Sv2Message::Other).is_none());
    }
}

#[test]
fn counting_interceptors_are_installed_once() {
    let list = ProxyType::TpJdc.interceptors();
    assert_eq!(list.iter().filter(|i| **i == Interceptor::DeclareMiningJobError).count(), 1);
    assert_eq!(
        list.iter().filter(|i| **i == Interceptor::ProvideMissingTransactionsSuccess).count(),
        1
    );
    let list = ProxyType::PoolTranslator.interceptors();
    assert_eq!(list.iter().filter(|i| **i == Interceptor::SubmitShareError).count(), 1);
}

#[test]
fn height_of_parsed_block_reply() {
    let reply = object(vec![("id", Json::Str("00ab".to_string())), ("height", Json::Number(Some(840000)))]);
    assert_eq!(block_height(&reply), Ok(840000));
    let reply = object(vec![("height", Json::Str("840000".to_string()))]);
    assert_eq!(block_height(&reply), Err(RewardError::MissingHeight));
    assert_eq!(block_height(&Json::Null), Err(RewardError::MissingHeight));
}

#[test]
fn reward_of_parsed_stats_reply() {
    let reply = object(vec![
        ("startBlock", Json::Number(Some(840000))),
        ("endBlock", Json::Number(Some(840000))),
        ("totalReward", Json::Str("318750000".to_string())),
    ]);
    assert_eq!(block_reward(840000, &reply), Ok(318750000));
    assert_eq!(block_reward(840001, &reply), Err(RewardError::HeightMismatch));
    let reply = object(vec![
        ("startBlock", Json::Number(Some(5))),
        ("endBlock", Json::Number(Some(5))),
        ("totalReward", Json::Str("-1".to_string())),
    ]);
    assert_eq!(
        block_reward(5, &reply),
        Err(RewardError::InvalidTotalReward(IntParseError::InvalidDigit))
    );
    let reply = object(vec![("endBlock", Json::Number(Some(5)))]);
    assert_eq!(block_reward(5, &reply), Err(RewardError::MissingStartBlock));
}

#[test]
fn sample_of_parsed_query_reply() {
    let sample = Json::Array(vec![Json::Number(None), Json::Str("625000000".to_string())]);
    let result = object(vec![("value", sample)]);
    let reply = object(vec![(
        "data",
        object(vec![("result", Json::Array(vec![result]))]),
    )]);
    assert_eq!(metric_sample(&reply), Some("625000000".to_string()));
    let empty = object(vec![("data", object(vec![("result", Json::Array(vec![]))]))]);
    assert_eq!(metric_sample(&empty), None);
    assert_eq!(metric_sample(&Json::Null), None);
}

#[test]
fn string_equality() {
    assert!(str_eq("tp-jdc", "tp-jdc"));
    assert!(str_eq("", ""));
    assert!(!str_eq("tp-jdc", "tp-jd"));
    assert!(!str_eq("abc", "abd"));
}

use sv2_custom_proxy::lookup::{lookups_after_expiry, lookups_now};
use sv2_custom_proxy::reward::{
    block_height_from_body, lookup_step, start_reward_lookup, LookupAction, LookupEvent,
    Network, RetryStep, RewardLookup, RewardRetry,
};

#[test]
fn invalid_network_makes_no_request() {
    match start_reward_lookup("signet", "00ab") {
        LookupAction::Finish(Err(RewardError::InvalidNetwork)) => {}
        other => panic!("unexpected action {:?}", other),
    }
}

#[test]
fn attempt_asks_for_the_block_first() {
    match start_reward_lookup("testnet4", "00ab") {
        LookupAction::Get { url, next } => {
            assert_eq!(url, "https://mempool.space/testnet4/api/block/00ab");
            assert_eq!(next, RewardLookup::AwaitBlock { network: Network::Testnet4 });
        }
        other => panic!("unexpected action {:?}", other),
    }
}

#[test]
fn statistics_follow_a_block_reply_with_a_height() {
    let state = RewardLookup::AwaitBlock { network: Network::Mainnet };
    match lookup_step(state, LookupEvent::Reply("{\"id\":\"00ab\",\"height\":840000}".to_string())) {
        LookupAction::Get { url, next } => {
            assert_eq!(url, "https://mempool.space/api/v1/mining/reward-stats/1");
            assert_eq!(next, RewardLookup::AwaitStats { network: Network::Mainnet, height: 840000 });
        }
        other => panic!("unexpected action {:?}", other),
    }
}

#[test]
fn block_reply_without_height_ends_the_attempt() {
    let state = RewardLookup::AwaitBlock { network: Network::Mainnet };
    match lookup_step(state, LookupEvent::Reply("{\"height\":\"100\"}".to_string())) {
        LookupAction::Finish(Err(RewardError::MissingHeight)) => {}
        other => panic!("unexpected action {:?}", other),
    }
}

#[test]
fn unparsable_reply_gives_the_parser_message() {
    let body = "not json";
    let expected = serde_json::from_str::<serde_json::Value>(body).unwrap_err().to_string();
    let state = RewardLookup::AwaitBlock { network: Network::Mainnet };
    match lookup_step(state, LookupEvent::Reply(body.to_string())) {
        LookupAction::Finish(Err(RewardError::Json(m))) => assert_eq!(m, expected),
        other => panic!("unexpected action {:?}", other),
    }
    assert_eq!(block_height_from_body(body), Err(RewardError::Json(expected.clone())));
    let state = RewardLookup::AwaitStats { network: Network::Mainnet, height: 1 };
    match lookup_step(state, LookupEvent::Reply(body.to_string())) {
        LookupAction::Finish(Err(RewardError::Json(m))) => assert_eq!(m, expected),
        other => panic!("unexpected action {:?}", other),
    }
}

#[test]
fn failed_request_ends_the_attempt() {
    let state = RewardLookup::AwaitStats { network: Network::Testnet3, height: 7 };
    match lookup_step(state, LookupEvent::Failed("connection refused".to_string())) {
        LookupAction::Finish(Err(RewardError::Http(m))) => assert_eq!(m, "connection refused"),
        other => panic!("unexpected action {:?}", other),
    }
}

#[test]
fn statistics_reply_gives_the_reward() {
    let state = RewardLookup::AwaitStats { network: Network::Mainnet, height: 840000 };
    let body = "{\"startBlock\":840000,\"endBlock\":840000,\"totalReward\":\"318750000\"}";
    match lookup_step(state, LookupEvent::Reply(body.to_string())) {
        LookupAction::Finish(Ok(reward)) => assert_eq!(reward, 318750000),
        other => panic!("unexpected action {:?}", other),
    }
}

#[test]
fn lookups_split_by_when_they_are_made() {
    let plan = intercept_prev_hash(&Sv2Message::SetNewPrevHash { prev_hash: vec![1u8; 32] }).unwrap();
    assert_eq!(lookups_after_expiry(&plan).len(), 2);
    assert!(lookups_now(&plan).is_empty());
    let plan = intercept_submit_solution(&Sv2Message::SubmitSolution { header_nonce: 5 }).unwrap();
    assert!(lookups_after_expiry(&plan).is_empty());
    assert_eq!(lookups_now(&plan).len(), 1);
}

#[test]
fn all_failed_attempts_number_the_retries() {
    let mut retry = RewardRetry::new(REWARD_LOOKUP_ATTEMPTS);
    let mut made = 0;
    while retry.next_step() == RetryStep::Fetch {
        made += 1;
        assert_eq!(retry.record(&Err(RewardError::Http("down".to_string()))), RetryStep::Sleep);
    }
    assert_eq!(made, 24);
    assert_eq!(retry.next_step(), RetryStep::GiveUp);
}

#[test]
fn first_success_is_delivered() {
    let mut retry = RewardRetry::new(REWARD_LOOKUP_ATTEMPTS);
    let mut made = 0;
    let mut last = RetryStep::Fetch;
    while retry.next_step() == RetryStep::Fetch {
        made += 1;
        let outcome = if made == 3 { Ok(625000000) } else { Err(RewardError::Http("down".to_string())) };
        last = retry.record(&outcome);
        if last != RetryStep::Sleep {
            break;
        }
    }
    assert_eq!(made, 3);
    assert_eq!(last, RetryStep::Delivered(625000000));
}
