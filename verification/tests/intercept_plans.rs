use sv2_custom_proxy::intercept::{
    intercept_allocate_mining_job_token, intercept_allocate_mining_job_token_success,
    intercept_close_channel, intercept_declare_mining_job, intercept_declare_mining_job_error,
    intercept_declare_mining_job_success, intercept_new_extended_mining_job,
    intercept_new_mining_job, intercept_new_template, intercept_open_channel_success,
    intercept_prev_hash, intercept_provide_missing_transactions_success, intercept_reconnect,
    intercept_set_target, intercept_setup_connection_error, intercept_submit_share_error,
    intercept_submit_share_extended, intercept_submit_share_success,
    intercept_submit_shares_standard, intercept_submit_solution, intercept_update_channel,
    le_u32_prefix, settle_prev_hash, Plan, Sv2Message,
};
use sv2_custom_proxy::setup::Interceptor;

fn counted(p: &Plan) -> bool {
    p.count && p.stamp.is_none() && p.probe.is_none() && p.gauge_value.is_none()
        && p.block_hash.is_none() && p.share_nonce.is_none() && p.expire_after_secs.is_none()
}

#[test]
fn prev_hash_plan() {
    let mut prev_hash = vec![0u8; 32];
    prev_hash[0] = 0xab;
    prev_hash[31] = 0x01;
    let p = intercept_prev_hash(&Sv2Message::SetNewPrevHash { prev_hash }).unwrap();
    assert!(!p.count);
    let label = p.stamp.unwrap();
    assert!(label.starts_with("ab") && label.ends_with("01") && label.len() == 64);
    let block = p.block_hash.unwrap();
    assert!(block.starts_with("01") && block.ends_with("ab"));
    assert_eq!(p.expire_after_secs, Some(1));
    assert!(intercept_prev_hash(&Sv2Message::Other).is_none());
}

#[test]
fn new_template_plan() {
    let p = intercept_new_template(&Sv2Message::NewTemplate {
        template_id: 42,
        coinbase_tx_value_remaining: 625000000,
    })
    .unwrap();
    assert!(!p.count);
    assert_eq!(p.stamp.as_deref(), Some("42"));
    assert_eq!(p.expire_after_secs, Some(1));
    assert_eq!(p.gauge_value, Some(625000000));
    assert!(intercept_new_template(&Sv2Message::Reconnect).is_none());
}

#[test]
fn share_plans() {
    let p = intercept_submit_share_extended(&Sv2Message::SubmitSharesExtended { nonce: 3735928559 }).unwrap();
    assert!(p.count);
    assert_eq!(p.stamp.as_deref(), Some("3735928559"));
    assert_eq!(p.expire_after_secs, Some(10));
    assert!(counted(&intercept_submit_share_success(&Sv2Message::SubmitSharesSuccess).unwrap()));
    assert!(counted(&intercept_submit_share_error(&Sv2Message::SubmitSharesError).unwrap()));
    assert!(counted(&intercept_submit_shares_standard(&Sv2Message::SubmitSharesStandard).unwrap()));
    assert!(intercept_submit_share_success(&Sv2Message::SubmitSharesError).is_none());
}

#[test]
fn solution_plan() {
    let p = intercept_submit_solution(&Sv2Message::SubmitSolution { header_nonce: 77 }).unwrap();
    assert!(!p.count);
    assert_eq!(p.share_nonce, Some(77));
    assert!(intercept_submit_solution(&Sv2Message::Other).is_none());
}

#[test]
fn job_token_plans() {
    let p = intercept_allocate_mining_job_token(&Sv2Message::AllocateMiningJobToken {
        user_identifier: b"worker.1".to_vec(),
    })
    .unwrap();
    assert!(p.count);
    assert_eq!(p.stamp.as_deref(), Some("worker.1"));
    assert_eq!(p.expire_after_secs, Some(10));
    let p = intercept_allocate_mining_job_token_success(&Sv2Message::AllocateMiningJobTokenSuccess {
        mining_job_token: vec![0x01, 0xfe],
    })
    .unwrap();
    assert!(p.count);
    assert_eq!(p.probe.as_deref(), Some("01fe"));
    assert!(p.stamp.is_none());
}

#[test]
fn declare_job_plans() {
    let p = intercept_declare_mining_job(&Sv2Message::DeclareMiningJob { request_id: 9 }).unwrap();
    assert_eq!(p.stamp.as_deref(), Some("9"));
    assert_eq!(p.expire_after_secs, Some(10));
    let p = intercept_declare_mining_job_success(&Sv2Message::DeclareMiningJobSuccess { request_id: 9 }).unwrap();
    assert!(p.count);
    assert_eq!(p.probe.as_deref(), Some("9"));
    assert!(counted(&intercept_declare_mining_job_error(&Sv2Message::DeclareMiningJobError).unwrap()));
    assert!(counted(
        &intercept_provide_missing_transactions_success(&Sv2Message::ProvideMissingTransactionsSuccess)
            .unwrap()
    ));
}

#[test]
fn mining_job_plans() {
    let p = intercept_new_mining_job(&Sv2Message::NewMiningJob { job_id: 5 }).unwrap();
    assert_eq!(p.stamp.as_deref(), Some("5"));
    assert_eq!(p.expire_after_secs, Some(5));
    let p = intercept_new_extended_mining_job(&Sv2Message::NewExtendedMiningJob { job_id: 6 }).unwrap();
    assert_eq!(p.stamp.as_deref(), Some("6"));
    assert!(intercept_new_mining_job(&Sv2Message::NewExtendedMiningJob { job_id: 6 }).is_none());
}

#[test]
fn open_channel_plan_goes_on_for_other_messages() {
    let p = intercept_open_channel_success(&Sv2Message::OpenStandardMiningChannelSuccess { channel_id: 1 }).unwrap();
    assert!(p.count);
    assert_eq!(p.stamp.as_deref(), Some("1"));
    assert_eq!(p.expire_after_secs, None);
    let p = intercept_open_channel_success(&Sv2Message::OpenExtendedMiningChannelSuccess { channel_id: 2 }).unwrap();
    assert_eq!(p.stamp.as_deref(), Some("2"));
    let p = intercept_open_channel_success(&Sv2Message::Other).unwrap();
    assert!(!p.count && p.stamp.is_none());
}

#[test]
fn channel_and_connection_plans() {
    assert!(counted(&intercept_close_channel(&Sv2Message::CloseChannel).unwrap()));
    assert!(counted(&intercept_update_channel(&Sv2Message::UpdateChannel).unwrap()));
    assert!(counted(&intercept_setup_connection_error(&Sv2Message::SetupConnectionError).unwrap()));
    assert!(counted(&intercept_reconnect(&Sv2Message::Reconnect).unwrap()));
    assert!(intercept_reconnect(&Sv2Message::Other).is_none());
}

#[test]
fn set_target_plan_reads_little_endian_prefix() {
    let mut target = vec![0u8; 32];
    target[0] = 0x78;
    target[1] = 0x56;
    target[2] = 0x34;
    target[3] = 0x12;
    target[4] = 0xff;
    let p = intercept_set_target(&Sv2Message::SetTarget { maximum_target: target }).unwrap();
    assert!(p.count);
    assert_eq!(p.gauge_value, Some(0x12345678));
    assert_eq!(le_u32_prefix(&[0xff, 0xff, 0xff, 0xff]), u32::MAX);
}

#[test]
fn interceptor_dispatch() {
    let m = Sv2Message::NewMiningJob { job_id: 11 };
    assert_eq!(Interceptor::NewMiningJob.plan(&m).unwrap().stamp.as_deref(), Some("11"));
    assert!(Interceptor::NewExtendedMiningJob.plan(&m).is_none());
    assert!(Interceptor::OpenExtendedChannelSuccess.plan(&m).is_some());
}

#[test]
fn prev_hash_values_are_settled_on_the_reward() {
    let v = settle_prev_hash(Some(5), Some(7u8));
    assert_eq!((v.mined_block_value, v.template_value, v.template_value_missing), (Some(5), Some(7), false));
    let v = settle_prev_hash(Some(5), None::<u8>);
    assert_eq!((v.mined_block_value, v.template_value, v.template_value_missing), (Some(5), None, true));
    let v = settle_prev_hash(None, Some(7u8));
    assert_eq!((v.mined_block_value, v.template_value, v.template_value_missing), (None, None, false));
}
