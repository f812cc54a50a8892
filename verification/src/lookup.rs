//! The outside lookups that a plan calls for: the template value and the
//! block reward after a new previous hash, and the share submission times
//! after a block solution.

use vstd::prelude::*;
use crate::hex::spec_encode_hex;
use crate::intercept::{
    spec_intercept_prev_hash, spec_intercept_submit_solution, Plan, PlanView, Sv2Message,
};
use crate::setup::{spec_interceptor_plan, Interceptor};

verus! {

/// How many times the reward of a block is asked for before the lookup
/// gives up.
pub const REWARD_LOOKUP_ATTEMPTS: usize = 24;

/// How long the reward lookup waits after a failed attempt, in seconds.
pub const REWARD_RETRY_SECS: u64 = 5;

/// How far back the template value is read, in seconds before the query.
pub const TEMPLATE_VALUE_AGE_SECS: u64 = 2;

/// The Prometheus server that holds the template value.
pub open spec fn template_value_address() -> Seq<char> {
    "http://10.5.0.9:9090"@
}

/// The metric that holds the value of the last block template.
pub open spec fn template_value_metric() -> Seq<char> {
    "sv2_block_template_value"@
}

/// The metrics page of the translator proxy, where submitted shares are
/// stamped.
pub open spec fn share_page_url() -> Seq<char> {
    "http://10.5.0.17:3456/metrics"@
}

/// One outside lookup.
#[derive(Debug, Clone)]
pub enum Lookup {
    /// Ask the Prometheus server at `address` for the value that `metric`
    /// had `age_secs` seconds before the query.
    MetricAt { address: String, metric: String, age_secs: u64 },
    /// Ask for the reward of the block with hash `hash`, making at most
    /// `attempts` attempts, `retry_secs` seconds apart.
    BlockReward { hash: String, attempts: usize, retry_secs: u64 },
    /// Fetch the metrics page at `url` and read the submission times of the
    /// share with `nonce` from it.
    ShareTimes { url: String, nonce: u32 },
}

/// A lookup, with its texts as character sequences.
pub enum LookupView {
    MetricAt { address: Seq<char>, metric: Seq<char>, age_secs: u64 },
    BlockReward { hash: Seq<char>, attempts: usize, retry_secs: u64 },
    ShareTimes { url: Seq<char>, nonce: u32 },
}

impl View for Lookup {
    type V = LookupView;

    open spec fn view(&self) -> LookupView {
        match self {
            Lookup::MetricAt { address, metric, age_secs } => LookupView::MetricAt {
                address: address@,
                metric: metric@,
                age_secs: *age_secs,
            },
            Lookup::BlockReward { hash, attempts, retry_secs } => LookupView::BlockReward {
                hash: hash@,
                attempts: *attempts,
                retry_secs: *retry_secs,
            },
            Lookup::ShareTimes { url, nonce } => LookupView::ShareTimes { url: url@, nonce: *nonce },
        }
    }
}

/// The lookups that follow the reward of the block with hash `hash`: first
/// the value of the last template, then the reward itself.
pub open spec fn spec_block_lookups(hash: Seq<char>) -> Seq<LookupView> {
    seq![
        LookupView::MetricAt {
            address: template_value_address(),
            metric: template_value_metric(),
            age_secs: TEMPLATE_VALUE_AGE_SECS,
        },
        LookupView::BlockReward {
            hash,
            attempts: REWARD_LOOKUP_ATTEMPTS,
            retry_secs: REWARD_RETRY_SECS,
        },
    ]
}

/// The lookups a plan calls for once its stamped label has expired: for a
/// block hash, the block lookups.
pub open spec fn spec_lookups_after_expiry(p: PlanView) -> Seq<LookupView> {
    match p.block_hash {
        Some(hash) => spec_block_lookups(hash),
        None => Seq::empty(),
    }
}

/// The lookups a plan calls for as soon as the message is received: for a
/// share nonce, the share submission times.
pub open spec fn spec_lookups_now(p: PlanView) -> Seq<LookupView> {
    match p.share_nonce {
        Some(nonce) => seq![LookupView::ShareTimes { url: share_page_url(), nonce }],
        None => Seq::empty(),
    }
}

/// All the lookups a plan calls for, those made after the expiry of its
/// stamp first.
pub open spec fn spec_lookups(p: PlanView) -> Seq<LookupView> {
    spec_lookups_after_expiry(p) + spec_lookups_now(p)
}

/// The lookups that `plan` calls for once its stamped label has expired,
/// in order.
pub fn lookups_after_expiry(plan: &Plan) -> (list: Vec<Lookup>)
    ensures
        list@.map_values(|l: Lookup| l@) == spec_lookups_after_expiry(plan@),
{
    let mut list: Vec<Lookup> = Vec::new();
    match &plan.block_hash {
        Some(hash) => {
            list.push(
                Lookup::MetricAt {
                    address: String::from_str("http://10.5.0.9:9090"),
                    metric: String::from_str("sv2_block_template_value"),
                    age_secs: TEMPLATE_VALUE_AGE_SECS,
                },
            );
            list.push(
                Lookup::BlockReward {
                    hash: hash.clone(),
                    attempts: REWARD_LOOKUP_ATTEMPTS,
                    retry_secs: REWARD_RETRY_SECS,
                },
            );
            assert(list@.map_values(|l: Lookup| l@) =~= spec_lookups_after_expiry(plan@));
        },
        None => {
            assert(list@.map_values(|l: Lookup| l@) =~= spec_lookups_after_expiry(plan@));
        },
    }
    list
}

/// The lookups that `plan` calls for as soon as the message is received.
pub fn lookups_now(plan: &Plan) -> (list: Vec<Lookup>)
    ensures
        list@.map_values(|l: Lookup| l@) == spec_lookups_now(plan@),
{
    let mut list: Vec<Lookup> = Vec::new();
    match plan.share_nonce {
        Some(nonce) => {
            list.push(Lookup::ShareTimes { url: String::from_str("http://10.5.0.17:3456/metrics"), nonce });
        },
        None => {},
    }
    assert(list@.map_values(|l: Lookup| l@) =~= spec_lookups_now(plan@));
    list
}

/// All the lookups that `plan` calls for, in order.
pub fn lookups(plan: &Plan) -> (list: Vec<Lookup>)
    ensures
        list@.map_values(|l: Lookup| l@) == spec_lookups(plan@),
{
    let mut list = lookups_after_expiry(plan);
    let mut now = lookups_now(plan);
    let ghost first = list@;
    let ghost second = now@;
    list.append(&mut now);
    assert(list@ == first + second);
    assert(list@.map_values(|l: Lookup| l@) =~= first.map_values(|l: Lookup| l@) + second.map_values(
        |l: Lookup| l@,
    ));
    list
}

/// After a new previous hash, once its label has expired a second later,
/// the proxy reads the template value from two seconds before, then looks
/// up the reward of the block that the hash names (its bytes reversed, in
/// hex), with up to 24 attempts five seconds apart; it makes no other
/// lookup.
pub proof fn lemma_prev_hash_lookups(m: Sv2Message)
    ensures
        m matches Sv2Message::SetNewPrevHash { prev_hash } ==> spec_intercept_prev_hash(m) matches Some(
            p,
        ) && p.expire_after_secs == Some(1u64) && spec_lookups_after_expiry(p) == seq![
            LookupView::MetricAt {
                address: "http://10.5.0.9:9090"@,
                metric: "sv2_block_template_value"@,
                age_secs: 2,
            },
            LookupView::BlockReward {
                hash: spec_encode_hex(prev_hash@.reverse()),
                attempts: 24,
                retry_secs: 5,
            },
        ] && spec_lookups_now(p) == Seq::<LookupView>::empty(),
{
}

/// After a block solution the proxy at once fetches the translator's
/// metrics page, for the share with the solution's header nonce, and makes
/// no other lookup.
pub proof fn lemma_solution_lookups(header_nonce: u32)
    ensures
        spec_intercept_submit_solution(Sv2Message::SubmitSolution { header_nonce }) matches Some(p)
            && spec_lookups_now(p) == seq![
            LookupView::ShareTimes { url: "http://10.5.0.17:3456/metrics"@, nonce: header_nonce },
        ] && spec_lookups_after_expiry(p) == Seq::<LookupView>::empty(),
{
}

/// Only the prev hash and submit solution interceptors call for lookups.
pub proof fn lemma_other_interceptors_look_nothing_up(i: Interceptor, m: Sv2Message)
    requires
        i != Interceptor::PrevHash,
        i != Interceptor::SubmitSolution,
    ensures
        spec_interceptor_plan(i, m) matches Some(p) ==> spec_lookups(p) == Seq::<LookupView>::empty(),
{
    if let Some(p) = spec_interceptor_plan(i, m) {
        assert(p.block_hash is None && p.share_nonce is None);
        assert(spec_lookups(p) =~= Seq::<LookupView>::empty());
    }
}

} // verus!
