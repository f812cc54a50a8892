//! What the proxy does with each message that an interceptor receives: the
//! metric it counts, the label it stamps with the current time and for how
//! long, the values it records, and when its receive loop ends.

use vstd::prelude::*;
use crate::hex::{encode_hex, reverse_hash, spec_encode_hex, lemma_reverse_hash_of_encoded};
use crate::metric::{lemma_share_sample_found, share_line_prefix, spec_share_fields};
use crate::text::{
    decimal_string, is_whitespace, spec_decimal, spec_lines, spec_utf8_lossy, utf8_lossy,
};

verus! {

/// What an interceptor reads of a received message.
#[derive(Debug, Clone)]
pub enum Sv2Message {
    SetNewPrevHash { prev_hash: Vec<u8> },
    NewTemplate { template_id: u64, coinbase_tx_value_remaining: u64 },
    SubmitSharesExtended { nonce: u32 },
    SubmitSharesSuccess,
    SubmitSharesError,
    SubmitSolution { header_nonce: u32 },
    AllocateMiningJobToken { user_identifier: Vec<u8> },
    AllocateMiningJobTokenSuccess { mining_job_token: Vec<u8> },
    DeclareMiningJob { request_id: u32 },
    DeclareMiningJobSuccess { request_id: u32 },
    DeclareMiningJobError,
    ProvideMissingTransactionsSuccess,
    NewMiningJob { job_id: u32 },
    NewExtendedMiningJob { job_id: u32 },
    SubmitSharesStandard,
    OpenStandardMiningChannelSuccess { channel_id: u32 },
    OpenExtendedMiningChannelSuccess { channel_id: u32 },
    CloseChannel,
    UpdateChannel,
    SetTarget { maximum_target: Vec<u8> },
    SetupConnectionError,
    Reconnect,
    /// Any other message, or a closed channel.
    Other,
}

/// The metric updates for one received message.
#[derive(Debug, Clone)]
pub struct Plan {
    /// Increment the interceptor's counter.
    pub count: bool,
    /// Set the interceptor's timestamp gauge at this label to the current
    /// time in milliseconds.
    pub stamp: Option<String>,
    /// Remove the stamped label again after this many seconds.
    pub expire_after_secs: Option<u64>,
    /// Read the interceptor's latency gauge at this label (the request
    /// time), creating the label when it is missing.
    pub probe: Option<String>,
    /// Set the interceptor's value gauge to this number.
    pub gauge_value: Option<u64>,
    /// Look up the reward of the block with this hash.
    pub block_hash: Option<String>,
    /// Look for the submission time of the share with this nonce.
    pub share_nonce: Option<u32>,
}

/// A plan, with its texts as character sequences.
pub struct PlanView {
    pub count: bool,
    pub stamp: Option<Seq<char>>,
    pub expire_after_secs: Option<u64>,
    pub probe: Option<Seq<char>>,
    pub gauge_value: Option<u64>,
    pub block_hash: Option<Seq<char>>,
    pub share_nonce: Option<u32>,
}

pub open spec fn opt_text(s: Option<String>) -> Option<Seq<char>> {
    match s {
        Some(t) => Some(t@),
        None => None,
    }
}

impl View for Plan {
    type V = PlanView;

    open spec fn view(&self) -> PlanView {
        PlanView {
            count: self.count,
            stamp: opt_text(self.stamp),
            expire_after_secs: self.expire_after_secs,
            probe: opt_text(self.probe),
            gauge_value: self.gauge_value,
            block_hash: opt_text(self.block_hash),
            share_nonce: self.share_nonce,
        }
    }
}

/// The view of an optional plan.
pub open spec fn opt_plan(p: Option<Plan>) -> Option<PlanView> {
    match p {
        Some(plan) => Some(plan@),
        None => None,
    }
}

/// A plan that only counts the message.
pub open spec fn count_only() -> PlanView {
    PlanView {
        count: true,
        stamp: None,
        expire_after_secs: None,
        probe: None,
        gauge_value: None,
        block_hash: None,
        share_nonce: None,
    }
}

/// A plan that counts the message and stamps `label`, to be removed after
/// `secs` seconds when that is given.
pub open spec fn count_and_stamp(label: Seq<char>, secs: Option<u64>) -> PlanView {
    PlanView { stamp: Some(label), expire_after_secs: secs, ..count_only() }
}

fn plan_count_only() -> (p: Plan)
    ensures
        p@ == count_only(),
{
    Plan {
        count: true,
        stamp: None,
        expire_after_secs: None,
        probe: None,
        gauge_value: None,
        block_hash: None,
        share_nonce: None,
    }
}

fn plan_count_and_stamp(label: String, secs: Option<u64>) -> (p: Plan)
    ensures
        p@ == count_and_stamp(label@, secs),
{
    Plan {
        count: true,
        stamp: Some(label),
        expire_after_secs: secs,
        probe: None,
        gauge_value: None,
        block_hash: None,
        share_nonce: None,
    }
}


/// The little-endian `u32` in the first four bytes of `bytes`.
pub open spec fn spec_le_u32(bytes: Seq<u8>) -> u32 {
    (bytes[0] + bytes[1] * 256 + bytes[2] * 65536 + bytes[3] * 16777216) as u32
}

/// Reads the little-endian `u32` in the first four bytes of `bytes`.
pub fn le_u32_prefix(bytes: &[u8]) -> (v: u32)
    requires
        bytes@.len() >= 4,
    ensures
        v == spec_le_u32(bytes@),
        v as int == bytes@[0] + bytes@[1] * 256 + bytes@[2] * 65536 + bytes@[3] * 16777216,
{
    bytes[0] as u32 + bytes[1] as u32 * 256 + bytes[2] as u32 * 65536 + bytes[3] as u32 * 16777216
}

/// A new previous hash: stamp its hex text for one second, and look up the
/// reward of the block it names (the hash in display order, bytes reversed).
pub open spec fn spec_intercept_prev_hash(m: Sv2Message) -> Option<PlanView> {
    match m {
        Sv2Message::SetNewPrevHash { prev_hash } => Some(
            PlanView {
                count: false,
                stamp: Some(spec_encode_hex(prev_hash@)),
                expire_after_secs: Some(1),
                probe: None,
                gauge_value: None,
                block_hash: Some(spec_encode_hex(prev_hash@.reverse())),
                share_nonce: None,
            },
        ),
        _ => None,
    }
}

/// What the prev hash interceptor does with `message`; `None` ends its
/// receive loop.
pub fn intercept_prev_hash(message: &Sv2Message) -> (plan: Option<Plan>)
    ensures
        opt_plan(plan) == spec_intercept_prev_hash(*message),
{
    match message {
        Sv2Message::SetNewPrevHash { prev_hash } => {
            let label = encode_hex(prev_hash.as_slice());
            proof {
                lemma_reverse_hash_of_encoded(prev_hash@);
            }
            let block = reverse_hash(label.as_str());
            Some(
                Plan {
                    count: false,
                    stamp: Some(label),
                    expire_after_secs: Some(1),
                    probe: None,
                    gauge_value: None,
                    block_hash: Some(block),
                    share_nonce: None,
                },
            )
        },
        _ => None,
    }
}

/// A new template: stamp its id for one second and record the coinbase
/// value left in it.
pub open spec fn spec_intercept_new_template(m: Sv2Message) -> Option<PlanView> {
    match m {
        Sv2Message::NewTemplate { template_id, coinbase_tx_value_remaining } => Some(
            PlanView {
                count: false,
                stamp: Some(spec_decimal(template_id as nat)),
                expire_after_secs: Some(1),
                probe: None,
                gauge_value: Some(coinbase_tx_value_remaining),
                block_hash: None,
                share_nonce: None,
            },
        ),
        _ => None,
    }
}

/// What the new template interceptor does with `message`; `None` ends its
/// receive loop.
pub fn intercept_new_template(message: &Sv2Message) -> (plan: Option<Plan>)
    ensures
        opt_plan(plan) == spec_intercept_new_template(*message),
{
    match message {
        Sv2Message::NewTemplate { template_id, coinbase_tx_value_remaining } => Some(
            Plan {
                count: false,
                stamp: Some(decimal_string(*template_id)),
                expire_after_secs: Some(1),
                probe: None,
                gauge_value: Some(*coinbase_tx_value_remaining),
                block_hash: None,
                share_nonce: None,
            },
        ),
        _ => None,
    }
}

/// A submitted extended share: count it and stamp its nonce for ten seconds.
pub open spec fn spec_intercept_submit_share_extended(m: Sv2Message) -> Option<PlanView> {
    match m {
        Sv2Message::SubmitSharesExtended { nonce } => Some(
            count_and_stamp(spec_decimal(nonce as nat), Some(10)),
        ),
        _ => None,
    }
}

/// What the submit share extended interceptor does with `message`; `None` ends its
/// receive loop.
pub fn intercept_submit_share_extended(message: &Sv2Message) -> (plan: Option<Plan>)
    ensures
        opt_plan(plan) == spec_intercept_submit_share_extended(*message),
{
    match message {
        Sv2Message::SubmitSharesExtended { nonce } => Some(
            plan_count_and_stamp(decimal_string(*nonce as u64), Some(10)),
        ),
        _ => None,
    }
}

/// An accepted share: count it.
pub open spec fn spec_intercept_submit_share_success(m: Sv2Message) -> Option<PlanView> {
    match m {
        Sv2Message::SubmitSharesSuccess => Some(count_only()),
        _ => None,
    }
}

/// What the submit share success interceptor does with `message`; `None` ends its
/// receive loop.
pub fn intercept_submit_share_success(message: &Sv2Message) -> (plan: Option<Plan>)
    ensures
        opt_plan(plan) == spec_intercept_submit_share_success(*message),
{
    match message {
        Sv2Message::SubmitSharesSuccess => Some(plan_count_only()),
        _ => None,
    }
}

/// A refused share: count it.
pub open spec fn spec_intercept_submit_share_error(m: Sv2Message) -> Option<PlanView> {
    match m {
        Sv2Message::SubmitSharesError => Some(count_only()),
        _ => None,
    }
}

/// What the submit share error interceptor does with `message`; `None` ends its
/// receive loop.
pub fn intercept_submit_share_error(message: &Sv2Message) -> (plan: Option<Plan>)
    ensures
        opt_plan(plan) == spec_intercept_submit_share_error(*message),
{
    match message {
        Sv2Message::SubmitSharesError => Some(plan_count_only()),
        _ => None,
    }
}

/// A submitted block solution: look for when the share with its header
/// nonce was submitted.
pub open spec fn spec_intercept_submit_solution(m: Sv2Message) -> Option<PlanView> {
    match m {
        Sv2Message::SubmitSolution { header_nonce } => Some(
            PlanView { count: false, share_nonce: Some(header_nonce), ..spec_no_op() },
        ),
        _ => None,
    }
}

/// A plan that changes nothing.
pub open spec fn spec_no_op() -> PlanView {
    PlanView { count: false, ..count_only() }
}

fn plan_no_op() -> (p: Plan)
    ensures
        p@ == spec_no_op(),
{
    Plan {
        count: false,
        stamp: None,
        expire_after_secs: None,
        probe: None,
        gauge_value: None,
        block_hash: None,
        share_nonce: None,
    }
}

/// What the submit solution interceptor does with `message`; `None` ends its
/// receive loop.
pub fn intercept_submit_solution(message: &Sv2Message) -> (plan: Option<Plan>)
    ensures
        opt_plan(plan) == spec_intercept_submit_solution(*message),
{
    match message {
        Sv2Message::SubmitSolution { header_nonce } => Some(
            Plan {
                count: false,
                stamp: None,
                expire_after_secs: None,
                probe: None,
                gauge_value: None,
                block_hash: None,
                share_nonce: Some(*header_nonce),
            },
        ),
        _ => None,
    }
}

/// A job-token request: count it and stamp the requesting user for ten
/// seconds.
pub open spec fn spec_intercept_allocate_mining_job_token(m: Sv2Message) -> Option<PlanView> {
    match m {
        Sv2Message::AllocateMiningJobToken { user_identifier } => Some(
            count_and_stamp(spec_utf8_lossy(user_identifier@), Some(10)),
        ),
        _ => None,
    }
}

/// What the allocate mining job token interceptor does with `message`; `None` ends its
/// receive loop.
pub fn intercept_allocate_mining_job_token(message: &Sv2Message) -> (plan: Option<Plan>)
    ensures
        opt_plan(plan) == spec_intercept_allocate_mining_job_token(*message),
{
    match message {
        Sv2Message::AllocateMiningJobToken { user_identifier } => Some(
            plan_count_and_stamp(utf8_lossy(user_identifier.as_slice()), Some(10)),
        ),
        _ => None,
    }
}

/// A granted job token: count it and read the request time stamped under
/// the token's hex text.
pub open spec fn spec_intercept_allocate_mining_job_token_success(m: Sv2Message) -> Option<
    PlanView,
> {
    match m {
        Sv2Message::AllocateMiningJobTokenSuccess { mining_job_token } => Some(
            PlanView { probe: Some(spec_encode_hex(mining_job_token@)), ..count_only() },
        ),
        _ => None,
    }
}

/// What the allocate mining job token success interceptor does with `message`; `None` ends its
/// receive loop.
pub fn intercept_allocate_mining_job_token_success(message: &Sv2Message) -> (plan: Option<Plan>)
    ensures
        opt_plan(plan) == spec_intercept_allocate_mining_job_token_success(*message),
{
    match message {
        Sv2Message::AllocateMiningJobTokenSuccess { mining_job_token } => Some(
            Plan {
                count: true,
                stamp: None,
                expire_after_secs: None,
                probe: Some(encode_hex(mining_job_token.as_slice())),
                gauge_value: None,
                block_hash: None,
                share_nonce: None,
            },
        ),
        _ => None,
    }
}

/// A declared job: count it and stamp its request id for ten seconds.
pub open spec fn spec_intercept_declare_mining_job(m: Sv2Message) -> Option<PlanView> {
    match m {
        Sv2Message::DeclareMiningJob { request_id } => Some(
            count_and_stamp(spec_decimal(request_id as nat), Some(10)),
        ),
        _ => None,
    }
}

/// What the declare mining job interceptor does with `message`; `None` ends its
/// receive loop.
pub fn intercept_declare_mining_job(message: &Sv2Message) -> (plan: Option<Plan>)
    ensures
        opt_plan(plan) == spec_intercept_declare_mining_job(*message),
{
    match message {
        Sv2Message::DeclareMiningJob { request_id } => Some(
            plan_count_and_stamp(decimal_string(*request_id as u64), Some(10)),
        ),
        _ => None,
    }
}

/// An accepted job declaration: count it and read the request time stamped
/// under its request id.
pub open spec fn spec_intercept_declare_mining_job_success(m: Sv2Message) -> Option<PlanView> {
    match m {
        Sv2Message::DeclareMiningJobSuccess { request_id } => Some(
            PlanView { probe: Some(spec_decimal(request_id as nat)), ..count_only() },
        ),
        _ => None,
    }
}

/// What the declare mining job success interceptor does with `message`; `None` ends its
/// receive loop.
pub fn intercept_declare_mining_job_success(message: &Sv2Message) -> (plan: Option<Plan>)
    ensures
        opt_plan(plan) == spec_intercept_declare_mining_job_success(*message),
{
    match message {
        Sv2Message::DeclareMiningJobSuccess { request_id } => Some(
            Plan {
                count: true,
                stamp: None,
                expire_after_secs: None,
                probe: Some(decimal_string(*request_id as u64)),
                gauge_value: None,
                block_hash: None,
                share_nonce: None,
            },
        ),
        _ => None,
    }
}

/// A refused job declaration: count it.
pub open spec fn spec_intercept_declare_mining_job_error(m: Sv2Message) -> Option<PlanView> {
    match m {
        Sv2Message::DeclareMiningJobError => Some(count_only()),
        _ => None,
    }
}

/// What the declare mining job error interceptor does with `message`; `None` ends its
/// receive loop.
pub fn intercept_declare_mining_job_error(message: &Sv2Message) -> (plan: Option<Plan>)
    ensures
        opt_plan(plan) == spec_intercept_declare_mining_job_error(*message),
{
    match message {
        Sv2Message::DeclareMiningJobError => Some(plan_count_only()),
        _ => None,
    }
}

/// Missing transactions provided: count them.
pub open spec fn spec_intercept_provide_missing_transactions_success(m: Sv2Message) -> Option<
    PlanView,
> {
    match m {
        Sv2Message::ProvideMissingTransactionsSuccess => Some(count_only()),
        _ => None,
    }
}

/// What the provide missing transactions success interceptor does with `message`; `None` ends its
/// receive loop.
pub fn intercept_provide_missing_transactions_success(message: &Sv2Message) -> (plan: Option<Plan>)
    ensures
        opt_plan(plan) == spec_intercept_provide_missing_transactions_success(*message),
{
    match message {
        Sv2Message::ProvideMissingTransactionsSuccess => Some(plan_count_only()),
        _ => None,
    }
}

/// A new mining job: count it and stamp its job id for five seconds.
pub open spec fn spec_intercept_new_mining_job(m: Sv2Message) -> Option<PlanView> {
    match m {
        Sv2Message::NewMiningJob { job_id } => Some(
            count_and_stamp(spec_decimal(job_id as nat), Some(5)),
        ),
        _ => None,
    }
}

/// What the new mining job interceptor does with `message`; `None` ends its
/// receive loop.
pub fn intercept_new_mining_job(message: &Sv2Message) -> (plan: Option<Plan>)
    ensures
        opt_plan(plan) == spec_intercept_new_mining_job(*message),
{
    match message {
        Sv2Message::NewMiningJob { job_id } => Some(
            plan_count_and_stamp(decimal_string(*job_id as u64), Some(5)),
        ),
        _ => None,
    }
}

/// A new extended mining job: count it and stamp its job id for five seconds.
pub open spec fn spec_intercept_new_extended_mining_job(m: Sv2Message) -> Option<PlanView> {
    match m {
        Sv2Message::NewExtendedMiningJob { job_id } => Some(
            count_and_stamp(spec_decimal(job_id as nat), Some(5)),
        ),
        _ => None,
    }
}

/// What the new extended mining job interceptor does with `message`; `None` ends its
/// receive loop.
pub fn intercept_new_extended_mining_job(message: &Sv2Message) -> (plan: Option<Plan>)
    ensures
        opt_plan(plan) == spec_intercept_new_extended_mining_job(*message),
{
    match message {
        Sv2Message::NewExtendedMiningJob { job_id } => Some(
            plan_count_and_stamp(decimal_string(*job_id as u64), Some(5)),
        ),
        _ => None,
    }
}

/// A submitted standard share: count it.
pub open spec fn spec_intercept_submit_shares_standard(m: Sv2Message) -> Option<PlanView> {
    match m {
        Sv2Message::SubmitSharesStandard => Some(count_only()),
        _ => None,
    }
}

/// What the submit shares standard interceptor does with `message`; `None` ends its
/// receive loop.
pub fn intercept_submit_shares_standard(message: &Sv2Message) -> (plan: Option<Plan>)
    ensures
        opt_plan(plan) == spec_intercept_submit_shares_standard(*message),
{
    match message {
        Sv2Message::SubmitSharesStandard => Some(plan_count_only()),
        _ => None,
    }
}

/// An opened channel, standard or extended: count it and stamp its channel
/// id, with no expiry. Any other message is passed over and the loop goes
/// on.
pub open spec fn spec_intercept_open_channel_success(m: Sv2Message) -> Option<PlanView> {
    match m {
        Sv2Message::OpenStandardMiningChannelSuccess { channel_id } => Some(
            count_and_stamp(spec_decimal(channel_id as nat), None),
        ),
        Sv2Message::OpenExtendedMiningChannelSuccess { channel_id } => Some(
            count_and_stamp(spec_decimal(channel_id as nat), None),
        ),
        _ => Some(spec_no_op()),
    }
}

/// What the open channel success interceptor does with `message`; `None` ends its
/// receive loop.
pub fn intercept_open_channel_success(message: &Sv2Message) -> (plan: Option<Plan>)
    ensures
        opt_plan(plan) == spec_intercept_open_channel_success(*message),
{
    match message {
        Sv2Message::OpenStandardMiningChannelSuccess { channel_id } => Some(
            plan_count_and_stamp(decimal_string(*channel_id as u64), None),
        ),
        Sv2Message::OpenExtendedMiningChannelSuccess { channel_id } => Some(
            plan_count_and_stamp(decimal_string(*channel_id as u64), None),
        ),
        _ => Some(plan_no_op()),
    }
}

/// A closed channel: count it.
pub open spec fn spec_intercept_close_channel(m: Sv2Message) -> Option<PlanView> {
    match m {
        Sv2Message::CloseChannel => Some(count_only()),
        _ => None,
    }
}

/// What the close channel interceptor does with `message`; `None` ends its
/// receive loop.
pub fn intercept_close_channel(message: &Sv2Message) -> (plan: Option<Plan>)
    ensures
        opt_plan(plan) == spec_intercept_close_channel(*message),
{
    match message {
        Sv2Message::CloseChannel => Some(plan_count_only()),
        _ => None,
    }
}

/// A channel update: count it.
pub open spec fn spec_intercept_update_channel(m: Sv2Message) -> Option<PlanView> {
    match m {
        Sv2Message::UpdateChannel => Some(count_only()),
        _ => None,
    }
}

/// What the update channel interceptor does with `message`; `None` ends its
/// receive loop.
pub fn intercept_update_channel(message: &Sv2Message) -> (plan: Option<Plan>)
    ensures
        opt_plan(plan) == spec_intercept_update_channel(*message),
{
    match message {
        Sv2Message::UpdateChannel => Some(plan_count_only()),
        _ => None,
    }
}

/// Whether a message can be planned for: a target carries at least the four
/// bytes that are read of it.
pub open spec fn message_well_formed(m: Sv2Message) -> bool {
    m matches Sv2Message::SetTarget { maximum_target } ==> maximum_target@.len() >= 4
}

/// A new target: count it and record the little-endian `u32` in the first
/// four bytes of the maximum target.
pub open spec fn spec_intercept_set_target(m: Sv2Message) -> Option<PlanView> {
    match m {
        Sv2Message::SetTarget { maximum_target } => Some(
            PlanView { gauge_value: Some(spec_le_u32(maximum_target@) as u64), ..count_only() },
        ),
        _ => None,
    }
}

/// What the set target interceptor does with `message`; `None` ends its
/// receive loop.
pub fn intercept_set_target(message: &Sv2Message) -> (plan: Option<Plan>)
    requires
        message_well_formed(*message),
    ensures
        opt_plan(plan) == spec_intercept_set_target(*message),
{
    match message {
        Sv2Message::SetTarget { maximum_target } => Some(
            Plan {
                count: true,
                stamp: None,
                expire_after_secs: None,
                probe: None,
                gauge_value: Some(le_u32_prefix(maximum_target.as_slice()) as u64),
                block_hash: None,
                share_nonce: None,
            },
        ),
        _ => None,
    }
}

/// A refused connection setup: count it.
pub open spec fn spec_intercept_setup_connection_error(m: Sv2Message) -> Option<PlanView> {
    match m {
        Sv2Message::SetupConnectionError => Some(count_only()),
        _ => None,
    }
}

/// What the setup connection error interceptor does with `message`; `None` ends its
/// receive loop.
pub fn intercept_setup_connection_error(message: &Sv2Message) -> (plan: Option<Plan>)
    ensures
        opt_plan(plan) == spec_intercept_setup_connection_error(*message),
{
    match message {
        Sv2Message::SetupConnectionError => Some(plan_count_only()),
        _ => None,
    }
}

/// A reconnect request: count it.
pub open spec fn spec_intercept_reconnect(m: Sv2Message) -> Option<PlanView> {
    match m {
        Sv2Message::Reconnect => Some(count_only()),
        _ => None,
    }
}

/// What the reconnect interceptor does with `message`; `None` ends its
/// receive loop.
pub fn intercept_reconnect(message: &Sv2Message) -> (plan: Option<Plan>)
    ensures
        opt_plan(plan) == spec_intercept_reconnect(*message),
{
    match message {
        Sv2Message::Reconnect => Some(plan_count_only()),
        _ => None,
    }
}

/// What the proxy records once the lookups that follow a new previous hash
/// are done.
#[derive(Debug, Clone)]
pub struct BlockValues<T> {
    /// The reward of the mined block, when it was found.
    pub mined_block_value: Option<u64>,
    /// The value of the last template, recorded only beside a found reward.
    pub template_value: Option<T>,
    /// A reward was found but the template value was not.
    pub template_value_missing: bool,
}

/// Decides what is recorded from the block reward (if found) and the value
/// of the last template (if found): nothing without a reward; with one, the
/// reward, and the template value when there is one.
pub fn settle_prev_hash<T>(reward: Option<u64>, template_value: Option<T>) -> (values: BlockValues<T>)
    ensures
        values.mined_block_value == reward,
        values.template_value == (if reward is Some {
            template_value
        } else {
            None
        }),
        values.template_value_missing == (reward is Some && template_value is None),
{
    match reward {
        None => BlockValues { mined_block_value: None, template_value: None, template_value_missing: false },
        Some(r) => {
            let missing = template_value.is_none();
            BlockValues { mined_block_value: Some(r), template_value, template_value_missing: missing }
        },
    }
}

/// A share stamped by the submit-share interceptor of a translator proxy is
/// found again by the solution interceptor of a template proxy: when the
/// stamped label is exported as a sample of the timestamp gauge, the
/// solution with the same header nonce reads back the sample's timestamp.
pub proof fn lemma_stamped_share_found_by_solution(nonce: u32, timestamp: Seq<char>)
    requires
        timestamp.len() > 0,
        forall|i: int| 0 <= i < timestamp.len() ==> !is_whitespace(#[trigger] timestamp[i]),
    ensures
        ({
            let share = spec_intercept_submit_share_extended(Sv2Message::SubmitSharesExtended { nonce });
            let solution = spec_intercept_submit_solution(Sv2Message::SubmitSolution { header_nonce: nonce });
            &&& share matches Some(p) && p.stamp matches Some(label) && solution matches Some(q)
                && q.share_nonce matches Some(n) && spec_share_fields(
                spec_lines(
                    share_line_prefix() + label + "\"}"@ + seq![' '] + timestamp + seq!['\n'],
                ),
                spec_decimal(n as nat),
            ) == seq![timestamp]
        }),
{
    lemma_share_sample_found(nonce, timestamp);
}

} // verus!
