//! How the proxy is set up: its role, the interceptors that role installs,
//! the side each interceptor listens to, and how often it tries to reach
//! the server.

use vstd::prelude::*;
use crate::channel::Remote;
use crate::intercept::{
    count_only, message_well_formed, opt_plan, spec_no_op, Plan, PlanView, Sv2Message,
    intercept_allocate_mining_job_token,
    intercept_allocate_mining_job_token_success,
    intercept_close_channel,
    intercept_declare_mining_job,
    intercept_declare_mining_job_error,
    intercept_declare_mining_job_success,
    intercept_new_extended_mining_job,
    intercept_new_mining_job,
    intercept_new_template,
    intercept_open_channel_success,
    intercept_prev_hash,
    intercept_provide_missing_transactions_success,
    intercept_reconnect,
    intercept_set_target,
    intercept_setup_connection_error,
    intercept_submit_share_error,
    intercept_submit_share_extended,
    intercept_submit_share_success,
    intercept_submit_shares_standard,
    intercept_submit_solution,
    intercept_update_channel,
    spec_intercept_allocate_mining_job_token,
    spec_intercept_allocate_mining_job_token_success,
    spec_intercept_close_channel,
    spec_intercept_declare_mining_job,
    spec_intercept_declare_mining_job_error,
    spec_intercept_declare_mining_job_success,
    spec_intercept_new_extended_mining_job,
    spec_intercept_new_mining_job,
    spec_intercept_new_template,
    spec_intercept_open_channel_success,
    spec_intercept_prev_hash,
    spec_intercept_provide_missing_transactions_success,
    spec_intercept_reconnect,
    spec_intercept_set_target,
    spec_intercept_setup_connection_error,
    spec_intercept_submit_share_error,
    spec_intercept_submit_share_extended,
    spec_intercept_submit_share_success,
    spec_intercept_submit_shares_standard,
    spec_intercept_submit_solution,
    spec_intercept_update_channel,
};
use crate::hex::{
    hash_text_bytes, is_hash_text, lemma_encode_hex_shape, lemma_reverse_hash_of_encoded,
    spec_reverse_hash,
};
use crate::text::{lemma_decimal_round_trip, spec_parse_u64, str_eq, IntParseError};

verus! {

/// The role the proxy plays, set by `PROXY_TYPE`.
#[derive(Debug, Clone, Copy, PartialEq, Eq, Structural)]
pub enum ProxyType {
    /// Between a template provider and a job-declarator client.
    TpJdc,
    /// Between a template provider and a pool.
    TpPool,
    /// Between a translator and a pool.
    PoolTranslator,
    /// Between a translator and a job-declarator client.
    JdcTranslator,
}

/// The role named by `name`, if any.
pub open spec fn spec_proxy_type(name: Seq<char>) -> Option<ProxyType> {
    if name == "tp-jdc"@ {
        Some(ProxyType::TpJdc)
    } else if name == "tp-pool"@ {
        Some(ProxyType::TpPool)
    } else if name == "pool-translator"@ {
        Some(ProxyType::PoolTranslator)
    } else if name == "jdc-translator"@ {
        Some(ProxyType::JdcTranslator)
    } else {
        None
    }
}

/// `PROXY_TYPE` names the four roles by the two ends the proxy sits
/// between, template provider first, translator last; any other name
/// names none.
pub proof fn lemma_proxy_type_names(name: Seq<char>)
    ensures
        spec_proxy_type("tp-jdc"@) == Some(ProxyType::TpJdc),
        spec_proxy_type("tp-pool"@) == Some(ProxyType::TpPool),
        spec_proxy_type("pool-translator"@) == Some(ProxyType::PoolTranslator),
        spec_proxy_type("jdc-translator"@) == Some(ProxyType::JdcTranslator),
        (name != "tp-jdc"@ && name != "tp-pool"@ && name != "pool-translator"@ && name
            != "jdc-translator"@) ==> spec_proxy_type(name) is None,
{
    reveal_strlit("tp-jdc");
    reveal_strlit("tp-pool");
    reveal_strlit("pool-translator");
    reveal_strlit("jdc-translator");
    assert("tp-pool"@ != "tp-jdc"@) by {
        assert("tp-pool"@.len() != "tp-jdc"@.len());
    }
    assert("pool-translator"@ != "tp-jdc"@ && "pool-translator"@ != "tp-pool"@) by {
        assert("pool-translator"@.len() == 15);
    }
    assert("jdc-translator"@ != "tp-jdc"@ && "jdc-translator"@ != "tp-pool"@
        && "jdc-translator"@ != "pool-translator"@) by {
        assert("jdc-translator"@.len() == 14);
    }
}

/// One message handler of the proxy.
#[derive(Debug, Clone, Copy, PartialEq, Eq, Structural)]
pub enum Interceptor {
    PrevHash,
    NewTemplate,
    SubmitShareExtended,
    SubmitShareSuccess,
    SubmitShareError,
    SubmitSolution,
    AllocateMiningJobToken,
    AllocateMiningJobTokenSuccess,
    DeclareMiningJob,
    DeclareMiningJobSuccess,
    DeclareMiningJobError,
    ProvideMissingTransactionsSuccess,
    NewMiningJob,
    NewExtendedMiningJob,
    SubmitSharesStandard,
    OpenStandardChannelSuccess,
    OpenExtendedChannelSuccess,
    CloseChannel,
    UpdateChannel,
    SetTarget,
    SetupConnectionError,
    Reconnect,
}

/// The interceptors a role installs, in the order it installs them.
pub open spec fn spec_interceptors(t: ProxyType) -> Seq<Interceptor> {
    match t {
        ProxyType::PoolTranslator | ProxyType::JdcTranslator => seq![
            Interceptor::SubmitShareExtended,
            Interceptor::SubmitShareSuccess,
            Interceptor::SubmitShareError,
            Interceptor::NewMiningJob,
            Interceptor::NewExtendedMiningJob,
            Interceptor::SubmitSharesStandard,
            Interceptor::OpenStandardChannelSuccess,
            Interceptor::OpenExtendedChannelSuccess,
            Interceptor::CloseChannel,
            Interceptor::UpdateChannel,
            Interceptor::SetTarget,
            Interceptor::SetupConnectionError,
            Interceptor::Reconnect,
        ],
        ProxyType::TpPool => seq![
            Interceptor::PrevHash,
            Interceptor::SubmitSolution,
            Interceptor::NewTemplate,
            Interceptor::SetupConnectionError,
            Interceptor::Reconnect,
        ],
        ProxyType::TpJdc => seq![
            Interceptor::PrevHash,
            Interceptor::SubmitSolution,
            Interceptor::NewTemplate,
            Interceptor::AllocateMiningJobToken,
            Interceptor::AllocateMiningJobTokenSuccess,
            Interceptor::DeclareMiningJob,
            Interceptor::DeclareMiningJobSuccess,
            Interceptor::DeclareMiningJobError,
            Interceptor::ProvideMissingTransactionsSuccess,
            Interceptor::SetupConnectionError,
            Interceptor::Reconnect,
        ],
    }
}

impl ProxyType {
    /// Reads `PROXY_TYPE`.
    pub fn from_name(name: &str) -> (t: Option<ProxyType>)
        ensures
            t == spec_proxy_type(name@),
    {
        if str_eq(name, "tp-jdc") {
            Some(ProxyType::TpJdc)
        } else if str_eq(name, "tp-pool") {
            Some(ProxyType::TpPool)
        } else if str_eq(name, "pool-translator") {
            Some(ProxyType::PoolTranslator)
        } else if str_eq(name, "jdc-translator") {
            Some(ProxyType::JdcTranslator)
        } else {
            None
        }
    }

    /// The interceptors the role installs, in order.
    pub fn interceptors(&self) -> (list: Vec<Interceptor>)
        ensures
            list@ == spec_interceptors(*self),
    {
        match self {
            ProxyType::PoolTranslator | ProxyType::JdcTranslator => vec![
                Interceptor::SubmitShareExtended,
                Interceptor::SubmitShareSuccess,
                Interceptor::SubmitShareError,
                Interceptor::NewMiningJob,
                Interceptor::NewExtendedMiningJob,
                Interceptor::SubmitSharesStandard,
                Interceptor::OpenStandardChannelSuccess,
                Interceptor::OpenExtendedChannelSuccess,
                Interceptor::CloseChannel,
                Interceptor::UpdateChannel,
                Interceptor::SetTarget,
                Interceptor::SetupConnectionError,
                Interceptor::Reconnect,
            ],
            ProxyType::TpPool => vec![
                Interceptor::PrevHash,
                Interceptor::SubmitSolution,
                Interceptor::NewTemplate,
                Interceptor::SetupConnectionError,
                Interceptor::Reconnect,
            ],
            ProxyType::TpJdc => vec![
                Interceptor::PrevHash,
                Interceptor::SubmitSolution,
                Interceptor::NewTemplate,
                Interceptor::AllocateMiningJobToken,
                Interceptor::AllocateMiningJobTokenSuccess,
                Interceptor::DeclareMiningJob,
                Interceptor::DeclareMiningJobSuccess,
                Interceptor::DeclareMiningJobError,
                Interceptor::ProvideMissingTransactionsSuccess,
                Interceptor::SetupConnectionError,
                Interceptor::Reconnect,
            ],
        }
    }
}

/// The Stratum V2 subprotocol of an interceptor's messages.
pub enum Subprotocol {
    Common,
    Mining,
    TemplateDistribution,
    JobDeclaration,
}

/// The subprotocol that carries the messages `i` handles.
pub open spec fn subprotocol(i: Interceptor) -> Subprotocol {
    match i {
        Interceptor::PrevHash | Interceptor::NewTemplate | Interceptor::SubmitSolution => {
            Subprotocol::TemplateDistribution
        },
        Interceptor::AllocateMiningJobToken
        | Interceptor::AllocateMiningJobTokenSuccess
        | Interceptor::DeclareMiningJob
        | Interceptor::DeclareMiningJobSuccess
        | Interceptor::DeclareMiningJobError
        | Interceptor::ProvideMissingTransactionsSuccess => Subprotocol::JobDeclaration,
        Interceptor::SetupConnectionError | Interceptor::Reconnect => Subprotocol::Common,
        _ => Subprotocol::Mining,
    }
}

/// Whether a proxy of role `t` sees the messages of subprotocol `p`: every
/// role sees the common messages; the translator roles the mining
/// protocol; the template roles template distribution; the role next to
/// a job-declarator client job declaration too.
pub open spec fn role_sees(t: ProxyType, p: Subprotocol) -> bool {
    match p {
        Subprotocol::Common => true,
        Subprotocol::Mining => t == ProxyType::PoolTranslator || t == ProxyType::JdcTranslator,
        Subprotocol::TemplateDistribution => t == ProxyType::TpJdc || t == ProxyType::TpPool,
        Subprotocol::JobDeclaration => t == ProxyType::TpJdc,
    }
}

/// A role installs exactly the interceptors of the subprotocols it sees,
/// each of them once.
pub proof fn lemma_installed_interceptors(t: ProxyType, i: Interceptor)
    ensures
        spec_interceptors(t).contains(i) <==> role_sees(t, subprotocol(i)),
        forall|a: int, b: int|
            0 <= a < b < spec_interceptors(t).len() ==> spec_interceptors(t)[a]
                != spec_interceptors(t)[b],
{
}

/// The side whose messages an interceptor handles.
pub open spec fn spec_interceptor_remote(i: Interceptor) -> Remote {
    match i {
        Interceptor::SubmitShareExtended
        | Interceptor::SubmitSolution
        | Interceptor::AllocateMiningJobToken
        | Interceptor::DeclareMiningJob
        | Interceptor::SubmitSharesStandard
        | Interceptor::UpdateChannel => Remote::Client,
        _ => Remote::Server,
    }
}

/// What an interceptor does with a received message.
pub open spec fn spec_interceptor_plan(i: Interceptor, m: Sv2Message) -> Option<PlanView> {
    match i {
        Interceptor::PrevHash => spec_intercept_prev_hash(m),
        Interceptor::NewTemplate => spec_intercept_new_template(m),
        Interceptor::SubmitShareExtended => spec_intercept_submit_share_extended(m),
        Interceptor::SubmitShareSuccess => spec_intercept_submit_share_success(m),
        Interceptor::SubmitShareError => spec_intercept_submit_share_error(m),
        Interceptor::SubmitSolution => spec_intercept_submit_solution(m),
        Interceptor::AllocateMiningJobToken => spec_intercept_allocate_mining_job_token(m),
        Interceptor::AllocateMiningJobTokenSuccess => spec_intercept_allocate_mining_job_token_success(m),
        Interceptor::DeclareMiningJob => spec_intercept_declare_mining_job(m),
        Interceptor::DeclareMiningJobSuccess => spec_intercept_declare_mining_job_success(m),
        Interceptor::DeclareMiningJobError => spec_intercept_declare_mining_job_error(m),
        Interceptor::ProvideMissingTransactionsSuccess => spec_intercept_provide_missing_transactions_success(m),
        Interceptor::NewMiningJob => spec_intercept_new_mining_job(m),
        Interceptor::NewExtendedMiningJob => spec_intercept_new_extended_mining_job(m),
        Interceptor::SubmitSharesStandard => spec_intercept_submit_shares_standard(m),
        Interceptor::OpenStandardChannelSuccess => spec_intercept_open_channel_success(m),
        Interceptor::OpenExtendedChannelSuccess => spec_intercept_open_channel_success(m),
        Interceptor::CloseChannel => spec_intercept_close_channel(m),
        Interceptor::UpdateChannel => spec_intercept_update_channel(m),
        Interceptor::SetTarget => spec_intercept_set_target(m),
        Interceptor::SetupConnectionError => spec_intercept_setup_connection_error(m),
        Interceptor::Reconnect => spec_intercept_reconnect(m),
    }
}

impl Interceptor {
    /// The side whose messages the interceptor handles.
    pub fn remote(&self) -> (r: Remote)
        ensures
            r == spec_interceptor_remote(*self),
    {
        match self {
            Interceptor::SubmitShareExtended
            | Interceptor::SubmitSolution
            | Interceptor::AllocateMiningJobToken
            | Interceptor::DeclareMiningJob
            | Interceptor::SubmitSharesStandard
            | Interceptor::UpdateChannel => Remote::Client,
            _ => Remote::Server,
        }
    }

    /// What the interceptor does with `message`; `None` ends its receive loop.
    pub fn plan(&self, message: &Sv2Message) -> (plan: Option<Plan>)
        requires
            message_well_formed(*message),
        ensures
            opt_plan(plan) == spec_interceptor_plan(*self, *message),
    {
        match self {
            Interceptor::PrevHash => intercept_prev_hash(message),
            Interceptor::NewTemplate => intercept_new_template(message),
            Interceptor::SubmitShareExtended => intercept_submit_share_extended(message),
            Interceptor::SubmitShareSuccess => intercept_submit_share_success(message),
            Interceptor::SubmitShareError => intercept_submit_share_error(message),
            Interceptor::SubmitSolution => intercept_submit_solution(message),
            Interceptor::AllocateMiningJobToken => intercept_allocate_mining_job_token(message),
            Interceptor::AllocateMiningJobTokenSuccess => intercept_allocate_mining_job_token_success(message),
            Interceptor::DeclareMiningJob => intercept_declare_mining_job(message),
            Interceptor::DeclareMiningJobSuccess => intercept_declare_mining_job_success(message),
            Interceptor::DeclareMiningJobError => intercept_declare_mining_job_error(message),
            Interceptor::ProvideMissingTransactionsSuccess => intercept_provide_missing_transactions_success(message),
            Interceptor::NewMiningJob => intercept_new_mining_job(message),
            Interceptor::NewExtendedMiningJob => intercept_new_extended_mining_job(message),
            Interceptor::SubmitSharesStandard => intercept_submit_shares_standard(message),
            Interceptor::OpenStandardChannelSuccess => intercept_open_channel_success(message),
            Interceptor::OpenExtendedChannelSuccess => intercept_open_channel_success(message),
            Interceptor::CloseChannel => intercept_close_channel(message),
            Interceptor::UpdateChannel => intercept_update_channel(message),
            Interceptor::SetTarget => intercept_set_target(message),
            Interceptor::SetupConnectionError => intercept_setup_connection_error(message),
            Interceptor::Reconnect => intercept_reconnect(message),
        }
    }
}

/// The channel-opening interceptors go on whatever they receive; every other
/// interceptor ends its receive loop on a message it does not handle, a
/// closed channel included.
pub proof fn lemma_receive_loops_end(i: Interceptor, m: Sv2Message)
    ensures
        (i == Interceptor::OpenStandardChannelSuccess || i == Interceptor::OpenExtendedChannelSuccess)
            ==> spec_interceptor_plan(i, m) is Some,
        !(i == Interceptor::OpenStandardChannelSuccess || i == Interceptor::OpenExtendedChannelSuccess)
            ==> spec_interceptor_plan(i, Sv2Message::Other) is None,
{
}

/// Whether `i` is the interceptor of the kind of message `m`.
pub open spec fn handles(i: Interceptor, m: Sv2Message) -> bool {
    match i {
        Interceptor::PrevHash => m is SetNewPrevHash,
        Interceptor::NewTemplate => m is NewTemplate,
        Interceptor::SubmitShareExtended => m is SubmitSharesExtended,
        Interceptor::SubmitShareSuccess => m is SubmitSharesSuccess,
        Interceptor::SubmitShareError => m is SubmitSharesError,
        Interceptor::SubmitSolution => m is SubmitSolution,
        Interceptor::AllocateMiningJobToken => m is AllocateMiningJobToken,
        Interceptor::AllocateMiningJobTokenSuccess => m is AllocateMiningJobTokenSuccess,
        Interceptor::DeclareMiningJob => m is DeclareMiningJob,
        Interceptor::DeclareMiningJobSuccess => m is DeclareMiningJobSuccess,
        Interceptor::DeclareMiningJobError => m is DeclareMiningJobError,
        Interceptor::ProvideMissingTransactionsSuccess => m is ProvideMissingTransactionsSuccess,
        Interceptor::NewMiningJob => m is NewMiningJob,
        Interceptor::NewExtendedMiningJob => m is NewExtendedMiningJob,
        Interceptor::SubmitSharesStandard => m is SubmitSharesStandard,
        Interceptor::OpenStandardChannelSuccess | Interceptor::OpenExtendedChannelSuccess => {
            m is OpenStandardMiningChannelSuccess || m is OpenExtendedMiningChannelSuccess
        },
        Interceptor::CloseChannel => m is CloseChannel,
        Interceptor::UpdateChannel => m is UpdateChannel,
        Interceptor::SetTarget => m is SetTarget,
        Interceptor::SetupConnectionError => m is SetupConnectionError,
        Interceptor::Reconnect => m is Reconnect,
    }
}

/// Whether the Stratum V2 protocol has the client (the downstream side)
/// send `m`: share submissions, block solutions, job-token requests, job
/// declarations and channel updates; every other message comes from the
/// server.
pub open spec fn sent_by_client(m: Sv2Message) -> bool {
    ||| m is SubmitSharesExtended
    ||| m is SubmitSharesStandard
    ||| m is SubmitSolution
    ||| m is AllocateMiningJobToken
    ||| m is DeclareMiningJob
    ||| m is UpdateChannel
}

/// The interceptors that record values of a message without counting it:
/// the prev hash, new template and submit solution interceptors.
pub open spec fn records_without_counting(i: Interceptor) -> bool {
    i == Interceptor::PrevHash || i == Interceptor::NewTemplate || i == Interceptor::SubmitSolution
}

/// Each interceptor listens on the side that sends its messages, goes on
/// for each of them, and counts each one, except the prev hash, new
/// template and submit solution interceptors, which count none; any other
/// message ends its receive loop, but for the channel-opening interceptors,
/// which pass it over without touching any metric.
pub proof fn lemma_interceptor_contract(i: Interceptor, m: Sv2Message)
    ensures
        handles(i, m) ==> (spec_interceptor_remote(i) == Remote::Client <==> sent_by_client(m)),
        handles(i, m) ==> (spec_interceptor_plan(i, m) matches Some(p) && (p.count
            <==> !records_without_counting(i))),
        !handles(i, m) ==> match spec_interceptor_plan(i, m) {
            None => true,
            Some(p) => (i == Interceptor::OpenStandardChannelSuccess || i
                == Interceptor::OpenExtendedChannelSuccess) && p == spec_no_op(),
        },
{
}

/// The number that identifies a message, where it carries one: a
/// template id, a share nonce, a request id, a job id or a channel id.
pub open spec fn message_id(m: Sv2Message) -> Option<nat> {
    match m {
        Sv2Message::NewTemplate { template_id, .. } => Some(template_id as nat),
        Sv2Message::SubmitSharesExtended { nonce } => Some(nonce as nat),
        Sv2Message::DeclareMiningJob { request_id } => Some(request_id as nat),
        Sv2Message::DeclareMiningJobSuccess { request_id } => Some(request_id as nat),
        Sv2Message::NewMiningJob { job_id } => Some(job_id as nat),
        Sv2Message::NewExtendedMiningJob { job_id } => Some(job_id as nat),
        Sv2Message::OpenStandardMiningChannelSuccess { channel_id } => Some(channel_id as nat),
        Sv2Message::OpenExtendedMiningChannelSuccess { channel_id } => Some(channel_id as nat),
        _ => None,
    }
}

/// The label a plan writes, or else the one it reads.
pub open spec fn plan_label(p: PlanView) -> Option<Seq<char>> {
    if p.stamp is Some {
        p.stamp
    } else {
        p.probe
    }
}

/// The interceptors that stamp a label with the time a message came.
pub open spec fn stamps(i: Interceptor) -> bool {
    ||| i == Interceptor::PrevHash
    ||| i == Interceptor::NewTemplate
    ||| i == Interceptor::SubmitShareExtended
    ||| i == Interceptor::AllocateMiningJobToken
    ||| i == Interceptor::DeclareMiningJob
    ||| i == Interceptor::NewMiningJob
    ||| i == Interceptor::NewExtendedMiningJob
    ||| i == Interceptor::OpenStandardChannelSuccess
    ||| i == Interceptor::OpenExtendedChannelSuccess
}

/// How long a stamped label stays before it is removed: a second for new
/// previous hashes and templates, ten seconds for shares, token requests
/// and declared jobs, five for mining jobs; channel labels stay.
pub open spec fn label_lifetime(i: Interceptor) -> Option<u64> {
    if i == Interceptor::PrevHash || i == Interceptor::NewTemplate {
        Some(1)
    } else if i == Interceptor::SubmitShareExtended || i == Interceptor::AllocateMiningJobToken || i
        == Interceptor::DeclareMiningJob {
        Some(10)
    } else if i == Interceptor::NewMiningJob || i == Interceptor::NewExtendedMiningJob {
        Some(5)
    } else {
        None
    }
}

/// The labels of the metrics: a stamping interceptor stamps each message it
/// handles, for the label's lifetime, and the job-token and job
/// declaration success interceptors read a label instead. A label made for
/// a message with an id reads back, as a decimal number, as that id.
pub proof fn lemma_labels(i: Interceptor, m: Sv2Message)
    ensures
        handles(i, m) ==> (spec_interceptor_plan(i, m) matches Some(p) && (p.stamp is Some
            <==> stamps(i)) && (p.probe is Some <==> (i == Interceptor::AllocateMiningJobTokenSuccess
            || i == Interceptor::DeclareMiningJobSuccess)) && p.expire_after_secs == label_lifetime(
            i,
        )),
        (handles(i, m) && message_id(m) is Some) ==> (spec_interceptor_plan(i, m) matches Some(p)
            && plan_label(p) matches Some(label) && spec_parse_u64(label) == Ok::<
            nat,
            IntParseError,
        >(message_id(m)->0)),
{
    match m {
        Sv2Message::NewTemplate { template_id, .. } => {
            lemma_decimal_round_trip(template_id, template_id);
        },
        Sv2Message::SubmitSharesExtended { nonce } => {
            lemma_decimal_round_trip(nonce as u64, nonce as u64);
        },
        Sv2Message::DeclareMiningJob { request_id } => {
            lemma_decimal_round_trip(request_id as u64, request_id as u64);
        },
        Sv2Message::DeclareMiningJobSuccess { request_id } => {
            lemma_decimal_round_trip(request_id as u64, request_id as u64);
        },
        Sv2Message::NewMiningJob { job_id } => {
            lemma_decimal_round_trip(job_id as u64, job_id as u64);
        },
        Sv2Message::NewExtendedMiningJob { job_id } => {
            lemma_decimal_round_trip(job_id as u64, job_id as u64);
        },
        Sv2Message::OpenStandardMiningChannelSuccess { channel_id } => {
            lemma_decimal_round_trip(channel_id as u64, channel_id as u64);
        },
        Sv2Message::OpenExtendedMiningChannelSuccess { channel_id } => {
            lemma_decimal_round_trip(channel_id as u64, channel_id as u64);
        },
        _ => {},
    }
}

/// The latency of a job declaration is read under the label its request
/// stamped: the declaration of request `a` stamps the label that the
/// success for request `a` reads, and requests with different ids get
/// different labels.
pub proof fn lemma_declared_job_labels(a: u32, b: u32)
    ensures
        spec_intercept_declare_mining_job(Sv2Message::DeclareMiningJob { request_id: a }) matches Some(
            p,
        ) && spec_intercept_declare_mining_job_success(
            Sv2Message::DeclareMiningJobSuccess { request_id: a },
        ) matches Some(q) && p.stamp is Some && p.stamp == q.probe,
        a != b ==> spec_intercept_declare_mining_job(Sv2Message::DeclareMiningJob { request_id: a })
            != spec_intercept_declare_mining_job(Sv2Message::DeclareMiningJob { request_id: b }),
{
    lemma_decimal_round_trip(a as u64, b as u64);
}

/// A new previous hash is stamped under the hex text of its bytes, which
/// reads back as those bytes, and the block looked up is named by the same
/// text with its bytes reversed; a granted job token is read under the hex
/// text of the token.
pub proof fn lemma_hash_labels(m: Sv2Message)
    ensures
        m matches Sv2Message::SetNewPrevHash { prev_hash } ==> (spec_intercept_prev_hash(m) matches Some(
            p,
        ) && p.stamp matches Some(label) && p.block_hash matches Some(block) && is_hash_text(label)
            && hash_text_bytes(label) == prev_hash@ && label.len() == 2 * prev_hash@.len() && block
            == spec_reverse_hash(label) && hash_text_bytes(block) == prev_hash@.reverse()),
        m matches Sv2Message::AllocateMiningJobTokenSuccess { mining_job_token } ==> (
        spec_intercept_allocate_mining_job_token_success(m) matches Some(p) && p.probe matches Some(
            label,
        ) && is_hash_text(label) && hash_text_bytes(label) == mining_job_token@),
{
    match m {
        Sv2Message::SetNewPrevHash { prev_hash } => {
            lemma_reverse_hash_of_encoded(prev_hash@);
            lemma_reverse_hash_of_encoded(prev_hash@.reverse());
            lemma_encode_hex_shape(prev_hash@);
        },
        Sv2Message::AllocateMiningJobTokenSuccess { mining_job_token } => {
            lemma_reverse_hash_of_encoded(mining_job_token@);
        },
        _ => {},
    }
}

/// The values recorded: a template's remaining coinbase value, and the
/// little-endian number in the first four bytes of a new maximum target.
pub proof fn lemma_recorded_values(m: Sv2Message)
    ensures
        m matches Sv2Message::NewTemplate { coinbase_tx_value_remaining, .. } ==> (
        spec_intercept_new_template(m) matches Some(p) && p.gauge_value == Some(
            coinbase_tx_value_remaining,
        )),
        m matches Sv2Message::SetTarget { maximum_target } ==> (maximum_target@.len() >= 4 ==> (
        spec_intercept_set_target(m) matches Some(p) && p.gauge_value matches Some(v) && v as int
            == maximum_target@[0] + maximum_target@[1] * 256 + maximum_target@[2] * 65536
            + maximum_target@[3] * 16777216)),
{
    if let Sv2Message::SetTarget { maximum_target } = m {
        let b = maximum_target@;
        if b.len() >= 4 {
            assert(b[0] + b[1] * 256 + b[2] * 65536 + b[3] * 16777216 <= u32::MAX);
        }
    }
}

/// The plans an interceptor makes for the messages it receives, in order,
/// up to the first message that ends its receive loop.
pub open spec fn spec_run(i: Interceptor, msgs: Seq<Sv2Message>) -> Seq<PlanView>
    decreases msgs.len(),
{
    if msgs.len() == 0 {
        Seq::empty()
    } else {
        match spec_interceptor_plan(i, msgs[0]) {
            Some(p) => seq![p] + spec_run(i, msgs.drop_first()),
            None => Seq::empty(),
        }
    }
}

/// How many of `plans` increment the interceptor's counter.
pub open spec fn spec_counted(plans: Seq<PlanView>) -> nat
    decreases plans.len(),
{
    if plans.len() == 0 {
        0
    } else {
        (if plans[0].count {
            1nat
        } else {
            0nat
        }) + spec_counted(plans.drop_first())
    }
}

/// The message of an interceptor that only counts what it receives.
pub open spec fn counted_message(i: Interceptor) -> Option<Sv2Message> {
    match i {
        Interceptor::SubmitShareSuccess => Some(Sv2Message::SubmitSharesSuccess),
        Interceptor::SubmitShareError => Some(Sv2Message::SubmitSharesError),
        Interceptor::DeclareMiningJobError => Some(Sv2Message::DeclareMiningJobError),
        Interceptor::ProvideMissingTransactionsSuccess => Some(
            Sv2Message::ProvideMissingTransactionsSuccess,
        ),
        Interceptor::SubmitSharesStandard => Some(Sv2Message::SubmitSharesStandard),
        Interceptor::CloseChannel => Some(Sv2Message::CloseChannel),
        Interceptor::UpdateChannel => Some(Sv2Message::UpdateChannel),
        Interceptor::SetupConnectionError => Some(Sv2Message::SetupConnectionError),
        Interceptor::Reconnect => Some(Sv2Message::Reconnect),
        _ => None,
    }
}

/// A counting interceptor goes on exactly while it receives its own
/// message. When it has received `msgs`, all of them its message, it has
/// made one plan per message, each of which increments its counter once
/// and touches no other metric: its counter has gone up by `msgs.len()`.
pub proof fn lemma_one_count_per_message(i: Interceptor, msgs: Seq<Sv2Message>)
    requires
        counted_message(i) is Some,
        forall|k: int| 0 <= k < msgs.len() ==> counted_message(i) == Some(#[trigger] msgs[k]),
    ensures
        forall|m: Sv2Message|
            (#[trigger] spec_interceptor_plan(i, m) is Some) <==> counted_message(i) == Some(m),
        spec_run(i, msgs).len() == msgs.len(),
        forall|k: int| 0 <= k < msgs.len() ==> #[trigger] spec_run(i, msgs)[k] == count_only(),
        spec_counted(spec_run(i, msgs)) == msgs.len(),
    decreases msgs.len(),
{
    if msgs.len() > 0 {
        let rest = msgs.drop_first();
        assert forall|k: int| 0 <= k < rest.len() implies counted_message(i) == Some(
            #[trigger] rest[k],
        ) by {
            assert(rest[k] == msgs[k + 1]);
        }
        lemma_one_count_per_message(i, rest);
        assert(counted_message(i) == Some(msgs[0]));
        assert(spec_interceptor_plan(i, msgs[0]) == Some(count_only()));
        let run = spec_run(i, msgs);
        assert(run == seq![count_only()] + spec_run(i, rest));
        assert forall|k: int| 0 <= k < msgs.len() implies #[trigger] run[k] == count_only() by {
            if k > 0 {
                assert(run[k] == spec_run(i, rest)[k - 1]);
            }
        }
        assert(run.drop_first() =~= spec_run(i, rest));
    }
}

/// How many times the proxy tries to connect to the server.
pub const CONNECT_ATTEMPTS: u32 = 10;

/// How long the proxy waits between two connection attempts, in seconds.
pub const CONNECT_RETRY_SECS: u64 = 2;

/// What the proxy does after a failed connection attempt.
#[derive(Debug, Clone, Copy, PartialEq, Eq, Structural)]
pub enum ConnectStep {
    /// Wait this many seconds, then try again.
    RetryAfterSecs(u64),
    /// Stop trying: the proxy cannot start.
    GiveUp,
}

/// The failed connection attempts so far.
#[derive(Debug, Clone, Copy, PartialEq, Eq, Structural)]
pub struct ConnectRetry {
    pub failures: u32,
}

/// What follows the failed attempt that brings the failures to
/// `failures`.
pub open spec fn spec_connect_step(failures: u32) -> ConnectStep {
    if failures >= CONNECT_ATTEMPTS {
        ConnectStep::GiveUp
    } else {
        ConnectStep::RetryAfterSecs(CONNECT_RETRY_SECS)
    }
}

/// The proxy tries to reach the server ten times, two seconds apart: after
/// each of the first nine failures it waits two seconds and tries again,
/// after the tenth it gives up.
pub proof fn lemma_connect_attempts(failures: u32)
    requires
        1 <= failures <= 10,
    ensures
        spec_connect_step(failures) == (if failures == 10 {
            ConnectStep::GiveUp
        } else {
            ConnectStep::RetryAfterSecs(2)
        }),
{
}

impl ConnectRetry {
    /// No attempt has failed yet.
    pub fn new() -> (r: ConnectRetry)
        ensures
            r.failures == 0,
    {
        ConnectRetry { failures: 0 }
    }

    /// Counts one more failed attempt: after the tenth the proxy gives up,
    /// before it waits two seconds and tries again.
    pub fn record_failure(&mut self) -> (step: ConnectStep)
        requires
            old(self).failures < CONNECT_ATTEMPTS,
        ensures
            final(self).failures == old(self).failures + 1,
            step == spec_connect_step(final(self).failures),
            step == (if final(self).failures >= CONNECT_ATTEMPTS {
                ConnectStep::GiveUp
            } else {
                ConnectStep::RetryAfterSecs(CONNECT_RETRY_SECS)
            }),
    {
        self.failures = self.failures + 1;
        if self.failures >= CONNECT_ATTEMPTS {
            ConnectStep::GiveUp
        } else {
            ConnectStep::RetryAfterSecs(CONNECT_RETRY_SECS)
        }
    }
}

} // verus!
