//! Looking up the reward of a mined block on mempool.space: which URLs are
//! asked, how the two JSON replies decide the reward, and how often a failed
//! lookup is retried.

use vstd::prelude::*;
use crate::json::{
    as_str, as_u64, get, parse_json, spec_as_str, spec_as_u64, spec_get, spec_json_error,
    spec_parse_json, Json, JsonView,
};
use crate::text::{lemma_parse_u64_bounded, parse_u64, spec_parse_u64, str_eq, IntParseError};

verus! {

/// The Bitcoin network whose explorer API is asked.
#[derive(Debug, Clone, Copy, PartialEq, Eq, Structural)]
pub enum Network {
    Mainnet,
    Testnet3,
    Testnet4,
}

/// The network named by the `NETWORK` setting: empty for mainnet,
/// `testnet3` or `testnet4`; any other name names none.
pub open spec fn spec_network(name: Seq<char>) -> Option<Network> {
    if name == ""@ {
        Some(Network::Mainnet)
    } else if name == "testnet3"@ {
        Some(Network::Testnet3)
    } else if name == "testnet4"@ {
        Some(Network::Testnet4)
    } else {
        None
    }
}

/// The URL that describes the block with hash `hash` on `network`.
pub open spec fn spec_block_url(network: Network, hash: Seq<char>) -> Seq<char> {
    match network {
        Network::Mainnet => "https://mempool.space/api/block/"@ + hash,
        Network::Testnet3 => "https://mempool.space/testnet/api/block/"@ + hash,
        Network::Testnet4 => "https://mempool.space/testnet4/api/block/"@ + hash,
    }
}

/// The URL of the reward statistics of the last block on `network`.
pub open spec fn spec_reward_stats_url(network: Network) -> Seq<char> {
    match network {
        Network::Mainnet => "https://mempool.space/api/v1/mining/reward-stats/1"@,
        Network::Testnet3 => "https://mempool.space/testnet/api/v1/mining/reward-stats/1"@,
        Network::Testnet4 => "https://mempool.space/testnet4/api/v1/mining/reward-stats/1"@,
    }
}

/// `NETWORK` names mainnet by the empty text and the test networks by
/// `testnet3` and `testnet4`; any other text names none.
pub proof fn lemma_network_names(name: Seq<char>)
    ensures
        spec_network(""@) == Some(Network::Mainnet),
        spec_network("testnet3"@) == Some(Network::Testnet3),
        spec_network("testnet4"@) == Some(Network::Testnet4),
        (name != ""@ && name != "testnet3"@ && name != "testnet4"@) ==> spec_network(name) is None,
{
    reveal_strlit("");
    reveal_strlit("testnet3");
    reveal_strlit("testnet4");
    assert("testnet3"@ != ""@) by {
        assert("testnet3"@.len() != ""@.len());
    }
    assert("testnet4"@ != ""@) by {
        assert("testnet4"@.len() != ""@.len());
    }
    assert("testnet4"@ != "testnet3"@) by {
        assert("testnet4"@[7] != "testnet3"@[7]);
    }
}

/// The address of a network's explorer API: mempool.space, under
/// `/testnet` or `/testnet4` for the test networks.
pub open spec fn network_base(network: Network) -> Seq<char> {
    match network {
        Network::Mainnet => "https://mempool.space"@,
        Network::Testnet3 => "https://mempool.space/testnet"@,
        Network::Testnet4 => "https://mempool.space/testnet4"@,
    }
}

/// The two URLs asked of a network both stand under its explorer's
/// address: the block URL ends with the block's hash, and the statistics
/// URL names the last one block.
pub proof fn lemma_network_urls(network: Network, hash: Seq<char>)
    ensures
        spec_block_url(network, hash) == network_base(network) + "/api/block/"@ + hash,
        spec_reward_stats_url(network) == network_base(network) + "/api/v1/mining/reward-stats/1"@,
{
    reveal_strlit("https://mempool.space");
    reveal_strlit("https://mempool.space/testnet");
    reveal_strlit("https://mempool.space/testnet4");
    reveal_strlit("/api/block/");
    reveal_strlit("/api/v1/mining/reward-stats/1");
    reveal_strlit("https://mempool.space/api/block/");
    reveal_strlit("https://mempool.space/testnet/api/block/");
    reveal_strlit("https://mempool.space/testnet4/api/block/");
    reveal_strlit("https://mempool.space/api/v1/mining/reward-stats/1");
    reveal_strlit("https://mempool.space/testnet/api/v1/mining/reward-stats/1");
    reveal_strlit("https://mempool.space/testnet4/api/v1/mining/reward-stats/1");
    assert(spec_block_url(network, hash) =~= network_base(network) + "/api/block/"@ + hash);
    assert(spec_reward_stats_url(network) =~= network_base(network)
        + "/api/v1/mining/reward-stats/1"@);
}

impl Network {
    /// Reads the `NETWORK` setting.
    pub fn from_name(name: &str) -> (network: Option<Network>)
        ensures
            network == spec_network(name@),
    {
        if str_eq(name, "") {
            Some(Network::Mainnet)
        } else if str_eq(name, "testnet3") {
            Some(Network::Testnet3)
        } else if str_eq(name, "testnet4") {
            Some(Network::Testnet4)
        } else {
            None
        }
    }

    /// The URL that describes the block with hash `hash`.
    pub fn block_url(&self, hash: &str) -> (url: String)
        ensures
            url@ == spec_block_url(*self, hash@),
    {
        let mut url = match self {
            Network::Mainnet => String::from_str("https://mempool.space/api/block/"),
            Network::Testnet3 => String::from_str("https://mempool.space/testnet/api/block/"),
            Network::Testnet4 => String::from_str("https://mempool.space/testnet4/api/block/"),
        };
        url.append(hash);
        url
    }

    /// The URL of the reward statistics of the last block.
    pub fn reward_stats_url(&self) -> (url: String)
        ensures
            url@ == spec_reward_stats_url(*self),
    {
        match self {
            Network::Mainnet => String::from_str("https://mempool.space/api/v1/mining/reward-stats/1"),
            Network::Testnet3 => String::from_str(
                "https://mempool.space/testnet/api/v1/mining/reward-stats/1",
            ),
            Network::Testnet4 => String::from_str(
                "https://mempool.space/testnet4/api/v1/mining/reward-stats/1",
            ),
        }
    }
}

/// Why the reward of a block could not be found.
#[derive(Debug, Clone, PartialEq, Eq)]
pub enum RewardError {
    /// `NETWORK` names no known network.
    InvalidNetwork,
    /// The HTTP request failed; the transport's message.
    Http(String),
    /// A reply was not JSON; the parser's message.
    Json(String),
    /// The block reply has no unsigned `height`.
    MissingHeight,
    /// The statistics reply has no unsigned `startBlock`.
    MissingStartBlock,
    /// The statistics reply has no unsigned `endBlock`.
    MissingEndBlock,
    /// The statistics reply has no string `totalReward`.
    MissingTotalReward,
    /// `totalReward` is not a decimal `u64`.
    InvalidTotalReward(IntParseError),
    /// The statistics cover other blocks than the one asked for.
    HeightMismatch,
}

/// A reward error, with its texts as character sequences.
pub enum RewardErrorView {
    InvalidNetwork,
    Http(Seq<char>),
    Json(Seq<char>),
    MissingHeight,
    MissingStartBlock,
    MissingEndBlock,
    MissingTotalReward,
    InvalidTotalReward(IntParseError),
    HeightMismatch,
}

impl View for RewardError {
    type V = RewardErrorView;

    open spec fn view(&self) -> RewardErrorView {
        match self {
            RewardError::InvalidNetwork => RewardErrorView::InvalidNetwork,
            RewardError::Http(m) => RewardErrorView::Http(m@),
            RewardError::Json(m) => RewardErrorView::Json(m@),
            RewardError::MissingHeight => RewardErrorView::MissingHeight,
            RewardError::MissingStartBlock => RewardErrorView::MissingStartBlock,
            RewardError::MissingEndBlock => RewardErrorView::MissingEndBlock,
            RewardError::MissingTotalReward => RewardErrorView::MissingTotalReward,
            RewardError::InvalidTotalReward(e) => RewardErrorView::InvalidTotalReward(*e),
            RewardError::HeightMismatch => RewardErrorView::HeightMismatch,
        }
    }
}

/// A reward result, with the error taken by its view.
pub open spec fn reward_result_view(r: Result<u64, RewardError>) -> Result<u64, RewardErrorView> {
    match r {
        Ok(v) => Ok(v),
        Err(e) => Err(e@),
    }
}

/// The text of a reward error.
pub open spec fn spec_reward_error_message(e: RewardError) -> Seq<char> {
    match e {
        RewardError::InvalidNetwork => "Invalid NETWORK environment variable"@,
        RewardError::Http(m) => m@,
        RewardError::Json(m) => m@,
        RewardError::MissingHeight => "Failed to parse height from response"@,
        RewardError::MissingStartBlock => "Failed to parse startBlock from reward stats"@,
        RewardError::MissingEndBlock => "Failed to parse endBlock from reward stats"@,
        RewardError::MissingTotalReward => "Failed to parse totalReward from reward stats"@,
        RewardError::InvalidTotalReward(IntParseError::Empty) => "cannot parse integer from empty string"@,
        RewardError::InvalidTotalReward(IntParseError::InvalidDigit) => "invalid digit found in string"@,
        RewardError::InvalidTotalReward(IntParseError::PosOverflow) => "number too large to fit in target type"@,
        RewardError::HeightMismatch => "Block height mismatch"@,
    }
}

impl RewardError {
    /// The text of the error.
    pub fn message(&self) -> (text: String)
        ensures
            text@ == spec_reward_error_message(*self),
    {
        match self {
            RewardError::InvalidNetwork => String::from_str("Invalid NETWORK environment variable"),
            RewardError::Http(m) => m.clone(),
            RewardError::Json(m) => m.clone(),
            RewardError::MissingHeight => String::from_str("Failed to parse height from response"),
            RewardError::MissingStartBlock => String::from_str(
                "Failed to parse startBlock from reward stats",
            ),
            RewardError::MissingEndBlock => String::from_str(
                "Failed to parse endBlock from reward stats",
            ),
            RewardError::MissingTotalReward => String::from_str(
                "Failed to parse totalReward from reward stats",
            ),
            RewardError::InvalidTotalReward(IntParseError::Empty) => String::from_str(
                "cannot parse integer from empty string",
            ),
            RewardError::InvalidTotalReward(IntParseError::InvalidDigit) => String::from_str(
                "invalid digit found in string",
            ),
            RewardError::InvalidTotalReward(IntParseError::PosOverflow) => String::from_str(
                "number too large to fit in target type",
            ),
            RewardError::HeightMismatch => String::from_str("Block height mismatch"),
        }
    }
}

/// How the reward statistics decide the reward of the block at `height`:
/// the statistics must cover that one block only, and then their total
/// reward, read as a decimal `u64`, is the answer.
pub open spec fn spec_reward_from_stats(
    height: u64,
    start_block: Option<u64>,
    end_block: Option<u64>,
    total_reward: Option<Seq<char>>,
) -> Result<u64, RewardError> {
    match (start_block, end_block) {
        (None, _) => Err(RewardError::MissingStartBlock),
        (Some(_), None) => Err(RewardError::MissingEndBlock),
        (Some(start), Some(end)) => if start == end && end == height {
            match total_reward {
                None => Err(RewardError::MissingTotalReward),
                Some(t) => match spec_parse_u64(t) {
                    Ok(v) => Ok(v as u64),
                    Err(e) => Err(RewardError::InvalidTotalReward(e)),
                },
            }
        } else {
            Err(RewardError::HeightMismatch)
        },
    }
}

/// Decides the reward of the block at `height` from the fields `startBlock`,
/// `endBlock` and `totalReward` of the reward statistics.
pub fn reward_from_stats(
    height: u64,
    start_block: Option<u64>,
    end_block: Option<u64>,
    total_reward: Option<&str>,
) -> (reward: Result<u64, RewardError>)
    ensures
        reward == spec_reward_from_stats(
            height,
            start_block,
            end_block,
            match total_reward {
                Some(t) => Some(t@),
                None => None,
            },
        ),
{
    let start = match start_block {
        Some(s) => s,
        None => {
            return Err(RewardError::MissingStartBlock);
        },
    };
    let end = match end_block {
        Some(e) => e,
        None => {
            return Err(RewardError::MissingEndBlock);
        },
    };
    if start == end && end == height {
        match total_reward {
            None => Err(RewardError::MissingTotalReward),
            Some(t) => match parse_u64(t) {
                Ok(v) => Ok(v),
                Err(e) => Err(RewardError::InvalidTotalReward(e)),
            },
        }
    } else {
        Err(RewardError::HeightMismatch)
    }
}

/// The block height in a block reply: its unsigned `height`.
pub open spec fn spec_block_height(reply: JsonView) -> Result<u64, RewardError> {
    match spec_as_u64(spec_get(Some(reply), "height"@)) {
        Some(h) => Ok(h),
        None => Err(RewardError::MissingHeight),
    }
}

/// The reward of the block at `height` that a reward statistics reply gives.
pub open spec fn spec_block_reward(height: u64, reply: JsonView) -> Result<u64, RewardError> {
    spec_reward_from_stats(
        height,
        spec_as_u64(spec_get(Some(reply), "startBlock"@)),
        spec_as_u64(spec_get(Some(reply), "endBlock"@)),
        spec_as_str(spec_get(Some(reply), "totalReward"@)),
    )
}

/// Reads the block height from a parsed block reply.
pub fn block_height(reply: &Json) -> (height: Result<u64, RewardError>)
    ensures
        height == spec_block_height(reply@),
{
    match as_u64(get(Some(reply), "height")) {
        Some(h) => Ok(h),
        None => Err(RewardError::MissingHeight),
    }
}

/// Reads the reward of the block at `height` from a parsed reward
/// statistics reply.
pub fn block_reward(height: u64, reply: &Json) -> (reward: Result<u64, RewardError>)
    ensures
        reward == spec_block_reward(height, reply@),
{
    let start = as_u64(get(Some(reply), "startBlock"));
    let end = as_u64(get(Some(reply), "endBlock"));
    let total = as_str(get(Some(reply), "totalReward"));
    reward_from_stats(height, start, end, total)
}

/// What the block reply `body` gives: its height, or the parser's message
/// when it is not JSON.
pub open spec fn spec_height_from_body(body: Seq<char>) -> Result<u64, RewardErrorView> {
    match spec_parse_json(body) {
        None => Err(RewardErrorView::Json(spec_json_error(body))),
        Some(reply) => reward_result_view(spec_block_height(reply)),
    }
}

/// What the reward statistics reply `body` gives for the block at
/// `height`: its reward, or the parser's message when it is not JSON.
pub open spec fn spec_reward_from_body(height: u64, body: Seq<char>) -> Result<u64, RewardErrorView> {
    match spec_parse_json(body) {
        None => Err(RewardErrorView::Json(spec_json_error(body))),
        Some(reply) => reward_result_view(spec_block_reward(height, reply)),
    }
}

/// Reads the block height from the block reply.
pub fn block_height_from_body(body: &str) -> (height: Result<u64, RewardError>)
    ensures
        reward_result_view(height) == spec_height_from_body(body@),
{
    match parse_json(body) {
        Err(message) => Err(RewardError::Json(message)),
        Ok(json) => block_height(&json),
    }
}

/// Reads the reward of the block at `height` from the reward statistics reply.
pub fn block_reward_from_stats_body(height: u64, body: &str) -> (reward: Result<u64, RewardError>)
    ensures
        reward_result_view(reward) == spec_reward_from_body(height, body@),
{
    match parse_json(body) {
        Err(message) => Err(RewardError::Json(message)),
        Ok(json) => block_reward(height, &json),
    }
}

/// Where one attempt at the reward of a block stands: the request that
/// was made last is awaited.
#[derive(Debug, Clone, Copy, PartialEq, Eq, Structural)]
pub enum RewardLookup {
    /// The block reply is awaited.
    AwaitBlock { network: Network },
    /// The statistics reply for the block at `height` is awaited.
    AwaitStats { network: Network, height: u64 },
}

/// What came back for the request made last.
#[derive(Debug, Clone)]
pub enum LookupEvent {
    /// The body of the reply.
    Reply(String),
    /// The request failed; the transport's message.
    Failed(String),
}

/// An event, with its text as a character sequence.
pub enum LookupEventView {
    Reply(Seq<char>),
    Failed(Seq<char>),
}

impl View for LookupEvent {
    type V = LookupEventView;

    open spec fn view(&self) -> LookupEventView {
        match self {
            LookupEvent::Reply(b) => LookupEventView::Reply(b@),
            LookupEvent::Failed(m) => LookupEventView::Failed(m@),
        }
    }
}

/// What an attempt does next.
#[derive(Debug)]
pub enum LookupAction {
    /// Ask for `url`, then hand what comes back to `lookup_step` with
    /// `next`.
    Get { url: String, next: RewardLookup },
    /// The attempt is over, with this result.
    Finish(Result<u64, RewardError>),
}

/// An action, with its texts as character sequences.
pub enum LookupActionView {
    Get { url: Seq<char>, next: RewardLookup },
    Finish(Result<u64, RewardErrorView>),
}

impl View for LookupAction {
    type V = LookupActionView;

    open spec fn view(&self) -> LookupActionView {
        match self {
            LookupAction::Get { url, next } => LookupActionView::Get { url: url@, next: *next },
            LookupAction::Finish(r) => LookupActionView::Finish(reward_result_view(*r)),
        }
    }
}

/// How an attempt starts for the block with hash `hash` under the
/// `NETWORK` setting `network_name`: an unknown network ends it before any
/// request; otherwise the block is asked for.
pub open spec fn spec_start_lookup(network_name: Seq<char>, hash: Seq<char>) -> LookupActionView {
    match spec_network(network_name) {
        None => LookupActionView::Finish(Err(RewardErrorView::InvalidNetwork)),
        Some(network) => LookupActionView::Get {
            url: spec_block_url(network, hash),
            next: RewardLookup::AwaitBlock { network },
        },
    }
}

/// What an attempt in state `s` does with what came back: a failed request
/// ends it with the transport's message; a block reply with an unsigned
/// height leads to the statistics request, any other block reply ends it
/// with its error; a statistics reply ends it with the reward it gives.
pub open spec fn spec_lookup_step(s: RewardLookup, e: LookupEventView) -> LookupActionView {
    match e {
        LookupEventView::Failed(m) => LookupActionView::Finish(Err(RewardErrorView::Http(m))),
        LookupEventView::Reply(body) => match s {
            RewardLookup::AwaitBlock { network } => match spec_height_from_body(body) {
                Ok(height) => LookupActionView::Get {
                    url: spec_reward_stats_url(network),
                    next: RewardLookup::AwaitStats { network, height },
                },
                Err(err) => LookupActionView::Finish(Err(err)),
            },
            RewardLookup::AwaitStats { network, height } => LookupActionView::Finish(
                spec_reward_from_body(height, body),
            ),
        },
    }
}

/// Starts an attempt at the reward of the block with hash `hash`.
pub fn start_reward_lookup(network_name: &str, hash: &str) -> (action: LookupAction)
    ensures
        action@ == spec_start_lookup(network_name@, hash@),
{
    match Network::from_name(network_name) {
        None => LookupAction::Finish(Err(RewardError::InvalidNetwork)),
        Some(network) => LookupAction::Get {
            url: network.block_url(hash),
            next: RewardLookup::AwaitBlock { network },
        },
    }
}

/// Takes what came back for the request that `state` awaits.
pub fn lookup_step(state: RewardLookup, event: LookupEvent) -> (action: LookupAction)
    ensures
        action@ == spec_lookup_step(state, event@),
{
    match event {
        LookupEvent::Failed(m) => LookupAction::Finish(Err(RewardError::Http(m))),
        LookupEvent::Reply(body) => match state {
            RewardLookup::AwaitBlock { network } => match block_height_from_body(body.as_str()) {
                Ok(height) => LookupAction::Get {
                    url: network.reward_stats_url(),
                    next: RewardLookup::AwaitStats { network, height },
                },
                Err(err) => LookupAction::Finish(Err(err)),
            },
            RewardLookup::AwaitStats { network, height } => LookupAction::Finish(
                block_reward_from_stats_body(height, body.as_str()),
            ),
        },
    }
}

/// The reward an attempt delivers is that of the block whose height the
/// block reply gave: a statistics reply ends the attempt with a reward only
/// when its `startBlock` and `endBlock` are both that height, and the reward
/// is its `totalReward` read as a decimal number; statistics that end at
/// another block end the attempt with a height mismatch. The height that
/// the statistics are checked against is the block reply's `height`.
pub proof fn lemma_reward_is_for_the_asked_block(
    network: Network,
    height: u64,
    block_body: Seq<char>,
    stats_body: Seq<char>,
)
    ensures
        (match spec_lookup_step(
            RewardLookup::AwaitStats { network, height },
            LookupEventView::Reply(stats_body),
        ) {
            LookupActionView::Finish(Ok(v)) => match spec_parse_json(stats_body) {
                Some(reply) => {
                    &&& spec_as_u64(spec_get(Some(reply), "startBlock"@)) == Some(height)
                    &&& spec_as_u64(spec_get(Some(reply), "endBlock"@)) == Some(height)
                    &&& match spec_as_str(spec_get(Some(reply), "totalReward"@)) {
                        Some(t) => spec_parse_u64(t) == Ok::<nat, IntParseError>(v as nat),
                        None => false,
                    }
                },
                None => false,
            },
            _ => true,
        }),
        (match spec_parse_json(stats_body) {
            Some(reply) => (spec_as_u64(spec_get(Some(reply), "startBlock"@)) is Some && match spec_as_u64(
                spec_get(Some(reply), "endBlock"@),
            ) {
                Some(e) => e != height,
                None => false,
            }) ==> spec_lookup_step(
                RewardLookup::AwaitStats { network, height },
                LookupEventView::Reply(stats_body),
            ) == LookupActionView::Finish(Err(RewardErrorView::HeightMismatch)),
            None => true,
        }),
        (match spec_lookup_step(
            RewardLookup::AwaitBlock { network },
            LookupEventView::Reply(block_body),
        ) {
            LookupActionView::Get { url, next: RewardLookup::AwaitStats { network: n, height: h } } => {
                &&& n == network
                &&& match spec_parse_json(block_body) {
                    Some(reply) => spec_as_u64(spec_get(Some(reply), "height"@)) == Some(h),
                    None => false,
                }
            },
            LookupActionView::Get { url, next: RewardLookup::AwaitBlock { .. } } => false,
            _ => true,
        }),
{
    if let Some(reply) = spec_parse_json(stats_body) {
        if let Some(t) = spec_as_str(spec_get(Some(reply), "totalReward"@)) {
            lemma_parse_u64_bounded(t);
        }
    }
}

/// Why an attempt fails on a reply: a body that is not JSON fails with the
/// parser's message; a block reply without an unsigned `height` with a
/// missing height; statistics without an unsigned `startBlock`, or then
/// without an unsigned `endBlock`, with that field missing; statistics for
/// the asked block without a string `totalReward`, or with one that is not
/// a decimal `u64`, with that error.
pub proof fn lemma_reply_errors(network: Network, height: u64, body: Seq<char>)
    ensures
        spec_parse_json(body) is None ==> spec_lookup_step(
            RewardLookup::AwaitBlock { network },
            LookupEventView::Reply(body),
        ) == LookupActionView::Finish(Err(RewardErrorView::Json(spec_json_error(body))))
            && spec_lookup_step(
            RewardLookup::AwaitStats { network, height },
            LookupEventView::Reply(body),
        ) == LookupActionView::Finish(Err(RewardErrorView::Json(spec_json_error(body)))),
        (match spec_parse_json(body) {
            Some(reply) => {
                let start = spec_as_u64(spec_get(Some(reply), "startBlock"@));
                let end = spec_as_u64(spec_get(Some(reply), "endBlock"@));
                let total = spec_as_str(spec_get(Some(reply), "totalReward"@));
                let stats = spec_lookup_step(
                    RewardLookup::AwaitStats { network, height },
                    LookupEventView::Reply(body),
                );
                &&& spec_as_u64(spec_get(Some(reply), "height"@)) is None ==> spec_lookup_step(
                    RewardLookup::AwaitBlock { network },
                    LookupEventView::Reply(body),
                ) == LookupActionView::Finish(Err(RewardErrorView::MissingHeight))
                &&& start is None ==> stats == LookupActionView::Finish(
                    Err(RewardErrorView::MissingStartBlock),
                )
                &&& (start is Some && end is None) ==> stats == LookupActionView::Finish(
                    Err(RewardErrorView::MissingEndBlock),
                )
                &&& (start == Some(height) && end == Some(height) && total is None) ==> stats
                    == LookupActionView::Finish(Err(RewardErrorView::MissingTotalReward))
                &&& (start == Some(height) && end == Some(height)) ==> match total {
                    Some(t) => match spec_parse_u64(t) {
                        Err(e) => stats == LookupActionView::Finish(
                            Err(RewardErrorView::InvalidTotalReward(e)),
                        ),
                        Ok(_) => true,
                    },
                    None => true,
                }
            },
            None => true,
        }),
{
}

/// One attempt at a block reward makes no request when `NETWORK` names no
/// known network. Otherwise it asks for the block first; it asks for the
/// reward statistics of the same network next exactly when the block reply
/// parses with an unsigned height, and whatever comes back for that ends
/// the attempt: it makes at most these two requests.
pub proof fn lemma_lookup_requests(
    network_name: Seq<char>,
    hash: Seq<char>,
    first: LookupEventView,
    second: LookupEventView,
)
    ensures
        spec_network(network_name) is None ==> spec_start_lookup(network_name, hash)
            == LookupActionView::Finish(Err(RewardErrorView::InvalidNetwork)),
        spec_network(network_name) matches Some(network) ==> {
            let block = RewardLookup::AwaitBlock { network };
            let after_block = spec_lookup_step(block, first);
            &&& spec_start_lookup(network_name, hash) == LookupActionView::Get {
                url: spec_block_url(network, hash),
                next: block,
            }
            &&& (after_block is Get) <==> (first matches LookupEventView::Reply(body)
                && spec_height_from_body(body) is Ok)
            &&& match first {
                LookupEventView::Reply(body) => match spec_height_from_body(body) {
                    Ok(height) => {
                        let stats = RewardLookup::AwaitStats { network, height };
                        &&& after_block == LookupActionView::Get {
                            url: spec_reward_stats_url(network),
                            next: stats,
                        }
                        &&& spec_lookup_step(stats, second) is Finish
                    },
                    Err(_) => after_block is Finish,
                },
                LookupEventView::Failed(_) => after_block is Finish,
            }
        },
{
}

/// What the reward lookup with retries does next.
#[derive(Debug, Clone, Copy, PartialEq, Eq, Structural)]
pub enum RetryStep {
    /// Ask for the reward (one more attempt).
    Fetch,
    /// The attempt failed: wait the retry delay, then ask `next_step` again.
    Sleep,
    /// The reward was found.
    Delivered(u64),
    /// Every allowed attempt failed.
    GiveUp,
}

/// The attempts made so far at looking up a block reward, out of `retries`
/// allowed.
#[derive(Debug, Clone, Copy, PartialEq, Eq, Structural)]
pub struct RewardRetry {
    pub attempt: usize,
    pub retries: usize,
}

/// Another attempt is made only while fewer than `retries` have failed.
pub open spec fn spec_next_step(r: RewardRetry) -> RetryStep {
    if r.attempt < r.retries {
        RetryStep::Fetch
    } else {
        RetryStep::GiveUp
    }
}

/// An attempt's outcome (`Some` reward, or `None` for an error): a reward
/// ends the lookup, an error counts one more failed attempt.
pub open spec fn spec_record(r: RewardRetry, outcome: Option<u64>) -> (RewardRetry, RetryStep) {
    match outcome {
        Some(reward) => (r, RetryStep::Delivered(reward)),
        None => (RewardRetry { attempt: (r.attempt + 1) as usize, ..r }, RetryStep::Sleep),
    }
}

impl RewardRetry {
    /// A lookup that may make `retries` attempts.
    pub fn new(retries: usize) -> (r: RewardRetry)
        ensures
            r.attempt == 0,
            r.retries == retries,
    {
        RewardRetry { attempt: 0, retries }
    }

    /// Whether another attempt is made.
    pub fn next_step(&self) -> (step: RetryStep)
        ensures
            step == spec_next_step(*self),
    {
        if self.attempt < self.retries {
            RetryStep::Fetch
        } else {
            RetryStep::GiveUp
        }
    }

    /// Takes in the outcome of an attempt made after `next_step` said `Fetch`.
    pub fn record(&mut self, outcome: &Result<u64, RewardError>) -> (step: RetryStep)
        requires
            spec_next_step(*old(self)) == RetryStep::Fetch,
        ensures
            (*final(self), step) == spec_record(
                *old(self),
                match outcome {
                    Ok(reward) => Some(*reward),
                    Err(_) => None,
                },
            ),
    {
        match outcome {
            Ok(reward) => RetryStep::Delivered(*reward),
            Err(_) => {
                self.attempt = self.attempt + 1;
                RetryStep::Sleep
            },
        }
    }
}

/// The text of the error given when every attempt failed.
pub fn retries_exhausted_message() -> (text: String)
    ensures
        text@ == "Failed to fetch block reward after multiple attempts"@,
{
    String::from_str("Failed to fetch block reward after multiple attempts")
}

/// Where a lookup in state `r` ends when its attempts come out as `outcomes`
/// says, in order: the number of attempts made and the last step (`Fetch`
/// when the outcomes ran out first).
pub open spec fn spec_retry_run(r: RewardRetry, outcomes: Seq<Option<u64>>) -> (nat, RetryStep)
    decreases outcomes.len(),
{
    if spec_next_step(r) == RetryStep::GiveUp {
        (0, RetryStep::GiveUp)
    } else if outcomes.len() == 0 {
        (0, RetryStep::Fetch)
    } else {
        let (next, step) = spec_record(r, outcomes[0]);
        if step == RetryStep::Sleep {
            let (made, last) = spec_retry_run(next, outcomes.drop_first());
            (made + 1, last)
        } else {
            (1, step)
        }
    }
}

/// A lookup with `retries` allowed attempts asks at most `retries` times,
/// whatever the outcomes; when all of them fail it asks exactly `retries`
/// times and gives up; when the first success comes at attempt `k + 1`,
/// within the allowed attempts, it asks `k + 1` times and delivers that
/// reward.
pub proof fn lemma_retry_attempts_bounded(retries: usize, outcomes: Seq<Option<u64>>, k: int)
    ensures
        spec_retry_run(RewardRetry { attempt: 0, retries }, outcomes).0 <= retries,
        (outcomes.len() >= retries && forall|i: int| 0 <= i < retries ==> outcomes[i] is None)
            ==> spec_retry_run(RewardRetry { attempt: 0, retries }, outcomes) == (
            retries as nat,
            RetryStep::GiveUp,
        ),
        (0 <= k < retries && k < outcomes.len() && outcomes[k] is Some && forall|i: int|
            0 <= i < k ==> outcomes[i] is None) ==> spec_retry_run(
            RewardRetry { attempt: 0, retries },
            outcomes,
        ) == ((k + 1) as nat, RetryStep::Delivered(outcomes[k]->0)),
{
    lemma_retry_run_from(RewardRetry { attempt: 0, retries }, outcomes, k);
}

proof fn lemma_retry_run_from(r: RewardRetry, outcomes: Seq<Option<u64>>, k: int)
    requires
        r.attempt <= r.retries,
    ensures
        spec_retry_run(r, outcomes).0 <= r.retries - r.attempt,
        (outcomes.len() >= r.retries - r.attempt && forall|i: int|
            0 <= i < r.retries - r.attempt ==> outcomes[i] is None) ==> spec_retry_run(
            r,
            outcomes,
        ) == ((r.retries - r.attempt) as nat, RetryStep::GiveUp),
        (0 <= k < r.retries - r.attempt && k < outcomes.len() && outcomes[k] is Some && forall|
            i: int,
        | 0 <= i < k ==> outcomes[i] is None) ==> spec_retry_run(r, outcomes) == (
            (k + 1) as nat,
            RetryStep::Delivered(outcomes[k]->0),
        ),
    decreases outcomes.len(),
{
    if r.attempt < r.retries && outcomes.len() > 0 {
        let next = RewardRetry { attempt: (r.attempt + 1) as usize, ..r };
        lemma_retry_run_from(next, outcomes.drop_first(), k - 1);
        if outcomes.len() >= r.retries - r.attempt && forall|i: int|
            0 <= i < r.retries - r.attempt ==> outcomes[i] is None {
            assert(outcomes[0] is None);
            assert forall|i: int| 0 <= i < r.retries - next.attempt implies outcomes.drop_first()[i] is None by {
                assert(outcomes[i + 1] is None);
            }
        }
        if 0 < k < r.retries - r.attempt && k < outcomes.len() && outcomes[k] is Some && forall|i: int|
            0 <= i < k ==> outcomes[i] is None {
            assert(outcomes[0] is None);
            assert(outcomes.drop_first()[k - 1] == outcomes[k]);
            assert forall|i: int| 0 <= i < k - 1 implies outcomes.drop_first()[i] is None by {
                assert(outcomes[i + 1] is None);
            }
        }
    }
}

} // verus!
