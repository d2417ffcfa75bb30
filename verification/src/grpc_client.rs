//! Submission of finished runs: which runs go to the service, which replays
//! are uploaded, and the messages that report a submission.
use vstd::prelude::*;
use vstd::string::*;
use crate::client::{SubmitGameEvent, default_level_hash, is_non_default_spawnset};
use crate::config::DDStatsRustConfig;
use crate::consts::SUBMIT_RETRY_MAX;
use crate::float_bits::{f32_lt, lt};
use crate::text::{dec_nat, push_dec_u128, push_str};

verus! {

/// The client that submits runs (its connection lives with the caller).
pub struct GameSubmissionClient;

/// `100.0f32` as a bit pattern.
pub const HUNDRED_SECONDS: u32 = 0x42C8_0000;

/// `500.0f32` as a bit pattern.
pub const FIVE_HUNDRED_SECONDS: u32 = 0x43FA_0000;

/// Whether a run is submitted: runs on other spawnsets only when enabled,
/// replays only when replay submission is on, own runs only when run
/// submission is on.
pub open spec fn spec_should_submit(data: SubmitGameEvent, cfg: DDStatsRustConfig) -> bool {
    let non_default = data.0.level_hash_md5@ != default_level_hash();
    &&& !(non_default && !cfg.submit.non_default_spawnsets)
    &&& !(data.0.is_replay && !cfg.submit.replay_stats)
    &&& !(!data.0.is_replay && !cfg.submit.stats)
}

/// Whether a run is submitted.
pub fn should_submit(data: &SubmitGameEvent, cfg: &DDStatsRustConfig) -> (r: bool)
    ensures
        r == spec_should_submit(*data, *cfg),
{
    let is_non_default = is_non_default_spawnset(&data.0.level_hash_md5);
    if is_non_default && !cfg.submit.non_default_spawnsets {
        return false;
    }
    if data.0.is_replay && !cfg.submit.replay_stats {
        return false;
    }
    if !data.0.is_replay && !cfg.submit.stats {
        return false;
    }
    true
}

/// Whether the replay of a submitted run is uploaded: automatic uploads are
/// on, the run is on the default spawnset, it lasted at least 100 seconds,
/// and at least 500 seconds unless no dagger hit, and its kind of run is
/// submitted at all.
pub open spec fn spec_should_upload_replay(data: SubmitGameEvent, cfg: DDStatsRustConfig) -> bool {
    &&& cfg.upload_replays_automatically
    &&& data.0.level_hash_md5@ == default_level_hash()
    &&& !lt(data.0.time_max, HUNDRED_SECONDS)
    &&& !(lt(data.0.time_max, FIVE_HUNDRED_SECONDS) && data.0.daggers_hit > 0)
    &&& !(data.0.is_replay && !cfg.submit.replay_stats)
    &&& !(!data.0.is_replay && !cfg.submit.stats)
}

/// Whether the replay of a submitted run is uploaded.
pub fn should_upload_replay(data: &SubmitGameEvent, cfg: &DDStatsRustConfig) -> (r: bool)
    ensures
        r == spec_should_upload_replay(*data, *cfg),
{
    if !cfg.upload_replays_automatically {
        return false;
    }
    let is_non_default = is_non_default_spawnset(&data.0.level_hash_md5);
    if is_non_default {
        return false;
    }
    if f32_lt(data.0.time_max, HUNDRED_SECONDS) {
        return false;
    }
    if f32_lt(data.0.time_max, FIVE_HUNDRED_SECONDS) && data.0.daggers_hit > 0 {
        return false;
    }
    if data.0.is_replay && !cfg.submit.replay_stats {
        return false;
    }
    if !data.0.is_replay && !cfg.submit.stats {
        return false;
    }
    true
}

/// Whether a submitted run is announced on the live service: runs on other
/// spawnsets only when their submission is enabled; own runs when live
/// stats are on, replays when live replay stats are on.
pub open spec fn spec_should_submit_sio(data: SubmitGameEvent, cfg: DDStatsRustConfig) -> bool {
    let non_default = data.0.level_hash_md5@ != default_level_hash();
    &&& !(non_default && !cfg.submit.non_default_spawnsets)
    &&& (cfg.stream.stats && !data.0.is_replay || cfg.stream.replay_stats && data.0.is_replay)
}

/// Whether a submitted run is announced on the live service.
pub fn should_submit_sio(data: &SubmitGameEvent, cfg: &DDStatsRustConfig) -> (r: bool)
    ensures
        r == spec_should_submit_sio(*data, *cfg),
{
    let is_non_default = is_non_default_spawnset(&data.0.level_hash_md5);
    if is_non_default && !cfg.submit.non_default_spawnsets {
        return false;
    }
    cfg.stream.stats && !data.0.is_replay || cfg.stream.replay_stats && data.0.is_replay
}

/// The data of the broadcast that reports a submitted game:
/// `{ "game_id": <id>, "snowflake": <snowflake> }`.
pub fn submit_broadcast_data(game_id: u32, snowflake: u128) -> (s: String)
    ensures
        s@ == "{ \"game_id\": "@ + dec_nat(game_id as nat) + ", \"snowflake\": "@
            + dec_nat(snowflake as nat) + " }"@,
{
    let mut s = String::from_str("{ \"game_id\": ");
    push_dec_u128(&mut s, game_id as u128);
    push_str(&mut s, ", \"snowflake\": ");
    push_dec_u128(&mut s, snowflake);
    push_str(&mut s, " }");
    s
}

/// The address of a submitted game on the website: `<host>/games/<id>`.
pub fn game_link(host: &str, game_id: u32) -> (s: String)
    ensures
        s@ == host@ + "/games/"@ + dec_nat(game_id as nat),
{
    let mut s = String::from_str(host);
    push_str(&mut s, "/games/");
    push_dec_u128(&mut s, game_id as u128);
    s
}

/// The log line of a submitted game: `Submitted <id>`.
pub fn submitted_log(game_id: u32) -> (s: String)
    ensures
        s@ == "Submitted "@ + dec_nat(game_id as nat),
{
    let mut s = String::from_str("Submitted ");
    push_dec_u128(&mut s, game_id as u128);
    s
}

/// Whether a submission is tried again after `attempts` tries, the last
/// of which succeeded or not: only after a failure, and at most
/// `SUBMIT_RETRY_MAX` times after the first try.
pub open spec fn spec_retry_submit(attempts: int, succeeded: bool) -> bool {
    !succeeded && attempts <= SUBMIT_RETRY_MAX
}

/// Whether a submission is tried again.
pub fn retry_submit(attempts: u32, succeeded: bool) -> (r: bool)
    ensures
        r == spec_retry_submit(attempts as int, succeeded),
{
    !succeeded && attempts <= SUBMIT_RETRY_MAX as u32
}

/// How many tries a submission takes when the `k`-th try succeeds exactly
/// when `results[k - 1]` holds (`made` tries done so far).
pub open spec fn attempts_from(results: Seq<bool>, made: nat) -> nat
    decreases results.len() - made,
{
    if made == 0 || made >= results.len() || !spec_retry_submit(made as int, results[made - 1]) {
        made
    } else {
        attempts_from(results, made + 1)
    }
}

/// A submission is tried at most `SUBMIT_RETRY_MAX + 1` times, and the
/// tries stop at the first one that succeeds: every try before the last
/// failed.
pub proof fn lemma_submit_attempts(results: Seq<bool>, made: nat)
    requires
        1 <= made <= SUBMIT_RETRY_MAX + 1,
        forall|j: int| 0 <= j < made - 1 ==> !results[j],
    ensures
        attempts_from(results, made) <= SUBMIT_RETRY_MAX + 1,
        made <= attempts_from(results, made),
        forall|j: int| 0 <= j < attempts_from(results, made) - 1 ==> !results[j],
    decreases results.len() - made,
{
    if made < results.len() && spec_retry_submit(made as int, results[made - 1]) {
        lemma_submit_attempts(results, made + 1);
    }
}

/// A run is submitted exactly when the configuration allows its kind: a
/// replay only with replay submission on, an own run only with run
/// submission on, and a run on another spawnset only with submission of
/// such runs on.
pub proof fn lemma_submit_by_config(data: SubmitGameEvent, cfg: DDStatsRustConfig)
    ensures
        data.0.is_replay && !cfg.submit.replay_stats ==> !spec_should_submit(data, cfg),
        !data.0.is_replay && !cfg.submit.stats ==> !spec_should_submit(data, cfg),
        data.0.level_hash_md5@ != default_level_hash() && !cfg.submit.non_default_spawnsets
            ==> !spec_should_submit(data, cfg),
        data.0.level_hash_md5@ == default_level_hash() && data.0.is_replay && cfg.submit.replay_stats
            ==> spec_should_submit(data, cfg),
        data.0.level_hash_md5@ == default_level_hash() && !data.0.is_replay && cfg.submit.stats
            ==> spec_should_submit(data, cfg),
        cfg.submit.non_default_spawnsets && data.0.is_replay && cfg.submit.replay_stats
            ==> spec_should_submit(data, cfg),
        cfg.submit.non_default_spawnsets && !data.0.is_replay && cfg.submit.stats
            ==> spec_should_submit(data, cfg),
{
}

/// A replay is uploaded only when automatic uploads are on, the run is on
/// the default spawnset, its kind may be submitted (replays only with
/// replay submission on, own runs only with run submission on), it lasted
/// at least a hundred seconds, and a run under five hundred seconds hit no
/// dagger.
pub proof fn lemma_upload_by_config(data: SubmitGameEvent, cfg: DDStatsRustConfig)
    ensures
        spec_should_upload_replay(data, cfg) ==> cfg.upload_replays_automatically,
        spec_should_upload_replay(data, cfg) ==> data.0.level_hash_md5@ == default_level_hash(),
        data.0.is_replay && !cfg.submit.replay_stats ==> !spec_should_upload_replay(data, cfg),
        !data.0.is_replay && !cfg.submit.stats ==> !spec_should_upload_replay(data, cfg),
        lt(data.0.time_max, HUNDRED_SECONDS) ==> !spec_should_upload_replay(data, cfg),
        lt(data.0.time_max, FIVE_HUNDRED_SECONDS) && data.0.daggers_hit > 0
            ==> !spec_should_upload_replay(data, cfg),
        cfg.upload_replays_automatically && data.0.level_hash_md5@ == default_level_hash()
            && !lt(data.0.time_max, FIVE_HUNDRED_SECONDS)
            && (if data.0.is_replay { cfg.submit.replay_stats } else { cfg.submit.stats })
            ==> spec_should_upload_replay(data, cfg),
{
    assert(0x42C8_0000u32 >> 31u32 == 0u32 && 0x42C8_0000u32 & 0x7fff_ffffu32 == 0x42C8_0000u32) by (bit_vector);
    assert(0x43FA_0000u32 >> 31u32 == 0u32 && 0x43FA_0000u32 & 0x7fff_ffffu32 == 0x43FA_0000u32) by (bit_vector);
    assert(crate::float_bits::order_key(HUNDRED_SECONDS) < crate::float_bits::order_key(FIVE_HUNDRED_SECONDS));
}

/// A submitted run is announced live only when live streaming allows its
/// kind: a replay only with live replay stats on, an own run only with live
/// stats on, and a run on another spawnset only with submission of such
/// runs on.
pub proof fn lemma_announce_by_config(data: SubmitGameEvent, cfg: DDStatsRustConfig)
    ensures
        data.0.is_replay && !cfg.stream.replay_stats ==> !spec_should_submit_sio(data, cfg),
        !data.0.is_replay && !cfg.stream.stats ==> !spec_should_submit_sio(data, cfg),
        data.0.level_hash_md5@ != default_level_hash() && !cfg.submit.non_default_spawnsets
            ==> !spec_should_submit_sio(data, cfg),
        data.0.level_hash_md5@ == default_level_hash() && data.0.is_replay && cfg.stream.replay_stats
            ==> spec_should_submit_sio(data, cfg),
        data.0.level_hash_md5@ == default_level_hash() && !data.0.is_replay && cfg.stream.stats
            ==> spec_should_submit_sio(data, cfg),
{
}

} // verus!
