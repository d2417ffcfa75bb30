use std::sync::Arc;
use ddstats_rust::threads::Message;
use ddstats_rust::client::{
    after_poller_step, clipboard_site, create_submit_event, ddcl_prerequisites, is_non_default_spawnset,
    new_run_started, new_snowflake, plan_poll, poller_step, record_finished_run, replay_link,
    should_record_run, should_submit, md5_hex, upload_log, ConnectionState, PollerStep,
    UploadKind, LEGACY_REPLAY_SITE, REPLAY_SITE, local_replay_loaded, poll_bus_step, PollBusAction, PollRequests,
};
use ddstats_rust::grpc_models::{Block, Frames, Run, RunList, SavedData};
use ddstats_rust::mem::{GameStatus, StatsBlockWithFrames, StatsDataBlock, StatsFrame};

fn block(gems: i32, kills: i32) -> Block {
    Block {
        ddstats_version: 0, player_id: 0, username: vec![], time: 0, gems_collected: gems, kills,
        daggers_fired: 0, daggers_hit: 0, enemies_alive: 0, level_gems: 0, homing: 0,
        gems_despawned: 0, gems_eaten: 0, gems_total: 0, daggers_eaten: 0,
        per_enemy_alive_count: vec![], per_enemy_kill_count: vec![], is_player_alive: false,
        is_replay: false, death_type: 0, is_in_game: false, replay_player_id: 0,
        replay_player_name: vec![], survival_md5: vec![], time_lvl2: 0, time_lvl3: 0, time_lvl4: 0,
        levi_down_time: 0, orb_down_time: 0, status: 0, max_homing: 0, time_max_homing: 0,
        enemies_alive_max: 0, time_enemies_alive_max: 0, time_max: 0, stats_base: vec![],
        stats_frames_loaded: 0, stats_finished_loading: false, starting_hand: 0, starting_homing: 0,
        starting_time: 0, prohibited_mods: false, replay_base: vec![], replay_buffer_length: 0,
        replay_flag: false, game_mode: 0, is_time_attack_or_race_finished: false,
    }
}

fn run(gems: i32, kills: i32) -> Run {
    Run { block: block(gems, kills), frames: Frames { frames: vec![] } }
}

fn empty_saved() -> SavedData {
    SavedData { recorded_runs: 0, recent_runs: RunList { runs: vec![] }, min: run(0, 0), max: run(0, 0), avg: run(0, 0) }
}

#[test]
fn history_keeps_the_newest_runs() {
    let mut saved = empty_saved();
    for i in 1..=5 {
        record_finished_run(&mut saved, run(i * 10, i), 3);
    }
    assert_eq!(saved.recorded_runs, 5);
    assert_eq!(saved.recent_runs.runs.len(), 3);
    let gems: Vec<i32> = saved.recent_runs.runs.iter().map(|r| r.block.gems_collected).collect();
    assert_eq!(gems, vec![30, 40, 50]);
}

#[test]
fn first_run_seeds_minimum_and_maximum() {
    let mut saved = empty_saved();
    record_finished_run(&mut saved, run(100, 7), 25);
    // min/max compare the running average (still 0 before the update) with the new run
    assert_eq!(saved.min.block.gems_collected, 0);
    assert_eq!(saved.max.block.gems_collected, 100);
    // avg + (new - avg) / 1
    assert_eq!(saved.avg.block.gems_collected, 100);
    record_finished_run(&mut saved, run(50, 1), 25);
    // avg = 100 + (50 - 100) / 2 = 75
    assert_eq!(saved.avg.block.gems_collected, 75);
    assert_eq!(saved.min.block.gems_collected, 50);
    assert_eq!(saved.max.block.gems_collected, 100);
    assert!(saved.min.block.kills <= saved.max.block.kills);
}

#[test]
fn record_threshold() {
    assert!(should_record_run(351.0f32.to_bits(), 350.0f32.to_bits()));
    assert!(!should_record_run(350.0f32.to_bits(), 350.0f32.to_bits()));
    assert!(!should_record_run(f32::NAN.to_bits(), 350.0f32.to_bits()));
}

#[test]
fn run_start_and_submission_rules() {
    assert!(new_run_started(&GameStatus::Playing, &GameStatus::Playing));
    assert!(new_run_started(&GameStatus::OtherReplay, &GameStatus::Menu));
    assert!(!new_run_started(&GameStatus::OtherReplay, &GameStatus::OtherReplay));
    assert!(!new_run_started(&GameStatus::Dead, &GameStatus::Playing));
    let mut data = StatsBlockWithFrames::default();
    data.block.stats_finished_loading = true;
    assert!(should_submit(&data, false, &GameStatus::Dead));
    assert!(!should_submit(&data, true, &GameStatus::Dead));
    assert!(!should_submit(&data, false, &GameStatus::OwnReplayFromLastRun));
    data.block.stats_finished_loading = false;
    assert!(!should_submit(&data, false, &GameStatus::Dead));
}

#[test]
fn snowflake_rules() {
    assert_eq!(new_snowflake(GameStatus::Playing, GameStatus::Menu, 5, 100, 0), Some(100));
    assert_eq!(new_snowflake(GameStatus::Menu, GameStatus::Menu, 5, 100, 0), None);
    assert_eq!(new_snowflake(GameStatus::Playing, GameStatus::Playing, 200, 100, 0), Some(100));
    assert_eq!(new_snowflake(GameStatus::Playing, GameStatus::Playing, 50, 100, 60), None);
    assert_eq!(new_snowflake(GameStatus::Playing, GameStatus::Playing, 50, 100, 40), Some(100));
}

fn data_with_frames(status: i32, n: usize) -> StatsBlockWithFrames {
    let mut d = StatsBlockWithFrames::default();
    d.block.status = status;
    d.block.stats_finished_loading = true;
    d.frames = vec![StatsFrame::default(); n];
    d
}

#[test]
fn poll_plan_submits_once() {
    let d = data_with_frames(4, 3);
    let p = plan_poll(&d, GameStatus::Playing, 0, 0, 0, false, false, false, 0).unwrap();
    assert!(p.proceed && p.submit && !p.submitted);
    let p2 = plan_poll(&d, GameStatus::Dead, 0, 0, 0, false, true, false, 0).unwrap();
    assert!(!p2.submit && p2.submitted);
    // a new run clears the flag
    let playing = data_with_frames(3, 3);
    let p3 = plan_poll(&playing, GameStatus::Dead, 0, 0, 0, true, true, true, 0).unwrap();
    assert!(!p3.submitted && !p3.submit && !p3.play_replay && p3.upload_replay);
    assert!(plan_poll(&data_with_frames(12, 1), GameStatus::Menu, 0, 0, 0, false, false, false, 0).is_none());
    let no_frames = data_with_frames(4, 0);
    let p4 = plan_poll(&no_frames, GameStatus::Playing, 0, 0, 0, true, false, true, 0).unwrap();
    assert!(!p4.proceed && !p4.submit && !p4.upload_replay && p4.play_replay);
}

#[test]
fn poll_plan_records_long_runs() {
    let mut d = data_with_frames(4, 3);
    d.block.time_max = 400.0f32.to_bits();
    let p = plan_poll(&d, GameStatus::Playing, 0, 0, 0, false, false, false, 350.0f32.to_bits()).unwrap();
    assert!(p.record_run);
    d.block.time_max = 300.0f32.to_bits();
    let p = plan_poll(&d, GameStatus::Playing, 0, 0, 0, false, false, false, 350.0f32.to_bits()).unwrap();
    assert!(p.submit && !p.record_run);
}

#[test]
fn poller_connection_machine() {
    assert_eq!(poller_step(ConnectionState::NotConnected, 10_000, 6_000, 0), PollerStep::Wait);
    assert_eq!(poller_step(ConnectionState::NotConnected, 11_000, 6_000, 0), PollerStep::Attach);
    assert_eq!(poller_step(ConnectionState::Connecting, 10_000, 0, 8_000), PollerStep::CheckAttaching(false));
    assert_eq!(poller_step(ConnectionState::Connecting, 10_000, 0, 6_000), PollerStep::CheckAttaching(true));
    assert_eq!(poller_step(ConnectionState::Connected, 0, 0, 0), PollerStep::Poll);
    assert_eq!(after_poller_step(ConnectionState::NotConnected, PollerStep::Attach, true), ConnectionState::Connecting);
    assert_eq!(after_poller_step(ConnectionState::Connecting, PollerStep::CheckAttaching(true), false), ConnectionState::NotConnected);
    assert_eq!(after_poller_step(ConnectionState::Connecting, PollerStep::CheckAttaching(false), false), ConnectionState::Connecting);
    assert_eq!(after_poller_step(ConnectionState::Connected, PollerStep::Poll, false), ConnectionState::NotConnected);
    assert_eq!(ConnectionState::default(), ConnectionState::NotConnected);
}

#[test]
fn submit_event_swaps_ids_in_replays() {
    let mut d = data_with_frames(4, 2);
    d.block.player_id = 1;
    d.block.replay_player_id = 2;
    d.block.is_replay = true;
    let mut last = StatsFrame::default();
    last.gems_collected = 77;
    let ev = create_submit_event(&d, &last, 9, Arc::new(vec![1, 2, 3]));
    assert_eq!(ev.0.player_id, 2);
    assert_eq!(ev.0.replay_player_id, 1);
    assert_eq!(ev.0.gems_collected, 77);
    assert_eq!(ev.0.version, "0.6.10");
    assert_eq!(ev.1, 9);
    assert_eq!(ev.0.stats.len(), 2);
    assert_eq!(*ev.2, vec![1, 2, 3]);
}

#[test]
fn default_spawnset_detection() {
    assert!(!is_non_default_spawnset(&"569FEAD87ABF4D30FDEE4231A6398051".to_string()));
    assert!(is_non_default_spawnset(&"569fead87abf4d30fdee4231a6398051".to_string()));
    let mut d = data_with_frames(4, 1);
    d.block.survival_md5 = [1; 16];
    assert!(ddcl_prerequisites(&d, true));
    assert!(!ddcl_prerequisites(&d, false));
    d.block.status = 2;
    assert!(!ddcl_prerequisites(&d, true));
}

#[test]
fn replay_links_use_md5() {
    let replay = b"some replay bytes".to_vec();
    let hex = format!("{:x}", md5::compute(&replay));
    assert_eq!(replay_link(REPLAY_SITE, &replay), format!("https://ddstats.live/replay/{}", hex));
    assert_eq!(replay_link(LEGACY_REPLAY_SITE, b""), "https://ddreplay.herokuapp.com/replay/d41d8cd98f00b204e9800998ecf8427e");
    assert_eq!(md5_hex(&replay), hex);
}

#[test]
fn upload_follow_up() {
    assert_eq!(upload_log(true), "Replay Uploaded");
    assert_eq!(upload_log(false), "Replay Exists");
    assert_eq!(clipboard_site(UploadKind::GameBuffer, false, true), Some(REPLAY_SITE));
    assert_eq!(clipboard_site(UploadKind::GameBuffer, true, false), None);
    assert_eq!(clipboard_site(UploadKind::Handed(true), true, true), Some(LEGACY_REPLAY_SITE));
    assert_eq!(clipboard_site(UploadKind::Handed(false), true, true), None);
    assert_eq!(clipboard_site(UploadKind::Handed(true), false, true), None);
}

#[test]
fn spawnset_block_default() {
    let b = StatsDataBlock::default();
    assert_eq!(b.level_hash().len(), 32);
}

#[test]
fn poll_task_bus_messages() {
    let mut req = PollRequests::new();
    let d = Arc::new(vec![1u8, 2, 3]);
    assert!(matches!(poll_bus_step(&mut req, Message::Replay(d.clone()), ConnectionState::NotConnected, true), PollBusAction::OpenGame));
    assert_eq!(req.replay_request.as_deref(), Some(&vec![1u8, 2, 3]));
    assert!(matches!(poll_bus_step(&mut req, Message::Replay(d.clone()), ConnectionState::Connected, true), PollBusAction::Nothing));
    assert!(matches!(poll_bus_step(&mut req, Message::Replay(d.clone()), ConnectionState::NotConnected, false), PollBusAction::Nothing));
    assert!(!req.upload_replay_flag);
    assert!(matches!(poll_bus_step(&mut req, Message::UploadReplayBuffer, ConnectionState::Connected, true), PollBusAction::Nothing));
    assert!(req.upload_replay_flag);
    match poll_bus_step(&mut req, Message::PlayReplayLocalFile("r.ddreplay".into()), ConnectionState::NotConnected, true) {
        PollBusAction::ReadLocalFile(p) => assert_eq!(p, "r.ddreplay"),
        _ => panic!("expected a file read"),
    }
    match poll_bus_step(&mut req, Message::UploadReplayData(d.clone(), true), ConnectionState::Connected, true) {
        PollBusAction::Upload(b, manual) => assert!(manual && *b == vec![1u8, 2, 3]),
        _ => panic!("expected an upload"),
    }
    assert!(matches!(poll_bus_step(&mut req, Message::SaveCfg, ConnectionState::NotConnected, true), PollBusAction::Nothing));

    let mut req2 = PollRequests::new();
    assert!(!local_replay_loaded(&mut req2, None, ConnectionState::NotConnected, true));
    assert!(req2.replay_request.is_none());
    assert!(local_replay_loaded(&mut req2, Some(Arc::new(vec![9u8])), ConnectionState::NotConnected, true));
    assert_eq!(req2.replay_request.as_deref(), Some(&vec![9u8]));
    assert!(!local_replay_loaded(&mut req2, Some(Arc::new(vec![8u8])), ConnectionState::Connecting, true));
    assert_eq!(req2.replay_request.as_deref(), Some(&vec![8u8]));
}
