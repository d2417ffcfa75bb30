use std::sync::Arc;
use std::sync::atomic::{AtomicUsize, Ordering};
use ddstats_rust::client::{CompiledRun, ConnectionState, SubmitGameEvent};
use ddstats_rust::config::{DDStatsRustConfig, Discord, LogoStyle, Stream, Style, Styles, Submit, Theming, UiConf};
use ddstats_rust::consts::{death_type_caps, death_type_name};
use ddstats_rust::grpc_client::{game_link, retry_submit, should_submit, should_submit_sio, should_upload_replay, submit_broadcast_data, submitted_log};
use ddstats_rust::grpc_models::{widen_counts, Run, SubmitGameRequest};
use ddstats_rust::mem::{StatsBlockWithFrames, StatsFrame};
use ddstats_rust::net::{motd_url, submit_url, submits_run};
use ddstats_rust::replay_recv::received_text;
use ddstats_rust::threads::{apply_message, BusOutcome, Message, SharedState};
use ddstats_rust::timing::{Scheduler, TemporalTask};
use ddstats_rust::tray::{is_light_theme, tray_request, tray_start, window_icons, TrayEvent, TrayRequest};
use ddstats_rust::ui::{handle_ui_message, ui_tick, UiAction, UiKey, UiMessageAction, UiState};
use ddstats_rust::updater::has_write;
use ddstats_rust::web_clients::dd_info::{ddcl_up_to_date, marker_or_backup, marker_uri, parse_version, tool_uri, version_is_within, OperatingSystem, DDCL_MIMIC};

fn plain_styles() -> Styles {
    let s = Style::default();
    Styles {
        text: s, logo: s, logs: s, logs_title: s, log_text: s, most_recent_log: s, game_data: s,
        game_data_title: s, split_name: s, accent: s, split_diff_pos: s, split_diff_neg: s,
        split_diff_neutral: s, split_diff_gold: s,
    }
}

fn sample_config() -> DDStatsRustConfig {
    DDStatsRustConfig {
        host: "https://ddstats.com".to_string(),
        grpc_host: "https://grpc.ddstats.com".to_string(),
        offline: false,
        debug_logs: false,
        auto_clipboard: true,
        linux_restart_as_child: false,
        use_linux_proton: false,
        tray_icon: false,
        hide_window_on_start: false,
        upload_replays_automatically: true,
        block_marker_override: None,
        process_name_override: None,
        open_game_on_replay_request: true,
        saved_games_max: 25,
        record_threshold: 350.0f32.to_bits(),
        stream: Stream { stats: true, replay_stats: true, non_default_spawnsets: false },
        submit: Submit { stats: true, replay_stats: true, non_default_spawnsets: false, ddcl: true },
        discord: Discord { notify_above_1000: true, notify_player_best: true, notify_custom_spawnsets: false },
        ui_conf: UiConf {
            enabled: true,
            logo_style: LogoStyle::Auto,
            hide_logs: false,
            logo: None,
            orb_connection_animation: true,
            column_distance: 50,
            show_help_on_border: true,
            current_split_marker: "<".to_string(),
            current_split_live_change: true,
            always_show_splits: false,
            game_data_modules: vec![],
            theming: Theming { styles: plain_styles() },
        },
    }
}

#[test]
fn tray_rules() {
    assert!(is_light_theme(Some(1)));
    assert!(!is_light_theme(Some(0)));
    assert!(!is_light_theme(None));
    assert_eq!(window_icons(true), (3, 5));
    assert_eq!(window_icons(false), (2, 4));
    assert_eq!(tray_request(TrayEvent::Exit), TrayRequest::Exit);
    assert_eq!(tray_request(TrayEvent::ShowWindow), TrayRequest::ShowWindow);
    assert_eq!(tray_request(TrayEvent::HideWindow), TrayRequest::HideWindow);
}

#[test]
fn write_access() {
    assert!(has_write(0o100666, 1, 2));
    assert!(has_write(0o100600, 1000, 1000));
    assert!(!has_write(0o100600, 0, 1000));
    assert!(!has_write(0o100644, 0, 1000));
    assert!(!has_write(0o100200, 1000, 1000));
}

#[test]
fn received_replay_text() {
    let mut buf = [0u8; 40];
    let msg = br#"{"path":"/tmp/a.ddreplay"}"#;
    buf[..msg.len()].copy_from_slice(msg);
    assert_eq!(received_text(&buf).unwrap(), r#"{"path":"/tmp/a.ddreplay"}"#);
    assert_eq!(received_text(&[0, 0, b'x', 0, b'y', 0]).unwrap(), "x\0y");
    assert_eq!(received_text(&[0, 0]).unwrap(), "");
    assert!(received_text(&[0xff, 0]).is_none());
    let text = String::from_utf8(buf.to_vec()).unwrap();
    assert_eq!(received_text(&buf).unwrap(), text.trim_matches(char::from(0)));
}

#[test]
fn bus_state() {
    let mut s = SharedState { conn: Arc::new(ConnectionState::NotConnected), last_poll: Arc::new(StatsBlockWithFrames::default()), snowflake: Arc::new(1) };
    assert_eq!(apply_message(&mut s, Message::NewSnowflake(Arc::new(5))), BusOutcome::Continue);
    assert_eq!(*s.snowflake, 5);
    assert_eq!(apply_message(&mut s, Message::NewConnectionState(Arc::new(ConnectionState::Connected))), BusOutcome::Continue);
    assert_eq!(*s.conn, ConnectionState::Connected);
    let mut d = StatsBlockWithFrames::default();
    d.block.kills = 9;
    apply_message(&mut s, Message::NewGameData(Arc::new(d)));
    assert_eq!(s.last_poll.block.kills, 9);
    assert_eq!(apply_message(&mut s, Message::Log("x".into())), BusOutcome::Continue);
    assert_eq!(*s.snowflake, 5);
    assert_eq!(apply_message(&mut s, Message::SaveCfg), BusOutcome::SaveConfig);
    assert_eq!(apply_message(&mut s, Message::Exit), BusOutcome::SaveAndExit);
}

#[test]
fn legacy_service() {
    assert_eq!(motd_url("https://h"), "https://h/api/v2/client_connect");
    assert_eq!(submit_url("https://h"), "https://h/api/submit_game");
    assert!(submits_run(false, 0));
    assert!(!submits_run(true, 0));
    assert!(!submits_run(false, 3));
}

#[test]
fn ddinfo_versions_and_addresses() {
    assert_eq!(parse_version("1.3.0.0"), Some(vec![1, 3, 0, 0]));
    assert_eq!(parse_version("1.x"), None);
    assert_eq!(parse_version("1..2"), None);
    assert_eq!(parse_version("70000"), None);
    let ours = parse_version(DDCL_MIMIC).unwrap();
    assert!(version_is_within(&ours, &ours));
    assert!(version_is_within(&[1, 2, 0], &ours));
    // components are compared one by one, not as a whole number
    assert!(!version_is_within(&[1, 2, 9], &ours));
    assert!(!version_is_within(&[1, 4], &ours));
    assert!(version_is_within(&[1, 3, 0, 0, 5], &ours));
    assert_eq!(marker_uri(OperatingSystem::Linux), "https://devildaggers.info/api/process-memory/marker?operatingSystem=Linux");
    assert_eq!(marker_uri(OperatingSystem::Windows), "https://devildaggers.info/api/process-memory/marker?operatingSystem=Windows");
    assert_eq!(tool_uri("DevilDaggersCustomLeaderboards"), "https://devildaggers.info/api/tools/DevilDaggersCustomLeaderboards");
    assert_eq!(marker_or_backup(Some(5), 9), 5);
    assert_eq!(marker_or_backup(None, 9), 9);
}

#[test]
fn scheduler_runs_due_tasks_once() {
    fn bump_one(c: Arc<[AtomicUsize; 2]>) {
        c[0].fetch_add(1, Ordering::SeqCst);
    }
    fn bump_two(c: Arc<[AtomicUsize; 2]>) {
        c[1].fetch_add(1, Ordering::SeqCst);
    }
    let counts = Arc::new([AtomicUsize::new(0), AtomicUsize::new(0)]);
    let mut s: Scheduler<fn(Arc<[AtomicUsize; 2]>), [AtomicUsize; 2]> = Scheduler::new();
    s.create_task(TemporalTask::new(100, bump_one, counts.clone(), 0));
    s.create_task(TemporalTask::new(1000, bump_two, counts.clone(), 0));
    let read = |c: &Arc<[AtomicUsize; 2]>| (c[0].load(Ordering::SeqCst), c[1].load(Ordering::SeqCst));
    assert_eq!(s.execute_pending(50), Vec::<usize>::new());
    assert_eq!(read(&counts), (0, 0));
    assert_eq!(s.execute_pending(101), vec![0]);
    assert_eq!(read(&counts), (1, 0));
    assert_eq!(s.execute_pending(101), Vec::<usize>::new());
    assert_eq!(read(&counts), (1, 0));
    assert_eq!(s.execute_pending(1500), vec![0, 1]);
    assert_eq!(read(&counts), (2, 1));
    assert_eq!(s.tasks[1].last_execution, 1500);
}

#[test]
fn death_names() {
    assert_eq!(death_type_name(0), Some("Fallen"));
    assert_eq!(death_type_name(16), Some("Haunted"));
    assert_eq!(death_type_name(17), None);
    assert_eq!(death_type_caps(12), Some("ENVENOMATED"));
    assert_eq!(death_type_caps(17), None);
}

fn compiled(hash: &str, is_replay: bool, time: f32, daggers_hit: i32) -> CompiledRun {
    CompiledRun {
        version: "0.6.10".into(), player_id: 1, player_name: "p".into(), level_hash_md5: hash.into(),
        time_max: time.to_bits(), time_lvl2: 0, time_lvl3: 0, time_lvl4: 0, time_levi_down: 0,
        time_orb_down: 0, enemies_alive_max: 0, enemies_alive_max_time: 0, homing_daggers_max: 0,
        homing_daggers_max_time: 0, death_type: 0, is_replay, replay_player_id: 0, gems_collected: 0,
        enemies_killed: 0, enemies_alive: 0, level_gems: 0, homing_daggers: 0, gems_total: 0,
        gems_despawned: 0, gems_eaten: 0, daggers_eaten: 0, daggers_hit, daggers_fired: 0,
        per_enemy_alive_count: [1; 17], per_enemy_kill_count: [-2; 17], stats: vec![StatsFrame::default(); 3],
    }
}

const DEFAULT: &str = "569FEAD87ABF4D30FDEE4231A6398051";

#[test]
fn submission_rules() {
    let cfg = sample_config();
    let ev = SubmitGameEvent(compiled(DEFAULT, false, 600.0, 5), 0, Arc::new(vec![]));
    assert!(should_submit(&ev, &cfg));
    assert!(should_upload_replay(&ev, &cfg));
    assert!(should_submit_sio(&ev, &cfg));
    let short = SubmitGameEvent(compiled(DEFAULT, false, 300.0, 5), 0, Arc::new(vec![]));
    assert!(!should_upload_replay(&short, &cfg));
    let pacifist = SubmitGameEvent(compiled(DEFAULT, false, 300.0, 0), 0, Arc::new(vec![]));
    assert!(should_upload_replay(&pacifist, &cfg));
    let custom = SubmitGameEvent(compiled("00", false, 600.0, 5), 0, Arc::new(vec![]));
    assert!(!should_submit(&custom, &cfg));
    assert!(!should_upload_replay(&custom, &cfg));
}

#[test]
fn submission_texts() {
    assert_eq!(submit_broadcast_data(12, 34), "{ \"game_id\": 12, \"snowflake\": 34 }");
    assert_eq!(game_link("https://ddstats.com", 5), "https://ddstats.com/games/5");
    assert_eq!(submitted_log(5), "Submitted 5");
}

#[test]
fn request_records() {
    let c = compiled(DEFAULT, true, 600.0, 5);
    let r = SubmitGameRequest::from_compiled_run(c.clone());
    assert_eq!(r.per_enemy_alive_count, vec![1; 17]);
    assert_eq!(r.per_enemy_kill_count, vec![-2; 17]);
    assert_eq!(r.frames.len(), 3);
    assert!(r.is_replay);
    assert_eq!(r.time_max, c.time_max);
    assert_eq!(widen_counts(&[-1, 2]), vec![-1, 2]);
    let mut d = StatsBlockWithFrames::default();
    d.block.kills = 3;
    d.frames = vec![StatsFrame::default(); 2];
    let run = Run::from_sbwf(&d);
    assert_eq!(run.block.kills, 3);
    assert_eq!(run.frames.frames.len(), 2);
}

#[test]
fn ddcl_check_skipped_when_unused() {
    assert!(ddcl_up_to_date(false, false, None));
    assert!(ddcl_up_to_date(false, false, Some("9.9.9.9")));
}

#[test]
fn ddcl_check_fails_without_required_version() {
    assert!(!ddcl_up_to_date(true, false, None));
    assert!(!ddcl_up_to_date(false, true, None));
}

#[test]
fn ddcl_check_compares_components() {
    assert!(ddcl_up_to_date(true, true, Some("1.3.0.0")));
    assert!(ddcl_up_to_date(true, false, Some("1.2.0")));
    assert!(!ddcl_up_to_date(true, false, Some("1.2.9")));
    assert!(!ddcl_up_to_date(true, false, Some("1.4.0.0")));
    assert!(!ddcl_up_to_date(false, true, Some("2")));
    assert!(ddcl_up_to_date(true, false, Some("1.3.0.0.7")));
}

#[test]
fn tray_start_rules() {
    assert_eq!(tray_start(false, true), (false, None));
    assert_eq!(tray_start(false, false), (false, None));
    assert_eq!(tray_start(true, true), (true, Some(TrayEvent::HideWindow)));
    assert_eq!(tray_start(true, false), (true, None));
}

#[test]
fn submission_retries_stop_at_success_or_limit() {
    assert!(retry_submit(1, false));
    assert!(!retry_submit(1, true));
    assert!(retry_submit(10, false));
    assert!(!retry_submit(11, false));
    let mut attempts: u32 = 1;
    while retry_submit(attempts, false) {
        attempts += 1;
    }
    assert_eq!(attempts, 11);
}

#[test]
fn ui_messages_update_log_and_window() {
    let cfg = sample_config();
    let mut ui = UiState::new(&cfg.ui_conf);
    assert_eq!(ui.settings.draw_ui, cfg.ui_conf.enabled);
    assert!(!ui.settings.help);
    assert!(ui.log_list.is_empty());
    assert_eq!(handle_ui_message(&mut ui, Message::Log("a".into()), true), UiMessageAction::Nothing);
    assert_eq!(handle_ui_message(&mut ui, Message::Log("b".into()), true), UiMessageAction::Nothing);
    assert_eq!(ui.log_list, vec!["a".to_string(), "b".to_string()]);
    assert_eq!(handle_ui_message(&mut ui, Message::HideWindow, true), UiMessageAction::Clear);
    assert!(!ui.settings.draw_ui);
    assert_eq!(handle_ui_message(&mut ui, Message::SaveCfg, true), UiMessageAction::Nothing);
    assert!(!ui.settings.draw_ui);
    assert_eq!(ui_tick(&mut ui.settings, None), (UiAction::Nothing, false));
    assert_eq!(handle_ui_message(&mut ui, Message::ShowWindow, true), UiMessageAction::Nothing);
    assert!(ui.settings.draw_ui);
    assert_eq!(ui_tick(&mut ui.settings, None), (UiAction::Nothing, true));
    assert_eq!(ui_tick(&mut ui.settings, Some(UiKey::Char('q'))), (UiAction::Quit, false));
    assert_eq!(ui_tick(&mut ui.settings, Some(UiKey::F(3))), (UiAction::Clear, false));
    assert_eq!(handle_ui_message(&mut ui, Message::ShowWindow, false), UiMessageAction::Nothing);
    assert!(!ui.settings.draw_ui);
    assert_eq!(handle_ui_message(&mut ui, Message::Exit, true), UiMessageAction::Leave);
    assert_eq!(ui.log_list.len(), 2);
}
