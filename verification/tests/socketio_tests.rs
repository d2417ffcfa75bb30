use ddstats_rust::config::{DDStatsRustConfig, Discord, LogoStyle, Stream, Style, Styles, Submit, Theming, UiConf};
use ddstats_rust::mem::StatsBlockWithFrames;
use ddstats_rust::socketio_client::{
    create_change_status_message, create_login_message, create_sio_submit, create_submit_stats_message,
    after_login, after_send, live_death_type, notify_flags, SendOutcome, plan_sio_tick, should_submit_sio, status_code, SioOutgoing, SioStatus,
    SioStep, SubmitSioEvent,
};
use ddstats_rust::mem::GameStatus;

fn plain_styles() -> Styles {
    let s = Style::default();
    Styles {
        text: s, logo: s, logs: s, logs_title: s, log_text: s, most_recent_log: s, game_data: s,
        game_data_title: s, split_name: s, accent: s, split_diff_pos: s, split_diff_neg: s,
        split_diff_neutral: s, split_diff_gold: s,
    }
}

fn sample_config() -> DDStatsRustConfig {
    DDStatsRustConfig {
        host: "https://ddstats.com".to_string(),
        grpc_host: "https://grpc.ddstats.com".to_string(),
        offline: false,
        debug_logs: false,
        auto_clipboard: true,
        linux_restart_as_child: false,
        use_linux_proton: false,
        tray_icon: false,
        hide_window_on_start: false,
        upload_replays_automatically: true,
        block_marker_override: None,
        process_name_override: None,
        open_game_on_replay_request: true,
        saved_games_max: 25,
        record_threshold: 350.0f32.to_bits(),
        stream: Stream { stats: true, replay_stats: true, non_default_spawnsets: false },
        submit: Submit { stats: true, replay_stats: true, non_default_spawnsets: false, ddcl: true },
        discord: Discord { notify_above_1000: true, notify_player_best: true, notify_custom_spawnsets: false },
        ui_conf: UiConf {
            enabled: true,
            logo_style: LogoStyle::Auto,
            hide_logs: false,
            logo: None,
            orb_connection_animation: true,
            column_distance: 50,
            show_help_on_border: true,
            current_split_marker: "<".to_string(),
            current_split_live_change: true,
            always_show_splits: false,
            game_data_modules: vec![],
            theming: Theming { styles: plain_styles() },
        },
    }
}

const DEFAULT_MD5: [u8; 16] = [0x56, 0x9f, 0xea, 0xd8, 0x7a, 0xbf, 0x4d, 0x30, 0xfd, 0xee, 0x42, 0x31, 0xa6, 0x39, 0x80, 0x51];

#[test]
fn message_formats() {
    assert_eq!(create_sio_submit(&SubmitSioEvent { game_id: 123 }, (true, false)), "42[\"game_submitted\",123,true,false]");
    assert_eq!(create_change_status_message(42, 4), "42[\"status_update\",42,4]");
    assert_eq!(create_change_status_message(-1, -2), "42[\"status_update\",-1,-2]");
    assert_eq!(create_login_message(9001), "42[\"login\", 9001]");
}

#[test]
fn stats_message_matches_format() {
    let mut d = StatsBlockWithFrames::default();
    d.block.player_id = 5;
    d.block.gems_total = 10;
    d.block.homing = 3;
    d.block.enemies_alive = 7;
    d.block.kills = 8;
    d.block.daggers_hit = 9;
    d.block.daggers_fired = 11;
    d.block.is_replay = true;
    let cfg = sample_config();
    let (t, a, b, c) = (12.5f32, 0.0f32, 1.25f32, 99.123456f32);
    let msg = create_submit_stats_message(&d, -1, &format!("{:.4}", t), &format!("{:.4}", a), &format!("{:.4}", b), &format!("{:.4}", c), &cfg);
    let expected = format!("42[\"submit\",{},{:.4},{},{},{},{},{},{},{:.4},{:.4},{:.4},{},{},{},{}]",
        5, t, 10, 3, 7, 8, 9, 11, a, b, c, true, -1, true, true);
    assert_eq!(msg, expected);
}

#[test]
fn streaming_rules() {
    let mut cfg = sample_config();
    let mut d = StatsBlockWithFrames::default();
    d.block.survival_md5 = DEFAULT_MD5;
    assert!(should_submit_sio(&d, &cfg));
    d.block.survival_md5 = [0; 16];
    assert!(!should_submit_sio(&d, &cfg));
    cfg.submit.non_default_spawnsets = true;
    assert!(should_submit_sio(&d, &cfg));
    cfg.stream.stats = false;
    assert!(!should_submit_sio(&d, &cfg));
    d.block.is_replay = true;
    assert!(should_submit_sio(&d, &cfg));
}

#[test]
fn codes_and_flags() {
    assert_eq!(status_code(GameStatus::Title), 4);
    assert_eq!(status_code(GameStatus::Menu), 4);
    assert_eq!(status_code(GameStatus::Lobby), 5);
    assert_eq!(status_code(GameStatus::Playing), 2);
    assert_eq!(status_code(GameStatus::Dead), 6);
    assert_eq!(status_code(GameStatus::OtherReplay), 3);
    assert_eq!(live_death_type(3, 9), -1);
    assert_eq!(live_death_type(4, 9), 9);
    assert_eq!(live_death_type(6, 9), -2);
    let cfg = sample_config();
    assert_eq!(notify_flags(&cfg, false), (true, true));
    assert_eq!(notify_flags(&cfg, true), (false, false));
}

#[test]
fn tick_plans() {
    let cfg = sample_config();
    let mut d = StatsBlockWithFrames::default();
    d.block.survival_md5 = DEFAULT_MD5;
    d.block.player_id = 77;
    assert!(matches!(plan_sio_tick(false, SioStatus::LoggedIn, true, None, false, &d, &cfg), Some(SioStep::Disconnect)));
    assert!(matches!(plan_sio_tick(true, SioStatus::Disconnected, true, None, false, &d, &cfg), Some(SioStep::Login)));
    assert!(matches!(plan_sio_tick(true, SioStatus::Connected, false, None, false, &d, &cfg), Some(SioStep::Wait)));
    d.block.status = 1;
    match plan_sio_tick(true, SioStatus::LoggedIn, false, Some(SubmitSioEvent { game_id: 5 }), true, &d, &cfg) {
        Some(SioStep::Send(v)) => assert_eq!(v, vec![
            SioOutgoing::GameSubmitted(5, true, true),
            SioOutgoing::KeepAlive,
            SioOutgoing::StatusUpdate(77, 4),
        ]),
        _ => panic!("expected messages"),
    }
    d.block.is_in_game = true;
    d.block.status = 3;
    match plan_sio_tick(true, SioStatus::LoggedIn, false, None, false, &d, &cfg) {
        Some(SioStep::Send(v)) => assert_eq!(v, vec![SioOutgoing::Stats(-1)]),
        _ => panic!("expected messages"),
    }
    d.block.is_in_game = false;
    d.block.status = 42;
    assert!(plan_sio_tick(true, SioStatus::LoggedIn, false, None, false, &d, &cfg).is_none());
}

#[test]
fn failed_send_drops_the_connection() {
    let ok = after_send(SioStatus::LoggedIn, SioOutgoing::Stats(-1), true);
    assert_eq!(ok, SendOutcome { status: SioStatus::LoggedIn, keep_socket: true, go_on: true, clear_pending: false, ping_sent: false });
    let failed = after_send(SioStatus::LoggedIn, SioOutgoing::GameSubmitted(9, true, false), false);
    assert_eq!(failed, SendOutcome { status: SioStatus::Disconnected, keep_socket: false, go_on: false, clear_pending: true, ping_sent: false });
    let ping = after_send(SioStatus::LoggedIn, SioOutgoing::KeepAlive, false);
    assert!(ping.ping_sent && !ping.go_on && ping.status == SioStatus::Disconnected);
}

#[test]
fn login_outcomes() {
    assert_eq!(after_login(SioStatus::Disconnected, false, false), (SioStatus::Disconnected, false));
    assert_eq!(after_login(SioStatus::Disconnected, true, false), (SioStatus::Connected, true));
    assert_eq!(after_login(SioStatus::Connected, true, true), (SioStatus::LoggedIn, true));
}
