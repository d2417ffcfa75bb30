use std::sync::Arc;
use ddstats_rust::client::ConnectionState;
use ddstats_rust::config::{Color, DDStatsRustConfig, Discord, LogoStyle, Stream, Style, Styles, Submit, Theming, UiConf};
use ddstats_rust::mem::{StatsBlockWithFrames, StatsFrame};
use ddstats_rust::websocket_server::{
    color_from_match, color_set_styles, color_set_updates, ddcl_replay_ok_reply, parse_ws_request,
    replay_link_ok_reply, should_open_game, sse_miniblock, ws_reply, ColorProxy, MiniBlock, StatsDto,
    WsRequest, COLOR_SET_OK_REPLY, SSE_HELLO,
};

fn plain_styles() -> Styles {
    let s = Style::default();
    Styles {
        text: s, logo: s, logs: s, logs_title: s, log_text: s, most_recent_log: s, game_data: s,
        game_data_title: s, split_name: s, accent: s, split_diff_pos: s, split_diff_neg: s,
        split_diff_neutral: s, split_diff_gold: s,
    }
}

fn sample_config() -> DDStatsRustConfig {
    DDStatsRustConfig {
        host: "https://ddstats.com".to_string(),
        grpc_host: "https://grpc.ddstats.com".to_string(),
        offline: false,
        debug_logs: false,
        auto_clipboard: true,
        linux_restart_as_child: false,
        use_linux_proton: false,
        tray_icon: false,
        hide_window_on_start: false,
        upload_replays_automatically: true,
        block_marker_override: None,
        process_name_override: None,
        open_game_on_replay_request: true,
        saved_games_max: 25,
        record_threshold: 350.0f32.to_bits(),
        stream: Stream { stats: true, replay_stats: true, non_default_spawnsets: false },
        submit: Submit { stats: true, replay_stats: true, non_default_spawnsets: false, ddcl: true },
        discord: Discord { notify_above_1000: true, notify_player_best: true, notify_custom_spawnsets: false },
        ui_conf: UiConf {
            enabled: true,
            logo_style: LogoStyle::Auto,
            hide_logs: false,
            logo: None,
            orb_connection_animation: true,
            column_distance: 50,
            show_help_on_border: true,
            current_split_marker: "<".to_string(),
            current_split_live_change: true,
            always_show_splits: false,
            game_data_modules: vec![],
            theming: Theming { styles: plain_styles() },
        },
    }
}

#[test]
fn requests() {
    assert!(matches!(parse_ws_request("gimme"), WsRequest::Gimme));
    assert!(matches!(parse_ws_request("gimme "), WsRequest::Other));
    assert!(matches!(parse_ws_request("config"), WsRequest::Config));
    assert!(matches!(parse_ws_request("ddcl_replay 1234"), WsRequest::DdclReplay(Some(1234))));
    assert!(matches!(parse_ws_request("ddcl_replay -5 x"), WsRequest::DdclReplay(Some(-5))));
    assert!(matches!(parse_ws_request("ddcl_replay abc"), WsRequest::DdclReplay(None)));
    assert!(matches!(parse_ws_request("ddcl_replay"), WsRequest::DdclReplay(None)));
    assert!(matches!(parse_ws_request("ddcl_replay 99999999999"), WsRequest::DdclReplay(None)));
    match parse_ws_request("replay_link https://x/y.ddreplay") {
        WsRequest::ReplayLink(Some(l)) => assert_eq!(l, "https://x/y.ddreplay"),
        _ => panic!("expected a link"),
    }
    assert!(matches!(parse_ws_request("replay_link"), WsRequest::ReplayLink(None)));
    assert!(matches!(parse_ws_request("clr-set logo"), WsRequest::ColorSet));
    assert!(matches!(parse_ws_request("get-style"), WsRequest::GetStyle));
    assert!(matches!(parse_ws_request("hello"), WsRequest::Other));
}

#[test]
fn replies() {
    assert_eq!(ws_reply("fullblock", "{}"), "{\"type\": \"fullblock\", \"data\": {} }");
    assert_eq!(ddcl_replay_ok_reply(1234), "{\"type\": \"ddcl_replay_ok\", \"data\": { \"replay_id\": 1234 } }");
    assert_eq!(replay_link_ok_reply("u"), "{\"type\": \"replay_link_ok\", \"data\": { \"replay_link\": \"u\" } }");
    assert_eq!(COLOR_SET_OK_REPLY, "{\"type\": \"color_set_ok\", \"data\": null }");
    assert_eq!(SSE_HELLO, "{\"type\":\"hello\"}");
}

#[test]
fn colors() {
    assert_eq!(color_from_match("Rgb", "1", "2", "3"), Some(Color::Rgb(1, 2, 3)));
    assert_eq!(color_from_match("Rgb", "1", "", "3"), None);
    assert_eq!(color_from_match("Rgb", "256", "2", "3"), None);
    assert_eq!(color_from_match("Indexed", "17", "", ""), Some(Color::Indexed(17)));
    assert_eq!(color_from_match("LightCyan", "", "", ""), Some(Color::LightCyan));
    assert_eq!(color_from_match("Purple", "", "", ""), Some(Color::White));
    assert_eq!(ColorProxy::from_str("DarkGray").0, Color::DarkGray);
}

#[test]
fn color_edits_through_the_pattern() {
    let base = plain_styles();
    let r = color_set_updates(base, "clr-set logo Rgb 1 2 3 Red 0 0 0");
    assert_eq!(r.len(), 1);
    let s = r[0].unwrap();
    assert_eq!(s.logo.bg, Some(Color::Rgb(1, 2, 3)));
    assert_eq!(s.logo.fg, Some(Color::Red));
    assert_eq!(s.logs, base.logs);
    let none = color_set_updates(base, "clr-set logo Rgb");
    assert!(none.is_empty());
    let bad = color_set_updates(base, "clr-set logo Rgb  2 3 Red 0 0 0");
    assert_eq!(bad.len(), 1);
    assert!(bad[0].is_none());
    let unknown = color_set_updates(base, "clr-set nothing Blue 0 0 0 Red 0 0 0");
    assert_eq!(unknown[0], Some(base));
}

#[test]
fn color_edit_twice_is_once() {
    let base = plain_styles();
    let g: Vec<String> = ["split_diff_neg", "Indexed", "5", "0", "0", "Rgb", "9", "8", "7"].iter().map(|s| s.to_string()).collect();
    let once = color_set_styles(base, &g).unwrap();
    let twice = color_set_styles(once, &g).unwrap();
    assert_eq!(once, twice);
    assert_eq!(once.split_diff_neg.fg, Some(Color::Rgb(9, 8, 7)));
}

#[test]
fn open_game_rule() {
    let cfg = sample_config();
    assert!(should_open_game(ConnectionState::NotConnected, &cfg));
    assert!(!should_open_game(ConnectionState::Connecting, &cfg));
}

fn data() -> StatsBlockWithFrames {
    let mut d = StatsBlockWithFrames::default();
    d.block.time = 12.5f32.to_bits();
    d.block.kills = 40;
    let mut f0 = StatsFrame::default();
    f0.kills = 1;
    let mut f1 = StatsFrame::default();
    f1.kills = 2;
    d.frames = vec![f0, f1];
    d
}

#[test]
fn records_for_overlays() {
    let d = Arc::new(data());
    let dto = StatsDto::from_sbwf(d.clone());
    assert_eq!(dto.additional_info.frame_count, 2);
    assert!(dto.additional_info.connection_state.is_none());
    assert_eq!(dto.block.kills, 40);
    let mini = MiniBlock::from_stats(d.clone(), Arc::new(777));
    assert_eq!(f32::from_bits(mini.time), 12.5);
    assert_eq!(mini.kills, 40);
    assert_eq!(mini.snowflake, 777);
}

#[test]
fn stream_carries_record_once() {
    let d = data();
    let mini = MiniBlock::from_stats(Arc::new(d.clone()), Arc::new(10_000));
    let (last, ev) = sse_miniblock(0, mini, &d, 15_000);
    assert_eq!(last, 10_000);
    assert_eq!(ev._type, "miniblock");
    let extra = ev.extra.unwrap();
    assert_eq!(extra.frames.len(), 1);
    assert_eq!(extra.frames[0].kills, 1);
    let (_, again) = sse_miniblock(last, mini, &d, 15_001);
    assert!(again.extra.is_none());
    let (_, late) = sse_miniblock(0, mini, &d, 40_000);
    assert!(late.extra.is_none());
    let (_, future) = sse_miniblock(0, mini, &d, 5_000);
    assert!(future.extra.is_none());
}
