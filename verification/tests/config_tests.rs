use ddstats_rust::config::{
    get_log_file_path, new_config_location, priority_config_path, DDStatsRustConfig,
    DDStatsRustConfigV1, Discord, DiscordV1, LogoStyle, Stream, StreamV1, Style, Styles, StylesV1,
    Submit, SubmitV1, Theming, ThemingV1, UiConf, UiConfV1, Color, DEFAULT_RECORD_THRESHOLD,
    DEFAULT_SAVED_GAMES_MAX,
};

fn plain_styles() -> Styles {
    let s = Style::default();
    Styles {
        text: s, logo: s, logs: s, logs_title: s, log_text: s, most_recent_log: s, game_data: s,
        game_data_title: s, split_name: s, accent: s, split_diff_pos: s, split_diff_neg: s,
        split_diff_neutral: s, split_diff_gold: s,
    }
}

fn sample_config() -> DDStatsRustConfig {
    DDStatsRustConfig {
        host: "https://ddstats.com".to_string(),
        grpc_host: "https://grpc.ddstats.com".to_string(),
        offline: false,
        debug_logs: false,
        auto_clipboard: true,
        linux_restart_as_child: false,
        use_linux_proton: false,
        tray_icon: false,
        hide_window_on_start: false,
        upload_replays_automatically: true,
        block_marker_override: None,
        process_name_override: None,
        open_game_on_replay_request: true,
        saved_games_max: 25,
        record_threshold: 350.0f32.to_bits(),
        stream: Stream { stats: true, replay_stats: true, non_default_spawnsets: false },
        submit: Submit { stats: true, replay_stats: true, non_default_spawnsets: false, ddcl: true },
        discord: Discord { notify_above_1000: true, notify_player_best: true, notify_custom_spawnsets: false },
        ui_conf: UiConf {
            enabled: true,
            logo_style: LogoStyle::Auto,
            hide_logs: false,
            logo: None,
            orb_connection_animation: true,
            column_distance: 50,
            show_help_on_border: true,
            current_split_marker: "<".to_string(),
            current_split_live_change: true,
            always_show_splits: false,
            game_data_modules: vec![],
            theming: Theming { styles: plain_styles() },
        },
    }
}

fn v1_config() -> DDStatsRustConfigV1 {
    let s = Style::default().fg(Color::Red);
    let styles = StylesV1 {
        text: s, logo: s, logs: s, logs_title: s, log_text: s, most_recent_log: s, game_data: s,
        game_data_title: s, split_name: s, accent: s, split_diff_pos: s, split_diff_neg: s,
        split_diff_neutral: s, split_diff_gold: s,
    };
    DDStatsRustConfigV1 {
        host: "h".to_string(),
        grpc_host: "g".to_string(),
        offline: true,
        debug_logs: true,
        auto_clipboard: false,
        linux_restart_as_child: true,
        use_linux_proton: true,
        tray_icon: true,
        hide_window_on_start: true,
        upload_replays_automatically: false,
        block_marker_override: Some(7),
        process_name_override: Some("dd".to_string()),
        open_game_on_replay_request: false,
        stream: StreamV1 { stats: false, replay_stats: true, non_default_spawnsets: true },
        submit: SubmitV1 { stats: true, replay_stats: false, non_default_spawnsets: true, ddcl: false },
        discord: DiscordV1 { notify_above_1000: false, notify_player_best: true, notify_custom_spawnsets: true },
        ui_conf: UiConfV1 {
            enabled: false,
            logo_style: LogoStyle::Mini,
            hide_logs: true,
            logo: Some("x".to_string()),
            orb_connection_animation: false,
            column_distance: 12,
            show_help_on_border: false,
            current_split_marker: ">".to_string(),
            current_split_live_change: false,
            always_show_splits: true,
            game_data_modules: vec![],
            theming: ThemingV1 { styles },
        },
    }
}

#[test]
fn upgrade_keeps_every_setting() {
    let old = v1_config();
    let new: DDStatsRustConfig = DDStatsRustConfig::from(old.clone());
    assert_eq!(new.host, old.host);
    assert_eq!(new.grpc_host, old.grpc_host);
    assert_eq!(new.offline, old.offline);
    assert_eq!(new.block_marker_override, Some(7));
    assert_eq!(new.process_name_override, Some("dd".to_string()));
    assert_eq!(new.stream, Stream { stats: false, replay_stats: true, non_default_spawnsets: true });
    assert_eq!(new.submit, Submit { stats: true, replay_stats: false, non_default_spawnsets: true, ddcl: false });
    assert_eq!(new.discord, Discord { notify_above_1000: false, notify_player_best: true, notify_custom_spawnsets: true });
    assert_eq!(new.ui_conf.logo_style, LogoStyle::Mini);
    assert_eq!(new.ui_conf.column_distance, 12);
    assert_eq!(new.ui_conf.current_split_marker, ">");
    assert_eq!(new.ui_conf.theming.styles.logo.fg, Some(Color::Red));
    assert_eq!(new.saved_games_max, 25);
    assert_eq!(new.saved_games_max, DEFAULT_SAVED_GAMES_MAX);
    assert_eq!(f32::from_bits(new.record_threshold), 350.0);
    assert_eq!(new.record_threshold, DEFAULT_RECORD_THRESHOLD);
}

#[test]
fn config_paths() {
    assert_eq!(get_log_file_path(true, Some("/x"), true), "./debug_logs.txt");
    assert_eq!(get_log_file_path(false, Some("/x"), true), "/x/ddstats-rust/debug_logs.txt");
    assert_eq!(get_log_file_path(false, None, true), "~/.config/ddstats-rust/debug_logs.txt");
    assert_eq!(get_log_file_path(false, None, false), "./debug_logs.txt");
    assert_eq!(priority_config_path("/opt/dd/config.ron", true, Some("/c"), "/home/u"), "/opt/dd/config.ron");
    assert_eq!(priority_config_path("/opt/dd/config.ron", false, Some("/c"), "/home/u"), "/c/ddstats-rust/config.ron");
    assert_eq!(priority_config_path("/opt/dd/config.ron", false, None, "/home/u"), "/home/u/.config/ddstats-rust/config.ron");
    assert_eq!(new_config_location(Some("/c"), false), (Some("/c/ddstats-rust/".to_string()), "/c/ddstats-rust/config.ron".to_string()));
    assert_eq!(new_config_location(None, true), (Some("~/.config/ddstats-rust/".to_string()), "~/.config/ddstats-rust/config.ron".to_string()));
    assert_eq!(new_config_location(None, false), (None, "./config.ron".to_string()));
}

#[test]
fn styles_builders() {
    let s = Style::default().fg(Color::Rgb(1, 2, 3)).bg(Color::Indexed(4));
    assert_eq!(s.fg, Some(Color::Rgb(1, 2, 3)));
    assert_eq!(s.bg, Some(Color::Indexed(4)));
    assert_eq!(s.add_modifier, 0);
    let cfg = sample_config();
    assert_eq!(cfg.ui_conf.theming.styles, plain_styles());
}
