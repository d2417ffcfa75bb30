use ddstats_rust::client::ConnectionState;
use ddstats_rust::config::{LogoStyle, Style, Styles, Color};
use ddstats_rust::consts::{LOGO_MINI, LOGO_NEW};
use ddstats_rust::mem::{StatsBlockWithFrames, StatsDataBlock, StatsFrame};
use ddstats_rust::ui::ascii_canvas::{canvas_fits, canvas_left, help_label_x, Alignment, HELP_LABEL, HELP_LABEL_BYTES};
use ddstats_rust::ui::classic::{self, diff_style, GameDataColorizer};
use ddstats_rust::ui::modules::{
    current_split_index, farm_counts, gems_lost, get_homing, homing_peak_time, homing_splits_rows,
    split_style, status_label, HomingSplit, SplitLookup, SplitRow, SplitStyle,
};
use ddstats_rust::ui::orb_animation::{banner_layout, char_from_intensity, waiting_message, TERM_COLOR_RAMP};
use ddstats_rust::ui::{
    full_logo_width, handle_key, handle_window_request, log_skip, logo_choice, logo_lines, shows_orb,
    ExtraSettings, LogoChoice, UiAction, UiKey, WindowRequest,
};

#[test]
fn ramp_matches_float_formula() {
    let ramp: Vec<char> = TERM_COLOR_RAMP.chars().collect();
    for i in 0..=255u8 {
        let w = (i as f32 / 255.).clamp(0., 1.);
        let m = ramp.len() as f32 * w;
        let idx = m.floor().clamp(0., ramp.len() as f32 - 1.) as usize;
        assert_eq!(char_from_intensity(i), ramp[idx], "{i}");
    }
    assert_eq!(char_from_intensity(0), ' ');
    assert_eq!(char_from_intensity(255), '█');
}

#[test]
fn classic_ramp_matches_float_formula() {
    let ramp: Vec<char> = TERM_COLOR_RAMP.chars().collect();
    for i in 0..=255u8 {
        let w = (i as f32 / 255.).clamp(0., 1.);
        let m = (TERM_COLOR_RAMP.len() - 1) as f32 * w;
        let idx = m.floor().clamp(2., 10.) as usize;
        assert_eq!(classic::char_from_intensity(i), ramp[idx], "{i}");
    }
}

#[test]
fn ramp_is_monotone() {
    let ramp: Vec<char> = TERM_COLOR_RAMP.chars().collect();
    let pos = |c: char| ramp.iter().position(|x| *x == c).unwrap();
    for i in 0..255u8 {
        assert!(pos(char_from_intensity(i)) <= pos(char_from_intensity(i + 1)));
    }
}

#[test]
fn keys() {
    let mut s = ExtraSettings { homing_always_visible: false, draw_ui: true, help: false };
    assert_eq!(handle_key(&mut s, UiKey::Char('q')), UiAction::Quit);
    assert_eq!(handle_key(&mut s, UiKey::F(1)), UiAction::UploadReplay);
    assert_eq!(handle_key(&mut s, UiKey::F(2)), UiAction::HideWindow);
    assert_eq!(handle_key(&mut s, UiKey::F(3)), UiAction::Clear);
    assert!(!s.draw_ui);
    assert_eq!(handle_key(&mut s, UiKey::F(4)), UiAction::Nothing);
    assert!(s.help);
    assert_eq!(handle_key(&mut s, UiKey::F(5)), UiAction::Nothing);
    assert!(s.homing_always_visible);
    assert_eq!(handle_key(&mut s, UiKey::Char('x')), UiAction::Nothing);
    assert_eq!(handle_key(&mut s, UiKey::Other), UiAction::Nothing);
}

#[test]
fn keys_twice_restore_settings() {
    for k in [UiKey::F(1), UiKey::F(2), UiKey::F(3), UiKey::F(4), UiKey::F(5), UiKey::Char('q'), UiKey::Other] {
        let start = ExtraSettings { homing_always_visible: true, draw_ui: false, help: true };
        let mut s = start;
        handle_key(&mut s, k);
        handle_key(&mut s, k);
        assert_eq!(s, start);
    }
}

#[test]
fn window_requests() {
    let mut s = ExtraSettings { homing_always_visible: false, draw_ui: true, help: false };
    handle_window_request(&mut s, WindowRequest::Hide, true);
    assert!(!s.draw_ui);
    handle_window_request(&mut s, WindowRequest::Show, false);
    assert!(!s.draw_ui);
    handle_window_request(&mut s, WindowRequest::Show, true);
    assert!(s.draw_ui);
    assert!(shows_orb(ConnectionState::Connecting, true));
    assert!(!shows_orb(ConnectionState::Connected, true));
    assert!(!shows_orb(ConnectionState::NotConnected, false));
}

#[test]
fn logos() {
    let widest = LOGO_NEW.lines().map(|l| l.chars().count()).max().unwrap();
    assert_eq!(full_logo_width(), widest);
    assert_eq!(logo_lines(LogoChoice::Full), LOGO_NEW.lines().count());
    assert_eq!(logo_lines(LogoChoice::Mini), LOGO_MINI.lines().count());
    assert_eq!(logo_lines(LogoChoice::NoLogo), 0);
    assert_eq!(logo_choice(LogoStyle::Auto, widest, widest), LogoChoice::Full);
    assert_eq!(logo_choice(LogoStyle::Auto, widest - 1, widest), LogoChoice::Mini);
    assert_eq!(logo_choice(LogoStyle::Off, 500, widest), LogoChoice::NoLogo);
    assert_eq!(logo_choice(LogoStyle::Full, 1, widest), LogoChoice::Full);
}

#[test]
fn log_window() {
    assert_eq!(log_skip(10, 5), 7);
    assert_eq!(log_skip(3, 5), 0);
    assert_eq!(log_skip(0, 2), 0);
    assert_eq!(log_skip(4, 2), 4);
    for n in 0..20usize {
        for h in 2..10u16 {
            let k = log_skip(n, h);
            assert!(n - k <= (h - 2) as usize);
        }
    }
}

#[test]
fn banner() {
    assert_eq!(waiting_message(80), "Waiting for Game");
    assert_eq!(waiting_message(81), "Waiting for Devil Daggers");
    let b = banner_layout(80, 24).unwrap();
    assert_eq!((b.bar_x, b.message_x, b.top_y, b.middle_y, b.bottom_y, b.bar_width, b.message_width), (24, 32, 11, 12, 13, 32, 16));
    let b = banner_layout(81, 3).unwrap();
    assert_eq!((b.bar_x, b.message_x, b.middle_y, b.bar_width), (20, 28, 1, 41));
    assert!(banner_layout(20, 24).is_none());
    assert!(banner_layout(80, 1).is_none());
}

#[test]
fn canvas_placement() {
    assert_eq!(canvas_left(Alignment::Center, 100, 40), 30);
    assert_eq!(canvas_left(Alignment::Center, 30, 80), 0);
    assert_eq!(canvas_left(Alignment::Right, 100, 40), 60);
    assert_eq!(canvas_left(Alignment::Left, 100, 40), 0);
    assert!(canvas_fits(10, 10, 10));
    assert!(!canvas_fits(9, 10, 10));
    assert_eq!(HELP_LABEL.len(), HELP_LABEL_BYTES as usize);
    assert_eq!(help_label_x(2, 50), Some(2 + 50 - 17 - 1));
    assert_eq!(help_label_x(0, 10), None);
}

#[test]
fn classic_colorizer() {
    let s = Style::default();
    let mut styles = Styles {
        text: s, logo: s, logs: s, logs_title: s, log_text: s, most_recent_log: s, game_data: s,
        game_data_title: s, split_name: s, accent: s, split_diff_pos: s.fg(Color::Green),
        split_diff_neg: s.fg(Color::Red), split_diff_neutral: s, split_diff_gold: s,
    };
    assert_eq!(diff_style("+12", styles).fg, Some(Color::Green));
    assert_eq!(diff_style("-3", styles).fg, Some(Color::Red));
    let c = GameDataColorizer { styles: None };
    assert_eq!(c.active_styles(styles), styles);
    styles.logo = s.fg(Color::Blue);
    let edited = GameDataColorizer { styles: Some(styles) };
    assert_eq!(edited.active_styles(Styles { logo: s, ..styles }).logo.fg, Some(Color::Blue));
}

#[test]
fn table_figures() {
    assert_eq!(status_label(1, 0), "MENU");
    assert_eq!(status_label(4, 13), "INCARNATED");
    assert_eq!(status_label(4, 12), "ENVENOMATED");
    assert_eq!(status_label(3, 0), "ALIVE");
    assert_eq!(status_label(8, 0), "LOCAL REPLAY");
    assert_eq!(status_label(6, 0), "REPLAY");
    assert_eq!(status_label(100, 0), "CONNECTING");
    let mut d = StatsBlockWithFrames::default();
    assert_eq!(get_homing(&d), 0);
    let mut f = StatsFrame::default();
    f.homing = 42;
    d.frames.push(f);
    assert_eq!(get_homing(&d), 42);
    let mut b = StatsDataBlock::default();
    b.gems_eaten = 3;
    b.gems_despawned = 4;
    assert_eq!(gems_lost(&b), 7);
    b.time_max_homing = 200.0f32.to_bits();
    assert_eq!(homing_peak_time(&b), 0);
    b.time_lvl3 = (-0.0f32).to_bits();
    assert_eq!(homing_peak_time(&b), 0);
    b.time_lvl3 = 80.0f32.to_bits();
    assert_eq!(f32::from_bits(homing_peak_time(&b)), 200.0);
}

#[test]
fn farm() {
    let mut d = StatsBlockWithFrames::default();
    assert_eq!(farm_counts(&d), None);
    d.frames = vec![StatsFrame::default(); 364];
    d.frames[363].gems_collected = 500;
    d.frames[363].homing = 200;
    d.frames[363].kills = 400;
    d.frames[363].enemies_alive = 10;
    // used = 500 - 200 - 220 = 80; elite = 500 - 285 - 80 = 135; baseline = 400 - 127 + 9 = 282
    assert_eq!(farm_counts(&d), Some((135, 282)));
    d.block.starting_time = 10.0f32.to_bits();
    assert_eq!(farm_counts(&d), None);
}

#[test]
fn split_styles() {
    assert_eq!(split_style(10, 5, 2, Some(10)), SplitStyle::Gold);
    assert_eq!(split_style(6, 5, 2, Some(10)), SplitStyle::Neutral);
    assert_eq!(split_style(3, 5, 2, None), SplitStyle::Neutral);
    assert_eq!(split_style(8, 5, 2, None), SplitStyle::Positive);
    assert_eq!(split_style(2, 5, 2, None), SplitStyle::Negative);
    // the neutral zone is read as i32: u32::MAX is -1, an empty zone
    assert_eq!(split_style(5, 5, u32::MAX, None), SplitStyle::Negative);
    assert_eq!(split_style(6, 5, u32::MAX, None), SplitStyle::Positive);
}

fn split(name: &str, time: f32, offset: i32) -> HomingSplit {
    (name.to_string(), time.to_bits(), offset, 0, 0, None)
}

fn hframe(homing: i32, gems: i32, level_gems: i32) -> StatsFrame {
    let mut f = StatsFrame::default();
    f.homing = homing;
    f.gems_collected = gems;
    f.level_gems = level_gems;
    f
}

#[test]
fn homing_split_rows() {
    let splits = vec![split("366", 3.0, 0), split("700", 6.0, 10), split("800", 100.0, 0)];
    assert_eq!(current_split_index(&splits, 5.0f32.to_bits()), 1);
    assert_eq!(current_split_index(&splits, 500.0f32.to_bits()), 0);
    let mut d = StatsBlockWithFrames::default();
    d.block.is_in_game = true;
    d.frames = vec![hframe(0, 0, 0), hframe(0, 5, 0), hframe(3, 10, 70), hframe(10, 20, 70), hframe(8, 30, 70), hframe(12, 40, 70)];
    let lookups = vec![
        SplitLookup { frame_at_time: Some(3), frame_at_prev: None, usage_cutoff: 3, prev_usage_cutoff: 0 },
        SplitLookup { frame_at_time: Some(5), frame_at_prev: Some(3), usage_cutoff: 6, prev_usage_cutoff: 3 },
        SplitLookup { frame_at_time: None, frame_at_prev: None, usage_cutoff: 100, prev_usage_cutoff: 6 },
    ];
    let extra = ExtraSettings { homing_always_visible: false, draw_ui: true, help: false };
    let rows = homing_splits_rows(&splits, &d, extra, 5.5f32.to_bits(), &lookups, 5, true);
    assert_eq!(rows.len(), 3);
    match rows[0] {
        Some(SplitRow::Shown(f)) => {
            assert_eq!(f.homing, 10);
            assert_eq!(f.diff, 10);
            assert_eq!(f.collected, 20);
            assert!(!f.is_live);
        }
        _ => panic!("first split is reached"),
    }
    match rows[1] {
        Some(SplitRow::Shown(f)) => {
            assert_eq!(f.homing, 12);
            // offset 10 - (10 - 12)
            assert_eq!(f.diff, 12);
            assert_eq!(f.style, SplitStyle::Positive);
            assert_eq!(f.collected, 20);
            assert!(f.is_live && f.timer_as_name);
        }
        _ => panic!("second split is in progress"),
    }
    assert_eq!(rows[2], None);
    let all = ExtraSettings { homing_always_visible: true, ..extra };
    let rows = homing_splits_rows(&splits, &d, all, 5.5f32.to_bits(), &lookups, 5, true);
    assert_eq!(rows[2], Some(SplitRow::Placeholder));
}
