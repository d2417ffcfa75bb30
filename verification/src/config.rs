//! The configuration file's schema (versions 1.0.0 and 5.0.0) and the
//! migration from the old version to the current one.
//!
//! `f32` values are held as their IEEE-754 bit patterns (`f32::to_bits`).
use vstd::prelude::*;
use crate::ui::modules::GameDataModules;
use vstd::string::*;
use crate::text::push_str;

verus! {

/// How the logo is drawn.
#[derive(Clone, Copy, Debug, PartialEq, Eq, Structural)]
pub enum LogoStyle {
    Auto,
    Mini,
    Full,
    Off,
}

/// A terminal color.
#[derive(Clone, Copy, Debug, PartialEq, Eq, Structural)]
pub enum Color {
    Reset,
    Black,
    Red,
    Green,
    Yellow,
    Blue,
    Magenta,
    Cyan,
    Gray,
    DarkGray,
    LightRed,
    LightGreen,
    LightYellow,
    LightBlue,
    LightMagenta,
    LightCyan,
    White,
    Rgb(u8, u8, u8),
    Indexed(u8),
}

/// A text style: colors, and modifier bits to add and to remove.
#[derive(Clone, Copy, Debug, PartialEq, Eq, Structural)]
pub struct Style {
    pub fg: Option<Color>,
    pub bg: Option<Color>,
    pub add_modifier: u16,
    pub sub_modifier: u16,
}

impl Style {
    /// No colors and no modifiers.
    pub fn default() -> (s: Style)
        ensures
            s == (Style { fg: None, bg: None, add_modifier: 0, sub_modifier: 0 }),
    {
        Style { fg: None, bg: None, add_modifier: 0, sub_modifier: 0 }
    }

    /// This style with foreground `c`.
    pub fn fg(self, c: Color) -> (s: Style)
        ensures
            s == (Style { fg: Some(c), ..self }),
    {
        Style { fg: Some(c), ..self }
    }

    /// This style with background `c`.
    pub fn bg(self, c: Color) -> (s: Style)
        ensures
            s == (Style { bg: Some(c), ..self }),
    {
        Style { bg: Some(c), ..self }
    }
}
/// The styles of the parts of the interface.
#[derive(Clone, Copy, Debug, PartialEq, Eq, Structural)]
pub struct Styles {
    pub text: Style,
    pub logo: Style,
    pub logs: Style,
    pub logs_title: Style,
    pub log_text: Style,
    pub most_recent_log: Style,
    pub game_data: Style,
    pub game_data_title: Style,
    pub split_name: Style,
    pub accent: Style,
    pub split_diff_pos: Style,
    pub split_diff_neg: Style,
    pub split_diff_neutral: Style,
    pub split_diff_gold: Style,
}
/// The theme of the interface.
#[derive(Clone, Copy, Debug, PartialEq, Eq, Structural)]
pub struct Theming {
    pub styles: Styles,
}
/// Settings of the terminal interface.
#[derive(Clone, Debug)]
pub struct UiConf {
    pub enabled: bool,
    pub logo_style: LogoStyle,
    pub hide_logs: bool,
    pub logo: Option<String>,
    pub orb_connection_animation: bool,
    pub column_distance: u16,
    pub show_help_on_border: bool,
    pub current_split_marker: String,
    pub current_split_live_change: bool,
    pub always_show_splits: bool,
    pub game_data_modules: Vec<GameDataModules>,
    pub theming: Theming,
}
/// What is streamed live.
#[derive(Clone, Copy, Debug, PartialEq, Eq, Structural)]
pub struct Stream {
    pub stats: bool,
    pub replay_stats: bool,
    pub non_default_spawnsets: bool,
}
/// What is submitted.
#[derive(Clone, Copy, Debug, PartialEq, Eq, Structural)]
pub struct Submit {
    pub stats: bool,
    pub replay_stats: bool,
    pub non_default_spawnsets: bool,
    pub ddcl: bool,
}
/// Discord notifications.
#[derive(Clone, Copy, Debug, PartialEq, Eq, Structural)]
pub struct Discord {
    pub notify_above_1000: bool,
    pub notify_player_best: bool,
    pub notify_custom_spawnsets: bool,
}
/// The configuration (schema 5.0.0; `record_threshold` is an `f32` bit pattern).
#[derive(Clone, Debug)]
pub struct DDStatsRustConfig {
    pub host: String,
    pub grpc_host: String,
    pub offline: bool,
    pub debug_logs: bool,
    pub auto_clipboard: bool,
    pub linux_restart_as_child: bool,
    pub use_linux_proton: bool,
    pub tray_icon: bool,
    pub hide_window_on_start: bool,
    pub upload_replays_automatically: bool,
    pub block_marker_override: Option<usize>,
    pub process_name_override: Option<String>,
    pub open_game_on_replay_request: bool,
    pub saved_games_max: u32,
    pub record_threshold: u32,
    pub stream: Stream,
    pub submit: Submit,
    pub discord: Discord,
    pub ui_conf: UiConf,
}
/// `Styles` in schema 1.0.0.
#[derive(Clone, Copy, Debug, PartialEq, Eq, Structural)]
pub struct StylesV1 {
    pub text: Style,
    pub logo: Style,
    pub logs: Style,
    pub logs_title: Style,
    pub log_text: Style,
    pub most_recent_log: Style,
    pub game_data: Style,
    pub game_data_title: Style,
    pub split_name: Style,
    pub accent: Style,
    pub split_diff_pos: Style,
    pub split_diff_neg: Style,
    pub split_diff_neutral: Style,
    pub split_diff_gold: Style,
}
/// `Theming` in schema 1.0.0.
#[derive(Clone, Copy, Debug, PartialEq, Eq, Structural)]
pub struct ThemingV1 {
    pub styles: StylesV1,
}
/// `UiConf` in schema 1.0.0.
#[derive(Clone, Debug)]
pub struct UiConfV1 {
    pub enabled: bool,
    pub logo_style: LogoStyle,
    pub hide_logs: bool,
    pub logo: Option<String>,
    pub orb_connection_animation: bool,
    pub column_distance: u16,
    pub show_help_on_border: bool,
    pub current_split_marker: String,
    pub current_split_live_change: bool,
    pub always_show_splits: bool,
    pub game_data_modules: Vec<GameDataModules>,
    pub theming: ThemingV1,
}
/// `Stream` in schema 1.0.0.
#[derive(Clone, Copy, Debug, PartialEq, Eq, Structural)]
pub struct StreamV1 {
    pub stats: bool,
    pub replay_stats: bool,
    pub non_default_spawnsets: bool,
}
/// `Submit` in schema 1.0.0.
#[derive(Clone, Copy, Debug, PartialEq, Eq, Structural)]
pub struct SubmitV1 {
    pub stats: bool,
    pub replay_stats: bool,
    pub non_default_spawnsets: bool,
    pub ddcl: bool,
}
/// `Discord` in schema 1.0.0.
#[derive(Clone, Copy, Debug, PartialEq, Eq, Structural)]
pub struct DiscordV1 {
    pub notify_above_1000: bool,
    pub notify_player_best: bool,
    pub notify_custom_spawnsets: bool,
}
/// `DDStatsRustConfig` in schema 1.0.0.
#[derive(Clone, Debug)]
pub struct DDStatsRustConfigV1 {
    pub host: String,
    pub grpc_host: String,
    pub offline: bool,
    pub debug_logs: bool,
    pub auto_clipboard: bool,
    pub linux_restart_as_child: bool,
    pub use_linux_proton: bool,
    pub tray_icon: bool,
    pub hide_window_on_start: bool,
    pub upload_replays_automatically: bool,
    pub block_marker_override: Option<usize>,
    pub process_name_override: Option<String>,
    pub open_game_on_replay_request: bool,
    pub stream: StreamV1,
    pub submit: SubmitV1,
    pub discord: DiscordV1,
    pub ui_conf: UiConfV1,
}

impl vstd::std_specs::convert::FromSpecImpl<StreamV1> for Stream {
    open spec fn obeys_from_spec() -> bool {
        true
    }

    open spec fn from_spec(cfg: StreamV1) -> Stream {
        Stream {
            stats: cfg.stats,
            replay_stats: cfg.replay_stats,
            non_default_spawnsets: cfg.non_default_spawnsets,
        }
    }
}

/// Carries the streaming settings over unchanged.
impl From<StreamV1> for Stream {
    fn from(cfg: StreamV1) -> (r: Stream) {
        Stream {
            stats: cfg.stats,
            replay_stats: cfg.replay_stats,
            non_default_spawnsets: cfg.non_default_spawnsets,
        }
    }
}

impl vstd::std_specs::convert::FromSpecImpl<SubmitV1> for Submit {
    open spec fn obeys_from_spec() -> bool {
        true
    }

    open spec fn from_spec(cfg: SubmitV1) -> Submit {
        Submit {
            stats: cfg.stats,
            replay_stats: cfg.replay_stats,
            non_default_spawnsets: cfg.non_default_spawnsets,
            ddcl: cfg.ddcl,
        }
    }
}

/// Carries the submission settings over unchanged.
impl From<SubmitV1> for Submit {
    fn from(cfg: SubmitV1) -> (r: Submit) {
        Submit {
            stats: cfg.stats,
            replay_stats: cfg.replay_stats,
            non_default_spawnsets: cfg.non_default_spawnsets,
            ddcl: cfg.ddcl,
        }
    }
}

impl vstd::std_specs::convert::FromSpecImpl<DiscordV1> for Discord {
    open spec fn obeys_from_spec() -> bool {
        true
    }

    open spec fn from_spec(cfg: DiscordV1) -> Discord {
        Discord {
            notify_player_best: cfg.notify_player_best,
            notify_above_1000: cfg.notify_above_1000,
            notify_custom_spawnsets: cfg.notify_custom_spawnsets,
        }
    }
}

/// Carries the Discord settings over unchanged.
impl From<DiscordV1> for Discord {
    fn from(cfg: DiscordV1) -> (r: Discord) {
        Discord {
            notify_player_best: cfg.notify_player_best,
            notify_above_1000: cfg.notify_above_1000,
            notify_custom_spawnsets: cfg.notify_custom_spawnsets,
        }
    }
}

impl vstd::std_specs::convert::FromSpecImpl<StylesV1> for Styles {
    open spec fn obeys_from_spec() -> bool {
        true
    }

    open spec fn from_spec(cfg: StylesV1) -> Styles {
        Styles {
            text: cfg.text,
            logo: cfg.logo,
            logs: cfg.logs,
            logs_title: cfg.logs_title,
            log_text: cfg.log_text,
            most_recent_log: cfg.most_recent_log,
            game_data: cfg.game_data,
            game_data_title: cfg.game_data_title,
            split_name: cfg.split_name,
            accent: cfg.accent,
            split_diff_pos: cfg.split_diff_pos,
            split_diff_neg: cfg.split_diff_neg,
            split_diff_neutral: cfg.split_diff_neutral,
            split_diff_gold: cfg.split_diff_gold,
        }
    }
}

/// Carries the styles over unchanged.
impl From<StylesV1> for Styles {
    fn from(cfg: StylesV1) -> (r: Styles) {
        Styles {
            text: cfg.text,
            logo: cfg.logo,
            logs: cfg.logs,
            logs_title: cfg.logs_title,
            log_text: cfg.log_text,
            most_recent_log: cfg.most_recent_log,
            game_data: cfg.game_data,
            game_data_title: cfg.game_data_title,
            split_name: cfg.split_name,
            accent: cfg.accent,
            split_diff_pos: cfg.split_diff_pos,
            split_diff_neg: cfg.split_diff_neg,
            split_diff_neutral: cfg.split_diff_neutral,
            split_diff_gold: cfg.split_diff_gold,
        }
    }
}

impl vstd::std_specs::convert::FromSpecImpl<ThemingV1> for Theming {
    open spec fn obeys_from_spec() -> bool {
        true
    }

    open spec fn from_spec(cfg: ThemingV1) -> Theming {
        Theming { styles: <Styles as vstd::std_specs::convert::FromSpec<StylesV1>>::from_spec(cfg.styles) }
    }
}

/// Carries the theme over unchanged.
impl From<ThemingV1> for Theming {
    fn from(cfg: ThemingV1) -> (r: Theming) {
        Theming { styles: Styles::from(cfg.styles) }
    }
}

impl vstd::std_specs::convert::FromSpecImpl<UiConfV1> for UiConf {
    open spec fn obeys_from_spec() -> bool {
        true
    }

    open spec fn from_spec(cfg: UiConfV1) -> UiConf {
        UiConf {
            enabled: cfg.enabled,
            logo_style: cfg.logo_style,
            hide_logs: cfg.hide_logs,
            logo: cfg.logo,
            orb_connection_animation: cfg.orb_connection_animation,
            column_distance: cfg.column_distance,
            show_help_on_border: cfg.show_help_on_border,
            current_split_marker: cfg.current_split_marker,
            current_split_live_change: cfg.current_split_live_change,
            always_show_splits: cfg.always_show_splits,
            game_data_modules: cfg.game_data_modules,
            theming: <Theming as vstd::std_specs::convert::FromSpec<ThemingV1>>::from_spec(cfg.theming),
        }
    }
}

/// Carries the interface settings over unchanged.
impl From<UiConfV1> for UiConf {
    fn from(cfg: UiConfV1) -> (r: UiConf) {
        UiConf {
            enabled: cfg.enabled,
            logo_style: cfg.logo_style,
            hide_logs: cfg.hide_logs,
            logo: cfg.logo,
            orb_connection_animation: cfg.orb_connection_animation,
            column_distance: cfg.column_distance,
            show_help_on_border: cfg.show_help_on_border,
            current_split_marker: cfg.current_split_marker,
            current_split_live_change: cfg.current_split_live_change,
            always_show_splits: cfg.always_show_splits,
            game_data_modules: cfg.game_data_modules,
            theming: Theming::from(cfg.theming),
        }
    }
}

/// The run history keeps 25 runs unless configured otherwise.
pub const DEFAULT_SAVED_GAMES_MAX: u32 = 25;

/// Runs of more than 350 seconds go into the run history unless configured
/// otherwise (the bit pattern of `350.0f32`).
pub const DEFAULT_RECORD_THRESHOLD: u32 = 0x43AF_0000;

impl vstd::std_specs::convert::FromSpecImpl<DDStatsRustConfigV1> for DDStatsRustConfig {
    open spec fn obeys_from_spec() -> bool {
        true
    }

    open spec fn from_spec(cfg: DDStatsRustConfigV1) -> DDStatsRustConfig {
        DDStatsRustConfig {
            saved_games_max: DEFAULT_SAVED_GAMES_MAX,
            record_threshold: DEFAULT_RECORD_THRESHOLD,
            host: cfg.host,
            grpc_host: cfg.grpc_host,
            offline: cfg.offline,
            debug_logs: cfg.debug_logs,
            auto_clipboard: cfg.auto_clipboard,
            linux_restart_as_child: cfg.linux_restart_as_child,
            use_linux_proton: cfg.use_linux_proton,
            tray_icon: cfg.tray_icon,
            hide_window_on_start: cfg.hide_window_on_start,
            upload_replays_automatically: cfg.upload_replays_automatically,
            block_marker_override: cfg.block_marker_override,
            process_name_override: cfg.process_name_override,
            open_game_on_replay_request: cfg.open_game_on_replay_request,
            stream: <Stream as vstd::std_specs::convert::FromSpec<StreamV1>>::from_spec(cfg.stream),
            submit: <Submit as vstd::std_specs::convert::FromSpec<SubmitV1>>::from_spec(cfg.submit),
            discord: <Discord as vstd::std_specs::convert::FromSpec<DiscordV1>>::from_spec(cfg.discord),
            ui_conf: <UiConf as vstd::std_specs::convert::FromSpec<UiConfV1>>::from_spec(cfg.ui_conf),
        }
    }
}

/// Upgrades a configuration of schema 1.0.0: every setting carries over,
/// and the run history gets its default size and threshold.
impl From<DDStatsRustConfigV1> for DDStatsRustConfig {
    fn from(cfg: DDStatsRustConfigV1) -> (r: DDStatsRustConfig) {
        let stream = Stream::from(cfg.stream);
        let submit = Submit::from(cfg.submit);
        let discord = Discord::from(cfg.discord);
        let ui_conf = UiConf::from(cfg.ui_conf);
        DDStatsRustConfig {
            saved_games_max: DEFAULT_SAVED_GAMES_MAX,
            record_threshold: DEFAULT_RECORD_THRESHOLD,
            host: cfg.host,
            grpc_host: cfg.grpc_host,
            offline: cfg.offline,
            debug_logs: cfg.debug_logs,
            auto_clipboard: cfg.auto_clipboard,
            linux_restart_as_child: cfg.linux_restart_as_child,
            use_linux_proton: cfg.use_linux_proton,
            tray_icon: cfg.tray_icon,
            hide_window_on_start: cfg.hide_window_on_start,
            upload_replays_automatically: cfg.upload_replays_automatically,
            block_marker_override: cfg.block_marker_override,
            process_name_override: cfg.process_name_override,
            open_game_on_replay_request: cfg.open_game_on_replay_request,
            stream,
            submit,
            discord,
            ui_conf,
        }
    }
}

/// Where the debug log goes: next to a configuration file in the working
/// directory, else in the XDG configuration directory, else in
/// `~/.config/ddstats-rust` when that exists, else in the working directory.
pub open spec fn spec_log_file_path(local_config_exists: bool, xdg_config_home: Option<Seq<char>>,
    home_config_dir_exists: bool) -> Seq<char> {
    if local_config_exists {
        "./debug_logs.txt"@
    } else if xdg_config_home is Some {
        xdg_config_home->0 + "/ddstats-rust/debug_logs.txt"@
    } else if home_config_dir_exists {
        "~/.config/ddstats-rust/debug_logs.txt"@
    } else {
        "./debug_logs.txt"@
    }
}

/// The path of the debug log, from what the caller found: whether
/// `./config.ron` exists, `XDG_CONFIG_HOME`, and whether
/// `~/.config/ddstats-rust` exists.
pub fn get_log_file_path(local_config_exists: bool, xdg_config_home: Option<&str>,
    home_config_dir_exists: bool) -> (p: String)
    ensures
        p@ == spec_log_file_path(local_config_exists,
            match xdg_config_home { Some(x) => Some(x@), None => None }, home_config_dir_exists),
{
    if local_config_exists {
        String::from_str("./debug_logs.txt")
    } else if let Some(x) = xdg_config_home {
        let mut p = String::from_str(x);
        push_str(&mut p, "/ddstats-rust/debug_logs.txt");
        p
    } else if home_config_dir_exists {
        String::from_str("~/.config/ddstats-rust/debug_logs.txt")
    } else {
        String::from_str("./debug_logs.txt")
    }
}

/// The configuration file that is read first on Linux: `config.ron` next to
/// the executable when it exists, else `ddstats-rust/config.ron` in the
/// XDG configuration directory, or in `$HOME/.config` when that variable is
/// unset.
pub open spec fn spec_priority_config_path(beside_exe: Seq<char>, beside_exe_exists: bool,
    xdg_config_home: Option<Seq<char>>, home: Seq<char>) -> Seq<char> {
    if beside_exe_exists {
        beside_exe
    } else {
        let base = match xdg_config_home {
            Some(x) => x,
            None => home + "/.config"@,
        };
        base + "/ddstats-rust/config.ron"@
    }
}

/// The configuration file to read first, from the path beside the
/// executable, whether it exists, `XDG_CONFIG_HOME` and `HOME`.
pub fn priority_config_path(beside_exe: &str, beside_exe_exists: bool,
    xdg_config_home: Option<&str>, home: &str) -> (p: String)
    ensures
        p@ == spec_priority_config_path(beside_exe@, beside_exe_exists,
            match xdg_config_home { Some(x) => Some(x@), None => None }, home@),
{
    if beside_exe_exists {
        return String::from_str(beside_exe);
    }
    let mut p = match xdg_config_home {
        Some(x) => String::from_str(x),
        None => {
            let mut h = String::from_str(home);
            push_str(&mut h, "/.config");
            h
        },
    };
    push_str(&mut p, "/ddstats-rust/config.ron");
    p
}

/// Where a new configuration file is written: under the XDG configuration
/// directory when it is set, else under `~/.config` when that exists (in
/// both cases a `ddstats-rust` directory is created first), else in the
/// working directory. The result is the directory to create, if any, and
/// the file.
pub open spec fn spec_new_config_location(xdg_config_home: Option<Seq<char>>,
    home_config_exists: bool) -> (Option<Seq<char>>, Seq<char>) {
    match xdg_config_home {
        Some(x) => (Some(x + "/ddstats-rust/"@), x + "/ddstats-rust/config.ron"@),
        None => if home_config_exists {
            (Some("~/.config/ddstats-rust/"@), "~/.config/ddstats-rust/config.ron"@)
        } else {
            (None, "./config.ron"@)
        },
    }
}

/// The directory to create and the file to write for a new configuration.
pub fn new_config_location(xdg_config_home: Option<&str>, home_config_exists: bool)
    -> (r: (Option<String>, String))
    ensures
        (match r.0 { Some(d) => Some(d@), None => None }, r.1@) == spec_new_config_location(
            match xdg_config_home { Some(x) => Some(x@), None => None }, home_config_exists),
{
    match xdg_config_home {
        Some(x) => {
            let mut d = String::from_str(x);
            push_str(&mut d, "/ddstats-rust/");
            let mut f = String::from_str(x);
            push_str(&mut f, "/ddstats-rust/config.ron");
            (Some(d), f)
        },
        None => if home_config_exists {
            (Some(String::from_str("~/.config/ddstats-rust/")),
                String::from_str("~/.config/ddstats-rust/config.ron"))
        } else {
            (None, String::from_str("./config.ron"))
        },
    }
}


/// Upgrading a schema 1.0.0 configuration keeps every setting it had: the
/// server, what is streamed, submitted and notified, and the interface;
/// the run history starts at 25 runs over 350 seconds.
pub proof fn lemma_upgrade_keeps_settings(cfg: DDStatsRustConfigV1)
    ensures
        ({
            let r = <DDStatsRustConfig as vstd::std_specs::convert::FromSpec<DDStatsRustConfigV1>>::from_spec(cfg);
            &&& r.host == cfg.host
            &&& r.grpc_host == cfg.grpc_host
            &&& r.offline == cfg.offline
            &&& r.stream.stats == cfg.stream.stats
            &&& r.stream.replay_stats == cfg.stream.replay_stats
            &&& r.stream.non_default_spawnsets == cfg.stream.non_default_spawnsets
            &&& r.submit.stats == cfg.submit.stats
            &&& r.submit.replay_stats == cfg.submit.replay_stats
            &&& r.submit.non_default_spawnsets == cfg.submit.non_default_spawnsets
            &&& r.submit.ddcl == cfg.submit.ddcl
            &&& r.discord.notify_above_1000 == cfg.discord.notify_above_1000
            &&& r.discord.notify_player_best == cfg.discord.notify_player_best
            &&& r.discord.notify_custom_spawnsets == cfg.discord.notify_custom_spawnsets
            &&& r.ui_conf.enabled == cfg.ui_conf.enabled
            &&& r.ui_conf.logo_style == cfg.ui_conf.logo_style
            &&& r.saved_games_max == 25
            &&& r.record_threshold == 0x43AF_0000
        }),
{
}

} // verus!
