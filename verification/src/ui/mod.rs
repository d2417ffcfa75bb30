//! The terminal interface: its settings, key handling and the decisions
//! behind drawing.
pub mod modules;
pub mod orb_animation;
pub mod ascii_canvas;
pub mod classic;

use vstd::prelude::*;
use crate::client::ConnectionState;
use crate::config::{LogoStyle, UiConf};
use crate::text::{lines_from, max_line_width, max_width, text_lines};
use crate::threads::Message;

verus! {

/// How much detail a module of the game data table shows.
#[derive(Clone, Copy, Debug, PartialEq, Eq, Structural)]
pub enum SizeStyle {
    Minimal,
    Compact,
    Full,
}

/// An input event of the interface.
pub enum Event<I> {
    Input(I),
}

/// The interface task (its terminal lives with the caller).
pub struct UiThread;

/// What the interface currently shows: every split (not only the ones
/// reached), anything at all, the help screen.
#[derive(Clone, Copy, Debug, PartialEq, Eq, Structural)]
pub struct ExtraSettings {
    pub homing_always_visible: bool,
    pub draw_ui: bool,
    pub help: bool,
}

impl ExtraSettings {
    /// The settings at start: splits as configured, drawing when the
    /// interface is enabled, no help.
    pub fn from_config(ui: &UiConf) -> (r: Self)
        ensures
            r == (ExtraSettings { homing_always_visible: ui.always_show_splits, draw_ui: ui.enabled, help: false }),
    {
        ExtraSettings { homing_always_visible: ui.always_show_splits, draw_ui: ui.enabled, help: false }
    }
}

/// A key the interface reacts to.
#[derive(Clone, Copy, Debug, PartialEq, Eq, Structural)]
pub enum UiKey {
    Char(char),
    F(u8),
    Other,
}

/// What the interface loop does after a key.
#[derive(Clone, Copy, Debug, PartialEq, Eq, Structural)]
pub enum UiAction {
    /// Nothing beyond the settings change.
    Nothing,
    /// Restore the terminal, ask everything to exit, and stop.
    Quit,
    /// Clear the terminal.
    Clear,
    /// Ask for the window to be hidden.
    HideWindow,
    /// Log that a replay upload starts and ask for the upload.
    UploadReplay,
}

/// The settings and action after a key: `q` quits, F1 uploads the replay,
/// F2 hides the window, F3 toggles drawing (and clears), F4 toggles help,
/// F5 toggles showing every split.
pub open spec fn spec_key(s: ExtraSettings, key: UiKey) -> (ExtraSettings, UiAction) {
    match key {
        UiKey::Char(c) => if c == 'q' { (s, UiAction::Quit) } else { (s, UiAction::Nothing) },
        UiKey::F(n) => {
            if n == 1 { (s, UiAction::UploadReplay) }
            else if n == 2 { (s, UiAction::HideWindow) }
            else if n == 3 { (ExtraSettings { draw_ui: !s.draw_ui, ..s }, UiAction::Clear) }
            else if n == 4 { (ExtraSettings { help: !s.help, ..s }, UiAction::Nothing) }
            else if n == 5 { (ExtraSettings { homing_always_visible: !s.homing_always_visible, ..s }, UiAction::Nothing) }
            else { (s, UiAction::Nothing) }
        },
        UiKey::Other => (s, UiAction::Nothing),
    }
}

/// Handles a key.
pub fn handle_key(settings: &mut ExtraSettings, key: UiKey) -> (a: UiAction)
    ensures
        (*final(settings), a) == spec_key(*old(settings), key),
{
    match key {
        UiKey::Char(c) => {
            if c == 'q' { UiAction::Quit } else { UiAction::Nothing }
        },
        UiKey::F(n) => {
            if n == 1 {
                UiAction::UploadReplay
            } else if n == 2 {
                UiAction::HideWindow
            } else if n == 3 {
                settings.draw_ui = !settings.draw_ui;
                UiAction::Clear
            } else if n == 4 {
                settings.help = !settings.help;
                UiAction::Nothing
            } else if n == 5 {
                settings.homing_always_visible = !settings.homing_always_visible;
                UiAction::Nothing
            } else {
                UiAction::Nothing
            }
        },
        UiKey::Other => UiAction::Nothing,
    }
}

/// Pressing any key twice leaves the settings as they were.
pub proof fn lemma_key_twice(s: ExtraSettings, key: UiKey)
    ensures
        spec_key(spec_key(s, key).0, key).0 == s,
{
}

/// The log line shown when a replay upload is asked for.
pub const UPLOAD_LOG: &'static str = "Uploading Replay...";

/// Whether the window is shown again (`true`) or hidden.
#[derive(Clone, Copy, Debug, PartialEq, Eq, Structural)]
pub enum WindowRequest {
    Show,
    Hide,
}

/// The settings after a window request: shown means drawn when the
/// interface is enabled; hidden means not drawn.
pub fn handle_window_request(settings: &mut ExtraSettings, req: WindowRequest, enabled: bool)
    ensures
        *final(settings) == (match req {
            WindowRequest::Show => ExtraSettings { draw_ui: enabled, ..*old(settings) },
            WindowRequest::Hide => ExtraSettings { draw_ui: false, ..*old(settings) },
        }),
{
    match req {
        WindowRequest::Show => {
            settings.draw_ui = enabled;
        },
        WindowRequest::Hide => {
            settings.draw_ui = false;
        },
    }
}

/// What the interface keeps between messages: its settings and the lines
/// logged so far, oldest first.
pub struct UiState {
    pub settings: ExtraSettings,
    pub log_list: Vec<String>,
}

impl UiState {
    /// The state at start: the configured settings and no log lines.
    pub fn new(ui: &UiConf) -> (r: Self)
        ensures
            r.settings == (ExtraSettings { homing_always_visible: ui.always_show_splits, draw_ui: ui.enabled, help: false }),
            r.log_list@.len() == 0,
    {
        UiState { settings: ExtraSettings::from_config(ui), log_list: Vec::new() }
    }
}

/// What the interface loop does after a bus message.
#[derive(Clone, Copy, Debug, PartialEq, Eq, Structural)]
pub enum UiMessageAction {
    /// Nothing beyond the state change.
    Nothing,
    /// Clear the terminal.
    Clear,
    /// Restore the terminal and stop the loop, without sending anything.
    Leave,
}

/// The settings, log lines and action after a bus message: a window request
/// sets whether anything is drawn (shown means drawn when the interface is
/// enabled; hidden clears the terminal), a log line is added at the end,
/// exit leaves, anything else changes nothing.
pub open spec fn spec_ui_message(s: ExtraSettings, log: Seq<String>, msg: Message, enabled: bool)
    -> (ExtraSettings, Seq<String>, UiMessageAction)
{
    match msg {
        Message::ShowWindow => (ExtraSettings { draw_ui: enabled, ..s }, log, UiMessageAction::Nothing),
        Message::HideWindow => (ExtraSettings { draw_ui: false, ..s }, log, UiMessageAction::Clear),
        Message::Log(line) => (s, log.push(line), UiMessageAction::Nothing),
        Message::Exit => (s, log, UiMessageAction::Leave),
        _ => (s, log, UiMessageAction::Nothing),
    }
}

/// Handles a bus message.
pub fn handle_ui_message(ui: &mut UiState, msg: Message, enabled: bool) -> (a: UiMessageAction)
    ensures
        (final(ui).settings, final(ui).log_list@, a) == spec_ui_message(old(ui).settings, old(ui).log_list@, msg, enabled),
{
    match msg {
        Message::ShowWindow => {
            handle_window_request(&mut ui.settings, WindowRequest::Show, enabled);
            UiMessageAction::Nothing
        },
        Message::HideWindow => {
            handle_window_request(&mut ui.settings, WindowRequest::Hide, enabled);
            UiMessageAction::Clear
        },
        Message::Log(line) => {
            ui.log_list.push(line);
            UiMessageAction::Nothing
        },
        Message::Exit => UiMessageAction::Leave,
        _ => UiMessageAction::Nothing,
    }
}

/// The settings and log lines after a run of bus messages, none of which
/// ends the loop.
pub open spec fn spec_ui_messages(s: ExtraSettings, log: Seq<String>, msgs: Seq<Message>, enabled: bool)
    -> (ExtraSettings, Seq<String>)
    decreases msgs.len(),
{
    if msgs.len() == 0 {
        (s, log)
    } else {
        let prev = spec_ui_messages(s, log, msgs.drop_last(), enabled);
        let r = spec_ui_message(prev.0, prev.1, msgs.last(), enabled);
        (r.0, r.1)
    }
}

/// The lines that the log messages of `msgs` carry, in order.
pub open spec fn logged_lines(msgs: Seq<Message>) -> Seq<String>
    decreases msgs.len(),
{
    if msgs.len() == 0 {
        Seq::empty()
    } else {
        let rest = logged_lines(msgs.drop_last());
        match msgs.last() {
            Message::Log(line) => rest.push(line),
            _ => rest,
        }
    }
}

/// Whether `msgs` holds a request to show the window.
pub open spec fn has_show(msgs: Seq<Message>) -> bool {
    exists|i: int| 0 <= i < msgs.len() && #[trigger] msgs[i] is ShowWindow
}

/// Over any run of bus messages, the interface's log grows by exactly the
/// logged lines, in the order they came; and once the window is hidden,
/// nothing is drawn until a request to show it comes.
pub proof fn lemma_ui_messages(s: ExtraSettings, log: Seq<String>, msgs: Seq<Message>, enabled: bool)
    ensures
        spec_ui_messages(s, log, msgs, enabled).1 == log + logged_lines(msgs),
        !s.draw_ui && !has_show(msgs) ==> !spec_ui_messages(s, log, msgs, enabled).0.draw_ui,
    decreases msgs.len(),
{
    if msgs.len() > 0 {
        let init = msgs.drop_last();
        lemma_ui_messages(s, log, init, enabled);
        if !has_show(msgs) {
            assert(!has_show(init)) by {
                if has_show(init) {
                    let i = choose|i: int| 0 <= i < init.len() && #[trigger] init[i] is ShowWindow;
                    assert(msgs[i] is ShowWindow);
                }
            }
            assert(!(msgs[msgs.len() - 1] is ShowWindow));
        }
        match msgs.last() {
            Message::Log(line) => {
                assert(log + logged_lines(init).push(line) =~= (log + logged_lines(init)).push(line));
            },
            _ => {},
        }
    } else {
        assert(log + Seq::<String>::empty() =~= log);
    }
}

/// What a tick of the interface does: applies the key pressed since the
/// last tick, if any, then draws unless it quits or drawing is off.
pub fn ui_tick(settings: &mut ExtraSettings, key: Option<UiKey>) -> (r: (UiAction, bool))
    ensures
        match key {
            Some(k) => (*final(settings), r.0) == spec_key(*old(settings), k),
            None => *final(settings) == *old(settings) && r.0 == UiAction::Nothing,
        },
        r.1 == (r.0 != UiAction::Quit && final(settings).draw_ui),
{
    let a = match key {
        Some(k) => handle_key(settings, k),
        None => UiAction::Nothing,
    };
    let draw = match a {
        UiAction::Quit => false,
        _ => settings.draw_ui,
    };
    (a, draw)
}

/// Whether the waiting animation replaces the interface: the poller is not
/// attached and the animation is enabled.
pub fn shows_orb(conn: ConnectionState, orb_enabled: bool) -> (r: bool)
    ensures
        r == (conn != ConnectionState::Connected && orb_enabled),
{
    conn != ConnectionState::Connected && orb_enabled
}

/// Which logo is drawn.
#[derive(Clone, Copy, Debug, PartialEq, Eq, Structural)]
pub enum LogoChoice {
    NoLogo,
    Full,
    Mini,
}

/// The logo of a style in an area `width` wide: automatic picks the full
/// logo when it fits (`full_width` is its widest line).
pub open spec fn spec_logo_choice(style: LogoStyle, width: int, full_width: int) -> LogoChoice {
    match style {
        LogoStyle::Off => LogoChoice::NoLogo,
        LogoStyle::Auto => if width >= full_width { LogoChoice::Full } else { LogoChoice::Mini },
        LogoStyle::Mini => LogoChoice::Mini,
        LogoStyle::Full => LogoChoice::Full,
    }
}

/// The logo of a style in an area `width` wide.
pub fn logo_choice(style: LogoStyle, width: usize, full_width: usize) -> (r: LogoChoice)
    ensures
        r == spec_logo_choice(style, width as int, full_width as int),
{
    match style {
        LogoStyle::Off => LogoChoice::NoLogo,
        LogoStyle::Auto => if width >= full_width { LogoChoice::Full } else { LogoChoice::Mini },
        LogoStyle::Mini => LogoChoice::Mini,
        LogoStyle::Full => LogoChoice::Full,
    }
}

/// The widest line of the full logo, in characters.
pub fn full_logo_width() -> (r: usize)
    ensures
        r == max_width(lines_from(crate::consts::LOGO_NEW@, 0)),
{
    let lines = text_lines(crate::consts::LOGO_NEW);
    max_line_width(&lines)
}

/// The number of lines of a logo.
pub fn logo_lines(choice: LogoChoice) -> (r: usize)
    ensures
        r == (match choice {
            LogoChoice::NoLogo => 0,
            LogoChoice::Full => lines_from(crate::consts::LOGO_NEW@, 0).len(),
            LogoChoice::Mini => lines_from(crate::consts::LOGO_MINI@, 0).len(),
        }),
{
    match choice {
        LogoChoice::NoLogo => 0,
        LogoChoice::Full => text_lines(crate::consts::LOGO_NEW).len(),
        LogoChoice::Mini => text_lines(crate::consts::LOGO_MINI).len(),
    }
}

/// How many of the oldest log lines are left out so that the rest fit
/// between the borders of a box `height` rows high.
pub open spec fn spec_log_skip(n: int, height: int) -> int {
    if n > height - 2 { n + 2 - height } else { 0 }
}

/// How many of the oldest log lines are left out (the box must have room
/// for its two borders).
pub fn log_skip(n: usize, height: u16) -> (r: usize)
    requires
        height >= 2,
    ensures
        r == spec_log_skip(n as int, height as int),
{
    if n > (height - 2) as usize {
        n - (height - 2) as usize
    } else {
        0
    }
}

/// The shown log lines always fit between the borders, and the newest one
/// is shown whenever the box has a row inside.
pub proof fn lemma_log_window(n: int, height: int)
    requires
        n >= 0,
        height >= 2,
    ensures
        0 <= spec_log_skip(n, height) <= n,
        n - spec_log_skip(n, height) <= height - 2,
        n > 0 && height > 2 ==> spec_log_skip(n, height) < n,
{
}

} // verus!
