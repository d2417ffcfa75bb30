//! The system tray: the theme rule for the icons, and what tray events ask
//! of the rest of the program.
use vstd::prelude::*;

verus! {

/// The tray icon task (the icon itself lives with the caller).
pub struct TrayIcon;

/// What the tray menu and clicks report.
#[derive(Clone, Copy, Debug, PartialEq, Eq, Structural)]
pub enum TrayEvent {
    ShowWindow,
    HideWindow,
    Exit,
}

/// Whether the system uses the light theme: the personalisation setting
/// `AppsUseLightTheme` could be read and is 1.
pub fn is_light_theme(apps_use_light_theme: Option<u32>) -> (r: bool)
    ensures
        r == (apps_use_light_theme == Some(1u32)),
{
    match apps_use_light_theme {
        Some(v) => v == 1,
        None => false,
    }
}

/// The resource ids of the small and the big window icon for a theme.
pub fn window_icons(light_theme: bool) -> (r: (u16, u16))
    ensures
        r == (if light_theme { (3u16, 5u16) } else { (2u16, 4u16) }),
{
    if light_theme { (3, 5) } else { (2, 4) }
}

/// What the program is asked after a tray event.
#[derive(Clone, Copy, Debug, PartialEq, Eq, Structural)]
pub enum TrayRequest {
    /// Show the window again.
    ShowWindow,
    /// Hide the window.
    HideWindow,
    /// Stop the tray icon's loop and exit.
    Exit,
}

/// The request of a tray event.
pub fn tray_request(e: TrayEvent) -> (r: TrayRequest)
    ensures
        r == (match e {
            TrayEvent::ShowWindow => TrayRequest::ShowWindow,
            TrayEvent::HideWindow => TrayRequest::HideWindow,
            TrayEvent::Exit => TrayRequest::Exit,
        }),
{
    match e {
        TrayEvent::ShowWindow => TrayRequest::ShowWindow,
        TrayEvent::HideWindow => TrayRequest::HideWindow,
        TrayEvent::Exit => TrayRequest::Exit,
    }
}

/// How the tray starts: whether it runs at all (the window icons are set
/// either way), and the event it reports to itself at once: hiding the
/// window when the configuration asks for it at start.
pub fn tray_start(tray_icon: bool, hide_on_start: bool) -> (r: (bool, Option<TrayEvent>))
    ensures
        r == (if !tray_icon {
            (false, None::<TrayEvent>)
        } else if hide_on_start {
            (true, Some(TrayEvent::HideWindow))
        } else {
            (true, None::<TrayEvent>)
        }),
{
    if !tray_icon {
        (false, None)
    } else if hide_on_start {
        (true, Some(TrayEvent::HideWindow))
    } else {
        (true, None)
    }
}

} // verus!
