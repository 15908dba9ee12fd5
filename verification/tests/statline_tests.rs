use statline::app::{AppModel, Effect, Message, PopupPage, WindowId};
use statline::config::{Config, ConfigLoad};
use statline::launch::{monitor_launch_attempts, open_url_command, MonitorLaunch, SpawnCommand};
use statline::popup::{
    popup_layout, shell_alignment, HorizontalAlign, PageContent, PanelAnchor, VerticalAlign,
};

fn cmd(program: &str, args: &[&str]) -> SpawnCommand {
    SpawnCommand {
        program: program.to_string(),
        args: args.iter().map(|a| a.to_string()).collect(),
    }
}

// ---------------------------------------------------------------- config

#[test]
fn config_default_is_empty() {
    let c = Config::default();
    assert_eq!(c.demo(), "");
}

#[test]
fn config_new_keeps_value() {
    let c = Config::new("hello".to_string());
    assert_eq!(c.demo(), "hello");
}

#[test]
fn config_load_unavailable_falls_back_to_default() {
    let c = Config::from_load(ConfigLoad::Unavailable);
    assert_eq!(c, Config::default());
}

#[test]
fn config_load_complete_is_used() {
    let c = Config::from_load(ConfigLoad::Complete(Config::new("a".to_string())));
    assert_eq!(c.demo(), "a");
}

#[test]
fn config_load_partial_is_used() {
    let c = Config::from_load(ConfigLoad::Partial(Config::new("part".to_string())));
    assert_eq!(c.demo(), "part");
}

// ---------------------------------------------------------------- app

#[test]
fn init_is_closed_on_main() {
    let m = AppModel::init(Config::new("x".to_string()));
    assert_eq!(m.popup(), None);
    assert_eq!(m.page(), PopupPage::Main);
    assert_eq!(m.config().demo(), "x");
}

#[test]
fn popup_page_default_is_main() {
    assert_eq!(PopupPage::default(), PopupPage::Main);
}

#[test]
fn navigation_sets_page() {
    let mut m = AppModel::init(Config::default());
    assert_eq!(m.update(Message::ShowSettings), Effect::Nothing);
    assert_eq!(m.page(), PopupPage::Settings);
    assert_eq!(m.update(Message::ShowAbout), Effect::Nothing);
    assert_eq!(m.page(), PopupPage::About);
    assert_eq!(m.update(Message::ShowMain), Effect::Nothing);
    assert_eq!(m.page(), PopupPage::Main);
    assert_eq!(m.popup(), None);
}

#[test]
fn toggle_when_closed_requests_popup() {
    let mut m = AppModel::init(Config::default());
    m.update(Message::ShowAbout);
    assert_eq!(m.update(Message::TogglePopup), Effect::OpenPopup);
    assert_eq!(m.popup(), None);
    assert_eq!(m.page(), PopupPage::About);
}

#[test]
fn popup_opened_records_window() {
    let mut m = AppModel::init(Config::default());
    m.popup_opened(WindowId(7));
    assert_eq!(m.popup(), Some(WindowId(7)));
    assert_eq!(m.page(), PopupPage::Main);
}

#[test]
fn toggle_when_open_destroys_and_resets() {
    let mut m = AppModel::init(Config::new("keep".to_string()));
    assert_eq!(m.update(Message::TogglePopup), Effect::OpenPopup);
    m.popup_opened(WindowId(3));
    m.update(Message::ShowSettings);
    assert_eq!(m.update(Message::TogglePopup), Effect::DestroyPopup(WindowId(3)));
    assert_eq!(m.popup(), None);
    assert_eq!(m.page(), PopupPage::Main);
    assert_eq!(m.config().demo(), "keep");
}

#[test]
fn reopening_after_close_starts_on_main() {
    let mut m = AppModel::init(Config::default());
    m.update(Message::TogglePopup);
    m.popup_opened(WindowId(1));
    m.update(Message::ShowAbout);
    m.update(Message::TogglePopup);
    assert_eq!(m.update(Message::TogglePopup), Effect::OpenPopup);
    m.popup_opened(WindowId(2));
    assert_eq!(m.page(), PopupPage::Main);
    assert_eq!(m.popup(), Some(WindowId(2)));
}

#[test]
fn close_request_answers_popup_closed() {
    let m = AppModel::init(Config::default());
    assert_eq!(m.on_close_requested(WindowId(9)), Some(Message::PopupClosed(WindowId(9))));
}

#[test]
fn shell_closing_own_popup_resets() {
    let mut m = AppModel::init(Config::default());
    m.popup_opened(WindowId(4));
    m.update(Message::ShowSettings);
    let msg = m.on_close_requested(WindowId(4)).unwrap();
    assert_eq!(m.update(msg), Effect::Nothing);
    assert_eq!(m.popup(), None);
    assert_eq!(m.page(), PopupPage::Main);
}

#[test]
fn shell_closing_other_window_is_ignored() {
    let mut m = AppModel::init(Config::default());
    m.popup_opened(WindowId(4));
    m.update(Message::ShowSettings);
    assert_eq!(m.update(Message::PopupClosed(WindowId(5))), Effect::Nothing);
    assert_eq!(m.popup(), Some(WindowId(4)));
    assert_eq!(m.page(), PopupPage::Settings);
}

#[test]
fn popup_closed_without_popup_is_ignored() {
    let mut m = AppModel::init(Config::default());
    m.update(Message::ShowAbout);
    assert_eq!(m.update(Message::PopupClosed(WindowId(1))), Effect::Nothing);
    assert_eq!(m.popup(), None);
    assert_eq!(m.page(), PopupPage::About);
}

#[test]
fn config_update_replaces_only_config() {
    let mut m = AppModel::init(Config::new("old".to_string()));
    m.popup_opened(WindowId(2));
    m.update(Message::ShowAbout);
    assert_eq!(m.update(Message::UpdateConfig(Config::new("new".to_string()))), Effect::Nothing);
    assert_eq!(m.config().demo(), "new");
    assert_eq!(m.popup(), Some(WindowId(2)));
    assert_eq!(m.page(), PopupPage::About);
}

#[test]
fn open_url_and_launch_are_handed_to_host() {
    let mut m = AppModel::init(Config::default());
    m.update(Message::ShowAbout);
    let url = "https://example.org/".to_string();
    assert_eq!(m.update(Message::OpenUrl(url.clone())), Effect::OpenUrl(url));
    assert_eq!(m.update(Message::LaunchMonitor), Effect::LaunchMonitor);
    assert_eq!(m.page(), PopupPage::About);
    assert_eq!(m.popup(), None);
}

// ---------------------------------------------------------------- launch

#[test]
fn open_url_native() {
    assert_eq!(open_url_command("https://a.b/", false), cmd("xdg-open", &["https://a.b/"]));
}

#[test]
fn open_url_in_flatpak_runs_on_host() {
    assert_eq!(
        open_url_command("https://a.b/", true),
        cmd("flatpak-spawn", &["--host", "xdg-open", "https://a.b/"])
    );
}

#[test]
fn monitor_attempts_native() {
    assert_eq!(
        monitor_launch_attempts(false),
        vec![
            cmd("gtk4-launch", &["com.system76.CosmicMonitor"]),
            cmd("gtk-launch", &["com.system76.CosmicMonitor"]),
            cmd("cosmic-monitor", &[]),
        ]
    );
}

#[test]
fn monitor_attempts_in_flatpak() {
    assert_eq!(
        monitor_launch_attempts(true),
        vec![
            cmd("flatpak-spawn", &["--host", "gtk4-launch", "com.system76.CosmicMonitor"]),
            cmd("flatpak-spawn", &["--host", "gtk-launch", "com.system76.CosmicMonitor"]),
            cmd("flatpak-spawn", &["--host", "cosmic-monitor"]),
        ]
    );
}

/// Runs a launch where the i-th spawn starts when `results[i]`; returns the
/// spawned programs (last word of each command) and whether one started.
fn drive(in_flatpak: bool, results: &[bool]) -> (Vec<SpawnCommand>, bool) {
    let mut launch = MonitorLaunch::new(in_flatpak);
    let mut spawned = Vec::new();
    let mut i = 0;
    while let Some(c) = launch.next_command() {
        spawned.push(c.clone());
        let ok = results[i];
        i += 1;
        launch.record_spawn(ok);
    }
    (spawned, launch.launched())
}

#[test]
fn launch_stops_at_first_success() {
    let (spawned, launched) = drive(false, &[false, true, true]);
    assert!(launched);
    assert_eq!(
        spawned,
        vec![
            cmd("gtk4-launch", &["com.system76.CosmicMonitor"]),
            cmd("gtk-launch", &["com.system76.CosmicMonitor"]),
        ]
    );
}

#[test]
fn launch_first_attempt_succeeds() {
    let (spawned, launched) = drive(true, &[true, false, false]);
    assert!(launched);
    assert_eq!(
        spawned,
        vec![cmd("flatpak-spawn", &["--host", "gtk4-launch", "com.system76.CosmicMonitor"])]
    );
}

#[test]
fn launch_gives_up_after_all_fallbacks() {
    let (spawned, launched) = drive(false, &[false, false, false]);
    assert!(!launched);
    assert_eq!(spawned, monitor_launch_attempts(false));
}

// ---------------------------------------------------------------- popup layout

#[test]
fn main_page_layout() {
    let l = popup_layout(PopupPage::Main, false, 8, 16);
    assert_eq!(l.content, PageContent::MainHeader);
    assert!(!l.back_button);
    assert!(!l.scrollable);
    assert_eq!(l.padding, 16);
}

#[test]
fn settings_page_layout_condensed() {
    let l = popup_layout(PopupPage::Settings, true, 8, 16);
    assert_eq!(l.content, PageContent::SettingsTitle);
    assert!(l.back_button);
    assert!(l.scrollable);
    assert_eq!(l.padding, 8);
}

#[test]
fn about_page_layout() {
    let l = popup_layout(PopupPage::About, false, 8, 16);
    assert_eq!(l.content, PageContent::AboutDetails);
    assert!(l.back_button);
    assert!(l.scrollable);
    assert_eq!(l.padding, 16);
}

#[test]
fn shell_alignment_follows_panel_edge() {
    assert_eq!(shell_alignment(PanelAnchor::Left), (VerticalAlign::Center, HorizontalAlign::Left));
    assert_eq!(shell_alignment(PanelAnchor::Right), (VerticalAlign::Center, HorizontalAlign::Right));
    assert_eq!(shell_alignment(PanelAnchor::Top), (VerticalAlign::Top, HorizontalAlign::Center));
    assert_eq!(shell_alignment(PanelAnchor::Bottom), (VerticalAlign::Bottom, HorizontalAlign::Center));
}
