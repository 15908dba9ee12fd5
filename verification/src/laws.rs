//! Properties that hold across calls: how messages move the applet between
//! states, and how the monitor launch sequence ends.

use vstd::prelude::*;

use crate::app::{closed_state, step, Effect, Message, ModelView, PopupPage, WindowId};
use crate::config::Config;
use crate::launch::{first_success, monitor_attempts, monitor_launchers, placed, CommandLine, LaunchView};

verus! {

/// The navigation messages show the page they name, keep the popup and the
/// config, and need no work from the host.
pub proof fn navigation_shows_named_page(s: ModelView)
    ensures
        step(s, Message::ShowMain) == (ModelView { page: PopupPage::Main, ..s }, Effect::Nothing),
        step(s, Message::ShowSettings) == (ModelView { page: PopupPage::Settings, ..s }, Effect::Nothing),
        step(s, Message::ShowAbout) == (ModelView { page: PopupPage::About, ..s }, Effect::Nothing),
{
}

/// Clicking the panel pill while the popup is open closes it: the host is
/// asked to destroy that window, and navigation goes back to the main page.
pub proof fn toggle_closes_open_popup(s: ModelView, p: WindowId)
    requires
        s.popup == Some(p),
    ensures
        step(s, Message::TogglePopup) == (closed_state(s), Effect::DestroyPopup(p)),
{
}

/// Clicking the panel pill while no popup is open asks the host for a popup
/// and changes nothing else.
pub proof fn toggle_requests_popup_when_closed(s: ModelView)
    requires
        s.popup is None,
    ensures
        step(s, Message::TogglePopup) == (s, Effect::OpenPopup),
{
}

/// Opening the popup, browsing to any page and clicking the pill again
/// destroys the very window that was opened and leaves the applet closed on
/// the main page, so the next opening starts fresh; the config is kept.
pub proof fn reopening_starts_on_main(s: ModelView, id: WindowId, page: PopupPage)
    requires
        s.popup is None,
    ensures
        ({
            let (opening, request) = step(s, Message::TogglePopup);
            let opened = ModelView { popup: Some(id), ..opening };
            let browsed = ModelView { page: page, ..opened };
            let (closed, effect) = step(browsed, Message::TogglePopup);
            &&& request == Effect::OpenPopup
            &&& effect == Effect::DestroyPopup(id)
            &&& closed == closed_state(s)
            &&& closed.popup is None
            &&& closed.page == PopupPage::Main
            &&& closed.config == s.config
        }),
{
}

/// When the shell closes the applet's own popup, the applet forgets it and
/// returns to the main page.
pub proof fn closing_own_popup_resets(s: ModelView, id: WindowId)
    requires
        s.popup == Some(id),
    ensures
        step(s, Message::PopupClosed(id)) == (closed_state(s), Effect::Nothing),
{
}

/// A close for any other window leaves the state as it was.
pub proof fn closing_other_window_is_ignored(s: ModelView, id: WindowId)
    requires
        s.popup != Some(id),
    ensures
        step(s, Message::PopupClosed(id)) == (s, Effect::Nothing),
{
}

/// A config reload replaces the config and nothing else.
pub proof fn config_reload_replaces_config(s: ModelView, config: Config)
    ensures
        step(s, Message::UpdateConfig(config)) == (ModelView { config: config, ..s }, Effect::Nothing),
{
}

/// Opening a link or the monitor leaves the state as it was and hands the
/// request to the host unchanged.
pub proof fn requests_leave_state(s: ModelView, url: String)
    ensures
        step(s, Message::OpenUrl(url)) == (s, Effect::OpenUrl(url)),
        step(s, Message::LaunchMonitor) == (s, Effect::LaunchMonitor),
{
}

/// Induction behind `launch_stops_at_first_success`, from any point of the
/// sequence where nothing has started yet.
proof fn run_from(v: LaunchView, results: Seq<bool>)
    requires
        !v.launched,
        v.tried + results.len() == v.attempts.len(),
    ensures
        v.run(results).attempts == v.attempts,
        v.run(results).launched == results.contains(true),
        v.run(results).tried == v.tried + (if results.contains(true) {
            first_success(results) + 1
        } else {
            results.len()
        }),
    decreases results.len(),
{
    if results.len() == 0 {
        assert(!results.contains(true));
    } else {
        let next = v.record(results[0]);
        assert(!v.finished());
        assert(v.run(results) == next.run(results.drop_first()));
        if results[0] {
            assert(results.contains(true)) by {
                assert(results[0] == true);
            }
            assert(next.finished());
            assert(next.run(results.drop_first()) == next);
        } else {
            run_from(next, results.drop_first());
            assert(results.contains(true) == results.drop_first().contains(true)) by {
                if results.contains(true) {
                    let k = choose|k: int| 0 <= k < results.len() && results[k] == true;
                    assert(k > 0);
                    assert(results.drop_first()[k - 1] == true);
                }
                if results.drop_first().contains(true) {
                    let k = choose|k: int|
                        0 <= k < results.drop_first().len() && results.drop_first()[k] == true;
                    assert(results[k + 1] == true);
                }
            }
        }
    }
}

/// The monitor launch spawns the attempts in order and stops at the first
/// that starts: given whether each attempt would start, the launch ends with
/// the monitor started exactly when one of them starts, after spawning the
/// attempts up to and including the first that starts, and never more than
/// there are.
pub proof fn launch_stops_at_first_success(attempts: Seq<(Seq<char>, Seq<Seq<char>>)>, results: Seq<bool>)
    requires
        results.len() == attempts.len(),
    ensures
        ({
            let start = LaunchView { attempts: attempts, tried: 0, launched: false };
            let end = start.run(results);
            &&& end.finished()
            &&& end.launched == results.contains(true)
            &&& end.tried == (if results.contains(true) {
                first_success(results) + 1
            } else {
                attempts.len()
            })
            &&& end.tried <= attempts.len()
        }),
{
    let start = LaunchView { attempts: attempts, tried: 0, launched: false };
    run_from(start, results);
    if results.contains(true) {
        first_success_finds(results);
    }
}

/// `first_success` points at a `true` when there is one.
proof fn first_success_finds(results: Seq<bool>)
    requires
        results.contains(true),
    ensures
        first_success(results) < results.len(),
        results[first_success(results) as int],
    decreases results.len(),
{
    if !results[0] {
        let k = choose|k: int| 0 <= k < results.len() && results[k] == true;
        assert(results.drop_first()[k - 1] == true);
        first_success_finds(results.drop_first());
    }
}

/// Outside a sandbox a command line runs exactly as given: same program,
/// every argument passed through verbatim, whatever its length or text.
pub proof fn native_commands_run_verbatim(c: CommandLine)
    ensures
        placed(c, false).0 == c.0,
        placed(c, false).1.len() == c.1.len(),
        forall|i: int| 0 <= i < c.1.len() ==> #[trigger] placed(c, false).1[i] == c.1[i],
{
}

/// Inside Flatpak every command line, whatever its arguments, runs on the
/// host as `flatpak-spawn --host <program> <args...>`, its own arguments
/// passed through verbatim after the program.
pub proof fn sandboxed_commands_run_on_host(c: CommandLine)
    ensures
        placed(c, true).0 == "flatpak-spawn"@,
        placed(c, true).1.len() == c.1.len() + 2,
        placed(c, true).1[0] == "--host"@,
        placed(c, true).1[1] == c.0,
        forall|i: int| 0 <= i < c.1.len() ==> #[trigger] placed(c, true).1[i + 2] == c.1[i],
{
}

/// Natively the monitor launchers run as listed; inside Flatpak each runs
/// on the host with its own command line after `flatpak-spawn --host`.
pub proof fn monitor_attempts_placement()
    ensures
        monitor_attempts(false) == monitor_launchers(),
        monitor_attempts(true).len() == monitor_launchers().len(),
        forall|i: int| 0 <= i < monitor_launchers().len() ==> {
            let a = #[trigger] monitor_attempts(true)[i];
            let l = monitor_launchers()[i];
            &&& a.0 == "flatpak-spawn"@
            &&& a.1 == seq!["--host"@, l.0] + l.1
        },
{
    assert(monitor_attempts(false) =~= monitor_launchers());
}

} // verus!
