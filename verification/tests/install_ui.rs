use fracture::install_ui::{
    apply_update, complete_setup_clicked, confirm_countdown_remaining, failure_report,
    installer_tick, installer_view, launcher_start, on_confirm_countdown_expired,
    on_confirm_dialog_closed, on_confirm_ok, record_extensions_enable_error,
    record_shortcut_binding, shortcut_is_bound, shortcut_needs_binding, startup_checks,
    CustomGtkScheduler, EnableGnomeExtensionsErr, InstallerTick, InstallerUpdate, LauncherStart,
    RowStatus, StartupResults, StartupState,
};

fn names(list: &[&str]) -> Vec<String> {
    list.iter().map(|s| s.to_string()).collect()
}

fn results(ext: bool, wc: bool, sc: bool) -> StartupResults {
    StartupResults {
        extensions_enabled: (ext, None),
        window_calls_installed: (wc, None),
        shortcut_set: (sc, None),
    }
}

fn running(ext: bool, wc: bool) -> StartupState {
    StartupState { results: results(ext, wc, false), redraw_requested: false, should_shutdown: false, failed: true }
}

#[test]
fn shortcut_found_by_name() {
    assert!(shortcut_is_bound(&names(&["Terminal", "FRACTURE"])));
    assert!(!shortcut_is_bound(&names(&["Terminal", "fracture", "FRACTURE "])));
    assert!(!shortcut_is_bound(&Vec::new()));
    assert!(shortcut_needs_binding(&names(&["Other"])));
}

#[test]
fn startup_checks_report() {
    let r = startup_checks(true, false, &names(&["FRACTURE"]));
    assert_eq!(r.extensions_enabled, (true, None));
    assert_eq!(r.window_calls_installed, (false, None));
    assert_eq!(r.shortcut_set, (true, None));
}

#[test]
fn launcher_skips_installer_when_done() {
    match launcher_start(results(true, true, false)) {
        LauncherStart::SetupAlreadyDone(s) => {
            assert!(!s.failed);
            assert!(!s.redraw_requested);
            assert!(!s.should_shutdown);
        }
        LauncherStart::RunInstaller(_) => panic!("setup was complete"),
    }
    match launcher_start(results(true, false, true)) {
        LauncherStart::RunInstaller(s) => assert!(s.failed),
        LauncherStart::SetupAlreadyDone(_) => panic!("window-calls missing"),
    }
}

#[test]
fn failure_reports_match_debug_form() {
    let a = format!("{:#?}", Err::<(), _>(EnableGnomeExtensionsErr::ImNotOkay));
    let b = format!("{:#?}", Err::<(), _>(EnableGnomeExtensionsErr::ClosedConfirmWindow));
    assert_eq!(failure_report(EnableGnomeExtensionsErr::ImNotOkay), a);
    assert_eq!(failure_report(EnableGnomeExtensionsErr::ClosedConfirmWindow), b);
}

#[test]
fn confirm_window_closed_without_confirmation() {
    let mut s = running(true, false);
    let disable = on_confirm_dialog_closed(&mut s, false);
    assert!(disable);
    assert!(s.redraw_requested);
    assert_eq!(s.results.extensions_enabled.0, false);
    assert_eq!(
        s.results.extensions_enabled.1,
        Some(failure_report(EnableGnomeExtensionsErr::ClosedConfirmWindow))
    );
    let mut s = running(false, false);
    assert!(!on_confirm_dialog_closed(&mut s, true));
}

#[test]
fn countdown() {
    assert_eq!(confirm_countdown_remaining(0), Some(15));
    assert_eq!(confirm_countdown_remaining(1), Some(14));
    assert_eq!(confirm_countdown_remaining(14_000_000_000), Some(1));
    assert_eq!(confirm_countdown_remaining(15_000_000_000), Some(0));
    assert_eq!(confirm_countdown_remaining(15_000_000_001), None);
}

#[test]
fn countdown_expiry_undoes_extensions() {
    let mut s = running(true, true);
    on_confirm_countdown_expired(&mut s);
    assert_eq!(s.results.extensions_enabled.0, false);
    assert_eq!(s.results.extensions_enabled.1, Some("Err(\n    ImNotOkay,\n)".to_string()));
    assert!(s.redraw_requested);
}

#[test]
fn confirmation_reruns_checks() {
    let mut s = running(false, false);
    on_confirm_ok(&mut s, results(true, true, true));
    assert!(s.redraw_requested);
    assert_eq!(s.results.extensions_enabled, (true, None));
    assert_eq!(s.results.shortcut_set, (true, None));
}

#[test]
fn enable_error_is_recorded() {
    let mut s = running(false, false);
    record_extensions_enable_error(&mut s, "boom".to_string());
    assert_eq!(s.results.extensions_enabled, (false, Some("boom".to_string())));
    assert!(s.redraw_requested);
}

#[test]
fn install_result_updates() {
    let mut s = running(true, false);
    apply_update(&mut s, InstallerUpdate::WindowCallsInstalled(Err("no network".to_string())));
    assert_eq!(s.results.window_calls_installed, (false, Some("no network".to_string())));
    apply_update(&mut s, InstallerUpdate::WindowCallsInstalled(Ok(())));
    assert_eq!(s.results.window_calls_installed.0, true);
    assert!(s.redraw_requested);
}

#[test]
fn shortcut_results() {
    let mut s = running(true, true);
    record_shortcut_binding(&mut s, Some("denied".to_string()));
    assert_eq!(s.results.shortcut_set, (false, Some("denied".to_string())));
    record_shortcut_binding(&mut s, None);
    assert_eq!(s.results.shortcut_set, (true, None));
}

#[test]
fn tick_rebuilds_then_closes() {
    let mut s = running(true, false);
    s.redraw_requested = true;
    assert_eq!(installer_tick(&mut s), InstallerTick { rebuild: true, close: false });
    assert!(!s.redraw_requested);
    assert_eq!(installer_tick(&mut s), InstallerTick { rebuild: false, close: false });
    complete_setup_clicked(&mut s);
    assert_eq!(installer_tick(&mut s), InstallerTick { rebuild: false, close: true });
    assert!(s.failed);
    let mut s = running(true, true);
    complete_setup_clicked(&mut s);
    installer_tick(&mut s);
    assert!(!s.failed);
}

#[test]
fn view_of_fresh_results() {
    let mut r = results(false, false, false);
    r.extensions_enabled.1 = Some("err".to_string());
    r.window_calls_installed.1 = Some("wc err".to_string());
    let v = installer_view(&r);
    assert_eq!(v.extensions.status, RowStatus::Missing);
    assert!(v.extensions.action_button && v.extensions.button_sensitive);
    assert_eq!(v.extensions.error_text, Some("err".to_string()));
    assert_eq!(v.window_calls.status, RowStatus::Missing);
    assert!(v.window_calls.action_button);
    assert!(!v.window_calls.button_sensitive);
    assert_eq!(v.window_calls.error_text, Some("wc err".to_string()));
    assert_eq!(v.shortcut.status, RowStatus::Warning);
    assert!(!v.complete_setup_sensitive);
}

#[test]
fn view_of_completed_results() {
    let mut r = results(true, true, true);
    r.shortcut_set.1 = Some("stale".to_string());
    let v = installer_view(&r);
    assert_eq!(v.extensions.status, RowStatus::Met);
    assert!(!v.extensions.action_button);
    assert_eq!(v.shortcut.status, RowStatus::Met);
    assert_eq!(v.shortcut.error_text, None);
    assert!(v.complete_setup_sensitive);
}

#[test]
fn scheduler_delivers_updates() {
    let (send, recv) = std::sync::mpsc::channel();
    let mut scheduler = CustomGtkScheduler::new(send);
    let mut copy = scheduler.clone();
    assert!(copy.schedule_execution(InstallerUpdate::WindowCallsInstalled(Ok(()))).is_ok());
    let mut s = running(true, false);
    apply_update(&mut s, recv.try_recv().unwrap());
    assert!(s.results.window_calls_installed.0);
    drop(recv);
    match scheduler.schedule_execution(InstallerUpdate::WindowCallsInstalled(Err("x".to_string()))) {
        Err(InstallerUpdate::WindowCallsInstalled(Err(e))) => assert_eq!(e, "x"),
        _ => panic!("a send without receiver hands the update back"),
    }
}
