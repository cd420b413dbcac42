//! The installer that runs before the mirror when its requirements are
//! missing: GNOME Shell extensions enabled, the window-calls extension
//! installed, and a keyboard shortcut named after the application.
use vstd::prelude::*;
use crate::defaults::APPLICATION_NAME;
pub use crate::install_channel::CustomGtkScheduler;

verus! {

/// Each requirement: whether it is met, and the error to show when an
/// attempt to meet it failed.
#[derive(Debug)]
pub struct StartupResults {
    pub extensions_enabled: (bool, Option<String>),
    pub window_calls_installed: (bool, Option<String>),
    pub shortcut_set: (bool, Option<String>),
}

/// The installer's state.
#[derive(Debug)]
pub struct StartupState {
    pub results: StartupResults,
    pub redraw_requested: bool,
    pub should_shutdown: bool,
    pub failed: bool,
}

/// Ways enabling the GNOME Shell extensions is undone.
#[derive(Debug, Clone, Copy, PartialEq, Eq, Structural)]
pub enum EnableGnomeExtensionsErr {
    /// The user did not confirm within the time limit.
    ImNotOkay,
    /// The confirmation window was closed.
    ClosedConfirmWindow,
}

fn clone_note(o: &Option<String>) -> (r: Option<String>)
    ensures
        r == *o,
{
    match o {
        Some(s) => Some(s.clone()),
        None => None,
    }
}

impl Clone for StartupResults {
    fn clone(&self) -> (r: Self)
        ensures
            r == *self,
    {
        StartupResults {
            extensions_enabled: (self.extensions_enabled.0, clone_note(&self.extensions_enabled.1)),
            window_calls_installed: (
                self.window_calls_installed.0,
                clone_note(&self.window_calls_installed.1),
            ),
            shortcut_set: (self.shortcut_set.0, clone_note(&self.shortcut_set.1)),
        }
    }
}

impl Clone for StartupState {
    fn clone(&self) -> (r: Self)
        ensures
            r == *self,
    {
        StartupState {
            results: self.results.clone(),
            redraw_requested: self.redraw_requested,
            should_shutdown: self.should_shutdown,
            failed: self.failed,
        }
    }
}

/// A custom keyboard binding with this name is the application's shortcut.
pub open spec fn is_shortcut_name(name: Seq<char>) -> bool {
    name == APPLICATION_NAME@
}

/// Some binding in `names` is the application's shortcut.
pub open spec fn shortcut_bound(names: Seq<String>) -> bool {
    exists|i: int| 0 <= i < names.len() && is_shortcut_name(#[trigger] names[i]@)
}

/// Both required steps are done; the shortcut is optional.
pub open spec fn spec_setup_complete(results: StartupResults) -> bool {
    results.extensions_enabled.0 && results.window_calls_installed.0
}

/// Whether a binding with the application's name is among `binding_names`.
pub fn shortcut_is_bound(binding_names: &Vec<String>) -> (b: bool)
    ensures
        b == shortcut_bound(binding_names@),
{
    let shortcut: String = APPLICATION_NAME.to_owned();
    let mut i: usize = 0;
    while i < binding_names.len()
        invariant
            i <= binding_names.len(),
            shortcut@ == APPLICATION_NAME@,
            forall|k: int| 0 <= k < i ==> !is_shortcut_name(#[trigger] binding_names@[k]@),
        decreases binding_names.len() - i,
    {
        if binding_names[i] == shortcut {
            return true;
        }
        i += 1;
    }
    false
}

/// The report of the requirements, from whether the shell extensions are
/// enabled, whether window-calls is installed, and the names of the custom
/// keyboard bindings.
pub fn startup_checks(
    extensions_enabled: bool,
    window_calls_installed: bool,
    binding_names: &Vec<String>,
) -> (r: StartupResults)
    ensures
        r.extensions_enabled == (extensions_enabled, None::<String>),
        r.window_calls_installed == (window_calls_installed, None::<String>),
        r.shortcut_set == (shortcut_bound(binding_names@), None::<String>),
{
    let keyboard_binding_set = shortcut_is_bound(binding_names);
    StartupResults {
        extensions_enabled: (extensions_enabled, None),
        window_calls_installed: (window_calls_installed, None),
        shortcut_set: (keyboard_binding_set, None),
    }
}

/// Whether both required steps are done.
pub fn setup_complete(results: &StartupResults) -> (b: bool)
    ensures
        b == spec_setup_complete(*results),
{
    results.extensions_enabled.0 && results.window_calls_installed.0
}

/// How the launcher proceeds from the startup checks.
#[derive(Debug)]
pub enum LauncherStart {
    /// Nothing to install: the launcher returns this state at once.
    SetupAlreadyDone(StartupState),
    /// The installer window runs on this state.
    RunInstaller(StartupState),
}

/// The launcher's first decision: with both required steps done it returns
/// a state that has not failed; otherwise the installer runs on a state
/// that counts as failed until the user completes the setup.
pub fn launcher_start(checks: StartupResults) -> (r: LauncherStart)
    ensures
        ({
            let s = StartupState {
                results: checks,
                redraw_requested: false,
                should_shutdown: false,
                failed: !spec_setup_complete(checks),
            };
            if spec_setup_complete(checks) {
                r == LauncherStart::SetupAlreadyDone(s)
            } else {
                r == LauncherStart::RunInstaller(s)
            }
        }),
{
    let complete = setup_complete(&checks);
    let state = StartupState {
        results: checks,
        redraw_requested: false,
        should_shutdown: false,
        failed: !complete,
    };
    if complete {
        LauncherStart::SetupAlreadyDone(state)
    } else {
        LauncherStart::RunInstaller(state)
    }
}

/// The text shown for an undone enabling of the extensions: the pretty
/// debug form of `Err(e)`.
pub open spec fn spec_failure_report(e: EnableGnomeExtensionsErr) -> Seq<char> {
    match e {
        EnableGnomeExtensionsErr::ImNotOkay => "Err(\n    ImNotOkay,\n)"@,
        EnableGnomeExtensionsErr::ClosedConfirmWindow => "Err(\n    ClosedConfirmWindow,\n)"@,
    }
}

/// The text shown for an undone enabling of the extensions.
pub fn failure_report(e: EnableGnomeExtensionsErr) -> (r: String)
    ensures
        r@ == spec_failure_report(e),
{
    match e {
        EnableGnomeExtensionsErr::ImNotOkay => "Err(\n    ImNotOkay,\n)".to_owned(),
        EnableGnomeExtensionsErr::ClosedConfirmWindow => "Err(\n    ClosedConfirmWindow,\n)".to_owned(),
    }
}

/// Enabling the extensions failed with the given error text.
pub fn record_extensions_enable_error(state: &mut StartupState, error: String)
    ensures
        final(state).redraw_requested,
        final(state).results.extensions_enabled == (
            old(state).results.extensions_enabled.0,
            Some(error),
        ),
        final(state).results.window_calls_installed == old(state).results.window_calls_installed,
        final(state).results.shortcut_set == old(state).results.shortcut_set,
        final(state).should_shutdown == old(state).should_shutdown,
        final(state).failed == old(state).failed,
{
    state.redraw_requested = true;
    state.results.extensions_enabled.1 = Some(error);
}

/// Records that the extensions are not enabled because of `e`.
fn record_extensions_undone(state: &mut StartupState, e: EnableGnomeExtensionsErr)
    ensures
        final(state).redraw_requested,
        final(state).results.extensions_enabled.0 == false,
        final(state).results.extensions_enabled.1 matches Some(t) && t@ == spec_failure_report(e),
        final(state).results.window_calls_installed == old(state).results.window_calls_installed,
        final(state).results.shortcut_set == old(state).results.shortcut_set,
        final(state).should_shutdown == old(state).should_shutdown,
        final(state).failed == old(state).failed,
{
    let report = failure_report(e);
    state.redraw_requested = true;
    state.results.extensions_enabled = (false, Some(report));
}

/// The confirmation window closed; unless the user had confirmed, the
/// extensions must be disabled again (the result says so). Either way the
/// extensions count as not enabled until the checks run again.
pub fn on_confirm_dialog_closed(state: &mut StartupState, confirmed_ok: bool) -> (disable_extensions:
    bool)
    ensures
        disable_extensions == !confirmed_ok,
        final(state).redraw_requested,
        final(state).results.extensions_enabled.0 == false,
        final(state).results.extensions_enabled.1 matches Some(t) && t@ == spec_failure_report(
            EnableGnomeExtensionsErr::ClosedConfirmWindow,
        ),
        final(state).results.window_calls_installed == old(state).results.window_calls_installed,
        final(state).results.shortcut_set == old(state).results.shortcut_set,
        final(state).should_shutdown == old(state).should_shutdown,
        final(state).failed == old(state).failed,
{
    record_extensions_undone(state, EnableGnomeExtensionsErr::ClosedConfirmWindow);
    !confirmed_ok
}

/// The time the user has to confirm, in nanoseconds.
pub const CONFIRM_WINDOW_NANOS: u128 = 15_000_000_000;

/// Whole seconds left to confirm after `elapsed_nanos`, or `None` once the
/// time is up.
pub fn confirm_countdown_remaining(elapsed_nanos: u128) -> (r: Option<u64>)
    ensures
        elapsed_nanos > CONFIRM_WINDOW_NANOS ==> r is None,
        elapsed_nanos <= CONFIRM_WINDOW_NANOS ==> r == Some(
            ((CONFIRM_WINDOW_NANOS - elapsed_nanos) / 1_000_000_000) as u64,
        ),
{
    if elapsed_nanos > CONFIRM_WINDOW_NANOS {
        None
    } else {
        Some(((CONFIRM_WINDOW_NANOS - elapsed_nanos) / 1_000_000_000) as u64)
    }
}

/// The user did not confirm in time: the extensions count as not enabled.
pub fn on_confirm_countdown_expired(state: &mut StartupState)
    ensures
        final(state).redraw_requested,
        final(state).results.extensions_enabled.0 == false,
        final(state).results.extensions_enabled.1 matches Some(t) && t@ == spec_failure_report(
            EnableGnomeExtensionsErr::ImNotOkay,
        ),
        final(state).results.window_calls_installed == old(state).results.window_calls_installed,
        final(state).results.shortcut_set == old(state).results.shortcut_set,
        final(state).should_shutdown == old(state).should_shutdown,
        final(state).failed == old(state).failed,
{
    record_extensions_undone(state, EnableGnomeExtensionsErr::ImNotOkay);
}

/// The user confirmed: the requirements are checked again, giving `rechecked`.
pub fn on_confirm_ok(state: &mut StartupState, rechecked: StartupResults)
    ensures
        *final(state) == (StartupState {
            results: rechecked,
            redraw_requested: true,
            ..*old(state)
        }),
{
    state.results = rechecked;
    state.redraw_requested = true;
}

/// Whether the shortcut must be added: no binding in `binding_names` has the
/// application's name.
pub fn shortcut_needs_binding(binding_names: &Vec<String>) -> (b: bool)
    ensures
        b == !shortcut_bound(binding_names@),
{
    !shortcut_is_bound(binding_names)
}

/// Records the shortcut: `add_error` is the error text of a failed attempt
/// to add it, or `None` when it was added or already present.
pub fn record_shortcut_binding(state: &mut StartupState, add_error: Option<String>)
    ensures
        final(state).redraw_requested,
        final(state).results.shortcut_set == (match add_error {
            Some(e) => (false, Some(e)),
            None => (true, None),
        }),
        final(state).results.extensions_enabled == old(state).results.extensions_enabled,
        final(state).results.window_calls_installed == old(state).results.window_calls_installed,
        final(state).should_shutdown == old(state).should_shutdown,
        final(state).failed == old(state).failed,
{
    state.redraw_requested = true;
    match add_error {
        Some(e) => {
            state.results.shortcut_set = (false, Some(e));
        },
        None => {
            state.results.shortcut_set = (true, None);
        },
    }
}

/// The user asked to finish the setup.
pub fn complete_setup_clicked(state: &mut StartupState)
    ensures
        *final(state) == (StartupState { should_shutdown: true, ..*old(state) }),
{
    state.should_shutdown = true;
}

/// An update made by the installing thread, applied in the installer's
/// tick loop.
#[derive(Debug)]
pub enum InstallerUpdate {
    /// Installing window-calls ended; the error text when it failed.
    WindowCallsInstalled(Result<(), String>),
}

/// Applies an update: the window is redrawn, and window-calls counts as
/// installed after a success, or shows the error after a failure.
pub fn apply_update(state: &mut StartupState, update: InstallerUpdate)
    ensures
        final(state).redraw_requested,
        match update {
            InstallerUpdate::WindowCallsInstalled(Ok(())) => final(state).results.window_calls_installed
                == (true, old(state).results.window_calls_installed.1),
            InstallerUpdate::WindowCallsInstalled(Err(e)) => final(state).results.window_calls_installed
                == (old(state).results.window_calls_installed.0, Some(e)),
        },
        final(state).results.extensions_enabled == old(state).results.extensions_enabled,
        final(state).results.shortcut_set == old(state).results.shortcut_set,
        final(state).should_shutdown == old(state).should_shutdown,
        final(state).failed == old(state).failed,
{
    state.redraw_requested = true;
    match update {
        InstallerUpdate::WindowCallsInstalled(Err(e)) => {
            state.results.window_calls_installed.1 = Some(e);
        },
        InstallerUpdate::WindowCallsInstalled(Ok(())) => {
            state.results.window_calls_installed.0 = true;
        },
    }
}

/// What one tick of the installer window does.
#[derive(Debug, Clone, Copy, PartialEq, Eq, Structural)]
pub struct InstallerTick {
    /// Rebuild the window's contents.
    pub rebuild: bool,
    /// Close the window and end the installer.
    pub close: bool,
}

/// One tick of the installer window (after any pending update is applied):
/// a requested redraw rebuilds the contents and is cleared; a requested
/// shutdown closes the window, the setup counting as failed unless both
/// required steps are done.
pub fn installer_tick(state: &mut StartupState) -> (r: InstallerTick)
    ensures
        r.rebuild == old(state).redraw_requested,
        r.close == old(state).should_shutdown,
        *final(state) == (StartupState {
            redraw_requested: false,
            failed: if old(state).should_shutdown {
                !spec_setup_complete(old(state).results)
            } else {
                old(state).failed
            },
            ..*old(state)
        }),
{
    let rebuild = state.redraw_requested;
    if rebuild {
        state.redraw_requested = false;
    }
    let close = state.should_shutdown;
    if close {
        let did_setup_fail = !setup_complete(&state.results);
        state.failed = did_setup_fail;
    }
    InstallerTick { rebuild, close }
}

/// How a requirement's row is shown.
#[derive(Debug, Clone, Copy, PartialEq, Eq, Structural)]
pub enum RowStatus {
    Met,
    Missing,
    Warning,
}

/// One requirement's row of the installer window.
#[derive(Debug)]
pub struct RowView {
    pub status: RowStatus,
    /// The row has a button that meets the requirement.
    pub action_button: bool,
    pub button_sensitive: bool,
    /// Error text shown under the row.
    pub error_text: Option<String>,
}

/// The installer window's contents.
#[derive(Debug)]
pub struct InstallerView {
    pub extensions: RowView,
    pub window_calls: RowView,
    pub shortcut: RowView,
    /// The "Complete Setup" button can be pressed.
    pub complete_setup_sensitive: bool,
}

/// The error text under a requirement's row: shown while the requirement
/// is unmet and an error was recorded.
pub open spec fn spec_row_error(req: (bool, Option<String>)) -> Option<String> {
    if !req.0 {
        req.1
    } else {
        None
    }
}

fn row_error(req: &(bool, Option<String>)) -> (r: Option<String>)
    ensures
        r == spec_row_error(*req),
{
    if !req.0 {
        clone_note(&req.1)
    } else {
        None
    }
}

/// The installer window's contents for the given results: a met requirement
/// shows as met without a button; unmet extensions and window-calls show as
/// missing with a button (window-calls' only pressable once the extensions
/// are enabled); an unset shortcut shows a warning with a button; recorded
/// errors of unmet requirements are shown; the setup can be completed once
/// both required steps are done.
pub fn installer_view(results: &StartupResults) -> (v: InstallerView)
    ensures
        v.extensions.status == if results.extensions_enabled.0 {
            RowStatus::Met
        } else {
            RowStatus::Missing
        },
        v.extensions.action_button == !results.extensions_enabled.0,
        v.extensions.button_sensitive == !results.extensions_enabled.0,
        v.extensions.error_text == spec_row_error(results.extensions_enabled),
        v.window_calls.status == if results.window_calls_installed.0 {
            RowStatus::Met
        } else {
            RowStatus::Missing
        },
        v.window_calls.action_button == !results.window_calls_installed.0,
        v.window_calls.button_sensitive == (!results.window_calls_installed.0
            && results.extensions_enabled.0),
        v.window_calls.error_text == spec_row_error(results.window_calls_installed),
        v.shortcut.status == if results.shortcut_set.0 {
            RowStatus::Met
        } else {
            RowStatus::Warning
        },
        v.shortcut.action_button == !results.shortcut_set.0,
        v.shortcut.button_sensitive == !results.shortcut_set.0,
        v.shortcut.error_text == spec_row_error(results.shortcut_set),
        v.complete_setup_sensitive == spec_setup_complete(*results),
{
    let ext_ok = results.extensions_enabled.0;
    let wc_ok = results.window_calls_installed.0;
    let sc_ok = results.shortcut_set.0;
    let extensions = RowView {
        status: if ext_ok {
            RowStatus::Met
        } else {
            RowStatus::Missing
        },
        action_button: !ext_ok,
        button_sensitive: !ext_ok,
        error_text: row_error(&results.extensions_enabled),
    };
    let window_calls = RowView {
        status: if wc_ok {
            RowStatus::Met
        } else {
            RowStatus::Missing
        },
        action_button: !wc_ok,
        button_sensitive: !wc_ok && ext_ok,
        error_text: row_error(&results.window_calls_installed),
    };
    let shortcut = RowView {
        status: if sc_ok {
            RowStatus::Met
        } else {
            RowStatus::Warning
        },
        action_button: !sc_ok,
        button_sensitive: !sc_ok,
        error_text: row_error(&results.shortcut_set),
    };
    InstallerView {
        extensions,
        window_calls,
        shortcut,
        complete_setup_sensitive: setup_complete(results),
    }
}

impl CustomGtkScheduler {
    /// Schedules an update to run on the installer state within the tick
    /// loop; for use from another thread. A successful send puts exactly
    /// `update` on the channel, after everything sent before; a failed send
    /// hands the update back and sends nothing.
    pub fn schedule_execution(&mut self, update: InstallerUpdate) -> (r: Result<(), InstallerUpdate>)
        ensures
            final(self).sender() == old(self).sender(),
            r is Ok ==> final(self).sent() == old(self).sent().push(update),
            r matches Err(u) ==> u == update && final(self).sent() == old(self).sent(),
    {
        crate::install_channel::send_update(self, update)
    }
}

} // verus!
