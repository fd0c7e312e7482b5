//! Bringing the main window back when the application is reopened.
use vstd::prelude::*;

verus! {

/// The operations on the main window that restoring it needs. Each operation's
/// outcome is the window's own; an implementation says, by the matching spec functions,
/// which outcomes it can have, and one that says nothing allows every outcome.
pub trait MainWindowLifecycle {
    /// Whether showing this window can succeed.
    open spec fn show_may_succeed(&self) -> bool {
        true
    }

    /// Whether showing this window can fail with `e`.
    open spec fn show_may_fail(&self, e: String) -> bool {
        true
    }

    /// Whether unminimizing this window can succeed.
    open spec fn unminimize_may_succeed(&self) -> bool {
        true
    }

    /// Whether unminimizing this window can fail with `e`.
    open spec fn unminimize_may_fail(&self, e: String) -> bool {
        true
    }

    /// Whether focusing this window can succeed.
    open spec fn focus_may_succeed(&self) -> bool {
        true
    }

    /// Whether focusing this window can fail with `e`.
    open spec fn focus_may_fail(&self, e: String) -> bool {
        true
    }

    /// Shows the window.
    fn show(&self) -> (r: Result<(), String>)
        ensures
            r is Ok ==> self.show_may_succeed(),
            r is Err ==> self.show_may_fail(r->Err_0),
    ;

    /// Restores the window from the dock or task bar.
    fn unminimize(&self) -> (r: Result<(), String>)
        ensures
            r is Ok ==> self.unminimize_may_succeed(),
            r is Err ==> self.unminimize_may_fail(r->Err_0),
    ;

    /// Gives the window the keyboard focus.
    fn set_focus(&self) -> (r: Result<(), String>)
        ensures
            r is Ok ==> self.focus_may_succeed(),
            r is Err ==> self.focus_may_fail(r->Err_0),
    ;
}

/// What restoring the window can end in: success only where showing, unminimizing and
/// focusing each could succeed; otherwise the error of the first step that failed, after
/// the steps before it succeeded.
pub open spec fn restore_outcome<W: MainWindowLifecycle>(window: W, r: Result<(), String>) -> bool {
    match r {
        Ok(_) => {
            &&& window.show_may_succeed()
            &&& window.unminimize_may_succeed()
            &&& window.focus_may_succeed()
        },
        Err(e) => {
            ||| window.show_may_fail(e)
            ||| (window.show_may_succeed() && window.unminimize_may_fail(e))
            ||| (window.show_may_succeed() && window.unminimize_may_succeed()
                && window.focus_may_fail(e))
        },
    }
}

/// Restores the main window: shows it, unminimizes it and focuses it, in that order,
/// stopping at the first step that fails and returning its error.
pub fn restore_main_window<W: MainWindowLifecycle>(window: &W) -> (r: Result<(), String>)
    ensures
        restore_outcome(*window, r),
{
    let shown = window.show();
    if shown.is_err() {
        return shown;
    }
    let unminimized = window.unminimize();
    if unminimized.is_err() {
        return unminimized;
    }
    let focused = window.set_focus();
    if focused.is_err() {
        return focused;
    }
    Ok(())
}

} // verus!
