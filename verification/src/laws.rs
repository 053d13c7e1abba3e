//! What holds of the controller across calls, stated over its model.
//!
//! Each command's contract says that the controller's view afterwards is a
//! function of its view before and of the host's report. The lemmas here are
//! about those functions, so they hold of every run of the commands.

use vstd::prelude::*;
use crate::android_security::{AttemptView, SecureModeState};
use crate::controller::ControllerModel;
use crate::platform::{Platform, ProtectionLevel};

verus! {

/// Enabling is idempotent: once an enable has succeeded, the mode is on, and
/// it is still on after a second enable, whatever the host reports of that
/// one; where the second succeeds too, it changes nothing.
pub proof fn lemma_enable_twice(c: ControllerModel, first: AttemptView, second: AttemptView)
    requires
        c.consistent(),
        c.enable_succeeds(first),
    ensures
        c.after_enable(first).current().enabled,
        c.after_enable(first).after_enable(second).current().enabled,
        c.after_enable(first).enable_succeeds(second) ==> c.after_enable(first).after_enable(
            second,
        ) == c.after_enable(first),
{
}

/// Disabling a controller that is disabled, or was never initialized, leaves
/// the mode off and the reported state as it was, whatever the host reports
/// and whether or not the disable succeeds.
pub proof fn lemma_disable_when_disabled(c: ControllerModel, attempt: AttemptView)
    requires
        c.consistent(),
        !c.current().enabled,
    ensures
        !c.after_disable(attempt).current().enabled,
        c.after_disable(attempt).current() == c.current(),
{
}

/// On a platform without a native flag an enable always succeeds, leaves the
/// mode on at level `Web`, and asks nothing of the host.
pub proof fn lemma_fallback_enable(c: ControllerModel, attempt: AttemptView)
    requires
        c.consistent(),
        !c.platform.native_flag(),
    ensures
        c.enable_succeeds(attempt),
        c.after_enable(attempt).current().enabled,
        c.after_enable(attempt).current().level == ProtectionLevel::Web,
        c.request(true) is None,
        c.after_enable(attempt).request(false) is None,
{
}

/// An enable that fails changes nothing that a status query shows: the
/// state reported afterwards is the one reported before.
pub proof fn lemma_failed_enable_keeps_state(c: ControllerModel, attempt: AttemptView)
    requires
        c.consistent(),
        !c.enable_succeeds(attempt),
    ensures
        c.after_enable(attempt).current() == c.current(),
{
}

/// A disable that fails changes nothing either.
pub proof fn lemma_failed_disable_keeps_state(c: ControllerModel, attempt: AttemptView)
    requires
        c.consistent(),
        !c.disable_succeeds(attempt),
    ensures
        c.after_disable(attempt) == c,
{
}

/// Before any initialization a status query shows the mode off, at level
/// `Off`, on the controller's platform.
pub proof fn lemma_status_before_init(platform: Platform)
    ensures
        ControllerModel::fresh(platform).current() == (SecureModeState {
            enabled: false,
            platform,
            level: ProtectionLevel::Off,
        }),
{
}

/// Initialization is idempotent: it always leaves the initial, disabled
/// state, so a second one changes nothing, and it undoes any enable.
pub proof fn lemma_init_idempotent(c: ControllerModel, attempt: AttemptView)
    ensures
        c.after_init().after_init() == c.after_init(),
        c.after_init().current() == SecureModeState::initial(c.platform),
        c.after_enable(attempt).after_init() == c.after_init(),
{
}

/// Every command keeps the controller consistent and on its platform.
pub proof fn lemma_commands_keep_consistent(c: ControllerModel, attempt: AttemptView)
    requires
        c.consistent(),
    ensures
        c.after_init().consistent(),
        c.after_enable(attempt).consistent(),
        c.after_disable(attempt).consistent(),
        c.after_init().platform == c.platform,
        c.after_enable(attempt).platform == c.platform,
        c.after_disable(attempt).platform == c.platform,
{
}

/// The mode is on at level `Native` only on a platform with a native flag,
/// and there only after the host applied it: an enable turns a disabled
/// controller on exactly where it succeeds.
pub proof fn lemma_enabled_only_by_success(c: ControllerModel, attempt: AttemptView)
    requires
        c.consistent(),
        !c.current().enabled,
    ensures
        c.after_enable(attempt).current().enabled <==> c.enable_succeeds(attempt),
        c.after_enable(attempt).current().level == ProtectionLevel::Native <==> (
        c.platform.native_flag() && attempt is Applied),
{
}

/// After a successful enable on a platform with a native flag, a successful
/// disable brings the controller back to the initial state.
pub proof fn lemma_enable_then_disable(c: ControllerModel, first: AttemptView, second: AttemptView)
    requires
        c.consistent(),
        c.enable_succeeds(first),
        c.after_enable(first).disable_succeeds(second),
    ensures
        c.after_enable(first).after_disable(second).current() == SecureModeState::initial(
            c.platform,
        ),
{
}

} // verus!
