//! The secure mode controller: the single authority over the secure-display
//! flag's logical state, and the commands that the user interface invokes.
//!
//! The controller decides; the host acts. Before a command the host asks
//! [`native_request`] what to do to the window, does it, and hands the
//! command what came of it.

use vstd::prelude::*;
use vstd::string::*;
use crate::android_security::{
    feature_labels, labels_are, native_failure, native_reply, AndroidSecurity, AttemptView,
    FlagRequest, NativeAttempt, SecureModeState,
};
use crate::platform::{Platform, FLAG_SECURE};

verus! {

/// The controller as a value: its platform and, once initialized, its state.
pub struct ControllerModel {
    pub platform: Platform,
    pub state: Option<SecureModeState>,
}

/// The message of an enable on a platform without a native flag.
pub open spec fn web_enabled_text() -> Seq<char> {
    "Web-based protection enabled (native FLAG_SECURE only available on Android)"@
}

/// The message of a disable on a platform without a native flag.
pub open spec fn web_disabled_text() -> Seq<char> {
    "Web-based protection disabled"@
}

/// The message of a disable before any initialization.
pub open spec fn not_initialized_text() -> Seq<char> {
    "Security manager not initialized"@
}

/// The message of an initialization on a platform.
pub open spec fn initialized_text(platform: Platform) -> Seq<char> {
    if platform.native_flag() {
        "Android security system initialized with FLAG_SECURE support"@
    } else {
        "Security system initialized with web-based protection"@
    }
}

/// The one feature label reported before any initialization.
pub open spec fn default_labels() -> Seq<Seq<char>> {
    seq!["Web-based protection available"@]
}

impl ControllerModel {
    /// A controller that was never initialized.
    pub open spec fn fresh(platform: Platform) -> ControllerModel {
        ControllerModel { platform, state: None }
    }

    /// The state, where there is one, belongs to the controller's platform
    /// and carries the level that it stands for.
    pub open spec fn consistent(self) -> bool {
        self.state matches Some(s) ==> s.platform == self.platform && s.consistent()
    }

    /// The state that a status query reports: the controller's own, or the
    /// initial one where it was never initialized.
    pub open spec fn current(self) -> SecureModeState {
        match self.state {
            Some(s) => s,
            None => SecureModeState::initial(self.platform),
        }
    }

    /// The feature labels that a status query reports.
    pub open spec fn labels(self) -> Seq<Seq<char>> {
        match self.state {
            Some(_) => feature_labels(self.platform),
            None => default_labels(),
        }
    }

    /// The controller after an initialization: in the initial state.
    pub open spec fn after_init(self) -> ControllerModel {
        ControllerModel {
            platform: self.platform,
            state: Some(SecureModeState::initial(self.platform)),
        }
    }

    /// What the host has to do to the window before an enable (`enable`) or
    /// a disable: nothing on a platform without a native flag, and nothing
    /// before a disable that finds no state.
    pub open spec fn request(self, enable: bool) -> Option<FlagRequest> {
        if self.platform.native_flag() && (enable || self.state is Some) {
            Some(FlagRequest { bits: FLAG_SECURE, set: enable })
        } else {
            None
        }
    }

    /// Whether an enable succeeds: always without a native flag, and with
    /// one exactly where the host applied it.
    pub open spec fn enable_succeeds(self, attempt: AttemptView) -> bool {
        !self.platform.native_flag() || attempt is Applied
    }

    /// The controller after an enable. It has a state from then on.
    pub open spec fn after_enable(self, attempt: AttemptView) -> ControllerModel {
        ControllerModel {
            platform: self.platform,
            state: Some(
                if self.platform.native_flag() {
                    self.current().after_native(true, attempt)
                } else {
                    self.current().after_advisory(true)
                },
            ),
        }
    }

    /// What an enable returns.
    pub open spec fn enable_reply(self, attempt: AttemptView, reply: Result<String, String>) -> bool {
        if self.platform.native_flag() {
            native_reply(self.platform, true, attempt, reply)
        } else {
            reply matches Ok(text) && text@ == web_enabled_text()
        }
    }

    /// Whether a disable succeeds: always before initialization and without
    /// a native flag, else exactly where the host cleared the flag.
    pub open spec fn disable_succeeds(self, attempt: AttemptView) -> bool {
        self.state is None || !self.platform.native_flag() || attempt is Applied
    }

    /// The controller after a disable. One without a state stays so.
    pub open spec fn after_disable(self, attempt: AttemptView) -> ControllerModel {
        match self.state {
            None => self,
            Some(s) => ControllerModel {
                platform: self.platform,
                state: Some(
                    if self.platform.native_flag() {
                        s.after_native(false, attempt)
                    } else {
                        s.after_advisory(false)
                    },
                ),
            },
        }
    }

    /// What a disable returns.
    pub open spec fn disable_reply(self, attempt: AttemptView, reply: Result<String, String>) -> bool {
        if self.state is None {
            reply matches Ok(text) && text@ == not_initialized_text()
        } else if self.platform.native_flag() {
            native_reply(self.platform, false, attempt, reply)
        } else {
            reply matches Ok(text) && text@ == web_disabled_text()
        }
    }
}

/// What the user interface is shown of the secure mode.
#[derive(Debug)]
pub struct SecurityStatus {
    pub enabled: bool,
    pub level: String,
    pub platform: String,
    pub features: Vec<String>,
}

impl SecurityStatus {
    /// The status shows exactly `state` and the feature labels `labels`.
    pub open spec fn shows(&self, state: SecureModeState, labels: Seq<Seq<char>>) -> bool {
        &&& self.enabled == state.enabled
        &&& self.level@ == state.level.label_text()
        &&& self.platform@ == state.platform.label_text()
        &&& labels_are(self.features@, labels)
    }
}

#[derive(Debug)]
enum Slot {
    Empty(Platform),
    Ready(AndroidSecurity),
}

/// The secure mode controller of one application: made once by whoever
/// composes the application, and handed to the commands.
#[derive(Debug)]
pub struct SecureModeController {
    slot: Slot,
}

impl View for SecureModeController {
    type V = ControllerModel;

    closed spec fn view(&self) -> ControllerModel {
        match self.slot {
            Slot::Empty(platform) => ControllerModel::fresh(platform),
            Slot::Ready(manager) => ControllerModel {
                platform: manager@.platform,
                state: Some(manager@),
            },
        }
    }
}

impl SecureModeController {
    /// Every controller is consistent.
    pub proof fn lemma_consistent(&self)
        ensures
            self@.consistent(),
    {
        match self.slot {
            Slot::Empty(_) => {},
            Slot::Ready(manager) => {
                manager.lemma_consistent();
            },
        }
    }

    /// A controller for `platform` that is not initialized yet.
    pub fn new(platform: Platform) -> (controller: Self)
        ensures
            controller@ == ControllerModel::fresh(platform),
    {
        SecureModeController { slot: Slot::Empty(platform) }
    }

    /// The platform the controller was made for.
    pub fn platform(&self) -> (platform: Platform)
        ensures
            platform == self@.platform,
    {
        match &self.slot {
            Slot::Empty(platform) => *platform,
            Slot::Ready(manager) => manager.platform(),
        }
    }

    /// Whether the controller has been initialized.
    pub fn is_initialized(&self) -> (ready: bool)
        ensures
            ready == (self@.state is Some),
    {
        match &self.slot {
            Slot::Empty(_) => false,
            Slot::Ready(_) => true,
        }
    }
}

/// What the host has to do to the current window before it invokes the
/// enable (`enable`) or the disable command, and then report to it.
pub fn native_request(controller: &SecureModeController, enable: bool) -> (request: Option<
    FlagRequest,
>)
    ensures
        request == controller@.request(enable),
{
    if controller.platform().supports_native_secure_flag() && (enable
        || controller.is_initialized()) {
        Some(FlagRequest { bits: FLAG_SECURE, set: enable })
    } else {
        None
    }
}

/// Initializes the controller, or resets it: afterwards it is in the initial,
/// disabled state. Always succeeds.
pub fn init_security_system(controller: &mut SecureModeController) -> (reply: Result<
    String,
    String,
>)
    ensures
        final(controller)@ == old(controller)@.after_init(),
        reply matches Ok(text) && text@ == initialized_text(old(controller)@.platform),
{
    let platform = controller.platform();
    controller.slot = Slot::Ready(AndroidSecurity::new(platform));
    if platform.supports_native_secure_flag() {
        Ok(String::from_str("Android security system initialized with FLAG_SECURE support"))
    } else {
        Ok(String::from_str("Security system initialized with web-based protection"))
    }
}

/// Turns the secure mode on, initializing the controller first where it was
/// not. With a native flag the mode is on only where the host reports the
/// flag as set, and stays as it was where the host failed. Without one the
/// mode is switched on as a label: advisory, with nothing enforcing it.
pub fn enable_secure_mode(controller: &mut SecureModeController, attempt: NativeAttempt) -> (reply:
    Result<String, String>)
    ensures
        final(controller)@ == old(controller)@.after_enable(attempt@),
        old(controller)@.enable_reply(attempt@, reply),
        reply is Ok <==> old(controller)@.enable_succeeds(attempt@),
{
    let mut manager = match &controller.slot {
        Slot::Empty(platform) => AndroidSecurity::new(*platform),
        Slot::Ready(manager) => *manager,
    };
    let reply = if manager.platform().supports_native_secure_flag() {
        manager.enable_flag_secure(attempt)
    } else {
        manager.set_advisory_mode(true);
        Ok(
            String::from_str(
                "Web-based protection enabled (native FLAG_SECURE only available on Android)",
            ),
        )
    };
    controller.slot = Slot::Ready(manager);
    reply
}

/// Turns the secure mode off. Before any initialization there is nothing to
/// turn off, and the command succeeds without a change. With a native flag
/// the mode is off only where the host reports the flag as cleared.
pub fn disable_secure_mode(controller: &mut SecureModeController, attempt: NativeAttempt) -> (reply:
    Result<String, String>)
    ensures
        final(controller)@ == old(controller)@.after_disable(attempt@),
        old(controller)@.disable_reply(attempt@, reply),
        reply is Ok <==> old(controller)@.disable_succeeds(attempt@),
{
    let mut manager = match &controller.slot {
        Slot::Empty(_) => {
            return Ok(String::from_str("Security manager not initialized"));
        },
        Slot::Ready(manager) => *manager,
    };
    let reply = if manager.platform().supports_native_secure_flag() {
        manager.disable_flag_secure(attempt)
    } else {
        manager.set_advisory_mode(false);
        Ok(String::from_str("Web-based protection disabled"))
    };
    controller.slot = Slot::Ready(manager);
    reply
}

/// The current state for display. Never fails: a controller that was never
/// initialized is shown as disabled, at level "none".
pub fn get_security_status(controller: &SecureModeController) -> (status: SecurityStatus)
    ensures
        status.shows(controller@.current(), controller@.labels()),
{
    match &controller.slot {
        Slot::Ready(manager) => {
            let info = manager.get_security_info();
            SecurityStatus {
                enabled: info.flag_secure_enabled,
                level: info.protection_level,
                platform: info.platform,
                features: info.features,
            }
        },
        Slot::Empty(platform) => {
            let mut features: Vec<String> = Vec::new();
            features.push(String::from_str("Web-based protection available"));
            SecurityStatus {
                enabled: false,
                level: String::from_str("none"),
                platform: platform.label(),
                features,
            }
        },
    }
}

} // verus!
