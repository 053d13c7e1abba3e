//! The secure-display flag of one application window: its logical state and
//! the decisions around the host's attempt to set or clear the native flag.
//!
//! The library never touches a window itself. It tells the host what to ask
//! of the window ([`FlagRequest`]), the host reports how that went
//! ([`NativeAttempt`]), and the functions here decide what the state becomes
//! and what the caller is told.

use vstd::prelude::*;
use vstd::string::*;
use crate::platform::{Platform, ProtectionLevel, FLAG_SECURE};

verus! {

/// What the host is asked to do to the current window.
#[derive(Clone, Copy, Debug, PartialEq, Eq, Structural)]
pub struct FlagRequest {
    /// The window flag bits concerned.
    pub bits: u32,
    /// `true` to add the bits to the window, `false` to clear them.
    pub set: bool,
}

/// What the host reports of its attempt to change the flag on the current
/// window.
#[derive(Debug)]
pub enum NativeAttempt {
    /// The host was not asked, or has no way to reach a window.
    NotAttempted,
    /// No window handle could be obtained; the text says why.
    HandleUnavailable(String),
    /// A handle was obtained but the flag call failed; the text says why.
    CallFailed(String),
    /// The flag call went through.
    Applied,
}

/// A [`NativeAttempt`] with its texts as character sequences.
pub enum AttemptView {
    NotAttempted,
    HandleUnavailable(Seq<char>),
    CallFailed(Seq<char>),
    Applied,
}

impl View for NativeAttempt {
    type V = AttemptView;

    open spec fn view(&self) -> AttemptView {
        match self {
            NativeAttempt::NotAttempted => AttemptView::NotAttempted,
            NativeAttempt::HandleUnavailable(reason) => AttemptView::HandleUnavailable(reason@),
            NativeAttempt::CallFailed(reason) => AttemptView::CallFailed(reason@),
            NativeAttempt::Applied => AttemptView::Applied,
        }
    }
}

/// Why an operation on the secure mode did not go through.
#[derive(Debug)]
pub enum SecureModeError {
    /// The lock around the shared state could not be taken.
    LockUnavailable,
    /// A native flag was asked for on a platform that has none.
    PlatformUnsupported,
    /// The current window's handle could not be obtained.
    NativeHandleUnavailable(String),
    /// The flag call itself failed.
    NativeCallFailed(String),
}

/// A [`SecureModeError`] with its texts as character sequences.
pub enum ErrorView {
    LockUnavailable,
    PlatformUnsupported,
    NativeHandleUnavailable(Seq<char>),
    NativeCallFailed(Seq<char>),
}

impl View for SecureModeError {
    type V = ErrorView;

    open spec fn view(&self) -> ErrorView {
        match self {
            SecureModeError::LockUnavailable => ErrorView::LockUnavailable,
            SecureModeError::PlatformUnsupported => ErrorView::PlatformUnsupported,
            SecureModeError::NativeHandleUnavailable(reason) => ErrorView::NativeHandleUnavailable(
                reason@,
            ),
            SecureModeError::NativeCallFailed(reason) => ErrorView::NativeCallFailed(reason@),
        }
    }
}

impl ErrorView {
    /// The message that the error is reported with.
    pub open spec fn text(self) -> Seq<char> {
        match self {
            ErrorView::LockUnavailable => "Failed to acquire security manager lock"@,
            ErrorView::PlatformUnsupported => "FLAG_SECURE only available on Android"@,
            ErrorView::NativeHandleUnavailable(reason) => "Failed to get activity window: "@
                + reason,
            ErrorView::NativeCallFailed(reason) => reason,
        }
    }
}

impl SecureModeError {
    /// The message that the error is reported with.
    pub fn message(&self) -> (s: String)
        ensures
            s@ == self@.text(),
    {
        match self {
            SecureModeError::LockUnavailable => String::from_str(
                "Failed to acquire security manager lock",
            ),
            SecureModeError::PlatformUnsupported => String::from_str(
                "FLAG_SECURE only available on Android",
            ),
            SecureModeError::NativeHandleUnavailable(reason) => String::from_str(
                "Failed to get activity window: ",
            ).concat(reason.as_str()),
            SecureModeError::NativeCallFailed(reason) => reason.clone(),
        }
    }
}

/// The reason reported where the host made no attempt on a native platform.
pub open spec fn no_context_text() -> Seq<char> {
    "JNI implementation requires Android activity context"@
}

/// The error, if any, in which a request for the native flag ends on a
/// platform, given what the host reported. `None` means the flag was changed.
pub open spec fn native_failure(platform: Platform, attempt: AttemptView) -> Option<ErrorView> {
    if !platform.native_flag() {
        Some(ErrorView::PlatformUnsupported)
    } else {
        match attempt {
            AttemptView::NotAttempted => Some(
                ErrorView::NativeHandleUnavailable(no_context_text()),
            ),
            AttemptView::HandleUnavailable(reason) => Some(
                ErrorView::NativeHandleUnavailable(reason),
            ),
            AttemptView::CallFailed(reason) => Some(ErrorView::NativeCallFailed(reason)),
            AttemptView::Applied => None,
        }
    }
}

/// The logical state of the secure mode.
pub struct SecureModeState {
    pub enabled: bool,
    pub platform: Platform,
    pub level: ProtectionLevel,
}

impl SecureModeState {
    /// The state on a platform with the mode on or off; the level follows.
    pub open spec fn on(platform: Platform, enabled: bool) -> SecureModeState {
        SecureModeState { enabled, platform, level: ProtectionLevel::of(platform, enabled) }
    }

    /// The state at startup: disabled.
    pub open spec fn initial(platform: Platform) -> SecureModeState {
        SecureModeState::on(platform, false)
    }

    /// The level is the one that `enabled` stands for on the platform.
    pub open spec fn consistent(self) -> bool {
        self.level == ProtectionLevel::of(self.platform, self.enabled)
    }

    /// The state after a request to set (`enable`) or clear the native flag:
    /// changed where the request went through, as it was where it failed.
    pub open spec fn after_native(self, enable: bool, attempt: AttemptView) -> SecureModeState {
        if native_failure(self.platform, attempt) is None {
            SecureModeState::on(self.platform, enable)
        } else {
            self
        }
    }

    /// The state after the advisory mode was switched: changed on a platform
    /// without a native flag, as it was on one that has it.
    pub open spec fn after_advisory(self, enable: bool) -> SecureModeState {
        if self.platform.native_flag() {
            self
        } else {
            SecureModeState::on(self.platform, enable)
        }
    }
}

/// The message of a successful native enable.
pub open spec fn enabled_text() -> Seq<char> {
    "FLAG_SECURE enabled - screenshots and screen recording blocked"@
}

/// The message of a successful native disable.
pub open spec fn disabled_text() -> Seq<char> {
    "FLAG_SECURE disabled - screenshots and screen recording allowed"@
}

/// The message of a failed request to set (`enable`) or clear the native
/// flag: the bare text where the platform has no flag, else the text behind
/// a prefix that names the operation.
pub open spec fn failure_text(enable: bool, error: ErrorView) -> Seq<char> {
    if error is PlatformUnsupported {
        error.text()
    } else if enable {
        "Failed to enable FLAG_SECURE: "@ + error.text()
    } else {
        "Failed to disable FLAG_SECURE: "@ + error.text()
    }
}

/// What a request to set (`enable`) or clear the native flag returns.
pub open spec fn native_reply(
    platform: Platform,
    enable: bool,
    attempt: AttemptView,
    reply: Result<String, String>,
) -> bool {
    match native_failure(platform, attempt) {
        None => reply matches Ok(text) && text@ == (if enable {
            enabled_text()
        } else {
            disabled_text()
        }),
        Some(error) => reply matches Err(text) && text@ == failure_text(enable, error),
    }
}

/// The feature labels reported on a platform.
pub open spec fn feature_labels(platform: Platform) -> Seq<Seq<char>> {
    if platform.native_flag() {
        seq![
            "FLAG_SECURE"@,
            "Screenshot blocking"@,
            "Screen recording blocking"@,
            "Task preview blocking"@,
        ]
    } else {
        seq!["Web-based protection"@]
    }
}

/// The strings of `items` are, one by one, the texts of `labels`.
pub open spec fn labels_are(items: Seq<String>, labels: Seq<Seq<char>>) -> bool {
    &&& items.len() == labels.len()
    &&& forall|i: int| 0 <= i < items.len() ==> (#[trigger] items[i])@ == labels[i]
}

/// A snapshot of the secure mode for display.
#[derive(Debug)]
pub struct SecurityInfo {
    pub flag_secure_enabled: bool,
    pub platform: String,
    pub protection_level: String,
    pub features: Vec<String>,
}

impl SecurityInfo {
    /// The snapshot shows exactly `state` and the platform's feature labels.
    pub open spec fn shows(&self, state: SecureModeState) -> bool {
        &&& self.flag_secure_enabled == state.enabled
        &&& self.platform@ == state.platform.label_text()
        &&& self.protection_level@ == state.level.label_text()
        &&& labels_are(self.features@, feature_labels(state.platform))
    }
}

/// Keeper of the secure-display flag's state for one application window.
#[derive(Clone, Copy, Debug)]
pub struct AndroidSecurity {
    platform: Platform,
    is_secure_mode_enabled: bool,
}

impl View for AndroidSecurity {
    type V = SecureModeState;

    closed spec fn view(&self) -> SecureModeState {
        SecureModeState::on(self.platform, self.is_secure_mode_enabled)
    }
}

impl AndroidSecurity {
    /// Every keeper's level is the one its state stands for on its platform.
    pub proof fn lemma_consistent(&self)
        ensures
            self@.consistent(),
    {
    }

    /// A keeper for `platform`, with the secure mode off.
    pub fn new(platform: Platform) -> (manager: Self)
        ensures
            manager@ == SecureModeState::initial(platform),
    {
        AndroidSecurity { platform, is_secure_mode_enabled: false }
    }

    /// What the host has to do to the window before the mode can be switched:
    /// add or clear the capture-blocking bit where the platform has a native
    /// flag, nothing elsewhere.
    pub fn flag_request(&self, enable: bool) -> (request: Option<FlagRequest>)
        ensures
            request == (if self@.platform.native_flag() {
                Some(FlagRequest { bits: FLAG_SECURE, set: enable })
            } else {
                None
            }),
    {
        if self.platform.supports_native_secure_flag() {
            Some(FlagRequest { bits: FLAG_SECURE, set: enable })
        } else {
            None
        }
    }

    /// Judges the host's report of a request for the native flag.
    pub fn set_window_flag_secure(&self, attempt: NativeAttempt) -> (result: Result<
        (),
        SecureModeError,
    >)
        ensures
            match native_failure(self@.platform, attempt@) {
                None => result is Ok,
                Some(error) => result matches Err(e) && e@ == error,
            },
    {
        if !self.platform.supports_native_secure_flag() {
            return Err(SecureModeError::PlatformUnsupported);
        }
        match attempt {
            NativeAttempt::NotAttempted => Err(
                SecureModeError::NativeHandleUnavailable(
                    String::from_str("JNI implementation requires Android activity context"),
                ),
            ),
            NativeAttempt::HandleUnavailable(reason) => Err(
                SecureModeError::NativeHandleUnavailable(reason),
            ),
            NativeAttempt::CallFailed(reason) => Err(SecureModeError::NativeCallFailed(reason)),
            NativeAttempt::Applied => Ok(()),
        }
    }

    /// Turns the secure mode on, given the host's report of setting the
    /// native flag. The state changes only where the flag was set.
    pub fn enable_flag_secure(&mut self, attempt: NativeAttempt) -> (reply: Result<String, String>)
        ensures
            final(self)@ == old(self)@.after_native(true, attempt@),
            native_reply(old(self)@.platform, true, attempt@, reply),
    {
        match self.set_window_flag_secure(attempt) {
            Ok(_) => {
                self.is_secure_mode_enabled = true;
                Ok(
                    String::from_str(
                        "FLAG_SECURE enabled - screenshots and screen recording blocked",
                    ),
                )
            },
            Err(e) => Err(failure_message(true, &e)),
        }
    }

    /// Turns the secure mode off, given the host's report of clearing the
    /// native flag. The state changes only where the flag was cleared.
    pub fn disable_flag_secure(&mut self, attempt: NativeAttempt) -> (reply: Result<
        String,
        String,
    >)
        ensures
            final(self)@ == old(self)@.after_native(false, attempt@),
            native_reply(old(self)@.platform, false, attempt@, reply),
    {
        match self.set_window_flag_secure(attempt) {
            Ok(_) => {
                self.is_secure_mode_enabled = false;
                Ok(
                    String::from_str(
                        "FLAG_SECURE disabled - screenshots and screen recording allowed",
                    ),
                )
            },
            Err(e) => Err(failure_message(false, &e)),
        }
    }

    /// Switches the advisory mode of a platform without a native flag, where
    /// the state is a label that nothing enforces. On a platform that has the
    /// flag nothing changes: there only the flag itself switches the mode.
    pub fn set_advisory_mode(&mut self, enable: bool)
        ensures
            final(self)@ == old(self)@.after_advisory(enable),
    {
        if !self.platform.supports_native_secure_flag() {
            self.is_secure_mode_enabled = enable;
        }
    }

    /// Whether the secure mode is on.
    pub fn is_secure_mode_enabled(&self) -> (enabled: bool)
        ensures
            enabled == self@.enabled,
    {
        self.is_secure_mode_enabled
    }

    /// The platform the keeper was made for.
    pub fn platform(&self) -> (platform: Platform)
        ensures
            platform == self@.platform,
    {
        self.platform
    }

    /// A snapshot of the state, with the platform's feature labels.
    pub fn get_security_info(&self) -> (info: SecurityInfo)
        ensures
            info.shows(self@),
    {
        let mut features: Vec<String> = Vec::new();
        if self.platform.supports_native_secure_flag() {
            features.push(String::from_str("FLAG_SECURE"));
            features.push(String::from_str("Screenshot blocking"));
            features.push(String::from_str("Screen recording blocking"));
            features.push(String::from_str("Task preview blocking"));
        } else {
            features.push(String::from_str("Web-based protection"));
        }
        SecurityInfo {
            flag_secure_enabled: self.is_secure_mode_enabled,
            platform: self.platform.label(),
            protection_level: ProtectionLevel::for_state(
                self.platform,
                self.is_secure_mode_enabled,
            ).label(),
            features,
        }
    }
}

/// The message of a failed request to set (`enable`) or clear the native flag.
pub fn failure_message(enable: bool, error: &SecureModeError) -> (s: String)
    ensures
        s@ == failure_text(enable, error@),
{
    match error {
        SecureModeError::PlatformUnsupported => error.message(),
        _ => {
            let prefix = if enable {
                String::from_str("Failed to enable FLAG_SECURE: ")
            } else {
                String::from_str("Failed to disable FLAG_SECURE: ")
            };
            let detail = error.message();
            prefix.concat(detail.as_str())
        },
    }
}

} // verus!
