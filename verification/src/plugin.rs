//! The answers of the stand-alone secure-mode plugin, which reports what it
//! can do on a platform without keeping any state.

use vstd::prelude::*;
use vstd::string::*;
use crate::platform::Platform;

verus! {

/// The plugin's answer to a command.
#[derive(Debug)]
pub struct SecureModeResponse {
    pub success: bool,
    pub message: String,
}

/// The message of the plugin's answer to an enable (`enable`) or a disable
/// command on a platform.
pub open spec fn response_text(platform: Platform, enable: bool) -> Seq<char> {
    if !platform.native_flag() {
        "Secure mode is only available on Android"@
    } else if enable {
        "Basic secure mode enabled (native FLAG_SECURE requires device-specific implementation)"@
    } else {
        "Secure mode disabled"@
    }
}

/// The plugin's answer to the enable command: a success on Android, a
/// refusal that names Android elsewhere.
pub fn enable_secure_mode(platform: Platform) -> (response: SecureModeResponse)
    ensures
        response.success == platform.native_flag(),
        response.message@ == response_text(platform, true),
{
    if platform.supports_native_secure_flag() {
        SecureModeResponse {
            success: true,
            message: String::from_str(
                "Basic secure mode enabled (native FLAG_SECURE requires device-specific implementation)",
            ),
        }
    } else {
        SecureModeResponse {
            success: false,
            message: String::from_str("Secure mode is only available on Android"),
        }
    }
}

/// The plugin's answer to the disable command: a success on Android, a
/// refusal that names Android elsewhere.
pub fn disable_secure_mode(platform: Platform) -> (response: SecureModeResponse)
    ensures
        response.success == platform.native_flag(),
        response.message@ == response_text(platform, false),
{
    if platform.supports_native_secure_flag() {
        SecureModeResponse { success: true, message: String::from_str("Secure mode disabled") }
    } else {
        SecureModeResponse {
            success: false,
            message: String::from_str("Secure mode is only available on Android"),
        }
    }
}

} // verus!
