//! Readiness of the native bridge: whether a flag call may be issued at
//! all, which it may only on Android and only once the bridge has been given
//! its context.

use vstd::prelude::*;
use vstd::string::*;
use crate::platform::Platform;

verus! {

/// The text that refuses a call on a platform without the bridge.
pub open spec fn unavailable_text() -> Seq<char> {
    "JNI only available on Android"@
}

/// The text that refuses a call before the bridge has its context.
pub open spec fn uninitialized_text() -> Seq<char> {
    "JNI not initialized - requires Android context integration"@
}

/// Readiness of the native bridge on one platform.
#[derive(Clone, Copy, Debug)]
#[allow(clippy::upper_case_acronyms)]
pub struct AndroidJNI {
    platform: Platform,
    is_initialized: bool,
}

impl AndroidJNI {
    /// The platform the bridge was made for.
    pub closed spec fn platform(&self) -> Platform {
        self.platform
    }

    /// Whether the bridge has been given its context.
    pub closed spec fn initialized(&self) -> bool {
        self.is_initialized
    }

    /// What a flag call is answered with: the refusal text, or `None` where
    /// the call may go ahead.
    pub open spec fn refusal(&self) -> Option<Seq<char>> {
        if !self.platform().native_flag() {
            Some(unavailable_text())
        } else if !self.initialized() {
            Some(uninitialized_text())
        } else {
            None
        }
    }

    /// What `reply` must be for a flag call on this bridge.
    pub open spec fn answers(&self, reply: Result<(), String>) -> bool {
        match self.refusal() {
            None => reply is Ok,
            Some(text) => reply matches Err(e) && e@ == text,
        }
    }

    /// A bridge for `platform`, without its context yet.
    pub fn new(platform: Platform) -> (bridge: Self)
        ensures
            bridge.platform() == platform,
            !bridge.initialized(),
    {
        AndroidJNI { platform, is_initialized: false }
    }

    fn permit(&self) -> (reply: Result<(), String>)
        ensures
            self.answers(reply),
    {
        if !self.platform.supports_native_secure_flag() {
            Err(String::from_str("JNI only available on Android"))
        } else if !self.is_initialized {
            Err(String::from_str("JNI not initialized - requires Android context integration"))
        } else {
            Ok(())
        }
    }

    /// Whether the call that sets the flag may be issued.
    pub fn enable_window_flag_secure(&self) -> (reply: Result<(), String>)
        ensures
            self.answers(reply),
    {
        self.permit()
    }

    /// Whether the call that clears the flag may be issued.
    pub fn disable_window_flag_secure(&self) -> (reply: Result<(), String>)
        ensures
            self.answers(reply),
    {
        self.permit()
    }

    /// What the bridge knows of the flag on the window. It never reads the
    /// window's flags, so it never claims that the flag is set.
    pub fn is_flag_secure_enabled(&self) -> (reply: Result<bool, String>)
        ensures
            reply == Ok::<bool, String>(false),
    {
        Ok(false)
    }

    /// Gives the bridge its context. On Android it is ready afterwards;
    /// elsewhere there is no bridge and nothing changes. Never fails.
    pub fn init_with_context(&mut self) -> (reply: Result<(), String>)
        ensures
            reply is Ok,
            final(self).platform() == old(self).platform(),
            final(self).initialized() == (old(self).initialized() || old(
                self,
            ).platform().native_flag()),
    {
        if self.platform.supports_native_secure_flag() {
            self.is_initialized = true;
        }
        Ok(())
    }
}

} // verus!
