//! Platform capability probe: the fixed set of platforms, their labels, and
//! which of them offer a native secure-display flag.

use vstd::prelude::*;
use vstd::string::*;

verus! {

/// The bit that asks the compositor to withhold a window from captures.
pub const FLAG_SECURE: u32 = 0x0000_2000;

/// The operating system a process runs on.
#[derive(Clone, Copy, Debug, PartialEq, Eq, Structural)]
pub enum Platform {
    Android,
    Ios,
    Windows,
    Macos,
    Linux,
    Unknown,
}

/// How strongly the secure mode is enforced.
#[derive(Clone, Copy, Debug, PartialEq, Eq, Structural)]
pub enum ProtectionLevel {
    /// Secure mode is off.
    Off,
    /// Advisory only: the state is a label, nothing enforces it.
    Web,
    /// Enforced by the operating system.
    Native,
}

impl Platform {
    /// The label of the platform as a sequence of characters.
    pub open spec fn label_text(self) -> Seq<char> {
        match self {
            Platform::Android => "android"@,
            Platform::Ios => "ios"@,
            Platform::Windows => "windows"@,
            Platform::Macos => "macos"@,
            Platform::Linux => "linux"@,
            Platform::Unknown => "unknown"@,
        }
    }

    /// The platform that a label names; a text that is no platform's label
    /// names `Unknown`.
    pub open spec fn of_label(text: Seq<char>) -> Platform {
        if text == "android"@ {
            Platform::Android
        } else if text == "ios"@ {
            Platform::Ios
        } else if text == "windows"@ {
            Platform::Windows
        } else if text == "macos"@ {
            Platform::Macos
        } else if text == "linux"@ {
            Platform::Linux
        } else {
            Platform::Unknown
        }
    }

    /// Each platform's label names that platform and no other.
    pub proof fn lemma_label_names_platform(self)
        ensures
            Platform::of_label(self.label_text()) == self,
    {
        reveal_strlit("android");
        reveal_strlit("ios");
        reveal_strlit("windows");
        reveal_strlit("macos");
        reveal_strlit("linux");
        reveal_strlit("unknown");
        assert("android"@[0] == 'a');
        assert("windows"@[0] == 'w');
        assert("unknown"@[0] == 'u');
        assert("macos"@[0] == 'm');
        assert("linux"@[0] == 'l');
    }

    /// The platform that the operating system's name stands for, as the
    /// target's build constants spell it.
    pub fn from_os_name(name: &str) -> (platform: Platform)
        ensures
            platform == Platform::of_label(name@),
    {
        if same_text(name, "android") {
            Platform::Android
        } else if same_text(name, "ios") {
            Platform::Ios
        } else if same_text(name, "windows") {
            Platform::Windows
        } else if same_text(name, "macos") {
            Platform::Macos
        } else if same_text(name, "linux") {
            Platform::Linux
        } else {
            Platform::Unknown
        }
    }

    /// Whether the platform has a native secure-display flag: Android alone.
    pub open spec fn native_flag(self) -> bool {
        self == Platform::Android
    }

    /// The platform's label.
    pub fn label(&self) -> (s: String)
        ensures
            s@ == self.label_text(),
    {
        match self {
            Platform::Android => String::from_str("android"),
            Platform::Ios => String::from_str("ios"),
            Platform::Windows => String::from_str("windows"),
            Platform::Macos => String::from_str("macos"),
            Platform::Linux => String::from_str("linux"),
            Platform::Unknown => String::from_str("unknown"),
        }
    }

    /// Whether a native secure-display flag exists on this platform.
    pub fn supports_native_secure_flag(&self) -> (b: bool)
        ensures
            b == self.native_flag(),
    {
        match self {
            Platform::Android => true,
            _ => false,
        }
    }
}

impl ProtectionLevel {
    /// The label of the level as a sequence of characters.
    pub open spec fn label_text(self) -> Seq<char> {
        match self {
            ProtectionLevel::Off => "none"@,
            ProtectionLevel::Web => "web"@,
            ProtectionLevel::Native => "native"@,
        }
    }

    /// The level that an on/off state stands for on a platform: off is
    /// `Off`; on is `Native` where the flag exists and `Web` elsewhere.
    pub open spec fn of(platform: Platform, enabled: bool) -> ProtectionLevel {
        if !enabled {
            ProtectionLevel::Off
        } else if platform.native_flag() {
            ProtectionLevel::Native
        } else {
            ProtectionLevel::Web
        }
    }

    /// Computes the level that an on/off state stands for on a platform.
    pub fn for_state(platform: Platform, enabled: bool) -> (level: ProtectionLevel)
        ensures
            level == ProtectionLevel::of(platform, enabled),
    {
        if !enabled {
            ProtectionLevel::Off
        } else if platform.supports_native_secure_flag() {
            ProtectionLevel::Native
        } else {
            ProtectionLevel::Web
        }
    }

    /// The level's label.
    pub fn label(&self) -> (s: String)
        ensures
            s@ == self.label_text(),
    {
        match self {
            ProtectionLevel::Off => String::from_str("none"),
            ProtectionLevel::Web => String::from_str("web"),
            ProtectionLevel::Native => String::from_str("native"),
        }
    }
}

/// Whether two texts hold the same characters.
fn same_text(a: &str, b: &str) -> (same: bool)
    ensures
        same == (a@ == b@),
{
    let left = String::from_str(a);
    let right = String::from_str(b);
    left == right
}

/// The label of the platform the caller runs on, as the user interface
/// shows it.
pub fn get_platform_info(platform: Platform) -> (s: String)
    ensures
        s@ == platform.label_text(),
{
    platform.label()
}

} // verus!
