use secure_mode::android_jni::AndroidJNI;
use secure_mode::android_security::{
    failure_message, AndroidSecurity, FlagRequest, NativeAttempt, SecureModeError,
};
use secure_mode::platform::{Platform, ProtectionLevel, FLAG_SECURE};
use secure_mode::native_window::{
    attempt_of_call, attempt_of_handle_failure, flag_argument, flag_method, flag_signature,
    window_getter, window_getter_signature,
};
use secure_mode::plugin::{disable_secure_mode, enable_secure_mode};

#[test]
fn capture_blocking_bit_has_its_historic_value() {
    assert_eq!(FLAG_SECURE, 0x2000);
    assert_eq!(FLAG_SECURE, 8192);
}

#[test]
fn only_android_has_a_native_flag() {
    assert!(Platform::Android.supports_native_secure_flag());
    for platform in [Platform::Ios, Platform::Windows, Platform::Macos, Platform::Linux, Platform::Unknown] {
        assert!(!platform.supports_native_secure_flag());
    }
}

#[test]
fn protection_level_follows_platform_and_state() {
    assert_eq!(ProtectionLevel::for_state(Platform::Android, false), ProtectionLevel::Off);
    assert_eq!(ProtectionLevel::for_state(Platform::Linux, false), ProtectionLevel::Off);
    assert_eq!(ProtectionLevel::for_state(Platform::Android, true), ProtectionLevel::Native);
    assert_eq!(ProtectionLevel::for_state(Platform::Linux, true), ProtectionLevel::Web);
    assert_eq!(ProtectionLevel::Off.label(), "none");
    assert_eq!(ProtectionLevel::Web.label(), "web");
    assert_eq!(ProtectionLevel::Native.label(), "native");
}

#[test]
fn error_messages_by_variant() {
    assert_eq!(
        SecureModeError::LockUnavailable.message(),
        "Failed to acquire security manager lock"
    );
    assert_eq!(
        SecureModeError::PlatformUnsupported.message(),
        "FLAG_SECURE only available on Android"
    );
    assert_eq!(
        SecureModeError::NativeHandleUnavailable("no window handle available".to_string()).message(),
        "Failed to get activity window: no window handle available"
    );
    assert_eq!(
        SecureModeError::NativeCallFailed("handle invalidated".to_string()).message(),
        "handle invalidated"
    );
}

#[test]
fn failure_message_names_the_operation() {
    let error = SecureModeError::NativeCallFailed("x".to_string());
    assert_eq!(failure_message(true, &error), "Failed to enable FLAG_SECURE: x");
    assert_eq!(failure_message(false, &error), "Failed to disable FLAG_SECURE: x");
    assert_eq!(
        failure_message(true, &SecureModeError::PlatformUnsupported),
        "FLAG_SECURE only available on Android"
    );
    assert_eq!(
        failure_message(false, &SecureModeError::LockUnavailable),
        "Failed to disable FLAG_SECURE: Failed to acquire security manager lock"
    );
}

#[test]
fn judging_the_host_report() {
    let manager = AndroidSecurity::new(Platform::Android);
    assert!(manager.set_window_flag_secure(NativeAttempt::Applied).is_ok());
    assert!(matches!(
        manager.set_window_flag_secure(NativeAttempt::NotAttempted),
        Err(SecureModeError::NativeHandleUnavailable(reason))
            if reason == "JNI implementation requires Android activity context"
    ));
    assert!(matches!(
        manager.set_window_flag_secure(NativeAttempt::HandleUnavailable("a".to_string())),
        Err(SecureModeError::NativeHandleUnavailable(reason)) if reason == "a"
    ));
    assert!(matches!(
        manager.set_window_flag_secure(NativeAttempt::CallFailed("b".to_string())),
        Err(SecureModeError::NativeCallFailed(reason)) if reason == "b"
    ));
    let stub = AndroidSecurity::new(Platform::Linux);
    assert!(matches!(
        stub.set_window_flag_secure(NativeAttempt::Applied),
        Err(SecureModeError::PlatformUnsupported)
    ));
}

#[test]
fn manager_on_android_switches_with_the_flag() {
    let mut manager = AndroidSecurity::new(Platform::Android);
    assert!(!manager.is_secure_mode_enabled());
    assert_eq!(manager.platform(), Platform::Android);
    assert_eq!(manager.flag_request(true), Some(FlagRequest { bits: 0x2000, set: true }));
    assert_eq!(manager.flag_request(false), Some(FlagRequest { bits: 0x2000, set: false }));
    assert_eq!(
        manager.enable_flag_secure(NativeAttempt::Applied),
        Ok("FLAG_SECURE enabled - screenshots and screen recording blocked".to_string())
    );
    assert!(manager.is_secure_mode_enabled());
    let info = manager.get_security_info();
    assert!(info.flag_secure_enabled);
    assert_eq!(info.platform, "android");
    assert_eq!(info.protection_level, "native");
    assert_eq!(
        info.features,
        vec![
            "FLAG_SECURE".to_string(),
            "Screenshot blocking".to_string(),
            "Screen recording blocking".to_string(),
            "Task preview blocking".to_string()
        ]
    );
    assert_eq!(
        manager.disable_flag_secure(NativeAttempt::CallFailed("busy".to_string())),
        Err("Failed to disable FLAG_SECURE: busy".to_string())
    );
    assert!(manager.is_secure_mode_enabled());
    assert_eq!(
        manager.disable_flag_secure(NativeAttempt::Applied),
        Ok("FLAG_SECURE disabled - screenshots and screen recording allowed".to_string())
    );
    assert!(!manager.is_secure_mode_enabled());
    assert_eq!(manager.get_security_info().protection_level, "none");
}

#[test]
fn advisory_mode_does_not_switch_a_native_platform() {
    let mut manager = AndroidSecurity::new(Platform::Android);
    manager.set_advisory_mode(true);
    assert!(!manager.is_secure_mode_enabled());
    manager.enable_flag_secure(NativeAttempt::Applied).unwrap();
    manager.set_advisory_mode(false);
    assert!(manager.is_secure_mode_enabled());
}

#[test]
fn manager_elsewhere_has_no_native_flag() {
    let mut manager = AndroidSecurity::new(Platform::Linux);
    assert_eq!(manager.flag_request(true), None);
    assert_eq!(
        manager.enable_flag_secure(NativeAttempt::Applied),
        Err("FLAG_SECURE only available on Android".to_string())
    );
    assert!(!manager.is_secure_mode_enabled());
    assert_eq!(
        manager.disable_flag_secure(NativeAttempt::Applied),
        Err("FLAG_SECURE only available on Android".to_string())
    );
    let info = manager.get_security_info();
    assert!(!info.flag_secure_enabled);
    assert_eq!(info.platform, "linux");
    assert_eq!(info.protection_level, "none");
    assert_eq!(info.features, vec!["Web-based protection".to_string()]);
    manager.set_advisory_mode(true);
    assert!(manager.is_secure_mode_enabled());
    let info = manager.get_security_info();
    assert!(info.flag_secure_enabled);
    assert_eq!(info.protection_level, "web");
    manager.set_advisory_mode(false);
    assert!(!manager.is_secure_mode_enabled());
}

#[test]
fn bridge_on_android_needs_its_context() {
    let mut bridge = AndroidJNI::new(Platform::Android);
    assert_eq!(
        bridge.enable_window_flag_secure(),
        Err("JNI not initialized - requires Android context integration".to_string())
    );
    assert_eq!(
        bridge.disable_window_flag_secure(),
        Err("JNI not initialized - requires Android context integration".to_string())
    );
    assert_eq!(bridge.is_flag_secure_enabled(), Ok(false));
    assert_eq!(bridge.init_with_context(), Ok(()));
    assert_eq!(bridge.enable_window_flag_secure(), Ok(()));
    assert_eq!(bridge.disable_window_flag_secure(), Ok(()));
    assert_eq!(bridge.is_flag_secure_enabled(), Ok(false));
}

#[test]
fn bridge_elsewhere_always_refuses() {
    let mut bridge = AndroidJNI::new(Platform::Windows);
    assert_eq!(bridge.enable_window_flag_secure(), Err("JNI only available on Android".to_string()));
    assert_eq!(bridge.init_with_context(), Ok(()));
    assert_eq!(bridge.enable_window_flag_secure(), Err("JNI only available on Android".to_string()));
    assert_eq!(bridge.disable_window_flag_secure(), Err("JNI only available on Android".to_string()));
    assert_eq!(bridge.is_flag_secure_enabled(), Ok(false));
}

#[test]
fn plugin_answers_by_platform() {
    let on = enable_secure_mode(Platform::Android);
    assert!(on.success);
    assert_eq!(
        on.message,
        "Basic secure mode enabled (native FLAG_SECURE requires device-specific implementation)"
    );
    let off = disable_secure_mode(Platform::Android);
    assert!(off.success);
    assert_eq!(off.message, "Secure mode disabled");
    let on = enable_secure_mode(Platform::Ios);
    assert!(!on.success);
    assert_eq!(on.message, "Secure mode is only available on Android");
    let off = disable_secure_mode(Platform::Linux);
    assert!(!off.success);
    assert_eq!(off.message, "Secure mode is only available on Android");
}

#[test]
fn operating_system_names_map_to_platforms() {
    assert_eq!(Platform::from_os_name("android"), Platform::Android);
    assert_eq!(Platform::from_os_name("ios"), Platform::Ios);
    assert_eq!(Platform::from_os_name("windows"), Platform::Windows);
    assert_eq!(Platform::from_os_name("macos"), Platform::Macos);
    assert_eq!(Platform::from_os_name("linux"), Platform::Linux);
    assert_eq!(Platform::from_os_name("freebsd"), Platform::Unknown);
    assert_eq!(Platform::from_os_name("unknown"), Platform::Unknown);
    assert_eq!(Platform::from_os_name(""), Platform::Unknown);
    assert_eq!(Platform::from_os_name("Linux"), Platform::Unknown);
}

#[test]
fn every_label_names_its_platform() {
    for platform in [
        Platform::Android,
        Platform::Ios,
        Platform::Windows,
        Platform::Macos,
        Platform::Linux,
        Platform::Unknown,
    ] {
        assert_eq!(Platform::from_os_name(&platform.label()), platform);
    }
}

#[test]
fn a_flag_call_is_reported_as_applied_or_failed() {
    assert!(matches!(attempt_of_call(Ok(())), NativeAttempt::Applied));
    assert!(matches!(
        attempt_of_call(Err("handle invalidated".to_string())),
        NativeAttempt::CallFailed(reason) if reason == "handle invalidated"
    ));
}

#[test]
fn a_flag_request_names_its_method() {
    assert_eq!(flag_method(true), "addFlags");
    assert_eq!(flag_method(false), "clearFlags");
}

#[test]
fn flag_bits_go_over_with_their_bit_pattern() {
    assert_eq!(flag_argument(FLAG_SECURE), 8192);
    assert_eq!(flag_argument(0), 0);
    assert_eq!(flag_argument(0x7fff_ffff), i32::MAX);
    assert_eq!(flag_argument(0x8000_0000), i32::MIN);
    assert_eq!(flag_argument(0x8000_2000), i32::MIN + 8192);
    assert_eq!(flag_argument(u32::MAX), -1);
}

#[test]
fn a_missing_window_is_reported_as_no_handle() {
    assert!(matches!(
        attempt_of_handle_failure("no activity".to_string()),
        NativeAttempt::HandleUnavailable(reason) if reason == "no activity"
    ));
}

#[test]
fn the_window_calls_have_their_names_and_signatures() {
    assert_eq!(window_getter(), "getWindow");
    assert_eq!(window_getter_signature(), "()Landroid/view/Window;");
    assert_eq!(flag_signature(), "(I)V");
}
