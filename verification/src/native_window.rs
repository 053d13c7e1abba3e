//! The calls on the window itself, through the Java native interface: from
//! an activity to its window, and from a flag request to the window's flags.
//!
//! Nothing can be promised of what the Java side answers. What is decided
//! here is what is handed to each call, and which failure is reported as
//! which kind of [`NativeAttempt`].

use jni::objects::{JObject, JValue};
use jni::JNIEnv;
use vstd::prelude::*;
use crate::android_security::{AttemptView, FlagRequest, NativeAttempt};

verus! {

/// `jni::objects::JObject`: a reference to a Java object, carried through
/// and never looked into.
#[verifier::external_type_specification]
#[verifier::external_body]
pub struct ExJObject<'local>(JObject<'local>);

/// `jni::sys::_jobject`: the raw object that a `JObject` stands for. It is
/// declared because `JObject` names it; nothing here touches it.
#[verifier::external_type_specification]
#[verifier::external_body]
pub struct ExRawObject(jni::sys::_jobject);

/// `jni::JNIEnv`: the calling thread's way into the Java side, carried
/// through to the calls.
#[verifier::external_type_specification]
#[verifier::external_body]
pub struct ExJNIEnv<'local>(JNIEnv<'local>);

/// `JNIEnv::call_method` on a method without arguments that returns an
/// object, followed by `JValueGen::l`, which takes the object out of the
/// returned value. An error of either is handed back as its text. Nothing is
/// claimed of the result: it is whatever the Java side answers.
#[verifier::external_body]
fn call_object_getter<'local>(
    env: &mut JNIEnv<'local>,
    target: &JObject<'_>,
    name: &str,
    signature: &str,
) -> (result: Result<JObject<'local>, String>) {
    match env.call_method(target, name, signature, &[]) {
        Ok(value) => match value.l() {
            Ok(object) => Ok(object),
            Err(reason) => Err(reason.to_string()),
        },
        Err(reason) => Err(reason.to_string()),
    }
}

/// `JNIEnv::call_method` on a method that takes one `int` and returns
/// nothing. An error is handed back as its text. Nothing is claimed of the
/// result: it is whatever the Java side answers. The signature is held to
/// the one of such a method, and the name to the two flag methods: with one
/// argument supplied, `call_method` panics on a signature whose argument is
/// itself a method signature.
#[verifier::external_body]
fn call_int_method(
    env: &mut JNIEnv<'_>,
    target: &JObject<'_>,
    name: &str,
    signature: &str,
    value: i32,
) -> (result: Result<(), String>)
    requires
        signature@ == flag_signature_text(),
        name@ == flag_method_text(true) || name@ == flag_method_text(false),
{
    match env.call_method(target, name, signature, &[JValue::Int(value)]) {
        Ok(_) => Ok(()),
        Err(reason) => Err(reason.to_string()),
    }
}

/// The window of an activity, or why it could not be had.
fn get_current_activity_window<'local>(
    env: &mut JNIEnv<'local>,
    activity: &JObject<'_>,
) -> (window: Result<JObject<'local>, String>) {
    call_object_getter(env, activity, window_getter(), window_getter_signature())
}

/// Adds the request's bits to the window's flags, or clears them, as the
/// request says. The bits go over as the Java `int` with the same bit
/// pattern.
fn apply_flag_secure_to_window(
    env: &mut JNIEnv<'_>,
    window: &JObject<'_>,
    request: FlagRequest,
) -> (done: Result<(), String>) {
    // What goes over is fixed here, before the call: the method by
    // `flag_method`, its argument by `flag_argument`. What comes back is
    // the Java side's to decide.
    let method: &str = flag_method(request.set);
    let bits: i32 = flag_argument(request.bits);
    call_int_method(env, window, method, flag_signature(), bits)
}

/// What is reported where the window of the activity could not be had: no
/// handle, with the reason that the getter gave.
pub fn attempt_of_handle_failure(reason: String) -> (attempt: NativeAttempt)
    ensures
        attempt@ == AttemptView::HandleUnavailable(reason@),
{
    NativeAttempt::HandleUnavailable(reason)
}

/// What is reported of a flag call on a window that was obtained: applied
/// where the call went through, failed with the call's reason where not.
pub fn attempt_of_call(done: Result<(), String>) -> (attempt: NativeAttempt)
    ensures
        attempt@ == (match done {
            Ok(_) => AttemptView::Applied,
            Err(reason) => AttemptView::CallFailed(reason@),
        }),
{
    match done {
        Ok(_) => NativeAttempt::Applied,
        Err(reason) => NativeAttempt::CallFailed(reason),
    }
}

/// Carries out a flag request on the window of `activity` and reports what
/// came of it: what [`attempt_of_handle_failure`] makes of the getter's
/// failure where the window could not be had, else what [`attempt_of_call`]
/// makes of the flag call. Whatever the Java side answers, an attempt was
/// made.
///
/// Where a step fails because the Java side threw, the exception stays
/// pending on `env`. The host clears it before it uses `env` again, and so
/// before it retries.
pub fn set_flag_on_activity(
    env: &mut JNIEnv<'_>,
    activity: &JObject<'_>,
    request: FlagRequest,
) -> (attempt: NativeAttempt)
    ensures
        !(attempt@ is NotAttempted),
{
    match get_current_activity_window(env, activity) {
        Err(reason) => attempt_of_handle_failure(reason),
        Ok(window) => {
            let done = apply_flag_secure_to_window(env, &window, request);
            attempt_of_call(done)
        },
    }
}

/// The name of the Java method that carries out a flag request: the one
/// that adds flags where the request sets them, the one that clears flags
/// where not.
pub open spec fn flag_method_text(set: bool) -> Seq<char> {
    if set {
        "addFlags"@
    } else {
        "clearFlags"@
    }
}

/// The name of the activity's method that gives its window.
pub open spec fn window_getter_text() -> Seq<char> {
    "getWindow"@
}

/// The signature of the activity's method that gives its window: no
/// argument, a window returned.
pub open spec fn window_getter_signature_text() -> Seq<char> {
    "()Landroid/view/Window;"@
}

/// The signature of the window's two flag methods: one `int`, nothing
/// returned.
pub open spec fn flag_signature_text() -> Seq<char> {
    "(I)V"@
}

/// The Java `int` that has the bit pattern of `bits`: the same number below
/// two to the thirty-first, and that number less two to the thirty-second
/// from there on.
pub open spec fn java_int(bits: u32) -> int {
    if bits < 0x8000_0000 {
        bits as int
    } else {
        bits as int - 0x1_0000_0000
    }
}

/// The name of the activity's method that gives its window.
pub fn window_getter() -> (name: &'static str)
    ensures
        name@ == window_getter_text(),
{
    "getWindow"
}

/// The signature of the activity's method that gives its window.
pub fn window_getter_signature() -> (signature: &'static str)
    ensures
        signature@ == window_getter_signature_text(),
{
    "()Landroid/view/Window;"
}

/// The signature of the window's two flag methods.
pub fn flag_signature() -> (signature: &'static str)
    ensures
        signature@ == flag_signature_text(),
{
    "(I)V"
}

/// The name of the window's method that a flag request is carried out with.
pub fn flag_method(set: bool) -> (name: &'static str)
    ensures
        name@ == flag_method_text(set),
{
    if set {
        "addFlags"
    } else {
        "clearFlags"
    }
}

/// The argument that a request's bits go over as.
pub fn flag_argument(bits: u32) -> (value: i32)
    ensures
        value == java_int(bits),
{
    if bits < 0x8000_0000 {
        bits as i32
    } else {
        let low: u32 = bits - 0x8000_0000;
        low as i32 - 0x7fff_ffff - 1
    }
}

} // verus!
