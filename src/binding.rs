use vstd::prelude::*;

verus! {

/// The name under which the host shell knows this plugin.
pub const PLUGIN_NAME: &'static str = "notification-listener";

/// The fully-qualified package of the native listener component.
pub const ANDROID_PLUGIN_IDENTIFIER: &'static str = "com.oikos.app.notification_listener";

/// The local class name of the native listener component.
pub const ANDROID_CLASS_NAME: &'static str = "NotificationPlugin";

/// Returns the plugin's name, as handed to the host shell's plugin builder.
pub fn plugin_name() -> (r: &'static str)
    ensures
        r@ == "notification-listener"@,
{
    PLUGIN_NAME
}

/// The platform that the host shell runs on.
#[derive(Clone, Copy, Debug, PartialEq, Eq, Structural)]
pub enum Platform {
    Android,
    Ios,
    Linux,
    MacOs,
    Windows,
}

/// Whether the native listener component exists on `p`: only on Android.
pub open spec fn has_native_listener(p: Platform) -> bool {
    p == Platform::Android
}

/// Tells whether setup on `p` binds the native listener component.
pub fn is_target_platform(p: Platform) -> (r: bool)
    ensures
        r == has_native_listener(p),
{
    match p {
        Platform::Android => true,
        _ => false,
    }
}

/// The two names handed to the host's native-plugin binding call.
#[derive(Clone, Copy, Debug)]
pub struct NativeBinding {
    /// Fully-qualified package path of the native component.
    pub plugin_identifier: &'static str,
    /// Local class name of the native component.
    pub class_name: &'static str,
}

/// The binding of the native notification listener.
pub open spec fn listener_binding_spec(b: NativeBinding) -> bool {
    &&& b.plugin_identifier@ == "com.oikos.app.notification_listener"@
    &&& b.class_name@ == "NotificationPlugin"@
}

/// Returns the binding of the native notification listener.
pub fn listener_binding() -> (r: NativeBinding)
    ensures
        listener_binding_spec(r),
{
    NativeBinding { plugin_identifier: ANDROID_PLUGIN_IDENTIFIER, class_name: ANDROID_CLASS_NAME }
}

/// Returns the binding that setup on `p` must make: the listener's on
/// Android, none elsewhere.
pub fn binding_for(p: Platform) -> (r: Option<NativeBinding>)
    ensures
        r is Some <==> has_native_listener(p),
        r matches Some(b) ==> listener_binding_spec(b),
{
    if is_target_platform(p) {
        Some(listener_binding())
    } else {
        None
    }
}

} // verus!
