use notification_listener::binding::{
    binding_for, is_target_platform, listener_binding, plugin_name, Platform,
    ANDROID_CLASS_NAME, ANDROID_PLUGIN_IDENTIFIER, PLUGIN_NAME,
};
use notification_listener::setup::{SetupAction, SetupPhase, SetupSession};

const OTHER_PLATFORMS: [Platform; 4] = [Platform::Ios, Platform::Linux, Platform::MacOs, Platform::Windows];

#[test]
fn plugin_name_is_notification_listener() {
    assert_eq!(plugin_name(), "notification-listener");
    assert_eq!(PLUGIN_NAME, "notification-listener");
}

#[test]
fn listener_binding_names_package_and_class() {
    let b = listener_binding();
    assert_eq!(b.plugin_identifier, "com.oikos.app.notification_listener");
    assert_eq!(b.class_name, "NotificationPlugin");
    assert_eq!(ANDROID_PLUGIN_IDENTIFIER, "com.oikos.app.notification_listener");
    assert_eq!(ANDROID_CLASS_NAME, "NotificationPlugin");
}

#[test]
fn only_android_is_target_platform() {
    assert!(is_target_platform(Platform::Android));
    for p in OTHER_PLATFORMS {
        assert!(!is_target_platform(p));
    }
}

#[test]
fn binding_for_android_is_listener() {
    let b = binding_for(Platform::Android).expect("android binds the listener");
    assert_eq!(b.plugin_identifier, "com.oikos.app.notification_listener");
    assert_eq!(b.class_name, "NotificationPlugin");
}

#[test]
fn binding_for_other_platforms_is_none() {
    for p in OTHER_PLATFORMS {
        assert!(binding_for(p).is_none());
    }
}

#[test]
fn new_session_is_pending() {
    let s = SetupSession::new(Platform::Android);
    assert_eq!(s.platform(), Platform::Android);
    assert_eq!(s.phase(), SetupPhase::Pending);
    assert_eq!(s.binding_calls(), 0);
}

#[test]
fn android_setup_requests_one_binding() {
    let mut s = SetupSession::new(Platform::Android);
    match s.start() {
        SetupAction::Bind(b) => {
            assert_eq!(b.plugin_identifier, "com.oikos.app.notification_listener");
            assert_eq!(b.class_name, "NotificationPlugin");
        }
        SetupAction::Done => panic!("android setup must bind the listener"),
    }
    assert_eq!(s.phase(), SetupPhase::AwaitingBinding);
    assert_eq!(s.binding_calls(), 1);
}

#[test]
fn failed_binding_forwards_same_error() {
    let mut s = SetupSession::new(Platform::Android);
    assert!(matches!(s.start(), SetupAction::Bind(_)));
    let outcome: Result<(), String> = Err("class not found".to_string());
    let r = s.finish_binding(outcome);
    assert_eq!(r, Err("class not found".to_string()));
    assert_eq!(s.phase(), SetupPhase::Failed);
    assert_eq!(s.binding_calls(), 1);
}

#[test]
fn successful_binding_succeeds() {
    let mut s = SetupSession::new(Platform::Android);
    assert!(matches!(s.start(), SetupAction::Bind(_)));
    let r: Result<(), String> = s.finish_binding(Ok(()));
    assert_eq!(r, Ok(()));
    assert_eq!(s.phase(), SetupPhase::Succeeded);
    assert_eq!(s.binding_calls(), 1);
}

#[test]
fn other_platforms_setup_succeeds_without_binding() {
    for p in OTHER_PLATFORMS {
        let mut s = SetupSession::new(p);
        assert!(matches!(s.start(), SetupAction::Done));
        assert_eq!(s.phase(), SetupPhase::Succeeded);
        assert_eq!(s.binding_calls(), 0);
        assert_eq!(s.platform(), p);
    }
}

#[test]
fn started_setup_leaves_pending_phase() {
    let mut android = SetupSession::new(Platform::Android);
    android.start();
    assert_ne!(android.phase(), SetupPhase::Pending);
    let _ = android.finish_binding::<u8>(Err(7));
    assert_ne!(android.phase(), SetupPhase::Pending);
    let mut linux = SetupSession::new(Platform::Linux);
    linux.start();
    assert_ne!(linux.phase(), SetupPhase::Pending);
}
