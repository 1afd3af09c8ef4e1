use flowsight_agent::screencast::{
    first_stream_node, linux_auto_grant_screencast_permissions, linux_is_wayland_session,
    linux_use_silent_screencast, screencast_frame_acceptable, screencast_permission_args, ScreencastSession,
    SessionAction, MIN_FRAME_INTERVAL_MS,
};

#[test]
fn closed_session_gives_no_frame() {
    let s = ScreencastSession::new();
    assert_eq!(s.capture_monitoring_frame(123_456), None);
    assert_eq!(s.ensure_session(), SessionAction::Open);
}

#[test]
fn first_frame_is_immediate_then_throttled() {
    let mut s = ScreencastSession::new();
    s.session_opened(42);
    assert_eq!(s.ensure_session(), SessionAction::AlreadyReady);
    assert_eq!(s.capture_monitoring_frame(1_000), Some(42));
    s.mark_grabbed(1_000);
    assert_eq!(s.capture_monitoring_frame(1_000), None);
    assert_eq!(s.capture_monitoring_frame(1_000 + MIN_FRAME_INTERVAL_MS - 1), None);
    assert_eq!(s.capture_monitoring_frame(1_000 + MIN_FRAME_INTERVAL_MS), Some(42));
    // A clock that went backwards does not allow a grab.
    assert_eq!(s.capture_monitoring_frame(10), None);
}

#[test]
fn may_grab_frame_interval() {
    let mut s = ScreencastSession::new();
    assert!(s.may_grab_frame(0));
    s.mark_grabbed(100_000);
    assert!(!s.may_grab_frame(154_999));
    assert!(s.may_grab_frame(155_000));
    s.mark_grabbed(0);
    assert!(s.may_grab_frame(0));
}

#[test]
fn stop_session_resets_state() {
    let mut s = ScreencastSession::new();
    s.session_opened(5);
    s.mark_grabbed(2_000);
    assert!(s.stop_session());
    assert_eq!(s, ScreencastSession { ready: false, last_grab_ms: 0, stream_node: None });
    assert_eq!(s.capture_monitoring_frame(999_999), None);
    assert!(!s.stop_session());
    s.session_opened(6);
    assert_eq!(s.capture_monitoring_frame(3_000), Some(6));
}

#[test]
fn wayland_detection() {
    assert!(linux_is_wayland_session(true, None));
    assert!(linux_is_wayland_session(false, Some("Wayland")));
    assert!(linux_is_wayland_session(false, Some("wayland")));
    assert!(!linux_is_wayland_session(false, Some("x11")));
    assert!(!linux_is_wayland_session(false, Some("waylandx")));
    assert!(!linux_is_wayland_session(false, None));
}

#[test]
fn silent_screencast_on_gnome() {
    assert!(linux_use_silent_screencast("ubuntu:GNOME"));
    assert!(linux_use_silent_screencast("gnome"));
    assert!(!linux_use_silent_screencast("KDE"));
    assert!(!linux_use_silent_screencast(""));
    assert!(!linux_use_silent_screencast("gnom"));
}

#[test]
fn granted_ids_keep_order() {
    let ids = vec!["a".to_string(), "b".to_string(), "c".to_string()];
    assert_eq!(
        linux_auto_grant_screencast_permissions(&ids, &vec![true, false, true]),
        vec!["a".to_string(), "c".to_string()]
    );
    assert!(linux_auto_grant_screencast_permissions(&ids, &vec![false, false, false]).is_empty());
}

#[test]
fn stream_selection() {
    assert_eq!(first_stream_node(&vec![9, 3]), Ok(9));
    assert_eq!(first_stream_node(&vec![]), Err("ScreenCast: no stream".to_string()));
}

#[test]
fn frame_size_check() {
    assert!(!screencast_frame_acceptable(499));
    assert!(screencast_frame_acceptable(500));
}

#[test]
fn permission_store_arguments() {
    let args = screencast_permission_args("com.example.App");
    assert_eq!(args.len(), 13);
    assert_eq!(args[3], "org.freedesktop.impl.portal.PermissionStore");
    assert_eq!(args[11], "com.example.App");
    assert_eq!(args[12], "['yes']");
}
