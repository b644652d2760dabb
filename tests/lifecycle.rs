use flipperzero_threads::{
    is_finished, release_share, releases_share, thread_name, Owner, Release, Teardown, ThreadBody, ThreadId,
    SPAWN_SHARES, THREAD_STATE_RUNNING, THREAD_STATE_STARTING, THREAD_STATE_STOPPED,
    THREAD_STATE_STOPPING,
};

#[test]
fn handle_dropped_first_then_stop_frees() {
    let mut t = Teardown::new();
    assert_eq!(t.share_count(), SPAWN_SHARES);
    assert_eq!(t.release(Owner::Handle), Release::Keep);
    assert!(!t.freed());
    assert!(t.is_held_by(Owner::Notifier));
    assert_eq!(t.on_state_change(THREAD_STATE_STOPPED), Release::Free);
    assert!(t.freed());
    assert_eq!(t.share_count(), 0);
}

#[test]
fn stop_first_then_handle_dropped_frees() {
    let mut t = Teardown::new();
    assert_eq!(t.on_state_change(THREAD_STATE_STOPPED), Release::Keep);
    assert!(!t.freed());
    assert!(t.is_held_by(Owner::Handle));
    assert_eq!(t.release(Owner::Handle), Release::Free);
    assert!(t.freed());
}

#[test]
fn other_states_release_nothing() {
    let mut t = Teardown::new();
    assert_eq!(t.on_state_change(THREAD_STATE_STARTING), Release::Keep);
    assert_eq!(t.on_state_change(THREAD_STATE_RUNNING), Release::Keep);
    assert_eq!(t.on_state_change(THREAD_STATE_STOPPING), Release::Keep);
    assert_eq!(t.share_count(), 2);
    assert!(t.is_held_by(Owner::Handle) && t.is_held_by(Owner::Notifier));
}

#[test]
fn atomic_count_release_decisions() {
    assert_eq!(release_share(2), Release::Keep);
    assert_eq!(release_share(1), Release::Free);
}

#[test]
fn body_runs_once_and_returns_its_code() {
    let mut body = ThreadBody::new(|| 42);
    assert!(!body.has_run());
    assert_eq!(body.run(), Some(42));
    assert!(body.has_run());
    assert_eq!(body.run(), None);
}

#[test]
fn body_returns_negative_code() {
    let captured = -7i32;
    let mut body = ThreadBody::new(move || captured * 2);
    assert_eq!(body.run(), Some(-14));
}

#[test]
fn zero_id_means_finished() {
    assert_eq!(ThreadId::from_raw(0), None);
    assert!(is_finished(ThreadId::from_raw(0)));
    let id = ThreadId::from_raw(0x2000_1000).unwrap();
    assert_eq!(id.raw(), 0x2000_1000);
    assert!(!is_finished(Some(id)));
    assert_eq!(Some(id), ThreadId::from_raw(0x2000_1000));
}

#[test]
fn thread_names_from_os() {
    assert_eq!(thread_name(None), None);
    assert_eq!(thread_name(Some(b"main")), Some(String::from("main")));
    assert_eq!(thread_name(Some(&[0xff, 0xfe])), None);
    assert_eq!(thread_name(Some(b"")), Some(String::new()));
}

#[test]
fn only_stopped_state_releases_a_share() {
    assert!(releases_share(THREAD_STATE_STOPPED));
    assert!(!releases_share(THREAD_STATE_STOPPING));
    assert!(!releases_share(THREAD_STATE_STARTING));
    assert!(!releases_share(THREAD_STATE_RUNNING));
}
