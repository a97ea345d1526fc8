use browserlify::headless::make_headless_session;
use browserlify::session::{AppState, SessionKind, SessionOption};

fn sample_session(
    id: &str,
    now: u64,
    shutdown: Option<tokio::sync::oneshot::Sender<()>>,
) -> browserlify::session::Session {
    let opt = SessionOption::default();
    make_headless_session(
        id.to_string(),
        format!("/tmp/data/{id}"),
        "ws://127.0.0.1:9222/devtools".to_string(),
        &opt,
        None,
        shutdown,
        now,
    )
}

#[test]
fn new_state_defaults() {
    let st = AppState::new("/tmp/root".to_string(), 4);
    assert_eq!(st.sessions.len(), 0);
    assert_eq!(st.max_sessions, 4);
    assert_eq!(st.data_root, "/tmp/root");
    assert!(!st.enable_private_ip);
    assert_eq!(st.max_timeout, 60000);
    assert!(st.author.is_none());
    let st = st.allow_private_ip();
    assert!(st.enable_private_ip);
}

#[test]
fn admission_respects_the_limit() {
    let mut st = AppState::new("/tmp/root".to_string(), 1);
    assert!(!st.is_full());
    assert!(st.admit_insert(sample_session("a", 1, None)).is_ok());
    assert!(st.is_full());
    let e = st.admit_insert(sample_session("b", 2, None)).unwrap_err();
    assert_eq!(e.status_code, 503);
    assert_eq!(e.message, "too many sessions");
    assert_eq!(st.sessions.len(), 1);
}

#[test]
fn zero_limit_means_unbounded() {
    let mut st = AppState::new("/tmp/root".to_string(), 0);
    for i in 0..20u32 {
        assert!(st.admit_insert(sample_session(&i.to_string(), 1, None)).is_ok());
    }
    assert!(!st.is_full());
    assert_eq!(st.sessions.len(), 20);
}

#[test]
fn kill_is_idempotent_and_signals() {
    let (tx, mut rx) = tokio::sync::oneshot::channel::<()>();
    let mut st = AppState::new("/tmp/root".to_string(), 0);
    st.admit_insert(sample_session("a", 1, Some(tx))).unwrap();
    st.admit_insert(sample_session("b", 1, None)).unwrap();

    assert!(rx.try_recv().is_ok() == false);
    let taken = st.kill_session("a");
    assert!(taken.is_some());
    drop(taken);
    // dropping the taken sender closes the channel: the supervisor wakes
    assert!(matches!(rx.try_recv(), Err(tokio::sync::oneshot::error::TryRecvError::Closed)));

    // a second kill finds nothing to take and changes nothing
    let again = st.kill_session("a");
    assert!(again.is_none());
    assert_eq!(st.sessions.len(), 2);

    // killing an id that is not there is also a no-op
    assert!(st.kill_session("zzz").is_none());
}

#[test]
fn killall_takes_every_signal() {
    let (tx1, _rx1) = tokio::sync::oneshot::channel::<()>();
    let (tx2, _rx2) = tokio::sync::oneshot::channel::<()>();
    let mut st = AppState::new("/tmp/root".to_string(), 0);
    st.admit_insert(sample_session("a", 1, Some(tx1))).unwrap();
    st.admit_insert(sample_session("b", 1, None)).unwrap();
    st.admit_insert(sample_session("c", 1, Some(tx2))).unwrap();
    let txs = st.killall_session();
    assert_eq!(txs.len(), 2);
    assert_eq!(st.sessions.len(), 3);
    assert!(st.sessions.iter().all(|s| s.shutdown_tx.is_none()));
}

#[test]
fn touch_bumps_updated_at() {
    let mut st = AppState::new("/tmp/root".to_string(), 0);
    st.admit_insert(sample_session("a", 100, None)).unwrap();
    assert_eq!(st.sessions[0].updated_at, 100);
    st.touch_session("a", 250);
    assert_eq!(st.sessions[0].updated_at, 250);
    assert_eq!(st.sessions[0].created_at, 100);
    st.touch_session("a", 300);
    assert_eq!(st.sessions[0].updated_at, 300);
    // touching an unknown id changes nothing
    st.touch_session("b", 999);
    assert_eq!(st.sessions[0].updated_at, 300);
}

#[test]
fn reaper_evicts_only_the_old() {
    let mut st = AppState::new("/tmp/root".to_string(), 0);
    st.max_timeout = 60000;
    st.admit_insert(sample_session("old", 0, None)).unwrap();
    st.admit_insert(sample_session("young", 50000, None)).unwrap();
    st.admit_insert(sample_session("future", 90000, None)).unwrap();
    let removed = st.reap(70000);
    assert_eq!(removed.len(), 1);
    assert_eq!(removed[0].id, "old");
    assert_eq!(st.sessions.len(), 2);
    assert_eq!(st.sessions[0].id, "young");
    assert_eq!(st.sessions[1].id, "future");
    // exactly at the limit is not evicted
    let mut st = AppState::new("/tmp/root".to_string(), 0);
    st.admit_insert(sample_session("edge", 0, None)).unwrap();
    assert_eq!(st.reap(60000).len(), 0);
    assert_eq!(st.reap(60001).len(), 1);
}

#[test]
fn remove_hands_back_the_dropped_session() {
    let mut st = AppState::new("/tmp/root".to_string(), 0);
    st.admit_insert(sample_session("a", 1, None)).unwrap();
    st.admit_insert(sample_session("b", 1, None)).unwrap();
    let removed = st.remove_session("a");
    assert_eq!(removed.len(), 1);
    assert_eq!(removed[0].id, "a");
    assert!(removed[0].cleanup);
    assert_eq!(st.sessions.len(), 1);
    assert_eq!(st.sessions[0].id, "b");
    assert_eq!(st.remove_session("zzz").len(), 0);
}

#[test]
fn lookups_and_snapshots() {
    let mut st = AppState::new("/tmp/root".to_string(), 0);
    st.admit_insert(sample_session("a", 7, None)).unwrap();
    assert!(st.contains_id("a"));
    assert!(!st.contains_id("b"));
    assert_eq!(st.find_endpoint("a").as_deref(), Some("ws://127.0.0.1:9222/devtools"));
    assert!(st.find_endpoint("b").is_none());
    assert_eq!(st.find_kind("a"), Some(SessionKind::Headless));
    assert_eq!(st.find_display("a"), Some(None));
    let snaps = st.list_session();
    assert_eq!(snaps.len(), 1);
    assert_eq!(snaps[0].id, "a");
    assert_eq!(snaps[0].kind, SessionKind::Headless);
    assert_eq!(snaps[0].data_dir, "/tmp/data/a");
    assert!(snaps[0].cleanup);
    assert!(!snaps[0].enable_cache);
    assert_eq!(snaps[0].created_at, 7);
    assert_eq!(snaps[0].updated_at, 7);
    assert_eq!(snaps[0].endpoint, "ws://127.0.0.1:9222/devtools");
}

#[test]
fn duplicate_ids_hit_the_first_match() {
    // the registry invariant keeps ids unique; if a duplicate ever
    // slipped in, kill and touch would still act on the first match
    let (tx, _rx) = tokio::sync::oneshot::channel::<()>();
    let (tx2, _rx2) = tokio::sync::oneshot::channel::<()>();
    let mut st = AppState::new("/tmp/root".to_string(), 0);
    st.admit_insert(sample_session("a", 1, Some(tx))).unwrap();
    st.admit_insert(sample_session("a", 2, Some(tx2))).unwrap();
    assert!(st.kill_session("a").is_some());
    assert!(st.sessions[0].shutdown_tx.is_none());
    assert!(st.sessions[1].shutdown_tx.is_some());
    st.touch_session("a", 99);
    assert_eq!(st.sessions[0].updated_at, 99);
    assert_eq!(st.sessions[1].updated_at, 2);
    // remove drops every session carrying the id
    assert_eq!(st.remove_session("a").len(), 2);
    assert_eq!(st.sessions.len(), 0);
}

#[test]
fn session_option_defaults() {
    let opt = SessionOption::default();
    assert!(opt.uuid.is_none());
    assert!(!opt.landscape);
    assert!(opt.cleanup);
    assert!(!opt.enable_cache);
    assert!(opt.userdatadir_expire.is_none());
}
