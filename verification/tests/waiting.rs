use browserlify::readiness::{
    hard_deadline, images_done, page_ready, readiness_plan, scroll_plan, scroll_top_done,
    wait_budget, NetworkEvent, NetworkIdleTracker, ReadinessStep, DEFAULT_WAIT_LOAD,
    SLEEP_INTERVAL,
};

#[test]
fn tracker_counts_inflight_requests() {
    let mut t = NetworkIdleTracker::new();
    assert!(t.inflight_empty());
    t.on_request("r1".to_string());
    t.on_request("r2".to_string());
    t.on_request("r1".to_string()); // duplicate id joins only once
    assert!(!t.inflight_empty());
    assert_eq!(t.inflight.len(), 2);
    t.on_settled("r1", 1000);
    assert_eq!(t.inflight.len(), 1);
    assert_eq!(t.last_activity, Some(1000));
    t.on_settled("r2", 1500);
    assert!(t.inflight_empty());
}

#[test]
fn idleness_needs_empty_set_and_elapsed_window() {
    let mut t = NetworkIdleTracker::new();
    assert!(!t.is_idle(5000, 100)); // no settled request yet
    t.on_request("r1".to_string());
    t.on_settled("r1", 1000);
    assert!(!t.is_idle(1050, 100));
    assert!(t.is_idle(1101, 100));
    assert!(!t.is_idle(900, 100)); // clock went backwards
    t.on_request("r2".to_string());
    assert!(!t.is_idle(99999, 100)); // a request is in flight
}

#[test]
fn stepping_the_tracker() {
    let mut t = NetworkIdleTracker::new();
    assert!(!t.step(NetworkEvent::RequestWillBeSent("a".to_string())));
    assert!(!t.step(NetworkEvent::LoadingFinished("a".to_string(), 100)));
    assert!(!t.step(NetworkEvent::LoadingFailed("b".to_string(), 150)));
    // a full tick with no events ends the wait
    assert!(t.step(NetworkEvent::Tick(350)));
    assert!(t.inflight_empty());
}

#[test]
fn scroll_plan_steps_to_the_bottom() {
    let p = scroll_plan(1000, 1000, 200);
    assert_eq!(p.count, 5);
    assert_eq!(p.step, 200);
    assert_eq!(p.target(4), 200);
    assert_eq!(p.target(3), 400);
    assert_eq!(p.target(0), 1000);
    // fewer ticks than one interval still scrolls once
    let p = scroll_plan(900, 0, 200);
    assert_eq!(p.count, 1);
    assert_eq!(p.step, 900);
    assert_eq!(p.target(0), 900);
}

#[test]
fn poll_decisions() {
    assert!(page_ready("complete"));
    assert!(!page_ready("interactive"));
    assert!(images_done(0, false));
    assert!(images_done(3, true));
    assert!(!images_done(3, false));
    assert!(scroll_top_done(0));
    assert!(!scroll_top_done(12));
    assert_eq!(SLEEP_INTERVAL, 50);
}

#[test]
fn budgets() {
    assert_eq!(DEFAULT_WAIT_LOAD, 15000);
    assert_eq!(wait_budget(None, 60000), 15000);
    assert_eq!(wait_budget(Some(3000), 60000), 3000);
    assert_eq!(wait_budget(Some(90000), 60000), 60000);
    assert_eq!(hard_deadline(None, 60000), 60000);
    assert_eq!(hard_deadline(Some(5000), 60000), 60000);
    assert_eq!(hard_deadline(Some(120000), 60000), 120000);
}

#[test]
fn plan_orders_the_steps() {
    let plan = readiness_plan(
        Some(500),
        Some(true),
        None,
        None,
        Some(true),
        Some("#done".to_string()),
    );
    assert_eq!(plan.len(), 6);
    assert!(matches!(plan[0], ReadinessStep::NetworkIdle(500)));
    assert!(matches!(plan[1], ReadinessStep::NavigationSettle));
    assert!(matches!(plan[2], ReadinessStep::DomReady));
    assert!(matches!(plan[3], ReadinessStep::ScrollTopReset));
    assert!(matches!(&plan[4], ReadinessStep::SelectorWait(s) if s == "#done"));
    assert!(matches!(plan[5], ReadinessStep::ImagesComplete));
    // the selector stands before the images wait
    let plan = readiness_plan(None, None, None, None, Some(true), Some("#x".to_string()));
    assert!(matches!(plan[0], ReadinessStep::NavigationSettle));
    assert!(matches!(plan[1], ReadinessStep::ScrollTopReset));
    assert!(matches!(&plan[2], ReadinessStep::SelectorWait(s) if s == "#x"));
    assert!(matches!(plan[3], ReadinessStep::ImagesComplete));

    // a positive scroll time scrolls to the bottom and suppresses the reset
    let plan = readiness_plan(None, None, Some(1000), Some(100), Some(true), None);
    assert!(matches!(plan[1], ReadinessStep::ScrollBottom(1000, 100)));
    assert!(matches!(plan[2], ReadinessStep::ImagesComplete));

    // images=false still resets the scroll but skips the final wait
    let plan = readiness_plan(None, None, None, None, Some(false), None);
    assert_eq!(plan.len(), 2);
    assert!(matches!(plan[1], ReadinessStep::ScrollTopReset));

    // a zero scroll time without the images option scrolls nowhere
    let plan = readiness_plan(None, None, Some(0), None, None, None);
    assert_eq!(plan.len(), 1);
    assert!(matches!(plan[0], ReadinessStep::NavigationSettle));

    // a bare render settles navigation only
    let plan = readiness_plan(None, None, None, None, None, None);
    assert_eq!(plan.len(), 1);
    assert!(matches!(plan[0], ReadinessStep::NavigationSettle));
}
