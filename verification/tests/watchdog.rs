use imgtest::watchdog::{RequestAction, ResponseAction, Watchdog};

#[test]
fn starts_idle() {
    let w = Watchdog::new();
    assert_eq!(w.work_count(), 0);
    assert_eq!(w.works_estimate(), 1);
    assert!(!w.is_shutting_down());
    assert!(w.is_idle());
}

#[test]
fn requests_proceed_before_shutdown() {
    let mut w = Watchdog::new();
    assert!(matches!(w.on_request(), RequestAction::Proceed));
    assert!(matches!(w.on_request(), RequestAction::Proceed));
    assert_eq!(w.work_count(), 2);
    assert_eq!(w.works_estimate(), 2);
    assert!(matches!(w.on_response(true), ResponseAction::Keep));
    assert_eq!(w.work_count(), 1);
    assert_eq!(w.works_estimate(), 2);
    assert!(!w.is_idle());
}

#[test]
fn response_undoes_its_request() {
    let mut w = Watchdog::new();
    w.on_request();
    w.on_request();
    let before = w.work_count();
    w.on_request();
    w.on_response(true);
    assert_eq!(w.work_count(), before);
    w.begin_shutdown();
    w.on_request();
    w.on_response(false);
    assert_eq!(w.work_count(), before);
}

fn expect_redirect(w: &mut Watchdog) {
    match w.on_request() {
        RequestAction::Redirect(path) => assert_eq!(path, "/ping"),
        RequestAction::Proceed => panic!("request during shutdown was not redirected"),
    }
}

fn expect_busy(action: ResponseAction) {
    match action {
        ResponseAction::ServiceUnavailable(body) => {
            assert_eq!(body, "Server Busy... Shutting down... Try later.")
        }
        ResponseAction::Keep => panic!("late response was not refused"),
    }
}

#[test]
fn graceful_shutdown_refuses_late_requests() {
    let mut w = Watchdog::new();
    // a slow request arrives before the stop signal
    assert!(matches!(w.on_request(), RequestAction::Proceed));
    w.begin_shutdown();
    assert!(w.is_shutting_down());
    // a request during shutdown is sent to /ping and answered 503
    expect_redirect(&mut w);
    expect_busy(w.on_response(false));
    // the slow request still gets its answer
    assert!(matches!(w.on_response(true), ResponseAction::Keep));
    assert!(w.is_idle());
}

#[test]
fn work_admitted_before_stop_completes_first() {
    let mut w = Watchdog::new();
    assert!(matches!(w.on_request(), RequestAction::Proceed));
    w.begin_shutdown();
    expect_redirect(&mut w);
    // the slow request finishes while the late one is still in flight
    assert!(matches!(w.on_response(true), ResponseAction::Keep));
    // the work has drained: the late request is served
    assert!(matches!(w.on_response(false), ResponseAction::Keep));
    assert!(w.is_idle());
}

#[test]
fn late_request_on_idle_server_is_served() {
    let mut w = Watchdog::new();
    w.on_request();
    w.on_response(true);
    w.begin_shutdown();
    expect_redirect(&mut w);
    assert!(matches!(w.on_response(false), ResponseAction::Keep));
}

#[test]
fn stop_leaves_the_counters() {
    let mut w = Watchdog::new();
    w.on_request();
    w.on_request();
    w.on_request();
    w.on_response(true);
    w.begin_shutdown();
    assert_eq!(w.works_estimate(), 3);
    assert_eq!(w.work_count(), 2);
    w.begin_shutdown();
    assert_eq!(w.works_estimate(), 3);
    assert_eq!(w.work_count(), 2);
}

#[test]
fn counters_wrap_like_atomics() {
    let mut w = Watchdog::new();
    assert!(matches!(w.on_response(true), ResponseAction::Keep));
    assert_eq!(w.work_count(), usize::MAX);
    w.on_request();
    assert_eq!(w.work_count(), 0);
    assert_eq!(w.works_estimate(), 0);
}

#[test]
fn count_follows_requests_in_flight() {
    let mut w = Watchdog::new();
    for _ in 0..5 {
        w.on_request();
    }
    for _ in 0..3 {
        w.on_response(true);
    }
    w.begin_shutdown();
    w.on_request();
    w.on_response(false);
    w.on_response(true);
    assert_eq!(w.work_count(), 5 - 3 - 1);
}

#[test]
fn estimate_does_not_grow_during_shutdown() {
    let mut w = Watchdog::new();
    w.on_request();
    w.on_request();
    w.on_request();
    w.begin_shutdown();
    assert_eq!(w.works_estimate(), 3);
    w.on_request();
    assert_eq!(w.works_estimate(), 3);
    expect_busy(w.on_response(false));
    assert_eq!(w.works_estimate(), 3);
    assert!(matches!(w.on_response(true), ResponseAction::Keep));
    assert_eq!(w.works_estimate(), 3);
    w.on_response(true);
    assert_eq!(w.works_estimate(), 2);
    w.on_response(true);
    assert_eq!(w.works_estimate(), 1);
    assert!(w.is_idle());
}

#[test]
fn admitted_work_is_kept_even_when_busy() {
    let mut w = Watchdog::new();
    w.on_request();
    w.begin_shutdown();
    w.on_request();
    w.on_request();
    // three in flight, estimate one: busy, yet admitted work is answered
    assert!(matches!(w.on_response(true), ResponseAction::Keep));
    assert_eq!(w.work_count(), 2);
    assert_eq!(w.works_estimate(), 1);
    expect_busy(w.on_response(false));
}

#[test]
fn stop_stays() {
    let mut w = Watchdog::new();
    w.begin_shutdown();
    for _ in 0..4 {
        w.on_request();
        assert!(w.is_shutting_down());
        w.on_response(false);
        assert!(w.is_shutting_down());
    }
}

#[test]
fn no_refusal_before_shutdown() {
    let mut w = Watchdog::new();
    w.on_request();
    w.on_request();
    assert!(matches!(w.on_response(true), ResponseAction::Keep));
    assert!(matches!(w.on_response(true), ResponseAction::Keep));
    assert!(w.work_count() <= w.works_estimate());
}
