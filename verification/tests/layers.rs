use tower_client::{InvokeError, LoadShed, PendingCall, RateLimit, Readiness, Timeout};

type Admission = Result<(), InvokeError<String>>;

#[test]
fn load_shed_turns_unready_into_shed() {
    let layer = LoadShed::new();
    assert_eq!(layer.check_ready(Readiness::Ready), Readiness::Ready);
    assert_eq!(layer.check_ready(Readiness::NotReady), Readiness::Shed);
    assert_eq!(layer.check_ready(Readiness::Shed), Readiness::Shed);
    assert_eq!(layer.invoke::<String>(Readiness::Ready), Ok(()));
    assert_eq!(layer.invoke::<String>(Readiness::NotReady), Err(InvokeError::Shed));
    assert_eq!(layer.invoke::<String>(Readiness::Shed), Err(InvokeError::Shed));
}

#[test]
fn rate_limit_starts_full_at_the_origin() {
    let limiter = RateLimit::new(7, 30);
    assert_eq!(limiter.capacity(), 7);
    assert_eq!(limiter.window(), 30);
    assert_eq!(limiter.tokens_available(), 7);
    assert_eq!(limiter.window_start(), 0);
}

#[test]
fn rate_limit_counts_down_and_resets() {
    let mut limiter = RateLimit::new(2, 100);
    assert_eq!(limiter.invoke::<String>(0, Ok(())), Ok(()));
    assert_eq!(limiter.tokens_available(), 1);
    assert_eq!(limiter.check_ready(10, Readiness::Ready), Readiness::Ready);
    assert_eq!(limiter.invoke::<String>(10, Ok(())), Ok(()));
    assert_eq!(limiter.tokens_available(), 0);
    assert_eq!(limiter.check_ready(20, Readiness::Ready), Readiness::NotReady);
    assert_eq!(limiter.invoke::<String>(20, Ok(())), Err(InvokeError::RateLimited));
    assert_eq!(limiter.tokens_available(), 0);
    assert_eq!(limiter.window_start(), 0);
    // one instant before the window ends
    assert_eq!(limiter.check_ready(99, Readiness::Ready), Readiness::NotReady);
    // the window ends: a poll alone resets it
    assert_eq!(limiter.check_ready(100, Readiness::Ready), Readiness::Ready);
    assert_eq!(limiter.tokens_available(), 2);
    assert_eq!(limiter.window_start(), 100);
    assert_eq!(limiter.invoke::<String>(105, Ok(())), Ok(()));
    assert_eq!(limiter.tokens_available(), 1);
    assert_eq!(limiter.window_start(), 100);
}

#[test]
fn rate_limit_passes_on_what_came_from_below() {
    let mut limiter = RateLimit::new(2, 100);
    assert_eq!(limiter.check_ready(0, Readiness::Shed), Readiness::Shed);
    assert_eq!(limiter.check_ready(0, Readiness::NotReady), Readiness::NotReady);
    let below: Admission = Err(InvokeError::Shed);
    assert_eq!(limiter.invoke(0, below), Err(InvokeError::Shed));
    let below: Admission = Err(InvokeError::Inner(String::from("down")));
    assert_eq!(limiter.invoke(0, below), Err(InvokeError::Inner(String::from("down"))));
    assert_eq!(limiter.tokens_available(), 2);
    // the window check still runs for a call that was rejected below
    let below: Admission = Err(InvokeError::Shed);
    assert_eq!(limiter.invoke(250, below), Err(InvokeError::Shed));
    assert_eq!(limiter.window_start(), 250);
    assert_eq!(limiter.tokens_available(), 2);
}

#[test]
fn rate_limit_never_takes_from_an_expired_window() {
    let mut limiter = RateLimit::new(3, 50);
    assert_eq!(limiter.invoke::<String>(0, Ok(())), Ok(()));
    assert_eq!(limiter.invoke::<String>(1, Ok(())), Ok(()));
    assert_eq!(limiter.tokens_available(), 1);
    // the old window's last token is not what this call takes
    assert_eq!(limiter.invoke::<String>(50, Ok(())), Ok(()));
    assert_eq!(limiter.tokens_available(), 2);
    assert_eq!(limiter.window_start(), 50);
}

#[test]
fn rate_limit_with_a_clock_that_steps_back() {
    let mut limiter = RateLimit::new(1, 10);
    assert_eq!(limiter.invoke::<String>(100, Ok(())), Ok(()));
    assert_eq!(limiter.window_start(), 100);
    // a time before the window began lies inside the window
    assert_eq!(limiter.invoke::<String>(5, Ok(())), Err(InvokeError::RateLimited));
    assert_eq!(limiter.window_start(), 100);
    assert_eq!(limiter.invoke::<String>(110, Ok(())), Ok(()));
    assert_eq!(limiter.window_start(), 110);
}

#[test]
fn rate_limit_without_capacity_or_window() {
    let mut limiter = RateLimit::new(0, 10);
    assert_eq!(limiter.check_ready(0, Readiness::Ready), Readiness::NotReady);
    assert_eq!(limiter.invoke::<String>(0, Ok(())), Err(InvokeError::RateLimited));
    assert_eq!(limiter.invoke::<String>(10, Ok(())), Err(InvokeError::RateLimited));
    assert_eq!(limiter.tokens_available(), 0);
    // a window of no length is over at once: every call opens a new one
    let mut limiter = RateLimit::new(1, 0);
    assert_eq!(limiter.invoke::<String>(4, Ok(())), Ok(()));
    assert_eq!(limiter.invoke::<String>(4, Ok(())), Ok(()));
    assert_eq!(limiter.invoke::<String>(5, Ok(())), Ok(()));
    assert_eq!(limiter.tokens_available(), 0);
    assert_eq!(limiter.window_start(), 5);
}

#[test]
fn timeout_starts_the_clock() {
    let layer = Timeout::new(50);
    assert_eq!(layer.duration, 50);
    assert_eq!(layer.check_ready(Readiness::Ready), Readiness::Ready);
    assert_eq!(layer.check_ready(Readiness::NotReady), Readiness::NotReady);
    assert_eq!(layer.check_ready(Readiness::Shed), Readiness::Shed);
    assert_eq!(
        layer.invoke::<String>(7, Ok(())),
        Ok(PendingCall { started_at: 7, deadline: 57 })
    );
    assert_eq!(
        layer.invoke::<String>(u64::MAX, Ok(())),
        Ok(PendingCall { started_at: u64::MAX, deadline: u64::MAX })
    );
    assert_eq!(
        layer.invoke(7, Err(InvokeError::RateLimited::<String>)),
        Err(InvokeError::RateLimited)
    );
    assert_eq!(
        layer.invoke(7, Err(InvokeError::Inner(String::from("e")))),
        Err(InvokeError::Inner(String::from("e")))
    );
}

#[test]
fn rate_limit_counts_by_window_not_by_span() {
    // Windows are fixed: three calls within 15 ms pass a limit of two per
    // 100 ms when a window ends between them.
    let mut limiter = RateLimit::new(2, 100);
    assert_eq!(limiter.invoke::<String>(95, Ok(())), Ok(()));
    assert_eq!(limiter.invoke::<String>(105, Ok(())), Ok(()));
    assert_eq!(limiter.invoke::<String>(110, Ok(())), Ok(()));
    assert_eq!(limiter.window_start(), 105);
    assert_eq!(limiter.invoke::<String>(111, Ok(())), Err(InvokeError::RateLimited));
}
