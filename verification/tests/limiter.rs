use http_file_server::limiter::{RateLimiter, RateLimiterFactory, Readiness, WINDOW_MS};

#[test]
fn fresh_limiter_is_ready() {
    let mut l = RateLimiter::new(1000, 0);
    assert_eq!(l.poll_ready(0), Readiness::Ready);
    assert_eq!(l.bytes_per_second, 1000);
    assert_eq!(l.bytes_consumed, 0);
    assert_eq!(l.window_start_ms, 0);
    assert!(!l.burst_enabled);
    assert_eq!(l.burst_buffer, 0);
}

#[test]
fn exhausted_window_waits_until_boundary() {
    let mut l = RateLimiter::new(1000, 500);
    assert_eq!(l.poll_ready(600), Readiness::Ready);
    l.consume(1000, 600);
    // The allowance is used up; the wait ends exactly at the window boundary.
    assert_eq!(l.poll_ready(700), Readiness::WaitUntil(1500));
    // Polling again while the timer runs reports the same deadline.
    assert_eq!(l.poll_ready(900), Readiness::WaitUntil(1500));
    // At the boundary the window resets and bytes may flow again.
    assert_eq!(l.poll_ready(1500), Readiness::Ready);
    assert_eq!(l.bytes_consumed, 0);
    assert_eq!(l.window_start_ms, 1500);
}

#[test]
fn partial_window_stays_ready() {
    let mut l = RateLimiter::new(1000, 0);
    assert_eq!(l.poll_ready(10), Readiness::Ready);
    l.consume(999, 10);
    assert_eq!(l.poll_ready(20), Readiness::Ready);
}

#[test]
fn severe_overrun_extends_the_wait() {
    let mut l = RateLimiter::new(100, 0);
    assert_eq!(l.poll_ready(0), Readiness::Ready);
    // One huge chunk: 250 bytes against a rate of 100, an overrun beyond 2x.
    l.consume(250, 0);
    // The wait runs to the window boundary plus 250 * 100 / 100 = 250 ms.
    assert_eq!(l.poll_ready(1), Readiness::WaitUntil(1250));
}

#[test]
fn burst_allowance_admits_short_bursts() {
    let mut l = RateLimiter::with_burst(1000, true, 200, 0);
    assert_eq!(l.burst_buffer, 200);
    l.consume(1100, 0);
    // 1100 consumed is below the effective limit of 1200.
    assert_eq!(l.poll_ready(1), Readiness::Ready);
    l.consume(100, 1);
    assert!(matches!(l.poll_ready(2), Readiness::WaitUntil(_)));
}

#[test]
fn burst_buffer_regenerates_up_to_its_cap() {
    let mut l = RateLimiter::with_burst(1000, true, 0, 0);
    assert_eq!(l.burst_buffer, 0);
    // Half a second into the window, a tenth of the rate regenerates pro rata:
    // 100 * 500 / 1000 = 50 bytes.
    l.consume(1, 500);
    assert_eq!(l.burst_buffer, 50);
    // Far later the buffer is capped at a fifth of the rate.
    l.consume(1, 900_000);
    assert_eq!(l.burst_buffer, 200);
}

#[test]
fn factory_defaults_and_burst_ratio() {
    let f = RateLimiterFactory::new(1000);
    let l = f.create_limiter(None, 7);
    assert_eq!(l.bytes_per_second, 1000);
    assert!(!l.burst_enabled);
    assert_eq!(l.burst_buffer, 0);
    assert_eq!(l.window_start_ms, 7);

    let f = f.with_burst(20);
    let l = f.create_limiter(Some(500), 0);
    assert_eq!(l.bytes_per_second, 500);
    assert!(l.burst_enabled);
    assert_eq!(l.burst_buffer, 100);
}

#[test]
fn transfer_of_n_windows_takes_n_minus_one_seconds() {
    // 3000 bytes at 1000 bytes per second, 100-byte chunks: the first window
    // is free, the remaining two are paid in full seconds of waiting.
    let elapsed = http_file_server::limiter::simulate_transfer(1000, 100, 3, 0);
    assert_eq!(elapsed, 2 * WINDOW_MS);
}

#[test]
fn transfer_bound_holds_for_uneven_rates() {
    let elapsed = http_file_server::limiter::simulate_transfer(999, 27, 5, 123_456);
    assert!(elapsed >= 4 * WINDOW_MS);
}

#[test]
fn single_window_transfer_needs_no_wait() {
    let elapsed = http_file_server::limiter::simulate_transfer(4096, 1024, 1, 50);
    assert_eq!(elapsed, 0);
}
