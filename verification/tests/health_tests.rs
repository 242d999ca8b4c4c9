use openchamber_supervisor::health::{
    deadline, health_endpoint, poll_step, should_probe, HealthCheckConfig, ProbeDecision,
    DEFAULT_HEALTH_POLL_INTERVAL_MS, DEFAULT_HEALTH_TIMEOUT_MS,
};
use openchamber_supervisor::urls::BaseUrl;

#[test]
fn health_endpoint_appends_health_path() {
    assert_eq!(health_endpoint("http://127.0.0.1:8080"), "http://127.0.0.1:8080/health");
    assert_eq!(health_endpoint("http://127.0.0.1:8080/"), "http://127.0.0.1:8080/health");
    assert_eq!(health_endpoint("http://h///"), "http://h/health");
}

#[test]
fn default_config_is_well_formed() {
    assert!(DEFAULT_HEALTH_POLL_INTERVAL_MS < DEFAULT_HEALTH_TIMEOUT_MS);
    let cfg = HealthCheckConfig::new(
        DEFAULT_HEALTH_TIMEOUT_MS,
        DEFAULT_HEALTH_POLL_INTERVAL_MS,
        BaseUrl::local(8080),
    );
    assert_eq!(cfg.timeout_ms, 20000);
    assert_eq!(cfg.poll_interval_ms, 250);
    assert_eq!(cfg.base_url.as_str(), "http://127.0.0.1:8080");
}

#[test]
fn deadline_is_start_plus_timeout() {
    let cfg = HealthCheckConfig::new(2000, 250, BaseUrl::local(1));
    assert_eq!(deadline(&cfg, 100), 2100);
}

#[test]
fn probing_stops_at_the_deadline() {
    assert!(should_probe(2000, 0));
    assert!(should_probe(2000, 1999));
    assert!(!should_probe(2000, 2000));
    assert!(!should_probe(2000, 2500));
}

#[test]
fn success_before_deadline_is_ready_immediately() {
    // timeout = 2s, poll every 250ms, endpoint turns healthy at t = 1.1s.
    let cfg = HealthCheckConfig::new(2000, 250, BaseUrl::local(1));
    let dl = deadline(&cfg, 0);
    let mut now: u64 = 0;
    let mut decision = poll_step(dl, now, false);
    while decision == ProbeDecision::RetryAfterInterval {
        now += cfg.poll_interval_ms;
        let healthy = now >= 1100;
        decision = poll_step(dl, now, healthy);
    }
    assert_eq!(decision, ProbeDecision::Ready);
    // Ready is observed on the first poll at or after t = 1.1s.
    assert_eq!(now, 1250);
}

#[test]
fn no_success_times_out_at_the_deadline() {
    let cfg = HealthCheckConfig::new(2000, 250, BaseUrl::local(1));
    let dl = deadline(&cfg, 0);
    let mut now: u64 = 0;
    let mut polls: u32 = 0;
    let mut decision = poll_step(dl, now, false);
    while decision == ProbeDecision::RetryAfterInterval {
        now += cfg.poll_interval_ms;
        polls += 1;
        decision = poll_step(dl, now, false);
    }
    assert_eq!(decision, ProbeDecision::TimedOut);
    assert_eq!(now, 2000);
    assert_eq!(polls, 8);
}

#[test]
fn success_wins_even_past_the_deadline() {
    assert_eq!(poll_step(2000, 5000, true), ProbeDecision::Ready);
}
