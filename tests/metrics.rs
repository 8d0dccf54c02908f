use proc_metrics::command::{char_is_whitespace, parse_command};
use proc_metrics::handler::{
    compose_response, HandlerAction, HandlerError, HandlerEvent, MetricsService, Phase,
    NET_BYTES_READ, NET_BYTES_WRITTEN,
};
use proc_metrics::sample::{cpu_centi_percent, rss_bytes, Reading, Sample, Sampler, SamplerStep, Usage};
use proc_metrics::store::SnapshotStore;

fn usage(cpu: u64, mem: u64, r: u64, w: u64) -> Usage {
    Usage { cpu_centi_percent: cpu, memory_rss_bytes: mem, io_bytes_read: r, io_bytes_written: w }
}

fn zero() -> Usage {
    usage(0, 0, 0, 0)
}

#[test]
fn parse_splits_at_whitespace() {
    let cl = parse_command("  ls\t-l  /tmp \n").unwrap();
    assert_eq!(cl.program, "ls");
    assert_eq!(cl.args, vec!["-l".to_string(), "/tmp".to_string()]);
}

#[test]
fn parse_single_word() {
    let cl = parse_command("sleep").unwrap();
    assert_eq!(cl.program, "sleep");
    assert!(cl.args.is_empty());
}

#[test]
fn parse_unicode_whitespace() {
    let cl = parse_command("echo\u{3000}h\u{e9}llo\u{a0}x").unwrap();
    assert_eq!(cl.program, "echo");
    assert_eq!(cl.args, vec!["h\u{e9}llo".to_string(), "x".to_string()]);
}

#[test]
fn parse_blank_is_none() {
    assert!(parse_command("").is_none());
    assert!(parse_command("   \t\n").is_none());
    assert!(parse_command("\u{2028}\u{85}").is_none());
}

#[test]
fn whitespace_agrees_with_std() {
    for c in ['\t', '\n', '\u{b}', '\u{c}', '\r', ' ', '\u{85}', '\u{a0}', '\u{1680}', '\u{2000}',
        '\u{200a}', '\u{2028}', '\u{2029}', '\u{202f}', '\u{205f}', '\u{3000}', 'a', '0', '\u{200b}',
        '\u{180e}', '\u{feff}', '-']
    {
        assert_eq!(char_is_whitespace(c), c.is_whitespace(), "{:?}", c);
    }
}

#[test]
fn cpu_half_a_core() {
    // 50 ticks at 100 Hz over one second: 50 %.
    assert_eq!(cpu_centi_percent(0, 50, 100, 1_000_000), 5_000);
}

#[test]
fn cpu_full_core_over_interval() {
    // 30 ticks at 100 Hz over 300 ms: 100 %.
    assert_eq!(cpu_centi_percent(120, 150, 100, 300_000), 10_000);
}

#[test]
fn cpu_zero_denominators_and_backwards_counter() {
    assert_eq!(cpu_centi_percent(0, 50, 0, 1_000_000), 0);
    assert_eq!(cpu_centi_percent(0, 50, 100, 0), 0);
    assert_eq!(cpu_centi_percent(60, 50, 100, 1_000_000), 0);
}

#[test]
fn cpu_saturates() {
    assert_eq!(cpu_centi_percent(0, u64::MAX, 1, 1), u64::MAX);
}

#[test]
fn cpu_within_cores_bound() {
    // Four cores busy for 2 s of wall time at 100 Hz: 800 ticks.
    let r = cpu_centi_percent(0, 800, 100, 2_000_000);
    assert_eq!(r, 40_000);
    assert!(r <= 4 * 10_000);
}

#[test]
fn rss_pages_to_bytes() {
    assert_eq!(rss_bytes(3, 4096), 12_288);
    assert_eq!(rss_bytes(0, 4096), 0);
    assert_eq!(rss_bytes(u64::MAX, 4096), u64::MAX);
}

#[test]
fn sampler_uses_inter_tick_deltas() {
    let mut s = Sampler::new(42, 100, 4096, 1_000_000);
    let r1 = Reading { cpu_ticks: 30, rss_pages: 10, read_bytes: 5, write_bytes: 6 };
    let step1 = s.on_reading(Some(r1), 1_300_000);
    assert_eq!(
        step1,
        SamplerStep::Record(Sample { pid: 42, sampled_at_us: 1_300_000, usage: usage(10_000, 40_960, 5, 6) })
    );
    let r2 = Reading { cpu_ticks: 45, rss_pages: 11, read_bytes: 7, write_bytes: 8 };
    let step2 = s.on_reading(Some(r2), 1_600_000);
    assert_eq!(
        step2,
        SamplerStep::Record(Sample { pid: 42, sampled_at_us: 1_600_000, usage: usage(5_000, 45_056, 7, 8) })
    );
    assert_eq!(s.prev_ticks, 45);
    assert_eq!(s.prev_at_us, 1_600_000);
}

#[test]
fn sampler_stops_on_failed_read() {
    let mut s = Sampler::new(7, 100, 4096, 0);
    assert_eq!(s.on_reading(None, 300_000), SamplerStep::Stop);
    assert!(!s.active);
    let r = Reading { cpu_ticks: 1, rss_pages: 1, read_bytes: 1, write_bytes: 1 };
    assert_eq!(s.on_reading(Some(r), 600_000), SamplerStep::Stop);
}

#[test]
fn sampler_cancelled_records_nothing() {
    let mut s = Sampler::new(7, 100, 4096, 0);
    s.cancel();
    let r = Reading { cpu_ticks: 1, rss_pages: 1, read_bytes: 1, write_bytes: 1 };
    assert_eq!(s.on_reading(Some(r), 300_000), SamplerStep::Stop);
}

#[test]
fn store_starts_empty_and_keeps_last_write() {
    let mut store = SnapshotStore::new(9);
    assert_eq!(store.pid(), 9);
    assert_eq!(store.get(), None);
    let a = Sample { pid: 9, sampled_at_us: 1, usage: usage(1, 2, 3, 4) };
    let b = Sample { pid: 9, sampled_at_us: 2, usage: usage(5, 6, 7, 8) };
    assert!(store.set(a));
    assert_eq!(store.get(), Some(a));
    assert!(store.set(b));
    assert_eq!(store.get(), Some(b));
}

#[test]
fn store_refuses_other_process() {
    let mut store = SnapshotStore::new(9);
    let foreign = Sample { pid: 10, sampled_at_us: 1, usage: usage(1, 2, 3, 4) };
    assert!(!store.set(foreign));
    assert_eq!(store.get(), None);
    let own = Sample { pid: 9, sampled_at_us: 2, usage: usage(5, 6, 7, 8) };
    assert!(store.set(own));
    assert!(!store.set(foreign));
    assert_eq!(store.get(), Some(own));
}

#[test]
fn fresh_store_gives_zero_response() {
    let store = SnapshotStore::new(4);
    let m = compose_response(4, 10, store.get(), MetricsService::default().fallback);
    assert_eq!(m.usage, zero());
    assert_eq!(m.process_id, 4);
}

#[test]
fn two_stores_are_independent() {
    let mut s1 = SnapshotStore::new(1);
    let mut s2 = SnapshotStore::new(2);
    let a = Sample { pid: 1, sampled_at_us: 1, usage: usage(100, 1_000, 0, 0) };
    let b = Sample { pid: 2, sampled_at_us: 1, usage: usage(200, 9_000, 0, 0) };
    assert!(s1.set(a));
    assert!(s2.set(b));
    let svc = MetricsService::default();
    let m1 = compose_response(1, 10, s1.get(), svc.fallback);
    let m2 = compose_response(2, 10, s2.get(), svc.fallback);
    assert_eq!(m1.usage.memory_rss_bytes, 1_000);
    assert_eq!(m2.usage.memory_rss_bytes, 9_000);
    assert_eq!(compose_response(1, 10, Some(b), svc.fallback).usage, zero());
}

#[test]
fn default_service_configuration() {
    let svc = MetricsService::default();
    assert_eq!(svc.window_ms, 2000);
    assert_eq!(svc.interval_ms, 300);
    assert_eq!(svc.fallback, zero());
    let custom = MetricsService::new(500, 100).with_fallback(usage(1, 1, 1, 1));
    assert_eq!(custom.window_ms, 500);
    assert_eq!(custom.fallback, usage(1, 1, 1, 1));
}

#[test]
fn blank_command_fails_without_launch() {
    let svc = MetricsService::default();
    for cmd in ["", "   ", "\t\n"] {
        let (mut req, action) = svc.begin(cmd);
        assert!(matches!(action, HandlerAction::Fail(HandlerError::InvalidCommand)));
        assert_eq!(req.phase, Phase::Failed);
        let later = req.step(HandlerEvent::Launched { pid: 3, launched_at: 1 });
        assert!(matches!(later, HandlerAction::Ignore));
        assert_eq!(req.phase, Phase::Failed);
    }
}

#[test]
fn full_request_reports_launched_process() {
    let svc = MetricsService::default();
    let (mut req, action) = svc.begin("sleep 5");
    match action {
        HandlerAction::Spawn(cl) => {
            assert_eq!(cl.program, "sleep");
            assert_eq!(cl.args, vec!["5".to_string()]);
        }
        _ => panic!("expected a launch"),
    }
    assert_eq!(req.phase, Phase::Pending);
    let a = req.step(HandlerEvent::Launched { pid: 77, launched_at: 1_700_000_000 });
    assert!(matches!(a, HandlerAction::StartSampling { pid: 77, interval_ms: 300, window_ms: 2000 }));
    let s = Sample { pid: 77, sampled_at_us: 5, usage: usage(1234, 8192, 10, 20) };
    let a = req.step(HandlerEvent::WindowElapsed { snapshot: Some(s) });
    match a {
        HandlerAction::Respond(m) => {
            assert_eq!(m.process_id, 77);
            assert_eq!(m.timestamp, 1_700_000_000);
            assert_eq!(m.usage, usage(1234, 8192, 10, 20));
            assert_eq!(m.net_bytes_read, 512);
            assert_eq!(m.net_bytes_written, 256);
        }
        _ => panic!("expected a response"),
    }
    assert_eq!(req.phase, Phase::Responded);
    assert!(matches!(req.step(HandlerEvent::WindowElapsed { snapshot: None }), HandlerAction::Ignore));
}

#[test]
fn launch_failure_is_spawn_failed() {
    let svc = MetricsService::default();
    let (mut req, _) = svc.begin("/no/such/binary --flag");
    let a = req.step(HandlerEvent::LaunchFailed { os_error: 2 });
    assert!(matches!(a, HandlerAction::Fail(HandlerError::SpawnFailed { os_error: 2 })));
    assert_eq!(req.phase, Phase::Failed);
    let a = req.step(HandlerEvent::WindowElapsed { snapshot: None });
    assert!(matches!(a, HandlerAction::Ignore));
}

#[test]
fn early_exit_gives_zero_figures() {
    let svc = MetricsService::default();
    let (mut req, _) = svc.begin("true");
    req.step(HandlerEvent::Launched { pid: 5, launched_at: 100 });
    match req.step(HandlerEvent::WindowElapsed { snapshot: None }) {
        HandlerAction::Respond(m) => {
            assert_eq!(m.process_id, 5);
            assert_eq!(m.timestamp, 100);
            assert_eq!(m.usage, zero());
            assert_eq!(m.net_bytes_read, NET_BYTES_READ);
            assert_eq!(m.net_bytes_written, NET_BYTES_WRITTEN);
        }
        _ => panic!("expected a response"),
    }
}

#[test]
fn events_out_of_order_are_ignored() {
    let svc = MetricsService::default();
    let (mut req, _) = svc.begin("ls");
    assert!(matches!(req.step(HandlerEvent::WindowElapsed { snapshot: None }), HandlerAction::Ignore));
    assert_eq!(req.phase, Phase::Pending);
    req.step(HandlerEvent::Launched { pid: 1, launched_at: 2 });
    assert!(matches!(req.step(HandlerEvent::LaunchFailed { os_error: 1 }), HandlerAction::Ignore));
    assert_eq!(req.phase, Phase::Sampling { pid: 1, launched_at: 2 });
}
