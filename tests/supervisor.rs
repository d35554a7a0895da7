use hid_battery::{
    poll_interval, record_reading, Action, BatteryState, Event, Phase, Supervisor, BACKOFF_MS,
    FAST_POLL_MS, NORMAL_POLL_MS, READ_TIMEOUT_MS,
};

fn report(status: u8) -> Vec<u8> {
    vec![130, 0, 0, 0, 0, 0, 0, 0, status]
}

fn connected(now: u64) -> Supervisor {
    let mut s = Supervisor::new();
    assert_eq!(s.step(Event::Tick, now), Action::Locate);
    assert_eq!(s.step(Event::DeviceReady, now), Action::Query);
    assert_eq!(s.step(Event::QuerySent, now), Action::Read(READ_TIMEOUT_MS));
    assert_eq!(s.phase, Phase::Connected);
    s
}

#[test]
fn cadence_intervals() {
    assert_eq!(poll_interval(None, 0, 0), 2000);
    assert_eq!(poll_interval(None, 0, 1_000_000), FAST_POLL_MS);
    let b = Some(BatteryState { percent: 50, charging: false });
    assert_eq!(poll_interval(b, 1_000, 12_000), 2000);
    assert_eq!(poll_interval(b, 1_000, 6_000), 300_000);
    assert_eq!(poll_interval(b, 1_000, 11_000), NORMAL_POLL_MS);
    assert_eq!(poll_interval(b, 1_000, 11_001), FAST_POLL_MS);
    assert_eq!(poll_interval(b, 9_000, 1_000), NORMAL_POLL_MS);
}

#[test]
fn identical_reports_notify_once() {
    let mut s = connected(0);
    let b = BatteryState { percent: 85, charging: false };
    assert_eq!(s.step(Event::ReportRead(report(0x55)), 100), Action::Notify(b));
    assert_eq!(s.step(Event::Delivered, 100), Action::Read(READ_TIMEOUT_MS));
    for t in 1..20u64 {
        let a = s.step(Event::ReportRead(report(0x55)), 100 + t * 10);
        assert_eq!(a, Action::Read(READ_TIMEOUT_MS));
    }
    assert_eq!(s.last, Some(b));
    let c = BatteryState { percent: 84, charging: false };
    assert_eq!(s.step(Event::ReportRead(report(0x54)), 400), Action::Notify(c));
}

#[test]
fn malformed_reports_keep_session() {
    let mut s = connected(0);
    assert_eq!(s.step(Event::ReportRead(vec![]), 10), Action::Read(READ_TIMEOUT_MS));
    assert_eq!(s.step(Event::ReportRead(vec![1, 2, 3]), 20), Action::Read(READ_TIMEOUT_MS));
    assert_eq!(s.step(Event::ReportRead(vec![7, 0, 0, 0, 0, 0, 0, 0, 0x55]), 30), Action::Read(READ_TIMEOUT_MS));
    assert_eq!(s.phase, Phase::Connected);
    assert_eq!(s.last, None);
}

#[test]
fn fast_requery_without_readings() {
    let mut s = connected(0);
    assert_eq!(s.step(Event::ReportRead(vec![]), 1_999), Action::Read(READ_TIMEOUT_MS));
    assert_eq!(s.step(Event::ReportRead(vec![]), 2_000), Action::Query);
    assert_eq!(s.step(Event::QuerySent, 2_000), Action::Read(READ_TIMEOUT_MS));
    assert_eq!(s.last_query_ms, 2_000);
}

#[test]
fn normal_then_quiet_requery() {
    let mut s = connected(0);
    let b = BatteryState { percent: 60, charging: false };
    assert_eq!(s.step(Event::ReportRead(report(60)), 1_000), Action::Notify(b));
    assert_eq!(s.step(Event::Delivered, 1_000), Action::Read(READ_TIMEOUT_MS));
    // Fresh reading 5 s ago: steady state, no query before 300 s.
    assert_eq!(s.step(Event::ReportRead(vec![]), 6_000), Action::Read(READ_TIMEOUT_MS));
    // 11 s of silence: the device counts as quiet and is queried again.
    assert_eq!(s.step(Event::ReportRead(vec![]), 12_000), Action::Query);
}

#[test]
fn read_error_disconnects_and_reenumerates() {
    let mut s = connected(0);
    assert_eq!(s.step(Event::ReadFailed, 50), Action::Sleep(BACKOFF_MS));
    assert_eq!(s.phase, Phase::Disconnected);
    assert_eq!(s.step(Event::Tick, 2_050), Action::Locate);
    assert_eq!(s.phase, Phase::Connecting);
}

#[test]
fn query_error_disconnects() {
    let mut s = connected(0);
    assert_eq!(s.step(Event::ReportRead(vec![]), 2_000), Action::Query);
    assert_eq!(s.step(Event::QueryFailed, 2_000), Action::Sleep(2000));
    assert_eq!(s.phase, Phase::Disconnected);
}

#[test]
fn enumeration_failure_then_success_connects() {
    let mut s = Supervisor::new();
    assert_eq!(s.step(Event::Tick, 0), Action::Locate);
    assert_eq!(s.step(Event::EnumerationFailed, 0), Action::Sleep(2000));
    assert_eq!(s.phase, Phase::Disconnected);
    assert_eq!(s.step(Event::Tick, 2_000), Action::Locate);
    assert_eq!(s.step(Event::NoDevice, 2_000), Action::Sleep(2000));
    assert_eq!(s.step(Event::Tick, 4_000), Action::Locate);
    assert_eq!(s.step(Event::DeviceReady, 4_000), Action::Query);
    assert_eq!(s.phase, Phase::Connected);
}

#[test]
fn reconnect_forgets_last_reading() {
    let mut s = connected(0);
    let b = BatteryState { percent: 85, charging: false };
    assert_eq!(s.step(Event::ReportRead(report(0x55)), 10), Action::Notify(b));
    assert_eq!(s.step(Event::ReadFailed, 20), Action::Sleep(BACKOFF_MS));
    assert_eq!(s.step(Event::Tick, 2_020), Action::Locate);
    assert_eq!(s.step(Event::DeviceReady, 2_030), Action::Query);
    assert_eq!(s.last, None);
    assert_eq!(s.step(Event::QuerySent, 2_030), Action::Read(READ_TIMEOUT_MS));
    assert_eq!(s.step(Event::ReportRead(report(0x55)), 2_040), Action::Notify(b));
}

#[test]
fn closed_channel_stops_for_good() {
    let mut s = connected(0);
    assert_eq!(s.step(Event::ReportRead(report(0x55)), 10), Action::Notify(BatteryState { percent: 85, charging: false }));
    assert_eq!(s.step(Event::DeliveryFailed, 10), Action::Stop);
    assert_eq!(s.phase, Phase::Stopped);
    assert_eq!(s.step(Event::Tick, 20), Action::Stop);
    assert_eq!(s.step(Event::DeviceReady, 30), Action::Stop);
}

#[test]
fn unexpected_events_resume() {
    let mut s = Supervisor::new();
    assert_eq!(s.step(Event::ReadFailed, 0), Action::Sleep(BACKOFF_MS));
    assert_eq!(s.phase, Phase::Disconnected);
    assert_eq!(s.step(Event::Tick, 0), Action::Locate);
    assert_eq!(s.step(Event::QuerySent, 0), Action::Locate);
    assert_eq!(s.phase, Phase::Connecting);
}

#[test]
fn record_reading_reports_news() {
    let a = BatteryState { percent: 10, charging: false };
    let b = BatteryState { percent: 10, charging: true };
    let mut last = None;
    assert!(record_reading(&mut last, a));
    assert!(!record_reading(&mut last, a));
    assert!(record_reading(&mut last, b));
    assert_eq!(last, Some(b));
}
