use device_monitor::sender::MonitorService;
use device_monitor::sender::StartError;
use device_monitor::sender::TickAction;

#[test]
fn status_before_start_is_never_not_started() {
    let s = MonitorService::new();
    let (time, status) = s.get_status();
    assert_eq!(time, "never");
    assert_eq!(status, "not-started");
    assert!(!s.is_running());
    assert_eq!(s.current_generation(), 0);
}

#[test]
fn start_rejects_short_cadence() {
    let mut s = MonitorService::new();
    for cadence in 0..5u64 {
        let r = s.start("https://ok.example".to_string(), cadence);
        assert!(matches!(r, Err(StartError::InvalidCadence)));
        assert!(!s.is_running());
    }
    s.start("https://ok.example".to_string(), 5).unwrap();
    let r = s.start("https://ok.example".to_string(), 4);
    assert!(matches!(r, Err(StartError::InvalidCadence)));
    assert!(s.is_running());
}

#[test]
fn start_rejects_empty_target() {
    let mut s = MonitorService::new();
    let r = s.start(String::new(), 30);
    assert!(matches!(r, Err(StartError::InvalidTarget)));
    assert!(!s.is_running());
    let (time, status) = s.get_status();
    assert_eq!(time, "never");
    assert_eq!(status, "not-started");
    // an empty target is reported even when the cadence is short too
    let r = s.start(String::new(), 1);
    assert!(matches!(r, Err(StartError::InvalidTarget)));
}

#[test]
fn successful_cycle_reports_success() {
    let mut s = MonitorService::new();
    let generation = s.start("https://ok.example".to_string(), 5).unwrap();
    match s.on_tick(generation) {
        TickAction::Transmit(url) => assert_eq!(url, "https://ok.example"),
        other => panic!("expected a transmission, got {:?}", other),
    }
    s.record_success();
    let (time, status) = s.get_status();
    assert_eq!(status, "success");
    assert_ne!(time, "never");
    assert!(time.len() >= 19);
    assert!(s.is_running());
}

#[test]
fn stop_halts_transmissions() {
    let mut s = MonitorService::new();
    let generation = s.start("https://ok.example".to_string(), 5).unwrap();
    assert!(matches!(s.on_tick(generation), TickAction::Transmit(_)));
    s.record_success();
    let (time_at_stop, _) = s.get_status();
    s.stop();
    for _ in 0..3 {
        assert!(matches!(s.on_tick(generation), TickAction::Retire));
    }
    let (time_after, status) = s.get_status();
    assert_eq!(time_after, time_at_stop);
    assert_eq!(status, "stopped");
    assert!(!s.is_running());
}

#[test]
fn second_start_supersedes_first() {
    let mut s = MonitorService::new();
    let generation1 = s.start("https://first.example".to_string(), 5).unwrap();
    let generation2 = s.start("https://second.example".to_string(), 7).unwrap();
    assert_ne!(generation1, generation2);
    // the superseded loop's next tick is a no-op and it exits
    assert!(matches!(s.on_tick(generation1), TickAction::Retire));
    // the current loop transmits to the second target only
    match s.on_tick(generation2) {
        TickAction::Transmit(url) => assert_eq!(url, "https://second.example"),
        other => panic!("expected a transmission, got {:?}", other),
    }
}

#[test]
fn failing_transport_never_stops_loop() {
    let mut s = MonitorService::new();
    let generation = s.start("https://down.example".to_string(), 5).unwrap();
    for tick in 0..4 {
        match s.on_tick(generation) {
            TickAction::Transmit(url) => assert_eq!(url, "https://down.example"),
            other => panic!("expected a transmission on tick {}, got {:?}", tick, other),
        }
        s.record_failure(format!("send failed: connection refused ({})", tick));
        assert!(s.is_running());
        let (time, status) = s.get_status();
        assert_eq!(
            status,
            format!("failure: send failed: connection refused ({})", tick)
        );
        assert_eq!(time, "never");
    }
}

#[test]
fn stop_twice_is_safe_and_stopped_both_times() {
    let mut s = MonitorService::new();
    s.start("https://ok.example".to_string(), 5).unwrap();
    s.stop();
    let (_, status1) = s.get_status();
    assert_eq!(status1, "stopped");
    s.stop();
    let (_, status2) = s.get_status();
    assert_eq!(status2, "stopped");
    assert!(!s.is_running());
}

#[test]
fn restart_keeps_send_record_and_reports_starting() {
    let mut s = MonitorService::new();
    let generation = s.start("https://ok.example".to_string(), 5).unwrap();
    assert!(matches!(s.on_tick(generation), TickAction::Transmit(_)));
    s.record_success();
    let (time, _) = s.get_status();
    s.start("https://ok.example".to_string(), 6).unwrap();
    let (time_after, status_after) = s.get_status();
    assert_eq!(time_after, time);
    assert_eq!(status_after, "starting");
    assert!(s.is_running());
}

#[test]
fn generation_advances_on_each_start() {
    let mut s = MonitorService::new();
    assert_eq!(s.current_generation(), 0);
    let generation1 = s.start("https://ok.example".to_string(), 5).unwrap();
    assert_eq!(generation1, 1);
    assert_eq!(s.current_generation(), 1);
    let generation2 = s.start("https://ok.example".to_string(), 9).unwrap();
    assert_eq!(generation2, 2);
    assert_eq!(s.current_generation(), 2);
}
