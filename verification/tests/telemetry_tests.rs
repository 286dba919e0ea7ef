use telemetry_engine::telemetry::{
    ConfigRegisterState, DataQuality, I2CStatus, StateTracking, SystemState,
};

#[test]
fn i2c_counters_accumulate() {
    let mut s = I2CStatus::new();
    s.record_write(0x48, 0xC383);
    s.record_write_success();
    s.record_write(0x48, 0xC383);
    s.record_read(0x48);
    s.record_read_success();
    s.record_error();
    assert_eq!(s.write_attempts, 2);
    assert_eq!(s.write_success, 1);
    assert_eq!(s.read_attempts, 1);
    assert_eq!(s.read_success, 1);
    assert_eq!(s.error_count, 1);
    assert_eq!(s.last_addr, 0x48);
    assert_eq!(s.last_value, 0xC383);
}

#[test]
fn success_rates() {
    let mut s = I2CStatus::new();
    assert_eq!(s.write_success_rate(), 0);
    assert_eq!(s.read_success_rate(), 0);
    s.write_attempts = 4;
    s.write_success = 3;
    assert_eq!(s.write_success_rate(), 75);
    s.read_attempts = 3;
    s.read_success = 3;
    assert_eq!(s.read_success_rate(), 100);
}

#[test]
fn config_register_decodes_fields() {
    // 0xC383: mux=100, pga=001, mode=1, dr=100.
    let c = ConfigRegisterState::from_raw(0xC383);
    assert_eq!(c.written, 0xC383);
    assert_eq!(c.readback, 0);
    assert_eq!(c.mux, 0x4);
    assert_eq!(c.pga, 0x1);
    assert_eq!(c.mode, 0x1);
    assert_eq!(c.dr, 0x4);
}

#[test]
fn config_register_matches_readback() {
    let mut c = ConfigRegisterState::from_raw(0xC383);
    assert!(!c.matches());
    c.set_readback(0xC383);
    assert!(c.matches());
    c.set_readback(0xC382);
    assert!(!c.matches());
}

#[test]
fn data_quality_tracks_extremes_and_stuck_readings() {
    let mut q = DataQuality::new();
    assert_eq!(q.range(), 0);
    q.update(100);
    q.update(300);
    q.update(200);
    assert_eq!(q.min, 100);
    assert_eq!(q.max, 300);
    assert_eq!(q.range(), 200);
    assert_eq!(q.stuck_count, 0);
    q.update(200);
    q.update(200);
    assert_eq!(q.stuck_count, 2);
    q.update(201);
    assert_eq!(q.stuck_count, 0);
    assert_eq!(q.last_value, 201);
}

#[test]
fn state_tracking_counts_transitions() {
    let mut t = StateTracking::new();
    assert!(matches!(t.state, SystemState::Uninitialized));
    t.update_time(50);
    t.update_time(50);
    assert_eq!(t.time_in_state_ms, 100);
    t.transition(SystemState::Initializing);
    assert!(matches!(t.state, SystemState::Initializing));
    assert_eq!(t.state_changes, 1);
    assert_eq!(t.time_in_state_ms, 0);
    t.transition(SystemState::Idle);
    assert_eq!(t.state_changes, 2);
}
