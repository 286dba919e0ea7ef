use telemetry_engine::button::{ButtonDebounce, DEBOUNCE_CALLS};
use telemetry_engine::led::{LedState, LedToggle};
use telemetry_engine::logfmt::ImuReading;
use telemetry_engine::mpu9250::{AccelData, GyroData, EXPECTED_WHO_AM_I, MPU_ADDR};
use telemetry_engine::numparse::{parse_addr, parse_u32_dec, parse_u32_hex};
use telemetry_engine::packet::{TestPacket, PACKET_MAGIC};
use telemetry_engine::records::{
    BootInfo, GpioEvent, GpioState, I2cOperation, I2cStatus, I2cTransaction, SensorReading,
};
use telemetry_engine::scheduler::Scheduler;
use telemetry_engine::terminal::{bytes_to_str, Terminal, TerminalAction};

#[test]
fn scheduler_runs_tasks_at_their_periods() {
    let mut s = Scheduler::new();
    assert_eq!(s.current_time_ms(), 0);
    // First tick at t=10: everything was due at 0.
    let due = s.advance();
    assert_eq!(s.current_time_ms(), 10);
    assert!(due.button && due.imu && due.led);
    // t=20: only the 10 ms button task.
    let due = s.advance();
    assert!(due.button && !due.imu && !due.led);
    // t=30..50: button each tick; led at 60 (50+10 period boundary).
    s.advance();
    s.advance();
    s.advance();
    let due = s.advance();
    assert_eq!(s.current_time_ms(), 60);
    assert!(due.button && due.led && !due.imu);
    // imu (100 ms) next at t=110.
    for _ in 0..4 {
        let due = s.advance();
        assert!(!due.imu);
    }
    let due = s.advance();
    assert_eq!(s.current_time_ms(), 110);
    assert!(due.imu);
}

#[test]
fn led_toggle_flips_state() {
    let mut t = LedToggle::new();
    assert!(!t.is_led_enabled());
    t.toggle_led_enabled();
    assert!(t.is_led_enabled());
    t.toggle_led_enabled();
    assert!(!t.is_led_enabled());
    t.set_led_enabled(true);
    assert!(t.is_led_enabled());
}

#[test]
fn led_color_round_trips() {
    let mut s = LedState::new();
    assert!(!s.is_led_on());
    assert_eq!(s.get_led_color(), (0, 0, 0x1E));
    s.set_led_color(255, 0, 128);
    assert_eq!(s.get_led_color(), (255, 0, 128));
    s.set_led_on(true);
    assert!(s.is_led_on());
    assert_eq!(s.get_led_color(), (255, 0, 128));
}

#[test]
fn packet_fields_follow_the_timestamp() {
    let p = TestPacket::new(7, 12345, 99);
    assert_eq!(p.magic, PACKET_MAGIC);
    assert_eq!(p.seq, 7);
    assert_eq!(p.timestamp_ms, 12345);
    assert_eq!(p.counter, 99);
    assert_eq!(p.sensor_temp, 2500 + (12345 / 100 % 100) as i32);
    assert_eq!(p.accel_x, (12345 / 10 % 200) as i16 - 100);
    assert_eq!(p.accel_y, (12345 / 15 % 200) as i16 - 100);
    assert_eq!(p.accel_z, 1000 + (12345 / 20 % 100) as i16);
    assert_eq!(p.state, (12345 / 1000 % 5) as u8);
    let expected = PACKET_MAGIC
        .wrapping_add(7)
        .wrapping_add(0)
        .wrapping_add(12345)
        .wrapping_add(99)
        .wrapping_add(p.sensor_temp as u32);
    assert_eq!(p.checksum, expected);
}

#[test]
fn packet_serializes_little_endian() {
    let p = TestPacket::new(1, 2, 3);
    let bytes = p.as_bytes();
    assert_eq!(bytes.len(), 64);
    assert_eq!(&bytes[0..4], &[0xEF, 0xBE, 0xAD, 0xDE]);
    assert_eq!(&bytes[4..8], &[1, 0, 0, 0]);
    assert_eq!(&bytes[8..16], &[2, 0, 0, 0, 0, 0, 0, 0]);
    assert_eq!(&bytes[16..20], &[3, 0, 0, 0]);
    assert_eq!(bytes[31], p.state);
    assert_eq!(&bytes[60..64], &p.checksum.to_le_bytes());
}

#[test]
fn mpu_bursts_decode_big_endian() {
    assert_eq!(MPU_ADDR, 0x68);
    assert_eq!(EXPECTED_WHO_AM_I, 0x71);
    let a = AccelData::from_bytes(&[0x01, 0x02, 0xFF, 0xFE, 0x03, 0xE8]);
    assert_eq!(a.x, 0x0102);
    assert_eq!(a.y, -2);
    assert_eq!(a.z, 1000);
    let g = GyroData::from_bytes(&[0x80, 0x00, 0x7F, 0xFF, 0x00, 0x00]);
    assert_eq!(g.x, i16::MIN);
    assert_eq!(g.y, i16::MAX);
    assert_eq!(g.z, 0);
}

#[test]
fn terminal_accumulates_a_line() {
    let mut t = Terminal::new();
    assert_eq!(t.accept_byte(b'h'), (None, TerminalAction::Stored));
    assert_eq!(t.accept_byte(b'i'), (None, TerminalAction::Stored));
    let (line, act) = t.accept_byte(b'\n');
    assert_eq!(act, TerminalAction::LineEnd);
    assert_eq!(line.unwrap(), b"hi".to_vec());
    // The buffer resets for the next line.
    let (line, _) = t.accept_byte(b'\r');
    assert_eq!(line.unwrap(), b"".to_vec());
}

#[test]
fn terminal_backspace_and_control_bytes() {
    let mut t = Terminal::new();
    t.accept_byte(b'a');
    t.accept_byte(b'b');
    assert_eq!(t.accept_byte(0x7F), (None, TerminalAction::Erased));
    // Backspace at an empty buffer is ignored.
    assert_eq!(t.accept_byte(0x08), (None, TerminalAction::Erased));
    assert_eq!(t.accept_byte(0x08), (None, TerminalAction::Ignored));
    // Other control bytes are ignored.
    assert_eq!(t.accept_byte(0x01), (None, TerminalAction::Ignored));
    t.accept_byte(b'z');
    let (line, _) = t.accept_byte(b'\n');
    assert_eq!(line.unwrap(), b"z".to_vec());
}

#[test]
fn terminal_overflow_surfaces_the_line() {
    let mut t = Terminal::new();
    for _ in 0..128 {
        assert_eq!(t.accept_byte(b'x'), (None, TerminalAction::Stored));
    }
    let (line, act) = t.accept_byte(b'y');
    assert_eq!(act, TerminalAction::Overflowed);
    assert_eq!(line.unwrap().len(), 128);
    // The overflowing byte is dropped and the buffer restarts empty.
    let (line, _) = t.accept_byte(b'\n');
    assert_eq!(line.unwrap(), b"".to_vec());
}

#[test]
fn bytes_to_str_accepts_utf8_and_rejects_garbage() {
    assert_eq!(bytes_to_str(b"hello"), Ok("hello"));
    assert_eq!(bytes_to_str("héllo".as_bytes()), Ok("héllo"));
    assert_eq!(bytes_to_str(&[0xFF, 0xFE]), Err(()));
}

#[test]
fn number_parsing() {
    assert_eq!(parse_u32_dec(b"0"), Some(0));
    assert_eq!(parse_u32_dec(b"4294967295"), Some(u32::MAX));
    assert_eq!(parse_u32_dec(b"4294967296"), None);
    assert_eq!(parse_u32_dec(b""), None);
    assert_eq!(parse_u32_dec(b"12a"), None);
    assert_eq!(parse_u32_hex(b"ff"), Some(255));
    assert_eq!(parse_u32_hex(b"FF"), Some(255));
    assert_eq!(parse_u32_hex(b"100000000"), None);
    assert_eq!(parse_addr(b"0x40801000"), Some(0x40801000));
    assert_eq!(parse_addr(b"0x"), None);
    assert_eq!(parse_addr(b"1234"), Some(1234));
    assert_eq!(parse_addr(b"0xzz"), None);
}

#[test]
fn imu_reading_constructors() {
    let z = ImuReading::new();
    assert_eq!((z.accel_x, z.accel_y, z.accel_z), (0, 0, 0));
    assert_eq!((z.gyro_x, z.gyro_y, z.gyro_z), (0, 0, 0));
    assert_eq!((z.temp, z.timestamp_us), (0, 0));
    let r = ImuReading::with_values(1, -2, 3, -4, 5, -6, 25, 1000);
    assert_eq!((r.accel_x, r.accel_y, r.accel_z), (1, -2, 3));
    assert_eq!((r.gyro_x, r.gyro_y, r.gyro_z), (-4, 5, -6));
    assert_eq!((r.temp, r.timestamp_us), (25, 1000));
}

#[test]
fn wire_records_render_their_lines() {
    let tx = I2cTransaction {
        addr: 0x68,
        operation: I2cOperation::Read,
        bytes_transferred: 6,
        status: I2cStatus::Success,
        timestamp_ms: 120,
    };
    assert_eq!(
        String::from_utf8(tx.line()).unwrap(),
        "I2C|addr=0x68|op=Read|bytes=6|status=Success|ts=120"
    );

    let ev = GpioEvent { pin: 8, state: GpioState::High, timestamp_ms: 250 };
    assert_eq!(String::from_utf8(ev.line()).unwrap(), "GPIO|pin=8|state=High|ts=250");

    let sr = SensorReading { sensor_id: 1, value: -2530, unit: "centi-C", timestamp_ms: 500 };
    assert_eq!(
        String::from_utf8(sr.line()).unwrap(),
        "SENSOR|id=1|value=-2530|unit=centi-C|ts=500"
    );

    let boot = BootInfo { version: "1.0.0", chip: "ESP32-C6" };
    assert_eq!(String::from_utf8(boot.line()).unwrap(), "BOOT|version=1.0.0|chip=ESP32-C6");
}

#[test]
fn button_debounce_fires_once_per_press() {
    let mut b = ButtonDebounce::new();
    assert!(!b.step(false));
    // The released-to-pressed edge fires exactly once.
    assert!(b.step(true));
    // Held or bouncing levels inside the debounce window never fire.
    for _ in 0..DEBOUNCE_CALLS {
        assert!(!b.step(true));
    }
    // Still held after the window: no new edge, no event.
    assert!(!b.step(true));
    // Release, then press again: a new event.
    assert!(!b.step(false));
    assert!(b.step(true));
}
