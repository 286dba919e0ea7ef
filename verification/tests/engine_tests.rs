use telemetry_engine::engine::Engine;
use telemetry_engine::validator::{WINDOW_END, WINDOW_START};

fn sram() -> Vec<u8> {
    vec![0u8; WINDOW_END - WINDOW_START]
}

fn lines_to_strings(lines: &[Vec<u8>]) -> Vec<String> {
    lines.iter().map(|l| String::from_utf8(l.clone()).unwrap()).collect()
}

#[test]
fn ping_pongs() {
    let mut e = Engine::new();
    let mem = sram();
    let out = e.tick(10, b"PING\n", &mem);
    assert_eq!(lines_to_strings(&out), vec!["PONG"]);
}

#[test]
fn blank_line_gets_no_response() {
    let mut e = Engine::new();
    let mem = sram();
    let out = e.tick(10, b"\n   \n\t\n", &mem);
    assert!(out.is_empty());
}

#[test]
fn unknown_command_is_reported_and_changes_nothing() {
    let mut e = Engine::new();
    let mem = sram();
    let out = e.tick(10, b"FOO bar\n", &mem);
    assert_eq!(lines_to_strings(&out), vec!["ERROR|cmd=FOO|msg=Unknown command"]);
    // No stream was registered: later ticks emit no data records.
    for t in 2..50u64 {
        let out = e.tick(t * 10, b"", &mem);
        assert!(out.is_empty(), "unexpected records: {:?}", lines_to_strings(&out));
    }
}

#[test]
fn stream_command_samples_ten_hz() {
    let mut e = Engine::new();
    let mem = sram();
    let out = e.tick(10, b"STREAM 0x40801000 4 10\n", &mem);
    assert_eq!(lines_to_strings(&out), vec!["OK|cmd=STREAM|addr=0x40801000"]);

    // Over the following 1000 ms of ticks at a 10 ms period, a 10 Hz stream
    // emits exactly 10 data records.
    let mut data = Vec::new();
    for t in 2..=100u64 {
        let out = e.tick(t * 10, b"", &mem);
        for line in lines_to_strings(&out) {
            if line.starts_with("DATA|") {
                data.push(line);
            }
        }
    }
    assert_eq!(data.len(), 10);
    for line in &data {
        assert_eq!(line, "DATA|addr=0x40801000|hex=00000000");
    }
}

#[test]
fn stop_command_ends_sampling() {
    let mut e = Engine::new();
    let mem = sram();
    let out = e.tick(10, b"STREAM 0x40801000 4 10\n", &mem);
    assert_eq!(lines_to_strings(&out), vec!["OK|cmd=STREAM|addr=0x40801000"]);
    let out = e.tick(500, b"", &mem);
    assert_eq!(lines_to_strings(&out), vec!["DATA|addr=0x40801000|hex=00000000"]);

    let out = e.tick(510, b"STOP 0x40801000\n", &mem);
    assert_eq!(lines_to_strings(&out), vec!["OK|cmd=STOP|addr=0x40801000"]);

    // No further data records for that address appear in subsequent ticks.
    for t in 52..200u64 {
        let out = e.tick(t * 10, b"", &mem);
        for line in lines_to_strings(&out) {
            assert!(!line.starts_with("DATA|"), "unexpected: {}", line);
        }
    }
}

#[test]
fn data_reflects_memory_contents() {
    let mut e = Engine::new();
    let mut mem = sram();
    mem[0x1000] = 0xde;
    mem[0x1001] = 0xad;
    mem[0x1002] = 0x0f;
    let out = e.tick(10, b"STREAM 0x40801000 3 10\n", &mem);
    assert_eq!(lines_to_strings(&out), vec!["OK|cmd=STREAM|addr=0x40801000"]);
    let out = e.tick(200, b"", &mem);
    assert_eq!(lines_to_strings(&out), vec!["DATA|addr=0x40801000|hex=dead0f"]);
}

#[test]
fn sample_size_clamps_to_max_chunk() {
    let mut e = Engine::new();
    let mem = sram();
    e.tick(10, b"STREAM 0x40801000 100 10\n", &mem);
    let out = e.tick(200, b"", &mem);
    let lines = lines_to_strings(&out);
    assert_eq!(lines.len(), 1);
    // 64 bytes, two hex digits each.
    assert_eq!(lines[0].len(), "DATA|addr=0x40801000|hex=".len() + 128);
}

#[test]
fn out_of_window_stream_reports_error_record() {
    let mut e = Engine::new();
    let mem = sram();
    let out = e.tick(10, b"STREAM 0x20000000 4 10\n", &mem);
    // Registration succeeds: validation is deferred to sample time.
    assert_eq!(lines_to_strings(&out), vec!["OK|cmd=STREAM|addr=0x20000000"]);
    let out = e.tick(200, b"", &mem);
    assert_eq!(lines_to_strings(&out), vec!["ERROR|addr=0x20000000|msg=Out of SRAM range"]);
}

#[test]
fn tail_past_window_end_reports_error_record() {
    let mut e = Engine::new();
    let mem = sram();
    e.tick(10, b"STREAM 0x4087FFFE 4 10\n", &mem);
    let out = e.tick(200, b"", &mem);
    assert_eq!(lines_to_strings(&out), vec!["ERROR|addr=0x4087fffe|msg=Out of SRAM range"]);
}

#[test]
fn decimal_addresses_are_accepted() {
    let mut e = Engine::new();
    let mem = sram();
    // 1082134528 == 0x40801000
    let out = e.tick(10, b"STREAM 1082134528 4 10\n", &mem);
    assert_eq!(lines_to_strings(&out), vec!["OK|cmd=STREAM|addr=0x40801000"]);
}

#[test]
fn malformed_stream_arguments_are_one_error() {
    let mut e = Engine::new();
    let mem = sram();
    let out = e.tick(10, b"STREAM zzz 4 10\nSTREAM 0x40801000 4\nSTREAM 0x40801000 4 -1\n", &mem);
    assert_eq!(
        lines_to_strings(&out),
        vec![
            "ERROR|cmd=STREAM|msg=Invalid parameters",
            "ERROR|cmd=STREAM|msg=Invalid parameters",
            "ERROR|cmd=STREAM|msg=Invalid parameters",
        ]
    );
}

#[test]
fn stop_errors() {
    let mut e = Engine::new();
    let mem = sram();
    let out = e.tick(10, b"STOP 0x40801000\nSTOP\nSTOP xx\n", &mem);
    assert_eq!(
        lines_to_strings(&out),
        vec![
            "ERROR|cmd=STOP|msg=Stream not found",
            "ERROR|cmd=STOP|msg=Invalid parameters",
            "ERROR|cmd=STOP|msg=Invalid parameters",
        ]
    );
}

#[test]
fn capacity_error_on_seventeenth_stream() {
    let mut e = Engine::new();
    let mem = sram();
    for i in 0..16u64 {
        let cmd = format!("STREAM {} 4 10\n", 0x40801000u64 + i * 0x100);
        let out = e.tick(10, cmd.as_bytes(), &mem);
        assert!(lines_to_strings(&out)[0].starts_with("OK|cmd=STREAM|addr=0x"));
    }
    let out = e.tick(10, b"STREAM 0x40807000 4 10\n", &mem);
    assert_eq!(lines_to_strings(&out), vec!["ERROR|cmd=STREAM|msg=Max streams reached"]);
}

#[test]
fn help_and_list_respond() {
    let mut e = Engine::new();
    let mem = sram();
    let out = e.tick(10, b"HELP\nLIST\n", &mem);
    assert_eq!(
        lines_to_strings(&out),
        vec!["HELP|commands=PING,STREAM,STOP,LIST,HELP", "OK|cmd=LIST|active=0"]
    );
    e.tick(20, b"STREAM 0x40801000 4 0\n", &mem);
    let out = e.tick(30, b"LIST\n", &mem);
    assert_eq!(lines_to_strings(&out), vec!["OK|cmd=LIST|active=1"]);
}

#[test]
fn buffer_overflow_is_exactly_one_record_and_spares_the_table() {
    let mut e = Engine::new();
    let mem = sram();
    e.tick(10, b"STREAM 0x40801000 4 0\n", &mem);
    // 300 bytes with no terminator: the byte that finds the buffer full
    // costs exactly one overflow record; the rest start a fresh line.
    let noise = vec![b'x'; 300];
    let out = e.tick(20, &noise, &mem);
    let lines = lines_to_strings(&out);
    assert_eq!(lines, vec!["ERROR|msg=Command buffer overflow"]);
    // The stream table is unaffected.
    let out = e.tick(30, b"\nLIST\n", &mem);
    let lines = lines_to_strings(&out);
    // The leading newline terminates the 43 noise bytes left in the buffer.
    assert_eq!(lines[0], format!("ERROR|cmd={}|msg=Unknown command", "x".repeat(43)));
    assert_eq!(lines[1], "OK|cmd=LIST|active=1");
}

#[test]
fn heartbeat_on_the_second() {
    let mut e = Engine::new();
    let mem = sram();
    e.tick(10, b"STREAM 0x40801000 4 0\n", &mem);
    let out = e.tick(990, b"", &mem);
    assert!(out.is_empty());
    let out = e.tick(1000, b"", &mem);
    assert_eq!(lines_to_strings(&out), vec!["HEARTBEAT|ts=1000|active=1"]);
    let out = e.tick(1010, b"", &mem);
    assert!(out.is_empty());
    let out = e.tick(2000, b"", &mem);
    assert_eq!(lines_to_strings(&out), vec!["HEARTBEAT|ts=2000|active=1"]);
}

#[test]
fn commands_apply_before_sampling_in_the_same_tick() {
    let mut e = Engine::new();
    let mem = sram();
    // The registration and its first due sample land in one tick: the
    // response precedes the data record.
    let out = e.tick(100, b"STREAM 0x40801000 4 10\n", &mem);
    assert_eq!(
        lines_to_strings(&out),
        vec!["OK|cmd=STREAM|addr=0x40801000", "DATA|addr=0x40801000|hex=00000000"]
    );
}

#[test]
fn line_split_across_ticks_is_one_command() {
    let mut e = Engine::new();
    let mem = sram();
    let out = e.tick(10, b"PI", &mem);
    assert!(out.is_empty());
    let out = e.tick(20, b"NG\n", &mem);
    assert_eq!(lines_to_strings(&out), vec!["PONG"]);
}

#[test]
fn carriage_returns_are_tolerated() {
    let mut e = Engine::new();
    let mem = sram();
    let out = e.tick(10, b"PING\r\n", &mem);
    assert_eq!(lines_to_strings(&out), vec!["PONG"]);
}

#[test]
fn excess_stream_tokens_are_ignored() {
    let mut e = Engine::new();
    let mem = sram();
    let out = e.tick(10, b"STREAM 0x40801000 4 10 junk extra\n", &mem);
    assert_eq!(lines_to_strings(&out), vec!["OK|cmd=STREAM|addr=0x40801000"]);
}

#[test]
fn verbs_are_case_sensitive() {
    let mut e = Engine::new();
    let mem = sram();
    let out = e.tick(10, b"ping\n", &mem);
    assert_eq!(lines_to_strings(&out), vec!["ERROR|cmd=ping|msg=Unknown command"]);
}

#[test]
fn uppercase_hex_prefix_is_not_recognized() {
    let mut e = Engine::new();
    let mem = sram();
    // Only a lowercase 0x prefix selects hex; 0X fails the decimal parse.
    let out = e.tick(10, b"STREAM 0X40801000 4 10\n", &mem);
    assert_eq!(lines_to_strings(&out), vec!["ERROR|cmd=STREAM|msg=Invalid parameters"]);
}

#[test]
fn multiple_due_streams_sample_in_index_order() {
    let mut e = Engine::new();
    let mem = sram();
    e.tick(10, b"STREAM 0x40802000 1 10\nSTREAM 0x40801000 1 10\n", &mem);
    let out = e.tick(200, b"", &mem);
    assert_eq!(
        lines_to_strings(&out),
        vec!["DATA|addr=0x40802000|hex=00", "DATA|addr=0x40801000|hex=00"]
    );
}
