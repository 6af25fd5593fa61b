use pullpiri::logservice::{console_line, level_letter, record_log, LogEvent, LOG_HISTORY_CAPACITY};
use pullpiri::monitoring::ids::{generate_board_id, generate_soc_id, parse_ipv4};
use std::collections::VecDeque;

fn event(i: usize) -> LogEvent {
    LogEvent::from_record(format!("t{}", i), 3, "tag".to_string(), format!("m{}", i))
}

#[test]
fn log_levels() {
    assert_eq!(level_letter(1), "V");
    assert_eq!(level_letter(6), "F");
    assert_eq!(level_letter(0), "?");
    assert_eq!(event(0).level, "I");
}

#[test]
fn log_history_is_bounded() {
    let mut h: VecDeque<LogEvent> = VecDeque::new();
    for i in 0..(LOG_HISTORY_CAPACITY + 5) {
        record_log(&mut h, event(i));
    }
    assert_eq!(h.len(), LOG_HISTORY_CAPACITY);
    assert_eq!(h.front().unwrap().timestamp, "t5");
    assert_eq!(h.back().unwrap().timestamp, format!("t{}", LOG_HISTORY_CAPACITY + 4));
}

#[test]
fn log_console_line() {
    let e = LogEvent {
        timestamp: "2024-01-01 00:00:00.000".to_string(),
        level: "W".to_string(),
        tag: "apiserver".to_string(),
        message: "hello".to_string(),
    };
    let expected = format!("{:<24} │ {:<2} │ {:<30} │ {}", e.timestamp, e.level, e.tag, e.message);
    assert_eq!(console_line(&e), expected);
}

#[test]
fn test_generate_soc_id() {
    let ip = "192.168.10.201";
    let soc_id = generate_soc_id(ip).unwrap();
    assert_eq!(soc_id, "192.168.10.200");

    let ip2 = "192.168.10.219";
    let soc_id2 = generate_soc_id(ip2).unwrap();
    assert_eq!(soc_id2, "192.168.10.210");
}

#[test]
fn test_generate_board_id() {
    let board_id = generate_board_id("192.168.10.201").unwrap();
    assert_eq!(board_id, "192.168.10.200");
    let board_id2 = generate_board_id("192.168.10.99").unwrap();
    assert_eq!(board_id2, "192.168.10.0");
}

#[test]
fn ipv4_parsing() {
    let valid = [
        ("1.2.3.4", (1, 2, 3, 4)),
        ("0.0.0.0", (0, 0, 0, 0)),
        ("255.255.255.255", (255, 255, 255, 255)),
        ("0.10.100.199", (0, 10, 100, 199)),
    ];
    for (c, o) in valid {
        assert_eq!(parse_ipv4(c), Some(o), "case {:?}", c);
    }
    let invalid = [
        "256.1.1.1", "01.2.3.4", "1.2.3", "1.2.3.4.5", "", "1..2.3", "a.b.c.d", " 1.2.3.4", "1.2.3.4 ", "10.00.0.1",
        "192.168.010.1", "1234.1.1.1",
    ];
    for c in invalid {
        assert_eq!(parse_ipv4(c), None, "case {:?}", c);
    }
    assert_eq!(generate_soc_id("x").unwrap_err(), "Invalid IP address: x");
}
