use json_validator::config::{parse_count, ServerConfig};

#[test]
fn parse_count_reads_plain_numerals() {
    assert_eq!(parse_count("0"), Some(0));
    assert_eq!(parse_count("1"), Some(1));
    assert_eq!(parse_count("8"), Some(8));
    assert_eq!(parse_count("16"), Some(16));
    assert_eq!(parse_count("007"), Some(7));
    assert_eq!(parse_count("+4"), Some(4));
    assert_eq!(parse_count("+0"), Some(0));
    assert_eq!(parse_count("1234567890"), Some(1234567890));
}

#[test]
fn parse_count_refuses_everything_else() {
    for text in ["", "+", "-", "-1", "-0", "++1", "+-1", "1+", "4 ", " 4", "4.0", "0x10", "1e3",
        "four", "1_000", "١٢", "４", "12a", "a12", "\u{a0}3"]
    {
        assert_eq!(parse_count(text), None, "{:?}", text);
    }
}

#[test]
fn parse_count_stops_at_the_largest_count() {
    let largest = usize::MAX.to_string();
    assert_eq!(parse_count(&largest), Some(usize::MAX));
    assert_eq!(parse_count(&format!("+000{}", largest)), Some(usize::MAX));
    let mut beyond = largest.clone();
    let last = beyond.pop().unwrap();
    beyond.push(char::from_digit(last.to_digit(10).unwrap() + 1, 10).unwrap());
    assert_eq!(parse_count(&beyond), None);
    assert_eq!(parse_count(&format!("{}0", largest)), None);
    assert_eq!(parse_count(&format!("{}x", largest)), None);
    assert_eq!(parse_count("99999999999999999999999999999999999999999"), None);
}

#[test]
fn parse_count_agrees_with_std() {
    let pieces = ["", "+", "-", "0", "1", "9", "42", " ", "a", "٣", "18446744073709551615",
        "18446744073709551616", "4294967295", "4294967296"];
    for a in pieces {
        for b in pieces {
            let text = format!("{}{}", a, b);
            assert_eq!(parse_count(&text), text.parse::<usize>().ok(), "{:?}", text);
        }
    }
}

#[test]
fn settings_default_when_absent() {
    let config = ServerConfig::from_settings(None, None, None, 6);
    assert_eq!(
        config,
        ServerConfig { host: "0.0.0.0".to_string(), port: "8080".to_string(), workers: 6 }
    );
    assert_eq!(config.bind_address(), "0.0.0.0:8080");
}

#[test]
fn settings_are_taken_when_present() {
    let config = ServerConfig::from_settings(
        Some("127.0.0.1".to_string()),
        Some("9000".to_string()),
        Some("3".to_string()),
        6,
    );
    assert_eq!(
        config,
        ServerConfig { host: "127.0.0.1".to_string(), port: "9000".to_string(), workers: 3 }
    );
    assert_eq!(config.bind_address(), "127.0.0.1:9000");
}

#[test]
fn unreadable_worker_count_falls_back_to_the_available_units() {
    for text in ["", "many", "-2", "2.5", " 2", "99999999999999999999999"] {
        let config = ServerConfig::from_settings(None, None, Some(text.to_string()), 12);
        assert_eq!(config.workers, 12, "{:?}", text);
    }
    let zero = ServerConfig::from_settings(None, None, Some("0".to_string()), 12);
    assert_eq!(zero.workers, 0);
}

#[test]
fn host_and_port_are_joined_unchanged() {
    let config = ServerConfig::from_settings(
        Some("::1".to_string()),
        Some("http".to_string()),
        None,
        1,
    );
    assert_eq!(config.bind_address(), "::1:http");
    let empty = ServerConfig::from_settings(Some(String::new()), Some(String::new()), None, 1);
    assert_eq!(empty.bind_address(), ":");
}
