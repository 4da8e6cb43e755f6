use kanban_automation::port_file::{instance_name, parse_port, port_file_name, valid_instance_name};

#[test]
fn instance_names_cannot_escape_the_temp_directory() {
    assert!(valid_instance_name("vibe-kanban-canary_1.2"));
    assert!(!valid_instance_name("../production"));
    assert!(!valid_instance_name("canary/one"));
    assert!(!valid_instance_name(""));
}

#[test]
fn the_parent_directory_name_is_refused() {
    assert!(!valid_instance_name(".."));
    assert!(valid_instance_name("."));
    assert!(valid_instance_name("..."));
    assert!(valid_instance_name(".hidden"));
    assert!(instance_name(Some("..".to_string()), "vibe-kanban").is_err());
}

#[test]
fn configured_instance_name_wins_over_the_default() {
    assert_eq!(instance_name(None, "vibe-kanban"), Ok("vibe-kanban".to_string()));
    assert_eq!(instance_name(Some("canary".to_string()), "vibe-kanban"), Ok("canary".to_string()));
    let refused = instance_name(Some("../x".to_string()), "vibe-kanban").unwrap_err();
    assert_eq!(
        refused.message,
        "VIBE_KANBAN_INSTANCE_ID may contain only ASCII letters, numbers, '-', '_' and '.'"
    );
    assert!(instance_name(None, "é").is_err());
}

#[test]
fn port_file_is_named_after_the_instance() {
    assert_eq!(port_file_name("vibe-kanban"), "vibe-kanban.port");
}

#[test]
fn bare_port_numbers_are_read_like_str_parse() {
    assert_eq!(parse_port("8080"), Some(8080));
    assert_eq!(parse_port("  8080\n"), Some(8080));
    assert_eq!(parse_port("+42"), Some(42));
    assert_eq!(parse_port("0"), Some(0));
    assert_eq!(parse_port("65535"), Some(65535));
    assert_eq!(parse_port("65536"), None);
    assert_eq!(parse_port(""), None);
    assert_eq!(parse_port("+"), None);
    assert_eq!(parse_port("-1"), None);
    assert_eq!(parse_port("80 80"), None);
    assert_eq!(parse_port("\u{3000}443\u{2003}"), Some(443));
    for text in ["8080", " 1 ", "99999", "12a", "007"] {
        assert_eq!(parse_port(text), text.trim().parse::<u16>().ok());
    }
}
