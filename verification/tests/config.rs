use sqlxrg::cli::{parse_cli, parse_port};

fn args(list: &[&str]) -> Vec<String> {
    list.iter().map(|s| s.to_string()).collect()
}

#[test]
fn ports_parse_as_decimal_u16() {
    assert_eq!(parse_port("12321"), Some(12321));
    assert_eq!(parse_port("0"), Some(0));
    assert_eq!(parse_port("65535"), Some(65535));
    assert_eq!(parse_port("00080"), Some(80));
    assert_eq!(parse_port("65536"), None);
    assert_eq!(parse_port("123456"), None);
    assert_eq!(parse_port(""), None);
    assert_eq!(parse_port("12a"), None);
    assert_eq!(parse_port("-1"), None);
    assert_eq!(parse_port("１２"), None);
}

#[test]
fn the_command_line_has_defaults() {
    let cfg = parse_cli(&args(&["sqlxrg"])).unwrap();
    assert_eq!(cfg.bind_host.as_str(), "0.0.0.0");
    assert_eq!(cfg.port, 12321);

    let cfg = parse_cli(&vec![]).unwrap();
    assert_eq!(cfg.bind_host.as_str(), "0.0.0.0");
    assert_eq!(cfg.port, 12321);
}

#[test]
fn the_command_line_sets_host_and_port() {
    let cfg = parse_cli(&args(&["sqlxrg", "--bind-host", "127.0.0.1", "--port", "8080"])).unwrap();
    assert_eq!(cfg.bind_host.as_str(), "127.0.0.1");
    assert_eq!(cfg.port, 8080);

    let cfg = parse_cli(&args(&["sqlxrg", "-p", "9000"])).unwrap();
    assert_eq!(cfg.bind_host.as_str(), "0.0.0.0");
    assert_eq!(cfg.port, 9000);

    // the last occurrence wins
    let cfg = parse_cli(&args(&["sqlxrg", "-p", "1", "-p", "2"])).unwrap();
    assert_eq!(cfg.port, 2);
}

#[test]
fn the_command_line_refuses_what_it_does_not_know() {
    assert!(parse_cli(&args(&["sqlxrg", "--verbose"])).is_err());
    assert!(parse_cli(&args(&["sqlxrg", "--port"])).is_err());
    assert!(parse_cli(&args(&["sqlxrg", "--port", "high"])).is_err());
    assert!(parse_cli(&args(&["sqlxrg", "--bind-host"])).is_err());
    assert!(parse_cli(&args(&["sqlxrg", "--port", "70000"])).is_err());
}
