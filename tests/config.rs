use file2link::config::{
    fetch_bot_token, fetch_domain, fetch_enable_files_route, fetch_pipe_path, fetch_server_port,
    fetch_telegram_api, Config,
};

#[test]
fn test_fetch_bot_token_success() {
    let token = fetch_bot_token(Some("test_token".to_string()));

    assert_eq!(token, Ok("test_token".to_string()));
}

#[test]
fn test_fetch_bot_token_failure() {
    let token = fetch_bot_token(None);

    assert_eq!(token, Err("environment variable 'BOT_TOKEN' is not set".to_string()));
}

#[test]
fn test_fetch_server_port() {
    let port = fetch_server_port(Some("9090".to_string()));

    assert_eq!(port, 9090);
}

#[test]
fn test_fetch_server_port_default() {
    let port = fetch_server_port(None);

    assert_eq!(port, 8080);
}

#[test]
fn test_fetch_domain() {
    let domain = fetch_domain(Some("http://example.com".to_string()), None);

    assert_eq!(domain, "http://example.com/");
}

#[test]
fn test_fetch_domain_default() {
    let domain = fetch_domain(None, None);
    let port = fetch_server_port(None);

    assert_eq!(domain, format!("http://localhost:{port}/"));
}

#[test]
fn test_fetch_telegram_api() {
    let api_url = fetch_telegram_api(Some("http://api.test.com".to_string()));

    assert_eq!(api_url, "http://api.test.com");
}

#[test]
fn test_fetch_telegram_api_default() {
    let api_url = fetch_telegram_api(None);

    assert_eq!(api_url, "https://api.telegram.org");
}

#[test]
fn test_fetch_pipe_path() {
    let pipe_path = fetch_pipe_path(Some("/custom/path.pipe".to_string()));

    assert_eq!(pipe_path, "/custom/path.pipe");
}

#[test]
fn test_fetch_pipe_path_default() {
    let pipe_path = fetch_pipe_path(None);

    assert_eq!(pipe_path, "/tmp/file2link.pipe");
}

#[test]
fn test_fetch_enable_files_route_true() {
    let enable_files_route = fetch_enable_files_route(Some("true".to_string()));

    assert!(enable_files_route);
}

#[test]
fn test_fetch_enable_files_route_false() {
    let enable_files_route = fetch_enable_files_route(Some("false".to_string()));

    assert!(!enable_files_route);
}

#[test]
fn test_fetch_enable_files_route_default() {
    let enable_files_route = fetch_enable_files_route(None);

    assert!(!enable_files_route);
}

#[test]
fn test_config_new() {
    let config = Config::new(
        Some("test_token".to_string()),
        Some("9090".to_string()),
        Some("http://example.com".to_string()),
        Some("http://api.test.com".to_string()),
        Some("/custom/path.pipe".to_string()),
        Some("true".to_string()),
    );

    assert_eq!(config.bot_token(), Ok("test_token".to_string()));
    assert_eq!(config.server_port(), 9090);
    assert_eq!(config.domain(), "http://example.com/");
    assert_eq!(config.telegram_api_url(), "http://api.test.com");
    assert_eq!(config.pipe_path(), "/custom/path.pipe");
    assert!(config.enable_files_route());
}

#[test]
fn server_port_parsing_edges() {
    assert_eq!(fetch_server_port(Some("+81".to_string())), 81);
    assert_eq!(fetch_server_port(Some("-5".to_string())), -5);
    assert_eq!(fetch_server_port(Some("40000".to_string())), 8080);
    assert_eq!(fetch_server_port(Some(" 80".to_string())), 8080);
    assert_eq!(fetch_server_port(Some("".to_string())), 8080);
}

#[test]
fn domain_default_uses_port_and_keeps_slash() {
    assert_eq!(fetch_domain(None, Some("9090".to_string())), "http://localhost:9090/");
    assert_eq!(fetch_domain(Some("https://x.org/".to_string()), None), "https://x.org/");
}

#[test]
fn files_route_needs_exact_true() {
    assert!(!fetch_enable_files_route(Some("TRUE".to_string())));
    assert!(!fetch_enable_files_route(Some("yes".to_string())));
}
