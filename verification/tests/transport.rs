use lcu_bridge::lcu_api;
use lcu_bridge::transport::{
    authorization, command_url, decimal_string, gen_lcu_auth, http_base_url, subscribe_message,
    websocket_url, AUTH_USER,
};

#[test]
fn authorization_header_is_basic_base64() {
    assert_eq!(gen_lcu_auth("riot", "abc"), "Basic cmlvdDphYmM=");
}

#[test]
fn authorization_header_encodes_the_utf8_bytes() {
    assert_eq!(gen_lcu_auth("riot", "p\u{e4}ssword"), "Basic cmlvdDpww6Rzc3dvcmQ=");
}

#[test]
fn authorization_header_of_empty_credentials() {
    assert_eq!(gen_lcu_auth("", ""), "Basic Og==");
}

#[test]
fn websocket_url_names_the_loopback_port() {
    assert_eq!(websocket_url(12345), "wss://127.0.0.1:12345/");
    assert_eq!(websocket_url(0), "wss://127.0.0.1:0/");
    assert_eq!(websocket_url(-7), "wss://127.0.0.1:-7/");
    assert_eq!(websocket_url(i32::MAX), "wss://127.0.0.1:2147483647/");
    assert_eq!(websocket_url(i32::MIN), "wss://127.0.0.1:-2147483648/");
}

#[test]
fn http_base_url_names_the_loopback_port() {
    assert_eq!(http_base_url(50123), "https://127.0.0.1:50123");
    assert_eq!(http_base_url(100), "https://127.0.0.1:100");
}

#[test]
fn command_url_joins_base_and_path() {
    assert_eq!(
        command_url(&http_base_url(50123), lcu_api::GAME_ACCEPT),
        "https://127.0.0.1:50123/lol-matchmaking/v1/ready-check/accept"
    );
    assert_eq!(
        command_url("https://127.0.0.1:1", lcu_api::PLAY_AGAIN),
        "https://127.0.0.1:1/lol-lobby/v2/play-again"
    );
    assert_eq!(
        command_url("", lcu_api::GAME_SEARCH),
        "/lol-lobby/v2/lobby/matchmaking/search"
    );
}

#[test]
fn subscribe_message_is_the_fixed_pair() {
    assert_eq!(subscribe_message(), "[5, \"OnJsonApiEvent\"]");
}

#[test]
fn api_paths_are_fixed() {
    assert_eq!(lcu_api::GAMEFLOW_PHASE, "/lol-gameflow/v1/gameflow-phase");
    assert_eq!(lcu_api::HONOR_PLAYER, "/lol-honor-v2/v1/honor-player");
    assert_eq!(lcu_api::JSON_MEDIA_TYPE, "application/json; charset=utf-8");
}

#[test]
fn authorization_uses_the_fixed_user() {
    assert_eq!(authorization("abc"), "Basic cmlvdDphYmM=");
    assert_eq!(AUTH_USER, "riot");
}

#[test]
fn decimal_string_is_the_usual_decimal_form() {
    assert_eq!(decimal_string(0), "0");
    assert_eq!(decimal_string(7), "7");
    assert_eq!(decimal_string(10), "10");
    assert_eq!(decimal_string(1234567890), "1234567890");
    assert_eq!(decimal_string(-1), "-1");
    assert_eq!(decimal_string(-40), "-40");
    assert_eq!(decimal_string(i32::MAX), "2147483647");
    assert_eq!(decimal_string(i32::MIN), "-2147483648");
    for n in [-100001, -99, -10, -9, 9, 99, 100, 101, 65535, 50123] {
        assert_eq!(decimal_string(n), n.to_string());
    }
}
