use lcu_bridge::discovery::{
    connect_info_from, parse_connect_info, parse_i32, search_connect_info, ConnectInfoError,
    PORT_PATTERN, TOKEN_PATTERN,
};

fn parameters(raw: &[u8]) -> Result<(i32, String), ConnectInfoError> {
    parse_connect_info(raw).map(|info| (info.port, info.token))
}

#[test]
fn command_line_with_token_and_port() {
    let raw = b"CommandLine\r\n\"C:/Riot Games/LeagueClientUx.exe\" \"--remoting-auth-token=abc-DEF_123\" \"--app-port=51234\" \"--locale=zh_CN\"\r\n";
    assert_eq!(parameters(raw), Ok((51234, "abc-DEF_123".to_string())));
}

#[test]
fn port_may_come_before_the_token() {
    let raw = b"--app-port=7 --remoting-auth-token=t";
    assert_eq!(parameters(raw), Ok((7, "t".to_string())));
}

#[test]
fn gbk_text_around_the_parameters_is_decoded() {
    let mut raw = vec![0xD6, 0xD0, 0xCE, 0xC4, b' '];
    raw.extend_from_slice(b"--remoting-auth-token=tok --app-port=443 ");
    raw.extend_from_slice(&[0xD6, 0xD0]);
    assert_eq!(parameters(&raw), Ok((443, "tok".to_string())));
}

#[test]
fn bytes_that_are_no_gbk_text_give_nothing() {
    let mut raw = b"--remoting-auth-token=tok --app-port=443 ".to_vec();
    raw.push(0xFF);
    assert_eq!(parameters(&raw), Err(ConnectInfoError::NotFound));
}

#[test]
fn missing_token_or_port_gives_nothing() {
    assert_eq!(parameters(b""), Err(ConnectInfoError::NotFound));
    assert_eq!(parameters(b"No Instance(s) Available."), Err(ConnectInfoError::NotFound));
    assert_eq!(parameters(b"--app-port=51234"), Err(ConnectInfoError::NotFound));
    assert_eq!(parameters(b"--remoting-auth-token=abc"), Err(ConnectInfoError::NotFound));
    assert_eq!(parameters(b"--remoting-auth-token= --app-port=51234"), Err(ConnectInfoError::NotFound));
    assert_eq!(parameters(b"--remoting-auth-token=abc --app-port=x"), Err(ConnectInfoError::NotFound));
}

#[test]
fn port_zero_gives_nothing() {
    assert_eq!(parameters(b"--remoting-auth-token=abc --app-port=0"), Err(ConnectInfoError::NotFound));
    assert_eq!(parameters(b"--remoting-auth-token=abc --app-port=000"), Err(ConnectInfoError::NotFound));
}

#[test]
fn port_out_of_range_is_an_error() {
    assert_eq!(
        parameters(b"--remoting-auth-token=abc --app-port=2147483648"),
        Err(ConnectInfoError::Port)
    );
    assert_eq!(parameters(b"--app-port=99999999999"), Err(ConnectInfoError::Port));
    assert_eq!(
        parameters(b"--remoting-auth-token=abc --app-port=2147483647"),
        Ok((2147483647, "abc".to_string()))
    );
    assert_eq!(
        parameters(b"--remoting-auth-token=abc --app-port=0051234"),
        Ok((51234, "abc".to_string()))
    );
}

#[test]
fn token_ends_at_the_first_character_that_is_no_word_character() {
    assert_eq!(
        parameters(b"--remoting-auth-token=ab.cd --app-port=1"),
        Ok((1, "ab".to_string()))
    );
    assert_eq!(
        parameters(b"--remoting-auth-token=first --remoting-auth-token=second --app-port=1 --app-port=2"),
        Ok((1, "first".to_string()))
    );
}

#[test]
fn connect_info_needs_both_parts() {
    let made = connect_info_from(Some("tok".to_string()), Some(5)).unwrap();
    assert_eq!((made.port, made.token), (5, "tok".to_string()));
    let negative = connect_info_from(Some("tok".to_string()), Some(-1)).unwrap();
    assert_eq!(negative.port, -1);
    assert_eq!(connect_info_from(None, Some(5)).err(), Some(ConnectInfoError::NotFound));
    assert_eq!(
        connect_info_from(Some("tok".to_string()), None).err(),
        Some(ConnectInfoError::NotFound)
    );
    assert_eq!(
        connect_info_from(Some(String::new()), Some(5)).err(),
        Some(ConnectInfoError::NotFound)
    );
    assert_eq!(
        connect_info_from(Some("tok".to_string()), Some(0)).err(),
        Some(ConnectInfoError::NotFound)
    );
    assert_eq!(connect_info_from(None, None).err(), Some(ConnectInfoError::NotFound));
}

#[test]
fn parse_i32_reads_signed_decimal_numbers() {
    assert_eq!(parse_i32("0"), Some(0));
    assert_eq!(parse_i32("51234"), Some(51234));
    assert_eq!(parse_i32("+17"), Some(17));
    assert_eq!(parse_i32("-17"), Some(-17));
    assert_eq!(parse_i32("-0"), Some(0));
    assert_eq!(parse_i32("000123"), Some(123));
    assert_eq!(parse_i32("2147483647"), Some(i32::MAX));
    assert_eq!(parse_i32("-2147483648"), Some(i32::MIN));
    assert_eq!(parse_i32("00000000000000000000007"), Some(7));
}

#[test]
fn parse_i32_rejects_everything_else() {
    assert_eq!(parse_i32(""), None);
    assert_eq!(parse_i32("-"), None);
    assert_eq!(parse_i32("+"), None);
    assert_eq!(parse_i32("+-5"), None);
    assert_eq!(parse_i32("2147483648"), None);
    assert_eq!(parse_i32("-2147483649"), None);
    assert_eq!(parse_i32("99999999999999999999"), None);
    assert_eq!(parse_i32(" 5"), None);
    assert_eq!(parse_i32("5 "), None);
    assert_eq!(parse_i32("12a"), None);
    assert_eq!(parse_i32("1.5"), None);
    assert_eq!(parse_i32("\u{ff11}\u{ff12}"), None);
    for text in ["0", "-1", "+1", "12345", "x", "", "2147483648", "-2147483648", "0x10"] {
        assert_eq!(parse_i32(text), text.parse::<i32>().ok());
    }
}

#[test]
fn port_without_decimal_digits_gives_nothing() {
    let raw = "--remoting-auth-token=abc --app-port=\u{0661}\u{0662}".as_bytes();
    assert_eq!(parameters(b"--remoting-auth-token=abc --app-port=12"), Ok((12, "abc".to_string())));
    assert_eq!(parameters(raw), Err(ConnectInfoError::NotFound));
}

#[test]
fn a_pattern_that_does_not_compile_is_an_error() {
    let raw = b"--remoting-auth-token=abc --app-port=12";
    assert_eq!(
        search_connect_info(raw, "(", PORT_PATTERN).err(),
        Some(ConnectInfoError::Pattern)
    );
    assert_eq!(
        search_connect_info(raw, TOKEN_PATTERN, "[").err(),
        Some(ConnectInfoError::Pattern)
    );
    assert_eq!(
        search_connect_info(&[0xFF], "(", "[").err(),
        Some(ConnectInfoError::NotFound)
    );
}

#[test]
fn search_with_other_patterns() {
    let found = search_connect_info(b"token:xyz port:808", r"token:(\w+)", r"port:(\d+)").unwrap();
    assert_eq!((found.port, found.token), (808, "xyz".to_string()));
    let ungrouped = search_connect_info(b"token:xyz port:808", r"token:\w+", r"port:(\d+)");
    assert_eq!(ungrouped.err(), Some(ConnectInfoError::NotFound));
    assert_eq!(TOKEN_PATTERN, r"--remoting-auth-token=([\w-]+)");
    assert_eq!(PORT_PATTERN, r"--app-port=(\d+)");
}
