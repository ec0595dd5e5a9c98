//! What a connection to the local application is opened with: the addresses,
//! the authorization header and the subscribe request.

use crate::constants::{Event, Operator, Value};
use vstd::prelude::*;
use vstd::string::StringExecFns;
use vstd::string::StringSliceAdditionalSpecFns;

verus! {

/// Port and token of the running local application.
#[derive(Clone, Debug)]
pub struct LolClientConnectInfo {
    pub port: i32,
    pub token: String,
}

/// The character of a decimal digit.
pub open spec fn digit_char(d: int) -> char {
    if d == 0 {
        '0'
    } else if d == 1 {
        '1'
    } else if d == 2 {
        '2'
    } else if d == 3 {
        '3'
    } else if d == 4 {
        '4'
    } else if d == 5 {
        '5'
    } else if d == 6 {
        '6'
    } else if d == 7 {
        '7'
    } else if d == 8 {
        '8'
    } else {
        '9'
    }
}

/// The decimal digits of a natural number, without leading zeros.
pub open spec fn decimal_nat(n: nat) -> Seq<char>
    decreases n,
{
    if n < 10 {
        seq![digit_char(n as int)]
    } else {
        decimal_nat(n / 10).push(digit_char((n % 10) as int))
    }
}

/// The decimal form of an integer, with a minus sign where it is negative.
pub open spec fn decimal(n: int) -> Seq<char> {
    if n < 0 {
        seq!['-'] + decimal_nat((-n) as nat)
    } else {
        decimal_nat(n as nat)
    }
}

/// The text that the standard base64 alphabet, with padding, gives for a
/// sequence of bytes.
pub uninterp spec fn base64_standard(bytes: Seq<u8>) -> Seq<char>;

/// `base64::engine::general_purpose::STANDARD.encode`: the encoding depends
/// on the bytes alone and is the text named by [`base64_standard`].
#[verifier::external_body]
fn encode_standard(bytes: &[u8]) -> (r: String)
    ensures
        r@ == base64_standard(bytes@),
{
    base64::Engine::encode(&base64::engine::general_purpose::STANDARD, bytes)
}

/// The text of one decimal digit.
fn digit_str(d: u32) -> (r: &'static str)
    requires
        d < 10,
    ensures
        r@ == seq![digit_char(d as int)],
{
    proof {
        reveal_strlit("0");
        reveal_strlit("1");
        reveal_strlit("2");
        reveal_strlit("3");
        reveal_strlit("4");
        reveal_strlit("5");
        reveal_strlit("6");
        reveal_strlit("7");
        reveal_strlit("8");
        reveal_strlit("9");
    }
    let r = if d == 0 {
        "0"
    } else if d == 1 {
        "1"
    } else if d == 2 {
        "2"
    } else if d == 3 {
        "3"
    } else if d == 4 {
        "4"
    } else if d == 5 {
        "5"
    } else if d == 6 {
        "6"
    } else if d == 7 {
        "7"
    } else if d == 8 {
        "8"
    } else {
        "9"
    };
    assert(r@ =~= seq![digit_char(d as int)]);
    r
}

/// Appends the decimal digits of a number to a text.
fn push_decimal(text: &mut String, n: u32)
    ensures
        final(text)@ == old(text)@ + decimal_nat(n as nat),
    decreases n,
{
    if n >= 10 {
        push_decimal(text, n / 10);
    }
    text.append(digit_str(n % 10));
    assert(text@ =~= old(text)@ + decimal_nat(n as nat));
}

/// The decimal form of a number.
pub fn decimal_string(n: i32) -> (r: String)
    ensures
        r@ == decimal(n as int),
{
    proof {
        reveal_strlit("-");
        reveal_strlit("");
    }
    let mut text = String::from_str(if n < 0 { "-" } else { "" });
    let magnitude: u32 = if n < 0 {
        (-(n as i64)) as u32
    } else {
        n as u32
    };
    push_decimal(&mut text, magnitude);
    assert(text@ =~= decimal(n as int));
    text
}

/// The credentials that the authorization header encodes.
pub open spec fn credentials(username: Seq<char>, password: Seq<char>) -> Seq<char> {
    username + seq![':'] + password
}

/// The value of the `Authorization` header for a user and a password: the
/// word `Basic`, a space, and the base64 form of `username:password`.
pub fn gen_lcu_auth(username: &str, password: &str) -> (r: String)
    ensures
        r@ == "Basic "@ + base64_standard(
            vstd::utf8::encode_utf8(credentials(username@, password@)),
        ),
{
    proof {
        reveal_strlit(":");
    }
    let mut joined = String::from_str(username);
    joined.append(":");
    joined.append(password);
    assert(joined@ =~= credentials(username@, password@));
    let encoded = encode_standard(joined.as_str().as_bytes());
    let mut header = String::from_str("Basic ");
    header.append(encoded.as_str());
    header
}

/// The user name under which the local application accepts the token.
pub const AUTH_USER: &'static str = "riot";

/// The `Authorization` header for a token of the local application.
pub fn authorization(token: &str) -> (r: String)
    ensures
        r@ == "Basic "@ + base64_standard(
            vstd::utf8::encode_utf8(credentials(AUTH_USER@, token@)),
        ),
{
    gen_lcu_auth(AUTH_USER, token)
}

/// The address of the push-event channel on the loopback interface.
pub fn websocket_url(port: i32) -> (r: String)
    ensures
        r@ == "wss://127.0.0.1:"@ + decimal(port as int) + "/"@,
{
    let digits = decimal_string(port);
    let mut url = String::from_str("wss://127.0.0.1:");
    url.append(digits.as_str());
    url.append("/");
    url
}

/// The base address of the REST surface on the loopback interface.
pub fn http_base_url(port: i32) -> (r: String)
    ensures
        r@ == "https://127.0.0.1:"@ + decimal(port as int),
{
    let digits = decimal_string(port);
    let mut url = String::from_str("https://127.0.0.1:");
    url.append(digits.as_str());
    url
}

/// The address of a command of the REST surface: the base address followed
/// by the command's path.
pub fn command_url(base: &str, path: &str) -> (r: String)
    ensures
        r@ == base@ + path@,
{
    let mut url = String::from_str(base);
    url.append(path);
    url
}

/// The request that subscribes to every JSON-API event: the two-element
/// array `[5, "OnJsonApiEvent"]`.
pub fn subscribe_message() -> (r: String)
    ensures
        r@ == "["@ + decimal(Operator::Sub.code()) + ", \""@ + Event::OnJsonApiEvent.name()
            + "\"]"@,
        r@ == "[5, \"OnJsonApiEvent\"]"@,
{
    let code = decimal_string(Operator::Sub.value());
    let mut message = String::from_str("[");
    message.append(code.as_str());
    message.append(", \"");
    message.append(Event::OnJsonApiEvent.value());
    message.append("\"]");
    proof {
        reveal_strlit("[");
        reveal_strlit(", \"");
        reveal_strlit("OnJsonApiEvent");
        reveal_strlit("\"]");
        reveal_strlit("[5, \"OnJsonApiEvent\"]");
        assert(decimal(5) =~= seq!['5']);
        assert(message@ =~= "[5, \"OnJsonApiEvent\"]"@);
    }
    message
}

} // verus!
