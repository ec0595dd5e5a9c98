//! Reading the connection parameters out of the command line of the running
//! local application, as the operating system reports it.

use crate::transport::LolClientConnectInfo;
use vstd::prelude::*;

verus! {

/// Finds the authentication token in a command line.
pub const TOKEN_PATTERN: &'static str = r"--remoting-auth-token=([\w-]+)";

/// Finds the port in a command line.
pub const PORT_PATTERN: &'static str = r"--app-port=(\d+)";

/// Why no connection parameters were found.
#[derive(Clone, Copy, Debug, PartialEq, Eq, Structural)]
pub enum ConnectInfoError {
    /// The report is no GBK text, or it names no port or no token.
    NotFound,
    /// A search pattern was rejected.
    Pattern,
    /// The port that the command line names is no 32-bit number.
    Port,
}

#[verifier::external_type_specification]
#[verifier::external_body]
pub struct ExRegex(regex::Regex);

#[verifier::external_type_specification]
#[verifier::external_body]
pub struct ExRegexError(regex::Error);

/// The text that a sequence of bytes stands for in the GBK encoding; `None`
/// where the bytes are no GBK text.
pub uninterp spec fn gbk_text(bytes: Seq<u8>) -> Option<Seq<char>>;

/// The pattern text is one that `regex` compiles.
pub uninterp spec fn regex_accepts(pattern: Seq<char>) -> bool;

/// The pattern text that a compiled `regex::Regex` was made from.
pub uninterp spec fn regex_source(re: regex::Regex) -> Seq<char>;

/// What a search for a pattern in a text finds: the text of the first capture
/// group of the leftmost match, if there is a match and the group took part in
/// it.
pub uninterp spec fn regex_first_group(pattern: Seq<char>, text: Seq<char>) -> Option<Seq<char>>;

/// The value of a decimal digit.
pub open spec fn digit_value(c: char) -> Option<int> {
    if c == '0' {
        Some(0)
    } else if c == '1' {
        Some(1)
    } else if c == '2' {
        Some(2)
    } else if c == '3' {
        Some(3)
    } else if c == '4' {
        Some(4)
    } else if c == '5' {
        Some(5)
    } else if c == '6' {
        Some(6)
    } else if c == '7' {
        Some(7)
    } else if c == '8' {
        Some(8)
    } else if c == '9' {
        Some(9)
    } else {
        None
    }
}

/// The text is one or more decimal digits.
pub open spec fn is_digits(s: Seq<char>) -> bool {
    s.len() > 0 && forall|i: int| 0 <= i < s.len() ==> digit_value(#[trigger] s[i]) is Some
}

/// The number that a run of decimal digits stands for.
pub open spec fn digits_value(s: Seq<char>) -> int
    decreases s.len(),
{
    if s.len() == 0 {
        0
    } else {
        digits_value(s.drop_last()) * 10 + match digit_value(s.last()) {
            Some(d) => d,
            None => 0,
        }
    }
}

/// The 32-bit number that a text stands for: an optional sign, then one or
/// more decimal digits, with a value in range.
pub open spec fn i32_literal(s: Seq<char>) -> Option<int> {
    let signed = s.len() > 0 && (s[0] == '-' || s[0] == '+');
    let digits = if signed {
        s.skip(1)
    } else {
        s
    };
    let value = if s.len() > 0 && s[0] == '-' {
        -digits_value(digits)
    } else {
        digits_value(digits)
    };
    if is_digits(digits) && i32::MIN <= value <= i32::MAX {
        Some(value)
    } else {
        None
    }
}

/// `encoding::all::GBK.decode` with the strict trap: the outcome depends on
/// the bytes alone and is the text named by [`gbk_text`].
#[verifier::external_body]
fn gbk_decode(bytes: &[u8]) -> (r: Option<String>)
    ensures
        r is Some <==> gbk_text(bytes@) is Some,
        r is Some ==> r->0@ == gbk_text(bytes@)->0,
{
    encoding::Encoding::decode(encoding::all::GBK, bytes, encoding::DecoderTrap::Strict).ok()
}

/// `regex::Regex::new`: whether a pattern compiles depends on its text
/// alone, and the compiled value keeps that text.
#[verifier::external_body]
fn compile(pattern: &str) -> (r: Result<regex::Regex, regex::Error>)
    ensures
        r is Ok <==> regex_accepts(pattern@),
        r is Ok ==> regex_source(r->Ok_0) == pattern@,
{
    regex::Regex::new(pattern)
}

/// `regex::Regex::captures`, read at group one: what is found depends on the
/// pattern and the text alone and is the text named by [`regex_first_group`].
#[verifier::external_body]
fn first_group(re: &regex::Regex, text: &str) -> (r: Option<String>)
    ensures
        r is Some <==> regex_first_group(regex_source(*re), text@) is Some,
        r is Some ==> r->0@ == regex_first_group(regex_source(*re), text@)->0,
{
    match re.captures(text) {
        Some(groups) => match groups.get(1) {
            Some(found) => Some(found.as_str().to_owned()),
            None => None,
        },
        None => None,
    }
}

/// The value of a character as a decimal digit.
fn digit_of(c: char) -> (r: Option<i64>)
    ensures
        r is Some <==> digit_value(c) is Some,
        r is Some ==> r->0 == digit_value(c)->0,
{
    if c == '0' {
        Some(0)
    } else if c == '1' {
        Some(1)
    } else if c == '2' {
        Some(2)
    } else if c == '3' {
        Some(3)
    } else if c == '4' {
        Some(4)
    } else if c == '5' {
        Some(5)
    } else if c == '6' {
        Some(6)
    } else if c == '7' {
        Some(7)
    } else if c == '8' {
        Some(8)
    } else if c == '9' {
        Some(9)
    } else {
        None
    }
}

/// The value of a run of digits is never negative and never under the value
/// of one of its prefixes.
pub proof fn lemma_digits_value_grows(s: Seq<char>, i: int)
    requires
        0 <= i <= s.len(),
    ensures
        0 <= digits_value(s.subrange(0, i)) <= digits_value(s),
    decreases s.len(),
{
    if s.len() == 0 {
        assert(s.subrange(0, i) =~= s);
    } else if i == s.len() {
        assert(s.subrange(0, i) =~= s);
        lemma_digits_value_grows(s.drop_last(), i - 1);
        assert(s.drop_last().subrange(0, i - 1) =~= s.drop_last());
    } else {
        lemma_digits_value_grows(s.drop_last(), i);
        assert(s.drop_last().subrange(0, i) =~= s.subrange(0, i));
    }
}

/// Reads a 32-bit number: an optional sign followed by decimal digits, with a
/// value in range; anything else is no number.
pub fn parse_i32(text: &str) -> (r: Option<i32>)
    ensures
        r is Some <==> i32_literal(text@) is Some,
        r is Some ==> r->0 == i32_literal(text@)->0,
{
    let n = text.unicode_len();
    if n == 0 {
        return None;
    }
    let first = text.get_char(0);
    let negative = first == '-';
    let start: usize = if first == '-' || first == '+' {
        1
    } else {
        0
    };
    if start == n {
        return None;
    }
    let ghost digits = if start == 1 {
        text@.skip(1)
    } else {
        text@
    };
    let mut value: i64 = 0;
    let mut i: usize = start;
    while i < n
        invariant
            start <= i <= n,
            n == text@.len(),
            n > 0,
            negative == (text@[0] == '-'),
            (start == 1) == (text@[0] == '-' || text@[0] == '+'),
            start <= 1,
            digits == (if start == 1 {
                text@.skip(1)
            } else {
                text@
            }),
            forall|k: int| 0 <= k < i - start ==> digit_value(#[trigger] digits[k]) is Some,
            value == digits_value(digits.subrange(0, i - start)),
            0 <= value <= 2147483648,
        decreases n - i,
    {
        let ghost before = digits.subrange(0, i - start);
        let ghost upto = digits.subrange(0, i - start + 1);
        proof {
            assert(upto.drop_last() =~= before);
            assert(upto.last() == text@[i as int]);
            lemma_digits_value_grows(digits, i - start + 1);
        }
        match digit_of(text.get_char(i)) {
            Some(d) => {
                value = value * 10 + d;
                assert(value == digits_value(upto));
                if value > 2147483648 {
                    return None;
                }
            },
            None => {
                assert(digit_value(digits[i - start]) is None);
                return None;
            },
        }
        i = i + 1;
    }
    assert(digits.subrange(0, n - start) =~= digits);
    if negative {
        Some((-value) as i32)
    } else if value > 2147483647 {
        None
    } else {
        Some(value as i32)
    }
}

/// The connection parameters that a found token and a found port make up:
/// both must have been found, the token must not be empty and the port must
/// not be zero.
pub open spec fn connect_info_of(token: Option<Seq<char>>, port: Option<int>) -> Result<
    (int, Seq<char>),
    ConnectInfoError,
> {
    match (token, port) {
        (Some(t), Some(p)) => if p == 0 || t.len() == 0 {
            Err(ConnectInfoError::NotFound)
        } else {
            Ok((p, t))
        },
        _ => Err(ConnectInfoError::NotFound),
    }
}

/// The connection parameters that a search with two patterns finds in a
/// report of the operating system: the report must be GBK text and both
/// patterns must compile; the token is what the first pattern captures, the
/// port the number that the second captures.
pub open spec fn search_connect_info_spec(
    raw: Seq<u8>,
    token_pattern: Seq<char>,
    port_pattern: Seq<char>,
) -> Result<(int, Seq<char>), ConnectInfoError> {
    match gbk_text(raw) {
        None => Err(ConnectInfoError::NotFound),
        Some(line) => if !regex_accepts(token_pattern) || !regex_accepts(port_pattern) {
            Err(ConnectInfoError::Pattern)
        } else {
            let token = regex_first_group(token_pattern, line);
            match regex_first_group(port_pattern, line) {
                Some(digits) => match i32_literal(digits) {
                    Some(port) => connect_info_of(token, Some(port)),
                    None => Err(ConnectInfoError::Port),
                },
                None => connect_info_of(token, None),
            }
        },
    }
}

/// The connection parameters that a report of the operating system holds.
pub open spec fn parse_connect_info_spec(raw: Seq<u8>) -> Result<(int, Seq<char>), ConnectInfoError> {
    search_connect_info_spec(raw, TOKEN_PATTERN@, PORT_PATTERN@)
}

/// The plain form of a result that holds connection parameters.
pub open spec fn connect_info_view(r: Result<LolClientConnectInfo, ConnectInfoError>) -> Result<
    (int, Seq<char>),
    ConnectInfoError,
> {
    match r {
        Ok(info) => Ok((info.port as int, info.token@)),
        Err(e) => Err(e),
    }
}

/// Makes up the connection parameters from what the searches found.
pub fn connect_info_from(token: Option<String>, port: Option<i32>) -> (r: Result<
    LolClientConnectInfo,
    ConnectInfoError,
>)
    ensures
        connect_info_view(r) == connect_info_of(
            match token {
                Some(t) => Some(t@),
                None => None,
            },
            match port {
                Some(p) => Some(p as int),
                None => None,
            },
        ),
{
    match (token, port) {
        (Some(token), Some(port)) => {
            if port == 0 || token.as_str().unicode_len() == 0 {
                Err(ConnectInfoError::NotFound)
            } else {
                Ok(LolClientConnectInfo { port, token })
            }
        },
        _ => Err(ConnectInfoError::NotFound),
    }
}

/// Searches a report of the operating system for the connection parameters,
/// with a pattern whose first group captures the token and one whose first
/// group captures the port.
pub fn search_connect_info(raw: &[u8], token_pattern: &str, port_pattern: &str) -> (r: Result<
    LolClientConnectInfo,
    ConnectInfoError,
>)
    ensures
        connect_info_view(r) == search_connect_info_spec(raw@, token_pattern@, port_pattern@),
{
    let line = match gbk_decode(raw) {
        Some(line) => line,
        None => { return Err(ConnectInfoError::NotFound); },
    };
    let token_search = match compile(token_pattern) {
        Ok(re) => re,
        Err(_) => { return Err(ConnectInfoError::Pattern); },
    };
    let port_search = match compile(port_pattern) {
        Ok(re) => re,
        Err(_) => { return Err(ConnectInfoError::Pattern); },
    };
    let token = first_group(&token_search, line.as_str());
    let port = match first_group(&port_search, line.as_str()) {
        Some(digits) => match parse_i32(digits.as_str()) {
            Some(port) => Some(port),
            None => { return Err(ConnectInfoError::Port); },
        },
        None => None,
    };
    connect_info_from(token, port)
}

/// Reads the connection parameters out of the bytes that the operating system
/// reported for the running application: the bytes are GBK text, the token
/// follows `--remoting-auth-token=` and the port follows `--app-port=`.
pub fn parse_connect_info(raw: &[u8]) -> (r: Result<LolClientConnectInfo, ConnectInfoError>)
    ensures
        connect_info_view(r) == parse_connect_info_spec(raw@),
{
    search_connect_info(raw, TOKEN_PATTERN, PORT_PATTERN)
}

} // verus!
