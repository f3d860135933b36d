//! The settings of the service, worked out from the values that its
//! surroundings give.

use crate::utils::text::{optional_text, texts};
use vstd::prelude::*;

verus! {

/// Where browsers may call from when nothing else is set.
pub const DEFAULT_CORS_ORIGIN: &'static str = "http://localhost:4200";

/// The address to listen on when nothing else is set.
pub const DEFAULT_SERVER_HOST: &'static str = "127.0.0.1";

/// The port to listen on when nothing else is set.
pub const DEFAULT_SERVER_PORT: u16 = 8080;

/// How many connections to the database the service keeps at most. Requests
/// beyond that wait for a connection.
pub const MAX_CONNECTIONS: u32 = 10;

/// For how many seconds a browser may keep the answer to a preflight request.
pub const CORS_MAX_AGE: usize = 3600;

/// The settings of the service.
#[derive(Debug, PartialEq, Eq)]
pub struct AppConfig {
    pub database_url: String,
    pub cors_origin: String,
    pub server_host: String,
    pub server_port: u16,
}

/// Why the settings cannot be worked out.
#[derive(Debug, PartialEq, Eq, Structural)]
pub enum ConfigError {
    /// No address of the database is set.
    MissingDatabaseUrl,
    /// The port that is set is no port number.
    InvalidServerPort,
}

/// Whether `c` is one of the digits `0` to `9`.
pub open spec fn is_digit(c: char) -> bool {
    0x30 <= c as u32 <= 0x39
}

/// The number that a text of digits writes in base ten.
pub open spec fn digits_value(digits: Seq<char>) -> nat
    decreases digits.len(),
{
    if digits.len() == 0 {
        0
    } else {
        digits_value(digits.drop_last()) * 10 + (digits.last() as u32 - 0x30) as nat
    }
}

/// The digits of a port number as it is written: all of the text, but for a
/// leading `+`.
pub open spec fn port_digits(text: Seq<char>) -> Seq<char> {
    if text.len() > 0 && text[0] == '+' {
        text.skip(1)
    } else {
        text
    }
}

/// The port number that `text` writes: one digit or more, a `+` before them
/// if at all, nothing else, and a value that a port number can have.
pub open spec fn parsed_port(text: Seq<char>) -> Option<u16> {
    let digits = port_digits(text);
    if digits.len() > 0 && (forall|i: int| 0 <= i < digits.len() ==> is_digit(#[trigger] digits[i]))
        && digits_value(digits) <= u16::MAX {
        Some(digits_value(digits) as u16)
    } else {
        None
    }
}

/// A text of digits is worth no less than any text that it begins with.
proof fn lemma_digits_value_grows(digits: Seq<char>, n: int)
    requires
        0 <= n <= digits.len(),
        forall|i: int| 0 <= i < digits.len() ==> is_digit(#[trigger] digits[i]),
    ensures
        digits_value(digits.take(n)) <= digits_value(digits),
    decreases digits.len() - n,
{
    if n < digits.len() {
        let longer = digits.take(n + 1);
        assert(longer.drop_last() == digits.take(n));
        assert(is_digit(digits[n]));
        lemma_digits_value_grows(digits, n + 1);
    } else {
        assert(digits.take(n) == digits);
    }
}

/// Reads a port number: digits, with a `+` before them or without, worth
/// 65535 at most.
pub fn parse_port(text: &str) -> (r: Option<u16>)
    ensures
        r == parsed_port(text@),
{
    let mut value: u32 = 0;
    let mut any = false;
    let mut first = true;
    let ghost digits = port_digits(text@);
    let ghost sign: int = if text@.len() > 0 && text@[0] == '+' { 1 } else { 0 };
    for c in chars: text.chars()
        invariant
            chars.seq() == text@,
            digits == port_digits(text@),
            sign == (if text@.len() > 0 && text@[0] == '+' { 1int } else { 0int }),
            first == (chars.index() == 0),
            any == (chars.index() > sign),
            forall|i: int| 0 <= i < chars.index() - sign ==> is_digit(#[trigger] digits[i]),
            chars.index() >= sign ==> value == digits_value(digits.take(chars.index() - sign)),
            chars.index() < sign ==> value == 0,
            value <= u16::MAX,
    {
        if first && c == '+' {
            assert(digits.take(0) == Seq::<char>::empty());
        } else {
            let ghost count = chars.index() - sign;
            assert(digits[count] == c);
            let code: u32 = c as u32;
            if code < 0x30 || code > 0x39 {
                assert(!is_digit(digits[count]));
                return None;
            }
            assert(digits.take(count + 1).drop_last() == digits.take(count));
            assert(digits.take(count + 1).last() == c);
            value = value * 10 + (code - 0x30);
            any = true;
            if value > 0xFFFF {
                proof {
                    if forall|i: int| 0 <= i < digits.len() ==> is_digit(#[trigger] digits[i]) {
                        lemma_digits_value_grows(digits, count + 1);
                    }
                }
                return None;
            }
        }
        first = false;
    }
    assert(digits.take(digits.len() as int) == digits);
    if any {
        Some(value as u16)
    } else {
        None
    }
}

/// What an [`AppConfig`] holds, as mathematical values.
pub struct AppConfigModel {
    pub database_url: Seq<char>,
    pub cors_origin: Seq<char>,
    pub server_host: Seq<char>,
    pub server_port: u16,
}

impl View for AppConfig {
    type V = AppConfigModel;

    open spec fn view(&self) -> AppConfigModel {
        AppConfigModel {
            database_url: self.database_url@,
            cors_origin: self.cors_origin@,
            server_host: self.server_host@,
            server_port: self.server_port,
        }
    }
}

/// The text that is given, or `fallback` where none is.
pub open spec fn text_or(given: Option<Seq<char>>, fallback: Seq<char>) -> Seq<char> {
    match given {
        Some(text) => text,
        None => fallback,
    }
}

/// The port that is given, or [`DEFAULT_SERVER_PORT`] where none is; nothing
/// where what is given is no port number.
pub open spec fn port_or_default(given: Option<Seq<char>>) -> Option<u16> {
    match given {
        Some(text) => parsed_port(text),
        None => Some(DEFAULT_SERVER_PORT),
    }
}

/// The settings that the given values make, or why they make none.
pub open spec fn settings(
    database_url: Option<Seq<char>>,
    cors_origin: Option<Seq<char>>,
    server_host: Option<Seq<char>>,
    server_port: Option<Seq<char>>,
) -> Result<AppConfigModel, ConfigError> {
    match (database_url, port_or_default(server_port)) {
        (None, _) => Err(ConfigError::MissingDatabaseUrl),
        (Some(_), None) => Err(ConfigError::InvalidServerPort),
        (Some(url), Some(port)) => Ok(
            AppConfigModel {
                database_url: url,
                cors_origin: text_or(cors_origin, DEFAULT_CORS_ORIGIN@),
                server_host: text_or(server_host, DEFAULT_SERVER_HOST@),
                server_port: port,
            },
        ),
    }
}

impl AppConfig {
    /// The settings that the given values make. The address of the database
    /// must be there. The origin, the host and the port fall back to
    /// [`DEFAULT_CORS_ORIGIN`], [`DEFAULT_SERVER_HOST`] and
    /// [`DEFAULT_SERVER_PORT`]; a port that is given must be a port number.
    pub fn from_vars(
        database_url: Option<String>,
        cors_origin: Option<String>,
        server_host: Option<String>,
        server_port: Option<String>,
    ) -> (r: Result<AppConfig, ConfigError>)
        ensures
            match settings(
                optional_text(database_url),
                optional_text(cors_origin),
                optional_text(server_host),
                optional_text(server_port),
            ) {
                Ok(config) => r matches Ok(made) && made@ == config,
                Err(error) => r == Err::<AppConfig, ConfigError>(error),
            },
    {
        let database_url = match database_url {
            Some(url) => url,
            None => { return Err(ConfigError::MissingDatabaseUrl); },
        };
        let server_port = match server_port {
            Some(port) => match parse_port(port.as_str()) {
                Some(number) => number,
                None => { return Err(ConfigError::InvalidServerPort); },
            },
            None => DEFAULT_SERVER_PORT,
        };
        let cors_origin = match cors_origin {
            Some(origin) => origin,
            None => DEFAULT_CORS_ORIGIN.to_owned(),
        };
        let server_host = match server_host {
            Some(host) => host,
            None => DEFAULT_SERVER_HOST.to_owned(),
        };
        Ok(AppConfig { database_url, cors_origin, server_host, server_port })
    }
}

/// Which calls from browsers the service admits.
#[derive(Debug, PartialEq, Eq)]
pub struct CorsPolicy {
    pub allowed_origin: String,
    pub allowed_methods: Vec<String>,
    pub allowed_headers: Vec<String>,
    pub max_age: usize,
}

/// The policy for calls from the origin `cors_origin`: that origin alone,
/// the five methods that read and change, the two headers that carry the
/// kind of content and the credentials, and [`CORS_MAX_AGE`] seconds.
pub fn create_cors(cors_origin: &str) -> (r: CorsPolicy)
    ensures
        r.allowed_origin@ == cors_origin@,
        texts(r.allowed_methods@) == seq!["GET"@, "POST"@, "PUT"@, "DELETE"@, "PATCH"@],
        texts(r.allowed_headers@) == seq!["Content-Type"@, "Authorization"@],
        r.max_age == CORS_MAX_AGE,
{
    let mut allowed_methods: Vec<String> = Vec::new();
    allowed_methods.push("GET".to_owned());
    allowed_methods.push("POST".to_owned());
    allowed_methods.push("PUT".to_owned());
    allowed_methods.push("DELETE".to_owned());
    allowed_methods.push("PATCH".to_owned());
    let mut allowed_headers: Vec<String> = Vec::new();
    allowed_headers.push("Content-Type".to_owned());
    allowed_headers.push("Authorization".to_owned());
    assert(texts(allowed_methods@) =~= seq![
        "GET"@,
        "POST"@,
        "PUT"@,
        "DELETE"@,
        "PATCH"@,
    ]);
    assert(texts(allowed_headers@) =~= seq!["Content-Type"@, "Authorization"@]);
    CorsPolicy {
        allowed_origin: cors_origin.to_owned(),
        allowed_methods,
        allowed_headers,
        max_age: CORS_MAX_AGE,
    }
}

} // verus!
