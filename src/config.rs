//! Settings read once at start-up. The process environment is read by the
//! caller; each setting here is computed from the raw value it found, if any.

use vstd::prelude::*;
use crate::text::{chars_of, push_signed_decimal, same_chars, signed_decimal, string_of};

verus! {

/// Whether `c` is an ASCII decimal digit.
pub open spec fn is_digit(c: char) -> bool {
    48 <= (c as u32) && (c as u32) <= 57
}

/// The value of a string of decimal digits.
pub open spec fn digits_value(s: Seq<char>) -> int
    decreases s.len(),
{
    if s.len() == 0 {
        0
    } else {
        digits_value(s.drop_last()) * 10 + ((s.last() as u32) - 48)
    }
}

/// The integer that `s` writes: an optional `+` or `-`, then one or more digits.
pub open spec fn integer_text(s: Seq<char>) -> Option<int> {
    let signed = s.len() > 0 && (s[0] == '-' || s[0] == '+');
    let d = if signed { s.drop_first() } else { s };
    if d.len() > 0 && forall|i: int| 0 <= i < d.len() ==> is_digit(#[trigger] d[i]) {
        Some(if signed && s[0] == '-' { -digits_value(d) } else { digits_value(d) })
    } else {
        None
    }
}

/// Relies on `str::parse::<i16>` (`i16::from_str`): an optional sign followed by
/// decimal digits, whose value fits; anything else is an error.
#[verifier::external_body]
fn parse_i16(s: &str) -> (r: Option<i16>)
    ensures
        r matches Some(x) ==> integer_text(s@) == Some(x as int),
        r is None ==> !(integer_text(s@) matches Some(v) && i16::MIN <= v <= i16::MAX),
{
    s.parse::<i16>().ok()
}

/// The port that a raw setting names, or 8080.
pub open spec fn port_setting(val: Option<String>) -> i16 {
    match val {
        Some(v) => match integer_text(v@) {
            Some(p) => if i16::MIN <= p <= i16::MAX {
                p as i16
            } else {
                8080
            },
            None => 8080,
        },
        None => 8080,
    }
}

/// `d` with one `/` at the end, unless it already ends in one.
pub open spec fn with_slash(d: Seq<char>) -> Seq<char> {
    if d.len() > 0 && d.last() == '/' {
        d
    } else {
        d.push('/')
    }
}

/// The link prefix that raw settings name: the domain given, else
/// `http://localhost:<port>`; either way ending in `/`.
pub open spec fn domain_setting(domain: Option<String>, port: Option<String>) -> Seq<char> {
    match domain {
        Some(d) => with_slash(d@),
        None => with_slash("http://localhost:"@ + signed_decimal(port_setting(port) as int)),
    }
}

/// A raw value, or the default text.
pub open spec fn text_setting(val: Option<String>, default: Seq<char>) -> Seq<char> {
    match val {
        Some(v) => v@,
        None => default,
    }
}

/// Whether a raw value reads `true` exactly.
pub open spec fn flag_setting(val: Option<String>) -> bool {
    match val {
        Some(v) => v@ == "true"@,
        None => false,
    }
}

/// The bot's token; an error that names the missing setting when there is none.
pub fn fetch_bot_token(val: Option<String>) -> (r: Result<String, String>)
    ensures
        val matches Some(v) ==> r == Ok::<String, String>(v),
        val is None ==> (r matches Err(e) && e@ == "environment variable 'BOT_TOKEN' is not set"@),
{
    match val {
        Some(v) => Ok(v),
        None => Err(String::from_str("environment variable 'BOT_TOKEN' is not set")),
    }
}

/// The port that the raw value names, or 8080 when there is none or it is not a number that fits.
pub fn fetch_server_port(val: Option<String>) -> (r: i16)
    ensures
        r == port_setting(val),
{
    match val {
        Some(v) => match parse_i16(v.as_str()) {
            Some(p) => p,
            None => 8080,
        },
        None => 8080,
    }
}

/// The link prefix: the raw domain, else `http://localhost:<port>`, ending in `/`.
pub fn fetch_domain(domain: Option<String>, port: Option<String>) -> (r: String)
    ensures
        r@ == domain_setting(domain, port),
{
    let mut d: Vec<char> = match domain {
        Some(v) => chars_of(v.as_str()),
        None => {
            let p = fetch_server_port(port);
            let mut out = chars_of("http://localhost:");
            push_signed_decimal(&mut out, p as i64);
            out
        },
    };
    let n = d.len();
    if n > 0 && d[n - 1] == '/' {
        string_of(&d)
    } else {
        d.push('/');
        string_of(&d)
    }
}

/// The transport's API address, or `https://api.telegram.org`.
pub fn fetch_telegram_api(val: Option<String>) -> (r: String)
    ensures
        r@ == text_setting(val, "https://api.telegram.org"@),
{
    match val {
        Some(v) => v,
        None => String::from_str("https://api.telegram.org"),
    }
}

/// The control pipe's path, or `/tmp/file2link.pipe`.
pub fn fetch_pipe_path(val: Option<String>) -> (r: String)
    ensures
        r@ == text_setting(val, "/tmp/file2link.pipe"@),
{
    match val {
        Some(v) => v,
        None => String::from_str("/tmp/file2link.pipe"),
    }
}

/// Whether the file list is served: only a raw value of exactly `true` turns it on.
pub fn fetch_enable_files_route(val: Option<String>) -> (r: bool)
    ensures
        r == flag_setting(val),
{
    match val {
        Some(v) => {
            let c = chars_of(v.as_str());
            let t = chars_of("true");
            same_chars(&c, &t)
        },
        None => false,
    }
}

/// The settings of one process.
pub struct Config {
    bot_token: Result<String, String>,
    server_port: i16,
    domain: String,
    telegram_api_url: String,
    pipe_path: String,
    enable_files_route: bool,
}

impl Config {
    pub closed spec fn token_value(&self) -> Result<String, String> {
        self.bot_token
    }

    pub closed spec fn port_value(&self) -> i16 {
        self.server_port
    }

    pub closed spec fn domain_value(&self) -> Seq<char> {
        self.domain@
    }

    pub closed spec fn api_url_value(&self) -> Seq<char> {
        self.telegram_api_url@
    }

    pub closed spec fn pipe_path_value(&self) -> Seq<char> {
        self.pipe_path@
    }

    pub closed spec fn files_route_value(&self) -> bool {
        self.enable_files_route
    }

    /// The settings that the raw values name, each as its `fetch_` function gives it.
    pub fn new(
        bot_token: Option<String>,
        server_port: Option<String>,
        app_domain: Option<String>,
        telegram_api_url: Option<String>,
        pipe_path: Option<String>,
        enable_files_route: Option<String>,
    ) -> (r: Self)
        ensures
            bot_token matches Some(v) ==> r.token_value() == Ok::<String, String>(v),
            bot_token is None ==> (r.token_value() matches Err(e) && e@
                == "environment variable 'BOT_TOKEN' is not set"@),
            r.port_value() == port_setting(server_port),
            r.domain_value() == domain_setting(app_domain, server_port),
            r.api_url_value() == text_setting(telegram_api_url, "https://api.telegram.org"@),
            r.pipe_path_value() == text_setting(pipe_path, "/tmp/file2link.pipe"@),
            r.files_route_value() == flag_setting(enable_files_route),
    {
        let port_for_domain = match &server_port {
            Some(p) => Some(p.clone()),
            None => None,
        };
        Config {
            bot_token: fetch_bot_token(bot_token),
            server_port: fetch_server_port(server_port),
            domain: fetch_domain(app_domain, port_for_domain),
            telegram_api_url: fetch_telegram_api(telegram_api_url),
            pipe_path: fetch_pipe_path(pipe_path),
            enable_files_route: fetch_enable_files_route(enable_files_route),
        }
    }

    pub fn bot_token(&self) -> (r: Result<String, String>)
        ensures
            r == self.token_value(),
    {
        match &self.bot_token {
            Ok(t) => Ok(t.clone()),
            Err(e) => Err(e.clone()),
        }
    }

    pub fn server_port(&self) -> (r: i16)
        ensures
            r == self.port_value(),
    {
        self.server_port
    }

    pub fn domain(&self) -> (r: String)
        ensures
            r@ == self.domain_value(),
    {
        self.domain.clone()
    }

    pub fn telegram_api_url(&self) -> (r: String)
        ensures
            r@ == self.api_url_value(),
    {
        self.telegram_api_url.clone()
    }

    pub fn pipe_path(&self) -> (r: String)
        ensures
            r@ == self.pipe_path_value(),
    {
        self.pipe_path.clone()
    }

    pub fn enable_files_route(&self) -> (r: bool)
        ensures
            r == self.files_route_value(),
    {
        self.enable_files_route
    }
}

} // verus!
