//! The configuration of the service: where to listen and which database to
//! use. It is built once, from the values found in the environment.

use vstd::prelude::*;
use vstd::string::StringExecFns;

verus! {

broadcast use vstd::string::group_string_axioms;

struct ServerConfig {
    host: String,
    port: u16,
}

struct DatabaseConfig {
    url: String,
}

/// The configuration of the service.
pub struct Config {
    server: ServerConfig,
    db: DatabaseConfig,
}

/// The mathematical content of a configuration.
pub struct ConfigView {
    pub host: Seq<char>,
    pub port: u16,
    pub db_url: Seq<char>,
}

impl View for Config {
    type V = ConfigView;

    closed spec fn view(&self) -> ConfigView {
        ConfigView { host: self.server.host@, port: self.server.port, db_url: self.db.url@ }
    }
}

/// Whether a character is a decimal digit.
pub open spec fn is_digit(c: char) -> bool {
    '0' <= c && c <= '9'
}

/// Whether a text is made of decimal digits only.
pub open spec fn all_digits(text: Seq<char>) -> bool {
    forall|i: int| 0 <= i < text.len() ==> is_digit(#[trigger] text[i])
}

/// The number that a text of decimal digits stands for.
pub open spec fn decimal(digits: Seq<char>) -> nat
    decreases digits.len(),
{
    if digits.len() == 0 {
        0
    } else {
        (decimal(digits.drop_last()) * 10 + (digits.last() as u32 - '0' as u32)) as nat
    }
}

/// The digits of a port's text: the text itself, without a leading `+`.
pub open spec fn unsigned_part(text: Seq<char>) -> Seq<char> {
    if text.len() > 0 && text[0] == '+' {
        text.skip(1)
    } else {
        text
    }
}

/// The port that a text stands for: an optional `+`, then at least one
/// decimal digit and nothing else, with a value that fits in sixteen bits.
pub open spec fn parsed_port(text: Seq<char>) -> Option<u16> {
    let digits = unsigned_part(text);
    if digits.len() > 0 && all_digits(digits) && decimal(digits) <= u16::MAX {
        Some(decimal(digits) as u16)
    } else {
        None
    }
}

/// A number is at least as large as the number that any beginning of its
/// digits stands for.
proof fn lemma_decimal_grows(digits: Seq<char>, upto: int)
    requires
        0 <= upto <= digits.len(),
        all_digits(digits),
    ensures
        decimal(digits.take(upto)) <= decimal(digits),
    decreases digits.len(),
{
    if upto == digits.len() {
        assert(digits.take(upto) =~= digits);
    } else {
        assert(digits.drop_last().take(upto) =~= digits.take(upto));
        lemma_decimal_grows(digits.drop_last(), upto);
        assert(is_digit(digits.last()));
    }
}

/// Reads a port from its text.
pub fn parse_port(text: &str) -> (port: Option<u16>)
    ensures
        port == parsed_port(text@),
{
    let mut value: u32 = 0;
    let mut first = true;
    let mut signed = false;
    let mut any = false;
    for c in it: text.chars()
        invariant
            it.seq() == text@,
            first == (it.index() == 0),
            signed == (it.index() > 0 && text@[0] == '+'),
            signed ==> unsigned_part(text@) == text@.skip(1),
            !signed && it.index() > 0 ==> unsigned_part(text@) == text@,
            ({
                let start: int = if signed { 1 } else { 0 };
                let seen = text@.subrange(start, it.index() as int);
                &&& all_digits(seen)
                &&& value == decimal(seen)
                &&& value <= u16::MAX
                &&& any == (seen.len() > 0)
            }),
    {
        let ghost start: int = if signed { 1 } else { 0 };
        let ghost seen = text@.subrange(start, it.index() as int);
        if first && c == '+' {
            signed = true;
            assert(text@.subrange(1, 1) =~= Seq::<char>::empty());
        } else {
            let ghost digits = unsigned_part(text@);
            let ghost next = text@.subrange(start, it.index() + 1);
            proof {
                assert(digits == text@.skip(start));
                assert(next =~= digits.take(it.index() + 1 - start));
                assert(next.drop_last() =~= seen);
                assert(next.last() == c);
                assert(digits[it.index() - start] == c);
            }
            if !('0' <= c && c <= '9') {
                assert(!is_digit(digits[it.index() - start]));
                return None;
            }
            let digit: u32 = c as u32 - '0' as u32;
            let grown: u32 = value * 10 + digit;
            if grown > 65535 {
                proof {
                    if all_digits(digits) {
                        lemma_decimal_grows(digits, it.index() + 1 - start);
                    }
                }
                return None;
            }
            value = grown;
            any = true;
            proof {
                assert forall|i: int| 0 <= i < next.len() implies is_digit(#[trigger] next[i]) by {
                    if i < seen.len() {
                        assert(next[i] == seen[i]);
                    }
                }
            }
        }
        first = false;
    }
    proof {
        let start: int = if signed { 1 } else { 0 };
        if text@.len() == 0 {
            assert(unsigned_part(text@) =~= text@);
        }
        assert(text@.subrange(start, text@.len() as int) =~= unsigned_part(text@));
    }
    if any {
        Some(value as u16)
    } else {
        None
    }
}

impl Config {
    /// The URL of the database.
    pub fn db_url(&self) -> (url: &str)
        ensures
            url@ == self@.db_url,
    {
        self.db.url.as_str()
    }

    /// The host to listen on.
    pub fn server_host(&self) -> (host: &str)
        ensures
            host@ == self@.host,
    {
        self.server.host.as_str()
    }

    /// The port to listen on.
    pub fn server_port(&self) -> (port: u16)
        ensures
            port == self@.port,
    {
        self.server.port
    }
}

/// The host to listen on, given what the environment holds: its value, or
/// the loopback address where it holds none.
pub open spec fn host_or_default(host: Option<String>) -> Seq<char> {
    match host {
        Some(name) => name@,
        None => "127.0.0.1"@,
    }
}

/// The port to listen on, given what the environment holds: the number its
/// value stands for, or 3000 where it holds none.
pub open spec fn port_or_default(port: Option<String>) -> Option<u16> {
    match port {
        Some(text) => parsed_port(text@),
        None => Some(3000u16),
    }
}

/// Builds the configuration from the values of `HOST`, `PORT` and
/// `DATABASE_URL`, each as found or not found. There is no configuration
/// without a database URL, nor with a port that is no port: a caller tests
/// both before it asks for one.
pub fn init_config(host: Option<String>, port: Option<String>, database_url: Option<String>) -> (config:
    Config)
    requires
        port_or_default(port) is Some,
        database_url is Some,
    ensures
        config@.host == host_or_default(host),
        port_or_default(port) == Some(config@.port),
        database_url matches Some(url) && config@.db_url == url@,
{
    let host = match host {
        Some(name) => name,
        None => String::from_str("127.0.0.1"),
    };
    let port = match port {
        Some(text) => parse_port(text.as_str()).unwrap(),
        None => 3000,
    };
    let url = database_url.unwrap();
    Config { server: ServerConfig { host, port }, db: DatabaseConfig { url } }
}

} // verus!
