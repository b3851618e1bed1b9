use vstd::prelude::*;

use crate::text::str_eq;

verus! {

pub const DEFAULT_WEB_PORT: &'static str = "8633";

pub const DEFAULT_MODEL: &'static str = "phi-2.Q4_0.gguf";

pub const DEFAULT_LOG_LEVEL: &'static str = "info";

pub const DEFAULT_LOG_FILE: &'static str = "smail-server.log";

pub const DEFAULT_WEB_LISTEN: &'static str = "0.0.0.0";

/// The process configuration; an absent field takes its default.
pub struct Config {
    pub web_listen: Option<String>,
    pub web_port: Option<u16>,
    pub log_level: Option<String>,
    pub log_file: Option<String>,
    pub model: Option<String>,
}

/// A configured text, or `default` where there is none.
pub open spec fn text_or(v: Option<String>, default: Seq<char>) -> Seq<char> {
    match v {
        Some(s) => s@,
        None => default,
    }
}

/// The field that `field` picks out of a configuration, if one was given.
pub open spec fn configured(config: Option<Config>, field: spec_fn(Config) -> Option<String>) -> Option<String> {
    match config {
        Some(c) => field(c),
        None => None,
    }
}

/// The name of the log level in force.
pub open spec fn level_name(config: Option<Config>) -> Seq<char> {
    text_or(configured(config, |c: Config| c.log_level), DEFAULT_LOG_LEVEL@)
}

/// The number of a log level name, from 0 ("off") to 6 ("trace"); an
/// unknown name counts as "off".
pub open spec fn level_number(name: Seq<char>) -> usize {
    if name == "off"@ {
        0
    } else if name == "critical"@ {
        1
    } else if name == "error"@ {
        2
    } else if name == "warning"@ {
        3
    } else if name == "info"@ {
        4
    } else if name == "debug"@ {
        5
    } else if name == "trace"@ {
        6
    } else {
        0
    }
}

/// The decimal digit `d`.
pub open spec fn digit(d: nat) -> Seq<char> {
    "0123456789"@.subrange(d as int, d as int + 1)
}

/// The decimal text of `n`, without leading zeros.
pub open spec fn decimal(n: nat) -> Seq<char>
    decreases n,
{
    if n < 10 {
        digit(n)
    } else {
        decimal(n / 10) + digit(n % 10)
    }
}

/// The decimal text of a port number.
pub fn port_text(n: u16) -> (r: String)
    ensures
        r@ == decimal(n as nat),
    decreases n,
{
    proof {
        reveal_strlit("0123456789");
    }
    let d = (n % 10) as usize;
    let last = "0123456789".substring_char(d, d + 1);
    if n < 10 {
        String::from_str(last)
    } else {
        port_text(n / 10).concat(last)
    }
}

/// A copy of the configured text, or `default`.
fn text_or_default(v: &Option<String>, default: &str) -> (r: String)
    ensures
        r@ == text_or(*v, default@),
{
    match v {
        Some(s) => String::from_str(s.as_str()),
        None => String::from_str(default),
    }
}

/// The configured log level name, "info" by default.
pub fn log_level_str(config: &Option<Config>) -> (r: String)
    ensures
        r@ == level_name(*config),
{
    match config {
        Some(c) => text_or_default(&c.log_level, DEFAULT_LOG_LEVEL),
        None => String::from_str(DEFAULT_LOG_LEVEL),
    }
}

/// The number of the configured log level.
pub fn log_level(config: &Option<Config>) -> (r: usize)
    ensures
        r == level_number(level_name(*config)),
        r <= 6,
{
    let name = log_level_str(config);
    let s = name.as_str();
    if str_eq(s, "off") {
        0
    } else if str_eq(s, "critical") {
        1
    } else if str_eq(s, "error") {
        2
    } else if str_eq(s, "warning") {
        3
    } else if str_eq(s, "info") {
        4
    } else if str_eq(s, "debug") {
        5
    } else if str_eq(s, "trace") {
        6
    } else {
        0
    }
}

/// The configured log file, "smail-server.log" by default.
pub fn log_file(config: &Option<Config>) -> (r: String)
    ensures
        r@ == text_or(configured(*config, |c: Config| c.log_file), DEFAULT_LOG_FILE@),
{
    match config {
        Some(c) => text_or_default(&c.log_file, DEFAULT_LOG_FILE),
        None => String::from_str(DEFAULT_LOG_FILE),
    }
}

/// The configured address to listen on, "0.0.0.0" by default.
pub fn config_web_listen_or_default(config: &Option<Config>) -> (r: String)
    ensures
        r@ == text_or(configured(*config, |c: Config| c.web_listen), DEFAULT_WEB_LISTEN@),
{
    match config {
        Some(c) => text_or_default(&c.web_listen, DEFAULT_WEB_LISTEN),
        None => String::from_str(DEFAULT_WEB_LISTEN),
    }
}

/// The configured port in decimal, "8633" by default.
pub fn config_web_port_or_default(config: &Option<Config>) -> (r: String)
    ensures
        r@ == match *config {
            Some(c) => match c.web_port {
                Some(p) => decimal(p as nat),
                None => DEFAULT_WEB_PORT@,
            },
            None => DEFAULT_WEB_PORT@,
        },
{
    match config {
        Some(c) => match c.web_port {
            Some(p) => port_text(p),
            None => String::from_str(DEFAULT_WEB_PORT),
        },
        None => String::from_str(DEFAULT_WEB_PORT),
    }
}

/// The configured model, "phi-2.Q4_0.gguf" by default.
pub fn config_model_or_default(config: &Option<Config>) -> (r: String)
    ensures
        r@ == text_or(configured(*config, |c: Config| c.model), DEFAULT_MODEL@),
{
    match config {
        Some(c) => text_or_default(&c.model, DEFAULT_MODEL),
        None => String::from_str(DEFAULT_MODEL),
    }
}

} // verus!
