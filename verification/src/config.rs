//! What the configuration holds.

use crate::utils::str_eq;
use vstd::prelude::*;

verus! {

/// Which store to open.
pub struct Database {
    /// The name of the kind of engine.
    pub kind: String,
    /// What names the medium to the engine: a path or an address.
    pub url: String,
}

/// How to serve.
pub struct Server {
    pub host: String,
    pub port: u32,
    /// The number of requests that are served at a time.
    pub workers: usize,
    /// The address under which readers reach the server; links begin with it.
    pub address: String,
}

/// How much the log tells.
#[derive(Clone, Copy, Debug, PartialEq, Eq, Structural)]
pub enum LogLevel {
    Debug,
    Error,
    Info,
    Off,
    Trace,
    Warn,
}

/// How to log.
pub struct Log {
    /// The name of where the log goes.
    pub kind: String,
    pub level: LogLevel,
    /// The file of the log, where it goes to one.
    pub file: String,
}

/// The whole configuration.
pub struct Config {
    pub database: Database,
    pub server: Server,
    pub log: Log,
}

pub const UNKNOWN_LOG_LEVEL_ERROR: &'static str = "unknown log level";

/// The text `s` in lower case, as `str::to_lowercase` gives it.
pub uninterp spec fn lowercase(s: Seq<char>) -> Seq<char>;

/// Calls `str::to_lowercase`: the text in lower case, by the rules of Unicode.
#[verifier::external_body]
fn to_lowercase(s: &str) -> (r: String)
    ensures
        r@ == lowercase(s@),
{
    s.to_lowercase()
}

impl LogLevel {
    /// The level that is called `name`, in lower case, if there is one.
    pub open spec fn named(name: Seq<char>) -> Option<LogLevel> {
        if name == "debug"@ {
            Some(LogLevel::Debug)
        } else if name == "error"@ {
            Some(LogLevel::Error)
        } else if name == "info"@ {
            Some(LogLevel::Info)
        } else if name == "off"@ {
            Some(LogLevel::Off)
        } else if name == "trace"@ {
            Some(LogLevel::Trace)
        } else if name == "warn"@ {
            Some(LogLevel::Warn)
        } else {
            None
        }
    }

    /// The level that is called `name`, in lower case; a name of no level is
    /// refused with `UNKNOWN_LOG_LEVEL_ERROR`.
    pub fn parse(name: &str) -> (r: Result<LogLevel, &'static str>)
        ensures
            match Self::named(name@) {
                Some(level) => r == Ok::<LogLevel, &'static str>(level),
                None => r == Err::<LogLevel, &'static str>(UNKNOWN_LOG_LEVEL_ERROR),
            },
    {
        if str_eq(name, "debug") {
            Ok(LogLevel::Debug)
        } else if str_eq(name, "error") {
            Ok(LogLevel::Error)
        } else if str_eq(name, "info") {
            Ok(LogLevel::Info)
        } else if str_eq(name, "off") {
            Ok(LogLevel::Off)
        } else if str_eq(name, "trace") {
            Ok(LogLevel::Trace)
        } else if str_eq(name, "warn") {
            Ok(LogLevel::Warn)
        } else {
            Err(UNKNOWN_LOG_LEVEL_ERROR)
        }
    }
}

impl Default for Config {
    /// What the configuration holds where its file says nothing: a store in
    /// memory, a server for this machine alone on port 8080 with 32 workers,
    /// and a log of level `info` to the terminal.
    fn default() -> (r: Self)
        ensures
            r.database.kind@ == "memory"@,
            r.database.url@ == "db.sqlite"@,
            r.server.host@ == "127.0.0.1"@,
            r.server.port == 8080,
            r.server.workers == 32,
            r.server.address@ == "http://127.0.0.1:8080"@,
            r.log.kind@ == "console"@,
            r.log.level == LogLevel::Info,
            r.log.file@ == "onetimer.log"@,
    {
        Config {
            database: Database { kind: "memory".to_owned(), url: "db.sqlite".to_owned() },
            server: Server {
                host: "127.0.0.1".to_owned(),
                port: 8080,
                workers: 32,
                address: "http://127.0.0.1:8080".to_owned(),
            },
            log: Log {
                kind: "console".to_owned(),
                level: LogLevel::Info,
                file: "onetimer.log".to_owned(),
            },
        }
    }
}

impl LogLevel {
    /// The name of the level, in lower case.
    pub fn name(&self) -> (r: &'static str)
        ensures
            Self::named(r@) == Some(*self),
    {
        proof {
            reveal_strlit("debug");
            reveal_strlit("error");
            reveal_strlit("info");
            reveal_strlit("off");
            reveal_strlit("trace");
            reveal_strlit("warn");
            assert("debug"@[0] == 'd' && "debug"@.len() == 5);
            assert("error"@[0] == 'e' && "error"@.len() == 5);
            assert("trace"@[0] == 't' && "trace"@.len() == 5);
            assert("info"@[0] == 'i' && "info"@.len() == 4);
            assert("warn"@[0] == 'w' && "warn"@.len() == 4);
            assert("off"@.len() == 3);
        }
        match self {
            LogLevel::Debug => "debug",
            LogLevel::Error => "error",
            LogLevel::Info => "info",
            LogLevel::Off => "off",
            LogLevel::Trace => "trace",
            LogLevel::Warn => "warn",
        }
    }
}

impl Config {
    /// The level that the configuration calls `level_str`, in whatever case it
    /// is written; a name of no level is refused with
    /// `UNKNOWN_LOG_LEVEL_ERROR`.
    pub fn get_log_level(level_str: String) -> (r: Result<LogLevel, &'static str>)
        ensures
            match LogLevel::named(lowercase(level_str@)) {
                Some(level) => r == Ok::<LogLevel, &'static str>(level),
                None => r == Err::<LogLevel, &'static str>(UNKNOWN_LOG_LEVEL_ERROR),
            },
    {
        let lower = to_lowercase(level_str.as_str());
        LogLevel::parse(lower.as_str())
    }
}

} // verus!
