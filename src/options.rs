//! The configuration a bootstrap reads: one value per named option, as
//! text, with the fallbacks that apply to malformed numbers.

use vstd::prelude::*;
use vstd::string::*;

use crate::level::{level_or, Severity};
use crate::text::{decimal_value, parse_u64};

verus! {

/// Rollover size of the log files when `log-file-size` is not a positive
/// number of bytes.
pub const DEFAULT_FILE_SIZE: u64 = 1000000;

/// Number of structured log generations kept when `log-json-count` is not a
/// positive 32-bit count.
pub const DEFAULT_JSON_COUNT: u32 = 10;

/// Number of status workers when `http-pool-size` is not a positive count.
pub const DEFAULT_POOL_SIZE: usize = 3;

/// The value of `text` when it is a decimal numeral in `1..=limit`, else
/// `fallback`.
pub open spec fn positive_or(text: Seq<char>, limit: nat, fallback: nat) -> nat {
    match decimal_value(text) {
        Some(v) => if 0 < v && v <= limit {
            v
        } else {
            fallback
        },
        None => fallback,
    }
}

/// The options of a bootstrap, each under the name of its command-line flag.
#[derive(Clone, Debug)]
pub struct Options {
    /// `log4rs-config`: an external logging configuration file.
    pub log4rs_config: Option<String>,
    /// `no-stderr`: leave out the console sink.
    pub no_stderr: bool,
    /// `log-file`: path of the rotating text log.
    pub log_file: Option<String>,
    /// `log-json`: path of the first structured log, ending in `.0.jsonlog`.
    pub log_json: Option<String>,
    /// `log-level`: threshold of the logger as a whole.
    pub log_level: String,
    /// `log-level-stderr`: threshold of the console sink.
    pub log_level_stderr: String,
    /// `log-level-file`: threshold of the text log.
    pub log_level_file: String,
    /// `log-level-json`: threshold of the structured log.
    pub log_level_json: String,
    /// `log-file-size`: rollover size of both log files, in bytes.
    pub log_file_size: String,
    /// `log-json-count`: number of structured log generations kept.
    pub log_json_count: String,
    /// `http-ip`: address the status listener binds to.
    pub http_ip: String,
    /// `http-port`: port the status listener binds to.
    pub http_port: String,
    /// `http-pool-size`: number of status workers.
    pub http_pool_size: String,
}

impl Options {

    /// The options of a program called `name` when no flag is given: text
    /// log `/tmp/log/<name>.log`, structured log `/tmp/log/<name>.0.jsonlog`,
    /// thresholds `debug` (logger and console) and `info` (files), rollover at
    /// one million bytes, ten structured generations, and a listener of three
    /// workers on `0.0.0.0:3000`.
    pub fn defaults(name: &str) -> (r: Options)
        ensures
            r.log4rs_config is None,
            !r.no_stderr,
            r.log_file matches Some(f) && f@ == "/tmp/log/"@ + name@ + ".log"@,
            r.log_json matches Some(f) && f@ == "/tmp/log/"@ + name@ + ".0.jsonlog"@,
            r.log_level@ == "debug"@,
            r.log_level_stderr@ == "debug"@,
            r.log_level_file@ == "info"@,
            r.log_level_json@ == "info"@,
            r.log_file_size@ == "1000000"@,
            r.log_json_count@ == "10"@,
            r.http_ip@ == "0.0.0.0"@,
            r.http_port@ == "3000"@,
            r.http_pool_size@ == "3"@,
    {
        let mut log_file = String::from_str("/tmp/log/");
        log_file.append(name);
        log_file.append(".log");
        let mut log_json = String::from_str("/tmp/log/");
        log_json.append(name);
        log_json.append(".0.jsonlog");
        Options {
            log4rs_config: None,
            no_stderr: false,
            log_file: Some(log_file),
            log_json: Some(log_json),
            log_level: String::from_str("debug"),
            log_level_stderr: String::from_str("debug"),
            log_level_file: String::from_str("info"),
            log_level_json: String::from_str("info"),
            log_file_size: String::from_str("1000000"),
            log_json_count: String::from_str("10"),
            http_ip: String::from_str("0.0.0.0"),
            http_port: String::from_str("3000"),
            http_pool_size: String::from_str("3"),
        }
    }
    /// Threshold of the console sink: `log-level-stderr`, or `Debug` when it
    /// names no severity.
    pub open spec fn spec_stderr_threshold(&self) -> Severity {
        level_or(self.log_level_stderr@, Severity::Debug)
    }

    /// Threshold of the text log: `log-level-file`, or `Info` when it names no
    /// severity.
    pub open spec fn spec_file_threshold(&self) -> Severity {
        level_or(self.log_level_file@, Severity::Info)
    }

    /// Threshold of the structured log: `log-level-json`, or `Info` when it
    /// names no severity.
    pub open spec fn spec_json_threshold(&self) -> Severity {
        level_or(self.log_level_json@, Severity::Info)
    }

    /// Rollover size in bytes that the options ask for.
    pub open spec fn spec_file_size(&self) -> nat {
        positive_or(self.log_file_size@, u64::MAX as nat, DEFAULT_FILE_SIZE as nat)
    }

    /// Number of structured generations that the options ask for.
    pub open spec fn spec_json_count(&self) -> nat {
        positive_or(self.log_json_count@, u32::MAX as nat, DEFAULT_JSON_COUNT as nat)
    }

    /// Number of status workers that the options ask for.
    pub open spec fn spec_pool_size(&self) -> nat {
        positive_or(self.http_pool_size@, usize::MAX as nat, DEFAULT_POOL_SIZE as nat)
    }

    /// The rollover size of the log files: `log-file-size` when it is a
    /// positive number of bytes, else one million.
    pub fn file_size(&self) -> (r: u64)
        ensures
            r as nat == self.spec_file_size(),
            r > 0,
    {
        match parse_u64(self.log_file_size.as_str()) {
            Some(v) => if v > 0 {
                v
            } else {
                DEFAULT_FILE_SIZE
            },
            None => DEFAULT_FILE_SIZE,
        }
    }

    /// The number of structured generations kept: `log-json-count` when it is
    /// a positive 32-bit count, else ten.
    pub fn json_count(&self) -> (r: u32)
        ensures
            r as nat == self.spec_json_count(),
            r > 0,
    {
        match parse_u64(self.log_json_count.as_str()) {
            Some(v) => if 0 < v && v <= u32::MAX as u64 {
                v as u32
            } else {
                DEFAULT_JSON_COUNT
            },
            None => DEFAULT_JSON_COUNT,
        }
    }

    /// The number of status workers: `http-pool-size` when it is a positive
    /// count, else three.
    pub fn pool_size(&self) -> (r: usize)
        ensures
            r as nat == self.spec_pool_size(),
            r > 0,
    {
        match parse_u64(self.http_pool_size.as_str()) {
            Some(v) => if 0 < v && v <= usize::MAX as u64 {
                v as usize
            } else {
                DEFAULT_POOL_SIZE
            },
            None => DEFAULT_POOL_SIZE,
        }
    }
}

} // verus!
