//! Plain data shared by the whole engine.

use vstd::prelude::*;

verus! {

/// Settings of one download, as the command line supplies them.
#[derive(Debug)]
pub struct Args {
    /// Download URL.
    pub url: String,
    /// Output file path; derived from the URL when absent.
    pub output: Option<String>,
    /// Number of concurrent downloads.
    pub threads: usize,
    /// User-Agent sent with every request.
    pub user_agent: String,
    /// Directory for the per-part temp files; the output's directory when absent.
    pub temp_dir: Option<String>,
    /// Requested log level.
    pub log_level: LogLevel,
    /// Debug mode: at least debug-level logging with detailed output.
    pub debug: bool,
    /// Maximum number of attempts per part.
    pub retries: u32,
    /// Delay before the first retry, in milliseconds.
    pub retry_delay: u64,
    /// Proxy URL; its presence selects `ProxyMode::Custom`.
    pub proxy: Option<String>,
    /// Proxy mode used when no proxy URL is given.
    pub proxy_mode: ProxyMode,
}

#[derive(Clone, Copy, Debug, PartialEq, Eq, Structural)]
pub enum LogLevel {
    Off,
    Error,
    Warn,
    Info,
    Debug,
    Trace,
}

/// One contiguous byte range of the resource, fetched by one task into its own
/// temp file.
#[derive(Clone, Debug)]
pub struct Part {
    /// Position of the part in the partition, counted from 0.
    pub idx: usize,
    /// Offset of the first byte.
    pub start: u64,
    /// Offset of the last byte.
    pub end_inclusive: u64,
    /// Location of the temp file.
    pub path: String,
}

/// Mathematical model of a [`Part`].
pub struct PartView {
    pub idx: nat,
    pub start: nat,
    pub end_inclusive: nat,
    pub path: Seq<char>,
}

impl View for Part {
    type V = PartView;

    open spec fn view(&self) -> PartView {
        PartView {
            idx: self.idx as nat,
            start: self.start as nat,
            end_inclusive: self.end_inclusive as nat,
            path: self.path@,
        }
    }
}

/// What probing found out about the server.
#[derive(Clone, Copy, Debug, PartialEq, Eq, Structural)]
pub struct ProbeResult {
    /// Total length of the resource in bytes; 0 when unknown.
    pub content_length: u64,
    /// Whether the server honours byte-range requests.
    pub accept_ranges: bool,
}

#[derive(Clone, Copy, Debug, PartialEq, Eq, Structural)]
pub enum ProxyMode {
    /// Proxies come from the environment.
    Auto,
    /// No proxy at all.
    Off,
    /// The proxy given by URL.
    Custom,
}

} // verus!
