//! Set-up decisions: how much to log, how the HTTP client is to be
//! configured, and what the output file is called when only the URL says.

use crate::error::ProgramError;
use crate::types::{LogLevel, ProxyMode};
use vstd::prelude::*;

verus! {

/// Severity threshold of the log output.
#[derive(Clone, Copy, Debug, PartialEq, Eq, Structural)]
pub enum TraceLevel {
    Error,
    Warn,
    Info,
    Debug,
    Trace,
}

/// How logging is to be set up.
#[derive(Clone, Copy, Debug, PartialEq, Eq, Structural)]
pub struct TracingSetup {
    /// Most verbose level that is shown.
    pub level: TraceLevel,
    /// Detailed lines, with time, target, file and line number; else plain
    /// lines with the level only.
    pub detailed: bool,
}

/// The logging set-up for a requested level. Debug mode shows detailed
/// lines at debug level, or at trace level if that was asked for; otherwise
/// the requested level is used with plain lines, and `Off` sets up nothing.
pub open spec fn tracing_setup_for(level: LogLevel, debug_mode: bool) -> Option<TracingSetup> {
    if debug_mode {
        Some(
            TracingSetup {
                level: if level is Trace {
                    TraceLevel::Trace
                } else {
                    TraceLevel::Debug
                },
                detailed: true,
            },
        )
    } else {
        match level {
            LogLevel::Off => None,
            LogLevel::Error => Some(TracingSetup { level: TraceLevel::Error, detailed: false }),
            LogLevel::Warn => Some(TracingSetup { level: TraceLevel::Warn, detailed: false }),
            LogLevel::Info => Some(TracingSetup { level: TraceLevel::Info, detailed: false }),
            LogLevel::Debug => Some(TracingSetup { level: TraceLevel::Debug, detailed: false }),
            LogLevel::Trace => Some(TracingSetup { level: TraceLevel::Trace, detailed: false }),
        }
    }
}

/// Decides how logging is set up; `None` when nothing is to be logged.
pub fn tracing_setup(level: LogLevel, debug_mode: bool) -> (setup: Option<TracingSetup>)
    ensures
        setup == tracing_setup_for(level, debug_mode),
{
    if debug_mode {
        let level = match level {
            LogLevel::Trace => TraceLevel::Trace,
            _ => TraceLevel::Debug,
        };
        Some(TracingSetup { level, detailed: true })
    } else {
        let level = match level {
            LogLevel::Off => {
                return None;
            },
            LogLevel::Error => TraceLevel::Error,
            LogLevel::Warn => TraceLevel::Warn,
            LogLevel::Info => TraceLevel::Info,
            LogLevel::Debug => TraceLevel::Debug,
            LogLevel::Trace => TraceLevel::Trace,
        };
        Some(TracingSetup { level, detailed: false })
    }
}

/// Declares `reqwest::header::HeaderValue`, carried through unopened.
#[verifier::external_type_specification]
#[verifier::external_body]
pub struct ExHeaderValue(reqwest::header::HeaderValue);

/// Declares `reqwest::header::InvalidHeaderValue`, the error of a text that
/// cannot be a header value; carried through unopened.
#[verifier::external_type_specification]
#[verifier::external_body]
pub struct ExInvalidHeaderValue(reqwest::header::InvalidHeaderValue);

/// Text that can stand as the value of a header: tabs and characters from the
/// blank upwards, without the delete character.
pub open spec fn is_header_text(text: Seq<char>) -> bool {
    forall|i: int|
        0 <= i < text.len() ==> (#[trigger] text[i]) == '\t' || (' ' <= text[i] && text[i]
            != '\u{7f}')
}

/// Calls `reqwest::header::HeaderValue::from_str`. Trusted: it succeeds
/// exactly on text whose every byte is a tab, or at least 32 and not 127; all
/// bytes of a character beyond ASCII are of that kind.
#[verifier::external_body]
fn header_value_from_str(text: &str) -> (value: Result<
    reqwest::header::HeaderValue,
    reqwest::header::InvalidHeaderValue,
>)
    ensures
        value is Ok <==> is_header_text(text@),
{
    reqwest::header::HeaderValue::from_str(text)
}

/// Renders a `reqwest::header::InvalidHeaderValue` by its `Display`.
/// Trusted: the text is always the same.
#[verifier::external_body]
fn invalid_header_message(error: &reqwest::header::InvalidHeaderValue) -> (text: String)
    ensures
        text@ == "failed to parse header value"@,
{
    error.to_string()
}

/// How the HTTP client reaches the server.
#[derive(Debug)]
pub enum ProxySetting {
    /// As the environment says.
    Environment,
    /// Directly, whatever the environment says.
    Disabled,
    /// Through the proxy at this URL, for every scheme.
    All(String),
}

/// How the HTTP client is to be built.
#[derive(Debug)]
pub struct ClientSettings {
    /// Value of the User-Agent header of every request.
    pub user_agent: String,
    pub proxy: ProxySetting,
}

/// Decides how the HTTP client is built.
///
/// A user agent that cannot be a header value is refused, and so is the
/// custom proxy mode without a proxy URL. Otherwise the user agent is taken
/// as it is, and the proxy follows the mode.
pub fn client_settings(ua: &str, proxy_mode: ProxyMode, proxy: Option<&str>) -> (settings: Result<
    ClientSettings,
    ProgramError,
>)
    ensures
        match settings {
            Ok(chosen) => {
                &&& is_header_text(ua@)
                &&& chosen.user_agent@ == ua@
                &&& match proxy_mode {
                    ProxyMode::Auto => chosen.proxy is Environment,
                    ProxyMode::Off => chosen.proxy is Disabled,
                    ProxyMode::Custom => proxy matches Some(url) && (
                    chosen.proxy matches ProxySetting::All(chosen_url) && chosen_url@ == url@),
                }
            },
            Err(error) => error matches ProgramError::ArgNotValid(text) && (if !is_header_text(ua@) {
                text@ == "failed to parse header value"@
            } else {
                proxy_mode is Custom && proxy is None && text@
                    == "proxy-mode custom requires --proxy <URL>"@
            }),
        },
{
    match header_value_from_str(ua) {
        Ok(_) => {},
        Err(error) => {
            return Err(ProgramError::ArgNotValid(invalid_header_message(&error)));
        },
    }
    let proxy = match proxy_mode {
        ProxyMode::Auto => ProxySetting::Environment,
        ProxyMode::Off => ProxySetting::Disabled,
        ProxyMode::Custom => match proxy {
            Some(url) => ProxySetting::All(String::from_str(url)),
            None => {
                let mut text = String::new();
                text.append("proxy-mode custom requires --proxy <URL>");
                return Err(ProgramError::ArgNotValid(text));
            },
        },
    };
    Ok(ClientSettings { user_agent: String::from_str(ua), proxy })
}

/// The path segments that `reqwest::Url::path_segments` lists for the URL
/// that `reqwest::Url::parse` reads from `url`; none when the text is no URL,
/// or is a URL that cannot be a base.
pub uninterp spec fn url_path_segments(url: Seq<char>) -> Option<Seq<Seq<char>>>;

/// The texts of a list of strings.
pub open spec fn texts(strings: Seq<String>) -> Seq<Seq<char>> {
    strings.map_values(|s: String| s@)
}

/// Parses `url` with `reqwest::Url::parse` and lists the segments of its path
/// with `reqwest::Url::path_segments`. Trusted: the result is what the name
/// [`url_path_segments`] stands for, as text.
#[verifier::external_body]
fn path_segments_of(url: &str) -> (segments: Option<Vec<String>>)
    ensures
        match segments {
            Some(list) => url_path_segments(url@) == Some(texts(list@)),
            None => url_path_segments(url@) is None,
        },
{
    let parsed = reqwest::Url::parse(url).ok()?;
    Some(parsed.path_segments()?.map(|segment| segment.to_string()).collect())
}

/// The file name that a URL's path segments give: the last segment, unless
/// there is none or it is empty; then `index.html`.
pub open spec fn file_name_of_segments(segments: Option<Seq<Seq<char>>>) -> Seq<char> {
    match segments {
        Some(list) => if list.len() > 0 && list.last().len() > 0 {
            list.last()
        } else {
            "index.html"@
        },
        None => "index.html"@,
    }
}

/// Picks the file name out of the path segments of a URL; `None` stands for
/// a URL without segments.
pub fn filename_from_segments(segments: Option<Vec<String>>) -> (name: String)
    ensures
        name@ == file_name_of_segments(
            match segments {
                Some(list) => Some(texts(list@)),
                None => None,
            },
        ),
{
    if let Some(list) = segments {
        let mut list = list;
        if let Some(last) = list.pop() {
            if last.as_str().unicode_len() > 0 {
                return last;
            }
        }
    }
    String::from_str("index.html")
}

/// Derives a file name from a URL: the last segment of its path, or
/// `index.html` when the URL ends in a slash, has no path segments, or does
/// not parse.
pub fn get_filename_from_url(url_str: &str) -> (name: String)
    ensures
        name@ == file_name_of_segments(url_path_segments(url_str@)),
{
    filename_from_segments(path_segments_of(url_str))
}

} // verus!
