//! The decisions of a whole run: whether the arguments are usable, where the
//! output and the temp files go, and whether the resource is fetched in
//! parts or as a single stream.

use crate::error::ProgramError;
use crate::paths::{parent_of, path_parent};
use crate::types::{Args, ProbeResult, ProxyMode};
use crate::utils::{file_name_of_segments, get_filename_from_url, url_path_segments};
use vstd::prelude::*;

verus! {

/// The resource is fetched as a single stream when the server does not
/// honour ranges, when one task was asked for, or when the length is unknown.
pub open spec fn falls_back(probe: ProbeResult, threads: usize) -> bool {
    !probe.accept_ranges || threads == 1 || probe.content_length == 0
}

/// Number of tasks for a resource of `content_length` bytes when `threads`
/// were asked for: no more than there are bytes, and at least one.
pub open spec fn task_count(content_length: u64, threads: usize) -> nat {
    if content_length == 0 || threads == 0 {
        1
    } else if threads <= content_length {
        threads as nat
    } else {
        content_length as nat
    }
}

/// The directory of the temp files: the one asked for, else the directory of
/// the output file, else the current directory.
pub open spec fn temp_dir_text(temp_dir: Option<Seq<char>>, output_path: Seq<char>) -> Seq<char> {
    match temp_dir {
        Some(dir) => dir,
        None => match path_parent(output_path) {
            Some(parent) => parent,
            None => "."@,
        },
    }
}

/// How the resource is to be fetched.
#[derive(Clone, Copy, Debug, PartialEq, Eq, Structural)]
pub enum Transfer {
    /// As one stream straight into the output file. No temp file is made.
    SingleStream,
    /// In parts, one per task, that are fetched concurrently into temp files
    /// and then merged.
    Parallel { threads: usize },
}

impl Args {
    /// The arguments are usable: at least one task is asked for.
    pub fn check(&self) -> (result: Result<(), ProgramError>)
        ensures
            match result {
                Ok(()) => self.threads >= 1,
                Err(error) => self.threads == 0 && (error matches ProgramError::ArgNotValid(text)
                    && text@ == "threads must be >= 1"@),
            },
    {
        if self.threads == 0 {
            let mut text = String::new();
            text.append("threads must be >= 1");
            Err(ProgramError::ArgNotValid(text))
        } else {
            Ok(())
        }
    }

    /// The path of the output file: the one given, else the file name that
    /// the URL suggests.
    pub fn output_path(&self) -> (path: String)
        ensures
            path@ == match self.output {
                Some(given) => given@,
                None => file_name_of_segments(url_path_segments(self.url@)),
            },
    {
        match &self.output {
            Some(given) => given.clone(),
            None => get_filename_from_url(self.url.as_str()),
        }
    }

    /// The proxy mode in force: a proxy URL selects the custom mode.
    pub fn effective_proxy_mode(&self) -> (mode: ProxyMode)
        ensures
            mode == if self.proxy is Some {
                ProxyMode::Custom
            } else {
                self.proxy_mode
            },
    {
        if self.proxy.is_some() {
            ProxyMode::Custom
        } else {
            self.proxy_mode
        }
    }
}

/// Decides the number of tasks for the concurrent phase.
pub fn effective_threads(content_length: u64, threads: usize) -> (tasks: usize)
    ensures
        tasks == task_count(content_length, threads),
        tasks >= 1,
        threads >= 1 ==> tasks <= threads,
{
    if content_length == 0 || threads == 0 {
        1
    } else if threads as u64 <= content_length {
        threads
    } else {
        content_length as usize
    }
}

/// Decides where the temp files go.
pub fn temp_dir_for(temp_dir: Option<&str>, output_path: &str) -> (dir: String)
    ensures
        dir@ == temp_dir_text(
            match temp_dir {
                Some(given) => Some(given@),
                None => None,
            },
            output_path@,
        ),
{
    match temp_dir {
        Some(given) => String::from_str(given),
        None => match parent_of(output_path) {
            Some(parent) => parent,
            None => String::from_str("."),
        },
    }
}

/// Decides how the resource is fetched once the probe is in.
///
/// Without range support, with one task asked for, or with an unknown
/// length, the single stream is used, for which no part and no temp file is
/// ever made. Otherwise the resource is cut for as many tasks
/// as were asked for, but no more than it has bytes.
pub fn choose_transfer(probe: ProbeResult, threads: usize) -> (transfer: Transfer)
    ensures
        transfer == if falls_back(probe, threads) {
            Transfer::SingleStream
        } else {
            Transfer::Parallel { threads: task_count(probe.content_length, threads) as usize }
        },
        transfer matches Transfer::Parallel { threads: tasks } ==> tasks >= 1
            && probe.content_length >= 1,
{
    if !probe.accept_ranges || threads == 1 || probe.content_length == 0 {
        Transfer::SingleStream
    } else {
        Transfer::Parallel { threads: effective_threads(probe.content_length, threads) }
    }
}

} // verus!
