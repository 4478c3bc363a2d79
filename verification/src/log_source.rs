//! Where the log under review came from, and the name that its output gets
//! when the user gives none.

use vstd::prelude::*;
use vstd::string::*;
use std::path::PathBuf;
use crate::opts::Backend;
use crate::path::{path_from_string, path_text};
use crate::text::{decimal, decimal_string};

verus! {

/// How the log was specified.
#[derive(Debug)]
pub enum LogSource {
    /// A log on the remote service, with its identifier.
    Tenhou(String),
    /// A log in a local file.
    File(PathBuf),
    /// A log read from standard input.
    Stdin,
}

/// The default output name for the remote log `id`, reviewed by `backend` for
/// the player in seat `player_id`.
pub open spec fn remote_output_name(backend: Backend, id: Seq<char>, player_id: u8) -> Seq<char> {
    backend.spec_name() + "-"@ + id + "&tw="@ + decimal(player_id as nat)
}

/// The default output name for a log from standard input, reviewed by
/// `backend`.
pub open spec fn stdin_output_name(backend: Backend) -> Seq<char> {
    backend.spec_name() + "_report"@
}

impl LogSource {
    /// The base name, without an extension, for what is written about this
    /// log: derived from the backend, the log's identifier and the seat for a
    /// remote log; the file's own path for a local file; derived from the
    /// backend alone for standard input.
    pub fn default_output_filename(&self, backend: Backend, player_id: u8) -> (r: PathBuf)
        ensures
            match *self {
                LogSource::Tenhou(id) => path_text(r) == Some(
                    remote_output_name(backend, id@, player_id),
                ),
                LogSource::File(filename) => r == filename,
                LogSource::Stdin => path_text(r) == Some(stdin_output_name(backend)),
            },
    {
        match self {
            LogSource::Tenhou(id) => {
                let mut name = backend.to_string();
                name.append("-");
                name.append(id.as_str());
                name.append("&tw=");
                name.append(decimal_string(player_id as u64).as_str());
                path_from_string(name)
            },
            LogSource::File(filename) => filename.clone(),
            LogSource::Stdin => {
                let mut name = backend.to_string();
                name.append("_report");
                path_from_string(name)
            },
        }
    }

    /// The identifier of a remote log; nothing for any other source.
    pub fn log_id(&self) -> (r: Option<&str>)
        ensures
            match *self {
                LogSource::Tenhou(id) => r matches Some(s) && s@ == id@,
                LogSource::File(_) => r is None,
                LogSource::Stdin => r is None,
            },
    {
        match self {
            LogSource::Tenhou(id) => Some(id.as_str()),
            _ => None,
        }
    }
}

} // verus!
