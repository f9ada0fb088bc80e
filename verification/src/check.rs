//! Probing whether a URL is served by a git server.

use vstd::prelude::*;
use vstd::string::*;
use crate::process::{lossy, lossy_text};
use crate::service::args_view;

verus! {

/// A request to probe a URL.
#[derive(Debug)]
pub struct CheckRequest {
    pub url: String,
}

/// What the caller reports after it listed the remote.
#[derive(Debug)]
pub enum Probe {
    /// The toolchain ran. `success` says whether it ended with status
    /// zero.
    Ran { success: bool, stderr: Vec<u8> },
    /// The toolchain could not be run; holds the reason.
    Failed { reason: String },
}

/// The answer to a probe.
#[derive(Debug)]
pub struct ServerResponse {
    pub is_git_server: bool,
    pub details: Option<String>,
    pub error: Option<String>,
}

/// The mathematical value of an answer.
pub struct ResponseView {
    pub is_git_server: bool,
    pub details: Option<Seq<char>>,
    pub error: Option<Seq<char>>,
}

impl View for ServerResponse {
    type V = ResponseView;

    open spec fn view(&self) -> ResponseView {
        ResponseView {
            is_git_server: self.is_git_server,
            details: match self.details {
                Some(d) => Some(d@),
                None => None,
            },
            error: match self.error {
                Some(e) => Some(e@),
                None => None,
            },
        }
    }
}

/// The arguments that list the refs of a remote quietly and fail when
/// there are none.
pub open spec fn probe_command(url: Seq<char>) -> Seq<Seq<char>> {
    seq!["ls-remote"@, "--quiet"@, "--exit-code"@, url]
}

/// The answer that a probe of a URL deserves: a server where the listing
/// succeeded, with a line that names the URL; else no server, with what
/// the toolchain wrote or why it could not be run.
pub open spec fn probe_answer(url: Seq<char>, probe: Probe) -> ResponseView {
    match probe {
        Probe::Ran { success, stderr } => if success {
            ResponseView {
                is_git_server: true,
                details: Some("Connected to "@ + url),
                error: None,
            }
        } else {
            ResponseView { is_git_server: false, details: None, error: Some(lossy_text(stderr@)) }
        },
        Probe::Failed { reason } => ResponseView {
            is_git_server: false,
            details: None,
            error: Some("Failed to find server "@ + reason@),
        },
    }
}

/// The arguments for the toolchain that probe a URL.
pub fn probe_args(request: &CheckRequest) -> (args: Vec<String>)
    ensures
        args_view(args@) == probe_command(request.url@),
{
    let mut args: Vec<String> = Vec::new();
    args.push(String::from_str("ls-remote"));
    args.push(String::from_str("--quiet"));
    args.push(String::from_str("--exit-code"));
    args.push(request.url.clone());
    assert(args_view(args@) =~= probe_command(request.url@));
    args
}

/// Answers a probe from what the caller reports of the listing.
pub fn check_git_server(request: &CheckRequest, probe: &Probe) -> (r: ServerResponse)
    ensures
        r@ == probe_answer(request.url@, *probe),
{
    match probe {
        Probe::Ran { success, stderr } => {
            if *success {
                ServerResponse {
                    is_git_server: true,
                    details: Some(String::from_str("Connected to ").concat(request.url.as_str())),
                    error: None,
                }
            } else {
                ServerResponse {
                    is_git_server: false,
                    details: None,
                    error: Some(lossy(stderr.as_slice())),
                }
            }
        },
        Probe::Failed { reason } => ServerResponse {
            is_git_server: false,
            details: None,
            error: Some(String::from_str("Failed to find server ").concat(reason.as_str())),
        },
    }
}

} // verus!
