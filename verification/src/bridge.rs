//! The pack exchange: what to run for a fetch or a push, and what the run
//! of the toolchain means for the client.

use vstd::prelude::*;
use crate::error::{ErrorView, GitError};
use crate::process::{exit_status, lossy, lossy_text, ProcessOutcome, KILLED};
use crate::registry::{lookup_answer, RepoManager};
use crate::service::{args_view, exchange_args, LockMode, Service};

verus! {

/// What the caller has to do for a pack exchange: take the lock, run the
/// toolchain in the repository's directory with the client's body on its
/// input, and report how the run ended.
#[derive(Debug)]
pub struct ExchangePlan {
    /// The lock to hold while the toolchain runs.
    pub lock: LockMode,
    /// The directory of the repository.
    pub directory: String,
    /// The arguments for the toolchain.
    pub args: Vec<String>,
}

/// What a run of the toolchain means for the client: the output of a run
/// that ended with status zero, and a failure for every other run.
pub open spec fn exchange_answer(outcome: ProcessOutcome) -> Result<Seq<u8>, ErrorView> {
    match outcome {
        ProcessOutcome::NotStarted => Err(ErrorView::SpawnFailed),
        ProcessOutcome::BrokenPipe => Err(ErrorView::IOFailure),
        ProcessOutcome::TimedOut => Err(ErrorView::Timeout),
        ProcessOutcome::Exited { code, stdout, stderr } => if outcome.succeeded() {
            Ok(stdout@)
        } else {
            Err(ErrorView::AbnormalExit(exit_status(code), lossy_text(stderr@)))
        },
    }
}

/// The mathematical value of an answer.
pub open spec fn answer_view(r: Result<Vec<u8>, GitError>) -> Result<Seq<u8>, ErrorView> {
    match r {
        Ok(body) => Ok(body@),
        Err(e) => Err(e@),
    }
}

/// Plans the pack exchange of a service against a repository. A fetch
/// takes the read lock and a push the write lock. A repository that is
/// not registered or switched off gets no plan.
pub fn plan_exchange(registry: &RepoManager, repo_name: &str, service: Service) -> (r: Result<
    ExchangePlan,
    GitError,
>)
    requires
        registry.wf(),
    ensures
        match lookup_answer(registry@, repo_name@) {
            Ok(record) => {
                &&& r matches Ok(plan)
                &&& plan.lock == service.spec_exchange_lock()
                &&& Some(plan.directory@) == record.path
                &&& args_view(plan.args@) == exchange_args(service)
            },
            Err(e) => r matches Err(f) && f@ == e,
        },
{
    match registry.lookup(repo_name) {
        Err(e) => Err(e),
        Ok(record) => {
            match &record.path {
                Some(path) => Ok(
                    ExchangePlan {
                        lock: service.exchange_lock(),
                        directory: path.clone(),
                        args: service.args(),
                    },
                ),
                None => {
                    proof {
                        assert(RepoManager::well_placed(registry@, registry.base()));
                        assert(registry@.dom().contains(repo_name@));
                    }
                    Err(GitError::NotFound)
                },
            }
        },
    }
}

/// Turns the report of a run into the answer for the client. A run that
/// ended with a status other than zero is always a failure, and the
/// failure carries the status and what the toolchain wrote to its error
/// stream.
pub fn finish_exchange(outcome: ProcessOutcome) -> (r: Result<Vec<u8>, GitError>)
    ensures
        answer_view(r) == exchange_answer(outcome),
{
    match outcome {
        ProcessOutcome::NotStarted => Err(GitError::SpawnFailed),
        ProcessOutcome::BrokenPipe => Err(GitError::IOFailure),
        ProcessOutcome::TimedOut => Err(GitError::Timeout),
        ProcessOutcome::Exited { code, stdout, stderr } => {
            match code {
                Some(c) => {
                    if c == 0 {
                        Ok(stdout)
                    } else {
                        Err(GitError::AbnormalExit(c, lossy(stderr.as_slice())))
                    }
                },
                None => Err(GitError::AbnormalExit(KILLED, lossy(stderr.as_slice()))),
            }
        },
    }
}

} // verus!
