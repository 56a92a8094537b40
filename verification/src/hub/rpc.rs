//! The rules by which a session answers its peer. Every call goes to a
//! service behind the hub; a service that fails never fails the call: the
//! peer gets a neutral answer and the failure is handed back to be logged.

use crate::schema::Repository;
use vstd::prelude::*;

verus! {

/// The call that a warning is about.
#[derive(Clone, Copy, Debug, PartialEq, Eq, Structural)]
pub enum FailedCall {
    Search,
    ListRepositories,
    CreateJobRun,
    UpdateJobOutput,
    CompleteJobRun,
}

impl FailedCall {
    /// The text to log in front of the cause.
    pub fn describe(&self) -> (text: &'static str)
        ensures
            text@ == match *self {
                FailedCall::Search => "Failed to search"@,
                FailedCall::ListRepositories => "Failed to fetch repositories"@,
                FailedCall::CreateJobRun => "Failed to create job run"@,
                FailedCall::UpdateJobOutput => "Failed to update job output"@,
                FailedCall::CompleteJobRun => "Failed to complete job run"@,
            },
    {
        match self {
            FailedCall::Search => "Failed to search",
            FailedCall::ListRepositories => "Failed to fetch repositories",
            FailedCall::CreateJobRun => "Failed to create job run",
            FailedCall::UpdateJobOutput => "Failed to update job output",
            FailedCall::CompleteJobRun => "Failed to complete job run",
        }
    }
}

/// A failure that was swallowed: which call it was, and the service's
/// own error.
#[derive(Debug)]
pub struct Warning<E> {
    pub call: FailedCall,
    pub cause: E,
}

/// What the peer is answered, and the warning to log if the service
/// failed.
#[derive(Debug)]
pub struct Reply<R, E> {
    pub value: R,
    pub warning: Option<Warning<E>>,
}

/// A repository as peers are told about it: its name and where to
/// fetch it.
#[derive(Debug)]
pub struct RepositoryConfig {
    pub name: String,
    pub git_url: String,
}

/// Mathematical value of a [`RepositoryConfig`].
pub struct RepositoryConfigView {
    pub name: Seq<char>,
    pub git_url: Seq<char>,
}

impl View for RepositoryConfig {
    type V = RepositoryConfigView;

    open spec fn view(&self) -> RepositoryConfigView {
        RepositoryConfigView { name: self.name@, git_url: self.git_url@ }
    }
}

impl RepositoryConfig {
    pub fn new_named(name: String, git_url: String) -> (config: RepositoryConfig)
        ensures
            config@ == (RepositoryConfigView { name: name@, git_url: git_url@ }),
    {
        RepositoryConfig { name, git_url }
    }
}

/// What peers are told about `repository`.
pub open spec fn config_of(repository: Repository) -> RepositoryConfigView {
    RepositoryConfigView { name: repository.name@, git_url: repository.git_url@ }
}

/// The mathematical values of a list of configs, in order.
pub open spec fn config_views(configs: Seq<RepositoryConfig>) -> Seq<RepositoryConfigView> {
    configs.map_values(|config: RepositoryConfig| config@)
}

/// Whether `warning` reports that `call` failed with `cause`.
pub open spec fn warns<E>(warning: Option<Warning<E>>, call: FailedCall, cause: E) -> bool {
    warning == Some(Warning { call, cause })
}

/// The answer to a search: what the search service found, or the default
/// result when it failed.
pub fn search<R: Default, E>(outcome: Result<R, E>) -> (reply: Reply<R, E>)
    ensures
        match outcome {
            Ok(found) => reply.value == found && reply.warning is None,
            Err(cause) => call_ensures(R::default, (), reply.value) && warns(
                reply.warning,
                FailedCall::Search,
                cause,
            ),
        },
{
    match outcome {
        Ok(found) => Reply { value: found, warning: None },
        Err(cause) => Reply {
            value: R::default(),
            warning: Some(Warning { call: FailedCall::Search, cause }),
        },
    }
}

/// The answer to a search within one language: the same rule as
/// [`search`].
pub fn search_in_language<R: Default, E>(outcome: Result<R, E>) -> (reply: Reply<R, E>)
    ensures
        match outcome {
            Ok(found) => reply.value == found && reply.warning is None,
            Err(cause) => call_ensures(R::default, (), reply.value) && warns(
                reply.warning,
                FailedCall::Search,
                cause,
            ),
        },
{
    search(outcome)
}

/// The answer to a request for the repositories: a config for each
/// repository the catalog listed, in the catalog's order, or none when
/// the catalog failed.
pub fn list_repositories<E>(outcome: Result<Vec<Repository>, E>) -> (reply: Reply<
    Vec<RepositoryConfig>,
    E,
>)
    ensures
        match outcome {
            Ok(repositories) => config_views(reply.value@) == repositories@.map_values(
                |repository: Repository| config_of(repository),
            ) && reply.warning is None,
            Err(cause) => reply.value@.len() == 0 && warns(
                reply.warning,
                FailedCall::ListRepositories,
                cause,
            ),
        },
{
    match outcome {
        Ok(repositories) => {
            let ghost listed = repositories@;
            let mut configs: Vec<RepositoryConfig> = Vec::new();
            for repository in it: repositories.into_iter()
                invariant
                    it.seq() == listed,
                    configs@.len() == it.index(),
                    forall|j: int|
                        0 <= j < it.index() ==> (#[trigger] configs@[j])@ == config_of(listed[j]),
            {
                configs.push(RepositoryConfig::new_named(repository.name, repository.git_url));
            }
            assert(config_views(configs@) =~= listed.map_values(
                |repository: Repository| config_of(repository),
            ));
            Reply { value: configs, warning: None }
        },
        Err(cause) => Reply {
            value: Vec::new(),
            warning: Some(Warning { call: FailedCall::ListRepositories, cause }),
        },
    }
}

/// The answer to a request to start a job run: the id the tracker
/// assigned, or `0`, which no run ever has, when the tracker failed.
pub fn create_job_run<E>(outcome: Result<i32, E>) -> (reply: Reply<i32, E>)
    ensures
        match outcome {
            Ok(id) => reply.value == id && reply.warning is None,
            Err(cause) => reply.value == 0 && warns(reply.warning, FailedCall::CreateJobRun, cause),
        },
{
    match outcome {
        Ok(id) => Reply { value: id, warning: None },
        Err(cause) => Reply {
            value: 0,
            warning: Some(Warning { call: FailedCall::CreateJobRun, cause }),
        },
    }
}

/// What remains of an update of a run's standard output: a warning if the
/// tracker failed.
pub fn update_job_stdout<E>(outcome: Result<(), E>) -> (warning: Option<Warning<E>>)
    ensures
        match outcome {
            Ok(_) => warning is None,
            Err(cause) => warns(warning, FailedCall::UpdateJobOutput, cause),
        },
{
    match outcome {
        Ok(_) => None,
        Err(cause) => Some(Warning { call: FailedCall::UpdateJobOutput, cause }),
    }
}

/// What remains of an update of a run's standard error: a warning if the
/// tracker failed.
pub fn update_job_stderr<E>(outcome: Result<(), E>) -> (warning: Option<Warning<E>>)
    ensures
        match outcome {
            Ok(_) => warning is None,
            Err(cause) => warns(warning, FailedCall::UpdateJobOutput, cause),
        },
{
    match outcome {
        Ok(_) => None,
        Err(cause) => Some(Warning { call: FailedCall::UpdateJobOutput, cause }),
    }
}

/// What remains of the completion of a run: a warning if the tracker
/// failed.
pub fn complete_job_run<E>(outcome: Result<(), E>) -> (warning: Option<Warning<E>>)
    ensures
        match outcome {
            Ok(_) => warning is None,
            Err(cause) => warns(warning, FailedCall::CompleteJobRun, cause),
        },
{
    match outcome {
        Ok(_) => None,
        Err(cause) => Some(Warning { call: FailedCall::CompleteJobRun, cause }),
    }
}

/// A call as a peer makes it.
#[derive(Debug)]
pub enum HubRequest {
    LogEvent { content: String },
    Search { q: String, limit: usize, offset: usize },
    SearchInLanguage { language: String, tokens: Vec<String>, limit: usize, offset: usize },
    ListRepositories,
    CreateJobRun { name: String },
    UpdateJobStdout { id: i32, stdout: String },
    UpdateJobStderr { id: i32, stderr: String },
    CompleteJobRun { id: i32, exit_code: i32 },
}

/// A call to one of the services behind the hub, with what is handed to
/// it.
#[derive(Debug)]
pub enum ServiceCall {
    Log { content: String },
    Search { q: String, limit: usize, offset: usize },
    SearchInLanguage { language: String, tokens: Vec<String>, limit: usize, offset: usize },
    ListRepositories {
        after: Option<String>,
        before: Option<String>,
        first: Option<usize>,
        last: Option<usize>,
    },
    CreateJobRun { name: String },
    UpdateJobStdout { id: i32, stdout: String },
    UpdateJobStderr { id: i32, stderr: String },
    CompleteJobRun { id: i32, exit_code: i32 },
}

/// What came back from a service. `R` is the search service's result,
/// which the hub hands on unread.
#[derive(Debug)]
pub enum ServiceOutcome<R, E> {
    Logged,
    Search(Result<R, E>),
    SearchInLanguage(Result<R, E>),
    ListRepositories(Result<Vec<Repository>, E>),
    CreateJobRun(Result<i32, E>),
    UpdateJobStdout(Result<(), E>),
    UpdateJobStderr(Result<(), E>),
    CompleteJobRun(Result<(), E>),
}

/// What a peer is answered.
#[derive(Debug)]
pub enum HubResponse<R> {
    LogEvent,
    Search(R),
    SearchInLanguage(R),
    ListRepositories(Vec<RepositoryConfig>),
    CreateJobRun(i32),
    UpdateJobStdout,
    UpdateJobStderr,
    CompleteJobRun,
}

/// The one service call that serves `request`: every argument is handed
/// on as the peer gave it, and the repositories are asked for without any
/// bound.
pub open spec fn call_for(request: HubRequest) -> ServiceCall {
    match request {
        HubRequest::LogEvent { content } => ServiceCall::Log { content },
        HubRequest::Search { q, limit, offset } => ServiceCall::Search { q, limit, offset },
        HubRequest::SearchInLanguage { language, tokens, limit, offset } => {
            ServiceCall::SearchInLanguage { language, tokens, limit, offset }
        },
        HubRequest::ListRepositories => ServiceCall::ListRepositories {
            after: None,
            before: None,
            first: None,
            last: None,
        },
        HubRequest::CreateJobRun { name } => ServiceCall::CreateJobRun { name },
        HubRequest::UpdateJobStdout { id, stdout } => ServiceCall::UpdateJobStdout { id, stdout },
        HubRequest::UpdateJobStderr { id, stderr } => ServiceCall::UpdateJobStderr { id, stderr },
        HubRequest::CompleteJobRun { id, exit_code } => ServiceCall::CompleteJobRun {
            id,
            exit_code,
        },
    }
}

/// Whether `reply` is the answer owed for `outcome`: what the service
/// gave when it succeeded, and the neutral answer with a warning when it
/// failed.
pub open spec fn answers<R: Default, E>(
    outcome: ServiceOutcome<R, E>,
    reply: Reply<HubResponse<R>, E>,
) -> bool {
    match outcome {
        ServiceOutcome::Logged => reply.value is LogEvent && reply.warning is None,
        ServiceOutcome::Search(Ok(found)) => reply.value == HubResponse::Search(found)
            && reply.warning is None,
        ServiceOutcome::Search(Err(cause)) => reply.value is Search && call_ensures(
            R::default,
            (),
            reply.value->Search_0,
        ) && warns(reply.warning, FailedCall::Search, cause),
        ServiceOutcome::SearchInLanguage(Ok(found)) => reply.value == HubResponse::SearchInLanguage(
            found,
        ) && reply.warning is None,
        ServiceOutcome::SearchInLanguage(Err(cause)) => reply.value is SearchInLanguage
            && call_ensures(R::default, (), reply.value->SearchInLanguage_0) && warns(
            reply.warning,
            FailedCall::Search,
            cause,
        ),
        ServiceOutcome::ListRepositories(Ok(repositories)) => reply.value is ListRepositories
            && config_views(reply.value->ListRepositories_0@) == repositories@.map_values(
            |repository: Repository| config_of(repository),
        ) && reply.warning is None,
        ServiceOutcome::ListRepositories(Err(cause)) => reply.value is ListRepositories
            && reply.value->ListRepositories_0@.len() == 0 && warns(
            reply.warning,
            FailedCall::ListRepositories,
            cause,
        ),
        ServiceOutcome::CreateJobRun(Ok(id)) => reply.value == HubResponse::<R>::CreateJobRun(id)
            && reply.warning is None,
        ServiceOutcome::CreateJobRun(Err(cause)) => reply.value == HubResponse::<R>::CreateJobRun(
            0,
        ) && warns(reply.warning, FailedCall::CreateJobRun, cause),
        ServiceOutcome::UpdateJobStdout(Ok(_)) => reply.value is UpdateJobStdout
            && reply.warning is None,
        ServiceOutcome::UpdateJobStdout(Err(cause)) => reply.value is UpdateJobStdout && warns(
            reply.warning,
            FailedCall::UpdateJobOutput,
            cause,
        ),
        ServiceOutcome::UpdateJobStderr(Ok(_)) => reply.value is UpdateJobStderr
            && reply.warning is None,
        ServiceOutcome::UpdateJobStderr(Err(cause)) => reply.value is UpdateJobStderr && warns(
            reply.warning,
            FailedCall::UpdateJobOutput,
            cause,
        ),
        ServiceOutcome::CompleteJobRun(Ok(_)) => reply.value is CompleteJobRun
            && reply.warning is None,
        ServiceOutcome::CompleteJobRun(Err(cause)) => reply.value is CompleteJobRun && warns(
            reply.warning,
            FailedCall::CompleteJobRun,
            cause,
        ),
    }
}

/// Turns a peer's call into the one service call that serves it.
pub fn dispatch(request: HubRequest) -> (call: ServiceCall)
    ensures
        call == call_for(request),
{
    match request {
        HubRequest::LogEvent { content } => ServiceCall::Log { content },
        HubRequest::Search { q, limit, offset } => ServiceCall::Search { q, limit, offset },
        HubRequest::SearchInLanguage { language, tokens, limit, offset } => {
            ServiceCall::SearchInLanguage { language, tokens, limit, offset }
        },
        HubRequest::ListRepositories => ServiceCall::ListRepositories {
            after: None,
            before: None,
            first: None,
            last: None,
        },
        HubRequest::CreateJobRun { name } => ServiceCall::CreateJobRun { name },
        HubRequest::UpdateJobStdout { id, stdout } => ServiceCall::UpdateJobStdout { id, stdout },
        HubRequest::UpdateJobStderr { id, stderr } => ServiceCall::UpdateJobStderr { id, stderr },
        HubRequest::CompleteJobRun { id, exit_code } => ServiceCall::CompleteJobRun {
            id,
            exit_code,
        },
    }
}

/// Turns what came back from a service into the answer for the peer. No
/// failure of a service reaches the peer as a failure.
pub fn respond<R: Default, E>(outcome: ServiceOutcome<R, E>) -> (reply: Reply<HubResponse<R>, E>)
    ensures
        answers(outcome, reply),
{
    match outcome {
        ServiceOutcome::Logged => Reply { value: HubResponse::LogEvent, warning: None },
        ServiceOutcome::Search(outcome) => {
            let reply = search(outcome);
            Reply { value: HubResponse::Search(reply.value), warning: reply.warning }
        },
        ServiceOutcome::SearchInLanguage(outcome) => {
            let reply = search_in_language(outcome);
            Reply { value: HubResponse::SearchInLanguage(reply.value), warning: reply.warning }
        },
        ServiceOutcome::ListRepositories(outcome) => {
            let reply = list_repositories(outcome);
            Reply { value: HubResponse::ListRepositories(reply.value), warning: reply.warning }
        },
        ServiceOutcome::CreateJobRun(outcome) => {
            let reply = create_job_run(outcome);
            Reply { value: HubResponse::CreateJobRun(reply.value), warning: reply.warning }
        },
        ServiceOutcome::UpdateJobStdout(outcome) => Reply {
            value: HubResponse::UpdateJobStdout,
            warning: update_job_stdout(outcome),
        },
        ServiceOutcome::UpdateJobStderr(outcome) => Reply {
            value: HubResponse::UpdateJobStderr,
            warning: update_job_stderr(outcome),
        },
        ServiceOutcome::CompleteJobRun(outcome) => Reply {
            value: HubResponse::CompleteJobRun,
            warning: complete_job_run(outcome),
        },
    }
}

} // verus!
