//! Background tasks: what the handlers ask the control loop to start, and
//! what a task reports for each way its outside work can end.

use crate::error::{ApiError, AppError};
use crate::events::AppEvent;
use crate::ollama_api::{ModelInfo, ShowModelResponse};
use vstd::prelude::*;
use vstd::string::*;

verus! {

/// A background task that the control loop is asked to start. Each task ends
/// by sending one completion event, or two where a refresh follows.
#[derive(Debug)]
pub enum TaskRequest {
    /// Fetch the details of the named local model.
    FetchDetails(String),
    /// Fetch the names of the registry's models.
    FetchRegistryModels,
    /// Fetch the tags of the named registry model.
    FetchRegistryTags(String),
    /// Delete the named local model, then list the local models again.
    Delete(String),
    /// Pull the model with the tag, then list the local models again.
    Pull(String, String),
    /// Hand the terminal to the foreground program, started on the named model.
    Run(String),
}

/// The mathematical value of a `TaskRequest`.
pub enum TaskRequestView {
    FetchDetails(Seq<char>),
    FetchRegistryModels,
    FetchRegistryTags(Seq<char>),
    Delete(Seq<char>),
    Pull(Seq<char>, Seq<char>),
    Run(Seq<char>),
}

impl DeepView for TaskRequest {
    type V = TaskRequestView;

    open spec fn deep_view(&self) -> TaskRequestView {
        match self {
            TaskRequest::FetchDetails(name) => TaskRequestView::FetchDetails(name@),
            TaskRequest::FetchRegistryModels => TaskRequestView::FetchRegistryModels,
            TaskRequest::FetchRegistryTags(model) => TaskRequestView::FetchRegistryTags(model@),
            TaskRequest::Delete(name) => TaskRequestView::Delete(name@),
            TaskRequest::Pull(model, tag) => TaskRequestView::Pull(model@, tag@),
            TaskRequest::Run(name) => TaskRequestView::Run(name@),
        }
    }
}

impl View for TaskRequest {
    type V = TaskRequestView;

    open spec fn view(&self) -> TaskRequestView {
        self.deep_view()
    }
}

/// How an external command ended.
#[derive(Debug)]
pub enum CommandExit {
    /// The command ran and reported success.
    Success,
    /// The command ran and reported a failure; holds its exit status, as text.
    Failure(String),
    /// The command could not be started or awaited; holds the I/O error's message.
    NotRun(String),
}

/// The result that the task reports for the way its command ended: success,
/// a command error that names the exit status, or the I/O error.
fn result_of_command(exit: CommandExit, failure_prefix: &str) -> (r: Result<(), AppError>)
    ensures
        match exit {
            CommandExit::Success => r is Ok,
            CommandExit::Failure(status) => r matches Err(AppError::Command(m)) && m@
                == failure_prefix@ + status@,
            CommandExit::NotRun(message) => r == Err::<(), AppError>(AppError::Io(message)),
        },
{
    match exit {
        CommandExit::Success => Ok(()),
        CommandExit::Failure(status) => Err(
            AppError::Command(String::from_str(failure_prefix).concat(status.as_str())),
        ),
        CommandExit::NotRun(message) => Err(AppError::Io(message)),
    }
}

/// The event that reports fetched details.
pub fn details_fetched(result: Result<ShowModelResponse, ApiError>) -> (event: AppEvent)
    ensures
        event == AppEvent::ModelDetailsFetched(
            match result {
                Ok(details) => Ok(details),
                Err(e) => Err(AppError::Api(e)),
            },
        ),
{
    match result {
        Ok(details) => AppEvent::ModelDetailsFetched(Ok(details)),
        Err(e) => AppEvent::ModelDetailsFetched(Err(AppError::Api(e))),
    }
}

/// The event that reports the refreshed list of local models.
pub fn models_refreshed(result: Result<Vec<ModelInfo>, ApiError>) -> (event: AppEvent)
    ensures
        event == AppEvent::LocalModelsRefreshed(
            match result {
                Ok(models) => Ok(models),
                Err(e) => Err(AppError::Api(e)),
            },
        ),
{
    match result {
        Ok(models) => AppEvent::LocalModelsRefreshed(Ok(models)),
        Err(e) => AppEvent::LocalModelsRefreshed(Err(AppError::Api(e))),
    }
}

/// What the delete task reports once the daemon answered the delete: a
/// failure is reported at once, as the failure of a pull is; after a
/// success nothing is reported until the list was fetched again.
pub fn delete_answered(result: Result<(), ApiError>) -> (event: Option<AppEvent>)
    ensures
        event == match result {
            Ok(_) => None::<AppEvent>,
            Err(e) => Some(AppEvent::ModelPullCompleted(Err(AppError::Api(e)))),
        },
{
    match result {
        Ok(_) => None,
        Err(e) => Some(AppEvent::ModelPullCompleted(Err(AppError::Api(e)))),
    }
}

/// The name that the pull command is given: the model, a colon, the tag.
pub fn pull_target(model: &str, tag: &str) -> (target: String)
    ensures
        target@ == model@ + ":"@ + tag@,
{
    String::from_str(model).concat(":").concat(tag)
}

/// The event that reports how the pull command ended.
pub fn pull_completed(exit: CommandExit) -> (event: AppEvent)
    ensures
        event matches AppEvent::ModelPullCompleted(r) && match exit {
            CommandExit::Success => r is Ok,
            CommandExit::Failure(status) => r matches Err(AppError::Command(m)) && m@
                == "ollama pull command failed with status: "@ + status@,
            CommandExit::NotRun(message) => r == Err::<(), AppError>(AppError::Io(message)),
        },
{
    AppEvent::ModelPullCompleted(
        result_of_command(exit, "ollama pull command failed with status: "),
    )
}

/// The event that reports how the foreground program ended.
pub fn run_completed(exit: CommandExit) -> (event: AppEvent)
    ensures
        event matches AppEvent::OllamaRunCompleted(r) && match exit {
            CommandExit::Success => r is Ok,
            CommandExit::Failure(status) => r matches Err(AppError::Command(m)) && m@
                == "'ollama run' failed with status: "@ + status@,
            CommandExit::NotRun(message) => r == Err::<(), AppError>(AppError::Io(message)),
        },
{
    AppEvent::OllamaRunCompleted(result_of_command(exit, "'ollama run' failed with status: "))
}

} // verus!
