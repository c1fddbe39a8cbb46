use ollama_tui::error::{ApiError, AppError};
use ollama_tui::events::AppEvent;
use ollama_tui::ollama_api::{ModelInfo, ShowModelResponse};
use ollama_tui::tasks::{
    delete_answered, details_fetched, models_refreshed, pull_completed, pull_target,
    run_completed, CommandExit,
};

#[test]
fn fetched_details_are_reported() {
    let details = ShowModelResponse {
        license: Some("MIT".to_string()),
        modelfile: None,
        parameters: None,
        template: None,
        details: None,
    };
    match details_fetched(Ok(details)) {
        AppEvent::ModelDetailsFetched(Ok(d)) => assert_eq!(d.license.as_deref(), Some("MIT")),
        other => panic!("unexpected {:?}", other),
    }
    match details_fetched(Err(ApiError::Reqwest("down".to_string()))) {
        AppEvent::ModelDetailsFetched(Err(AppError::Api(ApiError::Reqwest(m)))) => {
            assert_eq!(m, "down")
        }
        other => panic!("unexpected {:?}", other),
    }
}

#[test]
fn refreshed_models_are_reported() {
    let models = vec![ModelInfo {
        name: "phi".to_string(),
        modified_at: String::new(),
        size: 3,
        digest: String::new(),
    }];
    match models_refreshed(Ok(models)) {
        AppEvent::LocalModelsRefreshed(Ok(list)) => assert_eq!(list[0].name, "phi"),
        other => panic!("unexpected {:?}", other),
    }
    match models_refreshed(Err(ApiError::ResponseError("500".to_string()))) {
        AppEvent::LocalModelsRefreshed(Err(AppError::Api(ApiError::ResponseError(m)))) => {
            assert_eq!(m, "500")
        }
        other => panic!("unexpected {:?}", other),
    }
}

#[test]
fn failed_delete_is_reported_at_once() {
    assert!(delete_answered(Ok(())).is_none());
    match delete_answered(Err(ApiError::ResponseError("404".to_string()))) {
        Some(AppEvent::ModelPullCompleted(Err(AppError::Api(ApiError::ResponseError(m))))) => {
            assert_eq!(m, "404")
        }
        other => panic!("unexpected {:?}", other),
    }
}

#[test]
fn pull_target_joins_model_and_tag() {
    assert_eq!(pull_target("llama3", "8b"), "llama3:8b");
    assert_eq!(pull_target("gemma", "latest"), "gemma:latest");
}

#[test]
fn pull_completion_reports_how_the_command_ended() {
    assert!(matches!(pull_completed(CommandExit::Success), AppEvent::ModelPullCompleted(Ok(()))));
    match pull_completed(CommandExit::Failure("exit status: 1".to_string())) {
        AppEvent::ModelPullCompleted(Err(AppError::Command(m))) => {
            assert_eq!(m, "ollama pull command failed with status: exit status: 1")
        }
        other => panic!("unexpected {:?}", other),
    }
    match pull_completed(CommandExit::NotRun("No such file or directory".to_string())) {
        AppEvent::ModelPullCompleted(Err(AppError::Io(m))) => {
            assert_eq!(m, "No such file or directory")
        }
        other => panic!("unexpected {:?}", other),
    }
}

#[test]
fn run_completion_reports_how_the_program_ended() {
    assert!(matches!(run_completed(CommandExit::Success), AppEvent::OllamaRunCompleted(Ok(()))));
    match run_completed(CommandExit::Failure("exit status: 130".to_string())) {
        AppEvent::OllamaRunCompleted(Err(AppError::Command(m))) => {
            assert_eq!(m, "'ollama run' failed with status: exit status: 130")
        }
        other => panic!("unexpected {:?}", other),
    }
    match run_completed(CommandExit::NotRun("denied".to_string())) {
        AppEvent::OllamaRunCompleted(Err(AppError::Io(m))) => assert_eq!(m, "denied"),
        other => panic!("unexpected {:?}", other),
    }
}
