use tabby_hub::hub::rpc::{
    complete_job_run, create_job_run, dispatch, list_repositories, respond, search,
    search_in_language, update_job_stderr, update_job_stdout, FailedCall, HubRequest,
    HubResponse, RepositoryConfig, ServiceCall, ServiceOutcome,
};
use tabby_hub::schema::Repository;

#[derive(Debug, Default, PartialEq)]
struct Hits {
    total: usize,
    files: Vec<String>,
}

fn failure(text: &str) -> String {
    text.to_string()
}

#[test]
fn search_relays_what_was_found() {
    let found = Hits { total: 2, files: vec!["a.rs".to_string(), "b.rs".to_string()] };
    let outcome: Result<Hits, String> = Ok(found);
    let reply = search(outcome);
    assert_eq!(reply.value, Hits { total: 2, files: vec!["a.rs".to_string(), "b.rs".to_string()] });
    assert!(reply.warning.is_none());
}

#[test]
fn failed_search_gives_the_default_result() {
    let outcome: Result<Hits, String> = Err(failure("index not built"));
    let reply = search(outcome);
    assert_eq!(reply.value, Hits::default());
    let warning = reply.warning.unwrap();
    assert_eq!(warning.call, FailedCall::Search);
    assert_eq!(warning.cause, "index not built");
}

#[test]
fn search_in_language_relays_what_was_found() {
    let outcome: Result<Vec<u8>, String> = Ok(vec![1, 2, 3]);
    let reply = search_in_language(outcome);
    assert_eq!(reply.value, vec![1, 2, 3]);
    assert!(reply.warning.is_none());
}

#[test]
fn failed_search_in_language_gives_the_default_result() {
    let outcome: Result<Hits, u32> = Err(17);
    let reply = search_in_language(outcome);
    assert_eq!(reply.value, Hits { total: 0, files: vec![] });
    let warning = reply.warning.unwrap();
    assert_eq!(warning.call, FailedCall::Search);
    assert_eq!(warning.cause, 17);
}

#[test]
fn repositories_become_named_configs_in_order() {
    let listed = vec![
        Repository {
            id: "r1".to_string(),
            name: "tabby".to_string(),
            git_url: "https://github.com/TabbyML/tabby".to_string(),
        },
        Repository {
            id: "r2".to_string(),
            name: "docs".to_string(),
            git_url: "git@example.com:docs.git".to_string(),
        },
    ];
    let outcome: Result<Vec<Repository>, String> = Ok(listed);
    let reply = list_repositories(outcome);
    assert!(reply.warning.is_none());
    assert_eq!(reply.value.len(), 2);
    assert_eq!(reply.value[0].name, "tabby");
    assert_eq!(reply.value[0].git_url, "https://github.com/TabbyML/tabby");
    assert_eq!(reply.value[1].name, "docs");
    assert_eq!(reply.value[1].git_url, "git@example.com:docs.git");
}

#[test]
fn no_repositories_give_no_configs() {
    let outcome: Result<Vec<Repository>, String> = Ok(vec![]);
    let reply = list_repositories(outcome);
    assert!(reply.value.is_empty());
    assert!(reply.warning.is_none());
}

#[test]
fn failed_listing_gives_no_configs_and_a_warning() {
    let outcome: Result<Vec<Repository>, String> = Err(failure("db locked"));
    let reply = list_repositories(outcome);
    assert!(reply.value.is_empty());
    let warning = reply.warning.unwrap();
    assert_eq!(warning.call, FailedCall::ListRepositories);
    assert_eq!(warning.cause, "db locked");
}

#[test]
fn named_config_keeps_name_and_url() {
    let config = RepositoryConfig::new_named("n".to_string(), "u".to_string());
    assert_eq!(config.name, "n");
    assert_eq!(config.git_url, "u");
}

#[test]
fn created_job_id_is_relayed() {
    let outcome: Result<i32, String> = Ok(41);
    let reply = create_job_run(outcome);
    assert_eq!(reply.value, 41);
    assert!(reply.warning.is_none());
}

#[test]
fn failed_creation_answers_zero() {
    let outcome: Result<i32, String> = Err(failure("disk full"));
    let reply = create_job_run(outcome);
    assert_eq!(reply.value, 0);
    let warning = reply.warning.unwrap();
    assert_eq!(warning.call, FailedCall::CreateJobRun);
    assert_eq!(warning.cause, "disk full");
}

#[test]
fn job_updates_warn_only_on_failure() {
    let fine: Result<(), String> = Ok(());
    assert!(update_job_stdout(fine).is_none());
    let fine: Result<(), String> = Ok(());
    assert!(update_job_stderr(fine).is_none());
    let fine: Result<(), String> = Ok(());
    assert!(complete_job_run(fine).is_none());

    let failed: Result<(), String> = Err(failure("e1"));
    let warning = update_job_stdout(failed).unwrap();
    assert_eq!(warning.call, FailedCall::UpdateJobOutput);
    assert_eq!(warning.cause, "e1");

    let failed: Result<(), String> = Err(failure("e2"));
    let warning = update_job_stderr(failed).unwrap();
    assert_eq!(warning.call, FailedCall::UpdateJobOutput);
    assert_eq!(warning.cause, "e2");

    let failed: Result<(), String> = Err(failure("e3"));
    let warning = complete_job_run(failed).unwrap();
    assert_eq!(warning.call, FailedCall::CompleteJobRun);
    assert_eq!(warning.cause, "e3");
}

#[test]
fn warnings_are_described() {
    assert_eq!(FailedCall::Search.describe(), "Failed to search");
    assert_eq!(FailedCall::ListRepositories.describe(), "Failed to fetch repositories");
    assert_eq!(FailedCall::CreateJobRun.describe(), "Failed to create job run");
    assert_eq!(FailedCall::UpdateJobOutput.describe(), "Failed to update job output");
    assert_eq!(FailedCall::CompleteJobRun.describe(), "Failed to complete job run");
}

#[test]
fn calls_hand_the_arguments_on() {
    match dispatch(HubRequest::LogEvent { content: "{\"e\":1}".to_string() }) {
        ServiceCall::Log { content } => assert_eq!(content, "{\"e\":1}"),
        other => panic!("{other:?}"),
    }
    match dispatch(HubRequest::Search { q: "fn main".to_string(), limit: 20, offset: 40 }) {
        ServiceCall::Search { q, limit, offset } => {
            assert_eq!(q, "fn main");
            assert_eq!(limit, 20);
            assert_eq!(offset, 40);
        }
        other => panic!("{other:?}"),
    }
    match dispatch(HubRequest::SearchInLanguage {
        language: "rust".to_string(),
        tokens: vec!["impl".to_string(), "Drop".to_string()],
        limit: 5,
        offset: 0,
    }) {
        ServiceCall::SearchInLanguage { language, tokens, limit, offset } => {
            assert_eq!(language, "rust");
            assert_eq!(tokens, vec!["impl".to_string(), "Drop".to_string()]);
            assert_eq!(limit, 5);
            assert_eq!(offset, 0);
        }
        other => panic!("{other:?}"),
    }
    match dispatch(HubRequest::CreateJobRun { name: "build-1".to_string() }) {
        ServiceCall::CreateJobRun { name } => assert_eq!(name, "build-1"),
        other => panic!("{other:?}"),
    }
    match dispatch(HubRequest::UpdateJobStdout { id: 3, stdout: "out".to_string() }) {
        ServiceCall::UpdateJobStdout { id, stdout } => {
            assert_eq!(id, 3);
            assert_eq!(stdout, "out");
        }
        other => panic!("{other:?}"),
    }
    match dispatch(HubRequest::UpdateJobStderr { id: 4, stderr: "err".to_string() }) {
        ServiceCall::UpdateJobStderr { id, stderr } => {
            assert_eq!(id, 4);
            assert_eq!(stderr, "err");
        }
        other => panic!("{other:?}"),
    }
    match dispatch(HubRequest::CompleteJobRun { id: 5, exit_code: -9 }) {
        ServiceCall::CompleteJobRun { id, exit_code } => {
            assert_eq!(id, 5);
            assert_eq!(exit_code, -9);
        }
        other => panic!("{other:?}"),
    }
}

#[test]
fn repositories_are_asked_for_without_bounds() {
    match dispatch(HubRequest::ListRepositories) {
        ServiceCall::ListRepositories { after, before, first, last } => {
            assert_eq!(after, None);
            assert_eq!(before, None);
            assert_eq!(first, None);
            assert_eq!(last, None);
        }
        other => panic!("{other:?}"),
    }
}

#[test]
fn responses_follow_the_outcomes() {
    let logged: ServiceOutcome<Hits, String> = ServiceOutcome::Logged;
    let reply = respond(logged);
    assert!(matches!(reply.value, HubResponse::LogEvent));
    assert!(reply.warning.is_none());

    let found: ServiceOutcome<Hits, String> =
        ServiceOutcome::Search(Ok(Hits { total: 1, files: vec!["a".to_string()] }));
    match respond(found).value {
        HubResponse::Search(hits) => assert_eq!(hits.total, 1),
        other => panic!("{other:?}"),
    }

    let created: ServiceOutcome<Hits, String> = ServiceOutcome::CreateJobRun(Ok(12));
    assert!(matches!(respond(created).value, HubResponse::CreateJobRun(12)));

    let listed: ServiceOutcome<Hits, String> = ServiceOutcome::ListRepositories(Ok(vec![
        Repository { id: "r".to_string(), name: "n".to_string(), git_url: "u".to_string() },
    ]));
    match respond(listed).value {
        HubResponse::ListRepositories(configs) => {
            assert_eq!(configs.len(), 1);
            assert_eq!(configs[0].name, "n");
            assert_eq!(configs[0].git_url, "u");
        }
        other => panic!("{other:?}"),
    }

    let out: ServiceOutcome<Hits, String> = ServiceOutcome::UpdateJobStdout(Ok(()));
    assert!(matches!(respond(out).value, HubResponse::UpdateJobStdout));
    let err: ServiceOutcome<Hits, String> = ServiceOutcome::UpdateJobStderr(Ok(()));
    assert!(matches!(respond(err).value, HubResponse::UpdateJobStderr));
    let done: ServiceOutcome<Hits, String> = ServiceOutcome::CompleteJobRun(Ok(()));
    assert!(matches!(respond(done).value, HubResponse::CompleteJobRun));
}

#[test]
fn failed_services_never_fail_the_call() {
    let failed: ServiceOutcome<Hits, String> = ServiceOutcome::Search(Err(failure("s")));
    let reply = respond(failed);
    match reply.value {
        HubResponse::Search(hits) => assert_eq!(hits, Hits::default()),
        other => panic!("{other:?}"),
    }
    assert_eq!(reply.warning.unwrap().call, FailedCall::Search);

    let failed: ServiceOutcome<Hits, String> = ServiceOutcome::SearchInLanguage(Err(failure("s")));
    let reply = respond(failed);
    match reply.value {
        HubResponse::SearchInLanguage(hits) => assert_eq!(hits, Hits::default()),
        other => panic!("{other:?}"),
    }
    assert_eq!(reply.warning.unwrap().call, FailedCall::Search);

    let failed: ServiceOutcome<Hits, String> = ServiceOutcome::ListRepositories(Err(failure("l")));
    let reply = respond(failed);
    match reply.value {
        HubResponse::ListRepositories(configs) => assert!(configs.is_empty()),
        other => panic!("{other:?}"),
    }
    assert_eq!(reply.warning.unwrap().call, FailedCall::ListRepositories);

    let failed: ServiceOutcome<Hits, String> = ServiceOutcome::CreateJobRun(Err(failure("c")));
    let reply = respond(failed);
    assert!(matches!(reply.value, HubResponse::CreateJobRun(0)));
    assert_eq!(reply.warning.unwrap().cause, "c");

    let failed: ServiceOutcome<Hits, String> = ServiceOutcome::UpdateJobStdout(Err(failure("o")));
    let reply = respond(failed);
    assert!(matches!(reply.value, HubResponse::UpdateJobStdout));
    assert_eq!(reply.warning.unwrap().call, FailedCall::UpdateJobOutput);

    let failed: ServiceOutcome<Hits, String> = ServiceOutcome::UpdateJobStderr(Err(failure("e")));
    let reply = respond(failed);
    assert!(matches!(reply.value, HubResponse::UpdateJobStderr));
    assert_eq!(reply.warning.unwrap().call, FailedCall::UpdateJobOutput);

    let failed: ServiceOutcome<Hits, String> = ServiceOutcome::CompleteJobRun(Err(failure("d")));
    let reply = respond(failed);
    assert!(matches!(reply.value, HubResponse::CompleteJobRun));
    assert_eq!(reply.warning.unwrap().call, FailedCall::CompleteJobRun);
}
