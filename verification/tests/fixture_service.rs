use trakkin_providers::fixture::{
    adapter_error, authentication_methods, cancel_authentication, cancel_operation, catalog_failure,
    check_process_instance, configuration_fields, continue_authentication, fixture_category,
    invalid_connection_failure, opening_failure, scenario_error_code, settings_from, start_authentication,
    state_failure, stream_plan, StreamPlan,
};
use trakkin_providers::scenarios::{
    key, reference, Scenario, ScenarioError, ADVERSARIAL, DUAL_CONNECTION_ISOLATION, EMPTY_TARGETED_RECEIVER,
};
use trakkin_providers::sdk::{
    AssetOutcome, AuthenticationStatus, CatalogEvent, ConfigurationValue, CoordinateBacking, EndpointOutcome,
    LookupOutcome, LookupResponseOutcome, OperationFailureCategory, PortableEndpoint, ReadCatalogResponse, ReadMode,
    ReadStateResponse, RetryDisposition, SecretValue, StateEvent, Value, ValueKind,
};
use trakkin_providers::service::{OperationRegistry, ServiceErrorCode};

/// Opens a fixture connection as the provider does: the settings must be
/// accepted, the scenario loaded, and the scenario's opening fault absent.
fn open(scenario: &str, revision: &str, fault: &str, instance: &str, secret: &str) -> Result<Scenario, String> {
    let settings = vec![
        text("scenario", scenario),
        text("revision", revision),
        text("fault", fault),
        text("instance", instance),
    ];
    let secrets = vec![SecretValue { key: "fixture_token".to_owned(), value: secret.as_bytes().to_vec() }];
    let settings = settings_from(&settings, &secrets).map_err(|problems| invalid_connection_failure(problems).code)?;
    let scenario = Scenario::load(settings).map_err(|error| scenario_error_code(&error))?;
    match opening_failure(&scenario) {
        Some(failure) => Err(failure.code),
        None => Ok(scenario),
    }
}

/// The events of a catalog read as the provider streams them: the
/// scenario's events, or the failure that its refusal leads to.
fn catalog(scenario: &Scenario, source: &str, mode: ReadMode, prior: &[u8]) -> Vec<ReadCatalogResponse> {
    match scenario.catalog_events(&key(source), mode, prior) {
        Ok(events) => events,
        Err(error) => catalog_failure(&error),
    }
}

fn state(scenario: &Scenario, source: &str) -> Vec<ReadStateResponse> {
    match scenario.state_events(&key(source), ReadMode::Full, &[]) {
        Ok(events) => events,
        Err(error) => state_failure(&error),
    }
}

fn text(key: &str, value: &str) -> ConfigurationValue {
    ConfigurationValue { key: key.to_owned(), value: Some(Value { value: Some(ValueKind::Text(value.to_owned())) }) }
}

#[test]
fn open_connection_requires_valid_fixture_secret() {
    let settings = vec![text("scenario", EMPTY_TARGETED_RECEIVER)];
    let secrets = vec![SecretValue { key: "fixture_token".to_owned(), value: b"wrong".to_vec() }];
    let problems = settings_from(&settings, &secrets).unwrap_err();
    let error = invalid_connection_failure(problems);
    assert_eq!(error.code, "invalid_connection");
}

#[test]
fn complete_settings_with_the_right_token_are_accepted() {
    let settings = vec![
        text("scenario", "dual-connection-isolation-v1"),
        text("revision", "v2"),
        text("fault", "none"),
        text("instance", "beta"),
    ];
    let secrets = vec![SecretValue { key: "fixture_token".to_owned(), value: b"fixture-secret-beta".to_vec() }];
    let accepted = settings_from(&settings, &secrets).unwrap();
    assert_eq!(accepted.instance, "beta");
    assert_eq!(accepted.revision, "v2");
}

#[test]
fn settings_problems_name_each_field() {
    let settings = vec![
        text("scenario", "nowhere"),
        text("scenario", "again"),
        ConfigurationValue { key: "revision".to_owned(), value: None },
        text("colour", "blue"),
    ];
    let problems = settings_from(&settings, &Vec::new()).unwrap_err();
    let found: Vec<(String, String)> = problems.iter().map(|p| (p.path.clone(), p.code.clone())).collect();
    assert_eq!(
        found,
        vec![
            ("scenario".to_owned(), "duplicate_field".to_owned()),
            ("revision".to_owned(), "invalid_type".to_owned()),
            ("colour".to_owned(), "unknown_field".to_owned()),
            ("fault".to_owned(), "required".to_owned()),
            ("instance".to_owned(), "required".to_owned()),
            ("fixture_token".to_owned(), "invalid_secret".to_owned()),
            ("scenario".to_owned(), "unknown fixture scenario nowhere".to_owned()),
        ]
    );
    assert_eq!(problems[0].message, "duplicate field");
}

#[test]
fn failure_categories_follow_their_codes() {
    assert_eq!(fixture_category("invalid_connection"), OperationFailureCategory::InvalidInput);
    assert_eq!(fixture_category("authentication_denied"), OperationFailureCategory::Authentication);
    assert_eq!(fixture_category("temporary_failure"), OperationFailureCategory::Unavailable);
    assert_eq!(fixture_category("precondition_failed"), OperationFailureCategory::Conflict);
    assert_eq!(fixture_category("unsupported_read"), OperationFailureCategory::Unsupported);
    assert_eq!(fixture_category("malformed"), OperationFailureCategory::InvalidRemoteData);
    assert_eq!(fixture_category("fatal_failure"), OperationFailureCategory::Internal);
    let failure = adapter_error("stale_cursor", false);
    assert_eq!(failure.safe_message, "stale cursor");
    assert_eq!(failure.diagnostic_id, "fixture:stale_cursor");
    assert_eq!(scenario_error_code(&ScenarioError::StaleCursor), "stale_cursor");
    assert_eq!(scenario_error_code(&ScenarioError::UnknownSource), "source_not_found");
    assert_eq!(scenario_error_code(&ScenarioError::InvalidKey), "invalid_fixture_configuration");
}

#[test]
fn scripted_sign_in_follows_its_method() {
    let device = start_authentication("fixture/device").unwrap();
    assert_eq!(device.status, AuthenticationStatus::InputRequired);
    assert_eq!(device.prompt.unwrap().fields[0].key, "code");
    assert_eq!(start_authentication("fixture/wait").unwrap().authentication_id, "auth-wait");
    assert_eq!(start_authentication("fixture/expire").unwrap().status, AuthenticationStatus::Expired);
    assert_eq!(start_authentication("fixture/deny").unwrap_err().code, "authentication_denied");
    assert_eq!(start_authentication("fixture/other").unwrap_err().code, "authentication_method_unknown");
    let completed = continue_authentication("auth-device", &vec![text("code", "approved")]).unwrap();
    assert_eq!(completed.status, AuthenticationStatus::Completed);
    assert_eq!(completed.accounts[0].display_name, "Authenticated fixture account");
    assert!(continue_authentication("auth-device", &vec![text("code", "nope")]).is_err());
    assert_eq!(continue_authentication("auth-wait", &Vec::new()).unwrap().retry_after_seconds, Some(1));
    assert!(cancel_authentication("auth-cancel").is_ok());
    assert_eq!(cancel_authentication("auth-wait").unwrap_err().code, "authentication_not_cancellable");
}

#[test]
fn connection_fields_offer_the_known_values() {
    let fields = configuration_fields();
    assert_eq!(fields.len(), 5);
    assert_eq!(fields[0].options.len(), 6);
    assert_eq!(fields[2].options.len(), 12);
    assert!(fields[4].secret);
    assert_eq!(stream_plan("read.hang-before-stream"), StreamPlan::HangBeforeStream);
    assert_eq!(stream_plan("read.hang-after-heartbeat"), StreamPlan::HangAfterHeartbeat);
    assert_eq!(stream_plan("none"), StreamPlan::Events);
}

#[test]
fn bootstrap_token_auth_and_empty_receiver_flow_cross_process_boundary() {
    assert!(check_process_instance("core-flow", "core-flow").is_ok());
    assert_eq!(check_process_instance("other", "core-flow").unwrap_err().code, ServiceErrorCode::FailedPrecondition);

    let settings = vec![
        text("scenario", EMPTY_TARGETED_RECEIVER),
        text("revision", "v1"),
        text("fault", "unknown-fault"),
        text("instance", "alpha"),
    ];
    let secrets = vec![SecretValue { key: "fixture_token".to_owned(), value: b"fixture-secret".to_vec() }];
    let problems = settings_from(&settings, &secrets).unwrap_err();
    assert!(problems.iter().any(|problem| problem.path == "fault"));

    assert!(!authentication_methods().is_empty());
    let step = start_authentication("fixture/device").unwrap();
    assert_eq!(step.status, AuthenticationStatus::InputRequired);
    let step = continue_authentication(&step.authentication_id, &vec![text("code", "approved")]).unwrap();
    assert_eq!(step.status, AuthenticationStatus::Completed);
    for (method, expected) in [
        ("fixture/wait", AuthenticationStatus::Waiting),
        ("fixture/expire", AuthenticationStatus::Expired),
        ("fixture/cancel", AuthenticationStatus::Waiting),
    ] {
        assert_eq!(start_authentication(method).unwrap().status, expected);
    }
    assert!(start_authentication("fixture/deny").is_err());
    assert!(cancel_authentication("auth-cancel").is_ok());

    let scenario = open(EMPTY_TARGETED_RECEIVER, "v1", "none", "alpha", "fixture-secret").unwrap();
    assert!(!scenario.sources().is_empty());
    let events = catalog(&scenario, "source.receiver.empty", ReadMode::Full, &[]);
    let Some(CatalogEvent::Batch(batch)) = events[0].event.as_ref() else {
        panic!("expected catalog batch");
    };
    assert_eq!(batch.sequence, 0);
    assert!(batch.item_upserts.is_empty());
    assert!(matches!(events.last().unwrap().event, Some(CatalogEvent::Completed(_))));

    let lookup = scenario.lookup(&vec![reference("media/quiet-signal")]);
    let Some(LookupResponseOutcome::Result(results)) = lookup.outcome.as_ref() else {
        panic!("fixture lookup failed");
    };
    assert!(matches!(results[0].outcome, Some(LookupOutcome::Matched(_))));

    let requested = PortableEndpoint { reference: Some(reference("media/quiet-signal")), selector: "segment:1..12".to_owned() };
    let resolution = scenario.resolve_endpoints(&vec![requested]);
    let Some(EndpointOutcome::Matched(Some(candidate))) = resolution.results[0].outcome.as_ref() else {
        panic!("expected matched endpoint");
    };
    assert_eq!(candidate.binding.as_ref().unwrap().backing, CoordinateBacking::Aggregate);
}

#[test]
fn declared_faults_have_deterministic_contract_outcomes() {
    for fault in [
        "read.stale-cursor",
        "read.cancel-after-batch",
        "read.retryable-after-batch",
        "read.fatal-after-batch",
        "read.malformed-catalog",
    ] {
        let scenario = open(ADVERSARIAL, "v2", fault, "alpha", "fixture-secret").unwrap();
        let events = catalog(&scenario, "source.adversarial.catalog", ReadMode::Full, &[]);
        let last = events.last().unwrap().event.as_ref().unwrap();
        match fault {
            "read.stale-cursor" => {
                assert!(matches!(events[0].event, Some(CatalogEvent::Failed(_))));
                let state_events = state(&scenario, "source.adversarial.state");
                assert!(matches!(state_events[0].event, Some(StateEvent::Failed(_))));
            }
            "read.cancel-after-batch" => assert!(matches!(last, CatalogEvent::Cancelled(_))),
            "read.retryable-after-batch" => match last {
                CatalogEvent::Failed(failed) => assert_eq!(
                    failed.error.as_ref().unwrap().retry.as_ref().unwrap().disposition,
                    RetryDisposition::Retryable
                ),
                _ => panic!("expected retryable failure"),
            },
            "read.fatal-after-batch" => match last {
                CatalogEvent::Failed(failed) => assert_eq!(
                    failed.error.as_ref().unwrap().retry.as_ref().unwrap().disposition,
                    RetryDisposition::NotRetryable
                ),
                _ => panic!("expected fatal failure"),
            },
            "read.malformed-catalog" => {
                let Some(CatalogEvent::Batch(batch)) = events[0].event.as_ref() else {
                    panic!("expected catalog batch");
                };
                assert_ne!(batch.sequence, 0);
            }
            _ => unreachable!(),
        }
    }

    let scenario = open(ADVERSARIAL, "v2", "read.malformed-state", "alpha", "fixture-secret").unwrap();
    let events = state(&scenario, "source.adversarial.state");
    let Some(StateEvent::Batch(batch)) = events[0].event.as_ref() else {
        panic!("expected state batch");
    };
    assert_ne!(batch.sequence, 0);

    let scenario = open(ADVERSARIAL, "v1", "asset.over-limit", "alpha", "fixture-secret").unwrap();
    let lookup = scenario.lookup(&vec![reference("missing"), reference("duplicate"), reference("other")]);
    let Some(LookupResponseOutcome::Result(results)) = lookup.outcome.as_ref() else {
        panic!("fixture lookup failed");
    };
    assert!(matches!(results[0].outcome, Some(LookupOutcome::NotFound)));
    assert!(matches!(results[1].outcome, Some(LookupOutcome::Ambiguous(_))));
    assert!(matches!(results[2].outcome, Some(LookupOutcome::Unsupported)));
    let asset = scenario.asset(
        &key("source.adversarial.catalog"),
        &key("adversarial.item.left"),
        &key("asset.adversarial.poster"),
        1024,
    );
    let Some(AssetOutcome::Error(error)) = asset.outcome else {
        panic!("fixture asset fault succeeded");
    };
    assert_eq!(error.code, "asset_too_large");

    let Err(error) = open(ADVERSARIAL, "v1", "auth.secret-in-error", "alpha", "fixture-secret") else {
        panic!("the secret-in-error fault opened the connection");
    };
    assert_eq!(error, "authentication_failed");
    let scenario = Scenario::load(
        settings_from(
            &vec![
                text("scenario", ADVERSARIAL),
                text("revision", "v1"),
                text("fault", "auth.secret-in-error"),
                text("instance", "alpha"),
            ],
            &vec![SecretValue { key: "fixture_token".to_owned(), value: b"fixture-secret".to_vec() }],
        )
        .unwrap(),
    )
    .unwrap();
    assert!(!opening_failure(&scenario).unwrap().safe_message.contains("fixture-secret"));
}

#[test]
fn cancellation_and_dual_process_state_are_isolated() {
    let alpha = open(DUAL_CONNECTION_ISOLATION, "v1", "read.hang-after-heartbeat", "alpha", "fixture-secret-alpha").unwrap();
    assert!(open(DUAL_CONNECTION_ISOLATION, "v2", "none", "beta", "fixture-secret-alpha").is_err());
    let beta = open(DUAL_CONNECTION_ISOLATION, "v2", "none", "beta", "fixture-secret-beta").unwrap();

    assert_eq!(stream_plan(&alpha.settings().fault), StreamPlan::HangAfterHeartbeat);
    let operation_id = b"alpha-hanging-read".to_vec();
    let mut operations = OperationRegistry::new();
    assert!(operations.register(&operation_id).is_ok());
    assert_eq!(operations.register(&operation_id).unwrap_err().code, ServiceErrorCode::AlreadyExists);
    assert!(cancel_operation(&operations, &operation_id).is_ok());

    let prior = format!("{DUAL_CONNECTION_ISOLATION}/source.beta.catalog/catalog/v1").into_bytes();
    let beta_events = catalog(&beta, "source.beta.catalog", ReadMode::Incremental, &prior);
    let Some(CatalogEvent::Batch(batch)) = beta_events[0].event.as_ref() else {
        panic!("expected beta update batch");
    };
    assert_eq!(batch.item_deletes, vec![key("media.beta.item.2")]);

    let alpha_asset = alpha.asset(&key("source.alpha.catalog"), &key("media.alpha.root"), &key("asset.alpha.poster"), 1024);
    let beta_asset = beta.asset(&key("source.beta.catalog"), &key("media.beta.root"), &key("asset.beta.poster"), 1024);
    let Some(AssetOutcome::Result(alpha_asset)) = alpha_asset.outcome else {
        panic!("alpha asset read failed");
    };
    let Some(AssetOutcome::Result(beta_asset)) = beta_asset.outcome else {
        panic!("beta asset read failed");
    };
    assert!(alpha_asset.content.len() <= 1024);
    assert_eq!(alpha_asset.content_type, "image/jpeg");
    assert_ne!(alpha_asset.content, beta_asset.content);
}

#[test]
fn hanging_faults_cancel_with_terminal_events() {
    for (fault, plan) in [
        ("read.hang-before-stream", StreamPlan::HangBeforeStream),
        ("read.hang-after-heartbeat", StreamPlan::HangAfterHeartbeat),
    ] {
        let scenario = open(ADVERSARIAL, "v1", fault, "alpha", "fixture-secret").unwrap();
        assert_eq!(stream_plan(&scenario.settings().fault), plan);
        let operation_id = fault.as_bytes().to_vec();
        let mut operations = OperationRegistry::new();
        operations.register(&operation_id).unwrap();
        assert!(cancel_operation(&operations, &operation_id).is_ok());
        operations.remove(&operation_id);
        assert!(cancel_operation(&operations, &operation_id).is_err());
    }
}
