use trakkin_providers::scenarios::{
    key, provider_item_subject, reference, FixtureSettings, Scenario, ScenarioError, ADVERSARIAL, EDITION_HIERARCHY,
    EMPTY_TARGETED_RECEIVER, FLAT_CATALOG_REVISIONS, HIERARCHICAL_CATALOG_ASSETS, DUAL_CONNECTION_ISOLATION,
    LOGICAL_TIME_MILLISECONDS,
};
use trakkin_providers::sdk::{
    AssetOutcome, CatalogEvent, CoordinateBacking, EndpointOutcome, LookupOutcome, LookupResponseOutcome, Observation,
    PortableEndpoint, ReadMode, ReadTargetedStateRequest, SourceMembership, StateEvent, StateField, StatePresence,
    TargetedReadOutcome, TargetedStateWriteCertainty, TargetedStateWriteIdempotencyMode, TargetedStateWriteIntent,
    TargetedStateWritePreconditionMode, TargetedStateWriteStatus, Term, Value, ValueKind, WriteOperation,
    WriteTargetedStateRequest,
};

fn settings(scenario_id: &str) -> FixtureSettings {
    FixtureSettings { scenario_id: scenario_id.to_owned(), ..FixtureSettings::default() }
}

fn watched() -> StateField {
    StateField { field: Some(Term { namespace: "dev.trakkin.state".to_owned(), name: "watched".to_owned() }), unit: None }
}

#[test]
fn empty_receiver_lookup_resolves_without_membership() {
    let scenario = Scenario::load(settings(EMPTY_TARGETED_RECEIVER)).unwrap();
    let receiver = scenario.sources().into_iter().find(|source| source.display_name == "Empty Receiver").unwrap();
    let events = scenario.catalog_events(receiver.key.as_ref().unwrap(), ReadMode::Full, &[]).unwrap();
    let batch = match events[0].event.as_ref().unwrap() {
        CatalogEvent::Batch(batch) => batch,
        _ => panic!("expected catalog batch"),
    };
    assert!(batch.item_upserts.is_empty());

    let requested = reference("media/quiet-signal");
    let response = scenario.lookup(&vec![requested]);
    let Some(LookupResponseOutcome::Result(results)) = response.outcome.as_ref() else {
        panic!("fixture lookup failed");
    };
    assert!(matches!(results[0].outcome, Some(LookupOutcome::Matched(_))));

    let requested_endpoint = PortableEndpoint {
        reference: Some(reference("media/quiet-signal")),
        selector: "segment:1..12".to_owned(),
    };
    let response = scenario.resolve_endpoints(&vec![requested_endpoint]);
    let candidate = match response.results[0].outcome.as_ref().unwrap() {
        EndpointOutcome::Matched(candidate) => candidate.as_ref().unwrap(),
        _ => panic!("expected matched endpoint"),
    };
    assert_eq!(candidate.binding.as_ref().unwrap().backing, CoordinateBacking::Aggregate);
}

#[test]
fn empty_receiver_targeted_read_returns_absent_preflight() {
    let scenario = Scenario::load(settings(EMPTY_TARGETED_RECEIVER)).unwrap();
    let receiver = scenario.sources().into_iter().find(|source| source.display_name == "Empty Receiver").unwrap();
    assert!(receiver.capabilities.as_ref().and_then(|c| c.targeted_state_read.as_ref()).is_some());
    let request = ReadTargetedStateRequest {
        operation_id: b"fixture-targeted-read".to_vec(),
        source_key: receiver.key,
        subject: Some(provider_item_subject("media.quiet-signal")),
        fields: vec![watched()],
        maximum_response_bytes: 4096,
        reconciliation_idempotency_key: Vec::new(),
    };
    let response = scenario.targeted_state(&request);
    let Some(TargetedReadOutcome::Matched(matched)) = response.outcome else {
        panic!("targeted state should match outside source membership")
    };
    assert_eq!(matched.membership, SourceMembership::Absent);
    assert_eq!(matched.fields[0].presence, StatePresence::Absent);
    assert!(matched.fields[0].value.is_none());
    assert_eq!(matched.precondition, b"expected-absent-r1");
    assert!(matched.expires_time_milliseconds.unwrap() > matched.observed_time_milliseconds);
}

#[test]
fn empty_receiver_write_creates_membership_idempotently() {
    let mut scenario = Scenario::load(settings(EMPTY_TARGETED_RECEIVER)).unwrap();
    let receiver = scenario.sources().into_iter().find(|source| source.display_name == "Empty Receiver").unwrap();
    let capability = receiver.capabilities.as_ref().and_then(|c| c.targeted_state_write.clone()).unwrap();
    assert_eq!(capability.precondition_mode, TargetedStateWritePreconditionMode::ProviderToken);
    assert_eq!(capability.idempotency_mode, TargetedStateWriteIdempotencyMode::StableKey);
    let request = WriteTargetedStateRequest {
        operation_id: b"fixture-targeted-write".to_vec(),
        source_key: receiver.key,
        subject: Some(provider_item_subject("media.quiet-signal")),
        idempotency_key: b"sync-action-empty".to_vec(),
        expected_membership: SourceMembership::Absent,
        precondition: b"expected-absent-r1".to_vec(),
        allow_create_membership: true,
        intents: vec![TargetedStateWriteIntent {
            field: Some(watched()),
            operation: Some(WriteOperation::Assign(Value { value: Some(ValueKind::Boolean(true)) })),
        }],
        maximum_receipt_bytes: 64,
        maximum_response_bytes: 4096,
    };
    let response = scenario.write_targeted_state(&request);
    assert_eq!(response.status, TargetedStateWriteStatus::Applied);
    assert_eq!(response.certainty, TargetedStateWriteCertainty::ConfirmedApplied);
    assert!(!response.receipt.is_empty());
    assert_eq!(scenario.write_targeted_state(&request), response);

    let read = ReadTargetedStateRequest {
        operation_id: b"fixture-targeted-read-after-write".to_vec(),
        source_key: request.source_key,
        subject: request.subject,
        fields: vec![watched()],
        maximum_response_bytes: 4096,
        reconciliation_idempotency_key: Vec::new(),
    };
    let response = scenario.targeted_state(&read);
    let Some(TargetedReadOutcome::Matched(matched)) = response.outcome else {
        panic!("targeted state should remain addressable after membership creation")
    };
    assert_eq!(matched.membership, SourceMembership::Present);
    assert_eq!(matched.fields[0].presence, StatePresence::Present);
    assert_eq!(matched.fields[0].value.as_ref().unwrap().value, Some(ValueKind::Boolean(true)));
    assert_eq!(matched.precondition, b"expected-present-r2");

    let adversarial = Scenario::load(settings(ADVERSARIAL)).unwrap();
    let weak = adversarial
        .sources()
        .into_iter()
        .find(|source| source.key.as_ref() == Some(&key("source.adversarial.lookup")))
        .and_then(|source| source.capabilities)
        .and_then(|capabilities| capabilities.targeted_state_write)
        .unwrap();
    assert_eq!(weak.precondition_mode, TargetedStateWritePreconditionMode::HostRecheckOnly);
}

#[test]
fn hierarchical_incremental_delete_and_asset_are_deterministic() {
    let scenario = Scenario::load(FixtureSettings {
        scenario_id: HIERARCHICAL_CATALOG_ASSETS.to_owned(),
        revision: "v2".to_owned(),
        ..FixtureSettings::default()
    })
    .unwrap();
    let source = key("source.hierarchy.catalog");
    let prior = format!("{HIERARCHICAL_CATALOG_ASSETS}/source.hierarchy.catalog/catalog/v1").into_bytes();
    let events = scenario.catalog_events(&source, ReadMode::Incremental, &prior).unwrap();
    assert!(matches!(events.last().unwrap().event, Some(CatalogEvent::Completed(_))));
    let batch = match events[0].event.as_ref().unwrap() {
        CatalogEvent::Batch(batch) => batch,
        _ => panic!("expected catalog batch"),
    };
    assert_eq!(batch.item_deletes, vec![key("media.hierarchy.item.2")]);

    let prior = format!("{HIERARCHICAL_CATALOG_ASSETS}/source.hierarchy.catalog/state/v1").into_bytes();
    let state_events = scenario.state_events(&source, ReadMode::Incremental, &prior).unwrap();
    let state_batch = match state_events[0].event.as_ref().unwrap() {
        StateEvent::Batch(batch) => batch,
        _ => panic!("expected state batch"),
    };
    assert!(state_batch.observations.iter().any(|observation| matches!(observation.observation, Some(Observation::Deletion(_)))));

    let asset = scenario.asset(&key("source.assets.catalog"), &key("media.asset.primary"), &key("asset.poster.valid"), 1024);
    let Some(AssetOutcome::Result(result)) = asset.outcome else { panic!("asset was not served") };
    assert_eq!(result.content_type, "image/jpeg");
    assert!(result.content.len() <= 1024);
    assert_eq!(result.full_length, result.content.len() as u64);
}

#[test]
fn adversarial_faults_and_lookup_outcomes_are_explicit() {
    let scenario = Scenario::load(FixtureSettings {
        scenario_id: ADVERSARIAL.to_owned(),
        fault: "read.malformed-catalog".to_owned(),
        ..FixtureSettings::default()
    })
    .unwrap();
    let events = scenario.catalog_events(&key("source.adversarial.catalog"), ReadMode::Full, &[]).unwrap();
    let Some(CatalogEvent::Batch(batch)) = events[0].event.as_ref() else { panic!("expected catalog batch") };
    assert_ne!(batch.sequence, 0);

    let references = vec![reference("missing"), reference("duplicate"), reference("other")];
    let response = scenario.lookup(&references);
    let Some(LookupResponseOutcome::Result(results)) = response.outcome.as_ref() else {
        panic!("fixture lookup failed");
    };
    assert!(matches!(results[0].outcome, Some(LookupOutcome::NotFound)));
    assert!(matches!(results[1].outcome, Some(LookupOutcome::Ambiguous(_))));
    assert!(matches!(results[2].outcome, Some(LookupOutcome::Unsupported)));
}

#[test]
fn lookup_catalog_revision_advances_only_its_state_stream() {
    let scenario = Scenario::load(FixtureSettings {
        scenario_id: EMPTY_TARGETED_RECEIVER.to_owned(),
        revision: "v2".to_owned(),
        ..FixtureSettings::default()
    })
    .unwrap();
    let catalog = scenario.catalog_events(&key("source.lookup.catalog"), ReadMode::Full, &[]).unwrap();
    let catalog_cursor = match catalog.last().unwrap().event.as_ref().unwrap() {
        CatalogEvent::Completed(completed) => &completed.next_cursor,
        _ => panic!("expected completed catalog read"),
    };
    assert!(catalog_cursor.ends_with(b"/v1"));

    let state = scenario.state_events(&key("source.lookup.catalog"), ReadMode::Full, &[]).unwrap();
    let batch = match state[0].event.as_ref().unwrap() {
        StateEvent::Batch(batch) => batch,
        _ => panic!("expected state batch"),
    };
    assert!(batch.observations[0].provider_revision.ends_with(b"/v2"));
    let state_cursor = match state.last().unwrap().event.as_ref().unwrap() {
        StateEvent::Completed(completed) => &completed.next_cursor,
        _ => panic!("expected completed state read"),
    };
    assert!(state_cursor.ends_with(b"/v2"));
}

#[test]
fn edition_hierarchy_is_full_only_and_revision_adds_items() {
    let scenario = Scenario::load(FixtureSettings {
        scenario_id: EDITION_HIERARCHY.to_owned(),
        revision: "v2".to_owned(),
        ..FixtureSettings::default()
    })
    .unwrap();
    let source = scenario.sources().remove(0);
    let capabilities = source.capabilities.unwrap();
    assert!(!capabilities.catalog.unwrap().incremental);
    assert!(!capabilities.state.unwrap().incremental);
    assert_eq!(
        scenario.catalog_events(source.key.as_ref().unwrap(), ReadMode::Incremental, b"cursor"),
        Err(ScenarioError::UnsupportedRead)
    );
    let events = scenario.catalog_events(source.key.as_ref().unwrap(), ReadMode::Full, &[]).unwrap();
    let batch = match events[0].event.as_ref().unwrap() {
        CatalogEvent::Batch(batch) => batch,
        _ => panic!("expected catalog batch"),
    };
    let item_keys = batch.item_upserts.iter().map(|item| item.key.clone().unwrap()).collect::<Vec<_>>();
    assert!(item_keys.contains(&key("chapter.winter.us.v1.c2")));
    assert!(item_keys.contains(&key("edition.winter.alt")));
}

#[test]
fn flat_and_adversarial_scenarios_publish_declared_revision_changes() {
    let flat = Scenario::load(FixtureSettings {
        scenario_id: FLAT_CATALOG_REVISIONS.to_owned(),
        revision: "v2".to_owned(),
        ..FixtureSettings::default()
    })
    .unwrap();
    let flat_events = flat
        .catalog_events(
            &key("source.flat.catalog"),
            ReadMode::Incremental,
            format!("{FLAT_CATALOG_REVISIONS}/source.flat.catalog/catalog/v1").as_bytes(),
        )
        .unwrap();
    let flat_batch = match flat_events[0].event.as_ref().unwrap() {
        CatalogEvent::Batch(batch) => batch,
        _ => panic!("expected flat catalog batch"),
    };
    assert_eq!(flat_batch.item_upserts.len(), 2);
    assert!(flat_batch.item_upserts.iter().any(|item| item.key.as_ref() == Some(&key("media.flat.revision"))));
    let flat_state = flat
        .state_events(
            &key("source.flat.catalog"),
            ReadMode::Incremental,
            format!("{FLAT_CATALOG_REVISIONS}/source.flat.catalog/state/v1").as_bytes(),
        )
        .unwrap();
    let flat_state_batch = match flat_state[0].event.as_ref().unwrap() {
        StateEvent::Batch(batch) => batch,
        _ => panic!("expected flat state batch"),
    };
    assert_eq!(flat_state_batch.observations.len(), 2);

    let adversarial_v1 = Scenario::load(settings(ADVERSARIAL)).unwrap();
    let adversarial_v2 = Scenario::load(FixtureSettings {
        scenario_id: ADVERSARIAL.to_owned(),
        revision: "v2".to_owned(),
        ..FixtureSettings::default()
    })
    .unwrap();
    let v1 = adversarial_v1.catalog_events(&key("source.adversarial.catalog"), ReadMode::Full, &[]).unwrap();
    let v2 = adversarial_v2.catalog_events(&key("source.adversarial.catalog"), ReadMode::Full, &[]).unwrap();
    let v1_relations = match v1[0].event.as_ref().unwrap() {
        CatalogEvent::Batch(batch) => &batch.relation_upserts,
        _ => panic!("expected adversarial v1 batch"),
    };
    let v2_relations = match v2[0].event.as_ref().unwrap() {
        CatalogEvent::Batch(batch) => &batch.relation_upserts,
        _ => panic!("expected adversarial v2 batch"),
    };
    assert_ne!(v1_relations, v2_relations);
    assert!(v2_relations.iter().any(|relation| relation.provider_item_key.is_none() && relation.parent_key.is_some()));
}

#[test]
fn unknown_fault_is_rejected() {
    assert!(matches!(
        Scenario::load(FixtureSettings { fault: "unknown".to_owned(), ..FixtureSettings::default() }),
        Err(ScenarioError::UnknownFault(_))
    ));
}

#[test]
fn settings_are_checked_in_order() {
    assert_eq!(
        Scenario::load(FixtureSettings { scenario_id: "x".to_owned(), revision: "v9".to_owned(), ..FixtureSettings::default() })
            .err(),
        Some(ScenarioError::UnknownScenario("x".to_owned()))
    );
    assert_eq!(
        Scenario::load(FixtureSettings { revision: "v9".to_owned(), ..FixtureSettings::default() }).err(),
        Some(ScenarioError::UnknownRevision("v9".to_owned()))
    );
    assert_eq!(
        Scenario::load(FixtureSettings { instance: "gamma".to_owned(), ..FixtureSettings::default() }).err(),
        Some(ScenarioError::UnknownInstance("gamma".to_owned()))
    );
    assert_eq!(ScenarioError::UnknownFault("x".to_owned()).message(), "unknown fixture fault x");
    assert_eq!(ScenarioError::StaleCursor.message(), "fixture cursor is stale");
}

#[test]
fn a_conflicting_write_under_a_used_key_is_refused() {
    let mut scenario = Scenario::load(settings(EMPTY_TARGETED_RECEIVER)).unwrap();
    let mut request = WriteTargetedStateRequest {
        operation_id: b"first".to_vec(),
        source_key: Some(key("source.receiver.empty")),
        subject: Some(provider_item_subject("media.quiet-signal")),
        idempotency_key: b"k".to_vec(),
        expected_membership: SourceMembership::Absent,
        precondition: b"expected-absent-r1".to_vec(),
        allow_create_membership: true,
        intents: vec![TargetedStateWriteIntent {
            field: Some(watched()),
            operation: Some(WriteOperation::Assign(Value { value: Some(ValueKind::Boolean(true)) })),
        }],
        maximum_receipt_bytes: 64,
        maximum_response_bytes: 4096,
    };
    let first = scenario.write_targeted_state(&request);
    assert_eq!(first.receipt, b"fixture-write-r2");
    request.operation_id = b"replay".to_vec();
    assert_eq!(scenario.write_targeted_state(&request), first);
    request.intents[0].operation = Some(WriteOperation::Clear);
    let conflict = scenario.write_targeted_state(&request);
    assert_eq!(conflict.status, TargetedStateWriteStatus::Rejected);
    assert_eq!(conflict.error.unwrap().code, "idempotency_key_conflict");
    request.idempotency_key = b"other".to_vec();
    let stale = scenario.write_targeted_state(&request);
    assert_eq!(stale.error.unwrap().code, "precondition_failed");
    request.expected_membership = SourceMembership::Present;
    request.precondition = first.successor_precondition.clone();
    let cleared = scenario.write_targeted_state(&request);
    assert_eq!(cleared.status, TargetedStateWriteStatus::Applied);
    assert_eq!(cleared.provider_revision, b"targeted.receiver.empty.v3");
}

#[test]
fn reads_are_refused_for_stale_cursors_and_unknown_sources() {
    let scenario = Scenario::load(settings(HIERARCHICAL_CATALOG_ASSETS)).unwrap();
    assert_eq!(
        scenario.catalog_events(&key("source.hierarchy.catalog"), ReadMode::Incremental, b"whatever"),
        Err(ScenarioError::StaleCursor)
    );
    assert_eq!(scenario.catalog_events(&key("source.nowhere"), ReadMode::Full, &[]), Err(ScenarioError::UnknownSource));
    assert_eq!(
        scenario.state_events(&key("source.hierarchy.catalog"), ReadMode::Full, b"cursor"),
        Err(ScenarioError::UnsupportedRead)
    );
    let events = scenario.catalog_events(&key("source.hierarchy.catalog"), ReadMode::Full, &[]).unwrap();
    let Some(CatalogEvent::Completed(completed)) = events[1].event.as_ref() else { panic!("expected completion") };
    assert_eq!(completed.next_cursor, format!("{HIERARCHICAL_CATALOG_ASSETS}/source.hierarchy.catalog/catalog/v1").into_bytes());
    assert_eq!(completed.observed_time_milliseconds, LOGICAL_TIME_MILLISECONDS);
}

#[test]
fn isolated_connections_serve_their_own_poster() {
    let alpha = Scenario::load(settings(DUAL_CONNECTION_ISOLATION)).unwrap();
    let beta = Scenario::load(FixtureSettings {
        scenario_id: DUAL_CONNECTION_ISOLATION.to_owned(),
        instance: "beta".to_owned(),
        ..FixtureSettings::default()
    })
    .unwrap();
    let served = alpha.asset(&key("source.alpha.catalog"), &key("media.alpha.root"), &key("asset.alpha.poster"), 1024);
    let Some(AssetOutcome::Result(result)) = served.outcome else { panic!("asset was not served") };
    assert_eq!(result.content, b"\xff\xd8\xffFXDUALA\xff\xd9".to_vec());
    let refused = beta.asset(&key("source.alpha.catalog"), &key("media.alpha.root"), &key("asset.alpha.poster"), 1024);
    let Some(AssetOutcome::Error(failure)) = refused.outcome else { panic!("foreign asset was served") };
    assert_eq!(failure.code, "source_not_found");
    let small = beta.asset(&key("source.beta.catalog"), &key("media.beta.root"), &key("asset.beta.poster"), 4);
    let Some(AssetOutcome::Error(failure)) = small.outcome else { panic!("oversized asset was served") };
    assert_eq!(failure.code, "asset_too_large");
}

fn quiet_signal_write(key_text: &str, expected: SourceMembership, precondition: &str, intents: Vec<TargetedStateWriteIntent>) -> WriteTargetedStateRequest {
    WriteTargetedStateRequest {
        operation_id: format!("op-{key_text}").into_bytes(),
        source_key: Some(key("source.receiver.empty")),
        subject: Some(provider_item_subject("media.quiet-signal")),
        idempotency_key: key_text.as_bytes().to_vec(),
        expected_membership: expected,
        precondition: precondition.as_bytes().to_vec(),
        allow_create_membership: true,
        intents,
        maximum_receipt_bytes: 64,
        maximum_response_bytes: 4096,
    }
}

#[test]
fn a_write_record_survives_later_writes_and_the_last_intent_decides() {
    let mut scenario = Scenario::load(settings(EMPTY_TARGETED_RECEIVER)).unwrap();
    let set = TargetedStateWriteIntent {
        field: Some(watched()),
        operation: Some(WriteOperation::Assign(Value { value: Some(ValueKind::Boolean(true)) })),
    };
    let clear = TargetedStateWriteIntent { field: Some(watched()), operation: Some(WriteOperation::Clear) };
    let first = quiet_signal_write("first", SourceMembership::Absent, "expected-absent-r1", vec![set.clone()]);
    let answered = scenario.write_targeted_state(&first);
    assert_eq!(answered.status, TargetedStateWriteStatus::Applied);

    let second = quiet_signal_write("second", SourceMembership::Present, "expected-present-r2", vec![set, clear]);
    assert_eq!(scenario.write_targeted_state(&second).status, TargetedStateWriteStatus::Applied);

    let replay = WriteTargetedStateRequest { operation_id: b"another".to_vec(), ..first.clone() };
    assert_eq!(scenario.write_targeted_state(&replay), answered);
    let conflict = WriteTargetedStateRequest { maximum_receipt_bytes: 8, ..first };
    let refused = scenario.write_targeted_state(&conflict);
    assert_eq!(refused.status, TargetedStateWriteStatus::Rejected);
    assert_eq!(refused.error.unwrap().code, "idempotency_key_conflict");

    let read = ReadTargetedStateRequest {
        operation_id: b"read".to_vec(),
        source_key: Some(key("source.receiver.empty")),
        subject: Some(provider_item_subject("media.quiet-signal")),
        fields: vec![watched()],
        maximum_response_bytes: 4096,
        reconciliation_idempotency_key: Vec::new(),
    };
    let Some(TargetedReadOutcome::Matched(matched)) = scenario.targeted_state(&read).outcome else {
        panic!("the quiet signal is readable")
    };
    assert_eq!(matched.fields[0].presence, StatePresence::Deleted);
    assert_eq!(matched.fields[0].value, None);
    assert_eq!(matched.provider_revision, b"targeted.receiver.empty.v3");
}

#[test]
fn every_state_observation_carries_the_completion_revision() {
    let scenario = Scenario::load(FixtureSettings {
        scenario_id: EMPTY_TARGETED_RECEIVER.to_owned(),
        revision: "v2".to_owned(),
        ..FixtureSettings::default()
    })
    .unwrap();
    let events = scenario.state_events(&key("source.lookup.catalog"), ReadMode::Full, &[]).unwrap();
    let Some(StateEvent::Batch(batch)) = events[0].event.as_ref() else { panic!("expected state batch") };
    let Some(StateEvent::Completed(completed)) = events[1].event.as_ref() else { panic!("expected completion") };
    assert!(!batch.observations.is_empty());
    for observation in &batch.observations {
        assert_eq!(observation.provider_revision, completed.evidence_revision);
        assert_eq!(observation.observed_time_milliseconds, LOGICAL_TIME_MILLISECONDS + 1_000);
    }
}
