use trakkin_providers::adapter::{
    applied_write_response, catalog_paths, check_lookup_request, client_identifier, connection_failure, failure_class,
    page_size, page_step, plex_failure, plex_settings, source_revision, source_snapshot, state_write_calls,
    targeted_read_response, validation_problems, write_response,
    HttpMethod, PageStep, PlexCall, ServerCredential, MAX_PAGE_SIZE,
};
use trakkin_providers::assets::{asset_limit, asset_path, asset_response, check_asset_request};
use trakkin_providers::authentication::{
    authentication_id, authentication_prompt, cancel_attempt, check_authentication_method, continue_step,
    pending_authentication, pin_checked, pin_lifetime_seconds, start_attempt, ContinueStep, PendingAuthentications,
};
use trakkin_providers::client::PlexError;
use trakkin_providers::connection::{
    cached_section, connection_capabilities, find_section, opened_secret_patches, request_client_identifier,
    sections_fallback, server_account, server_token, writable_rating_key,
};
use trakkin_providers::mapping::{
    boolean_value, decimal_value, integer_value, item_key, progress_field, rating_field, source_key, watched_field,
};
use trakkin_providers::model::{LibrarySection, MediaItem, Pin, Resource, ServerInfo};
use trakkin_providers::sdk::{
    AssetOutcome, AuthenticationStatus, ConfigurationValue, OperationFailureCategory, RetryDisposition,
    SecretPatchOperation, SecretValue, SourceMembership, Subject, SubjectReference, TargetedReadOutcome, TargetedStateWriteIntent, TargetedStateWriteStatus, Value, ValueKind,
    WriteOperation, WriteTargetedStateRequest,
};
use trakkin_providers::service::{OperationRegistry, ServiceErrorCode};

fn section(key: &str, media_type: &str) -> LibrarySection {
    LibrarySection {
        key: key.to_owned(),
        uuid: "uuid".to_owned(),
        title: "Library".to_owned(),
        media_type: media_type.to_owned(),
        updated_at: 7,
    }
}

fn text(value: &str) -> Option<Value> {
    Some(Value { value: Some(ValueKind::Text(value.to_owned())) })
}

#[test]
fn pages_advance_until_the_library_ends() {
    assert_eq!(page_step(0, 2, 0, 2, Some(5)), PageStep::Next(2));
    assert_eq!(page_step(2, 2, 2, 2, Some(5)), PageStep::Next(4));
    assert_eq!(page_step(4, 2, 4, 1, Some(5)), PageStep::Finished);
    assert_eq!(page_step(0, 2, 0, 0, None), PageStep::Finished);
    assert_eq!(page_step(0, 2, 0, 1, None), PageStep::Finished);
    assert_eq!(page_step(0, 2, 0, 2, None), PageStep::Next(2));
    assert_eq!(page_step(2, 2, 0, 2, Some(10)), PageStep::NotAdvancing);
    assert_eq!(page_size(0), 1);
    assert_eq!(page_size(50), 50);
    assert_eq!(page_size(5000), MAX_PAGE_SIZE);
}

#[test]
fn show_and_artist_sections_are_read_by_type() {
    let paths = catalog_paths(&section("3", "show"));
    assert_eq!(
        paths,
        vec![
            ("/library/sections/3/all".to_owned(), Some("2")),
            ("/library/sections/3/all".to_owned(), Some("3")),
            ("/library/sections/3/all".to_owned(), Some("4")),
        ]
    );
    assert_eq!(catalog_paths(&section("9", "artist"))[2], ("/library/sections/9/all".to_owned(), Some("10")));
    assert_eq!(catalog_paths(&section("1", "movie")), vec![("/library/sections/1/all".to_owned(), None)]);
}

#[test]
fn source_revisions_name_server_and_section() {
    let server = ServerInfo {
        machine_identifier: "machine".to_owned(),
        friendly_name: "Home Plex".to_owned(),
        version: "1.40".to_owned(),
        updated_at: 12,
    };
    assert_eq!(source_revision(&server, &section("1", "movie")), b"machine:1.40:12:7".to_vec());
}

#[test]
fn plex_failures_are_classified_by_status() {
    assert_eq!(failure_class(&PlexError::Response(Some(401))), (OperationFailureCategory::Authentication, false));
    assert_eq!(failure_class(&PlexError::Response(Some(403))), (OperationFailureCategory::Authorization, false));
    assert_eq!(failure_class(&PlexError::Response(Some(429))), (OperationFailureCategory::RateLimited, true));
    assert_eq!(failure_class(&PlexError::Response(Some(503))), (OperationFailureCategory::Unavailable, true));
    assert_eq!(failure_class(&PlexError::Response(Some(404))), (OperationFailureCategory::InvalidRemoteData, false));
    assert_eq!(failure_class(&PlexError::Transport(None)), (OperationFailureCategory::Unavailable, true));
    assert_eq!(failure_class(&PlexError::InvalidBaseUrl), (OperationFailureCategory::InvalidInput, false));
    assert_eq!(failure_class(&PlexError::AssetTooLarge), (OperationFailureCategory::InvalidInput, false));
    let failure = plex_failure(&PlexError::Response(Some(503)), "catalog_read_failed", "The Plex library catalog could not be read.");
    assert_eq!(failure.code, "catalog_read_failed");
    assert_eq!(failure.retry.unwrap().disposition, RetryDisposition::Retryable);
    assert!(failure.diagnostic_id.starts_with("plex:"));
    assert_eq!(failure.diagnostic_id.len(), 41);
}

#[test]
fn reports_rejected_credentials_when_opening_the_server() {
    let failure = connection_failure(&PlexError::Response(Some(401)));
    assert_eq!(failure.category, OperationFailureCategory::Authentication);
    assert_eq!(failure.code, "connection_authentication_failed");
    assert_eq!(
        failure.safe_message,
        "The Plex server rejected the authentication token. Connect again to reauthenticate."
    );
}

#[test]
fn reports_denied_access_when_opening_the_server() {
    let failure = connection_failure(&PlexError::Response(Some(403)));
    assert_eq!(failure.category, OperationFailureCategory::Authorization);
    assert_eq!(failure.code, "connection_authorization_failed");
    assert_eq!(failure.safe_message, "The Plex server denied access for the authenticated account.");
}

#[test]
fn reports_malformed_server_information_when_opening_the_server() {
    let failure = connection_failure(&PlexError::InvalidResponse);
    assert_eq!(failure.category, OperationFailureCategory::InvalidRemoteData);
    assert_eq!(failure.code, "connection_invalid_response");
    assert_eq!(failure.safe_message, "The Plex server returned an invalid response.");
}

#[test]
fn reports_transport_failure_when_opening_the_server() {
    let failure = connection_failure(&PlexError::Transport(None));
    assert_eq!(failure.category, OperationFailureCategory::Unavailable);
    assert_eq!(failure.code, "connection_unavailable");
    assert_eq!(failure.safe_message, "The Plex server could not be reached.");
}

#[test]
fn reports_server_missing_from_the_signed_in_account() {
    let resources = vec![Resource {
        name: "Another Plex".to_owned(),
        client_identifier: "server-2".to_owned(),
        access_token: Some("token".to_owned()),
        provides: "server".to_owned(),
        connections: Vec::new(),
    }];
    let failure = server_token(&resources, "server-1").unwrap_err();
    assert_eq!(failure.category, OperationFailureCategory::Authorization);
    assert_eq!(failure.code, "connection_server_not_found");
    assert_eq!(failure.safe_message, "The signed-in Plex account does not include this server.");
}

#[test]
fn reports_server_resource_without_an_access_token() {
    let resources = vec![Resource {
        name: "Home Plex".to_owned(),
        client_identifier: "server-1".to_owned(),
        access_token: None,
        provides: "server".to_owned(),
        connections: Vec::new(),
    }];
    let failure = server_token(&resources, "server-1").unwrap_err();
    assert_eq!(failure.category, OperationFailureCategory::Authorization);
    assert_eq!(failure.code, "connection_server_access_denied");
    assert_eq!(failure.safe_message, "The signed-in Plex account does not have access to this server.");
}

#[test]
fn the_first_listed_resource_for_the_server_gives_its_token() {
    let resource = |id: &str, token: Option<&str>| Resource {
        name: "Plex".to_owned(),
        client_identifier: id.to_owned(),
        access_token: token.map(|t| t.to_owned()),
        provides: "server".to_owned(),
        connections: Vec::new(),
    };
    let resources = vec![resource("other", Some("a")), resource("server-1", Some("b")), resource("server-1", None)];
    assert_eq!(server_token(&resources, "server-1").unwrap(), "b");
}

#[test]
fn connection_settings_need_a_server_url_and_token() {
    let settings = vec![ConfigurationValue { key: "server_url".to_owned(), value: text("http://plex.local:32400") }];
    let secrets = vec![SecretValue { key: "token".to_owned(), value: b"secret".to_vec() }];
    let accepted = plex_settings(&settings, &secrets).unwrap();
    assert_eq!(accepted.server_url, "http://plex.local:32400");
    assert_eq!(accepted.credential, ServerCredential::Token("secret".to_owned()));
    let problems = plex_settings(&settings, &Vec::new()).unwrap_err();
    assert_eq!(problems.len(), 1);
    assert_eq!(problems[0].path, "token");
    assert_eq!(problems[0].code, "required");
    assert!(validation_problems(&settings, &Vec::new()).is_empty());
    let account = vec![SecretValue { key: "account_token".to_owned(), value: b"account".to_vec() }];
    assert_eq!(
        plex_settings(&settings, &account).unwrap().credential,
        ServerCredential::Account { account_token: "account".to_owned(), client_identifier: None }
    );
    let empty = vec![SecretValue { key: "client_identifier".to_owned(), value: Vec::new() }];
    let problems = plex_settings(&settings, &empty).unwrap_err();
    assert_eq!(problems[0].path, "client_identifier");
    assert_eq!(problems[0].message, "Plex client identifier is required.");
    assert_eq!(problems[1].path, "token");
    let invalid = vec![SecretValue { key: "account_token".to_owned(), value: vec![0xff] }];
    let problems = plex_settings(&settings, &invalid).unwrap_err();
    assert_eq!(problems.len(), 1);
    assert_eq!(problems[0].code, "invalid_type");
    assert_eq!(problems[0].message, "Plex account token must be UTF-8 text.");
}

#[test]
fn the_server_stands_for_an_account_under_its_name() {
    let server = ServerInfo {
        machine_identifier: "machine".to_owned(),
        friendly_name: String::new(),
        version: "1".to_owned(),
        updated_at: 0,
    };
    assert_eq!(server_account(&server).display_name, "Plex Media Server");
    let named = ServerInfo { friendly_name: "Home Plex".to_owned(), ..server };
    assert_eq!(server_account(&named).display_name, "Home Plex");
    let capabilities = connection_capabilities();
    let lookup = capabilities.reference_lookup.unwrap();
    assert_eq!(lookup.maximum_batch_size, 50);
    assert_eq!(lookup.reference_namespaces.len(), 5);
    assert!(capabilities.endpoint_lookup.is_none());
}

#[test]
fn sections_are_found_by_key() {
    let sections = vec![section("1", "movie"), section("2", "show"), section("1", "artist")];
    assert_eq!(find_section(&sections, "1").unwrap().media_type, "movie");
    assert_eq!(cached_section(&sections, "1").unwrap().media_type, "artist");
    assert!(find_section(&sections, "9").is_none());
    assert!(sections_fallback(&PlexError::Response(Some(404))));
    assert!(!sections_fallback(&PlexError::Response(Some(503))));
}

#[test]
fn lookups_take_between_one_and_fifty_references() {
    assert!(check_lookup_request(&b"op".to_vec(), 1).is_ok());
    assert!(check_lookup_request(&b"op".to_vec(), 50).is_ok());
    assert_eq!(check_lookup_request(&b"op".to_vec(), 51).unwrap_err().code, ServiceErrorCode::InvalidArgument);
    assert!(check_lookup_request(&Vec::new(), 1).is_err());
    assert!(check_lookup_request(&b"op".to_vec(), 0).is_err());
}

fn write_request(intents: Vec<TargetedStateWriteIntent>) -> WriteTargetedStateRequest {
    WriteTargetedStateRequest {
        operation_id: b"op".to_vec(),
        source_key: None,
        subject: None,
        idempotency_key: b"key".to_vec(),
        expected_membership: SourceMembership::Present,
        precondition: Vec::new(),
        allow_create_membership: false,
        intents,
        maximum_receipt_bytes: 64,
        maximum_response_bytes: 4096,
    }
}

#[test]
fn writes_supported_watch_state_to_plex() {
    let pairs = |entries: &[(&str, &str)]| -> Vec<(String, String)> {
        entries.iter().map(|(k, v)| ((*k).to_owned(), (*v).to_owned())).collect()
    };
    let request = WriteTargetedStateRequest {
        operation_id: b"write-state-test".to_vec(),
        source_key: Some(source_key("1")),
        subject: Some(SubjectReference { subject: Some(Subject::ProviderItemKey(item_key("42"))) }),
        idempotency_key: b"write-state-idempotency".to_vec(),
        expected_membership: SourceMembership::Present,
        precondition: Vec::new(),
        allow_create_membership: false,
        intents: vec![
            TargetedStateWriteIntent {
                field: Some(watched_field()),
                operation: Some(WriteOperation::Assign(boolean_value(true))),
            },
            TargetedStateWriteIntent {
                field: Some(progress_field()),
                operation: Some(WriteOperation::Assign(integer_value(1250))),
            },
            TargetedStateWriteIntent {
                field: Some(rating_field()),
                operation: Some(WriteOperation::Assign(decimal_value("8.5"))),
            },
        ],
        maximum_receipt_bytes: 32,
        maximum_response_bytes: 64 * 1024,
    };
    let rating_key = writable_rating_key(&request.subject).unwrap();
    assert_eq!(rating_key, "42");
    let calls = state_write_calls(rating_key, &request.intents).unwrap();
    assert_eq!(
        calls,
        vec![
            PlexCall {
                method: HttpMethod::Put,
                path: "/:/scrobble".to_owned(),
                query: pairs(&[("identifier", "com.plexapp.plugins.library"), ("key", "42")]),
            },
            PlexCall {
                method: HttpMethod::Post,
                path: "/:/timeline".to_owned(),
                query: pairs(&[
                    ("ratingKey", "42"),
                    ("key", "/library/metadata/42"),
                    ("state", "stopped"),
                    ("time", "1250"),
                ]),
            },
            PlexCall {
                method: HttpMethod::Put,
                path: "/:/rate".to_owned(),
                query: pairs(&[("identifier", "com.plexapp.plugins.library"), ("key", "42"), ("rating", "8.5")]),
            },
        ]
    );
    let response = write_response(&request, rating_key, &Ok(()));
    assert_eq!(response.status, TargetedStateWriteStatus::Applied);
    assert_eq!(response.field_effects.len(), 3);
    assert_eq!(response.receipt.len(), 32);
    assert_eq!(response.provider_revision.len(), 32);
    assert!(response.error.is_none());
    let again = applied_write_response(&request, "43");
    assert_ne!(again.provider_revision, response.provider_revision);
}

#[test]
fn receipts_are_cut_to_the_requested_length() {
    let mut request = write_request(Vec::new());
    request.maximum_receipt_bytes = 8;
    let response = applied_write_response(&request, "42");
    assert_eq!(response.receipt.len(), 8);
    assert_eq!(response.receipt[..], response.provider_revision[..8]);
}

#[test]
fn the_prompt_links_to_plex_with_a_form_encoded_fragment() {
    assert_eq!(client_identifier("abc"), "trakkin-abc");
    let prompt = authentication_prompt("trakkin-abc", "WX YZ");
    assert_eq!(
        prompt.verification_url,
        "https://app.plex.tv/auth#?clientID=trakkin-abc&code=WX+YZ&context%5Bdevice%5D%5Bproduct%5D=Trakkin"
    );
    assert_eq!(prompt.user_code, "WX YZ");
    assert_eq!(prompt.message, "Open Plex to authorize this connection.");
}

#[test]
fn only_the_pin_method_signs_in() {
    assert!(check_authentication_method("plex/pin").is_none());
    let failure = check_authentication_method("plex/password").unwrap();
    assert_eq!(failure.code, "authentication_method_unknown");
    assert_eq!(failure.category, OperationFailureCategory::InvalidInput);
}

#[test]
fn a_pin_attempt_is_started_checked_and_completed() {
    let pin = Pin { id: 42, code: "CODE".to_owned(), auth_token: None, expires_in: Some(300) };
    let mut attempts = PendingAuthentications::new();
    let started = start_attempt(&mut attempts, &pin, "trakkin-p", 1000);
    assert_eq!(started.status, AuthenticationStatus::InputRequired);
    assert!(started.authentication_id.starts_with("plex-pin-42-"));
    assert_eq!(started.authentication_id.len(), "plex-pin-42-".len() + 36);
    assert_eq!(started.retry_after_seconds, Some(2));
    let id = started.authentication_id.clone();
    assert_eq!(
        continue_step(&mut attempts, &id, 2000),
        ContinueStep::CheckPin { pin_id: 42, code: "CODE".to_owned() }
    );
    let waiting = pin_checked(&mut attempts, id.clone(), &pin, "trakkin-p", "CODE");
    assert_eq!(waiting.status, AuthenticationStatus::Waiting);
    let authorized = Pin { auth_token: Some("account-token".to_owned()), ..pin };
    let completed = pin_checked(&mut attempts, id.clone(), &authorized, "trakkin-p", "CODE");
    assert_eq!(completed.status, AuthenticationStatus::Completed);
    assert_eq!(completed.secret_patches[0].key, "account_token");
    assert_eq!(completed.secret_patches[0].patch, Some(SecretPatchOperation::Assign(b"account-token".to_vec())));
    assert_eq!(completed.secret_patches[1].key, "client_identifier");
    assert_eq!(completed.secret_patches[1].patch, Some(SecretPatchOperation::Assign(b"trakkin-p".to_vec())));
    assert_eq!(continue_step(&mut attempts, &id, 2000), ContinueStep::NotFound);
    assert!(cancel_attempt(&mut attempts, &id).is_err());
}

#[test]
fn a_lapsed_attempt_expires_and_is_forgotten() {
    let pin = Pin { id: 7, code: "C".to_owned(), auth_token: None, expires_in: Some(0) };
    assert_eq!(pin_lifetime_seconds(Some(0)), 1);
    assert_eq!(pin_lifetime_seconds(None), 300);
    assert_eq!(pending_authentication(&pin, 5000).expires_at_ms, 6000);
    let mut attempts = PendingAuthentications::new();
    let id = start_attempt(&mut attempts, &pin, "trakkin-p", 5000).authentication_id;
    assert_eq!(continue_step(&mut attempts, &id, 6000), ContinueStep::Expired);
    assert_eq!(continue_step(&mut attempts, &id, 6000), ContinueStep::NotFound);
    let other = start_attempt(&mut attempts, &pin, "trakkin-p", 5000).authentication_id;
    assert!(cancel_attempt(&mut attempts, &other).is_ok());
    assert!(attempts.get(&other).is_none());
    assert_ne!(authentication_id(7), authentication_id(7));
}

#[test]
fn artwork_is_served_with_its_digest() {
    assert!(check_asset_request(&b"op".to_vec(), 1).is_ok());
    assert!(check_asset_request(&Vec::new(), 1).is_err());
    assert!(check_asset_request(&b"op".to_vec(), 0).is_err());
    assert_eq!(asset_limit(1), 1);
    assert_eq!(asset_limit(u64::MAX), 16 * 1024 * 1024);
    let item = MediaItem { thumb: Some("/thumb".to_owned()), art: Some("/art".to_owned()), ..MediaItem::default() };
    assert_eq!(asset_path(&item, "poster").as_deref(), Some("/thumb"));
    assert_eq!(asset_path(&item, "backdrop").as_deref(), Some("/art"));
    assert_eq!(asset_path(&item, "banner"), None);
    let served = asset_response(Some(Ok((b"abc".to_vec(), "image/png".to_owned()))));
    let Some(AssetOutcome::Result(result)) = served.outcome else { panic!("artwork was not served") };
    assert_eq!(result.full_length, 3);
    assert_eq!(result.cache_control, "private, max-age=86400");
    let hash = result.hash.unwrap();
    assert_eq!(hash.algorithm.unwrap().name, "sha256");
    assert_eq!(
        hash.digest,
        vec![
            0xba, 0x78, 0x16, 0xbf, 0x8f, 0x01, 0xcf, 0xea, 0x41, 0x41, 0x40, 0xde, 0x5d, 0xae, 0x22, 0x23, 0xb0, 0x03,
            0x61, 0xa3, 0x96, 0x17, 0x7a, 0x9c, 0xb4, 0x10, 0xff, 0x61, 0xf2, 0x00, 0x15, 0xad
        ]
    );
    let missing = asset_response(None);
    let Some(AssetOutcome::Error(failure)) = missing.outcome else { panic!("missing artwork was served") };
    assert_eq!(failure.code, "asset_read_failed");
}

#[test]
fn operations_register_once() {
    let mut operations = OperationRegistry::new();
    assert!(operations.register(&b"op".to_vec()).is_ok());
    assert_eq!(operations.register(&b"op".to_vec()).unwrap_err().code, ServiceErrorCode::AlreadyExists);
    assert!(operations.contains(&b"op".to_vec()));
    operations.remove(&b"op".to_vec());
    assert!(!operations.contains(&b"op".to_vec()));
    assert!(operations.register(&b"op".to_vec()).is_ok());
}

#[test]
fn pin_authentication_opens_the_server_and_discovers_sources() {
    const ACCOUNT_TOKEN: &str = "plex-account-token";
    const TOKEN: &str = "plex-server-token";
    let identifier = client_identifier("authentication-process");
    assert_eq!(identifier, "trakkin-authentication-process");
    let mut attempts = PendingAuthentications::new();
    let pin = Pin { id: 42, code: "ABCD".to_owned(), auth_token: None, expires_in: Some(300) };
    let started = start_attempt(&mut attempts, &pin, &identifier, 1_000);
    assert_eq!(started.status, AuthenticationStatus::InputRequired);
    assert_eq!(started.prompt.as_ref().map(|prompt| prompt.user_code.as_str()), Some("ABCD"));

    let ContinueStep::CheckPin { pin_id, code } = continue_step(&mut attempts, &started.authentication_id, 2_000) else {
        panic!("the PIN of a pending attempt was not checked");
    };
    assert_eq!(pin_id, 42);
    let authorized = Pin { auth_token: Some(ACCOUNT_TOKEN.to_owned()), ..pin };
    let completed = pin_checked(&mut attempts, started.authentication_id.clone(), &authorized, &identifier, &code);
    assert_eq!(completed.status, AuthenticationStatus::Completed);
    let stored = |key: &str| {
        completed
            .secret_patches
            .iter()
            .find_map(|patch| match (patch.key.as_str(), patch.patch.as_ref()) {
                (k, Some(SecretPatchOperation::Assign(value))) if k == key => Some(value.clone()),
                _ => None,
            })
            .expect("completed Plex authentication did not store the secret")
    };
    let token = stored("account_token");
    assert_eq!(token, ACCOUNT_TOKEN.as_bytes());
    let stored_identifier = stored("client_identifier");

    let settings = vec![ConfigurationValue { key: "server_url".to_owned(), value: text("http://127.0.0.1:32400") }];
    let secrets = vec![
        SecretValue { key: "account_token".to_owned(), value: token },
        SecretValue { key: "client_identifier".to_owned(), value: stored_identifier },
    ];
    let opened = plex_settings(&settings, &secrets).unwrap();
    assert_eq!(
        request_client_identifier(&opened.credential, &client_identifier("discovery-process")),
        "trakkin-authentication-process"
    );
    let resources = vec![Resource {
        name: "Home Plex".to_owned(),
        client_identifier: "server-1".to_owned(),
        access_token: Some(TOKEN.to_owned()),
        provides: "server".to_owned(),
        connections: Vec::new(),
    }];
    let server_token = server_token(&resources, "server-1").unwrap();
    let patches = opened_secret_patches(&opened.credential, &server_token);
    assert!(patches.iter().any(|patch| {
        patch.key == "token" && patch.patch == Some(SecretPatchOperation::Assign(TOKEN.as_bytes().to_vec()))
    }));
    assert!(patches
        .iter()
        .any(|patch| patch.key == "account_token" && matches!(patch.patch, Some(SecretPatchOperation::Remove))));

    let server = ServerInfo {
        machine_identifier: "server-1".to_owned(),
        friendly_name: "Home Plex".to_owned(),
        version: String::new(),
        updated_at: 0,
    };
    let sources = vec![source_snapshot(&server, section("1", "movie"))];
    assert_eq!(sources.len(), 1);
    assert_eq!(sources[0].display_name, "Library");
    let movies = LibrarySection { title: "Movies".to_owned(), ..section("1", "movie") };
    assert_eq!(source_snapshot(&server, movies).display_name, "Movies");
}

#[test]
fn a_signed_in_connection_reopens_with_the_server_token() {
    let settings = vec![ConfigurationValue { key: "server_url".to_owned(), value: text("http://127.0.0.1:32400") }];
    let signed_in = vec![
        SecretValue { key: "account_token".to_owned(), value: b"account".to_vec() },
        SecretValue { key: "client_identifier".to_owned(), value: b"trakkin-auth".to_vec() },
    ];
    let opened = plex_settings(&settings, &signed_in).unwrap();
    assert_eq!(
        opened.credential,
        ServerCredential::Account { account_token: "account".to_owned(), client_identifier: Some("trakkin-auth".to_owned()) }
    );
    let patches = opened_secret_patches(&opened.credential, "server");
    assert_eq!(patches.len(), 2);
    assert_eq!(patches[0].key, "token");
    assert_eq!(patches[1].key, "account_token");
    assert_eq!(patches[1].patch, Some(SecretPatchOperation::Remove));
    let reopened_secrets = vec![
        SecretValue { key: "client_identifier".to_owned(), value: b"trakkin-auth".to_vec() },
        SecretValue { key: "token".to_owned(), value: b"server".to_vec() },
    ];
    let reopened = plex_settings(&settings, &reopened_secrets).unwrap();
    assert_eq!(reopened.credential, ServerCredential::Token("server".to_owned()));
    assert!(opened_secret_patches(&reopened.credential, "server").is_empty());
    assert_eq!(request_client_identifier(&reopened.credential, "trakkin-own"), "trakkin-own");
}

#[test]
fn targeted_answers_follow_what_plex_returned() {
    let fields = vec![watched_field()];
    let item = MediaItem { rating_key: "42".to_owned(), view_count: Some(1), ..MediaItem::default() };
    let matched = targeted_read_response(&Ok(vec![item]), &fields, 5);
    let Some(TargetedReadOutcome::Matched(matched)) = matched.outcome else { panic!("the item was not matched") };
    assert_eq!(matched.fields.len(), 1);
    assert_eq!(matched.observed_time_milliseconds, 5);
    assert_eq!(targeted_read_response(&Ok(Vec::new()), &fields, 5).outcome, Some(TargetedReadOutcome::NotFound));
    assert_eq!(
        targeted_read_response(&Err(PlexError::Response(Some(404))), &fields, 5).outcome,
        Some(TargetedReadOutcome::NotFound)
    );
    let failed = targeted_read_response(&Err(PlexError::Response(Some(500))), &fields, 5);
    let Some(TargetedReadOutcome::Indeterminate(Some(failure))) = failed.outcome else {
        panic!("a failed read was not indeterminate")
    };
    assert_eq!(failure.code, "targeted_state_read_failed");

    let request = write_request(vec![TargetedStateWriteIntent {
        field: Some(watched_field()),
        operation: Some(WriteOperation::Assign(Value { value: Some(ValueKind::Boolean(true)) })),
    }]);
    assert_eq!(write_response(&request, "42", &Ok(())), applied_write_response(&request, "42"));
    let unsure = write_response(&request, "42", &Err(PlexError::Transport(None)));
    assert_eq!(unsure.status, TargetedStateWriteStatus::Indeterminate);
    assert_eq!(unsure.error.unwrap().code, "targeted_state_write_indeterminate");
}
