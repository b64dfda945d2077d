//! The fixture provider's service decisions: its failures, its connection
//! fields and settings, and its scripted sign-in methods.
use vstd::prelude::*;
use vstd::utf8::*;

use crate::adapter::{retry_advice_of, seen_before, text, text_of};
use crate::scenarios::{
    default_settings, is_known_fault, is_known_instance, is_known_revision, is_known_scenario, load_error_of, FixtureSettings,
    FixtureSettingsView, Scenario, ScenarioError, ScenarioErrorView, DUAL_CONNECTION_ISOLATION, FAULT_IDS,
    SCENARIO_IDS,
};
use crate::sdk::{
    push_item, AccountSnapshot, AccountSnapshotView, AuthenticationMethod, AuthenticationMethodView,
    AuthenticationProgress, AuthenticationProgressView, AuthenticationPrompt, AuthenticationPromptView,
    AuthenticationStatus, ConfigurationField, ConfigurationFieldView, ConfigurationOption,
    ConfigurationOptionView, ConfigurationValue, ConfigurationValueKind, ConfigurationValueView, FieldProblem,
    FieldProblemView, Key, KeyView, OperationFailure, OperationFailureCategory, OperationFailureView,
    RetryAdvice, RetryDisposition, SecretValue, SecretValueView, Value, ValueKind, ValueKindView, ValueView,
};
use crate::service::{OperationRegistry, ServiceError, ServiceErrorCode};
use crate::scenarios::{key as fixture_key, fkey, ScenarioView};
use crate::sdk::{CatalogEvent, CatalogEventView, ReadCatalogResponse, ReadCatalogResponseView, ReadFailed, ReadFailedView, ReadStateResponse, ReadStateResponseView, StateEvent, StateEventView, TargetedStateWriteCertainty, WriteTargetedStateResponse, WriteTargetedStateResponseView};
use crate::text::{
    contains_text, join2, owned, same_bytes, same_text, text_contains, text_underscores_to_spaces,
    underscores_to_spaces, utf8_bytes,
};

verus! {

// ---------------------------------------------------------------------------
// Failures
// ---------------------------------------------------------------------------

/// The category of a fixture failure, read from its code: invalid input,
/// authentication, rate limits, unavailability, conflicts, unsupported
/// requests and malformed data each by a word in the code, in that order of
/// precedence; anything else is internal.
pub open spec fn fixture_category_of(code: Seq<char>) -> OperationFailureCategory {
    if contains_text(code, "invalid"@) {
        OperationFailureCategory::InvalidInput
    } else if contains_text(code, "auth"@) {
        OperationFailureCategory::Authentication
    } else if contains_text(code, "rate"@) {
        OperationFailureCategory::RateLimited
    } else if contains_text(code, "temporary"@) || contains_text(code, "unavailable"@) {
        OperationFailureCategory::Unavailable
    } else if contains_text(code, "precondition"@) || contains_text(code, "conflict"@) {
        OperationFailureCategory::Conflict
    } else if contains_text(code, "unsupported"@) {
        OperationFailureCategory::Unsupported
    } else if contains_text(code, "malformed"@) {
        OperationFailureCategory::InvalidRemoteData
    } else {
        OperationFailureCategory::Internal
    }
}

/// A fixture failure: categorized by its code, identified by `fixture:` and
/// the code.
pub open spec fn fixture_failure_of(code: Seq<char>, safe_message: Seq<char>, retryable: bool) -> OperationFailureView {
    OperationFailureView {
        category: fixture_category_of(code),
        code,
        safe_message,
        retry: Some(retry_advice_of(retryable)),
        diagnostic_id: "fixture:"@ + code,
        field_problems: seq![],
    }
}

/// The category of a fixture failure, read from its code.
pub fn fixture_category(code: &str) -> (r: OperationFailureCategory)
    ensures
        r == fixture_category_of(code@),
{
    if text_contains(code, "invalid") {
        OperationFailureCategory::InvalidInput
    } else if text_contains(code, "auth") {
        OperationFailureCategory::Authentication
    } else if text_contains(code, "rate") {
        OperationFailureCategory::RateLimited
    } else if text_contains(code, "temporary") || text_contains(code, "unavailable") {
        OperationFailureCategory::Unavailable
    } else if text_contains(code, "precondition") || text_contains(code, "conflict") {
        OperationFailureCategory::Conflict
    } else if text_contains(code, "unsupported") {
        OperationFailureCategory::Unsupported
    } else if text_contains(code, "malformed") {
        OperationFailureCategory::InvalidRemoteData
    } else {
        OperationFailureCategory::Internal
    }
}

/// A fixture failure with this code and message.
pub fn operation_failure(code: &str, safe_message: &str, retryable: bool) -> (r: OperationFailure)
    ensures
        r@ == fixture_failure_of(code@, safe_message@, retryable),
{
    let r = OperationFailure {
        category: fixture_category(code),
        code: owned(code),
        safe_message: owned(safe_message),
        retry: Some(
            RetryAdvice {
                disposition: if retryable {
                    RetryDisposition::Retryable
                } else {
                    RetryDisposition::NotRetryable
                },
            },
        ),
        diagnostic_id: join2("fixture:", code),
        field_problems: Vec::new(),
    };
    assert(r@.field_problems =~= seq![]);
    r
}

/// A fixture failure whose message is its code with spaces for underscores.
pub open spec fn adapter_error_of(code: Seq<char>, retryable: bool) -> OperationFailureView {
    fixture_failure_of(code, underscores_to_spaces(code), retryable)
}

/// A fixture failure whose message is its code with spaces for underscores.
pub fn adapter_error(code: &str, retryable: bool) -> (r: OperationFailure)
    ensures
        r@ == adapter_error_of(code@, retryable),
{
    let message = text_underscores_to_spaces(code);
    operation_failure(code, message.as_str(), retryable)
}

/// The code under which a read reports a scenario error: stale cursors,
/// unsupported reads and unknown sources have their own; any other error is
/// an invalid fixture configuration.
pub open spec fn scenario_error_code_of(error: ScenarioErrorView) -> Seq<char> {
    match error {
        ScenarioErrorView::StaleCursor => "stale_cursor"@,
        ScenarioErrorView::UnsupportedRead => "unsupported_read"@,
        ScenarioErrorView::UnknownSource => "source_not_found"@,
        _ => "invalid_fixture_configuration"@,
    }
}

/// The code under which a read reports a scenario error.
pub fn scenario_error_code(error: &ScenarioError) -> (r: String)
    ensures
        r@ == scenario_error_code_of(error@),
{
    match error {
        ScenarioError::StaleCursor => owned("stale_cursor"),
        ScenarioError::UnsupportedRead => owned("unsupported_read"),
        ScenarioError::UnknownSource => owned("source_not_found"),
        _ => owned("invalid_fixture_configuration"),
    }
}

/// The failure that ends a read refused with a scenario error.
pub fn read_refusal(error: &ScenarioError) -> (r: OperationFailure)
    ensures
        r@ == adapter_error_of(scenario_error_code_of(error@), false),
{
    let code = scenario_error_code(error);
    adapter_error(code.as_str(), false)
}

// ---------------------------------------------------------------------------
// Connection fields and settings
// ---------------------------------------------------------------------------

/// A text value.
pub open spec fn text_value_of(text: Seq<char>) -> ValueView {
    ValueView { value: Some(ValueKindView::Text(text)) }
}

/// A required or optional text field offering these options.
pub open spec fn text_field_of(key: Seq<char>, display_name: Seq<char>, required: bool, options: Seq<Seq<char>>) -> ConfigurationFieldView {
    ConfigurationFieldView {
        key,
        display_name,
        value_kind: ConfigurationValueKind::Text,
        required,
        secret: false,
        placeholder: seq![],
        options: Seq::new(
            options.len(),
            |i: int| ConfigurationOptionView { value: Some(text_value_of(options[i])), display_name: options[i] },
        ),
    }
}

/// A text field offering these options.
pub fn text_field(key: &str, display_name: &str, required: bool, options: &[&str]) -> (r: ConfigurationField)
    ensures
        r@ == text_field_of(key@, display_name@, required, options@.map_values(|o: &str| o@)),
{
    let ghost wanted = options@.map_values(|o: &str| o@);
    let mut choices: Vec<ConfigurationOption> = Vec::new();
    let mut i: usize = 0;
    while i < options.len()
        invariant
            i <= options.len(),
            wanted == options@.map_values(|o: &str| o@),
            choices.deep_view() =~= text_field_of(key@, display_name@, required, wanted).options.take(i as int),
        decreases options.len() - i,
    {
        let option = options[i];
        push_item(
            &mut choices,
            ConfigurationOption { value: Some(Value { value: Some(ValueKind::Text(owned(option))) }), display_name: owned(option) },
        );
        i = i + 1;
    }
    let r = ConfigurationField {
        key: owned(key),
        display_name: owned(display_name),
        value_kind: ConfigurationValueKind::Text,
        required,
        secret: false,
        placeholder: String::new(),
        options: choices,
    };
    assert(r@.options =~= text_field_of(key@, display_name@, required, wanted).options);
    assert(r@.placeholder =~= seq![]);
    r
}

/// The connection fields: the scenario, revision, fault and instance, each
/// offering its known values, and the secret fixture token.
pub open spec fn configuration_fields_of() -> Seq<ConfigurationFieldView> {
    seq![
        text_field_of(
            "scenario"@,
            "Scenario"@,
            true,
            seq![
                "hierarchical-catalog-assets-v1"@,
                "empty-targeted-receiver-v1"@,
                "edition-hierarchy-v1"@,
                "flat-catalog-revisions-v1"@,
                "adversarial-v1"@,
                "dual-connection-isolation-v1"@,
            ],
        ),
        text_field_of("revision"@, "Revision"@, true, seq!["v1"@, "v2"@]),
        text_field_of(
            "fault"@,
            "Fault"@,
            true,
            seq![
                "none"@,
                "read.stale-cursor"@,
                "read.cancel-after-batch"@,
                "read.retryable-after-batch"@,
                "read.fatal-after-batch"@,
                "read.malformed-catalog"@,
                "read.malformed-state"@,
                "read.hang-before-stream"@,
                "read.hang-after-heartbeat"@,
                "asset.over-limit"@,
                "auth.secret-in-error"@,
                "write.malformed-response"@,
            ],
        ),
        text_field_of("instance"@, "Instance"@, true, seq!["alpha"@, "beta"@]),
        ConfigurationFieldView {
            key: "fixture_token"@,
            display_name: "Fixture token"@,
            value_kind: ConfigurationValueKind::Text,
            required: true,
            secret: true,
            placeholder: "fixture-secret[-alpha|-beta]"@,
            options: seq![],
        },
    ]
}

/// The connection fields.
pub fn configuration_fields() -> (r: Vec<ConfigurationField>)
    ensures
        r.deep_view() == configuration_fields_of(),
{
    let scenarios = SCENARIO_IDS;
    let faults = FAULT_IDS;
    let revisions = ["v1", "v2"];
    let instances = ["alpha", "beta"];
    proof {
        assert(scenarios@.map_values(|o: &str| o@) =~= configuration_fields_of()[0].options.map_values(
            |o: ConfigurationOptionView| o.display_name,
        ));
        assert(faults@.map_values(|o: &str| o@) =~= configuration_fields_of()[2].options.map_values(
            |o: ConfigurationOptionView| o.display_name,
        ));
    }
    let mut fields: Vec<ConfigurationField> = Vec::new();
    push_item(&mut fields, text_field("scenario", "Scenario", true, &scenarios));
    push_item(&mut fields, text_field("revision", "Revision", true, &revisions));
    push_item(&mut fields, text_field("fault", "Fault", true, &faults));
    push_item(&mut fields, text_field("instance", "Instance", true, &instances));
    push_item(
        &mut fields,
        ConfigurationField {
            key: owned("fixture_token"),
            display_name: owned("Fixture token"),
            value_kind: ConfigurationValueKind::Text,
            required: true,
            secret: true,
            placeholder: owned("fixture-secret[-alpha|-beta]"),
            options: Vec::new(),
        },
    );
    assert(scenarios@.map_values(|o: &str| o@) =~= seq![
        "hierarchical-catalog-assets-v1"@,
        "empty-targeted-receiver-v1"@,
        "edition-hierarchy-v1"@,
        "flat-catalog-revisions-v1"@,
        "adversarial-v1"@,
        "dual-connection-isolation-v1"@,
    ]);
    assert(faults@.map_values(|o: &str| o@) =~= seq![
        "none"@,
        "read.stale-cursor"@,
        "read.cancel-after-batch"@,
        "read.retryable-after-batch"@,
        "read.fatal-after-batch"@,
        "read.malformed-catalog"@,
        "read.malformed-state"@,
        "read.hang-before-stream"@,
        "read.hang-after-heartbeat"@,
        "asset.over-limit"@,
        "auth.secret-in-error"@,
        "write.malformed-response"@,
    ]);
    assert(revisions@.map_values(|o: &str| o@) =~= seq!["v1"@, "v2"@]);
    assert(instances@.map_values(|o: &str| o@) =~= seq!["alpha"@, "beta"@]);
    assert(fields.deep_view()[4].options =~= seq![]);
    assert(fields.deep_view() =~= configuration_fields_of());
    fields
}

/// A problem with a connection field: its message is its code with spaces
/// for underscores.
pub open spec fn problem_of(path: Seq<char>, code: Seq<char>) -> FieldProblemView {
    FieldProblemView { path, code, message: underscores_to_spaces(code) }
}

/// A problem with a connection field.
pub fn field_problem(path: &str, code: &str) -> (r: FieldProblem)
    ensures
        r@ == problem_of(path@, code@),
{
    FieldProblem { path: owned(path), code: owned(code), message: text_underscores_to_spaces(code) }
}

/// What a scan of connection values has found so far: the settings, the
/// problems, and the keys seen.
pub struct SettingsAcc {
    pub value: FixtureSettingsView,
    pub problems: Seq<FieldProblemView>,
    pub present: Seq<Seq<char>>,
}

/// One connection value scanned: a key seen before is a duplicate; a value
/// that is not text has the wrong type; a known key sets its setting; any
/// other key is unknown.
pub open spec fn settings_step(acc: SettingsAcc, setting: ConfigurationValueView) -> SettingsAcc {
    if acc.present.contains(setting.key) {
        SettingsAcc { problems: acc.problems.push(problem_of(setting.key, "duplicate_field"@)), ..acc }
    } else {
        let present = acc.present.push(setting.key);
        match text_of(setting.value) {
            None => SettingsAcc { problems: acc.problems.push(problem_of(setting.key, "invalid_type"@)), present, ..acc },
            Some(t) => if setting.key == "scenario"@ {
                SettingsAcc { value: FixtureSettingsView { scenario_id: t, ..acc.value }, present, ..acc }
            } else if setting.key == "revision"@ {
                SettingsAcc { value: FixtureSettingsView { revision: t, ..acc.value }, present, ..acc }
            } else if setting.key == "fault"@ {
                SettingsAcc { value: FixtureSettingsView { fault: t, ..acc.value }, present, ..acc }
            } else if setting.key == "instance"@ {
                SettingsAcc { value: FixtureSettingsView { instance: t, ..acc.value }, present, ..acc }
            } else {
                SettingsAcc { problems: acc.problems.push(problem_of(setting.key, "unknown_field"@)), present, ..acc }
            },
        }
    }
}

/// The scan of connection values in order, from the default settings.
pub open spec fn settings_scan(settings: Seq<ConfigurationValueView>) -> SettingsAcc
    decreases settings.len(),
{
    if settings.len() == 0 {
        SettingsAcc { value: default_settings(), problems: seq![], present: seq![] }
    } else {
        settings_step(settings_scan(settings.drop_last()), settings.last())
    }
}

/// A problem for each setting that no value named, in order.
pub open spec fn required_problems(present: Seq<Seq<char>>) -> Seq<FieldProblemView> {
    let scenario = if present.contains("scenario"@) {
        seq![]
    } else {
        seq![problem_of("scenario"@, "required"@)]
    };
    let revision = if present.contains("revision"@) {
        seq![]
    } else {
        seq![problem_of("revision"@, "required"@)]
    };
    let fault = if present.contains("fault"@) {
        seq![]
    } else {
        seq![problem_of("fault"@, "required"@)]
    };
    let instance = if present.contains("instance"@) {
        seq![]
    } else {
        seq![problem_of("instance"@, "required"@)]
    };
    scenario + revision + fault + instance
}

/// The token that a connection must present: one per instance for the
/// isolation scenario, one for all others.
pub open spec fn expected_secret_of(value: FixtureSettingsView) -> Seq<char> {
    if value.scenario_id == DUAL_CONNECTION_ISOLATION@ {
        "fixture-secret-"@ + value.instance
    } else {
        "fixture-secret"@
    }
}

/// Exactly one secret, the fixture token, holding the expected token.
pub open spec fn secret_valid(secrets: Seq<SecretValueView>, value: FixtureSettingsView) -> bool {
    secrets.len() == 1 && secrets[0].key == "fixture_token"@ && secrets[0].value == encode_utf8(expected_secret_of(value))
}

/// The field that a load error blames.
pub open spec fn load_error_path_of(error: ScenarioErrorView) -> Seq<char> {
    match error {
        ScenarioErrorView::UnknownScenario(_) => "scenario"@,
        ScenarioErrorView::UnknownRevision(_) => "revision"@,
        ScenarioErrorView::UnknownFault(_) => "fault"@,
        ScenarioErrorView::UnknownInstance(_) => "instance"@,
        _ => "scenario"@,
    }
}

/// The problems of connection values and secrets: those of the scan, the
/// missing settings, an invalid secret, and settings that do not load, whose
/// code is the load error's message.
pub open spec fn settings_problems_of(settings: Seq<ConfigurationValueView>, secrets: Seq<SecretValueView>) -> Seq<FieldProblemView> {
    let acc = settings_scan(settings);
    let secret = if secret_valid(secrets, acc.value) {
        seq![]
    } else {
        seq![problem_of("fixture_token"@, "invalid_secret"@)]
    };
    let load = match load_error_of(acc.value) {
        Some(e) => seq![problem_of(load_error_path_of(e), crate::scenarios::scenario_error_message_of(e))],
        None => seq![],
    };
    acc.problems + required_problems(acc.present) + secret + load
}

/// The settings of a connection, or its problems.
pub open spec fn settings_from_of(settings: Seq<ConfigurationValueView>, secrets: Seq<SecretValueView>) -> Result<FixtureSettingsView, Seq<FieldProblemView>> {
    if settings_problems_of(settings, secrets).len() == 0 {
        Ok(settings_scan(settings).value)
    } else {
        Err(settings_problems_of(settings, secrets))
    }
}

fn push_required(problems: &mut Vec<FieldProblem>, present: &Vec<String>, name: &str)
    ensures
        final(problems).deep_view() == old(problems).deep_view() + if present.deep_view().contains(name@) {
            seq![]
        } else {
            seq![problem_of(name@, "required"@)]
        },
{
    let ghost before = problems.deep_view();
    if !seen_before(present, name) {
        push_item(problems, field_problem(name, "required"));
        assert(problems.deep_view() =~= before + seq![problem_of(name@, "required"@)]);
    } else {
        assert(problems.deep_view() =~= before + Seq::<FieldProblemView>::empty());
    }
}

fn secret_matches(secrets: &Vec<SecretValue>, value: &FixtureSettings) -> (r: bool)
    ensures
        r == secret_valid(secrets.deep_view(), value@),
{
    let expected = if crate::text::same_text(value.scenario_id.as_str(), DUAL_CONNECTION_ISOLATION) {
        join2("fixture-secret-", value.instance.as_str())
    } else {
        owned("fixture-secret")
    };
    let expected_bytes = utf8_bytes(expected.as_str());
    if secrets.len() != 1 {
        return false;
    }
    assert(secrets.deep_view()[0] == secrets[0]@);
    same_text(secrets[0].key.as_str(), "fixture_token") && same_bytes(&secrets[0].value, &expected_bytes)
}

/// The settings of a fixture connection from its values and secrets, or the
/// problems found.
pub fn settings_from(settings: &Vec<ConfigurationValue>, secrets: &Vec<SecretValue>) -> (r: Result<FixtureSettings, Vec<FieldProblem>>)
    ensures
        match settings_from_of(settings.deep_view(), secrets.deep_view()) {
            Ok(v) => r matches Ok(x) && x@ == v,
            Err(p) => r matches Err(x) && x.deep_view() == p,
        },
{
    let mut value = FixtureSettings::default();
    let mut problems: Vec<FieldProblem> = Vec::new();
    let mut present: Vec<String> = Vec::new();
    assert(settings.deep_view().take(0) =~= Seq::<ConfigurationValueView>::empty());
    assert(problems.deep_view() =~= Seq::<FieldProblemView>::empty());
    assert(present.deep_view() =~= Seq::<Seq<char>>::empty());
    let mut i: usize = 0;
    while i < settings.len()
        invariant
            i <= settings.len(),
            settings_scan(settings.deep_view().take(i as int)) == (SettingsAcc {
                value: value@,
                problems: problems.deep_view(),
                present: present.deep_view(),
            }),
        decreases settings.len() - i,
    {
        let setting = &settings[i];
        assert(settings.deep_view().take(i + 1).drop_last() =~= settings.deep_view().take(i as int));
        assert(settings.deep_view()[i as int] == setting@);
        let key = setting.key.as_str();
        if seen_before(&present, key) {
            push_item(&mut problems, field_problem(key, "duplicate_field"));
        } else {
            push_item(&mut present, owned(key));
            match text(&setting.value) {
                None => push_item(&mut problems, field_problem(key, "invalid_type")),
                Some(t) => if same_text(key, "scenario") {
                    value.scenario_id = owned(t);
                } else if same_text(key, "revision") {
                    value.revision = owned(t);
                } else if same_text(key, "fault") {
                    value.fault = owned(t);
                } else if same_text(key, "instance") {
                    value.instance = owned(t);
                } else {
                    push_item(&mut problems, field_problem(key, "unknown_field"));
                },
            }
        }
        i = i + 1;
    }
    assert(settings.deep_view().take(i as int) =~= settings.deep_view());
    let ghost scanned = problems.deep_view();
    push_required(&mut problems, &present, "scenario");
    push_required(&mut problems, &present, "revision");
    push_required(&mut problems, &present, "fault");
    push_required(&mut problems, &present, "instance");
    assert(problems.deep_view() =~= scanned + required_problems(present.deep_view()));
    let ghost with_required = problems.deep_view();
    if !secret_matches(secrets, &value) {
        push_item(&mut problems, field_problem("fixture_token", "invalid_secret"));
    }
    let ghost with_secret = problems.deep_view();
    match Scenario::load(value.duplicate()) {
        Err(error) => {
            let path = match &error {
                ScenarioError::UnknownScenario(_) => "scenario",
                ScenarioError::UnknownRevision(_) => "revision",
                ScenarioError::UnknownFault(_) => "fault",
                ScenarioError::UnknownInstance(_) => "instance",
                _ => "scenario",
            };
            let message = error.message();
            push_item(&mut problems, field_problem(path, message.as_str()));
        },
        Ok(_) => {},
    }
    assert(problems.deep_view() =~= settings_problems_of(settings.deep_view(), secrets.deep_view()));
    if problems.len() == 0 {
        Ok(value)
    } else {
        Err(problems)
    }
}

/// The failure of settings that do not describe a fixture connection,
/// carrying the problems found.
pub fn invalid_connection_failure(problems: Vec<FieldProblem>) -> (r: OperationFailure)
    ensures
        r@ == (OperationFailureView {
            field_problems: problems.deep_view(),
            ..fixture_failure_of("invalid_connection"@, "connection settings are invalid"@, false)
        }),
{
    let mut failure = operation_failure("invalid_connection", "connection settings are invalid", false);
    failure.field_problems = problems;
    failure
}

// ---------------------------------------------------------------------------
// Sign-in
// ---------------------------------------------------------------------------

/// The scripted sign-in methods: device, wait, deny, expire and cancel.
pub open spec fn authentication_methods_of() -> Seq<AuthenticationMethodView> {
    seq![
        AuthenticationMethodView { key: "fixture/device"@, display_name: "device"@ },
        AuthenticationMethodView { key: "fixture/wait"@, display_name: "wait"@ },
        AuthenticationMethodView { key: "fixture/deny"@, display_name: "deny"@ },
        AuthenticationMethodView { key: "fixture/expire"@, display_name: "expire"@ },
        AuthenticationMethodView { key: "fixture/cancel"@, display_name: "cancel"@ },
    ]
}

/// The scripted sign-in methods.
pub fn authentication_methods() -> (r: Vec<AuthenticationMethod>)
    ensures
        r.deep_view() == authentication_methods_of(),
{
    let mut methods: Vec<AuthenticationMethod> = Vec::new();
    push_item(&mut methods, AuthenticationMethod { key: owned("fixture/device"), display_name: owned("device") });
    push_item(&mut methods, AuthenticationMethod { key: owned("fixture/wait"), display_name: owned("wait") });
    push_item(&mut methods, AuthenticationMethod { key: owned("fixture/deny"), display_name: owned("deny") });
    push_item(&mut methods, AuthenticationMethod { key: owned("fixture/expire"), display_name: owned("expire") });
    push_item(&mut methods, AuthenticationMethod { key: owned("fixture/cancel"), display_name: owned("cancel") });
    assert(methods.deep_view() =~= authentication_methods_of());
    methods
}

/// A progress with nothing but its identifier, status and retry delay.
pub open spec fn progress_of(id: Seq<char>, status: AuthenticationStatus, retry_after_seconds: Option<i64>) -> AuthenticationProgressView {
    AuthenticationProgressView {
        authentication_id: id,
        status,
        prompt: None,
        retry_after_seconds,
        accounts: seq![],
        secret_patches: seq![],
    }
}

fn progress(id: &str, status: AuthenticationStatus, retry_after_seconds: Option<i64>) -> (r: AuthenticationProgress)
    ensures
        r@ == progress_of(id@, status, retry_after_seconds),
{
    let r = AuthenticationProgress {
        authentication_id: owned(id),
        status,
        prompt: None,
        retry_after_seconds,
        accounts: Vec::new(),
        secret_patches: Vec::new(),
    };
    assert(r@.accounts =~= seq![]);
    assert(r@.secret_patches =~= seq![]);
    r
}

/// The prompt of the device method: a code to enter, which must be
/// `approved`.
pub open spec fn device_prompt_of() -> AuthenticationPromptView {
    AuthenticationPromptView {
        message: "Enter the fixture authentication code"@,
        verification_url: "https://example.invalid/fixture"@,
        user_code: "FIXTURE"@,
        fields: seq![text_field_of("code"@, "Code"@, true, seq!["approved"@])],
    }
}

/// How a sign-in starts with each method: the device method asks for a code;
/// wait and cancel wait, asking again after a second; expire has expired;
/// deny is denied; any other method is unknown.
pub open spec fn start_authentication_of(method: Seq<char>) -> Result<AuthenticationProgressView, OperationFailureView> {
    if method == "fixture/device"@ {
        Ok(
            AuthenticationProgressView {
                prompt: Some(device_prompt_of()),
                ..progress_of("auth-device"@, AuthenticationStatus::InputRequired, None)
            },
        )
    } else if method == "fixture/wait"@ {
        Ok(progress_of("auth-wait"@, AuthenticationStatus::Waiting, Some(1)))
    } else if method == "fixture/cancel"@ {
        Ok(progress_of("auth-cancel"@, AuthenticationStatus::Waiting, Some(1)))
    } else if method == "fixture/deny"@ {
        Err(adapter_error_of("authentication_denied"@, false))
    } else if method == "fixture/expire"@ {
        Ok(progress_of("auth-expire"@, AuthenticationStatus::Expired, None))
    } else {
        Err(adapter_error_of("authentication_method_unknown"@, false))
    }
}

/// How a sign-in starts.
pub fn start_authentication(method: &str) -> (r: Result<AuthenticationProgress, OperationFailure>)
    ensures
        match start_authentication_of(method@) {
            Ok(p) => r matches Ok(x) && x@ == p,
            Err(f) => r matches Err(x) && x@ == f,
        },
{
    if same_text(method, "fixture/device") {
        let approved = ["approved"];
        proof {
            assert(approved@.map_values(|o: &str| o@) =~= seq!["approved"@]);
        }
        let mut fields: Vec<ConfigurationField> = Vec::new();
        push_item(&mut fields, text_field("code", "Code", true, &approved));
        let mut r = progress("auth-device", AuthenticationStatus::InputRequired, None);
        r.prompt = Some(
            AuthenticationPrompt {
                message: owned("Enter the fixture authentication code"),
                verification_url: owned("https://example.invalid/fixture"),
                user_code: owned("FIXTURE"),
                fields,
            },
        );
        assert(r@.prompt->Some_0.fields =~= device_prompt_of().fields);
        Ok(r)
    } else if same_text(method, "fixture/wait") {
        Ok(progress("auth-wait", AuthenticationStatus::Waiting, Some(1)))
    } else if same_text(method, "fixture/cancel") {
        Ok(progress("auth-cancel", AuthenticationStatus::Waiting, Some(1)))
    } else if same_text(method, "fixture/deny") {
        Err(adapter_error("authentication_denied", false))
    } else if same_text(method, "fixture/expire") {
        Ok(progress("auth-expire", AuthenticationStatus::Expired, None))
    } else {
        Err(adapter_error("authentication_method_unknown", false))
    }
}

/// Whether some value is the code `approved`.
pub open spec fn approved_of(values: Seq<ConfigurationValueView>) -> bool {
    exists|i: int| 0 <= i < values.len() && #[trigger] values[i].key == "code"@ && text_of(values[i].value) == Some("approved"@)
}

/// How a sign-in continues: the device attempt completes with an approved
/// code, as the authenticated account; the waiting attempt keeps waiting;
/// anything else is denied.
pub open spec fn continue_authentication_of(id: Seq<char>, values: Seq<ConfigurationValueView>) -> Result<AuthenticationProgressView, OperationFailureView> {
    if id == "auth-device"@ && approved_of(values) {
        Ok(
            AuthenticationProgressView {
                accounts: seq![
                    AccountSnapshotView {
                        key: Some(fkey("account.authenticated"@)),
                        display_name: "Authenticated fixture account"@,
                    },
                ],
                ..progress_of(id, AuthenticationStatus::Completed, None)
            },
        )
    } else if id == "auth-wait"@ {
        Ok(progress_of(id, AuthenticationStatus::Waiting, Some(1)))
    } else {
        Err(adapter_error_of("authentication_denied"@, false))
    }
}

fn approved(values: &Vec<ConfigurationValue>) -> (r: bool)
    ensures
        r == approved_of(values.deep_view()),
{
    let mut i: usize = 0;
    while i < values.len()
        invariant
            i <= values.len(),
            forall|j: int| 0 <= j < i ==> !(#[trigger] values.deep_view()[j].key == "code"@ && text_of(values.deep_view()[j].value)
                == Some("approved"@)),
        decreases values.len() - i,
    {
        assert(values.deep_view()[i as int] == values[i as int]@);
        let is_code = same_text(values[i].key.as_str(), "code");
        let text_value = text(&values[i].value);
        let is_approved = match text_value {
            Some(t) => same_text(t, "approved"),
            None => false,
        };
        if is_code && is_approved {
            assert(values.deep_view()[i as int].key == "code"@ && text_of(values.deep_view()[i as int].value) == Some("approved"@));
            return true;
        }
        i = i + 1;
    }
    false
}

/// How a sign-in continues.
pub fn continue_authentication(id: &str, values: &Vec<ConfigurationValue>) -> (r: Result<AuthenticationProgress, OperationFailure>)
    ensures
        match continue_authentication_of(id@, values.deep_view()) {
            Ok(p) => r matches Ok(x) && x@ == p,
            Err(f) => r matches Err(x) && x@ == f,
        },
{
    if same_text(id, "auth-device") && approved(values) {
        let mut r = progress(id, AuthenticationStatus::Completed, None);
        push_item(
            &mut r.accounts,
            AccountSnapshot { key: Some(fixture_key("account.authenticated")), display_name: owned("Authenticated fixture account") },
        );
        assert(r@.accounts =~= seq![
            AccountSnapshotView { key: Some(fkey("account.authenticated"@)), display_name: "Authenticated fixture account"@ },
        ]);
        Ok(r)
    } else if same_text(id, "auth-wait") {
        Ok(progress(id, AuthenticationStatus::Waiting, Some(1)))
    } else {
        Err(adapter_error("authentication_denied", false))
    }
}

/// Only the cancellable attempt can be cancelled.
pub fn cancel_authentication(id: &str) -> (r: Result<(), OperationFailure>)
    ensures
        r is Ok <==> id@ == "auth-cancel"@,
        r matches Err(f) ==> f@ == adapter_error_of("authentication_not_cancellable"@, false),
{
    if same_text(id, "auth-cancel") {
        Ok(())
    } else {
        Err(adapter_error("authentication_not_cancellable", false))
    }
}

// ---------------------------------------------------------------------------
// Serving a scenario
// ---------------------------------------------------------------------------

/// The failure that a loaded scenario opens with, if any: the fault that
/// puts a secret in an error fails authentication.
pub fn opening_failure(scenario: &Scenario) -> (r: Option<OperationFailure>)
    ensures
        scenario@.settings.fault == "auth.secret-in-error"@ ==> (r matches Some(f) && f@ == adapter_error_of("authentication_failed"@, false)),
        scenario@.settings.fault != "auth.secret-in-error"@ ==> r is None,
{
    if same_text(scenario.settings().fault.as_str(), "auth.secret-in-error") {
        Some(adapter_error("authentication_failed", false))
    } else {
        None
    }
}

/// The events of a catalog read that a scenario refused.
pub fn catalog_failure(error: &ScenarioError) -> (r: Vec<ReadCatalogResponse>)
    ensures
        r.deep_view() == seq![
            ReadCatalogResponseView {
                event: Some(
                    CatalogEventView::Failed(ReadFailedView { error: Some(adapter_error_of(scenario_error_code_of(error@), false)) }),
                ),
            },
        ],
{
    let mut r: Vec<ReadCatalogResponse> = Vec::new();
    push_item(&mut r, ReadCatalogResponse { event: Some(CatalogEvent::Failed(ReadFailed { error: Some(read_refusal(error)) })) });
    r
}

/// The events of a state read that a scenario refused.
pub fn state_failure(error: &ScenarioError) -> (r: Vec<ReadStateResponse>)
    ensures
        r.deep_view() == seq![
            ReadStateResponseView {
                event: Some(
                    StateEventView::Failed(ReadFailedView { error: Some(adapter_error_of(scenario_error_code_of(error@), false)) }),
                ),
            },
        ],
{
    let mut r: Vec<ReadStateResponse> = Vec::new();
    push_item(&mut r, ReadStateResponse { event: Some(StateEvent::Failed(ReadFailed { error: Some(read_refusal(error)) })) });
    r
}

/// How a read stream runs under a fault.
#[derive(Clone, Copy, Debug, PartialEq, Eq, Structural)]
pub enum StreamPlan {
    /// Send nothing until cancelled or closed.
    HangBeforeStream,
    /// Send one heartbeat, then nothing until cancelled or closed.
    HangAfterHeartbeat,
    /// Send the read's events until cancelled or closed.
    Events,
}

/// How a read stream runs under a fault.
pub fn stream_plan(fault: &str) -> (r: StreamPlan)
    ensures
        fault@ == "read.hang-before-stream"@ ==> r == StreamPlan::HangBeforeStream,
        fault@ == "read.hang-after-heartbeat"@ ==> r == StreamPlan::HangAfterHeartbeat,
        fault@ != "read.hang-before-stream"@ && fault@ != "read.hang-after-heartbeat"@ ==> r == StreamPlan::Events,
{
    proof {
        reveal_strlit("read.hang-before-stream");
        reveal_strlit("read.hang-after-heartbeat");
        assert("read.hang-before-stream"@[10] != "read.hang-after-heartbeat"@[10]);
    }
    if same_text(fault, "read.hang-before-stream") {
        StreamPlan::HangBeforeStream
    } else if same_text(fault, "read.hang-after-heartbeat") {
        StreamPlan::HangAfterHeartbeat
    } else {
        StreamPlan::Events
    }
}

/// The answer to a write as served: under the malformed-response fault its
/// certainty contradicts its status.
pub fn served_write(scenario: &Scenario, response: WriteTargetedStateResponse) -> (r: WriteTargetedStateResponse)
    ensures
        scenario@.settings.fault == "write.malformed-response"@ ==> r@ == (WriteTargetedStateResponseView {
            certainty: TargetedStateWriteCertainty::ConfirmedNotApplied,
            ..response@
        }),
        scenario@.settings.fault != "write.malformed-response"@ ==> r@ == response@,
{
    let mut response = response;
    if same_text(scenario.settings().fault.as_str(), "write.malformed-response") {
        response.certainty = TargetedStateWriteCertainty::ConfirmedNotApplied;
    }
    response
}

/// The failure of cancelling an operation that is not under way.
pub fn cancel_operation(operations: &OperationRegistry, operation_id: &Vec<u8>) -> (r: Result<(), OperationFailure>)
    ensures
        r is Ok <==> operations.holds(operation_id@),
        r matches Err(f) ==> f@ == adapter_error_of("operation_not_found"@, false),
{
    if operations.contains(operation_id) {
        Ok(())
    } else {
        Err(adapter_error("operation_not_found", false))
    }
}

/// A lookup is refused without an operation identifier.
pub fn check_lookup_request(operation_id: &Vec<u8>) -> (r: Result<(), ServiceError>)
    ensures
        r is Ok <==> operation_id@.len() > 0,
        r matches Err(e) ==> e.code == ServiceErrorCode::InvalidArgument && e.message@ == "operation ID is required"@,
{
    if operation_id.len() == 0 {
        Err(ServiceError::new(ServiceErrorCode::InvalidArgument, "operation ID is required"))
    } else {
        Ok(())
    }
}

/// The most bytes of an asset that a request is served: what it asks for,
/// at most a kibibyte.
pub fn asset_limit(maximum_bytes: u64) -> (r: u64)
    ensures
        r == if maximum_bytes < 1024 {
            maximum_bytes
        } else {
            1024
        },
{
    if maximum_bytes < 1024 {
        maximum_bytes
    } else {
        1024
    }
}

/// The most bytes of an endpoint resolution that a request is answered
/// with: what it asks for, at most sixty-four kibibytes.
pub fn resolution_limit(maximum_response_bytes: u64) -> (r: u64)
    ensures
        r == if maximum_response_bytes < 65536 {
            maximum_response_bytes
        } else {
            65536
        },
{
    if maximum_response_bytes < 65536 {
        maximum_response_bytes
    } else {
        65536
    }
}

/// The keys of an asset request, or the refusal of a missing one.
pub fn asset_keys<'a>(source_key: &'a Option<Key>, provider_item_key: &'a Option<Key>, asset_key: &'a Option<Key>) -> (r: Result<(&'a Key, &'a Key, &'a Key), ServiceError>)
    ensures
        (source_key is Some && provider_item_key is Some && asset_key is Some) <==> r is Ok,
        r matches Ok(k) ==> Some(k.0@) == source_key.deep_view() && Some(k.1@) == provider_item_key.deep_view() && Some(k.2@)
            == asset_key.deep_view(),
        r matches Err(e) ==> e.code == ServiceErrorCode::InvalidArgument,
{
    let source = match source_key {
        Some(k) => k,
        None => return Err(ServiceError::new(ServiceErrorCode::InvalidArgument, "source key is required")),
    };
    let item = match provider_item_key {
        Some(k) => k,
        None => return Err(ServiceError::new(ServiceErrorCode::InvalidArgument, "provider item key is required")),
    };
    let asset = match asset_key {
        Some(k) => k,
        None => return Err(ServiceError::new(ServiceErrorCode::InvalidArgument, "asset key is required")),
    };
    Ok((source, item, asset))
}

/// A handshake is refused from a process other than the one that started
/// the adapter.
pub fn check_process_instance(requested: &str, own: &str) -> (r: Result<(), ServiceError>)
    ensures
        r is Ok <==> requested@ == own@,
        r matches Err(e) ==> e.code == ServiceErrorCode::FailedPrecondition,
{
    if same_text(requested, own) {
        Ok(())
    } else {
        Err(ServiceError::new(ServiceErrorCode::FailedPrecondition, "process instance ID does not match bootstrap"))
    }
}

// ---------------------------------------------------------------------------
// Laws
// ---------------------------------------------------------------------------

/// Settings that a connection accepts always load as a scenario.
pub proof fn lemma_accepted_settings_load(settings: Seq<ConfigurationValueView>, secrets: Seq<SecretValueView>)
    requires
        settings_from_of(settings, secrets) is Ok,
    ensures
        load_error_of(settings_from_of(settings, secrets)->Ok_0) is None,
{
    let acc = settings_scan(settings);
    if load_error_of(acc.value) is Some {
        let secret = if secret_valid(secrets, acc.value) {
            seq![]
        } else {
            seq![problem_of("fixture_token"@, "invalid_secret"@)]
        };
        let load = seq![
            problem_of(
                load_error_path_of(load_error_of(acc.value)->Some_0),
                crate::scenarios::scenario_error_message_of(load_error_of(acc.value)->Some_0),
            ),
        ];
        assert(settings_problems_of(settings, secrets) == acc.problems + required_problems(acc.present) + secret + load);
        assert(settings_problems_of(settings, secrets).len() > 0);
    }
}

} // verus!
