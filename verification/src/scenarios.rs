//! Deterministic fixture scenarios: what each publishes, and the targeted
//! state that one of them keeps.
use vstd::prelude::*;
use vstd::utf8::*;

use crate::assoc::{Store, StoreValue};
use crate::fixture::{adapter_error, adapter_error_of, fixture_failure_of, operation_failure};
use crate::hashing::{sha256, sha256_digest};
use crate::sdk::{
    AccountSnapshot, AccountSnapshotView, AssetCapability, AssetCapabilityView, AssetOutcome, AssetOutcomeView, Attribute, AttributeView, BinaryAssetReference, BinaryAssetReferenceView, CatalogBatch, CatalogBatchView, CatalogEvent, CatalogEventView, CatalogRelation, CatalogRelationView, ConfigurationValueKind, ConnectionCapabilities, ConnectionCapabilitiesView, ContentHash, ContentHashView, CoordinateBacking, CoordinateBinding, CoordinateBindingView, CoordinateCapability, CoordinateCapabilityView, EndpointLookupCandidate, EndpointLookupCandidateView, EndpointLookupCapability, EndpointLookupCapabilityView, EndpointOutcome, EndpointOutcomeView, Key, KeyView, LookupCandidate, LookupCandidateView, LookupCapability, LookupCapabilityView, LookupEvidence, LookupEvidenceView, LookupOutcome, LookupOutcomeView, LookupPortableReferencesResponse, LookupPortableReferencesResponseView, LookupResponseOutcome, LookupResponseOutcomeView, Observation, ObservationView, OperationFailure, OperationFailureView, PortableEndpoint, PortableEndpointResolution, PortableEndpointResolutionView, PortableEndpointView, PortableReference, PortableReferenceLookupResult, PortableReferenceLookupResultView, PortableReferenceView, ProviderItem, ProviderItemView, ReadAssetResponse, ReadAssetResponseView, ReadAssetResult, ReadAssetResultView, ReadCancelled, ReadCancelledView, ReadCapability, ReadCapabilityView, ReadCatalogResponse, ReadCatalogResponseView, ReadCompleted, ReadCompletedView, ReadFailed, ReadFailedView, ReadMode, ReadStateResponse, ReadStateResponseView, ReadTargetedStateRequest, ReadTargetedStateRequestView, ReadTargetedStateResponse, ReadTargetedStateResponseView, ResolvePortableEndpointsResponse, ResolvePortableEndpointsResponseView, SourceAvailability, SourceCapabilities, SourceCapabilitiesView, SourceMembership, SourceSnapshot, SourceSnapshotView, StateBatch, StateBatchView, StateDeletion, StateDeletionView, StateEvent, StateEventView, StateField, StateFieldDescriptor, StateFieldDescriptorView, StateFieldNumericRange, StateFieldNumericRangeView, StateFieldQuantizer, StateFieldView, StateObservation, StateObservationView, StatePresence, Subject, SubjectReference, SubjectReferenceView, SubjectView, TargetedReadOutcome, TargetedReadOutcomeView, TargetedStateFieldEffectKind, TargetedStateFieldObservation, TargetedStateFieldObservationView, TargetedStateFieldWriteCapability, TargetedStateFieldWriteCapabilityView, TargetedStateMembershipEffect, TargetedStateReadCapability, TargetedStateReadCapabilityView, TargetedStateReadMatched, TargetedStateReadMatchedView, TargetedStateWriteCapability, TargetedStateWriteCapabilityView, TargetedStateWriteCausation, TargetedStateWriteCausationView, TargetedStateWriteCertainty, TargetedStateWriteFieldEffect, TargetedStateWriteFieldEffectView, TargetedStateWriteIdempotencyMode, TargetedStateWriteIntent, TargetedStateWriteIntentView, TargetedStateWritePreconditionMode, TargetedStateWriteRetryDisposition, TargetedStateWriteStatus, Term, TermView, Value, ValueKind, ValueKindView, ValueView, WriteOperation, WriteOperationView, WriteTargetedStateRequest, WriteTargetedStateRequestView, WriteTargetedStateResponse, WriteTargetedStateResponseView, DecimalValue, DecimalValueView, push_item, copy_bytes,
};
use crate::text::{
    decimal_text, join2, join3, owned, same_bytes, same_text, text_from_utf8, unsigned_decimal, utf8_bytes,
};

verus! {

pub const CATALOG_SCHEMA: &'static str = "fixtures.catalog/v1";
pub const LOGICAL_TIME_MILLISECONDS: i64 = 1893456245000;

pub const HIERARCHICAL_CATALOG_ASSETS: &'static str = "hierarchical-catalog-assets-v1";
pub const EMPTY_TARGETED_RECEIVER: &'static str = "empty-targeted-receiver-v1";
pub const EDITION_HIERARCHY: &'static str = "edition-hierarchy-v1";
pub const FLAT_CATALOG_REVISIONS: &'static str = "flat-catalog-revisions-v1";
pub const ADVERSARIAL: &'static str = "adversarial-v1";
pub const DUAL_CONNECTION_ISOLATION: &'static str = "dual-connection-isolation-v1";

pub const SCENARIO_IDS: [&'static str; 6] = [
    "hierarchical-catalog-assets-v1",
    "empty-targeted-receiver-v1",
    "edition-hierarchy-v1",
    "flat-catalog-revisions-v1",
    "adversarial-v1",
    "dual-connection-isolation-v1",
];

pub const FAULT_IDS: [&'static str; 12] = [
    "none",
    "read.stale-cursor",
    "read.cancel-after-batch",
    "read.retryable-after-batch",
    "read.fatal-after-batch",
    "read.malformed-catalog",
    "read.malformed-state",
    "read.hang-before-stream",
    "read.hang-after-heartbeat",
    "asset.over-limit",
    "auth.secret-in-error",
    "write.malformed-response",
];

/// The largest revision of the targeted state whose read times the clock
/// can hold.
pub const MAX_TARGETED_REVISION: u64 = 9223370143398471;

// ---------------------------------------------------------------------------
// Settings
// ---------------------------------------------------------------------------

/// What a fixture connection plays: a scenario, at a revision, with a fault,
/// as an instance.
#[derive(Clone, Debug, PartialEq, Eq)]
pub struct FixtureSettings {
    pub scenario_id: String,
    pub revision: String,
    pub fault: String,
    pub instance: String,
}

pub struct FixtureSettingsView {
    pub scenario_id: Seq<char>,
    pub revision: Seq<char>,
    pub fault: Seq<char>,
    pub instance: Seq<char>,
}

impl View for FixtureSettings {
    type V = FixtureSettingsView;

    open spec fn view(&self) -> FixtureSettingsView {
        FixtureSettingsView {
            scenario_id: self.scenario_id@,
            revision: self.revision@,
            fault: self.fault@,
            instance: self.instance@,
        }
    }
}

/// The settings that a connection starts from.
pub open spec fn default_settings() -> FixtureSettingsView {
    FixtureSettingsView {
        scenario_id: HIERARCHICAL_CATALOG_ASSETS@,
        revision: "v1"@,
        fault: "none"@,
        instance: "alpha"@,
    }
}

impl Default for FixtureSettings {
    fn default() -> (r: FixtureSettings)
        ensures
            r@ == default_settings(),
    {
        FixtureSettings {
            scenario_id: owned(HIERARCHICAL_CATALOG_ASSETS),
            revision: owned("v1"),
            fault: owned("none"),
            instance: owned("alpha"),
        }
    }
}

impl FixtureSettings {
    /// A copy with the same view.
    pub fn duplicate(&self) -> (r: FixtureSettings)
        ensures
            r@ == self@,
    {
        FixtureSettings {
            scenario_id: self.scenario_id.clone(),
            revision: self.revision.clone(),
            fault: self.fault.clone(),
            instance: self.instance.clone(),
        }
    }
}

/// One of the published scenarios.
pub open spec fn is_known_scenario(s: Seq<char>) -> bool {
    s == HIERARCHICAL_CATALOG_ASSETS@ || s == EMPTY_TARGETED_RECEIVER@ || s == EDITION_HIERARCHY@ || s
        == FLAT_CATALOG_REVISIONS@ || s == ADVERSARIAL@ || s == DUAL_CONNECTION_ISOLATION@
}

/// One of the two revisions.
pub open spec fn is_known_revision(s: Seq<char>) -> bool {
    s == "v1"@ || s == "v2"@
}

/// One of the declared faults.
pub open spec fn is_known_fault(s: Seq<char>) -> bool {
    s == "none"@ || s == "read.stale-cursor"@ || s == "read.cancel-after-batch"@ || s
        == "read.retryable-after-batch"@ || s == "read.fatal-after-batch"@ || s == "read.malformed-catalog"@
        || s == "read.malformed-state"@ || s == "read.hang-before-stream"@ || s == "read.hang-after-heartbeat"@
        || s == "asset.over-limit"@ || s == "auth.secret-in-error"@ || s == "write.malformed-response"@
}

/// One of the two instances.
pub open spec fn is_known_instance(s: Seq<char>) -> bool {
    s == "alpha"@ || s == "beta"@
}

/// Settings that name a scenario, revision, fault and instance that exist.
pub open spec fn settings_valid(settings: FixtureSettingsView) -> bool {
    is_known_scenario(settings.scenario_id) && is_known_revision(settings.revision) && is_known_fault(
        settings.fault,
    ) && is_known_instance(settings.instance)
}

fn known_scenario(s: &str) -> (r: bool)
    ensures
        r == is_known_scenario(s@),
{
    same_text(s, HIERARCHICAL_CATALOG_ASSETS) || same_text(s, EMPTY_TARGETED_RECEIVER) || same_text(s, EDITION_HIERARCHY)
        || same_text(s, FLAT_CATALOG_REVISIONS) || same_text(s, ADVERSARIAL) || same_text(s, DUAL_CONNECTION_ISOLATION)
}

fn known_revision(s: &str) -> (r: bool)
    ensures
        r == is_known_revision(s@),
{
    same_text(s, "v1") || same_text(s, "v2")
}

fn known_fault(s: &str) -> (r: bool)
    ensures
        r == is_known_fault(s@),
{
    same_text(s, "none") || same_text(s, "read.stale-cursor") || same_text(s, "read.cancel-after-batch")
        || same_text(s, "read.retryable-after-batch") || same_text(s, "read.fatal-after-batch") || same_text(
        s,
        "read.malformed-catalog",
    ) || same_text(s, "read.malformed-state") || same_text(s, "read.hang-before-stream") || same_text(
        s,
        "read.hang-after-heartbeat",
    ) || same_text(s, "asset.over-limit") || same_text(s, "auth.secret-in-error") || same_text(
        s,
        "write.malformed-response",
    )
}

fn known_instance(s: &str) -> (r: bool)
    ensures
        r == is_known_instance(s@),
{
    same_text(s, "alpha") || same_text(s, "beta")
}

// ---------------------------------------------------------------------------
// Errors
// ---------------------------------------------------------------------------

/// Why a scenario refused a request.
#[derive(Clone, Debug, PartialEq, Eq)]
pub enum ScenarioError {
    UnknownScenario(String),
    UnknownRevision(String),
    UnknownFault(String),
    UnknownInstance(String),
    UnknownSource,
    UnsupportedRead,
    StaleCursor,
    InvalidKey,
}

pub enum ScenarioErrorView {
    UnknownScenario(Seq<char>),
    UnknownRevision(Seq<char>),
    UnknownFault(Seq<char>),
    UnknownInstance(Seq<char>),
    UnknownSource,
    UnsupportedRead,
    StaleCursor,
    InvalidKey,
}

impl View for ScenarioError {
    type V = ScenarioErrorView;

    open spec fn view(&self) -> ScenarioErrorView {
        match self {
            ScenarioError::UnknownScenario(s) => ScenarioErrorView::UnknownScenario(s@),
            ScenarioError::UnknownRevision(s) => ScenarioErrorView::UnknownRevision(s@),
            ScenarioError::UnknownFault(s) => ScenarioErrorView::UnknownFault(s@),
            ScenarioError::UnknownInstance(s) => ScenarioErrorView::UnknownInstance(s@),
            ScenarioError::UnknownSource => ScenarioErrorView::UnknownSource,
            ScenarioError::UnsupportedRead => ScenarioErrorView::UnsupportedRead,
            ScenarioError::StaleCursor => ScenarioErrorView::StaleCursor,
            ScenarioError::InvalidKey => ScenarioErrorView::InvalidKey,
        }
    }
}

/// The message of a scenario error.
pub open spec fn scenario_error_message_of(error: ScenarioErrorView) -> Seq<char> {
    match error {
        ScenarioErrorView::UnknownScenario(s) => "unknown fixture scenario "@ + s,
        ScenarioErrorView::UnknownRevision(s) => "unknown fixture revision "@ + s,
        ScenarioErrorView::UnknownFault(s) => "unknown fixture fault "@ + s,
        ScenarioErrorView::UnknownInstance(s) => "unknown fixture instance "@ + s,
        ScenarioErrorView::UnknownSource => "fixture source is unknown"@,
        ScenarioErrorView::UnsupportedRead => "fixture read mode is unsupported"@,
        ScenarioErrorView::StaleCursor => "fixture cursor is stale"@,
        ScenarioErrorView::InvalidKey => "fixture key is not valid UTF-8"@,
    }
}

impl ScenarioError {
    /// The message of the error.
    pub fn message(&self) -> (r: String)
        ensures
            r@ == scenario_error_message_of(self@),
    {
        match self {
            ScenarioError::UnknownScenario(s) => join2("unknown fixture scenario ", s.as_str()),
            ScenarioError::UnknownRevision(s) => join2("unknown fixture revision ", s.as_str()),
            ScenarioError::UnknownFault(s) => join2("unknown fixture fault ", s.as_str()),
            ScenarioError::UnknownInstance(s) => join2("unknown fixture instance ", s.as_str()),
            ScenarioError::UnknownSource => owned("fixture source is unknown"),
            ScenarioError::UnsupportedRead => owned("fixture read mode is unsupported"),
            ScenarioError::StaleCursor => owned("fixture cursor is stale"),
            ScenarioError::InvalidKey => owned("fixture key is not valid UTF-8"),
        }
    }
}

/// Why settings cannot be loaded, checked in order: scenario, revision,
/// fault, instance.
pub open spec fn load_error_of(settings: FixtureSettingsView) -> Option<ScenarioErrorView> {
    if !is_known_scenario(settings.scenario_id) {
        Some(ScenarioErrorView::UnknownScenario(settings.scenario_id))
    } else if !is_known_revision(settings.revision) {
        Some(ScenarioErrorView::UnknownRevision(settings.revision))
    } else if !is_known_fault(settings.fault) {
        Some(ScenarioErrorView::UnknownFault(settings.fault))
    } else if !is_known_instance(settings.instance) {
        Some(ScenarioErrorView::UnknownInstance(settings.instance))
    } else {
        None
    }
}

// ---------------------------------------------------------------------------
// Keys, terms and references
// ---------------------------------------------------------------------------

/// A fixture key.
pub open spec fn fkey(value: Seq<char>) -> KeyView {
    KeyView { namespace: "fixture"@, value: encode_utf8(value) }
}

/// A fixture term.
pub open spec fn fterm(name: Seq<char>) -> TermView {
    TermView { namespace: "trakkin"@, name }
}

/// A portable reference in the example namespace.
pub open spec fn freference(value: Seq<char>) -> PortableReferenceView {
    PortableReferenceView { namespace: "example.media"@, value: encode_utf8(value) }
}

/// A fixture key.
pub fn key(value: &str) -> (r: Key)
    ensures
        r@ == fkey(value@),
{
    Key { namespace: owned("fixture"), value: utf8_bytes(value) }
}

/// A fixture term.
pub fn term(name: &str) -> (r: Term)
    ensures
        r@ == fterm(name@),
{
    Term { namespace: owned("trakkin"), name: owned(name) }
}

/// A portable reference in the example namespace.
pub fn reference(value: &str) -> (r: PortableReference)
    ensures
        r@ == freference(value@),
{
    PortableReference { namespace: owned("example.media"), value: utf8_bytes(value) }
}

/// A read cursor: the scenario, source, stream and revision, joined by `/`.
pub open spec fn cursor_text(scenario: Seq<char>, source: Seq<char>, stream: Seq<char>, revision: Seq<char>) -> Seq<char> {
    scenario + "/"@ + source + "/"@ + stream + "/"@ + revision
}

/// A read cursor, as bytes.
pub fn cursor(scenario: &str, source: &str, stream: &str, revision: &str) -> (r: Vec<u8>)
    ensures
        r@ == encode_utf8(cursor_text(scenario@, source@, stream@, revision@)),
{
    let a = join3(scenario, "/", source);
    let b = join3(a.as_str(), "/", stream);
    let c = join3(b.as_str(), "/", revision);
    utf8_bytes(c.as_str())
}

/// The text of a key whose value is UTF-8.
pub open spec fn text_key_of(key: KeyView) -> Result<Seq<char>, ScenarioErrorView> {
    if valid_utf8(key.value) {
        Ok(decode_utf8(key.value))
    } else {
        Err(ScenarioErrorView::InvalidKey)
    }
}

/// The text of a key, refused when its value is not UTF-8.
pub fn text_key(key: &Key) -> (r: Result<&str, ScenarioError>)
    ensures
        r matches Ok(t) ==> text_key_of(key@) == Ok::<Seq<char>, ScenarioErrorView>(t@),
        r is Err ==> text_key_of(key@) == Err::<Seq<char>, ScenarioErrorView>(ScenarioErrorView::InvalidKey),
        r matches Err(e) ==> e == ScenarioError::InvalidKey,
{
    match text_from_utf8(key.value.as_slice()) {
        Some(t) => Ok(t),
        None => Err(ScenarioError::InvalidKey),
    }
}

/// The text of a fixture key is the text it was made from.
pub proof fn lemma_fixture_key_text(value: Seq<char>)
    ensures
        text_key_of(fkey(value)) == Ok::<Seq<char>, ScenarioErrorView>(value),
{
    vstd::utf8::encode_utf8_valid_utf8(value);
    vstd::utf8::encode_utf8_decode_utf8(value);
}

// ---------------------------------------------------------------------------
// Comparing requests
// ---------------------------------------------------------------------------

fn same_key(a: &Key, b: &Key) -> (r: bool)
    ensures
        r == (a@ == b@),
{
    same_text(a.namespace.as_str(), b.namespace.as_str()) && same_bytes(&a.value, &b.value)
}

fn same_optional_key(a: &Option<Key>, b: &Option<Key>) -> (r: bool)
    ensures
        r == (a.deep_view() == b.deep_view()),
{
    match (a, b) {
        (Some(x), Some(y)) => same_key(x, y),
        (None, None) => true,
        _ => false,
    }
}

fn same_optional_term(a: &Option<Term>, b: &Option<Term>) -> (r: bool)
    ensures
        r == (a.deep_view() == b.deep_view()),
{
    match (a, b) {
        (Some(x), Some(y)) => same_text(x.namespace.as_str(), y.namespace.as_str()) && same_text(
            x.name.as_str(),
            y.name.as_str(),
        ),
        (None, None) => true,
        _ => false,
    }
}

fn same_optional_field(a: &Option<StateField>, b: &Option<StateField>) -> (r: bool)
    ensures
        r == (a.deep_view() == b.deep_view()),
{
    match (a, b) {
        (Some(x), Some(y)) => same_optional_term(&x.field, &y.field) && same_optional_term(&x.unit, &y.unit),
        (None, None) => true,
        _ => false,
    }
}

fn same_optional_subject(a: &Option<SubjectReference>, b: &Option<SubjectReference>) -> (r: bool)
    ensures
        r == (a.deep_view() == b.deep_view()),
{
    match (a, b) {
        (Some(x), Some(y)) => match (&x.subject, &y.subject) {
            (Some(Subject::ProviderItemKey(p)), Some(Subject::ProviderItemKey(q))) => same_key(p, q),
            (Some(Subject::CatalogRelationKey(p)), Some(Subject::CatalogRelationKey(q))) => same_key(p, q),
            (None, None) => true,
            _ => false,
        },
        (None, None) => true,
        _ => false,
    }
}

fn same_value(a: &Value, b: &Value) -> (r: bool)
    ensures
        r == (a@ == b@),
{
    match (&a.value, &b.value) {
        (Some(ValueKind::Text(x)), Some(ValueKind::Text(y))) => same_text(x.as_str(), y.as_str()),
        (Some(ValueKind::Boolean(x)), Some(ValueKind::Boolean(y))) => *x == *y,
        (Some(ValueKind::Integer(x)), Some(ValueKind::Integer(y))) => *x == *y,
        (Some(ValueKind::Decimal(x)), Some(ValueKind::Decimal(y))) => same_text(x.value.as_str(), y.value.as_str()),
        (None, None) => true,
        _ => false,
    }
}

fn same_intent(a: &TargetedStateWriteIntent, b: &TargetedStateWriteIntent) -> (r: bool)
    ensures
        r == (a@ == b@),
{
    same_optional_field(&a.field, &b.field) && match (&a.operation, &b.operation) {
        (Some(WriteOperation::Assign(x)), Some(WriteOperation::Assign(y))) => same_value(x, y),
        (Some(WriteOperation::Clear), Some(WriteOperation::Clear)) => true,
        (None, None) => true,
        _ => false,
    }
}

fn same_intents(a: &Vec<TargetedStateWriteIntent>, b: &Vec<TargetedStateWriteIntent>) -> (r: bool)
    ensures
        r == (a.deep_view() == b.deep_view()),
{
    if a.len() != b.len() {
        assert(a.deep_view().len() != b.deep_view().len());
        return false;
    }
    let mut i: usize = 0;
    while i < a.len()
        invariant
            a.len() == b.len(),
            i <= a.len(),
            forall|j: int| 0 <= j < i ==> a.deep_view()[j] == b.deep_view()[j],
        decreases a.len() - i,
    {
        if !same_intent(&a[i], &b[i]) {
            assert(a.deep_view()[i as int] != b.deep_view()[i as int]);
            return false;
        }
        i = i + 1;
    }
    assert(a.deep_view() =~= b.deep_view());
    true
}

/// A write request without its operation identifier: what a replay under the
/// same idempotency key must repeat.
pub open spec fn stable_request_of(request: WriteTargetedStateRequestView) -> WriteTargetedStateRequestView {
    WriteTargetedStateRequestView { operation_id: seq![], ..request }
}

fn same_stable_request(a: &WriteTargetedStateRequest, b: &WriteTargetedStateRequest) -> (r: bool)
    ensures
        r == (stable_request_of(a@) == stable_request_of(b@)),
{
    same_optional_key(&a.source_key, &b.source_key) && same_optional_subject(&a.subject, &b.subject)
        && same_bytes(&a.idempotency_key, &b.idempotency_key) && a.expected_membership == b.expected_membership
        && same_bytes(&a.precondition, &b.precondition) && a.allow_create_membership == b.allow_create_membership
        && same_intents(&a.intents, &b.intents) && a.maximum_receipt_bytes == b.maximum_receipt_bytes
        && a.maximum_response_bytes == b.maximum_response_bytes
}

fn stable_request(request: &WriteTargetedStateRequest) -> (r: WriteTargetedStateRequest)
    ensures
        r@ == stable_request_of(request@),
{
    let r = WriteTargetedStateRequest { operation_id: Vec::new(), ..request.duplicate() };
    assert(r@.operation_id =~= seq![]);
    r
}

// ---------------------------------------------------------------------------
// The targeted state of the empty receiver
// ---------------------------------------------------------------------------

/// The identity of a state field: its term, `|`, and its unit when it has
/// one, each term as namespace `:` name.
pub open spec fn field_identity_of(field: StateFieldView) -> Seq<char> {
    let semantic = field.field.unwrap();
    let unit = match field.unit {
        Some(u) => u.namespace + ":"@ + u.name,
        None => seq![],
    };
    semantic.namespace + ":"@ + semantic.name + "|"@ + unit
}

fn state_field_identity(field: &StateField) -> (r: String)
    requires
        field.field is Some,
    ensures
        r@ == field_identity_of(field@),
{
    let semantic = field.field.as_ref().unwrap();
    let unit = match &field.unit {
        Some(u) => join3(u.namespace.as_str(), ":", u.name.as_str()),
        None => String::new(),
    };
    let head = join3(semantic.namespace.as_str(), ":", semantic.name.as_str());
    join3(head.as_str(), "|", unit.as_str())
}

/// A recorded write: the request without its operation identifier, and the
/// answer given.
pub struct TargetedWriteRecord {
    pub request: WriteTargetedStateRequest,
    pub response: WriteTargetedStateResponse,
}

pub struct TargetedWriteRecordView {
    pub request: WriteTargetedStateRequestView,
    pub response: WriteTargetedStateResponseView,
}

impl View for TargetedWriteRecord {
    type V = TargetedWriteRecordView;

    open spec fn view(&self) -> TargetedWriteRecordView {
        TargetedWriteRecordView { request: self.request@, response: self.response@ }
    }
}

impl DeepView for TargetedWriteRecord {
    type V = TargetedWriteRecordView;

    open spec fn deep_view(&self) -> TargetedWriteRecordView {
        self.view()
    }
}

impl StoreValue for TargetedWriteRecord {
    fn copy_value(&self) -> (r: Self) {
        TargetedWriteRecord { request: self.request.duplicate(), response: self.response.duplicate() }
    }
}

impl StoreValue for Value {
    fn copy_value(&self) -> (r: Self) {
        self.duplicate()
    }
}

/// A loaded scenario and the targeted state it keeps.
pub struct Scenario {
    settings: FixtureSettings,
    targeted_membership_present: bool,
    targeted_state_values: Store<String, Value>,
    targeted_state_revision: u64,
    targeted_write_results: Store<Vec<u8>, TargetedWriteRecord>,
}

pub struct ScenarioView {
    pub settings: FixtureSettingsView,
    pub membership_present: bool,
    pub values: Map<Seq<char>, ValueView>,
    pub revision: u64,
    pub writes: Map<Seq<u8>, TargetedWriteRecordView>,
}

impl View for Scenario {
    type V = ScenarioView;

    closed spec fn view(&self) -> ScenarioView {
        ScenarioView {
            settings: self.settings@,
            membership_present: self.targeted_membership_present,
            values: self.targeted_state_values@,
            revision: self.targeted_state_revision,
            writes: self.targeted_write_results@,
        }
    }
}

/// A scenario that settings load to: nothing written yet, at revision one.
pub open spec fn initial_scenario(settings: FixtureSettingsView) -> ScenarioView {
    ScenarioView {
        settings,
        membership_present: false,
        values: Map::empty(),
        revision: 1,
        writes: Map::empty(),
    }
}

/// What every loaded scenario holds: valid settings and a revision whose read
/// times the clock can hold.
pub open spec fn scenario_valid(s: ScenarioView) -> bool {
    settings_valid(s.settings) && 1 <= s.revision <= MAX_TARGETED_REVISION
}

impl Scenario {
    #[verifier::type_invariant]
    closed spec fn inv(self) -> bool {
        settings_valid(self.settings@) && 1 <= self.targeted_state_revision <= MAX_TARGETED_REVISION
    }

    /// Loads settings: refused with the first of scenario, revision, fault or
    /// instance that does not exist.
    pub fn load(settings: FixtureSettings) -> (r: Result<Scenario, ScenarioError>)
        ensures
            load_error_of(settings@) matches Some(e) ==> (r matches Err(x) && x@ == e),
            load_error_of(settings@) is None ==> (r matches Ok(s) && s@ == initial_scenario(settings@)),
    {
        if !known_scenario(settings.scenario_id.as_str()) {
            return Err(ScenarioError::UnknownScenario(settings.scenario_id));
        }
        if !known_revision(settings.revision.as_str()) {
            return Err(ScenarioError::UnknownRevision(settings.revision));
        }
        if !known_fault(settings.fault.as_str()) {
            return Err(ScenarioError::UnknownFault(settings.fault));
        }
        if !known_instance(settings.instance.as_str()) {
            return Err(ScenarioError::UnknownInstance(settings.instance));
        }
        Ok(
            Scenario {
                settings,
                targeted_membership_present: false,
                targeted_state_values: Store::new(),
                targeted_state_revision: 1,
                targeted_write_results: Store::new(),
            },
        )
    }

    /// The settings that the scenario was loaded from.
    pub fn settings(&self) -> (r: &FixtureSettings)
        ensures
            r@ == self@.settings,
    {
        &self.settings
    }

    /// A copy of the scenario with the same view.
    pub fn duplicate(&self) -> (r: Scenario)
        ensures
            r@ == self@,
    {
        proof {
            use_type_invariant(self);
        }
        Scenario {
            settings: self.settings.duplicate(),
            targeted_membership_present: self.targeted_membership_present,
            targeted_state_values: self.targeted_state_values.copy(),
            targeted_state_revision: self.targeted_state_revision,
            targeted_write_results: self.targeted_write_results.copy(),
        }
    }
}

// ---------------------------------------------------------------------------
// Reading and writing the targeted state
// ---------------------------------------------------------------------------

/// The text of an optional key whose value is UTF-8.
pub open spec fn key_text_of(key: Option<KeyView>) -> Option<Seq<char>> {
    match key {
        Some(k) => match text_key_of(k) {
            Ok(t) => Some(t),
            Err(_) => None,
        },
        None => None,
    }
}

/// The text of a subject that is a provider item with a UTF-8 key.
pub open spec fn subject_text_of(subject: Option<SubjectReferenceView>) -> Option<Seq<char>> {
    match subject {
        Some(s) => match s.subject {
            Some(SubjectView::ProviderItemKey(k)) => key_text_of(Some(k)),
            _ => None,
        },
        None => None,
    }
}

fn key_text(key: &Option<Key>) -> (r: Option<&str>)
    ensures
        r.deep_view() == key_text_of(key.deep_view()),
{
    match key {
        Some(k) => match text_key(k) {
            Ok(t) => Some(t),
            Err(_) => None,
        },
        None => None,
    }
}

fn subject_text(subject: &Option<SubjectReference>) -> (r: Option<&str>)
    ensures
        r.deep_view() == subject_text_of(subject.deep_view()),
{
    match subject {
        Some(s) => match &s.subject {
            Some(Subject::ProviderItemKey(k)) => match text_key(k) {
                Ok(t) => Some(t),
                Err(_) => None,
            },
            _ => None,
        },
        None => None,
    }
}

fn is_text(value: Option<&str>, wanted: &str) -> (r: bool)
    ensures
        r == (value.deep_view() == Some(wanted@)),
{
    match value {
        Some(v) => same_text(v, wanted),
        None => false,
    }
}

/// The provider revision of the targeted state at a revision.
pub open spec fn targeted_revision_text(revision: u64) -> Seq<char> {
    "targeted.receiver.empty.v"@ + decimal_text(revision as int)
}

/// The precondition token of the targeted state: whether the item belongs to
/// the receiver, and the revision.
pub open spec fn precondition_text(present: bool, revision: u64) -> Seq<char> {
    (if present {
        "expected-present-r"@
    } else {
        "expected-absent-r"@
    }) + decimal_text(revision as int)
}

/// When the targeted state at a revision was observed: a second later for
/// each revision.
pub open spec fn targeted_observed_at(revision: u64) -> i64 {
    (LOGICAL_TIME_MILLISECONDS + (revision - 1) * 1000) as i64
}

/// A provider item subject.
pub open spec fn item_subject_of(value: Seq<char>) -> SubjectReferenceView {
    SubjectReferenceView { subject: Some(SubjectView::ProviderItemKey(fkey(value))) }
}

/// A provider item subject.
pub fn provider_item_subject(value: &str) -> (r: SubjectReference)
    ensures
        r@ == item_subject_of(value@),
{
    SubjectReference { subject: Some(Subject::ProviderItemKey(key(value))) }
}

/// Whether a targeted request addresses the one item of the empty receiver
/// whose state is kept.
pub open spec fn addresses_quiet_signal(s: ScenarioView, source_key: Option<KeyView>, subject: Option<SubjectReferenceView>) -> bool {
    s.settings.scenario_id == EMPTY_TARGETED_RECEIVER@ && key_text_of(source_key) == Some("source.receiver.empty"@)
        && subject_text_of(subject) == Some("media.quiet-signal"@)
}

/// What is observed of a requested field: present with its value when the
/// item belongs to the receiver and the field is set, deleted when it belongs
/// and the field is not set, absent when the item does not belong.
pub open spec fn field_observed_of(s: ScenarioView, field: StateFieldView) -> TargetedStateFieldObservationView {
    let value = if s.values.contains_key(field_identity_of(field)) {
        Some(s.values[field_identity_of(field)])
    } else {
        None
    };
    TargetedStateFieldObservationView {
        field: Some(field),
        presence: if s.membership_present {
            if value is Some {
                StatePresence::Present
            } else {
                StatePresence::Deleted
            }
        } else {
            StatePresence::Absent
        },
        value,
    }
}

/// The write that caused the state read, when the read names the idempotency
/// key of a recorded write whose revision is the current one.
pub open spec fn write_causation_of(s: ScenarioView, key: Seq<u8>) -> Option<TargetedStateWriteCausationView> {
    if key.len() > 0 && s.writes.contains_key(key) && s.writes[key].response.provider_revision == encode_utf8(
        targeted_revision_text(s.revision),
    ) {
        Some(
            TargetedStateWriteCausationView {
                idempotency_key: key,
                receipt: s.writes[key].response.receipt,
                provider_revision: s.writes[key].response.provider_revision,
            },
        )
    } else {
        None
    }
}

/// The targeted state of the quiet signal as a read sees it.
pub open spec fn quiet_signal_read_of(s: ScenarioView, request: ReadTargetedStateRequestView) -> TargetedStateReadMatchedView {
    TargetedStateReadMatchedView {
        membership: if s.membership_present {
            SourceMembership::Present
        } else {
            SourceMembership::Absent
        },
        fields: Seq::new(request.fields.len(), |i: int| field_observed_of(s, request.fields[i])),
        provider_revision: encode_utf8(targeted_revision_text(s.revision)),
        observed_time_milliseconds: targeted_observed_at(s.revision),
        expires_time_milliseconds: Some((targeted_observed_at(s.revision) + 60000) as i64),
        precondition: encode_utf8(precondition_text(s.membership_present, s.revision)),
        write_causation: write_causation_of(s, request.reconciliation_idempotency_key),
    }
}

/// The answer to a targeted read: the empty receiver keeps the state of the
/// quiet signal, answers the linked item ambiguous between its two parts,
/// `missing` not found and `indeterminate` with a retryable failure; every
/// other read is unsupported.
pub open spec fn targeted_read_of(s: ScenarioView, request: ReadTargetedStateRequestView) -> ReadTargetedStateResponseView {
    let subject = subject_text_of(request.subject);
    let outcome = if s.settings.scenario_id == EMPTY_TARGETED_RECEIVER@ && key_text_of(request.source_key) == Some(
        "source.receiver.empty"@,
    ) {
        if subject == Some("media.quiet-signal"@) {
            TargetedReadOutcomeView::Matched(quiet_signal_read_of(s, request))
        } else if subject == Some("media.linked"@) {
            TargetedReadOutcomeView::Ambiguous(
                seq![item_subject_of("media.linked.part1"@), item_subject_of("media.linked.part2"@)],
            )
        } else if subject == Some("missing"@) {
            TargetedReadOutcomeView::NotFound
        } else if subject == Some("indeterminate"@) {
            TargetedReadOutcomeView::Indeterminate(
                Some(
                    fixture_failure_of(
                        "temporarily_unavailable"@,
                        "targeted state is temporarily unavailable"@,
                        true,
                    ),
                ),
            )
        } else {
            TargetedReadOutcomeView::Unsupported
        }
    } else {
        TargetedReadOutcomeView::Unsupported
    };
    ReadTargetedStateResponseView { outcome: Some(outcome) }
}

/// Every requested field names a term.
pub open spec fn fields_named(fields: Seq<StateFieldView>) -> bool {
    forall|i: int| 0 <= i < fields.len() ==> (#[trigger] fields[i]).field is Some
}

/// The answer to a write refused with this code.
pub open spec fn rejected_write_of(code: Seq<char>) -> WriteTargetedStateResponseView {
    WriteTargetedStateResponseView {
        status: TargetedStateWriteStatus::Rejected,
        certainty: TargetedStateWriteCertainty::ConfirmedNotApplied,
        retry_disposition: TargetedStateWriteRetryDisposition::NotRetryable,
        membership_effect: TargetedStateMembershipEffect::Unchanged,
        field_effects: seq![],
        provider_revision: seq![],
        successor_precondition: seq![],
        receipt: seq![],
        error: Some(fixture_failure_of(code, "targeted state write precondition was not satisfied"@, false)),
    }
}

/// The answer to a write refused with this code.
pub fn rejected_targeted_write(code: &str) -> (r: WriteTargetedStateResponse)
    ensures
        r@ == rejected_write_of(code@),
{
    let r = WriteTargetedStateResponse {
        status: TargetedStateWriteStatus::Rejected,
        certainty: TargetedStateWriteCertainty::ConfirmedNotApplied,
        retry_disposition: TargetedStateWriteRetryDisposition::NotRetryable,
        membership_effect: TargetedStateMembershipEffect::Unchanged,
        field_effects: Vec::new(),
        provider_revision: Vec::new(),
        successor_precondition: Vec::new(),
        receipt: Vec::new(),
        error: Some(operation_failure(code, "targeted state write precondition was not satisfied", false)),
    };
    assert(r@.field_effects =~= seq![]);
    r
}

/// A write may change the targeted state only for the quiet signal, when it
/// expects the membership and presents the precondition token of the current
/// state.
pub open spec fn write_precondition_holds(s: ScenarioView, request: WriteTargetedStateRequestView) -> bool {
    &&& addresses_quiet_signal(s, request.source_key, request.subject)
    &&& request.expected_membership == (if s.membership_present {
        SourceMembership::Present
    } else {
        SourceMembership::Absent
    })
    &&& request.precondition == encode_utf8(precondition_text(s.membership_present, s.revision))
}

/// The state after one intent: a set field takes its value, a cleared one is
/// removed.
pub open spec fn apply_intent(values: Map<Seq<char>, ValueView>, intent: TargetedStateWriteIntentView) -> Map<Seq<char>, ValueView> {
    match intent.operation {
        Some(WriteOperationView::Assign(v)) => values.insert(field_identity_of(intent.field.unwrap()), v),
        Some(WriteOperationView::Clear) => values.remove(field_identity_of(intent.field.unwrap())),
        None => values,
    }
}

/// The state after the intents, applied in order.
pub open spec fn apply_intents(values: Map<Seq<char>, ValueView>, intents: Seq<TargetedStateWriteIntentView>) -> Map<Seq<char>, ValueView>
    decreases intents.len(),
{
    if intents.len() == 0 {
        values
    } else {
        apply_intent(apply_intents(values, intents.drop_last()), intents.last())
    }
}

/// What an applied intent did to its field.
pub open spec fn field_effect_of(intent: TargetedStateWriteIntentView) -> TargetedStateWriteFieldEffectView {
    TargetedStateWriteFieldEffectView {
        field: intent.field,
        effect: match intent.operation {
            Some(WriteOperationView::Assign(_)) => TargetedStateFieldEffectKind::Assigned,
            Some(WriteOperationView::Clear) => TargetedStateFieldEffectKind::Cleared,
            None => TargetedStateFieldEffectKind::Unknown,
        },
        value: match intent.operation {
            Some(WriteOperationView::Assign(v)) => Some(v),
            _ => None,
        },
    }
}

/// Every intent of a write names a field term and an operation.
pub open spec fn intents_complete(intents: Seq<TargetedStateWriteIntentView>) -> bool {
    forall|i: int| 0 <= i < intents.len() ==> ((#[trigger] intents[i]).field matches Some(f) && f.field is Some
        && intents[i].operation is Some)
}

/// The answer to an applied write that brought the state to `revision`.
pub open spec fn applied_write_of(s: ScenarioView, request: WriteTargetedStateRequestView, revision: u64) -> WriteTargetedStateResponseView {
    WriteTargetedStateResponseView {
        status: TargetedStateWriteStatus::Applied,
        certainty: TargetedStateWriteCertainty::ConfirmedApplied,
        retry_disposition: TargetedStateWriteRetryDisposition::NotRetryable,
        membership_effect: if s.membership_present {
            TargetedStateMembershipEffect::Unchanged
        } else {
            TargetedStateMembershipEffect::Created
        },
        field_effects: Seq::new(request.intents.len(), |i: int| field_effect_of(request.intents[i])),
        provider_revision: encode_utf8(targeted_revision_text(revision)),
        successor_precondition: encode_utf8(precondition_text(true, revision)),
        receipt: encode_utf8("fixture-write-r"@ + decimal_text(revision as int)),
        error: None,
    }
}

/// A write, and the state it leaves: a replay of a recorded write under its
/// idempotency key answers as the first time and changes nothing; a
/// different write under a used key is refused as a conflict; a write whose
/// precondition does not hold is refused; otherwise the item joins the
/// receiver, the intents are applied, the revision advances, and the answer
/// is recorded under the key.
pub open spec fn write_of(s: ScenarioView, request: WriteTargetedStateRequestView) -> (ScenarioView, WriteTargetedStateResponseView) {
    let key = request.idempotency_key;
    if s.writes.contains_key(key) {
        if s.writes[key].request == stable_request_of(request) {
            (s, s.writes[key].response)
        } else {
            (s, rejected_write_of("idempotency_key_conflict"@))
        }
    } else if !write_precondition_holds(s, request) {
        (s, rejected_write_of("precondition_failed"@))
    } else {
        let revision = (s.revision + 1) as u64;
        let response = applied_write_of(s, request, revision);
        (
            ScenarioView {
                membership_present: true,
                values: apply_intents(s.values, request.intents),
                revision,
                writes: s.writes.insert(key, TargetedWriteRecordView { request: stable_request_of(request), response }),
                ..s
            },
            response,
        )
    }
}

/// Whether a write would be applied rather than replayed or refused.
pub open spec fn write_applies(s: ScenarioView, request: WriteTargetedStateRequestView) -> bool {
    !s.writes.contains_key(request.idempotency_key) && write_precondition_holds(s, request)
}

fn same_request(a: &WriteTargetedStateRequest, b: &WriteTargetedStateRequest) -> (r: bool)
    ensures
        r == (a@ == b@),
{
    let r = same_bytes(&a.operation_id, &b.operation_id) && same_stable_request(a, b);
    proof {
        if a@.operation_id == b@.operation_id && stable_request_of(a@) == stable_request_of(b@) {
            assert(a@ == b@);
        }
    }
    r
}

fn membership_of(present: bool) -> (r: SourceMembership)
    ensures
        r == (if present {
            SourceMembership::Present
        } else {
            SourceMembership::Absent
        }),
{
    if present {
        SourceMembership::Present
    } else {
        SourceMembership::Absent
    }
}

fn precondition_token(present: bool, revision: u64) -> (r: Vec<u8>)
    ensures
        r@ == encode_utf8(precondition_text(present, revision)),
{
    let number = unsigned_decimal(revision);
    let text = if present {
        join2("expected-present-r", number.as_str())
    } else {
        join2("expected-absent-r", number.as_str())
    };
    utf8_bytes(text.as_str())
}

fn targeted_revision(revision: u64) -> (r: Vec<u8>)
    ensures
        r@ == encode_utf8(targeted_revision_text(revision)),
{
    let number = unsigned_decimal(revision);
    utf8_bytes(join2("targeted.receiver.empty.v", number.as_str()).as_str())
}

impl Scenario {
    fn field_observed(&self, field: &StateField) -> (r: TargetedStateFieldObservation)
        requires
            field@.field is Some,
        ensures
            r@ == field_observed_of(self@, field@),
    {
        let identity = state_field_identity(field);
        let value = self.targeted_state_values.get(&identity);
        let presence = if self.targeted_membership_present {
            if value.is_some() {
                StatePresence::Present
            } else {
                StatePresence::Deleted
            }
        } else {
            StatePresence::Absent
        };
        TargetedStateFieldObservation { field: Some(field.duplicate()), presence, value }
    }

    fn write_causation(&self, key: &Vec<u8>) -> (r: Option<TargetedStateWriteCausation>)
        ensures
            r.deep_view() == write_causation_of(self@, key@),
    {
        proof {
            assert(key.deep_view() =~= key@);
        }
        if key.len() == 0 {
            return None;
        }
        match self.targeted_write_results.get(key) {
            Some(record) => {
                let current = targeted_revision(self.targeted_state_revision);
                if same_bytes(&record.response.provider_revision, &current) {
                    Some(
                        TargetedStateWriteCausation {
                            idempotency_key: copy_bytes(key),
                            receipt: copy_bytes(&record.response.receipt),
                            provider_revision: copy_bytes(&record.response.provider_revision),
                        },
                    )
                } else {
                    None
                }
            },
            None => None,
        }
    }

    fn quiet_signal_read(&self, request: &ReadTargetedStateRequest) -> (r: TargetedStateReadMatched)
        requires
            fields_named(request@.fields),
        ensures
            r@ == quiet_signal_read_of(self@, request@),
    {
        proof {
            use_type_invariant(self);
        }
        let mut fields: Vec<TargetedStateFieldObservation> = Vec::new();
        let mut i: usize = 0;
        while i < request.fields.len()
            invariant
                i <= request.fields.len(),
                fields_named(request@.fields),
                fields.deep_view() =~= Seq::new(i as nat, |k: int| field_observed_of(self@, request@.fields[k])),
            decreases request.fields.len() - i,
        {
            assert(request@.fields[i as int] == request.fields[i as int]@);
            push_item(&mut fields, self.field_observed(&request.fields[i]));
            i = i + 1;
        }
        let revision = self.targeted_state_revision;
        let observed = LOGICAL_TIME_MILLISECONDS + (revision - 1) as i64 * 1000;
        TargetedStateReadMatched {
            membership: membership_of(self.targeted_membership_present),
            fields,
            provider_revision: targeted_revision(revision),
            observed_time_milliseconds: observed,
            expires_time_milliseconds: Some(observed + 60000),
            precondition: precondition_token(self.targeted_membership_present, revision),
            write_causation: self.write_causation(&request.reconciliation_idempotency_key),
        }
    }

    /// The answer to a targeted read.
    pub fn targeted_state(&self, request: &ReadTargetedStateRequest) -> (r: ReadTargetedStateResponse)
        requires
            addresses_quiet_signal(self@, request@.source_key, request@.subject) ==> fields_named(request@.fields),
        ensures
            r@ == targeted_read_of(self@, request@),
    {
        let source = key_text(&request.source_key);
        let subject = subject_text(&request.subject);
        let outcome = if same_text(self.settings.scenario_id.as_str(), EMPTY_TARGETED_RECEIVER) && is_text(
            source,
            "source.receiver.empty",
        ) {
            if is_text(subject, "media.quiet-signal") {
                TargetedReadOutcome::Matched(self.quiet_signal_read(request))
            } else if is_text(subject, "media.linked") {
                let mut candidates: Vec<SubjectReference> = Vec::new();
                push_item(&mut candidates, provider_item_subject("media.linked.part1"));
                push_item(&mut candidates, provider_item_subject("media.linked.part2"));
                assert(candidates.deep_view() =~= seq![item_subject_of("media.linked.part1"@), item_subject_of("media.linked.part2"@)]);
                TargetedReadOutcome::Ambiguous(candidates)
            } else if is_text(subject, "missing") {
                TargetedReadOutcome::NotFound
            } else if is_text(subject, "indeterminate") {
                TargetedReadOutcome::Indeterminate(
                    Some(operation_failure("temporarily_unavailable", "targeted state is temporarily unavailable", true)),
                )
            } else {
                TargetedReadOutcome::Unsupported
            }
        } else {
            TargetedReadOutcome::Unsupported
        };
        ReadTargetedStateResponse { outcome: Some(outcome) }
    }

    /// Applies, replays or refuses a targeted write, as `write_of` says.
    pub fn write_targeted_state(&mut self, request: &WriteTargetedStateRequest) -> (r: WriteTargetedStateResponse)
        requires
            write_applies(old(self)@, request@) ==> intents_complete(request@.intents) && old(self)@.revision
                < MAX_TARGETED_REVISION,
        ensures
            (final(self)@, r@) == write_of(old(self)@, request@),
    {
        proof {
            use_type_invariant(&*self);
            assert(request.idempotency_key.deep_view() =~= request@.idempotency_key);
        }
        let stable = stable_request(request);
        match self.targeted_write_results.get(&request.idempotency_key) {
            Some(record) => {
                return if same_request(&record.request, &stable) {
                    record.response
                } else {
                    rejected_targeted_write("idempotency_key_conflict")
                };
            },
            None => {},
        }
        let source = key_text(&request.source_key);
        let subject = subject_text(&request.subject);
        let expected_membership = membership_of(self.targeted_membership_present);
        let expected_precondition = precondition_token(self.targeted_membership_present, self.targeted_state_revision);
        if !(same_text(self.settings.scenario_id.as_str(), EMPTY_TARGETED_RECEIVER) && is_text(source, "source.receiver.empty")
            && is_text(subject, "media.quiet-signal")) || request.expected_membership != expected_membership
            || !same_bytes(&request.precondition, &expected_precondition) {
            return rejected_targeted_write("precondition_failed");
        }
        let ghost before = self@;
        let created = !self.targeted_membership_present;
        self.targeted_membership_present = true;
        let mut values: Store<String, Value> = Store::new();
        std::mem::swap(&mut values, &mut self.targeted_state_values);
        let mut effects: Vec<TargetedStateWriteFieldEffect> = Vec::new();
        let mut i: usize = 0;
        while i < request.intents.len()
            invariant
                i <= request.intents.len(),
                intents_complete(request@.intents),
                self.targeted_membership_present,
                self.settings@ == before.settings,
                self.targeted_state_revision == before.revision,
                self.targeted_write_results@ == before.writes,
                values@ == apply_intents(before.values, request@.intents.take(i as int)),
                effects.deep_view() =~= Seq::new(i as nat, |k: int| field_effect_of(request@.intents[k])),
            decreases request.intents.len() - i,
        {
            let intent = &request.intents[i];
            assert(request@.intents[i as int] == intent@);
            assert(request@.intents.take(i + 1).drop_last() =~= request@.intents.take(i as int));
            let field = intent.field.as_ref().unwrap();
            let identity = state_field_identity(field);
            match &intent.operation {
                Some(WriteOperation::Assign(value)) => {
                    values.insert(identity, value.duplicate());
                    push_item(
                        &mut effects,
                        TargetedStateWriteFieldEffect {
                            field: Some(field.duplicate()),
                            effect: TargetedStateFieldEffectKind::Assigned,
                            value: Some(value.duplicate()),
                        },
                    );
                },
                Some(WriteOperation::Clear) => {
                    values.remove(&identity);
                    push_item(
                        &mut effects,
                        TargetedStateWriteFieldEffect {
                            field: Some(field.duplicate()),
                            effect: TargetedStateFieldEffectKind::Cleared,
                            value: None,
                        },
                    );
                },
                None => {},
            }
            i = i + 1;
        }
        assert(request@.intents.take(i as int) =~= request@.intents);
        self.targeted_state_values = values;
        self.targeted_state_revision = self.targeted_state_revision + 1;
        let revision = self.targeted_state_revision;
        let number = unsigned_decimal(revision);
        let response = WriteTargetedStateResponse {
            status: TargetedStateWriteStatus::Applied,
            certainty: TargetedStateWriteCertainty::ConfirmedApplied,
            retry_disposition: TargetedStateWriteRetryDisposition::NotRetryable,
            membership_effect: if created {
                TargetedStateMembershipEffect::Created
            } else {
                TargetedStateMembershipEffect::Unchanged
            },
            field_effects: effects,
            provider_revision: targeted_revision(revision),
            successor_precondition: precondition_token(true, revision),
            receipt: utf8_bytes(join2("fixture-write-r", number.as_str()).as_str()),
            error: None,
        };
        let key_copy = copy_bytes(&request.idempotency_key);
        proof {
            assert(key_copy.deep_view() =~= request@.idempotency_key);
        }
        let mut writes: Store<Vec<u8>, TargetedWriteRecord> = Store::new();
        std::mem::swap(&mut writes, &mut self.targeted_write_results);
        writes.insert(key_copy, TargetedWriteRecord { request: stable, response: response.duplicate() });
        self.targeted_write_results = writes;
        response
    }
}

// ---------------------------------------------------------------------------
// Laws of the targeted state
// ---------------------------------------------------------------------------

/// Replaying an applied write under its idempotency key, with any operation
/// identifier, answers exactly as the write did and changes nothing.
pub proof fn lemma_write_replay_is_idempotent(
    s: ScenarioView,
    request: WriteTargetedStateRequestView,
    replay: WriteTargetedStateRequestView,
)
    requires
        write_applies(s, request),
        stable_request_of(replay) == stable_request_of(request),
    ensures
        write_of(write_of(s, request).0, replay) == (write_of(s, request).0, write_of(s, request).1),
{
    assert(replay.idempotency_key == stable_request_of(replay).idempotency_key);
    assert(request.idempotency_key == stable_request_of(request).idempotency_key);
}

/// A different write under the idempotency key of an applied write is refused
/// as a conflict and changes nothing.
pub proof fn lemma_write_conflict_is_refused(
    s: ScenarioView,
    request: WriteTargetedStateRequestView,
    other: WriteTargetedStateRequestView,
)
    requires
        write_applies(s, request),
        other.idempotency_key == request.idempotency_key,
        stable_request_of(other) != stable_request_of(request),
    ensures
        write_of(write_of(s, request).0, other) == (write_of(s, request).0, rejected_write_of("idempotency_key_conflict"@)),
{
}

/// A write that is not applied leaves the targeted state as it was.
pub proof fn lemma_unapplied_write_changes_nothing(s: ScenarioView, request: WriteTargetedStateRequestView)
    requires
        !write_applies(s, request),
    ensures
        write_of(s, request).0 == s,
{
}

/// An applied write makes the item belong to the receiver and advances the
/// revision by one; a read of the item afterwards sees it present, at the
/// revision and with the precondition token that the write answered, and a
/// field that the write's last intent set holds the value set.
pub proof fn lemma_read_after_write(
    s: ScenarioView,
    request: WriteTargetedStateRequestView,
    read: ReadTargetedStateRequestView,
    value: ValueView,
)
    requires
        scenario_valid(s),
        s.revision < MAX_TARGETED_REVISION,
        write_applies(s, request),
        addresses_quiet_signal(s, read.source_key, read.subject),
    ensures
        ({
            let after = write_of(s, request).0;
            let response = write_of(s, request).1;
            &&& after.membership_present
            &&& after.revision == s.revision + 1
            &&& response.status == TargetedStateWriteStatus::Applied
            &&& targeted_read_of(after, read).outcome == Some(
                TargetedReadOutcomeView::Matched(quiet_signal_read_of(after, read)),
            )
            &&& quiet_signal_read_of(after, read).membership == SourceMembership::Present
            &&& quiet_signal_read_of(after, read).precondition == response.successor_precondition
            &&& quiet_signal_read_of(after, read).provider_revision == response.provider_revision
        }),
        request.intents.len() > 0 && intents_complete(request.intents) && request.intents.last().operation == Some(
            WriteOperationView::Assign(value),
        ) ==> ({
            let after = write_of(s, request).0;
            let f = request.intents.last().field.unwrap();
            &&& field_observed_of(after, f).presence == StatePresence::Present
            &&& field_observed_of(after, f).value == Some(value)
        }),
{
}

/// The state after a sequence of writes, made one after another.
pub open spec fn writes_after(s: ScenarioView, requests: Seq<WriteTargetedStateRequestView>) -> ScenarioView
    decreases requests.len(),
{
    if requests.len() == 0 {
        s
    } else {
        write_of(writes_after(s, requests.drop_last()), requests.last()).0
    }
}

/// A recorded write survives every later write: whatever is written
/// afterwards, the record under its idempotency key stays as it was.
pub proof fn lemma_write_record_survives(s: ScenarioView, requests: Seq<WriteTargetedStateRequestView>, key: Seq<u8>)
    requires
        s.writes.contains_key(key),
    ensures
        writes_after(s, requests).writes.contains_key(key),
        writes_after(s, requests).writes[key] == s.writes[key],
    decreases requests.len(),
{
    if requests.len() > 0 {
        lemma_write_record_survives(s, requests.drop_last(), key);
    }
}

/// A write answered as applied is on record under its idempotency key, with
/// what it asked and what it answered — whether it was applied just now or
/// replayed from an earlier record.
pub proof fn lemma_applied_answer_is_recorded(s: ScenarioView, request: WriteTargetedStateRequestView)
    requires
        write_of(s, request).1.status == TargetedStateWriteStatus::Applied,
    ensures
        write_of(s, request).0.writes.contains_key(request.idempotency_key),
        write_of(s, request).0.writes[request.idempotency_key].request == stable_request_of(request),
        write_of(s, request).0.writes[request.idempotency_key].response == write_of(s, request).1,
{
}

/// Replay and conflict hold however many writes came in between: after a
/// write answered as applied and any later writes, a write under its
/// idempotency key answers as that write did when it asks the same, and is
/// refused as a conflict (confirmed not applied, membership unchanged) when
/// it asks something else; either way nothing changes.
pub proof fn lemma_replay_after_later_writes(
    s: ScenarioView,
    request: WriteTargetedStateRequestView,
    later: Seq<WriteTargetedStateRequestView>,
    replay: WriteTargetedStateRequestView,
)
    requires
        write_of(s, request).1.status == TargetedStateWriteStatus::Applied,
        replay.idempotency_key == request.idempotency_key,
    ensures
        ({
            let t = writes_after(write_of(s, request).0, later);
            &&& stable_request_of(replay) == stable_request_of(request) ==> write_of(t, replay) == (t, write_of(s, request).1)
            &&& stable_request_of(replay) != stable_request_of(request) ==> write_of(t, replay) == (
                t,
                rejected_write_of("idempotency_key_conflict"@),
            )
        }),
{
    lemma_applied_answer_is_recorded(s, request);
    lemma_write_record_survives(write_of(s, request).0, later, request.idempotency_key);
}

/// The position of the last intent of `intents` on the field with this
/// identity, if one is on it.
pub open spec fn last_intent_on(intents: Seq<TargetedStateWriteIntentView>, id: Seq<char>) -> Option<int>
    decreases intents.len(),
{
    if intents.len() == 0 {
        None
    } else if field_identity_of(intents.last().field.unwrap()) == id {
        Some(intents.len() - 1)
    } else {
        last_intent_on(intents.drop_last(), id)
    }
}

/// The value that a field holds in a state, if it holds one.
pub open spec fn value_at(values: Map<Seq<char>, ValueView>, id: Seq<char>) -> Option<ValueView> {
    if values.contains_key(id) {
        Some(values[id])
    } else {
        None
    }
}

/// What complete intents leave of a field: the last intent on it decides —
/// a set field holds the value set, a cleared one holds nothing — and a field
/// that no intent names keeps what it held.
pub proof fn lemma_intents_decide_fields(
    values: Map<Seq<char>, ValueView>,
    intents: Seq<TargetedStateWriteIntentView>,
    id: Seq<char>,
)
    requires
        intents_complete(intents),
    ensures
        last_intent_on(intents, id) matches Some(j) ==> 0 <= j < intents.len() && field_identity_of(
            intents[j].field.unwrap(),
        ) == id && forall|k: int| j < k < intents.len() ==> field_identity_of(#[trigger] intents[k].field.unwrap()) != id,
        value_at(apply_intents(values, intents), id) == match last_intent_on(intents, id) {
            Some(j) => match intents[j].operation {
                Some(WriteOperationView::Assign(v)) => Some(v),
                _ => None,
            },
            None => value_at(values, id),
        },
    decreases intents.len(),
{
    if intents.len() > 0 {
        let rest = intents.drop_last();
        assert forall|i: int| 0 <= i < rest.len() implies ((#[trigger] rest[i]).field matches Some(f) && f.field is Some
            && rest[i].operation is Some) by {
            assert(rest[i] == intents[i]);
        }
        lemma_intents_decide_fields(values, rest, id);
        assert(intents[intents.len() - 1].operation is Some);
        if field_identity_of(intents.last().field.unwrap()) != id {
            assert forall|j: int| #![auto] 0 <= j < rest.len() implies rest[j] == intents[j] by {}
        }
    }
}

/// Read after write, for every field: after an applied write with complete
/// intents, a read of the item sees each field as the last intent on it left
/// it — present with the value set, or deleted when cleared — and a field
/// that no intent names as it was before the write.
pub proof fn lemma_read_after_write_fields(
    s: ScenarioView,
    request: WriteTargetedStateRequestView,
    f: StateFieldView,
)
    requires
        write_applies(s, request),
        intents_complete(request.intents),
    ensures
        ({
            let observed = field_observed_of(write_of(s, request).0, f);
            let decided = match last_intent_on(request.intents, field_identity_of(f)) {
                Some(j) => match request.intents[j].operation {
                    Some(WriteOperationView::Assign(v)) => Some(v),
                    _ => None,
                },
                None => value_at(s.values, field_identity_of(f)),
            };
            &&& observed.value == decided
            &&& observed.presence == (if decided is Some {
                StatePresence::Present
            } else {
                StatePresence::Deleted
            })
        }),
{
    lemma_intents_decide_fields(s.values, request.intents, field_identity_of(f));
}

/// What an applied write answers and leaves: the next revision of the
/// empty receiver as provider revision, the token of the present item at
/// that revision as successor precondition — the one a read then hands out —
/// membership created or unchanged as the item did not or did belong, an
/// effect for each intent, and each field as the last intent on it left it.
pub proof fn lemma_applied_write(
    s: ScenarioView,
    request: WriteTargetedStateRequestView,
    read: ReadTargetedStateRequestView,
)
    requires
        scenario_valid(s),
        write_applies(s, request),
        intents_complete(request.intents),
        addresses_quiet_signal(s, read.source_key, read.subject),
    ensures
        ({
            let after = write_of(s, request).0;
            let response = write_of(s, request).1;
            &&& response.status == TargetedStateWriteStatus::Applied
            &&& response.provider_revision == encode_utf8(
                "targeted.receiver.empty.v"@ + decimal_text(s.revision + 1),
            )
            &&& response.successor_precondition == encode_utf8("expected-present-r"@ + decimal_text(s.revision + 1))
            &&& quiet_signal_read_of(after, read).precondition == response.successor_precondition
            &&& response.membership_effect == (if s.membership_present {
                TargetedStateMembershipEffect::Unchanged
            } else {
                TargetedStateMembershipEffect::Created
            })
            &&& response.field_effects.len() == request.intents.len()
            &&& forall|f: StateFieldView| {
                let decided = match last_intent_on(request.intents, field_identity_of(f)) {
                    Some(j) => match request.intents[j].operation {
                        Some(WriteOperationView::Assign(v)) => Some(v),
                        _ => None,
                    },
                    None => value_at(s.values, field_identity_of(f)),
                };
                &&& (#[trigger] field_observed_of(after, f)).value == decided
                &&& field_observed_of(after, f).presence == (if decided is Some {
                    StatePresence::Present
                } else {
                    StatePresence::Deleted
                })
            }
        }),
{
    assert forall|f: StateFieldView| {
        let decided = match last_intent_on(request.intents, field_identity_of(f)) {
            Some(j) => match request.intents[j].operation {
                Some(WriteOperationView::Assign(v)) => Some(v),
                _ => None,
            },
            None => value_at(s.values, field_identity_of(f)),
        };
        &&& (#[trigger] field_observed_of(write_of(s, request).0, f)).value == decided
        &&& field_observed_of(write_of(s, request).0, f).presence == (if decided is Some {
            StatePresence::Present
        } else {
            StatePresence::Deleted
        })
    } by {
        lemma_read_after_write_fields(s, request, f);
    }
    let response = write_of(s, request).1;
    assert(((s.revision + 1) as u64) as int == s.revision + 1);
    assert(response.provider_revision == encode_utf8("targeted.receiver.empty.v"@ + decimal_text(s.revision + 1)));
    assert(response.successor_precondition == encode_utf8("expected-present-r"@ + decimal_text(s.revision + 1)));
    assert(quiet_signal_read_of(write_of(s, request).0, read).precondition == response.successor_precondition);
}

/// After an applied write, a write that expects the item present and presents
/// the token that the first write answered passes the precondition.
pub proof fn lemma_successor_precondition_chains(
    s: ScenarioView,
    request: WriteTargetedStateRequestView,
    next: WriteTargetedStateRequestView,
)
    requires
        write_applies(s, request),
        addresses_quiet_signal(s, next.source_key, next.subject),
        next.expected_membership == SourceMembership::Present,
        next.precondition == write_of(s, request).1.successor_precondition,
    ensures
        write_precondition_holds(write_of(s, request).0, next),
{
}

// ---------------------------------------------------------------------------
// Accounts, capabilities and sources
// ---------------------------------------------------------------------------

/// The account that a scenario signs in as.
pub open spec fn account_name_of(settings: FixtureSettingsView) -> Seq<char> {
    let id = settings.scenario_id;
    if id == HIERARCHICAL_CATALOG_ASSETS@ {
        "account.assets.primary"@
    } else if id == EMPTY_TARGETED_RECEIVER@ {
        "account.receiver.primary"@
    } else if id == EDITION_HIERARCHY@ {
        "account.editions.primary"@
    } else if id == FLAT_CATALOG_REVISIONS@ {
        "account.flat.primary"@
    } else if id == ADVERSARIAL@ {
        "account.adversarial.edge"@
    } else if settings.instance == "beta"@ {
        "account.beta"@
    } else {
        "account.alpha"@
    }
}

/// The accounts of a scenario: its one account, named by its key.
pub open spec fn accounts_of(settings: FixtureSettingsView) -> Seq<AccountSnapshotView> {
    seq![AccountSnapshotView { key: Some(fkey(account_name_of(settings))), display_name: account_name_of(settings) }]
}

fn account_name(settings: &FixtureSettings) -> (r: &'static str)
    requires
        settings_valid(settings@),
    ensures
        r@ == account_name_of(settings@),
{
    let id = settings.scenario_id.as_str();
    if same_text(id, HIERARCHICAL_CATALOG_ASSETS) {
        "account.assets.primary"
    } else if same_text(id, EMPTY_TARGETED_RECEIVER) {
        "account.receiver.primary"
    } else if same_text(id, EDITION_HIERARCHY) {
        "account.editions.primary"
    } else if same_text(id, FLAT_CATALOG_REVISIONS) {
        "account.flat.primary"
    } else if same_text(id, ADVERSARIAL) {
        "account.adversarial.edge"
    } else if same_text(settings.instance.as_str(), "beta") {
        "account.beta"
    } else {
        "account.alpha"
    }
}

/// A lookup capability over the example namespace, in batches of fifty.
pub open spec fn fixture_lookup_capability() -> LookupCapabilityView {
    LookupCapabilityView { reference_namespaces: seq!["example.media"@], maximum_batch_size: 50 }
}

/// An endpoint lookup capability over the example namespace and segments.
pub open spec fn fixture_endpoint_capability() -> EndpointLookupCapabilityView {
    EndpointLookupCapabilityView {
        reference_namespaces: seq!["example.media"@],
        coordinate_ids: seq!["segment"@],
        maximum_batch_size: 50,
        maximum_response_bytes: 65536,
    }
}

/// Only the empty receiver and the adversarial scenario look references and
/// endpoints up.
pub open spec fn connection_capabilities_of(settings: FixtureSettingsView) -> ConnectionCapabilitiesView {
    let supported = settings.scenario_id == EMPTY_TARGETED_RECEIVER@ || settings.scenario_id == ADVERSARIAL@;
    ConnectionCapabilitiesView {
        reference_lookup: if supported {
            Some(fixture_lookup_capability())
        } else {
            None
        },
        endpoint_lookup: if supported {
            Some(fixture_endpoint_capability())
        } else {
            None
        },
    }
}

fn one_text(text: &str) -> (r: Vec<String>)
    ensures
        r.deep_view() == seq![text@],
{
    let mut r: Vec<String> = Vec::new();
    push_item(&mut r, owned(text));
    r
}

/// A descriptor of a state field in the state namespace.
pub open spec fn state_term(name: Seq<char>) -> TermView {
    TermView { namespace: "dev.trakkin.state"@, name }
}

/// The state fields that the receiver sources describe: watched always, and
/// progress in time from nought to twelve for the one that reads state.
pub open spec fn state_fields_of(targeted_read: bool, targeted_write: bool) -> Seq<StateFieldDescriptorView> {
    let watched = StateFieldDescriptorView {
        field: Some(state_term("watched"@)),
        unit: None,
        value_kind: ConfigurationValueKind::Boolean,
        rating_scale: None,
        numeric_range: None,
        quantizer: StateFieldQuantizer::Unspecified,
    };
    let progress = StateFieldDescriptorView {
        field: Some(state_term("progress"@)),
        unit: Some(TermView { namespace: "dev.trakkin.unit"@, name: "time"@ }),
        value_kind: ConfigurationValueKind::Integer,
        rating_scale: None,
        numeric_range: Some(StateFieldNumericRangeView { minimum: "0"@, maximum: "12"@, step: "1"@ }),
        quantizer: StateFieldQuantizer::Exact,
    };
    if targeted_read {
        seq![watched, progress]
    } else if targeted_write {
        seq![watched]
    } else {
        seq![]
    }
}

/// The fields that the receiver sources write: watched, clearable only where
/// state is read, and progress in time there.
pub open spec fn write_fields_of(targeted_read: bool) -> Seq<TargetedStateFieldWriteCapabilityView> {
    let watched = TargetedStateFieldWriteCapabilityView {
        field: Some(StateFieldView { field: Some(state_term("watched"@)), unit: None }),
        set_supported: true,
        clear_supported: targeted_read,
    };
    let progress = TargetedStateFieldWriteCapabilityView {
        field: Some(
            StateFieldView {
                field: Some(state_term("progress"@)),
                unit: Some(TermView { namespace: "dev.trakkin.unit"@, name: "time"@ }),
            },
        ),
        set_supported: true,
        clear_supported: true,
    };
    if targeted_read {
        seq![watched, progress]
    } else {
        seq![watched]
    }
}

/// A fixture source: full catalog reads always, incremental ones where
/// declared, state and assets where declared, four coordinate kinds, and the
/// targeted state capabilities of the empty receiver (read and write, with
/// provider tokens) and of the adversarial lookup source (write, checked by
/// the host only).
pub open spec fn source_of(
    source_key: Seq<char>,
    display_name: Seq<char>,
    kind: Seq<char>,
    account_key: Option<KeyView>,
    incremental: bool,
    state: bool,
    assets: bool,
) -> SourceSnapshotView {
    let targeted_read = source_key == "source.receiver.empty"@;
    let targeted_write = targeted_read || source_key == "source.adversarial.lookup"@;
    SourceSnapshotView {
        key: Some(fkey(source_key)),
        account_key,
        display_name,
        kind: Some(fterm(kind)),
        availability: SourceAvailability::Available,
        capabilities: Some(
            SourceCapabilitiesView {
                catalog: Some(ReadCapabilityView { full: true, incremental }),
                state: if state {
                    Some(ReadCapabilityView { full: true, incremental })
                } else {
                    None
                },
                state_fields: state_fields_of(targeted_read, targeted_write),
                assets: if assets {
                    Some(AssetCapabilityView { maximum_bytes: 1024, content_types: seq!["image/jpeg"@] })
                } else {
                    None
                },
                coordinates: Some(
                    CoordinateCapabilityView { coordinate_ids: seq!["segment"@, "volume"@, "chapter"@, "page"@] },
                ),
                targeted_state_read: if targeted_read {
                    Some(TargetedStateReadCapabilityView { maximum_fields: 8, maximum_response_bytes: 65536 })
                } else {
                    None
                },
                targeted_state_write: if targeted_write {
                    Some(
                        TargetedStateWriteCapabilityView {
                            fields: write_fields_of(targeted_read),
                            may_create_source_membership: targeted_read,
                            precondition_mode: if targeted_read {
                                TargetedStateWritePreconditionMode::ProviderToken
                            } else {
                                TargetedStateWritePreconditionMode::HostRecheckOnly
                            },
                            idempotency_mode: TargetedStateWriteIdempotencyMode::StableKey,
                            maximum_fields: 8,
                            maximum_request_bytes: 65536,
                            maximum_response_bytes: 65536,
                            maximum_receipt_bytes: 1024,
                        },
                    )
                } else {
                    None
                },
            },
        ),
    }
}

fn state_fields_for(targeted_read: bool, targeted_write: bool) -> (r: Vec<StateFieldDescriptor>)
    ensures
        r.deep_view() == state_fields_of(targeted_read, targeted_write),
{
    let mut fields: Vec<StateFieldDescriptor> = Vec::new();
    if targeted_read || targeted_write {
        push_item(
            &mut fields,
            StateFieldDescriptor {
                field: Some(Term { namespace: owned("dev.trakkin.state"), name: owned("watched") }),
                unit: None,
                value_kind: ConfigurationValueKind::Boolean,
                rating_scale: None,
                numeric_range: None,
                quantizer: StateFieldQuantizer::Unspecified,
            },
        );
    }
    if targeted_read {
        push_item(
            &mut fields,
            StateFieldDescriptor {
                field: Some(Term { namespace: owned("dev.trakkin.state"), name: owned("progress") }),
                unit: Some(Term { namespace: owned("dev.trakkin.unit"), name: owned("time") }),
                value_kind: ConfigurationValueKind::Integer,
                rating_scale: None,
                numeric_range: Some(StateFieldNumericRange { minimum: owned("0"), maximum: owned("12"), step: owned("1") }),
                quantizer: StateFieldQuantizer::Exact,
            },
        );
    }
    assert(fields.deep_view() =~= state_fields_of(targeted_read, targeted_write));
    fields
}

fn write_fields_for(targeted_read: bool) -> (r: Vec<TargetedStateFieldWriteCapability>)
    ensures
        r.deep_view() == write_fields_of(targeted_read),
{
    let mut fields: Vec<TargetedStateFieldWriteCapability> = Vec::new();
    push_item(
        &mut fields,
        TargetedStateFieldWriteCapability {
            field: Some(StateField { field: Some(Term { namespace: owned("dev.trakkin.state"), name: owned("watched") }), unit: None }),
            set_supported: true,
            clear_supported: targeted_read,
        },
    );
    if targeted_read {
        push_item(
            &mut fields,
            TargetedStateFieldWriteCapability {
                field: Some(
                    StateField {
                        field: Some(Term { namespace: owned("dev.trakkin.state"), name: owned("progress") }),
                        unit: Some(Term { namespace: owned("dev.trakkin.unit"), name: owned("time") }),
                    },
                ),
                set_supported: true,
                clear_supported: true,
            },
        );
    }
    assert(fields.deep_view() =~= write_fields_of(targeted_read));
    fields
}

fn coordinate_ids() -> (r: Vec<String>)
    ensures
        r.deep_view() == seq!["segment"@, "volume"@, "chapter"@, "page"@],
{
    let mut r: Vec<String> = Vec::new();
    push_item(&mut r, owned("segment"));
    push_item(&mut r, owned("volume"));
    push_item(&mut r, owned("chapter"));
    push_item(&mut r, owned("page"));
    assert(r.deep_view() =~= seq!["segment"@, "volume"@, "chapter"@, "page"@]);
    r
}

/// A fixture source.
pub fn source(
    source_key: &str,
    display_name: &str,
    kind: &str,
    account_key: Option<Key>,
    incremental: bool,
    state: bool,
    assets: bool,
) -> (r: SourceSnapshot)
    ensures
        r@ == source_of(source_key@, display_name@, kind@, account_key.deep_view(), incremental, state, assets),
{
    let targeted_read = same_text(source_key, "source.receiver.empty");
    let targeted_write = targeted_read || same_text(source_key, "source.adversarial.lookup");
    let capabilities = SourceCapabilities {
        catalog: Some(ReadCapability { full: true, incremental }),
        state: if state {
            Some(ReadCapability { full: true, incremental })
        } else {
            None
        },
        state_fields: state_fields_for(targeted_read, targeted_write),
        assets: if assets {
            Some(AssetCapability { maximum_bytes: 1024, content_types: one_text("image/jpeg") })
        } else {
            None
        },
        coordinates: Some(CoordinateCapability { coordinate_ids: coordinate_ids() }),
        targeted_state_read: if targeted_read {
            Some(TargetedStateReadCapability { maximum_fields: 8, maximum_response_bytes: 65536 })
        } else {
            None
        },
        targeted_state_write: if targeted_write {
            Some(
                TargetedStateWriteCapability {
                    fields: write_fields_for(targeted_read),
                    may_create_source_membership: targeted_read,
                    precondition_mode: if targeted_read {
                        TargetedStateWritePreconditionMode::ProviderToken
                    } else {
                        TargetedStateWritePreconditionMode::HostRecheckOnly
                    },
                    idempotency_mode: TargetedStateWriteIdempotencyMode::StableKey,
                    maximum_fields: 8,
                    maximum_request_bytes: 65536,
                    maximum_response_bytes: 65536,
                    maximum_receipt_bytes: 1024,
                },
            )
        } else {
            None
        },
    };
    SourceSnapshot {
        key: Some(key(source_key)),
        account_key,
        display_name: owned(display_name),
        kind: Some(term(kind)),
        availability: SourceAvailability::Available,
        capabilities: Some(capabilities),
    }
}

/// The name of the one source of an isolated connection.
pub open spec fn isolated_source_name(instance: Seq<char>) -> Seq<char> {
    "source."@ + instance + ".catalog"@
}

/// The sources that each scenario publishes, all under its account.
#[verifier::opaque]
pub open spec fn sources_of(settings: FixtureSettingsView) -> Seq<SourceSnapshotView> {
    let account = Some(fkey(account_name_of(settings)));
    let id = settings.scenario_id;
    if id == HIERARCHICAL_CATALOG_ASSETS@ {
        seq![
            source_of("source.assets.catalog"@, "Asset Catalog"@, "media"@, account, true, true, true),
            source_of("source.hierarchy.catalog"@, "Hierarchical Catalog"@, "media"@, account, true, true, false),
        ]
    } else if id == EMPTY_TARGETED_RECEIVER@ {
        seq![
            source_of("source.lookup.catalog"@, "Lookup Catalog"@, "media"@, account, true, true, false),
            source_of("source.reference.catalog"@, "Reference Catalog"@, "media"@, account, true, true, false),
            source_of("source.receiver.empty"@, "Empty Receiver"@, "media"@, account, true, true, false),
        ]
    } else if id == EDITION_HIERARCHY@ {
        seq![source_of("source.editions.catalog"@, "Edition Catalog"@, "media"@, account, false, true, false)]
    } else if id == FLAT_CATALOG_REVISIONS@ {
        seq![source_of("source.flat.catalog"@, "Flat Catalog"@, "media"@, account, true, true, false)]
    } else if id == ADVERSARIAL@ {
        seq![
            source_of("source.adversarial.catalog"@, "Adversarial Catalog"@, "mixed"@, account, true, true, true),
            source_of("source.adversarial.state"@, "Adversarial State"@, "mixed"@, account, true, true, false),
            source_of("source.adversarial.lookup"@, "Adversarial Lookup"@, "mixed"@, account, true, false, false),
            source_of(
                "source.adversarial.lookup-unsupported"@,
                "Unsupported Lookup"@,
                "mixed"@,
                account,
                false,
                false,
                false,
            ),
        ]
    } else {
        let name = isolated_source_name(settings.instance);
        seq![source_of(name, name, "media"@, account, true, true, true)]
    }
}

impl Scenario {
    /// The accounts of the scenario.
    pub fn accounts(&self) -> (r: Vec<AccountSnapshot>)
        ensures
            r.deep_view() == accounts_of(self@.settings),
    {
        proof {
            use_type_invariant(self);
        }
        let name = account_name(&self.settings);
        let mut r: Vec<AccountSnapshot> = Vec::new();
        push_item(&mut r, AccountSnapshot { key: Some(key(name)), display_name: owned(name) });
        assert(r.deep_view() =~= accounts_of(self@.settings));
        r
    }

    /// What a connection to the scenario offers.
    pub fn connection_capabilities(&self) -> (r: ConnectionCapabilities)
        ensures
            r@ == connection_capabilities_of(self@.settings),
    {
        let id = self.settings.scenario_id.as_str();
        let supported = same_text(id, EMPTY_TARGETED_RECEIVER) || same_text(id, ADVERSARIAL);
        ConnectionCapabilities {
            reference_lookup: if supported {
                Some(LookupCapability { reference_namespaces: one_text("example.media"), maximum_batch_size: 50 })
            } else {
                None
            },
            endpoint_lookup: if supported {
                Some(
                    EndpointLookupCapability {
                        reference_namespaces: one_text("example.media"),
                        coordinate_ids: one_text("segment"),
                        maximum_batch_size: 50,
                        maximum_response_bytes: 65536,
                    },
                )
            } else {
                None
            },
        }
    }

    /// The sources that the scenario publishes.
    pub fn sources(&self) -> (r: Vec<SourceSnapshot>)
        ensures
            r.deep_view() == sources_of(self@.settings),
    {
        reveal(sources_of);
        proof {
            use_type_invariant(self);
        }
        let name = account_name(&self.settings);
        let id = self.settings.scenario_id.as_str();
        let mut r: Vec<SourceSnapshot> = Vec::new();
        if same_text(id, HIERARCHICAL_CATALOG_ASSETS) {
            push_item(&mut r, source("source.assets.catalog", "Asset Catalog", "media", Some(key(name)), true, true, true));
            push_item(&mut r, source("source.hierarchy.catalog", "Hierarchical Catalog", "media", Some(key(name)), true, true, false));
        } else if same_text(id, EMPTY_TARGETED_RECEIVER) {
            push_item(&mut r, source("source.lookup.catalog", "Lookup Catalog", "media", Some(key(name)), true, true, false));
            push_item(&mut r, source("source.reference.catalog", "Reference Catalog", "media", Some(key(name)), true, true, false));
            push_item(&mut r, source("source.receiver.empty", "Empty Receiver", "media", Some(key(name)), true, true, false));
        } else if same_text(id, EDITION_HIERARCHY) {
            push_item(&mut r, source("source.editions.catalog", "Edition Catalog", "media", Some(key(name)), false, true, false));
        } else if same_text(id, FLAT_CATALOG_REVISIONS) {
            push_item(&mut r, source("source.flat.catalog", "Flat Catalog", "media", Some(key(name)), true, true, false));
        } else if same_text(id, ADVERSARIAL) {
            push_item(&mut r, source("source.adversarial.catalog", "Adversarial Catalog", "mixed", Some(key(name)), true, true, true));
            push_item(&mut r, source("source.adversarial.state", "Adversarial State", "mixed", Some(key(name)), true, true, false));
            push_item(&mut r, source("source.adversarial.lookup", "Adversarial Lookup", "mixed", Some(key(name)), true, false, false));
            push_item(
                &mut r,
                source("source.adversarial.lookup-unsupported", "Unsupported Lookup", "mixed", Some(key(name)), false, false, false),
            );
        } else {
            let source_name = join3("source.", self.settings.instance.as_str(), ".catalog");
            push_item(
                &mut r,
                source(source_name.as_str(), source_name.as_str(), "media", Some(key(name)), true, true, true),
            );
        }
        assert(r.deep_view() =~= sources_of(self@.settings));
        r
    }
}

// ---------------------------------------------------------------------------
// Items, relations, bindings and observations
// ---------------------------------------------------------------------------

/// The texts of string slices.
pub open spec fn texts_of(values: Seq<&str>) -> Seq<Seq<char>> {
    values.map_values(|v: &str| v@)
}

/// A provider item with its references.
pub open spec fn item_of(id: Seq<char>, kind: Seq<char>, display_name: Seq<char>, references: Seq<Seq<char>>) -> ProviderItemView {
    ProviderItemView {
        key: Some(fkey(id)),
        kind: Some(fterm(kind)),
        display_name,
        attributes: seq![],
        portable_reference_candidates: Seq::new(references.len(), |i: int| freference(references[i])),
        assets: seq![],
        recommended_mapping_roots: seq![],
    }
}

/// A provider item with a text attribute.
pub open spec fn item_with_attribute_of(
    id: Seq<char>,
    kind: Seq<char>,
    display_name: Seq<char>,
    references: Seq<Seq<char>>,
    attribute: Seq<char>,
    text: Seq<char>,
) -> ProviderItemView {
    ProviderItemView {
        attributes: seq![
            AttributeView { term: Some(fterm(attribute)), value: Some(ValueView { value: Some(ValueKindView::Text(text)) }) },
        ],
        ..item_of(id, kind, display_name, references)
    }
}

/// A provider item with a poster.
pub open spec fn item_with_asset_of(
    id: Seq<char>,
    kind: Seq<char>,
    display_name: Seq<char>,
    references: Seq<Seq<char>>,
    asset_key: Seq<char>,
) -> ProviderItemView {
    ProviderItemView {
        assets: seq![BinaryAssetReferenceView { key: Some(fkey(asset_key)), kind: Some(fterm("poster"@)) }],
        ..item_of(id, kind, display_name, references)
    }
}

/// A provider item with its references.
pub fn item(id: &str, kind: &str, display_name: &str, references: &[&str]) -> (r: ProviderItem)
    ensures
        r@ == item_of(id@, kind@, display_name@, texts_of(references@)),
{
    let ghost wanted = texts_of(references@);
    let mut candidates: Vec<PortableReference> = Vec::new();
    let mut i: usize = 0;
    while i < references.len()
        invariant
            i <= references.len(),
            wanted == texts_of(references@),
            candidates.deep_view() =~= Seq::new(i as nat, |k: int| freference(wanted[k])),
        decreases references.len() - i,
    {
        push_item(&mut candidates, reference(references[i]));
        i = i + 1;
    }
    let r = ProviderItem {
        key: Some(key(id)),
        kind: Some(term(kind)),
        display_name: owned(display_name),
        attributes: Vec::new(),
        portable_reference_candidates: candidates,
        assets: Vec::new(),
        recommended_mapping_roots: Vec::new(),
    };
    assert(r@.attributes =~= seq![]);
    assert(r@.assets =~= seq![]);
    assert(r@.recommended_mapping_roots =~= seq![]);
    r
}

/// A provider item with a text attribute.
pub fn item_with_attribute(
    id: &str,
    kind: &str,
    display_name: &str,
    references: &[&str],
    attribute: &str,
    text: &str,
) -> (r: ProviderItem)
    ensures
        r@ == item_with_attribute_of(id@, kind@, display_name@, texts_of(references@), attribute@, text@),
{
    let mut value = item(id, kind, display_name, references);
    push_item(
        &mut value.attributes,
        Attribute { term: Some(term(attribute)), value: Some(Value { value: Some(ValueKind::Text(owned(text))) }) },
    );
    assert(value@.attributes =~= item_with_attribute_of(id@, kind@, display_name@, texts_of(references@), attribute@, text@).attributes);
    value
}

/// A provider item with a poster.
pub fn item_with_asset(id: &str, kind: &str, display_name: &str, references: &[&str], asset_key: &str) -> (r: ProviderItem)
    ensures
        r@ == item_with_asset_of(id@, kind@, display_name@, texts_of(references@), asset_key@),
{
    let mut value = item(id, kind, display_name, references);
    push_item(&mut value.assets, BinaryAssetReference { key: Some(key(asset_key)), kind: Some(term("poster")) });
    assert(value@.assets =~= item_with_asset_of(id@, kind@, display_name@, texts_of(references@), asset_key@).assets);
    value
}

/// An optional fixture key.
pub open spec fn optional_fkey(value: Option<Seq<char>>) -> Option<KeyView> {
    match value {
        Some(v) => Some(fkey(v)),
        None => None,
    }
}

/// A catalog relation that contains an item, or groups others, at an order.
pub open spec fn relation_of(id: Seq<char>, parent: Option<Seq<char>>, provider_item: Option<Seq<char>>, order: i64) -> CatalogRelationView {
    CatalogRelationView {
        key: Some(fkey(id)),
        parent_key: optional_fkey(parent),
        provider_item_key: optional_fkey(provider_item),
        kind: Some(fterm("contains"@)),
        order: seq![order],
        attributes: seq![],
    }
}

fn optional_key(value: Option<&str>) -> (r: Option<Key>)
    ensures
        r.deep_view() == optional_fkey(value.deep_view()),
{
    match value {
        Some(v) => Some(key(v)),
        None => None,
    }
}

/// A catalog relation.
pub fn relation(id: &str, parent: Option<&str>, provider_item: Option<&str>, order: i64) -> (r: CatalogRelation)
    ensures
        r@ == relation_of(id@, parent.deep_view(), provider_item.deep_view(), order),
{
    let mut orders: Vec<i64> = Vec::new();
    orders.push(order);
    let r = CatalogRelation {
        key: Some(key(id)),
        parent_key: optional_key(parent),
        provider_item_key: optional_key(provider_item),
        kind: Some(term("contains")),
        order: orders,
        attributes: Vec::new(),
    };
    assert(r@.order =~= seq![order]);
    assert(r@.attributes =~= seq![]);
    r
}

/// A binding of a portable endpoint to a subject.
pub open spec fn binding_of(reference_value: Seq<char>, selector: Seq<char>, subject: SubjectView, backing: CoordinateBacking) -> CoordinateBindingView {
    CoordinateBindingView {
        endpoint: Some(PortableEndpointView { reference: Some(freference(reference_value)), selector }),
        subject: Some(SubjectReferenceView { subject: Some(subject) }),
        backing,
        evidence_revision: encode_utf8("fixtures.coordinates/v1"@),
    }
}

/// A binding of a portable endpoint to a subject.
pub fn coordinate_binding(reference_value: &str, selector: &str, subject: Subject, backing: CoordinateBacking) -> (r: CoordinateBinding)
    ensures
        r@ == binding_of(reference_value@, selector@, subject@, backing),
{
    CoordinateBinding {
        endpoint: Some(PortableEndpoint { reference: Some(reference(reference_value)), selector: owned(selector) }),
        subject: Some(SubjectReference { subject: Some(subject) }),
        backing,
        evidence_revision: utf8_bytes("fixtures.coordinates/v1"),
    }
}

/// An observation of a field of an item, before it is stamped with its
/// stream's revision.
pub open spec fn state_of(item: Seq<char>, field: Seq<char>, unit: Seq<char>, observation: ObservationView) -> StateObservationView {
    StateObservationView {
        subject: Some(item_subject_of(item)),
        field: Some(StateFieldView { field: Some(fterm(field)), unit: Some(fterm(unit)) }),
        observation: Some(observation),
        provider_revision: encode_utf8("fixture-state-v1"@),
        observed_time_milliseconds: LOGICAL_TIME_MILLISECONDS,
    }
}

/// An integer observation.
pub open spec fn state_integer_of(item: Seq<char>, field: Seq<char>, unit: Seq<char>, integer: i64) -> StateObservationView {
    state_of(item, field, unit, ObservationView::Value(ValueView { value: Some(ValueKindView::Integer(integer)) }))
}

/// A flag observation.
pub open spec fn state_boolean_of(item: Seq<char>, field: Seq<char>, boolean: bool) -> StateObservationView {
    state_of(item, field, "flag"@, ObservationView::Value(ValueView { value: Some(ValueKindView::Boolean(boolean)) }))
}

/// The deletion of a field.
pub open spec fn state_deletion_of(item: Seq<char>, field: Seq<char>, unit: Seq<char>) -> StateObservationView {
    state_of(item, field, unit, ObservationView::Deletion(StateDeletionView {  }))
}

fn state(item: &str, field: &str, unit: &str, observation: Observation) -> (r: StateObservation)
    ensures
        r@ == state_of(item@, field@, unit@, observation@),
{
    StateObservation {
        subject: Some(provider_item_subject(item)),
        field: Some(StateField { field: Some(term(field)), unit: Some(term(unit)) }),
        observation: Some(observation),
        provider_revision: utf8_bytes("fixture-state-v1"),
        observed_time_milliseconds: LOGICAL_TIME_MILLISECONDS,
    }
}

/// An integer observation.
pub fn state_integer(item: &str, field: &str, unit: &str, integer: i64) -> (r: StateObservation)
    ensures
        r@ == state_integer_of(item@, field@, unit@, integer),
{
    state(item, field, unit, Observation::Value(Value { value: Some(ValueKind::Integer(integer)) }))
}

/// A flag observation.
pub fn state_boolean(item: &str, field: &str, boolean: bool) -> (r: StateObservation)
    ensures
        r@ == state_boolean_of(item@, field@, boolean),
{
    state(item, field, "flag", Observation::Value(Value { value: Some(ValueKind::Boolean(boolean)) }))
}

/// The deletion of a field.
pub fn state_deletion(item: &str, field: &str, unit: &str) -> (r: StateObservation)
    ensures
        r@ == state_deletion_of(item@, field@, unit@),
{
    state(item, field, unit, Observation::Deletion(StateDeletion {  }))
}

// ---------------------------------------------------------------------------
// Catalog items
// ---------------------------------------------------------------------------

/// Whether the scenario plays its second revision.
pub open spec fn second_revision(settings: FixtureSettingsView) -> bool {
    settings.revision == "v2"@
}

/// The items of an isolated connection's source.
pub open spec fn isolated_items_of(instance: Seq<char>, revision_two: bool) -> Seq<ProviderItemView> {
    seq![
        item_with_asset_of(
            "media."@ + instance + ".root"@,
            "media"@,
            "Root "@ + instance,
            seq!["media/"@ + instance + "/root"@],
            "asset."@ + instance + ".poster"@,
        ),
        item_of("media."@ + instance + ".group"@, "group"@, "Group"@, seq!["media/"@ + instance + "/group"@]),
        item_of("media."@ + instance + ".item.1"@, "media"@, "Item 1"@, seq!["media/"@ + instance + "/item/1"@]),
        if revision_two {
            item_of("media."@ + instance + ".item.3"@, "media"@, "Item 3"@, seq!["media/"@ + instance + "/item/3"@])
        } else {
            item_of("media."@ + instance + ".item.2"@, "media"@, "Item 2"@, seq!["media/"@ + instance + "/item/2"@])
        },
    ]
}

/// The items of the hierarchical scenario's sources: the hierarchy of the
/// revision, or the one item with a poster.
pub open spec fn hierarchical_items_of(source: Seq<char>, v2: bool) -> Seq<ProviderItemView> {
    if source == "source.hierarchy.catalog"@ {
        seq![
            item_of("media.hierarchy.root"@, "media"@, "Hierarchy Root"@, seq!["media/hierarchy/root"@]),
            item_of("media.hierarchy.group.1"@, "group"@, "Group 1"@, seq!["media/hierarchy/group/1"@]),
            item_of(
                "media.hierarchy.item.1"@,
                "media"@,
                if v2 {
                    "Arrival Revised"@
                } else {
                    "Arrival"@
                },
                seq!["media/hierarchy/item/1"@],
            ),
            item_of("media.hierarchy.special"@, "media"@, "Special"@, seq!["media/hierarchy/special"@]),
            if v2 {
                item_of("media.hierarchy.item.3"@, "media"@, "Signal"@, seq!["media/hierarchy/item/3"@])
            } else {
                item_of("media.hierarchy.item.2"@, "media"@, "Drift"@, seq!["media/hierarchy/item/2"@])
            },
        ]
    } else {
        seq![
            item_with_asset_of(
                "media.asset.primary"@,
                "media"@,
                "Asset Item"@,
                seq!["media/asset/primary"@],
                "asset.poster.valid"@,
            ),
        ]
    }
}

/// The items of the empty receiver's sources: none in the receiver, the two
/// linked parts in the lookup source, one reference item otherwise.
pub open spec fn receiver_items_of(source: Seq<char>) -> Seq<ProviderItemView> {
    if source == "source.receiver.empty"@ {
        seq![]
    } else if source == "source.lookup.catalog"@ {
        seq![
            item_of("media.linked.part1"@, "media"@, "Linked Part 1"@, seq!["media/linked/part1"@, "media/linked"@]),
            item_of("media.linked.part2"@, "media"@, "Linked Part 2"@, seq!["media/linked/part2"@, "media/linked"@]),
        ]
    } else {
        seq![item_of("media.reference.item"@, "media"@, "Reference Item"@, seq!["media/reference/item"@])]
    }
}

/// The items of the edition hierarchy: a work, its editions, volumes and
/// chapters, and an alternate edition in the second revision.
pub open spec fn edition_items_of(v2: bool) -> Seq<ProviderItemView> {
    let base = seq![
        item_of("work.winter-archive"@, "work"@, "Winter Archive"@, seq![]),
        item_of("edition.winter.us"@, "edition"@, "Winter Archive US"@, seq!["isbn/9780000000001"@]),
        item_of("edition.winter.uk"@, "edition"@, "Winter Archive UK"@, seq!["isbn/9780000000002"@]),
        item_of("volume.winter.us.v1"@, "volume"@, "Volume 1"@, seq![]),
        item_of("volume.winter.us.v2"@, "volume"@, "Volume 2"@, seq![]),
        item_of("chapter.winter.us.v1.c1"@, "chapter"@, "Chapter 1"@, seq![]),
        item_of("chapter.winter.us.v1.c2"@, "chapter"@, "Chapter 2"@, seq![]),
    ];
    if v2 {
        base.push(item_of("edition.winter.alt"@, "edition"@, "Winter Archive Alternate"@, seq!["isbn/9780000000003"@]))
    } else {
        base
    }
}

/// The items of the flat catalog: two items sharing a title, with release
/// dates, and a third in the second revision.
pub open spec fn flat_items_of(v2: bool) -> Seq<ProviderItemView> {
    let base = seq![
        item_with_attribute_of(
            "media.flat.original"@,
            "media"@,
            "Shared Title"@,
            seq!["media/flat/original"@],
            "release_date"@,
            if v2 {
                "2029-01-16"@
            } else {
                "2029-01-15"@
            },
        ),
        item_with_attribute_of(
            "media.flat.alternate"@,
            "media"@,
            "Shared Title"@,
            seq!["media/flat/alternate"@],
            "release_date"@,
            "2029-03-01"@,
        ),
    ];
    if v2 {
        base.push(
            item_with_attribute_of(
                "media.flat.revision"@,
                "media"@,
                "Shared Title"@,
                seq!["media/flat/revision"@],
                "release_date"@,
                "2030-02-02"@,
            ),
        )
    } else {
        base
    }
}

/// The adversarial items: two sharing a reference, one without any.
pub open spec fn adversarial_items_of() -> Seq<ProviderItemView> {
    seq![
        item_with_asset_of(
            "adversarial.item.left"@,
            "media"@,
            "Duplicate Left"@,
            seq!["duplicate"@],
            "asset.adversarial.poster"@,
        ),
        item_of("adversarial.item.right"@, "media"@, "Duplicate Right"@, seq!["duplicate"@]),
        item_of("adversarial.item.missing"@, "media"@, "No Reference"@, seq![]),
    ]
}

/// The items that a full catalog read of a source publishes.
#[verifier::opaque]
pub open spec fn full_items_of(settings: FixtureSettingsView, source: Seq<char>) -> Seq<ProviderItemView> {
    let id = settings.scenario_id;
    let v2 = second_revision(settings);
    if id == HIERARCHICAL_CATALOG_ASSETS@ {
        hierarchical_items_of(source, v2)
    } else if id == EMPTY_TARGETED_RECEIVER@ {
        receiver_items_of(source)
    } else if id == EDITION_HIERARCHY@ {
        edition_items_of(v2)
    } else if id == FLAT_CATALOG_REVISIONS@ {
        flat_items_of(v2)
    } else if id == ADVERSARIAL@ {
        adversarial_items_of()
    } else if id == DUAL_CONNECTION_ISOLATION@ {
        isolated_items_of(settings.instance, v2)
    } else {
        seq![]
    }
}

/// A provider item without references.
fn item0(id: &str, kind: &str, display_name: &str) -> (r: ProviderItem)
    ensures
        r@ == item_of(id@, kind@, display_name@, seq![]),
{
    let references: [&str; 0] = [];
    assert(texts_of(references@) =~= seq![]);
    item(id, kind, display_name, &references)
}

/// A provider item with one reference.
fn item1(id: &str, kind: &str, display_name: &str, first: &str) -> (r: ProviderItem)
    ensures
        r@ == item_of(id@, kind@, display_name@, seq![first@]),
{
    let references = [first];
    assert(texts_of(references@) =~= seq![first@]);
    item(id, kind, display_name, &references)
}

/// A provider item with two references.
fn item2(id: &str, kind: &str, display_name: &str, first: &str, second: &str) -> (r: ProviderItem)
    ensures
        r@ == item_of(id@, kind@, display_name@, seq![first@, second@]),
{
    let references = [first, second];
    assert(texts_of(references@) =~= seq![first@, second@]);
    item(id, kind, display_name, &references)
}

/// A provider item with one reference and a poster.
fn item1_with_asset(id: &str, kind: &str, display_name: &str, first: &str, asset_key: &str) -> (r: ProviderItem)
    ensures
        r@ == item_with_asset_of(id@, kind@, display_name@, seq![first@], asset_key@),
{
    let references = [first];
    assert(texts_of(references@) =~= seq![first@]);
    item_with_asset(id, kind, display_name, &references, asset_key)
}

/// A provider item with one reference and a text attribute.
fn item1_with_attribute(id: &str, kind: &str, display_name: &str, first: &str, attribute: &str, text: &str) -> (r: ProviderItem)
    ensures
        r@ == item_with_attribute_of(id@, kind@, display_name@, seq![first@], attribute@, text@),
{
    let references = [first];
    assert(texts_of(references@) =~= seq![first@]);
    item_with_attribute(id, kind, display_name, &references, attribute, text)
}

fn isolated_items(instance: &str, revision_two: bool) -> (r: Vec<ProviderItem>)
    ensures
        r.deep_view() == isolated_items_of(instance@, revision_two),
{
    let mut values: Vec<ProviderItem> = Vec::new();
    let root = join3("media.", instance, ".root");
    let root_name = join2("Root ", instance);
    let root_reference = join3("media/", instance, "/root");
    let poster = join3("asset.", instance, ".poster");
    push_item(&mut values, item1_with_asset(root.as_str(), "media", root_name.as_str(), root_reference.as_str(), poster.as_str()));
    let group = join3("media.", instance, ".group");
    let group_reference = join3("media/", instance, "/group");
    push_item(&mut values, item1(group.as_str(), "group", "Group", group_reference.as_str()));
    let first = join3("media.", instance, ".item.1");
    let first_reference = join3("media/", instance, "/item/1");
    push_item(&mut values, item1(first.as_str(), "media", "Item 1", first_reference.as_str()));
    if revision_two {
        let third = join3("media.", instance, ".item.3");
        let third_reference = join3("media/", instance, "/item/3");
        push_item(&mut values, item1(third.as_str(), "media", "Item 3", third_reference.as_str()));
    } else {
        let second = join3("media.", instance, ".item.2");
        let second_reference = join3("media/", instance, "/item/2");
        push_item(&mut values, item1(second.as_str(), "media", "Item 2", second_reference.as_str()));
    }
    assert(values.deep_view() =~= isolated_items_of(instance@, revision_two));
    values
}

/// A full catalog read publishes at most eight items.
proof fn lemma_full_items_few(settings: FixtureSettingsView, source: Seq<char>)
    ensures
        full_items_of(settings, source).len() <= 8,
{
    reveal(full_items_of);
}

fn hierarchical_items(source: &str, v2: bool) -> (r: Vec<ProviderItem>)
    ensures
        r.deep_view() == hierarchical_items_of(source@, v2),
{
    let mut values: Vec<ProviderItem> = Vec::new();
    if same_text(source, "source.hierarchy.catalog") {
        push_item(&mut values, item1("media.hierarchy.root", "media", "Hierarchy Root", "media/hierarchy/root"));
        push_item(&mut values, item1("media.hierarchy.group.1", "group", "Group 1", "media/hierarchy/group/1"));
        push_item(
            &mut values,
            item1(
                "media.hierarchy.item.1",
                "media",
                if v2 {
                    "Arrival Revised"
                } else {
                    "Arrival"
                },
                "media/hierarchy/item/1",
            ),
        );
        push_item(&mut values, item1("media.hierarchy.special", "media", "Special", "media/hierarchy/special"));
        if v2 {
            push_item(&mut values, item1("media.hierarchy.item.3", "media", "Signal", "media/hierarchy/item/3"));
        } else {
            push_item(&mut values, item1("media.hierarchy.item.2", "media", "Drift", "media/hierarchy/item/2"));
        }
    } else {
        push_item(
            &mut values,
            item1_with_asset("media.asset.primary", "media", "Asset Item", "media/asset/primary", "asset.poster.valid"),
        );
    }
    assert(values.deep_view() =~= hierarchical_items_of(source@, v2));
    values
}

fn receiver_items(source: &str) -> (r: Vec<ProviderItem>)
    ensures
        r.deep_view() == receiver_items_of(source@),
{
    let mut values: Vec<ProviderItem> = Vec::new();
    if same_text(source, "source.receiver.empty") {
    } else if same_text(source, "source.lookup.catalog") {
        push_item(&mut values, item2("media.linked.part1", "media", "Linked Part 1", "media/linked/part1", "media/linked"));
        push_item(&mut values, item2("media.linked.part2", "media", "Linked Part 2", "media/linked/part2", "media/linked"));
    } else {
        push_item(&mut values, item1("media.reference.item", "media", "Reference Item", "media/reference/item"));
    }
    assert(values.deep_view() =~= receiver_items_of(source@));
    values
}

fn edition_items(v2: bool) -> (r: Vec<ProviderItem>)
    ensures
        r.deep_view() == edition_items_of(v2),
{
    let mut values: Vec<ProviderItem> = Vec::new();
    push_item(&mut values, item0("work.winter-archive", "work", "Winter Archive"));
    push_item(&mut values, item1("edition.winter.us", "edition", "Winter Archive US", "isbn/9780000000001"));
    push_item(&mut values, item1("edition.winter.uk", "edition", "Winter Archive UK", "isbn/9780000000002"));
    push_item(&mut values, item0("volume.winter.us.v1", "volume", "Volume 1"));
    push_item(&mut values, item0("volume.winter.us.v2", "volume", "Volume 2"));
    push_item(&mut values, item0("chapter.winter.us.v1.c1", "chapter", "Chapter 1"));
    push_item(&mut values, item0("chapter.winter.us.v1.c2", "chapter", "Chapter 2"));
    if v2 {
        push_item(&mut values, item1("edition.winter.alt", "edition", "Winter Archive Alternate", "isbn/9780000000003"));
    }
    assert(values.deep_view() =~= edition_items_of(v2));
    values
}

fn flat_items(v2: bool) -> (r: Vec<ProviderItem>)
    ensures
        r.deep_view() == flat_items_of(v2),
{
    let mut values: Vec<ProviderItem> = Vec::new();
    push_item(
        &mut values,
        item1_with_attribute(
            "media.flat.original",
            "media",
            "Shared Title",
            "media/flat/original",
            "release_date",
            if v2 {
                "2029-01-16"
            } else {
                "2029-01-15"
            },
        ),
    );
    push_item(
        &mut values,
        item1_with_attribute("media.flat.alternate", "media", "Shared Title", "media/flat/alternate", "release_date", "2029-03-01"),
    );
    if v2 {
        push_item(
            &mut values,
            item1_with_attribute("media.flat.revision", "media", "Shared Title", "media/flat/revision", "release_date", "2030-02-02"),
        );
    }
    assert(values.deep_view() =~= flat_items_of(v2));
    values
}

fn adversarial_items() -> (r: Vec<ProviderItem>)
    ensures
        r.deep_view() == adversarial_items_of(),
{
    let mut values: Vec<ProviderItem> = Vec::new();
    push_item(
        &mut values,
        item1_with_asset("adversarial.item.left", "media", "Duplicate Left", "duplicate", "asset.adversarial.poster"),
    );
    push_item(&mut values, item1("adversarial.item.right", "media", "Duplicate Right", "duplicate"));
    push_item(&mut values, item0("adversarial.item.missing", "media", "No Reference"));
    assert(values.deep_view() =~= adversarial_items_of());
    values
}

fn full_items(settings: &FixtureSettings, source: &str) -> (r: Vec<ProviderItem>)
    ensures
        r.deep_view() == full_items_of(settings@, source@),
        r.len() <= 8,
{
    reveal(full_items_of);
    proof {
        lemma_full_items_few(settings@, source@);
    }
    let id = settings.scenario_id.as_str();
    let v2 = same_text(settings.revision.as_str(), "v2");
    if same_text(id, HIERARCHICAL_CATALOG_ASSETS) {
        hierarchical_items(source, v2)
    } else if same_text(id, EMPTY_TARGETED_RECEIVER) {
        receiver_items(source)
    } else if same_text(id, EDITION_HIERARCHY) {
        edition_items(v2)
    } else if same_text(id, FLAT_CATALOG_REVISIONS) {
        flat_items(v2)
    } else if same_text(id, ADVERSARIAL) {
        adversarial_items()
    } else if same_text(id, DUAL_CONNECTION_ISOLATION) {
        isolated_items(settings.instance.as_str(), v2)
    } else {
        Vec::new()
    }
}

// ---------------------------------------------------------------------------
// Catalog relations and bindings
// ---------------------------------------------------------------------------

/// The relations of the hierarchy source: a root, a group under it and the
/// items of the revision under the group; the special item sits at the root
/// in the first revision and moves under the group in the second.
pub open spec fn hierarchical_relations_of(revision_two: bool) -> Seq<CatalogRelationView> {
    let base = seq![
        relation_of("relation.media.hierarchy.root"@, None, Some("media.hierarchy.root"@), 10),
        relation_of(
            "relation.media.hierarchy.group.1"@,
            Some("relation.media.hierarchy.root"@),
            Some("media.hierarchy.group.1"@),
            10,
        ),
        relation_of(
            "relation.media.hierarchy.item.1"@,
            Some("relation.media.hierarchy.group.1"@),
            Some("media.hierarchy.item.1"@),
            10,
        ),
    ];
    if revision_two {
        base + seq![
            relation_of(
                "relation.media.hierarchy.item.3"@,
                Some("relation.media.hierarchy.group.1"@),
                Some("media.hierarchy.item.3"@),
                40,
            ),
            relation_of(
                "relation.media.hierarchy.special.moved"@,
                Some("relation.media.hierarchy.group.1"@),
                Some("media.hierarchy.special"@),
                30,
            ),
        ]
    } else {
        base + seq![
            relation_of(
                "relation.media.hierarchy.item.2"@,
                Some("relation.media.hierarchy.group.1"@),
                Some("media.hierarchy.item.2"@),
                20,
            ),
            relation_of("relation.media.hierarchy.special.root"@, None, Some("media.hierarchy.special"@), 20),
        ]
    }
}

/// The relations of the edition hierarchy: a work, its editions, the US
/// edition's volumes and the first volume's chapters.
pub open spec fn edition_relations_of(revision_two: bool) -> Seq<CatalogRelationView> {
    let base = seq![
        relation_of("relation.work.winter"@, None, Some("work.winter-archive"@), 10),
        relation_of("relation.edition.winter.us"@, Some("relation.work.winter"@), Some("edition.winter.us"@), 10),
        relation_of("relation.edition.winter.uk"@, Some("relation.work.winter"@), Some("edition.winter.uk"@), 30),
        relation_of("relation.volume.winter.us.v1"@, Some("relation.edition.winter.us"@), Some("volume.winter.us.v1"@), 10),
        relation_of("relation.volume.winter.us.v2"@, Some("relation.edition.winter.us"@), Some("volume.winter.us.v2"@), 30),
        relation_of(
            "relation.chapter.winter.us.v1.c1"@,
            Some("relation.volume.winter.us.v1"@),
            Some("chapter.winter.us.v1.c1"@),
            10,
        ),
        relation_of(
            "relation.chapter.winter.us.v1.c2"@,
            Some("relation.volume.winter.us.v1"@),
            Some("chapter.winter.us.v1.c2"@),
            30,
        ),
    ];
    if revision_two {
        base.push(relation_of("relation.edition.winter.alt"@, Some("relation.work.winter"@), Some("edition.winter.alt"@), 50))
    } else {
        base
    }
}

/// The adversarial relations of a revision: an empty group, in the second
/// revision a nested empty group, and the left, right and unparented items
/// with their order swapped between revisions.
pub open spec fn adversarial_relations_of(revision_two: bool) -> Seq<CatalogRelationView> {
    if revision_two {
        seq![
            relation_of("relation.adversarial.group.v2"@, None, None, 10),
            relation_of("relation.adversarial.nested.v2"@, Some("relation.adversarial.group.v2"@), None, 20),
            relation_of(
                "relation.adversarial.left.v2"@,
                Some("relation.adversarial.nested.v2"@),
                Some("adversarial.item.left"@),
                30,
            ),
            relation_of(
                "relation.adversarial.right.v2"@,
                Some("relation.adversarial.group.v2"@),
                Some("adversarial.item.right"@),
                10,
            ),
            relation_of("relation.adversarial.missing.v2"@, None, Some("adversarial.item.missing"@), 50),
        ]
    } else {
        seq![
            relation_of("relation.adversarial.group.v1"@, None, None, 10),
            relation_of(
                "relation.adversarial.left.v1"@,
                Some("relation.adversarial.group.v1"@),
                Some("adversarial.item.left"@),
                10,
            ),
            relation_of(
                "relation.adversarial.right.v1"@,
                Some("relation.adversarial.group.v1"@),
                Some("adversarial.item.right"@),
                30,
            ),
            relation_of("relation.adversarial.missing.v1"@, None, Some("adversarial.item.missing"@), 50),
        ]
    }
}

/// The relations of an isolated connection: root, group, and the items of
/// the revision under the group.
pub open spec fn isolated_relations_of(instance: Seq<char>, revision_two: bool) -> Seq<CatalogRelationView> {
    let root_relation = "relation.media."@ + instance + ".root"@;
    let group_relation = "relation.media."@ + instance + ".group"@;
    let last = if revision_two {
        "3"@
    } else {
        "2"@
    };
    seq![
        relation_of(root_relation, None, Some("media."@ + instance + ".root"@), 10),
        relation_of(group_relation, Some(root_relation), Some("media."@ + instance + ".group"@), 10),
        relation_of(
            "relation.media."@ + instance + ".item.1"@,
            Some(group_relation),
            Some("media."@ + instance + ".item.1"@),
            10,
        ),
        relation_of(
            "relation.media."@ + instance + ".item."@ + last,
            Some(group_relation),
            Some("media."@ + instance + ".item."@ + last),
            30,
        ),
    ]
}

/// The text of an item's key.
pub open spec fn item_id_of(item: ProviderItemView) -> Seq<char> {
    match item.key {
        Some(k) => if valid_utf8(k.value) {
            decode_utf8(k.value)
        } else {
            seq![]
        },
        None => seq![],
    }
}

/// One relation per item, at the root, ordered by position in tens.
pub open spec fn relations_for_of(items: Seq<ProviderItemView>) -> Seq<CatalogRelationView> {
    Seq::new(
        items.len(),
        |i: int| relation_of("relation."@ + item_id_of(items[i]), None, Some(item_id_of(items[i])), ((i + 1) * 10) as i64),
    )
}

/// The relations that a full catalog read of a source publishes.
pub open spec fn full_relations_of(settings: FixtureSettingsView, source: Seq<char>, items: Seq<ProviderItemView>) -> Seq<CatalogRelationView> {
    let id = settings.scenario_id;
    let v2 = second_revision(settings);
    if id == HIERARCHICAL_CATALOG_ASSETS@ && source == "source.hierarchy.catalog"@ {
        hierarchical_relations_of(v2)
    } else if id == EDITION_HIERARCHY@ {
        edition_relations_of(v2)
    } else if id == ADVERSARIAL@ {
        adversarial_relations_of(v2)
    } else if id == DUAL_CONNECTION_ISOLATION@ {
        isolated_relations_of(settings.instance, v2)
    } else {
        relations_for_of(items)
    }
}

/// The endpoint bindings that a full catalog read of a source publishes.
pub open spec fn bindings_of(settings: FixtureSettingsView, source: Seq<char>) -> Seq<CoordinateBindingView> {
    if settings.scenario_id == HIERARCHICAL_CATALOG_ASSETS@ && source == "source.hierarchy.catalog"@ {
        seq![
            binding_of(
                "media/hierarchy/item/1"@,
                "segment:1"@,
                SubjectView::ProviderItemKey(fkey("media.hierarchy.item.1"@)),
                CoordinateBacking::Materialized,
            ),
            binding_of(
                "media/hierarchy/root"@,
                "segment:1"@,
                SubjectView::CatalogRelationKey(fkey("relation.media.hierarchy.group.1"@)),
                CoordinateBacking::Virtual,
            ),
        ]
    } else if settings.scenario_id == EMPTY_TARGETED_RECEIVER@ && source == "source.lookup.catalog"@ {
        seq![
            binding_of(
                "media/linked/part1"@,
                "segment:1..12"@,
                SubjectView::ProviderItemKey(fkey("media.linked.part1"@)),
                CoordinateBacking::Aggregate,
            ),
        ]
    } else {
        seq![]
    }
}

fn hierarchical_relations(revision_two: bool) -> (r: Vec<CatalogRelation>)
    ensures
        r.deep_view() == hierarchical_relations_of(revision_two),
{
    let mut values: Vec<CatalogRelation> = Vec::new();
    push_item(&mut values, relation("relation.media.hierarchy.root", None, Some("media.hierarchy.root"), 10));
    push_item(
        &mut values,
        relation("relation.media.hierarchy.group.1", Some("relation.media.hierarchy.root"), Some("media.hierarchy.group.1"), 10),
    );
    push_item(
        &mut values,
        relation("relation.media.hierarchy.item.1", Some("relation.media.hierarchy.group.1"), Some("media.hierarchy.item.1"), 10),
    );
    if revision_two {
        push_item(
            &mut values,
            relation("relation.media.hierarchy.item.3", Some("relation.media.hierarchy.group.1"), Some("media.hierarchy.item.3"), 40),
        );
        push_item(
            &mut values,
            relation(
                "relation.media.hierarchy.special.moved",
                Some("relation.media.hierarchy.group.1"),
                Some("media.hierarchy.special"),
                30,
            ),
        );
    } else {
        push_item(
            &mut values,
            relation("relation.media.hierarchy.item.2", Some("relation.media.hierarchy.group.1"), Some("media.hierarchy.item.2"), 20),
        );
        push_item(&mut values, relation("relation.media.hierarchy.special.root", None, Some("media.hierarchy.special"), 20));
    }
    assert(values.deep_view() =~= hierarchical_relations_of(revision_two));
    values
}

fn edition_relations(revision_two: bool) -> (r: Vec<CatalogRelation>)
    ensures
        r.deep_view() == edition_relations_of(revision_two),
{
    let mut values: Vec<CatalogRelation> = Vec::new();
    push_item(&mut values, relation("relation.work.winter", None, Some("work.winter-archive"), 10));
    push_item(&mut values, relation("relation.edition.winter.us", Some("relation.work.winter"), Some("edition.winter.us"), 10));
    push_item(&mut values, relation("relation.edition.winter.uk", Some("relation.work.winter"), Some("edition.winter.uk"), 30));
    push_item(
        &mut values,
        relation("relation.volume.winter.us.v1", Some("relation.edition.winter.us"), Some("volume.winter.us.v1"), 10),
    );
    push_item(
        &mut values,
        relation("relation.volume.winter.us.v2", Some("relation.edition.winter.us"), Some("volume.winter.us.v2"), 30),
    );
    push_item(
        &mut values,
        relation("relation.chapter.winter.us.v1.c1", Some("relation.volume.winter.us.v1"), Some("chapter.winter.us.v1.c1"), 10),
    );
    push_item(
        &mut values,
        relation("relation.chapter.winter.us.v1.c2", Some("relation.volume.winter.us.v1"), Some("chapter.winter.us.v1.c2"), 30),
    );
    if revision_two {
        push_item(&mut values, relation("relation.edition.winter.alt", Some("relation.work.winter"), Some("edition.winter.alt"), 50));
    }
    assert(values.deep_view() =~= edition_relations_of(revision_two));
    values
}

fn adversarial_relations(revision_two: bool) -> (r: Vec<CatalogRelation>)
    ensures
        r.deep_view() == adversarial_relations_of(revision_two),
{
    let mut values: Vec<CatalogRelation> = Vec::new();
    if revision_two {
        push_item(&mut values, relation("relation.adversarial.group.v2", None, None, 10));
        push_item(&mut values, relation("relation.adversarial.nested.v2", Some("relation.adversarial.group.v2"), None, 20));
        push_item(
            &mut values,
            relation("relation.adversarial.left.v2", Some("relation.adversarial.nested.v2"), Some("adversarial.item.left"), 30),
        );
        push_item(
            &mut values,
            relation("relation.adversarial.right.v2", Some("relation.adversarial.group.v2"), Some("adversarial.item.right"), 10),
        );
        push_item(&mut values, relation("relation.adversarial.missing.v2", None, Some("adversarial.item.missing"), 50));
    } else {
        push_item(&mut values, relation("relation.adversarial.group.v1", None, None, 10));
        push_item(
            &mut values,
            relation("relation.adversarial.left.v1", Some("relation.adversarial.group.v1"), Some("adversarial.item.left"), 10),
        );
        push_item(
            &mut values,
            relation("relation.adversarial.right.v1", Some("relation.adversarial.group.v1"), Some("adversarial.item.right"), 30),
        );
        push_item(&mut values, relation("relation.adversarial.missing.v1", None, Some("adversarial.item.missing"), 50));
    }
    assert(values.deep_view() =~= adversarial_relations_of(revision_two));
    values
}

fn isolated_relations(instance: &str, revision_two: bool) -> (r: Vec<CatalogRelation>)
    ensures
        r.deep_view() == isolated_relations_of(instance@, revision_two),
{
    let root_relation = join3("relation.media.", instance, ".root");
    let group_relation = join3("relation.media.", instance, ".group");
    let root = join3("media.", instance, ".root");
    let group = join3("media.", instance, ".group");
    let first_relation = join3("relation.media.", instance, ".item.1");
    let first = join3("media.", instance, ".item.1");
    let last = if revision_two {
        "3"
    } else {
        "2"
    };
    let last_relation = join3("relation.media.", instance, ".item.");
    let last_relation = join2(last_relation.as_str(), last);
    let last_item = join3("media.", instance, ".item.");
    let last_item = join2(last_item.as_str(), last);
    let mut values: Vec<CatalogRelation> = Vec::new();
    push_item(&mut values, relation(root_relation.as_str(), None, Some(root.as_str()), 10));
    push_item(&mut values, relation(group_relation.as_str(), Some(root_relation.as_str()), Some(group.as_str()), 10));
    push_item(&mut values, relation(first_relation.as_str(), Some(group_relation.as_str()), Some(first.as_str()), 10));
    push_item(&mut values, relation(last_relation.as_str(), Some(group_relation.as_str()), Some(last_item.as_str()), 30));
    assert(values.deep_view() =~= isolated_relations_of(instance@, revision_two));
    values
}

fn relations_for(items: &Vec<ProviderItem>) -> (r: Vec<CatalogRelation>)
    requires
        items.len() < 1000,
    ensures
        r.deep_view() == relations_for_of(items.deep_view()),
{
    let mut values: Vec<CatalogRelation> = Vec::new();
    let mut i: usize = 0;
    while i < items.len()
        invariant
            i <= items.len(),
            items.len() < 1000,
            values.deep_view() =~= relations_for_of(items.deep_view()).take(i as int),
        decreases items.len() - i,
    {
        assert(items.deep_view()[i as int] == items[i as int]@);
        proof {
            reveal_strlit("");
            assert(""@ =~= Seq::<char>::empty());
        }
        let id = match &items[i].key {
            Some(k) => match text_from_utf8(k.value.as_slice()) {
                Some(t) => t,
                None => "",
            },
            None => "",
        };
        let name = join2("relation.", id);
        let ghost previous = values.deep_view();
        let next = relation(name.as_str(), None, Some(id), (i as i64 + 1) * 10);
        assert(next@ == relations_for_of(items.deep_view())[i as int]);
        push_item(&mut values, next);
        assert(relations_for_of(items.deep_view()).take(i + 1) =~= previous.push(next@));
        i = i + 1;
    }
    assert(relations_for_of(items.deep_view()).take(i as int) =~= relations_for_of(items.deep_view()));
    values
}

fn full_relations(settings: &FixtureSettings, source: &str, items: &Vec<ProviderItem>) -> (r: Vec<CatalogRelation>)
    requires
        items.len() < 1000,
    ensures
        r.deep_view() == full_relations_of(settings@, source@, items.deep_view()),
{
    let id = settings.scenario_id.as_str();
    let v2 = same_text(settings.revision.as_str(), "v2");
    if same_text(id, HIERARCHICAL_CATALOG_ASSETS) && same_text(source, "source.hierarchy.catalog") {
        hierarchical_relations(v2)
    } else if same_text(id, EDITION_HIERARCHY) {
        edition_relations(v2)
    } else if same_text(id, ADVERSARIAL) {
        adversarial_relations(v2)
    } else if same_text(id, DUAL_CONNECTION_ISOLATION) {
        isolated_relations(settings.instance.as_str(), v2)
    } else {
        relations_for(items)
    }
}

fn bindings(settings: &FixtureSettings, source: &str) -> (r: Vec<CoordinateBinding>)
    ensures
        r.deep_view() == bindings_of(settings@, source@),
{
    let id = settings.scenario_id.as_str();
    let mut values: Vec<CoordinateBinding> = Vec::new();
    if same_text(id, HIERARCHICAL_CATALOG_ASSETS) && same_text(source, "source.hierarchy.catalog") {
        push_item(
            &mut values,
            coordinate_binding(
                "media/hierarchy/item/1",
                "segment:1",
                Subject::ProviderItemKey(key("media.hierarchy.item.1")),
                CoordinateBacking::Materialized,
            ),
        );
        push_item(
            &mut values,
            coordinate_binding(
                "media/hierarchy/root",
                "segment:1",
                Subject::CatalogRelationKey(key("relation.media.hierarchy.group.1")),
                CoordinateBacking::Virtual,
            ),
        );
    } else if same_text(id, EMPTY_TARGETED_RECEIVER) && same_text(source, "source.lookup.catalog") {
        push_item(
            &mut values,
            coordinate_binding(
                "media/linked/part1",
                "segment:1..12",
                Subject::ProviderItemKey(key("media.linked.part1")),
                CoordinateBacking::Aggregate,
            ),
        );
    }
    assert(values.deep_view() =~= bindings_of(settings@, source@));
    values
}

// ---------------------------------------------------------------------------
// Catalog and state batches
// ---------------------------------------------------------------------------

/// The batch of a full catalog read of a source.
#[verifier::opaque]
pub open spec fn full_catalog_of(settings: FixtureSettingsView, source: Seq<char>) -> CatalogBatchView {
    let items = full_items_of(settings, source);
    CatalogBatchView {
        sequence: 0,
        item_upserts: items,
        item_deletes: seq![],
        relation_upserts: full_relations_of(settings, source, items),
        relation_deletes: seq![],
        coordinate_binding_upserts: bindings_of(settings, source),
    }
}

/// An empty batch.
pub open spec fn empty_batch() -> CatalogBatchView {
    CatalogBatchView {
        sequence: 0,
        item_upserts: seq![],
        item_deletes: seq![],
        relation_upserts: seq![],
        relation_deletes: seq![],
        coordinate_binding_upserts: seq![],
    }
}

/// The batch of an incremental catalog read from the first revision to the
/// second: what changed, added and removed.
#[verifier::opaque]
pub open spec fn incremental_catalog_of(settings: FixtureSettingsView, source: Seq<char>) -> CatalogBatchView {
    let id = settings.scenario_id;
    if id == HIERARCHICAL_CATALOG_ASSETS@ && source == "source.hierarchy.catalog"@ {
        hierarchical_increment_of()
    } else if id == FLAT_CATALOG_REVISIONS@ {
        flat_increment_of()
    } else if id == ADVERSARIAL@ {
        adversarial_increment_of()
    } else if id == DUAL_CONNECTION_ISOLATION@ {
        isolated_increment_of(settings.instance)
    } else {
        empty_batch()
    }
}

/// The increment of the hierarchy source: the revised and added items, the
/// removed one, the moved and added relations and the removed ones.
pub open spec fn hierarchical_increment_of() -> CatalogBatchView {
    CatalogBatchView {
        item_upserts: seq![
            item_of("media.hierarchy.item.1"@, "media"@, "Arrival Revised"@, seq!["media/hierarchy/item/1"@]),
            item_of("media.hierarchy.item.3"@, "media"@, "Signal"@, seq!["media/hierarchy/item/3"@]),
        ],
        item_deletes: seq![fkey("media.hierarchy.item.2"@)],
        relation_upserts: seq![
            relation_of(
                "relation.media.hierarchy.special.moved"@,
                Some("relation.media.hierarchy.group.1"@),
                Some("media.hierarchy.special"@),
                30,
            ),
            relation_of(
                "relation.media.hierarchy.item.3"@,
                Some("relation.media.hierarchy.group.1"@),
                Some("media.hierarchy.item.3"@),
                40,
            ),
        ],
        relation_deletes: seq![fkey("relation.media.hierarchy.special.root"@), fkey("relation.media.hierarchy.item.2"@)],
        ..empty_batch()
    }
}

fn full_catalog(settings: &FixtureSettings, source: &str) -> (r: CatalogBatch)
    ensures
        r@ == full_catalog_of(settings@, source@),
{
    reveal(full_catalog_of);
    let items = full_items(settings, source);
    let relation_upserts = full_relations(settings, source, &items);
    let batch = CatalogBatch {
        sequence: 0,
        item_upserts: items,
        item_deletes: Vec::new(),
        relation_upserts,
        relation_deletes: Vec::new(),
        coordinate_binding_upserts: bindings(settings, source),
    };
    assert(batch@.item_deletes =~= seq![]);
    assert(batch@.relation_deletes =~= seq![]);
    batch
}

fn empty_catalog_batch() -> (r: CatalogBatch)
    ensures
        r@ == empty_batch(),
{
    let r = CatalogBatch {
        sequence: 0,
        item_upserts: Vec::new(),
        item_deletes: Vec::new(),
        relation_upserts: Vec::new(),
        relation_deletes: Vec::new(),
        coordinate_binding_upserts: Vec::new(),
    };
    assert(r@.item_upserts =~= seq![]);
    assert(r@.item_deletes =~= seq![]);
    assert(r@.relation_upserts =~= seq![]);
    assert(r@.relation_deletes =~= seq![]);
    assert(r@.coordinate_binding_upserts =~= seq![]);
    r
}

fn hierarchical_increment() -> (r: CatalogBatch)
    ensures
        r@ == hierarchical_increment_of(),
{
    let mut batch = empty_catalog_batch();
    push_item(&mut batch.item_upserts, item1("media.hierarchy.item.1", "media", "Arrival Revised", "media/hierarchy/item/1"));
    push_item(&mut batch.item_upserts, item1("media.hierarchy.item.3", "media", "Signal", "media/hierarchy/item/3"));
    push_item(&mut batch.item_deletes, key("media.hierarchy.item.2"));
    push_item(
        &mut batch.relation_upserts,
        relation(
            "relation.media.hierarchy.special.moved",
            Some("relation.media.hierarchy.group.1"),
            Some("media.hierarchy.special"),
            30,
        ),
    );
    push_item(
        &mut batch.relation_upserts,
        relation("relation.media.hierarchy.item.3", Some("relation.media.hierarchy.group.1"), Some("media.hierarchy.item.3"), 40),
    );
    push_item(&mut batch.relation_deletes, key("relation.media.hierarchy.special.root"));
    push_item(&mut batch.relation_deletes, key("relation.media.hierarchy.item.2"));
    assert(batch@.item_upserts =~= seq![
        item_of("media.hierarchy.item.1"@, "media"@, "Arrival Revised"@, seq!["media/hierarchy/item/1"@]),
        item_of("media.hierarchy.item.3"@, "media"@, "Signal"@, seq!["media/hierarchy/item/3"@]),
    ]);
    assert(batch@.item_deletes =~= seq![fkey("media.hierarchy.item.2"@)]);
    assert(batch@.relation_deletes =~= seq![fkey("relation.media.hierarchy.special.root"@), fkey("relation.media.hierarchy.item.2"@)]);
    assert(batch@.relation_upserts =~= seq![
        relation_of(
            "relation.media.hierarchy.special.moved"@,
            Some("relation.media.hierarchy.group.1"@),
            Some("media.hierarchy.special"@),
            30,
        ),
        relation_of(
            "relation.media.hierarchy.item.3"@,
            Some("relation.media.hierarchy.group.1"@),
            Some("media.hierarchy.item.3"@),
            40,
        ),
    ]);
    batch
}

/// The increment of the flat catalog.
pub open spec fn flat_increment_of() -> CatalogBatchView {
    CatalogBatchView {
        item_upserts: seq![
            item_with_attribute_of(
                "media.flat.original"@,
                "media"@,
                "Shared Title"@,
                seq!["media/flat/original"@],
                "release_date"@,
                "2029-01-16"@,
            ),
            item_with_attribute_of(
                "media.flat.revision"@,
                "media"@,
                "Shared Title"@,
                seq!["media/flat/revision"@],
                "release_date"@,
                "2030-02-02"@,
            ),
        ],
        relation_upserts: seq![relation_of("relation.media.flat.revision"@, None, Some("media.flat.revision"@), 30)],
        ..empty_batch()
    }
}

fn flat_increment() -> (r: CatalogBatch)
    ensures
        r@ == flat_increment_of(),
{
    let mut batch = empty_catalog_batch();
    push_item(
        &mut batch.item_upserts,
        item1_with_attribute("media.flat.original", "media", "Shared Title", "media/flat/original", "release_date", "2029-01-16"),
    );
    push_item(
        &mut batch.item_upserts,
        item1_with_attribute("media.flat.revision", "media", "Shared Title", "media/flat/revision", "release_date", "2030-02-02"),
    );
    push_item(&mut batch.relation_upserts, relation("relation.media.flat.revision", None, Some("media.flat.revision"), 30));
    assert(batch@.item_upserts =~= flat_increment_of().item_upserts);
    assert(batch@.relation_upserts =~= flat_increment_of().relation_upserts);
    batch
}

/// The increment of the adversarial catalog.
pub open spec fn adversarial_increment_of() -> CatalogBatchView {
    CatalogBatchView {
        relation_upserts: adversarial_relations_of(true),
        relation_deletes: seq![
            fkey("relation.adversarial.group.v1"@),
            fkey("relation.adversarial.left.v1"@),
            fkey("relation.adversarial.right.v1"@),
            fkey("relation.adversarial.missing.v1"@),
        ],
        ..empty_batch()
    }
}

fn adversarial_increment() -> (r: CatalogBatch)
    ensures
        r@ == adversarial_increment_of(),
{
    let mut batch = empty_catalog_batch();
    batch.relation_upserts = adversarial_relations(true);
    push_item(&mut batch.relation_deletes, key("relation.adversarial.group.v1"));
    push_item(&mut batch.relation_deletes, key("relation.adversarial.left.v1"));
    push_item(&mut batch.relation_deletes, key("relation.adversarial.right.v1"));
    push_item(&mut batch.relation_deletes, key("relation.adversarial.missing.v1"));
    assert(batch@.relation_deletes =~= adversarial_increment_of().relation_deletes);
    batch
}

/// The increment of an isolated connection's catalog.
pub open spec fn isolated_increment_of(instance: Seq<char>) -> CatalogBatchView {
    CatalogBatchView {
        item_upserts: seq![item_of("media."@ + instance + ".item.3"@, "media"@, "Item 3"@, seq!["media/"@ + instance + "/item/3"@])],
        item_deletes: seq![fkey("media."@ + instance + ".item.2"@)],
        relation_upserts: seq![
            relation_of(
                "relation.media."@ + instance + ".item.3"@,
                Some("relation.media."@ + instance + ".group"@),
                Some("media."@ + instance + ".item.3"@),
                30,
            ),
        ],
        relation_deletes: seq![fkey("relation.media."@ + instance + ".item.2"@)],
        ..empty_batch()
    }
}

fn isolated_increment(instance: &str) -> (r: CatalogBatch)
    ensures
        r@ == isolated_increment_of(instance@),
{
    let mut batch = empty_catalog_batch();
    let third = join3("media.", instance, ".item.3");
    let third_reference = join3("media/", instance, "/item/3");
    push_item(&mut batch.item_upserts, item1(third.as_str(), "media", "Item 3", third_reference.as_str()));
    let second = join3("media.", instance, ".item.2");
    push_item(&mut batch.item_deletes, key(second.as_str()));
    let third_relation = join3("relation.media.", instance, ".item.3");
    let group_relation = join3("relation.media.", instance, ".group");
    push_item(&mut batch.relation_upserts, relation(third_relation.as_str(), Some(group_relation.as_str()), Some(third.as_str()), 30));
    let second_relation = join3("relation.media.", instance, ".item.2");
    push_item(&mut batch.relation_deletes, key(second_relation.as_str()));
    assert(batch@.item_upserts =~= isolated_increment_of(instance@).item_upserts);
    assert(batch@.item_deletes =~= isolated_increment_of(instance@).item_deletes);
    assert(batch@.relation_upserts =~= isolated_increment_of(instance@).relation_upserts);
    assert(batch@.relation_deletes =~= isolated_increment_of(instance@).relation_deletes);
    batch
}

fn incremental_catalog(settings: &FixtureSettings, source: &str) -> (r: CatalogBatch)
    ensures
        r@ == incremental_catalog_of(settings@, source@),
{
    reveal(incremental_catalog_of);
    let id = settings.scenario_id.as_str();
    if same_text(id, HIERARCHICAL_CATALOG_ASSETS) && same_text(source, "source.hierarchy.catalog") {
        hierarchical_increment()
    } else if same_text(id, FLAT_CATALOG_REVISIONS) {
        flat_increment()
    } else if same_text(id, ADVERSARIAL) {
        adversarial_increment()
    } else if same_text(id, DUAL_CONNECTION_ISOLATION) {
        isolated_increment(settings.instance.as_str())
    } else {
        empty_catalog_batch()
    }
}

// ---------------------------------------------------------------------------
// State observations
// ---------------------------------------------------------------------------

/// The observations that a full state read of a source publishes, before
/// they are stamped.
#[verifier::opaque]
pub open spec fn full_observations_of(settings: FixtureSettingsView, source: Seq<char>) -> Seq<StateObservationView> {
    let id = settings.scenario_id;
    let v2 = second_revision(settings);
    if id == HIERARCHICAL_CATALOG_ASSETS@ {
        if source == "source.hierarchy.catalog"@ {
            seq![
                state_integer_of("media.hierarchy.item.1"@, "progress"@, "time"@, 1),
                state_boolean_of("media.hierarchy.item.1"@, "completed"@, true),
                if v2 {
                    state_integer_of("media.hierarchy.item.3"@, "progress"@, "time"@, 120)
                } else {
                    state_integer_of("media.hierarchy.item.2"@, "progress"@, "time"@, 780)
                },
            ]
        } else {
            seq![
                state_boolean_of("media.asset.primary"@, "watched"@, true),
                state_boolean_of("media.asset.primary"@, "completed"@, true),
            ]
        }
    } else if id == EMPTY_TARGETED_RECEIVER@ && source == "source.lookup.catalog"@ {
        seq![
            state_integer_of(
                "media.linked.part1"@,
                "progress"@,
                "time"@,
                if v2 {
                    8
                } else {
                    7
                },
            ),
        ]
    } else if id == EMPTY_TARGETED_RECEIVER@ && source == "source.reference.catalog"@ {
        seq![
            state_integer_of("media.reference.item"@, "progress"@, "time"@, 25),
            state_integer_of("media.reference.item"@, "rating"@, "points"@, 3),
        ]
    } else if id == EDITION_HIERARCHY@ {
        seq![
            state_integer_of("edition.winter.us"@, "progress"@, "pages"@, 240),
            state_integer_of("edition.winter.us"@, "progress"@, "percent"@, 50),
            state_integer_of("volume.winter.us.v1"@, "progress"@, "chapters"@, 9),
            state_integer_of(
                "volume.winter.us.v2"@,
                "progress"@,
                "chapters"@,
                if v2 {
                    2
                } else {
                    0
                },
            ),
        ]
    } else if id == FLAT_CATALOG_REVISIONS@ {
        seq![
            state_boolean_of("media.flat.original"@, "watched"@, true),
            state_integer_of(
                "media.flat.original"@,
                "rating"@,
                "points"@,
                if v2 {
                    9
                } else {
                    8
                },
            ),
            state_integer_of(
                "media.flat.original"@,
                "rewatch_count"@,
                "count"@,
                if v2 {
                    3
                } else {
                    2
                },
            ),
        ]
    } else if id == DUAL_CONNECTION_ISOLATION@ {
        seq![state_boolean_of("media."@ + settings.instance + ".item.1"@, "completed"@, v2)]
    } else {
        seq![]
    }
}

/// The observations that an incremental state read of a source publishes,
/// before they are stamped.
#[verifier::opaque]
pub open spec fn incremental_observations_of(settings: FixtureSettingsView, source: Seq<char>) -> Seq<StateObservationView> {
    let id = settings.scenario_id;
    if id == HIERARCHICAL_CATALOG_ASSETS@ && source == "source.hierarchy.catalog"@ {
        seq![
            state_integer_of("media.hierarchy.item.3"@, "progress"@, "time"@, 120),
            state_deletion_of("media.hierarchy.item.2"@, "progress"@, "time"@),
        ]
    } else if id == EMPTY_TARGETED_RECEIVER@ && source == "source.lookup.catalog"@ {
        seq![state_integer_of("media.linked.part1"@, "progress"@, "time"@, 8)]
    } else if id == FLAT_CATALOG_REVISIONS@ {
        seq![
            state_integer_of("media.flat.original"@, "rating"@, "points"@, 9),
            state_integer_of("media.flat.original"@, "revisit_count"@, "count"@, 3),
        ]
    } else if id == DUAL_CONNECTION_ISOLATION@ {
        seq![state_boolean_of("media."@ + settings.instance + ".item.1"@, "completed"@, true)]
    } else {
        seq![]
    }
}

/// The revision that a stream of a source publishes: most streams stay at
/// the first revision, and only the hierarchy source, the lookup source's
/// state, the adversarial catalog and the other scenarios follow the
/// settings.
pub open spec fn effective_revision_of(settings: FixtureSettingsView, source: Seq<char>, stream: Seq<char>) -> Seq<char> {
    let id = settings.scenario_id;
    if id == HIERARCHICAL_CATALOG_ASSETS@ && source != "source.hierarchy.catalog"@ {
        "v1"@
    } else if id == EMPTY_TARGETED_RECEIVER@ && (source != "source.lookup.catalog"@ || stream != "state"@) {
        "v1"@
    } else if id == ADVERSARIAL@ && stream != "catalog"@ {
        "v1"@
    } else {
        settings.revision
    }
}

/// When a stream at a revision was observed: a second later in the second
/// revision.
pub open spec fn observed_at_of(revision: Seq<char>) -> i64 {
    if revision == "v2"@ {
        (LOGICAL_TIME_MILLISECONDS + 1000) as i64
    } else {
        LOGICAL_TIME_MILLISECONDS
    }
}

/// An observation stamped with its stream's revision and time.
pub open spec fn stamped_of(observation: StateObservationView, settings: FixtureSettingsView, source: Seq<char>) -> StateObservationView {
    let revision = effective_revision_of(settings, source, "state"@);
    StateObservationView {
        provider_revision: encode_utf8(cursor_text(settings.scenario_id, source, "state"@, revision)),
        observed_time_milliseconds: observed_at_of(revision),
        ..observation
    }
}

/// A state batch of stamped observations.
pub open spec fn state_batch_of(observations: Seq<StateObservationView>, settings: FixtureSettingsView, source: Seq<char>) -> StateBatchView {
    StateBatchView {
        sequence: 0,
        observations: Seq::new(observations.len(), |i: int| stamped_of(observations[i], settings, source)),
    }
}

/// The completion of a read of a stream: a cursor and evidence naming the
/// scenario, source, stream and revision.
pub open spec fn completed_of(settings: FixtureSettingsView, source: Seq<char>, stream: Seq<char>) -> ReadCompletedView {
    let revision = effective_revision_of(settings, source, stream);
    ReadCompletedView {
        next_cursor: encode_utf8(cursor_text(settings.scenario_id, source, stream, revision)),
        evidence_revision: encode_utf8(cursor_text(settings.scenario_id, source, stream, revision)),
        observed_time_milliseconds: observed_at_of(revision),
    }
}

fn effective_revision<'a>(settings: &'a FixtureSettings, source: &str, stream: &str) -> (r: &'a str)
    ensures
        r@ == effective_revision_of(settings@, source@, stream@),
{
    let id = settings.scenario_id.as_str();
    if same_text(id, HIERARCHICAL_CATALOG_ASSETS) && !same_text(source, "source.hierarchy.catalog") {
        "v1"
    } else if same_text(id, EMPTY_TARGETED_RECEIVER) && (!same_text(source, "source.lookup.catalog") || !same_text(stream, "state")) {
        "v1"
    } else if same_text(id, ADVERSARIAL) && !same_text(stream, "catalog") {
        "v1"
    } else {
        settings.revision.as_str()
    }
}

fn observed_at(revision: &str) -> (r: i64)
    ensures
        r == observed_at_of(revision@),
{
    if same_text(revision, "v2") {
        LOGICAL_TIME_MILLISECONDS + 1000
    } else {
        LOGICAL_TIME_MILLISECONDS
    }
}

fn completed(settings: &FixtureSettings, source: &str, stream: &str) -> (r: ReadCompleted)
    ensures
        r@ == completed_of(settings@, source@, stream@),
{
    let revision = effective_revision(settings, source, stream);
    ReadCompleted {
        next_cursor: cursor(settings.scenario_id.as_str(), source, stream, revision),
        evidence_revision: cursor(settings.scenario_id.as_str(), source, stream, revision),
        observed_time_milliseconds: observed_at(revision),
    }
}

fn stamp_state(settings: &FixtureSettings, source: &str, observations: Vec<StateObservation>) -> (r: StateBatch)
    ensures
        r@ == state_batch_of(observations.deep_view(), settings@, source@),
{
    let revision = effective_revision(settings, source, "state");
    let ghost wanted = state_batch_of(observations.deep_view(), settings@, source@).observations;
    let mut stamped: Vec<StateObservation> = Vec::new();
    let mut i: usize = 0;
    while i < observations.len()
        invariant
            i <= observations.len(),
            revision@ == effective_revision_of(settings@, source@, "state"@),
            wanted == state_batch_of(observations.deep_view(), settings@, source@).observations,
            stamped.deep_view() =~= wanted.take(i as int),
        decreases observations.len() - i,
    {
        let mut observation = observations[i].duplicate();
        observation.provider_revision = cursor(settings.scenario_id.as_str(), source, "state", revision);
        observation.observed_time_milliseconds = observed_at(revision);
        assert(observations.deep_view()[i as int] == observations[i as int]@);
        push_item(&mut stamped, observation);
        i = i + 1;
    }
    assert(wanted.take(i as int) =~= wanted);
    StateBatch { sequence: 0, observations: stamped }
}

fn full_observations(settings: &FixtureSettings, source: &str) -> (r: Vec<StateObservation>)
    ensures
        r.deep_view() == full_observations_of(settings@, source@),
{
    reveal(full_observations_of);
    let id = settings.scenario_id.as_str();
    let v2 = same_text(settings.revision.as_str(), "v2");
    let mut values: Vec<StateObservation> = Vec::new();
    if same_text(id, HIERARCHICAL_CATALOG_ASSETS) {
        if same_text(source, "source.hierarchy.catalog") {
            push_item(&mut values, state_integer("media.hierarchy.item.1", "progress", "time", 1));
            push_item(&mut values, state_boolean("media.hierarchy.item.1", "completed", true));
            if v2 {
                push_item(&mut values, state_integer("media.hierarchy.item.3", "progress", "time", 120));
            } else {
                push_item(&mut values, state_integer("media.hierarchy.item.2", "progress", "time", 780));
            }
        } else {
            push_item(&mut values, state_boolean("media.asset.primary", "watched", true));
            push_item(&mut values, state_boolean("media.asset.primary", "completed", true));
        }
    } else if same_text(id, EMPTY_TARGETED_RECEIVER) && same_text(source, "source.lookup.catalog") {
        push_item(
            &mut values,
            state_integer(
                "media.linked.part1",
                "progress",
                "time",
                if v2 {
                    8
                } else {
                    7
                },
            ),
        );
    } else if same_text(id, EMPTY_TARGETED_RECEIVER) && same_text(source, "source.reference.catalog") {
        push_item(&mut values, state_integer("media.reference.item", "progress", "time", 25));
        push_item(&mut values, state_integer("media.reference.item", "rating", "points", 3));
    } else if same_text(id, EDITION_HIERARCHY) {
        push_item(&mut values, state_integer("edition.winter.us", "progress", "pages", 240));
        push_item(&mut values, state_integer("edition.winter.us", "progress", "percent", 50));
        push_item(&mut values, state_integer("volume.winter.us.v1", "progress", "chapters", 9));
        push_item(
            &mut values,
            state_integer(
                "volume.winter.us.v2",
                "progress",
                "chapters",
                if v2 {
                    2
                } else {
                    0
                },
            ),
        );
    } else if same_text(id, FLAT_CATALOG_REVISIONS) {
        push_item(&mut values, state_boolean("media.flat.original", "watched", true));
        push_item(
            &mut values,
            state_integer(
                "media.flat.original",
                "rating",
                "points",
                if v2 {
                    9
                } else {
                    8
                },
            ),
        );
        push_item(
            &mut values,
            state_integer(
                "media.flat.original",
                "rewatch_count",
                "count",
                if v2 {
                    3
                } else {
                    2
                },
            ),
        );
    } else if same_text(id, DUAL_CONNECTION_ISOLATION) {
        let first = join3("media.", settings.instance.as_str(), ".item.1");
        push_item(&mut values, state_boolean(first.as_str(), "completed", v2));
    }
    assert(values.deep_view() =~= full_observations_of(settings@, source@));
    values
}

fn incremental_observations(settings: &FixtureSettings, source: &str) -> (r: Vec<StateObservation>)
    ensures
        r.deep_view() == incremental_observations_of(settings@, source@),
{
    reveal(incremental_observations_of);
    let id = settings.scenario_id.as_str();
    let mut values: Vec<StateObservation> = Vec::new();
    if same_text(id, HIERARCHICAL_CATALOG_ASSETS) && same_text(source, "source.hierarchy.catalog") {
        push_item(&mut values, state_integer("media.hierarchy.item.3", "progress", "time", 120));
        push_item(&mut values, state_deletion("media.hierarchy.item.2", "progress", "time"));
    } else if same_text(id, EMPTY_TARGETED_RECEIVER) && same_text(source, "source.lookup.catalog") {
        push_item(&mut values, state_integer("media.linked.part1", "progress", "time", 8));
    } else if same_text(id, FLAT_CATALOG_REVISIONS) {
        push_item(&mut values, state_integer("media.flat.original", "rating", "points", 9));
        push_item(&mut values, state_integer("media.flat.original", "revisit_count", "count", 3));
    } else if same_text(id, DUAL_CONNECTION_ISOLATION) {
        let first = join3("media.", settings.instance.as_str(), ".item.1");
        push_item(&mut values, state_boolean(first.as_str(), "completed", true));
    }
    assert(values.deep_view() =~= incremental_observations_of(settings@, source@));
    values
}

// ---------------------------------------------------------------------------
// Reads
// ---------------------------------------------------------------------------

/// The first source with this key.
pub open spec fn find_source_of(sources: Seq<SourceSnapshotView>, key: KeyView) -> Option<SourceSnapshotView>
    decreases sources.len(),
{
    if sources.len() == 0 {
        None
    } else if sources[0].key == Some(key) {
        Some(sources[0])
    } else {
        find_source_of(sources.drop_first(), key)
    }
}

/// How a read of a stream of a source proceeds: a full read without a cursor
/// where the stream reads in full, an incremental one from the first
/// revision's cursor to the second revision where the stream reads
/// incrementally, a stale cursor for any other incremental read, and an
/// unsupported read otherwise. `true` means incremental.
pub open spec fn read_mode_of(
    settings: FixtureSettingsView,
    source_key: KeyView,
    source: Seq<char>,
    mode: ReadMode,
    prior_cursor: Seq<u8>,
    stream: Seq<char>,
) -> Result<bool, ScenarioErrorView> {
    match find_source_of(sources_of(settings), source_key) {
        None => Err(ScenarioErrorView::UnknownSource),
        Some(found) => match found.capabilities {
            None => Err(ScenarioErrorView::UnsupportedRead),
            Some(capabilities) => {
                let read = if stream == "catalog"@ {
                    capabilities.catalog
                } else {
                    capabilities.state
                };
                match read {
                    None => Err(ScenarioErrorView::UnsupportedRead),
                    Some(read) => if mode == ReadMode::Full && read.full && prior_cursor.len() == 0 {
                        Ok(false)
                    } else if mode == ReadMode::Incremental && read.incremental {
                        if settings.revision != "v2"@ || prior_cursor != encode_utf8(
                            cursor_text(settings.scenario_id, source, stream, "v1"@),
                        ) {
                            Err(ScenarioErrorView::StaleCursor)
                        } else {
                            Ok(true)
                        }
                    } else {
                        Err(ScenarioErrorView::UnsupportedRead)
                    },
                }
            },
        },
    }
}

/// A read that fails at once with this code.
pub open spec fn failed_read_of(code: Seq<char>, retryable: bool) -> ReadFailedView {
    ReadFailedView { error: Some(adapter_error_of(code, retryable)) }
}

/// What ends a read after its batch: the cancellation, retryable or fatal
/// failure that the fault declares, or the completion of the stream.
pub open spec fn catalog_tail_of(settings: FixtureSettingsView, source: Seq<char>) -> CatalogEventView {
    let fault = settings.fault;
    if fault == "read.cancel-after-batch"@ {
        CatalogEventView::Cancelled(ReadCancelledView {  })
    } else if fault == "read.retryable-after-batch"@ {
        CatalogEventView::Failed(failed_read_of("temporary_failure"@, true))
    } else if fault == "read.fatal-after-batch"@ {
        CatalogEventView::Failed(failed_read_of("fatal_failure"@, false))
    } else {
        CatalogEventView::Completed(completed_of(settings, source, "catalog"@))
    }
}

/// What ends a state read after its batch.
pub open spec fn state_tail_of(settings: FixtureSettingsView, source: Seq<char>) -> StateEventView {
    let fault = settings.fault;
    if fault == "read.cancel-after-batch"@ {
        StateEventView::Cancelled(ReadCancelledView {  })
    } else if fault == "read.retryable-after-batch"@ {
        StateEventView::Failed(failed_read_of("temporary_failure"@, true))
    } else if fault == "read.fatal-after-batch"@ {
        StateEventView::Failed(failed_read_of("fatal_failure"@, false))
    } else {
        StateEventView::Completed(completed_of(settings, source, "state"@))
    }
}

/// The events of a catalog read: refused for a source that the scenario does
/// not publish; a stale cursor failure under that fault; else the batch of
/// the read mode (numbered out of order under the malformed fault) and what
/// ends the read.
pub open spec fn catalog_events_of(
    settings: FixtureSettingsView,
    source_key: KeyView,
    mode: ReadMode,
    prior_cursor: Seq<u8>,
) -> Result<Seq<ReadCatalogResponseView>, ScenarioErrorView> {
    if find_source_of(sources_of(settings), source_key) is None {
        Err(ScenarioErrorView::UnknownSource)
    } else if settings.fault == "read.stale-cursor"@ {
        Ok(seq![ReadCatalogResponseView { event: Some(CatalogEventView::Failed(failed_read_of("stale_cursor"@, false))) }])
    } else {
        match text_key_of(source_key) {
            Err(e) => Err(e),
            Ok(source) => match read_mode_of(settings, source_key, source, mode, prior_cursor, "catalog"@) {
                Err(e) => Err(e),
                Ok(incremental) => {
                    let batch = if incremental {
                        incremental_catalog_of(settings, source)
                    } else {
                        full_catalog_of(settings, source)
                    };
                    let batch = if settings.fault == "read.malformed-catalog"@ {
                        CatalogBatchView { sequence: 9, ..batch }
                    } else {
                        batch
                    };
                    Ok(
                        seq![
                            ReadCatalogResponseView { event: Some(CatalogEventView::Batch(batch)) },
                            ReadCatalogResponseView { event: Some(catalog_tail_of(settings, source)) },
                        ],
                    )
                },
            },
        }
    }
}

/// The events of a state read, as those of a catalog read.
pub open spec fn state_events_of(
    settings: FixtureSettingsView,
    source_key: KeyView,
    mode: ReadMode,
    prior_cursor: Seq<u8>,
) -> Result<Seq<ReadStateResponseView>, ScenarioErrorView> {
    if find_source_of(sources_of(settings), source_key) is None {
        Err(ScenarioErrorView::UnknownSource)
    } else if settings.fault == "read.stale-cursor"@ {
        Ok(seq![ReadStateResponseView { event: Some(StateEventView::Failed(failed_read_of("stale_cursor"@, false))) }])
    } else {
        match text_key_of(source_key) {
            Err(e) => Err(e),
            Ok(source) => match read_mode_of(settings, source_key, source, mode, prior_cursor, "state"@) {
                Err(e) => Err(e),
                Ok(incremental) => {
                    let observations = if incremental {
                        incremental_observations_of(settings, source)
                    } else {
                        full_observations_of(settings, source)
                    };
                    let batch = state_batch_of(observations, settings, source);
                    let batch = if settings.fault == "read.malformed-state"@ {
                        StateBatchView { sequence: 9, ..batch }
                    } else {
                        batch
                    };
                    Ok(
                        seq![
                            ReadStateResponseView { event: Some(StateEventView::Batch(batch)) },
                            ReadStateResponseView { event: Some(state_tail_of(settings, source)) },
                        ],
                    )
                },
            },
        }
    }
}

fn find_source(sources: &Vec<SourceSnapshot>, wanted: &Key) -> (r: Option<usize>)
    ensures
        r is None <==> find_source_of(sources.deep_view(), wanted@) is None,
        r matches Some(i) ==> i < sources.len() && find_source_of(sources.deep_view(), wanted@) == Some(sources.deep_view()[i as int]),
{
    let ghost all = sources.deep_view();
    assert(all.skip(0) =~= all);
    let mut i: usize = 0;
    while i < sources.len()
        invariant
            i <= sources.len(),
            all == sources.deep_view(),
            find_source_of(all, wanted@) == find_source_of(all.skip(i as int), wanted@),
        decreases sources.len() - i,
    {
        assert(all.skip(i as int).drop_first() =~= all.skip(i + 1));
        assert(all[i as int] == sources[i as int]@);
        let found = match &sources[i].key {
            Some(k) => same_key(k, wanted),
            None => false,
        };
        if found {
            return Some(i);
        }
        i = i + 1;
    }
    assert(all.skip(i as int).len() == 0);
    None
}

fn failed_read(code: &str, retryable: bool) -> (r: ReadFailed)
    ensures
        r@ == failed_read_of(code@, retryable),
{
    ReadFailed { error: Some(adapter_error(code, retryable)) }
}

impl Scenario {
    fn read_mode(&self, source_key: &Key, source: &str, mode: ReadMode, prior_cursor: &[u8], stream: &str) -> (r: Result<bool, ScenarioError>)
        ensures
            r matches Ok(b) ==> read_mode_of(self@.settings, source_key@, source@, mode, prior_cursor@, stream@)
                == Ok::<bool, ScenarioErrorView>(b),
            r matches Err(e) ==> read_mode_of(self@.settings, source_key@, source@, mode, prior_cursor@, stream@)
                == Err::<bool, ScenarioErrorView>(e@),
    {
        let sources = self.sources();
        let index = match find_source(&sources, source_key) {
            Some(index) => index,
            None => return Err(ScenarioError::UnknownSource),
        };
        assert(sources.deep_view()[index as int] == sources[index as int]@);
        let capabilities = match &sources[index].capabilities {
            Some(capabilities) => capabilities,
            None => return Err(ScenarioError::UnsupportedRead),
        };
        let read = if same_text(stream, "catalog") {
            &capabilities.catalog
        } else {
            &capabilities.state
        };
        let read = match read {
            Some(read) => read,
            None => return Err(ScenarioError::UnsupportedRead),
        };
        if mode == ReadMode::Full && read.full && prior_cursor.len() == 0 {
            Ok(false)
        } else if mode == ReadMode::Incremental && read.incremental {
            let expected = cursor(self.settings.scenario_id.as_str(), source, stream, "v1");
            let prior = vstd::slice::slice_to_vec(prior_cursor);
            if !same_text(self.settings.revision.as_str(), "v2") || !same_bytes(&prior, &expected) {
                Err(ScenarioError::StaleCursor)
            } else {
                Ok(true)
            }
        } else {
            Err(ScenarioError::UnsupportedRead)
        }
    }

    /// The events of a catalog read, or why the read is refused.
    pub fn catalog_events(&self, source_key: &Key, mode: ReadMode, prior_cursor: &[u8]) -> (r: Result<Vec<ReadCatalogResponse>, ScenarioError>)
        ensures
            r matches Ok(events) ==> catalog_events_of(self@.settings, source_key@, mode, prior_cursor@) == Ok::<
                Seq<ReadCatalogResponseView>,
                ScenarioErrorView,
            >(events.deep_view()),
            r matches Err(e) ==> catalog_events_of(self@.settings, source_key@, mode, prior_cursor@) == Err::<
                Seq<ReadCatalogResponseView>,
                ScenarioErrorView,
            >(e@),
    {
        let sources = self.sources();
        if find_source(&sources, source_key).is_none() {
            return Err(ScenarioError::UnknownSource);
        }
        let fault = self.settings.fault.as_str();
        if same_text(fault, "read.stale-cursor") {
            let mut events: Vec<ReadCatalogResponse> = Vec::new();
            push_item(&mut events, ReadCatalogResponse { event: Some(CatalogEvent::Failed(failed_read("stale_cursor", false))) });
            assert(events.deep_view() =~= catalog_events_of(self@.settings, source_key@, mode, prior_cursor@)->Ok_0);
            return Ok(events);
        }
        let source = match text_key(source_key) {
            Ok(source) => source,
            Err(e) => return Err(e),
        };
        let incremental = match self.read_mode(source_key, source, mode, prior_cursor, "catalog") {
            Ok(incremental) => incremental,
            Err(e) => return Err(e),
        };
        let mut batch = if incremental {
            incremental_catalog(&self.settings, source)
        } else {
            full_catalog(&self.settings, source)
        };
        if same_text(fault, "read.malformed-catalog") {
            batch.sequence = 9;
        }
        let mut events: Vec<ReadCatalogResponse> = Vec::new();
        push_item(&mut events, ReadCatalogResponse { event: Some(CatalogEvent::Batch(batch)) });
        let tail = if same_text(fault, "read.cancel-after-batch") {
            CatalogEvent::Cancelled(ReadCancelled {  })
        } else if same_text(fault, "read.retryable-after-batch") {
            CatalogEvent::Failed(failed_read("temporary_failure", true))
        } else if same_text(fault, "read.fatal-after-batch") {
            CatalogEvent::Failed(failed_read("fatal_failure", false))
        } else {
            CatalogEvent::Completed(completed(&self.settings, source, "catalog"))
        };
        push_item(&mut events, ReadCatalogResponse { event: Some(tail) });
        assert(events.deep_view() =~= catalog_events_of(self@.settings, source_key@, mode, prior_cursor@)->Ok_0);
        Ok(events)
    }

    /// The events of a state read, or why the read is refused.
    pub fn state_events(&self, source_key: &Key, mode: ReadMode, prior_cursor: &[u8]) -> (r: Result<Vec<ReadStateResponse>, ScenarioError>)
        ensures
            r matches Ok(events) ==> state_events_of(self@.settings, source_key@, mode, prior_cursor@) == Ok::<
                Seq<ReadStateResponseView>,
                ScenarioErrorView,
            >(events.deep_view()),
            r matches Err(e) ==> state_events_of(self@.settings, source_key@, mode, prior_cursor@) == Err::<
                Seq<ReadStateResponseView>,
                ScenarioErrorView,
            >(e@),
    {
        let sources = self.sources();
        if find_source(&sources, source_key).is_none() {
            return Err(ScenarioError::UnknownSource);
        }
        let fault = self.settings.fault.as_str();
        if same_text(fault, "read.stale-cursor") {
            let mut events: Vec<ReadStateResponse> = Vec::new();
            push_item(&mut events, ReadStateResponse { event: Some(StateEvent::Failed(failed_read("stale_cursor", false))) });
            assert(events.deep_view() =~= state_events_of(self@.settings, source_key@, mode, prior_cursor@)->Ok_0);
            return Ok(events);
        }
        let source = match text_key(source_key) {
            Ok(source) => source,
            Err(e) => return Err(e),
        };
        let incremental = match self.read_mode(source_key, source, mode, prior_cursor, "state") {
            Ok(incremental) => incremental,
            Err(e) => return Err(e),
        };
        let observations = if incremental {
            incremental_observations(&self.settings, source)
        } else {
            full_observations(&self.settings, source)
        };
        let mut batch = stamp_state(&self.settings, source, observations);
        if same_text(fault, "read.malformed-state") {
            batch.sequence = 9;
        }
        let mut events: Vec<ReadStateResponse> = Vec::new();
        push_item(&mut events, ReadStateResponse { event: Some(StateEvent::Batch(batch)) });
        let tail = if same_text(fault, "read.cancel-after-batch") {
            StateEvent::Cancelled(ReadCancelled {  })
        } else if same_text(fault, "read.retryable-after-batch") {
            StateEvent::Failed(failed_read("temporary_failure", true))
        } else if same_text(fault, "read.fatal-after-batch") {
            StateEvent::Failed(failed_read("fatal_failure", false))
        } else {
            StateEvent::Completed(completed(&self.settings, source, "state"))
        };
        push_item(&mut events, ReadStateResponse { event: Some(tail) });
        assert(events.deep_view() =~= state_events_of(self@.settings, source_key@, mode, prior_cursor@)->Ok_0);
        Ok(events)
    }
}

// ---------------------------------------------------------------------------
// Lookups
// ---------------------------------------------------------------------------

/// A lookup candidate: an item with no references, and evidence of the
/// requested reference at the logical time.
pub open spec fn candidate_of(id: Seq<char>, display_name: Seq<char>, requested: PortableReferenceView, revision: Seq<char>) -> LookupCandidateView {
    LookupCandidateView {
        provider_item: Some(item_of(id, "media"@, display_name, seq![])),
        evidence: Some(
            LookupEvidenceView {
                adapter_revision: encode_utf8(revision),
                observed_time_milliseconds: LOGICAL_TIME_MILLISECONDS,
                expires_time_milliseconds: None,
                matched_references: seq![requested],
            },
        ),
    }
}

/// What a reference is found as: the empty receiver matches the quiet
/// signal and finds the linked item ambiguous between its parts; the
/// adversarial scenario finds `duplicate` ambiguous between its left and
/// right items and `missing` not found; every other lookup is unsupported.
/// A reference's value is compared as UTF-8 text.
pub open spec fn lookup_outcome_of(settings: FixtureSettingsView, requested: PortableReferenceView) -> LookupOutcomeView {
    let value = requested.value;
    if settings.scenario_id == EMPTY_TARGETED_RECEIVER@ && value == encode_utf8("media/quiet-signal"@) {
        LookupOutcomeView::Matched(Some(candidate_of("media.quiet-signal"@, "Quiet Signal"@, requested, "lookup.receiver.v1"@)))
    } else if settings.scenario_id == EMPTY_TARGETED_RECEIVER@ && value == encode_utf8("media/linked"@) {
        LookupOutcomeView::Ambiguous(
            seq![
                candidate_of("media.linked.part1"@, "Linked Part 1"@, requested, "lookup.receiver.v1"@),
                candidate_of("media.linked.part2"@, "Linked Part 2"@, requested, "lookup.receiver.v1"@),
            ],
        )
    } else if settings.scenario_id == ADVERSARIAL@ {
        if value == encode_utf8("duplicate"@) {
            LookupOutcomeView::Ambiguous(
                seq![
                    candidate_of("adversarial.item.left"@, "Duplicate Left"@, requested, "lookup.adversarial.v1"@),
                    candidate_of("adversarial.item.right"@, "Duplicate Right"@, requested, "lookup.adversarial.v1"@),
                ],
            )
        } else if value == encode_utf8("missing"@) {
            LookupOutcomeView::NotFound
        } else {
            LookupOutcomeView::Unsupported
        }
    } else {
        LookupOutcomeView::Unsupported
    }
}

/// The answer to a lookup: one result per requested reference, in order.
pub open spec fn lookup_of(settings: FixtureSettingsView, references: Seq<PortableReferenceView>) -> LookupPortableReferencesResponseView {
    LookupPortableReferencesResponseView {
        outcome: Some(
            LookupResponseOutcomeView::Result(
                Seq::new(
                    references.len(),
                    |i: int| PortableReferenceLookupResultView {
                        requested: Some(references[i]),
                        outcome: Some(lookup_outcome_of(settings, references[i])),
                    },
                ),
            ),
        ),
    }
}

/// An endpoint candidate: an item with no references, bound to the
/// requested endpoint, with evidence of the requested reference valid for a
/// minute.
pub open spec fn endpoint_candidate_of(
    id: Seq<char>,
    display_name: Seq<char>,
    requested: PortableEndpointView,
    backing: CoordinateBacking,
    revision: Seq<char>,
) -> EndpointLookupCandidateView {
    EndpointLookupCandidateView {
        provider_item: Some(item_of(id, "media"@, display_name, seq![])),
        binding: Some(
            CoordinateBindingView {
                endpoint: Some(requested),
                subject: Some(item_subject_of(id)),
                backing,
                evidence_revision: encode_utf8(revision),
            },
        ),
        evidence: Some(
            LookupEvidenceView {
                adapter_revision: encode_utf8(revision),
                observed_time_milliseconds: LOGICAL_TIME_MILLISECONDS,
                expires_time_milliseconds: Some((LOGICAL_TIME_MILLISECONDS + 60000) as i64),
                matched_references: seq![requested.reference.unwrap()],
            },
        ),
    }
}

/// What an endpoint resolves to: the empty receiver matches the quiet
/// signal's first twelve segments and finds the linked item's twenty-four
/// ambiguous; the adversarial scenario does not find `missing`; every other
/// resolution is unsupported.
pub open spec fn endpoint_outcome_of(settings: FixtureSettingsView, requested: PortableEndpointView) -> EndpointOutcomeView {
    match requested.reference {
        None => EndpointOutcomeView::Unsupported,
        Some(reference) => {
            let value = reference.value;
            if settings.scenario_id == EMPTY_TARGETED_RECEIVER@ && (value == encode_utf8("quiet-signal"@) || value
                == encode_utf8("media/quiet-signal"@)) && requested.selector == "segment:1..12"@ {
                EndpointOutcomeView::Matched(
                    Some(
                        endpoint_candidate_of(
                            "media.quiet-signal"@,
                            "Quiet Signal"@,
                            requested,
                            CoordinateBacking::Aggregate,
                            "lookup.receiver.endpoint.v1"@,
                        ),
                    ),
                )
            } else if settings.scenario_id == EMPTY_TARGETED_RECEIVER@ && value == encode_utf8("media/linked"@)
                && requested.selector == "segment:1..24"@ {
                EndpointOutcomeView::Ambiguous(
                    seq![
                        endpoint_candidate_of(
                            "media.linked.part1"@,
                            "Linked Part 1"@,
                            requested,
                            CoordinateBacking::Aggregate,
                            "lookup.receiver.endpoint.v1"@,
                        ),
                        endpoint_candidate_of(
                            "media.linked.part2"@,
                            "Linked Part 2"@,
                            requested,
                            CoordinateBacking::Aggregate,
                            "lookup.receiver.endpoint.v1"@,
                        ),
                    ],
                )
            } else if settings.scenario_id == ADVERSARIAL@ && value == encode_utf8("missing"@) {
                EndpointOutcomeView::NotFound
            } else {
                EndpointOutcomeView::Unsupported
            }
        },
    }
}

/// The answer to an endpoint resolution: one result per requested endpoint,
/// in order.
pub open spec fn resolutions_of(settings: FixtureSettingsView, endpoints: Seq<PortableEndpointView>) -> ResolvePortableEndpointsResponseView {
    ResolvePortableEndpointsResponseView {
        results: Seq::new(
            endpoints.len(),
            |i: int| PortableEndpointResolutionView {
                requested: Some(endpoints[i]),
                outcome: Some(endpoint_outcome_of(settings, endpoints[i])),
            },
        ),
    }
}

fn is_value(bytes: &Vec<u8>, text: &str) -> (r: bool)
    ensures
        r == (bytes@ == encode_utf8(text@)),
{
    let expected = utf8_bytes(text);
    same_bytes(bytes, &expected)
}

fn candidate(id: &str, display_name: &str, requested: &PortableReference, revision: &str) -> (r: LookupCandidate)
    ensures
        r@ == candidate_of(id@, display_name@, requested@, revision@),
{
    let mut matched: Vec<PortableReference> = Vec::new();
    push_item(&mut matched, requested.duplicate());
    assert(matched.deep_view() =~= seq![requested@]);
    LookupCandidate {
        provider_item: Some(item0(id, "media", display_name)),
        evidence: Some(
            LookupEvidence {
                adapter_revision: utf8_bytes(revision),
                observed_time_milliseconds: LOGICAL_TIME_MILLISECONDS,
                expires_time_milliseconds: None,
                matched_references: matched,
            },
        ),
    }
}

fn endpoint_candidate(id: &str, display_name: &str, requested: &PortableEndpoint, backing: CoordinateBacking, revision: &str) -> (r: EndpointLookupCandidate)
    requires
        requested@.reference is Some,
    ensures
        r@ == endpoint_candidate_of(id@, display_name@, requested@, backing, revision@),
{
    let mut matched: Vec<PortableReference> = Vec::new();
    match &requested.reference {
        Some(reference) => push_item(&mut matched, reference.duplicate()),
        None => {},
    }
    assert(matched.deep_view() =~= seq![requested@.reference.unwrap()]);
    EndpointLookupCandidate {
        provider_item: Some(item0(id, "media", display_name)),
        binding: Some(
            CoordinateBinding {
                endpoint: Some(requested.duplicate()),
                subject: Some(provider_item_subject(id)),
                backing,
                evidence_revision: utf8_bytes(revision),
            },
        ),
        evidence: Some(
            LookupEvidence {
                adapter_revision: utf8_bytes(revision),
                observed_time_milliseconds: LOGICAL_TIME_MILLISECONDS,
                expires_time_milliseconds: Some(LOGICAL_TIME_MILLISECONDS + 60000),
                matched_references: matched,
            },
        ),
    }
}

impl Scenario {
    fn lookup_outcome(&self, requested: &PortableReference) -> (r: LookupOutcome)
        ensures
            r@ == lookup_outcome_of(self@.settings, requested@),
    {
        let id = self.settings.scenario_id.as_str();
        let value = &requested.value;
        if same_text(id, EMPTY_TARGETED_RECEIVER) && is_value(value, "media/quiet-signal") {
            return LookupOutcome::Matched(Some(candidate("media.quiet-signal", "Quiet Signal", requested, "lookup.receiver.v1")));
        }
        if same_text(id, EMPTY_TARGETED_RECEIVER) && is_value(value, "media/linked") {
            let mut candidates: Vec<LookupCandidate> = Vec::new();
            push_item(&mut candidates, candidate("media.linked.part1", "Linked Part 1", requested, "lookup.receiver.v1"));
            push_item(&mut candidates, candidate("media.linked.part2", "Linked Part 2", requested, "lookup.receiver.v1"));
            assert(candidates.deep_view() =~= seq![
                candidate_of("media.linked.part1"@, "Linked Part 1"@, requested@, "lookup.receiver.v1"@),
                candidate_of("media.linked.part2"@, "Linked Part 2"@, requested@, "lookup.receiver.v1"@),
            ]);
            return LookupOutcome::Ambiguous(candidates);
        }
        if same_text(id, ADVERSARIAL) {
            if is_value(value, "duplicate") {
                let mut candidates: Vec<LookupCandidate> = Vec::new();
                push_item(&mut candidates, candidate("adversarial.item.left", "Duplicate Left", requested, "lookup.adversarial.v1"));
                push_item(&mut candidates, candidate("adversarial.item.right", "Duplicate Right", requested, "lookup.adversarial.v1"));
                assert(candidates.deep_view() =~= seq![
                    candidate_of("adversarial.item.left"@, "Duplicate Left"@, requested@, "lookup.adversarial.v1"@),
                    candidate_of("adversarial.item.right"@, "Duplicate Right"@, requested@, "lookup.adversarial.v1"@),
                ]);
                return LookupOutcome::Ambiguous(candidates);
            } else if is_value(value, "missing") {
                return LookupOutcome::NotFound;
            } else {
                return LookupOutcome::Unsupported;
            }
        }
        LookupOutcome::Unsupported
    }

    /// The answer to a lookup of portable references.
    pub fn lookup(&self, references: &Vec<PortableReference>) -> (r: LookupPortableReferencesResponse)
        ensures
            r@ == lookup_of(self@.settings, references.deep_view()),
    {
        let ghost wanted = lookup_of(self@.settings, references.deep_view());
        let mut results: Vec<PortableReferenceLookupResult> = Vec::new();
        let mut i: usize = 0;
        while i < references.len()
            invariant
                i <= references.len(),
                wanted == lookup_of(self@.settings, references.deep_view()),
                results.deep_view() =~= (wanted.outcome->Some_0->Result_0).take(i as int),
            decreases references.len() - i,
        {
            assert(references.deep_view()[i as int] == references[i as int]@);
            push_item(
                &mut results,
                PortableReferenceLookupResult {
                    requested: Some(references[i].duplicate()),
                    outcome: Some(self.lookup_outcome(&references[i])),
                },
            );
            i = i + 1;
        }
        assert((wanted.outcome->Some_0->Result_0).take(i as int) =~= wanted.outcome->Some_0->Result_0);
        LookupPortableReferencesResponse { outcome: Some(LookupResponseOutcome::Result(results)) }
    }

    fn endpoint_outcome(&self, requested: &PortableEndpoint) -> (r: EndpointOutcome)
        ensures
            r@ == endpoint_outcome_of(self@.settings, requested@),
    {
        let reference = match &requested.reference {
            Some(reference) => reference,
            None => return EndpointOutcome::Unsupported,
        };
        let id = self.settings.scenario_id.as_str();
        let value = &reference.value;
        let selector = requested.selector.as_str();
        if same_text(id, EMPTY_TARGETED_RECEIVER) && (is_value(value, "quiet-signal") || is_value(value, "media/quiet-signal"))
            && same_text(selector, "segment:1..12") {
            return EndpointOutcome::Matched(
                Some(
                    endpoint_candidate(
                        "media.quiet-signal",
                        "Quiet Signal",
                        requested,
                        CoordinateBacking::Aggregate,
                        "lookup.receiver.endpoint.v1",
                    ),
                ),
            );
        }
        if same_text(id, EMPTY_TARGETED_RECEIVER) && is_value(value, "media/linked") && same_text(selector, "segment:1..24") {
            let mut candidates: Vec<EndpointLookupCandidate> = Vec::new();
            push_item(
                &mut candidates,
                endpoint_candidate("media.linked.part1", "Linked Part 1", requested, CoordinateBacking::Aggregate, "lookup.receiver.endpoint.v1"),
            );
            push_item(
                &mut candidates,
                endpoint_candidate("media.linked.part2", "Linked Part 2", requested, CoordinateBacking::Aggregate, "lookup.receiver.endpoint.v1"),
            );
            assert(candidates.deep_view() =~= seq![
                endpoint_candidate_of(
                    "media.linked.part1"@,
                    "Linked Part 1"@,
                    requested@,
                    CoordinateBacking::Aggregate,
                    "lookup.receiver.endpoint.v1"@,
                ),
                endpoint_candidate_of(
                    "media.linked.part2"@,
                    "Linked Part 2"@,
                    requested@,
                    CoordinateBacking::Aggregate,
                    "lookup.receiver.endpoint.v1"@,
                ),
            ]);
            return EndpointOutcome::Ambiguous(candidates);
        }
        if same_text(id, ADVERSARIAL) && is_value(value, "missing") {
            return EndpointOutcome::NotFound;
        }
        EndpointOutcome::Unsupported
    }

    /// The answer to a resolution of portable endpoints.
    pub fn resolve_endpoints(&self, endpoints: &Vec<PortableEndpoint>) -> (r: ResolvePortableEndpointsResponse)
        ensures
            r@ == resolutions_of(self@.settings, endpoints.deep_view()),
    {
        let ghost wanted = resolutions_of(self@.settings, endpoints.deep_view()).results;
        let mut results: Vec<PortableEndpointResolution> = Vec::new();
        let mut i: usize = 0;
        while i < endpoints.len()
            invariant
                i <= endpoints.len(),
                wanted == resolutions_of(self@.settings, endpoints.deep_view()).results,
                results.deep_view() =~= wanted.take(i as int),
            decreases endpoints.len() - i,
        {
            assert(endpoints.deep_view()[i as int] == endpoints[i as int]@);
            push_item(
                &mut results,
                PortableEndpointResolution {
                    requested: Some(endpoints[i].duplicate()),
                    outcome: Some(self.endpoint_outcome(&endpoints[i])),
                },
            );
            i = i + 1;
        }
        assert(wanted.take(i as int) =~= wanted);
        ResolvePortableEndpointsResponse { results }
    }
}

// ---------------------------------------------------------------------------
// Assets
// ---------------------------------------------------------------------------

/// The answer when an asset is not served, with this code.
pub open spec fn asset_error_of(code: Seq<char>) -> ReadAssetResponseView {
    ReadAssetResponseView { outcome: Some(AssetOutcomeView::Error(adapter_error_of(code, false))) }
}

/// The source, item and asset keys under which a scenario serves its poster.
pub open spec fn asset_binding_valid(settings: FixtureSettingsView, source: Option<Seq<char>>, item: Option<Seq<char>>, asset: Option<Seq<char>>) -> bool {
    let id = settings.scenario_id;
    if id == HIERARCHICAL_CATALOG_ASSETS@ {
        source == Some("source.assets.catalog"@) && item == Some("media.asset.primary"@) && asset == Some("asset.poster.valid"@)
    } else if id == ADVERSARIAL@ {
        source == Some("source.adversarial.catalog"@) && item == Some("adversarial.item.left"@) && asset == Some(
            "asset.adversarial.poster"@,
        )
    } else if id == DUAL_CONNECTION_ISOLATION@ {
        source == Some("source."@ + settings.instance + ".catalog"@) && item == Some(
            "media."@ + settings.instance + ".root"@,
        ) && asset == Some("asset."@ + settings.instance + ".poster"@)
    } else {
        false
    }
}

/// The bytes of a poster: a tiny JPEG frame around a name.
pub open spec fn poster_bytes_of(settings: FixtureSettingsView) -> Seq<u8> {
    if settings.scenario_id == DUAL_CONNECTION_ISOLATION@ && settings.instance == "beta"@ {
        seq![255u8, 216, 255, 70, 88, 68, 85, 65, 76, 66, 255, 217]
    } else if settings.scenario_id == DUAL_CONNECTION_ISOLATION@ {
        seq![255u8, 216, 255, 70, 88, 68, 85, 65, 76, 65, 255, 217]
    } else {
        seq![255u8, 216, 255, 70, 88, 65, 83, 83, 69, 84, 255, 217]
    }
}

/// The answer to an asset request: not found for a source the scenario does
/// not publish or keys that do not name its poster, too large under the
/// over-limit fault or when the poster exceeds the limit, and otherwise the
/// poster with its SHA-256 digest, as a JPEG that may be kept privately for
/// five minutes.
pub open spec fn asset_of(settings: FixtureSettingsView, source_key: KeyView, provider_item_key: KeyView, asset_key: KeyView, maximum_bytes: u64) -> ReadAssetResponseView {
    let content = poster_bytes_of(settings);
    if find_source_of(sources_of(settings), source_key) is None {
        asset_error_of("source_not_found"@)
    } else if !asset_binding_valid(
        settings,
        key_text_of(Some(source_key)),
        key_text_of(Some(provider_item_key)),
        key_text_of(Some(asset_key)),
    ) {
        asset_error_of("asset_not_found"@)
    } else if settings.fault == "asset.over-limit"@ {
        asset_error_of("asset_too_large"@)
    } else if content.len() > maximum_bytes {
        asset_error_of("asset_too_large"@)
    } else {
        ReadAssetResponseView {
            outcome: Some(
                AssetOutcomeView::Result(
                    ReadAssetResultView {
                        content,
                        content_type: "image/jpeg"@,
                        full_length: content.len() as u64,
                        hash: Some(ContentHashView { algorithm: Some(fterm("sha256"@)), digest: sha256(content) }),
                        cache_control: "private, max-age=300"@,
                    },
                ),
            ),
        }
    }
}

fn error_asset(code: &str) -> (r: ReadAssetResponse)
    ensures
        r@ == asset_error_of(code@),
{
    ReadAssetResponse { outcome: Some(AssetOutcome::Error(adapter_error(code, false))) }
}

fn poster_bytes(settings: &FixtureSettings) -> (r: Vec<u8>)
    ensures
        r@ == poster_bytes_of(settings@),
{
    let r = if same_text(settings.scenario_id.as_str(), DUAL_CONNECTION_ISOLATION) && same_text(settings.instance.as_str(), "beta") {
        vec![255u8, 216, 255, 70, 88, 68, 85, 65, 76, 66, 255, 217]
    } else if same_text(settings.scenario_id.as_str(), DUAL_CONNECTION_ISOLATION) {
        vec![255u8, 216, 255, 70, 88, 68, 85, 65, 76, 65, 255, 217]
    } else {
        vec![255u8, 216, 255, 70, 88, 65, 83, 83, 69, 84, 255, 217]
    };
    assert(r@ =~= poster_bytes_of(settings@));
    r
}

fn is_some_text(value: Option<&str>, wanted: &str) -> (r: bool)
    ensures
        r == (value.deep_view() == Some(wanted@)),
{
    match value {
        Some(v) => same_text(v, wanted),
        None => false,
    }
}

fn key_text_ok(key: &Key) -> (r: Option<&str>)
    ensures
        r.deep_view() == key_text_of(Some(key@)),
{
    match text_key(key) {
        Ok(t) => Some(t),
        Err(_) => None,
    }
}

impl Scenario {
    fn asset_binding(&self, source: Option<&str>, item: Option<&str>, asset: Option<&str>) -> (r: bool)
        ensures
            r == asset_binding_valid(self@.settings, source.deep_view(), item.deep_view(), asset.deep_view()),
    {
        let id = self.settings.scenario_id.as_str();
        if same_text(id, HIERARCHICAL_CATALOG_ASSETS) {
            is_some_text(source, "source.assets.catalog") && is_some_text(item, "media.asset.primary") && is_some_text(
                asset,
                "asset.poster.valid",
            )
        } else if same_text(id, ADVERSARIAL) {
            is_some_text(source, "source.adversarial.catalog") && is_some_text(item, "adversarial.item.left") && is_some_text(
                asset,
                "asset.adversarial.poster",
            )
        } else if same_text(id, DUAL_CONNECTION_ISOLATION) {
            let instance = self.settings.instance.as_str();
            let source_name = join3("source.", instance, ".catalog");
            let item_name = join3("media.", instance, ".root");
            let asset_name = join3("asset.", instance, ".poster");
            is_some_text(source, source_name.as_str()) && is_some_text(item, item_name.as_str()) && is_some_text(
                asset,
                asset_name.as_str(),
            )
        } else {
            false
        }
    }

    /// The answer to an asset request.
    pub fn asset(&self, source_key: &Key, provider_item_key: &Key, asset_key: &Key, maximum_bytes: u64) -> (r: ReadAssetResponse)
        ensures
            r@ == asset_of(self@.settings, source_key@, provider_item_key@, asset_key@, maximum_bytes),
    {
        let sources = self.sources();
        if find_source(&sources, source_key).is_none() {
            return error_asset("source_not_found");
        }
        if !self.asset_binding(key_text_ok(source_key), key_text_ok(provider_item_key), key_text_ok(asset_key)) {
            return error_asset("asset_not_found");
        }
        if same_text(self.settings.fault.as_str(), "asset.over-limit") {
            return error_asset("asset_too_large");
        }
        let content = poster_bytes(&self.settings);
        if content.len() as u64 > maximum_bytes {
            return error_asset("asset_too_large");
        }
        let digest = sha256_digest(content.as_slice());
        let full_length = content.len() as u64;
        ReadAssetResponse {
            outcome: Some(
                AssetOutcome::Result(
                    ReadAssetResult {
                        content,
                        content_type: owned("image/jpeg"),
                        full_length,
                        hash: Some(ContentHash { algorithm: Some(term("sha256")), digest }),
                        cache_control: owned("private, max-age=300"),
                    },
                ),
            ),
        }
    }
}

// ---------------------------------------------------------------------------
// Laws of reads
// ---------------------------------------------------------------------------

/// The cursor that a completed read of the first revision hands out is the
/// one that an incremental read of the second revision accepts: reading a
/// stream in full at the first revision and then incrementally from its
/// cursor at the second is never refused as stale.
pub proof fn lemma_first_revision_cursor_resumes(
    first: FixtureSettingsView,
    second: FixtureSettingsView,
    source_key: KeyView,
    source: Seq<char>,
    stream: Seq<char>,
    found: SourceSnapshotView,
)
    requires
        first.revision == "v1"@,
        second == (FixtureSettingsView { revision: "v2"@, ..first }),
        find_source_of(sources_of(first), source_key) == Some(found),
        found.capabilities matches Some(c) && (if stream == "catalog"@ {
            c.catalog
        } else {
            c.state
        }) matches Some(read) && read.incremental,
    ensures
        completed_of(first, source, stream).next_cursor == encode_utf8(
            cursor_text(second.scenario_id, source, stream, "v1"@),
        ),
        read_mode_of(second, source_key, source, ReadMode::Incremental, completed_of(first, source, stream).next_cursor, stream)
            == Ok::<bool, ScenarioErrorView>(true),
{
    lemma_sources_ignore_revision(first, second);
}

/// The sources that a scenario publishes do not depend on its revision or
/// fault: settings that name the same scenario and instance publish the same
/// sources.
pub proof fn lemma_sources_ignore_revision(a: FixtureSettingsView, b: FixtureSettingsView)
    requires
        a.scenario_id == b.scenario_id,
        a.instance == b.instance,
    ensures
        sources_of(a) == sources_of(b),
{
    reveal(sources_of);
}

/// A full read of a stream at the first revision, without fault, hands out
/// a cursor that an incremental read of the same source at the second
/// revision accepts, when the source reads its catalog incrementally: the
/// catalog read from that cursor is not refused.
pub proof fn lemma_full_catalog_cursor_resumes(
    first: FixtureSettingsView,
    second: FixtureSettingsView,
    source_key: KeyView,
    events: Seq<ReadCatalogResponseView>,
    completed: ReadCompletedView,
    found: SourceSnapshotView,
)
    requires
        first.revision == "v1"@,
        first.fault == "none"@,
        second == (FixtureSettingsView { revision: "v2"@, ..first }),
        catalog_events_of(first, source_key, ReadMode::Full, seq![]) == Ok::<
            Seq<ReadCatalogResponseView>,
            ScenarioErrorView,
        >(events),
        events.len() > 0,
        events.last().event == Some(CatalogEventView::Completed(completed)),
        find_source_of(sources_of(first), source_key) == Some(found),
        found.capabilities matches Some(c) && c.catalog matches Some(read) && read.incremental,
    ensures
        catalog_events_of(second, source_key, ReadMode::Incremental, completed.next_cursor) is Ok,
{
    reveal_strlit("none");
    reveal_strlit("read.stale-cursor");
    reveal_strlit("read.cancel-after-batch");
    reveal_strlit("read.retryable-after-batch");
    reveal_strlit("read.fatal-after-batch");
    reveal_strlit("read.malformed-catalog");
    let source = text_key_of(source_key)->Ok_0;
    assert(completed == completed_of(first, source, "catalog"@));
    lemma_sources_ignore_revision(first, second);
    lemma_first_revision_cursor_resumes(first, second, source_key, source, "catalog"@, found);
}

/// The same for a state read: a full state read at the first revision,
/// without fault, hands out a cursor that an incremental state read at the
/// second revision accepts.
pub proof fn lemma_full_state_cursor_resumes(
    first: FixtureSettingsView,
    second: FixtureSettingsView,
    source_key: KeyView,
    events: Seq<ReadStateResponseView>,
    completed: ReadCompletedView,
    found: SourceSnapshotView,
)
    requires
        first.revision == "v1"@,
        first.fault == "none"@,
        second == (FixtureSettingsView { revision: "v2"@, ..first }),
        state_events_of(first, source_key, ReadMode::Full, seq![]) == Ok::<Seq<ReadStateResponseView>, ScenarioErrorView>(
            events,
        ),
        events.len() > 0,
        events.last().event == Some(StateEventView::Completed(completed)),
        find_source_of(sources_of(first), source_key) == Some(found),
        found.capabilities matches Some(c) && c.state matches Some(read) && read.incremental,
    ensures
        state_events_of(second, source_key, ReadMode::Incremental, completed.next_cursor) is Ok,
{
    reveal_strlit("none");
    reveal_strlit("read.stale-cursor");
    reveal_strlit("read.cancel-after-batch");
    reveal_strlit("read.retryable-after-batch");
    reveal_strlit("read.fatal-after-batch");
    reveal_strlit("read.malformed-state");
    reveal_strlit("catalog");
    reveal_strlit("state");
    let source = text_key_of(source_key)->Ok_0;
    assert(completed == completed_of(first, source, "state"@));
    lemma_sources_ignore_revision(first, second);
    lemma_first_revision_cursor_resumes(first, second, source_key, source, "state"@, found);
}

/// `items` without those whose key is among `deletes`, in order.
pub open spec fn without_deleted(items: Seq<ProviderItemView>, deletes: Seq<KeyView>) -> Seq<ProviderItemView>
    decreases items.len(),
{
    if items.len() == 0 {
        seq![]
    } else {
        let rest = without_deleted(items.drop_first(), deletes);
        if items[0].key is Some && deletes.contains(items[0].key->0) {
            rest
        } else {
            seq![items[0]] + rest
        }
    }
}

/// `items` with `item` in place of the first item that has its key, or added
/// at the end when none has it.
pub open spec fn with_upserted(items: Seq<ProviderItemView>, item: ProviderItemView) -> Seq<ProviderItemView>
    decreases items.len(),
{
    if items.len() == 0 {
        seq![item]
    } else if items[0].key == item.key {
        items.update(0, item)
    } else {
        seq![items[0]] + with_upserted(items.drop_first(), item)
    }
}

/// `items` with each of `upserts` put in, in order.
pub open spec fn with_all_upserted(items: Seq<ProviderItemView>, upserts: Seq<ProviderItemView>) -> Seq<ProviderItemView>
    decreases upserts.len(),
{
    if upserts.len() == 0 {
        items
    } else {
        with_all_upserted(with_upserted(items, upserts[0]), upserts.drop_first())
    }
}

/// The items that a reader holds after applying a catalog batch to `items`:
/// the deleted ones removed, then each upserted one replacing the item with
/// its key or added at the end.
pub open spec fn items_after_batch(items: Seq<ProviderItemView>, batch: CatalogBatchView) -> Seq<ProviderItemView> {
    with_all_upserted(without_deleted(items, batch.item_deletes), batch.item_upserts)
}

proof fn lemma_distinct_fixture_keys(a: Seq<char>, b: Seq<char>)
    requires
        a != b,
    ensures
        fkey(a) != fkey(b),
{
    encode_utf8_decode_utf8(a);
    encode_utf8_decode_utf8(b);
}

proof fn lemma_hierarchy_catalog_applies_increment()
    ensures
        hierarchical_items_of("source.hierarchy.catalog"@, true) == items_after_batch(
            hierarchical_items_of("source.hierarchy.catalog"@, false),
            hierarchical_increment_of(),
        ),
{
    reveal_strlit("media.hierarchy.root");
    reveal_strlit("media.hierarchy.group.1");
    reveal_strlit("media.hierarchy.item.1");
    reveal_strlit("media.hierarchy.item.2");
    reveal_strlit("media.hierarchy.item.3");
    reveal_strlit("media.hierarchy.special");
    let root = item_of("media.hierarchy.root"@, "media"@, "Hierarchy Root"@, seq!["media/hierarchy/root"@]);
    let group = item_of("media.hierarchy.group.1"@, "group"@, "Group 1"@, seq!["media/hierarchy/group/1"@]);
    let first = item_of("media.hierarchy.item.1"@, "media"@, "Arrival"@, seq!["media/hierarchy/item/1"@]);
    let revised = item_of("media.hierarchy.item.1"@, "media"@, "Arrival Revised"@, seq!["media/hierarchy/item/1"@]);
    let special = item_of("media.hierarchy.special"@, "media"@, "Special"@, seq!["media/hierarchy/special"@]);
    let second = item_of("media.hierarchy.item.2"@, "media"@, "Drift"@, seq!["media/hierarchy/item/2"@]);
    let third = item_of("media.hierarchy.item.3"@, "media"@, "Signal"@, seq!["media/hierarchy/item/3"@]);
    let deleted = fkey("media.hierarchy.item.2"@);
    let deletes = seq![deleted];
    lemma_distinct_fixture_keys("media.hierarchy.root"@, "media.hierarchy.item.2"@);
    lemma_distinct_fixture_keys("media.hierarchy.group.1"@, "media.hierarchy.item.2"@);
    lemma_distinct_fixture_keys("media.hierarchy.special"@, "media.hierarchy.item.2"@);
    assert("media.hierarchy.item.1"@ != "media.hierarchy.item.2"@) by {
        assert("media.hierarchy.item.1"@[21] != "media.hierarchy.item.2"@[21]);
    }
    lemma_distinct_fixture_keys("media.hierarchy.item.1"@, "media.hierarchy.item.2"@);
    lemma_distinct_fixture_keys("media.hierarchy.root"@, "media.hierarchy.item.1"@);
    lemma_distinct_fixture_keys("media.hierarchy.group.1"@, "media.hierarchy.item.1"@);
    lemma_distinct_fixture_keys("media.hierarchy.root"@, "media.hierarchy.item.3"@);
    lemma_distinct_fixture_keys("media.hierarchy.group.1"@, "media.hierarchy.item.3"@);
    lemma_distinct_fixture_keys("media.hierarchy.special"@, "media.hierarchy.item.3"@);
    assert("media.hierarchy.item.1"@ != "media.hierarchy.item.3"@) by {
        assert("media.hierarchy.item.1"@[21] != "media.hierarchy.item.3"@[21]);
    }
    lemma_distinct_fixture_keys("media.hierarchy.item.1"@, "media.hierarchy.item.3"@);
    assert(!deletes.contains(root.key->0));
    assert(!deletes.contains(group.key->0));
    assert(!deletes.contains(first.key->0));
    assert(!deletes.contains(special.key->0));
    assert(deletes.contains(second.key->0)) by {
        assert(deletes[0] == second.key->0);
    }
    let v1 = seq![root, group, first, special, second];
    assert(hierarchical_items_of("source.hierarchy.catalog"@, false) == v1);
    assert(v1.drop_first() =~= seq![group, first, special, second]);
    assert(seq![group, first, special, second].drop_first() =~= seq![first, special, second]);
    assert(seq![first, special, second].drop_first() =~= seq![special, second]);
    assert(seq![special, second].drop_first() =~= seq![second]);
    assert(seq![second].drop_first() =~= Seq::<ProviderItemView>::empty());
    assert(without_deleted(Seq::<ProviderItemView>::empty(), deletes) == Seq::<ProviderItemView>::empty());
    assert(without_deleted(seq![second], deletes) =~= Seq::<ProviderItemView>::empty());
    assert(without_deleted(seq![special, second], deletes) =~= seq![special]);
    assert(without_deleted(seq![first, special, second], deletes) =~= seq![first, special]);
    assert(without_deleted(seq![group, first, special, second], deletes) =~= seq![group, first, special]);
    let kept = seq![root, group, first, special];
    assert(without_deleted(v1, deletes) =~= kept);
    // The revised item takes the place of the first.
    assert(kept.drop_first() =~= seq![group, first, special]);
    assert(seq![group, first, special].drop_first() =~= seq![first, special]);
    assert(with_upserted(seq![first, special], revised) =~= seq![revised, special]);
    assert(with_upserted(seq![group, first, special], revised) =~= seq![group, revised, special]);
    let updated = seq![root, group, revised, special];
    assert(with_upserted(kept, revised) =~= updated);
    // The added item goes to the end.
    assert(updated.drop_first() =~= seq![group, revised, special]);
    assert(seq![group, revised, special].drop_first() =~= seq![revised, special]);
    assert(seq![revised, special].drop_first() =~= seq![special]);
    assert(seq![special].drop_first() =~= Seq::<ProviderItemView>::empty());
    assert(with_upserted(Seq::<ProviderItemView>::empty(), third) =~= seq![third]);
    assert(with_upserted(seq![special], third) =~= seq![special, third]);
    assert(with_upserted(seq![revised, special], third) =~= seq![revised, special, third]);
    assert(with_upserted(seq![group, revised, special], third) =~= seq![group, revised, special, third]);
    let v2 = seq![root, group, revised, special, third];
    assert(with_upserted(updated, third) =~= v2);
    let upserts = hierarchical_increment_of().item_upserts;
    assert(upserts =~= seq![revised, third]);
    assert(upserts.drop_first() =~= seq![third]);
    assert(seq![third].drop_first() =~= Seq::<ProviderItemView>::empty());
    assert(with_all_upserted(v2, Seq::<ProviderItemView>::empty()) == v2);
    assert(with_all_upserted(updated, seq![third]) == v2);
    assert(with_all_upserted(kept, upserts) == v2);
    assert(hierarchical_increment_of().item_deletes =~= deletes);
    assert(hierarchical_items_of("source.hierarchy.catalog"@, true) == v2);
}

/// What the hierarchical scenario publishes of a source: its items at the
/// revision in a full read, and the hierarchy's increment for the hierarchy
/// source in an incremental one, an empty batch for the other.
proof fn lemma_hierarchical_batches(settings: FixtureSettingsView, source: Seq<char>)
    requires
        settings.scenario_id == HIERARCHICAL_CATALOG_ASSETS@,
    ensures
        full_catalog_of(settings, source).item_upserts == hierarchical_items_of(source, second_revision(settings)),
        incremental_catalog_of(settings, source) == (if source == "source.hierarchy.catalog"@ {
            hierarchical_increment_of()
        } else {
            empty_batch()
        }),
{
    reveal(full_catalog_of);
    reveal(full_items_of);
    reveal(incremental_catalog_of);
    reveal_strlit("hierarchical-catalog-assets-v1");
    reveal_strlit("flat-catalog-revisions-v1");
    reveal_strlit("adversarial-v1");
    reveal_strlit("dual-connection-isolation-v1");
    assert(HIERARCHICAL_CATALOG_ASSETS@.len() != FLAT_CATALOG_REVISIONS@.len());
    assert(HIERARCHICAL_CATALOG_ASSETS@.len() != ADVERSARIAL@.len());
    assert(HIERARCHICAL_CATALOG_ASSETS@.len() != DUAL_CONNECTION_ISOLATION@.len());
}

/// The hierarchical scenario's full catalog at the second revision is its
/// full catalog at the first revision with the incremental batch of the
/// second revision applied, for every source of it: the revised item stands
/// in place of the old one, the added item comes last, and no item whose key
/// the batch deletes is published.
pub proof fn lemma_hierarchical_full_catalog_applies_increment(
    first: FixtureSettingsView,
    second: FixtureSettingsView,
    source: Seq<char>,
)
    requires
        first.scenario_id == HIERARCHICAL_CATALOG_ASSETS@,
        first.revision == "v1"@,
        second == (FixtureSettingsView { revision: "v2"@, ..first }),
    ensures
        full_catalog_of(second, source).item_upserts == items_after_batch(
            full_catalog_of(first, source).item_upserts,
            incremental_catalog_of(second, source),
        ),
        forall|i: int|
            0 <= i < full_catalog_of(second, source).item_upserts.len() ==> {
                let item = #[trigger] full_catalog_of(second, source).item_upserts[i];
                item.key is Some && !incremental_catalog_of(second, source).item_deletes.contains(item.key->0)
            },
{
    reveal_strlit("v1");
    reveal_strlit("v2");
    assert(!second_revision(first)) by {
        assert("v1"@[1] != "v2"@[1]);
    }
    assert(second_revision(second));
    lemma_hierarchical_batches(first, source);
    lemma_hierarchical_batches(second, source);
    let items = full_catalog_of(second, source).item_upserts;
    let batch = incremental_catalog_of(second, source);
    if source == "source.hierarchy.catalog"@ {
        lemma_hierarchy_catalog_applies_increment();
        assert(batch == hierarchical_increment_of());
        reveal_strlit("media.hierarchy.root");
        reveal_strlit("media.hierarchy.group.1");
        reveal_strlit("media.hierarchy.item.1");
        reveal_strlit("media.hierarchy.item.2");
        reveal_strlit("media.hierarchy.item.3");
        reveal_strlit("media.hierarchy.special");
        assert("media.hierarchy.item.3"@ != "media.hierarchy.item.2"@) by {
            assert("media.hierarchy.item.3"@[21] != "media.hierarchy.item.2"@[21]);
        }
        assert("media.hierarchy.item.1"@ != "media.hierarchy.item.2"@) by {
            assert("media.hierarchy.item.1"@[21] != "media.hierarchy.item.2"@[21]);
        }
        lemma_distinct_fixture_keys("media.hierarchy.root"@, "media.hierarchy.item.2"@);
        lemma_distinct_fixture_keys("media.hierarchy.group.1"@, "media.hierarchy.item.2"@);
        lemma_distinct_fixture_keys("media.hierarchy.item.1"@, "media.hierarchy.item.2"@);
        lemma_distinct_fixture_keys("media.hierarchy.special"@, "media.hierarchy.item.2"@);
        lemma_distinct_fixture_keys("media.hierarchy.item.3"@, "media.hierarchy.item.2"@);
        assert forall|i: int| 0 <= i < items.len() implies (#[trigger] items[i]).key is Some
            && !batch.item_deletes.contains(items[i].key->0) by {
            assert(items[i].key != Some(fkey("media.hierarchy.item.2"@)));
            assert(batch.item_deletes =~= seq![fkey("media.hierarchy.item.2"@)]);
        }
    } else {
        assert(batch == empty_batch());
        let v = hierarchical_items_of(source, true);
        assert(hierarchical_items_of(source, false) == v);
        assert(v.drop_first() =~= Seq::<ProviderItemView>::empty());
        assert(without_deleted(Seq::<ProviderItemView>::empty(), seq![]) == Seq::<ProviderItemView>::empty());
        assert(without_deleted(v, seq![]) =~= v);
        assert(with_all_upserted(v, seq![]) == v);
    }
}

proof fn lemma_nothing_deleted(items: Seq<ProviderItemView>)
    ensures
        without_deleted(items, seq![]) == items,
    decreases items.len(),
{
    if items.len() > 0 {
        lemma_nothing_deleted(items.drop_first());
        assert(seq![items[0]] + items.drop_first() =~= items);
    }
}

proof fn lemma_flat_catalog_applies_increment()
    ensures
        flat_items_of(true) == items_after_batch(flat_items_of(false), flat_increment_of()),
{
    reveal_strlit("media.flat.original");
    reveal_strlit("media.flat.alternate");
    reveal_strlit("media.flat.revision");
    let original = |date: Seq<char>|
        item_with_attribute_of(
            "media.flat.original"@,
            "media"@,
            "Shared Title"@,
            seq!["media/flat/original"@],
            "release_date"@,
            date,
        );
    let alternate = item_with_attribute_of(
        "media.flat.alternate"@,
        "media"@,
        "Shared Title"@,
        seq!["media/flat/alternate"@],
        "release_date"@,
        "2029-03-01"@,
    );
    let revision = item_with_attribute_of(
        "media.flat.revision"@,
        "media"@,
        "Shared Title"@,
        seq!["media/flat/revision"@],
        "release_date"@,
        "2030-02-02"@,
    );
    let old_original = original("2029-01-15"@);
    let new_original = original("2029-01-16"@);
    assert("media.flat.original"@ != "media.flat.revision"@) by {
        assert("media.flat.original"@[11] != "media.flat.revision"@[11]);
    }
    lemma_distinct_fixture_keys("media.flat.original"@, "media.flat.revision"@);
    lemma_distinct_fixture_keys("media.flat.alternate"@, "media.flat.revision"@);
    let v1 = seq![old_original, alternate];
    assert(flat_items_of(false) =~= v1);
    lemma_nothing_deleted(v1);
    assert(flat_increment_of().item_deletes =~= seq![]);
    assert(with_upserted(v1, new_original) =~= seq![new_original, alternate]);
    let updated = seq![new_original, alternate];
    assert(updated.drop_first() =~= seq![alternate]);
    assert(seq![alternate].drop_first() =~= Seq::<ProviderItemView>::empty());
    assert(with_upserted(Seq::<ProviderItemView>::empty(), revision) =~= seq![revision]);
    assert(with_upserted(seq![alternate], revision) =~= seq![alternate, revision]);
    let v2 = seq![new_original, alternate, revision];
    assert(with_upserted(updated, revision) =~= v2);
    let upserts = flat_increment_of().item_upserts;
    assert(upserts =~= seq![new_original, revision]);
    assert(upserts.drop_first() =~= seq![revision]);
    assert(seq![revision].drop_first() =~= Seq::<ProviderItemView>::empty());
    assert(with_all_upserted(v2, Seq::<ProviderItemView>::empty()) == v2);
    assert(with_all_upserted(updated, seq![revision]) == v2);
    assert(with_all_upserted(v1, upserts) == v2);
    assert(flat_items_of(true) =~= v2);
}

proof fn lemma_isolated_catalog_applies_increment(instance: Seq<char>)
    ensures
        isolated_items_of(instance, true) == items_after_batch(
            isolated_items_of(instance, false),
            isolated_increment_of(instance),
        ),
{
    reveal_strlit("media.");
    reveal_strlit(".root");
    reveal_strlit(".group");
    reveal_strlit(".item.1");
    reveal_strlit(".item.2");
    reveal_strlit(".item.3");
    let id = |suffix: Seq<char>| "media."@ + instance + suffix;
    let n = instance.len() as int;
    let root_id = id(".root"@);
    let group_id = id(".group"@);
    let first_id = id(".item.1"@);
    let second_id = id(".item.2"@);
    let third_id = id(".item.3"@);
    assert(root_id.len() != second_id.len() && root_id.len() != third_id.len());
    assert(group_id.len() != second_id.len() && group_id.len() != third_id.len());
    assert(first_id[n + 12] == '1' && second_id[n + 12] == '2' && third_id[n + 12] == '3');
    lemma_distinct_fixture_keys(root_id, second_id);
    lemma_distinct_fixture_keys(group_id, second_id);
    lemma_distinct_fixture_keys(first_id, second_id);
    lemma_distinct_fixture_keys(root_id, third_id);
    lemma_distinct_fixture_keys(group_id, third_id);
    lemma_distinct_fixture_keys(first_id, third_id);
    let v1 = isolated_items_of(instance, false);
    let v2 = isolated_items_of(instance, true);
    let root = v1[0];
    let group = v1[1];
    let first = v1[2];
    let second = v1[3];
    let third = v2[3];
    assert(v1 =~= seq![root, group, first, second]);
    assert(v2 =~= seq![root, group, first, third]);
    assert(root.key == Some(fkey(root_id)));
    assert(group.key == Some(fkey(group_id)));
    assert(first.key == Some(fkey(first_id)));
    assert(second.key == Some(fkey(second_id)));
    assert(third.key == Some(fkey(third_id)));
    let deletes = isolated_increment_of(instance).item_deletes;
    assert(deletes =~= seq![fkey(second_id)]);
    assert(!deletes.contains(root.key->0));
    assert(!deletes.contains(group.key->0));
    assert(!deletes.contains(first.key->0));
    assert(deletes.contains(second.key->0)) by {
        assert(deletes[0] == second.key->0);
    }
    assert(v1.drop_first() =~= seq![group, first, second]);
    assert(seq![group, first, second].drop_first() =~= seq![first, second]);
    assert(seq![first, second].drop_first() =~= seq![second]);
    assert(seq![second].drop_first() =~= Seq::<ProviderItemView>::empty());
    assert(without_deleted(Seq::<ProviderItemView>::empty(), deletes) == Seq::<ProviderItemView>::empty());
    assert(without_deleted(seq![second], deletes) =~= Seq::<ProviderItemView>::empty());
    assert(without_deleted(seq![first, second], deletes) =~= seq![first]);
    assert(without_deleted(seq![group, first, second], deletes) =~= seq![group, first]);
    let kept = seq![root, group, first];
    assert(without_deleted(v1, deletes) =~= kept);
    assert(kept.drop_first() =~= seq![group, first]);
    assert(seq![group, first].drop_first() =~= seq![first]);
    assert(seq![first].drop_first() =~= Seq::<ProviderItemView>::empty());
    assert(with_upserted(Seq::<ProviderItemView>::empty(), third) =~= seq![third]);
    assert(with_upserted(seq![first], third) =~= seq![first, third]);
    assert(with_upserted(seq![group, first], third) =~= seq![group, first, third]);
    assert(with_upserted(kept, third) =~= v2);
    let upserts = isolated_increment_of(instance).item_upserts;
    assert(upserts =~= seq![third]);
    assert(upserts.drop_first() =~= Seq::<ProviderItemView>::empty());
    assert(with_all_upserted(v2, Seq::<ProviderItemView>::empty()) == v2);
    assert(with_all_upserted(kept, upserts) == v2);
}

/// What the other scenarios publish of a source: the flat and isolated
/// scenarios' items at the revision and their increments; for the rest but
/// the edition hierarchy, the same items at either revision and an increment
/// that changes no item.
proof fn lemma_revised_batches(settings: FixtureSettingsView, source: Seq<char>)
    requires
        settings.scenario_id != HIERARCHICAL_CATALOG_ASSETS@,
    ensures
        settings.scenario_id == FLAT_CATALOG_REVISIONS@ ==> {
            &&& full_catalog_of(settings, source).item_upserts == flat_items_of(second_revision(settings))
            &&& incremental_catalog_of(settings, source) == flat_increment_of()
        },
        settings.scenario_id == DUAL_CONNECTION_ISOLATION@ ==> {
            &&& full_catalog_of(settings, source).item_upserts == isolated_items_of(
                settings.instance,
                second_revision(settings),
            )
            &&& incremental_catalog_of(settings, source) == isolated_increment_of(settings.instance)
        },
        settings.scenario_id != FLAT_CATALOG_REVISIONS@ && settings.scenario_id != DUAL_CONNECTION_ISOLATION@
            && settings.scenario_id != EDITION_HIERARCHY@ ==> {
            &&& full_catalog_of(settings, source).item_upserts == full_catalog_of(
                FixtureSettingsView { revision: "v1"@, ..settings },
                source,
            ).item_upserts
            &&& incremental_catalog_of(settings, source).item_upserts == Seq::<ProviderItemView>::empty()
            &&& incremental_catalog_of(settings, source).item_deletes == Seq::<KeyView>::empty()
        },
{
    reveal(full_catalog_of);
    reveal(full_items_of);
    reveal(incremental_catalog_of);
    reveal_strlit("hierarchical-catalog-assets-v1");
    reveal_strlit("empty-targeted-receiver-v1");
    reveal_strlit("edition-hierarchy-v1");
    reveal_strlit("flat-catalog-revisions-v1");
    reveal_strlit("adversarial-v1");
    reveal_strlit("dual-connection-isolation-v1");
    assert(FLAT_CATALOG_REVISIONS@.len() != ADVERSARIAL@.len());
    assert(FLAT_CATALOG_REVISIONS@.len() != DUAL_CONNECTION_ISOLATION@.len());
    assert(FLAT_CATALOG_REVISIONS@.len() != EMPTY_TARGETED_RECEIVER@.len());
    assert(FLAT_CATALOG_REVISIONS@.len() != EDITION_HIERARCHY@.len());
    assert(DUAL_CONNECTION_ISOLATION@.len() != ADVERSARIAL@.len());
    assert(DUAL_CONNECTION_ISOLATION@.len() != EMPTY_TARGETED_RECEIVER@.len());
    assert(DUAL_CONNECTION_ISOLATION@.len() != EDITION_HIERARCHY@.len());
}

/// Reading a source's full catalog at the second revision gives what reading
/// it in full at the first revision and then applying the incremental batch
/// of the second revision gives: every scenario whose sources read
/// incrementally keeps its full and incremental reads in step. (The edition
/// hierarchy is read in full only, and its second revision adds an item that
/// no increment carries.)
pub proof fn lemma_full_catalog_applies_increment(
    first: FixtureSettingsView,
    second: FixtureSettingsView,
    source: Seq<char>,
)
    requires
        first.scenario_id != EDITION_HIERARCHY@,
        first.revision == "v1"@,
        second == (FixtureSettingsView { revision: "v2"@, ..first }),
    ensures
        full_catalog_of(second, source).item_upserts == items_after_batch(
            full_catalog_of(first, source).item_upserts,
            incremental_catalog_of(second, source),
        ),
{
    reveal_strlit("v1");
    reveal_strlit("v2");
    assert(!second_revision(first)) by {
        assert("v1"@[1] != "v2"@[1]);
    }
    assert(second_revision(second));
    if first.scenario_id == HIERARCHICAL_CATALOG_ASSETS@ {
        lemma_hierarchical_full_catalog_applies_increment(first, second, source);
    } else {
        lemma_revised_batches(first, source);
        lemma_revised_batches(second, source);
        if first.scenario_id == FLAT_CATALOG_REVISIONS@ {
            lemma_flat_catalog_applies_increment();
        } else if first.scenario_id == DUAL_CONNECTION_ISOLATION@ {
            lemma_isolated_catalog_applies_increment(first.instance);
        } else {
            assert(first == (FixtureSettingsView { revision: "v1"@, ..second }));
            let items = full_catalog_of(first, source).item_upserts;
            lemma_nothing_deleted(items);
            assert(incremental_catalog_of(second, source).item_deletes == Seq::<KeyView>::empty());
        }
    }
}

/// Every observation of a state read carries the revision of its stream,
/// which is the first revision or the one the settings name, and the time of
/// that revision; a read that completes names the same revision as its
/// evidence.
pub proof fn lemma_state_observations_carry_revision(
    settings: FixtureSettingsView,
    source_key: KeyView,
    mode: ReadMode,
    prior_cursor: Seq<u8>,
    events: Seq<ReadStateResponseView>,
)
    requires
        settings.fault != "read.stale-cursor"@,
        state_events_of(settings, source_key, mode, prior_cursor) == Ok::<Seq<ReadStateResponseView>, ScenarioErrorView>(
            events,
        ),
    ensures
        text_key_of(source_key) is Ok,
        ({
            let source = text_key_of(source_key)->Ok_0;
            let revision = effective_revision_of(settings, source, "state"@);
            let stamp = encode_utf8(cursor_text(settings.scenario_id, source, "state"@, revision));
            &&& revision == "v1"@ || revision == settings.revision
            &&& events.len() == 2
            &&& match events[0].event {
                Some(StateEventView::Batch(batch)) => forall|i: int|
                    0 <= i < batch.observations.len() ==> (#[trigger] batch.observations[i]).provider_revision == stamp
                        && batch.observations[i].observed_time_milliseconds == observed_at_of(revision),
                _ => false,
            }
            &&& match events[1].event {
                Some(StateEventView::Completed(completed)) => completed.evidence_revision == stamp
                    && completed.observed_time_milliseconds == observed_at_of(revision),
                _ => true,
            }
        }),
{
}

} // verus!
