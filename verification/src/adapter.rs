//! The decisions of the Plex adapter: what it advertises, how it pages
//! through a library, how it reports failures, and which Plex requests a
//! state write becomes.
use vstd::prelude::*;
use vstd::utf8::*;

use crate::client::PlexError;
use crate::mapping::{
    catalog_relation, catalog_relation_of, key_view, progress_field, progress_field_view,
    provider_item, provider_item_of, rating_field, rating_field_view, state_fields,
    state_field_descriptors, state_observations, state_observations_of, term, term_view,
    watched_field, watched_field_view, item_policy, item_policy_of, SectionPolicy, MEDIA_NAMESPACE,
};
use crate::model::{LibrarySection, LibrarySectionView, MediaItem, MediaItemView, ServerInfo, ServerInfoView};
use crate::sdk::{
    push_item, AssetCapability, AssetCapabilityView, CatalogBatch, CatalogBatchView,
    CatalogRelation, ConfigurationField, ConfigurationFieldView, ConfigurationValueKind,
    OperationFailure, OperationFailureCategory, OperationFailureView, ProviderItem, ReadCapability,
    ReadCapabilityView, ReadMode, RetryAdvice, RetryAdviceView, RetryDisposition,
    SourceAvailability, SourceCapabilities, SourceCapabilitiesView, SourceSnapshot,
    SourceSnapshotView, StateBatch, StateBatchView, StateObservation, StateObservationView,
    TargetedStateFieldWriteCapability, TargetedStateFieldWriteCapabilityView,
    TargetedStateReadCapability, TargetedStateReadCapabilityView, TargetedStateWriteCapability,
    TargetedStateWriteCapabilityView, TargetedStateWriteIdempotencyMode,
    TargetedStateWritePreconditionMode,
};
use crate::sdk::{
    ConfigurationValue, ConfigurationValueView, FieldProblem, FieldProblemView, SecretValue,
    SecretValueView, Value, ValueKind, ValueKindView, ValueView,
};
use crate::hashing::{sha256, sha256_digest};
use crate::mapping::{
    field_value_of, parsed_key, provider_revision, provider_revision_text, same_state_field,
    value_for_field,
};
use crate::sdk::{
    AccountSnapshot, AccountSnapshotView, AuthenticationMethod, AuthenticationMethodView,
    AuthenticationProgress, AuthenticationProgressView, AuthenticationPrompt,
    AuthenticationPromptView, AuthenticationStatus, ContentHash, ContentHashView,
    LookupCandidate, LookupCandidateView, LookupEvidence, LookupEvidenceView, LookupOutcome,
    LookupOutcomeView, PortableReference, PortableReferenceView, ReadAssetResponse,
    ReadAssetResponseView, ReadAssetResult, ReadAssetResultView, AssetOutcome, AssetOutcomeView,
    ReadTargetedStateResponse, ReadTargetedStateResponseView, SecretPatch, SecretPatchView,
    SourceMembership, StateField, StateFieldView, StatePresence, Subject, SubjectReference,
    SubjectView, SubjectReferenceView, TargetedReadOutcome, TargetedReadOutcomeView,
    TargetedStateFieldEffectKind, TargetedStateFieldObservation,
    TargetedStateFieldObservationView, TargetedStateReadMatched, TargetedStateReadMatchedView,
    TargetedStateWriteCertainty, TargetedStateWriteFieldEffect, TargetedStateWriteFieldEffectView,
    TargetedStateWriteIntent, TargetedStateWriteIntentView, TargetedStateWriteRetryDisposition,
    TargetedStateWriteStatus, TargetedStateMembershipEffect, WriteOperation, WriteOperationView,
    WriteTargetedStateRequest, WriteTargetedStateRequestView, WriteTargetedStateResponse,
    WriteTargetedStateResponseView, Key, KeyView, copy_bytes,
};
use crate::service::{ServiceError, ServiceErrorCode};
use crate::text::{
    join3, text_chars, unsigned_decimal, decimal_text, has_prefix, join2, owned, same_text, signed_decimal, text_from_utf8, utf8_bytes,
};

verus! {

pub const ADAPTER_KEY: &'static str = "dev.trakkin.plex";
pub const PLEX_TV_URL: &'static str = "https://plex.tv";
pub const PLEX_LIBRARY_IDENTIFIER: &'static str = "com.plexapp.plugins.library";
pub const MAX_PAGE_SIZE: usize = 1000;
pub const MAX_ASSET_BYTES: u64 = 16777216;
pub const MAX_LOOKUP_BATCH: usize = 50;
pub const MAX_TARGETED_BYTES: u64 = 65536;
pub const MAX_RECEIPT_BYTES: u64 = 1024;
pub const ASSET_CONTENT_TYPES: [&'static str; 4] = ["image/jpeg", "image/png", "image/webp", "image/gif"];

// ---------------------------------------------------------------------------
// What the adapter advertises
// ---------------------------------------------------------------------------

/// The identifier that the adapter presents to Plex for a process.
pub open spec fn client_identifier_of(process_instance_id: Seq<char>) -> Seq<char> {
    "trakkin-"@ + process_instance_id
}

/// The identifier that the adapter presents to Plex for a process.
pub fn client_identifier(process_instance_id: &str) -> (r: String)
    ensures
        r@ == client_identifier_of(process_instance_id@),
{
    join2("trakkin-", process_instance_id)
}

/// The connection fields: the server URL alone, required text. The token is
/// no field to fill in: authentication provides it.
pub open spec fn configuration_fields_of() -> Seq<ConfigurationFieldView> {
    seq![
        ConfigurationFieldView {
            key: "server_url"@,
            display_name: "Plex server URL"@,
            value_kind: ConfigurationValueKind::Text,
            required: true,
            secret: false,
            placeholder: "http://localhost:32400"@,
            options: seq![],
        },
    ]
}

/// The connection fields.
pub fn configuration_fields() -> (r: Vec<ConfigurationField>)
    ensures
        r.deep_view() == configuration_fields_of(),
{
    let mut fields: Vec<ConfigurationField> = Vec::new();
    push_item(
        &mut fields,
        ConfigurationField {
            key: owned("server_url"),
            display_name: owned("Plex server URL"),
            value_kind: ConfigurationValueKind::Text,
            required: true,
            secret: false,
            placeholder: owned("http://localhost:32400"),
            options: Vec::new(),
        },
    );
    assert(fields.deep_view() =~= configuration_fields_of()) by {
        assert(fields.deep_view()[0].options =~= seq![]);
    }
    fields
}

pub open spec fn targeted_read_capability_of() -> TargetedStateReadCapabilityView {
    TargetedStateReadCapabilityView { maximum_fields: 3, maximum_response_bytes: MAX_TARGETED_BYTES }
}

/// Targeted reads of up to three fields.
pub fn targeted_read_capability() -> (r: TargetedStateReadCapability)
    ensures
        r@ == targeted_read_capability_of(),
{
    TargetedStateReadCapability { maximum_fields: 3, maximum_response_bytes: MAX_TARGETED_BYTES }
}

/// Targeted writes: watched and rating may be set, progress set or cleared;
/// no membership is created, preconditions are rechecked by the host, and
/// writes are keyed by a stable idempotency key.
pub open spec fn targeted_write_capability_of() -> TargetedStateWriteCapabilityView {
    TargetedStateWriteCapabilityView {
        fields: seq![
            TargetedStateFieldWriteCapabilityView {
                field: Some(watched_field_view()),
                set_supported: true,
                clear_supported: false,
            },
            TargetedStateFieldWriteCapabilityView {
                field: Some(progress_field_view()),
                set_supported: true,
                clear_supported: true,
            },
            TargetedStateFieldWriteCapabilityView {
                field: Some(rating_field_view()),
                set_supported: true,
                clear_supported: false,
            },
        ],
        may_create_source_membership: false,
        precondition_mode: TargetedStateWritePreconditionMode::HostRecheckOnly,
        idempotency_mode: TargetedStateWriteIdempotencyMode::StableKey,
        maximum_fields: 3,
        maximum_request_bytes: MAX_TARGETED_BYTES,
        maximum_response_bytes: MAX_TARGETED_BYTES,
        maximum_receipt_bytes: MAX_RECEIPT_BYTES,
    }
}

/// The targeted write capability.
pub fn targeted_write_capability() -> (r: TargetedStateWriteCapability)
    ensures
        r@ == targeted_write_capability_of(),
{
    let mut fields: Vec<TargetedStateFieldWriteCapability> = Vec::new();
    push_item(
        &mut fields,
        TargetedStateFieldWriteCapability { field: Some(watched_field()), set_supported: true, clear_supported: false },
    );
    push_item(
        &mut fields,
        TargetedStateFieldWriteCapability { field: Some(progress_field()), set_supported: true, clear_supported: true },
    );
    push_item(
        &mut fields,
        TargetedStateFieldWriteCapability { field: Some(rating_field()), set_supported: true, clear_supported: false },
    );
    assert(fields.deep_view() =~= targeted_write_capability_of().fields);
    TargetedStateWriteCapability {
        fields,
        may_create_source_membership: false,
        precondition_mode: TargetedStateWritePreconditionMode::HostRecheckOnly,
        idempotency_mode: TargetedStateWriteIdempotencyMode::StableKey,
        maximum_fields: 3,
        maximum_request_bytes: MAX_TARGETED_BYTES,
        maximum_response_bytes: MAX_TARGETED_BYTES,
        maximum_receipt_bytes: MAX_RECEIPT_BYTES,
    }
}

/// The accepted artwork content types.
pub open spec fn asset_content_types_of() -> Seq<Seq<char>> {
    seq!["image/jpeg"@, "image/png"@, "image/webp"@, "image/gif"@]
}

/// The accepted artwork content types.
pub fn asset_content_types() -> (r: Vec<String>)
    ensures
        r.deep_view() == asset_content_types_of(),
{
    let mut types: Vec<String> = Vec::new();
    push_item(&mut types, owned("image/jpeg"));
    push_item(&mut types, owned("image/png"));
    push_item(&mut types, owned("image/webp"));
    push_item(&mut types, owned("image/gif"));
    assert(types.deep_view() =~= asset_content_types_of());
    types
}

/// What every Plex library source can do: full catalog and state reads, the
/// Plex state fields, artwork up to the size limit, targeted reads and writes.
pub open spec fn source_capabilities_of() -> SourceCapabilitiesView {
    SourceCapabilitiesView {
        catalog: Some(ReadCapabilityView { full: true, incremental: false }),
        state: Some(ReadCapabilityView { full: true, incremental: false }),
        state_fields: state_field_descriptors(),
        assets: Some(AssetCapabilityView { maximum_bytes: MAX_ASSET_BYTES, content_types: asset_content_types_of() }),
        coordinates: None,
        targeted_state_read: Some(targeted_read_capability_of()),
        targeted_state_write: Some(targeted_write_capability_of()),
    }
}

/// The capabilities of a Plex library source.
pub fn source_capabilities() -> (r: SourceCapabilities)
    ensures
        r@ == source_capabilities_of(),
{
    SourceCapabilities {
        catalog: Some(ReadCapability { full: true, incremental: false }),
        state: Some(ReadCapability { full: true, incremental: false }),
        state_fields: state_fields(),
        assets: Some(AssetCapability { maximum_bytes: MAX_ASSET_BYTES, content_types: asset_content_types() }),
        coordinates: None,
        targeted_state_read: Some(targeted_read_capability()),
        targeted_state_write: Some(targeted_write_capability()),
    }
}

/// The source that a library section of a server stands for.
pub open spec fn source_snapshot_of(server: ServerInfoView, section: LibrarySectionView) -> SourceSnapshotView {
    SourceSnapshotView {
        key: Some(key_view("library:"@ + section.key)),
        account_key: Some(key_view("account:"@ + server.machine_identifier)),
        display_name: section.title,
        kind: Some(term_view(MEDIA_NAMESPACE@, section.media_type)),
        availability: SourceAvailability::Available,
        capabilities: Some(source_capabilities_of()),
    }
}

/// The source that a library section of a server stands for.
pub fn source_snapshot(server: &ServerInfo, section: LibrarySection) -> (r: SourceSnapshot)
    ensures
        r@ == source_snapshot_of(server@, section@),
{
    SourceSnapshot {
        key: Some(crate::mapping::source_key(section.key.as_str())),
        account_key: Some(crate::mapping::account_key(server.machine_identifier.as_str())),
        display_name: section.title,
        kind: Some(term(MEDIA_NAMESPACE, section.media_type.as_str())),
        availability: SourceAvailability::Available,
        capabilities: Some(source_capabilities()),
    }
}

/// The revision of a source: the server's machine identifier, version and
/// update time, and the section's update time, separated by colons.
pub open spec fn source_revision_text(server: ServerInfoView, section: LibrarySectionView) -> Seq<char> {
    server.machine_identifier + ":"@ + server.version + ":"@ + decimal_text(server.updated_at as int)
        + ":"@ + decimal_text(section.updated_at as int)
}

/// The revision of a source, as UTF-8 bytes.
pub fn source_revision(server: &ServerInfo, section: &LibrarySection) -> (r: Vec<u8>)
    ensures
        r@ == encode_utf8(source_revision_text(server@, section@)),
{
    let mut text = server.machine_identifier.clone();
    text.append(":");
    text.append(server.version.as_str());
    text.append(":");
    text.append(signed_decimal(server.updated_at).as_str());
    text.append(":");
    text.append(signed_decimal(section.updated_at).as_str());
    utf8_bytes(text.as_str())
}

// ---------------------------------------------------------------------------
// Reading a library page by page
// ---------------------------------------------------------------------------

/// The paths and Plex item types that a section's catalog is read from: a
/// show section's shows, seasons and episodes; an artist section's artists,
/// albums and tracks; any other section's items in one pass.
pub open spec fn catalog_paths_of(section: LibrarySectionView) -> Seq<(Seq<char>, Option<Seq<char>>)> {
    let path = "/library/sections/"@ + section.key + "/all"@;
    if section.media_type == "show"@ {
        seq![(path, Some("2"@)), (path, Some("3"@)), (path, Some("4"@))]
    } else if section.media_type == "artist"@ {
        seq![(path, Some("8"@)), (path, Some("9"@)), (path, Some("10"@))]
    } else {
        seq![(path, None)]
    }
}

/// The paths and Plex item types that a section's catalog is read from.
pub fn catalog_paths(section: &LibrarySection) -> (r: Vec<(String, Option<&'static str>)>)
    ensures
        r.deep_view() == catalog_paths_of(section@),
{
    let mut path = owned("/library/sections/");
    path.append(section.key.as_str());
    path.append("/all");
    let mut paths: Vec<(String, Option<&'static str>)> = Vec::new();
    if crate::text::same_text(section.media_type.as_str(), "show") {
        push_item(&mut paths, (path.clone(), Some("2")));
        push_item(&mut paths, (path.clone(), Some("3")));
        push_item(&mut paths, (path, Some("4")));
    } else if crate::text::same_text(section.media_type.as_str(), "artist") {
        push_item(&mut paths, (path.clone(), Some("8")));
        push_item(&mut paths, (path.clone(), Some("9")));
        push_item(&mut paths, (path, Some("10")));
    } else {
        push_item(&mut paths, (path, None));
    }
    assert(paths.deep_view() =~= catalog_paths_of(section@));
    paths
}

/// The page size for a requested batch size: between one and the largest page.
pub open spec fn page_size_of(preferred_batch_size: u32) -> usize {
    if preferred_batch_size < 1 {
        1
    } else if preferred_batch_size > MAX_PAGE_SIZE {
        MAX_PAGE_SIZE
    } else {
        preferred_batch_size as usize
    }
}

/// The page size for a requested batch size.
pub fn page_size(preferred_batch_size: u32) -> (r: usize)
    ensures
        r == page_size_of(preferred_batch_size),
        1 <= r <= MAX_PAGE_SIZE,
{
    if preferred_batch_size < 1 {
        1
    } else if preferred_batch_size as usize > MAX_PAGE_SIZE {
        MAX_PAGE_SIZE
    } else {
        preferred_batch_size as usize
    }
}

/// What follows a page of a paged read.
#[derive(Clone, Copy, Debug, PartialEq, Eq, Structural)]
pub enum PageStep {
    /// The path has no more pages.
    Finished,
    /// The next page starts at this position.
    Next(usize),
    /// The page does not advance past its start: the reply is refused.
    NotAdvancing,
}

/// What follows a page that started at `start` and returned `returned` items
/// from `offset`: none follows an empty page, a page that reaches the total, or
/// (without a total) a short page; a page that ends at or before its start is
/// refused; else the next page starts where this one ends.
pub open spec fn page_step_of(start: usize, page_size: usize, offset: usize, returned: usize, total_size: Option<usize>) -> PageStep {
    let next = if offset + returned > usize::MAX { usize::MAX } else { (offset + returned) as usize };
    if returned == 0 {
        PageStep::Finished
    } else if total_size matches Some(total) && next >= total {
        PageStep::Finished
    } else if next <= start {
        PageStep::NotAdvancing
    } else if total_size is None && returned < page_size {
        PageStep::Finished
    } else {
        PageStep::Next(next)
    }
}

/// What follows a page of a paged read.
pub fn page_step(start: usize, page_size: usize, offset: usize, returned: usize, total_size: Option<usize>) -> (r: PageStep)
    ensures
        r == page_step_of(start, page_size, offset, returned, total_size),
{
    let next = match offset.checked_add(returned) {
        Some(next) => next,
        None => usize::MAX,
    };
    if returned == 0 {
        PageStep::Finished
    } else if total_size.is_some() && next >= total_size.unwrap() {
        PageStep::Finished
    } else if next <= start {
        PageStep::NotAdvancing
    } else if total_size.is_none() && returned < page_size {
        PageStep::Finished
    } else {
        PageStep::Next(next)
    }
}

/// Law: a paged read only ever moves forward, so it ends.
pub proof fn lemma_pages_advance(start: usize, page_size: usize, offset: usize, returned: usize, total_size: Option<usize>)
    ensures
        page_step_of(start, page_size, offset, returned, total_size) matches PageStep::Next(next) ==> next > start,
{
}

/// Whether a read asks for a full read, the only mode Plex serves.
pub fn is_full_read(mode: ReadMode) -> (r: bool)
    ensures
        r == (mode == ReadMode::Full),
{
    mode == ReadMode::Full
}

/// The catalog batch of one page: a provider item and a relation for each
/// item, the relation ordered by the item's position in the whole read.
pub open spec fn catalog_batch_of(sequence: u64, items: Seq<MediaItemView>, start: usize, section: SectionPolicy) -> CatalogBatchView {
    CatalogBatchView {
        sequence,
        item_upserts: Seq::new(
            items.len(),
            |i: int| provider_item_of(items[i], item_policy_of(section, items[i].show_ordering)),
        ),
        item_deletes: seq![],
        relation_upserts: Seq::new(
            items.len(),
            |i: int| catalog_relation_of(items[i], (start + i) as usize),
        ),
        relation_deletes: seq![],
        coordinate_binding_upserts: seq![],
    }
}

/// The catalog batch of one page.
pub fn catalog_batch(sequence: u64, items: &Vec<MediaItem>, start: usize, section: SectionPolicy) -> (r: CatalogBatch)
    requires
        start + items.len() <= usize::MAX,
    ensures
        r@ == catalog_batch_of(sequence, items.deep_view(), start, section),
{
    let mut item_upserts: Vec<ProviderItem> = Vec::new();
    let mut relation_upserts: Vec<CatalogRelation> = Vec::new();
    let mut i: usize = 0;
    while i < items.len()
        invariant
            i <= items.len(),
            start + items.len() <= usize::MAX,
            item_upserts.deep_view() =~= Seq::new(
                i as nat,
                |k: int| provider_item_of(items.deep_view()[k], item_policy_of(section, items.deep_view()[k].show_ordering)),
            ),
            relation_upserts.deep_view() =~= Seq::new(
                i as nat,
                |k: int| catalog_relation_of(items.deep_view()[k], (start + k) as usize),
            ),
        decreases items.len() - i,
    {
        push_item(&mut item_upserts, provider_item(&items[i], item_policy(section, &items[i])));
        push_item(&mut relation_upserts, catalog_relation(&items[i], start + i));
        i = i + 1;
        assert(item_upserts.deep_view() =~= Seq::new(
            i as nat,
            |k: int| provider_item_of(items.deep_view()[k], item_policy_of(section, items.deep_view()[k].show_ordering)),
        ));
        assert(relation_upserts.deep_view() =~= Seq::new(
            i as nat,
            |k: int| catalog_relation_of(items.deep_view()[k], (start + k) as usize),
        ));
    }
    let r = CatalogBatch {
        sequence,
        item_upserts,
        item_deletes: Vec::new(),
        relation_upserts,
        relation_deletes: Vec::new(),
        coordinate_binding_upserts: Vec::new(),
    };
    assert(r@ =~= catalog_batch_of(sequence, items.deep_view(), start, section)) by {
        assert(r@.item_deletes =~= seq![]);
        assert(r@.relation_deletes =~= seq![]);
        assert(r@.coordinate_binding_upserts =~= seq![]);
    }
    r
}

/// The observations of every item of a page, in order.
pub open spec fn page_observations(items: Seq<MediaItemView>, observed_at: i64) -> Seq<StateObservationView>
    decreases items.len(),
{
    if items.len() == 0 {
        seq![]
    } else {
        page_observations(items.drop_last(), observed_at) + state_observations_of(items.last(), observed_at)
    }
}

/// The state batch of one page: the observations of every item.
pub fn state_batch(sequence: u64, items: &Vec<MediaItem>, observed_at: i64) -> (r: StateBatch)
    ensures
        r@ == (StateBatchView { sequence, observations: page_observations(items.deep_view(), observed_at) }),
{
    let mut observations: Vec<StateObservation> = Vec::new();
    let mut i: usize = 0;
    while i < items.len()
        invariant
            i <= items.len(),
            observations.deep_view() == page_observations(items.deep_view().take(i as int), observed_at),
        decreases items.len() - i,
    {
        let ghost taken = items.deep_view().take(i as int + 1);
        assert(taken.drop_last() =~= items.deep_view().take(i as int));
        let ghost before = observations.deep_view();
        let found = state_observations(&items[i], observed_at);
        let mut k: usize = 0;
        while k < found.len()
            invariant
                k <= found.len(),
                observations.deep_view() =~= before + found.deep_view().take(k as int),
            decreases found.len() - k,
        {
            push_item(&mut observations, found[k].duplicate());
            k = k + 1;
            assert(observations.deep_view() =~= before + found.deep_view().take(k as int));
        }
        assert(found.deep_view().take(found.len() as int) =~= found.deep_view());
        i = i + 1;
    }
    assert(items.deep_view().take(items.len() as int) =~= items.deep_view());
    StateBatch { sequence, observations }
}

// ---------------------------------------------------------------------------
// Failures
// ---------------------------------------------------------------------------

/// The category of a failed Plex request and whether retrying may help:
/// rejected credentials and denied access are final, rate limits and server
/// errors retryable, a bad server URL or an oversized asset invalid input,
/// other statuses invalid remote data, and no status at all unavailability.
pub open spec fn failure_class_of(error: PlexError) -> (OperationFailureCategory, bool) {
    match error.status_of() {
        Some(401) => (OperationFailureCategory::Authentication, false),
        Some(403) => (OperationFailureCategory::Authorization, false),
        Some(429) => (OperationFailureCategory::RateLimited, true),
        Some(status) => if 500 <= status && status <= 599 {
            (OperationFailureCategory::Unavailable, true)
        } else if error == PlexError::InvalidBaseUrl || error == PlexError::AssetTooLarge {
            (OperationFailureCategory::InvalidInput, false)
        } else {
            (OperationFailureCategory::InvalidRemoteData, false)
        },
        None => if error == PlexError::InvalidBaseUrl || error == PlexError::AssetTooLarge {
            (OperationFailureCategory::InvalidInput, false)
        } else {
            (OperationFailureCategory::Unavailable, true)
        },
    }
}

/// The category of a failed Plex request and whether retrying may help.
pub fn failure_class(error: &PlexError) -> (r: (OperationFailureCategory, bool))
    ensures
        r == failure_class_of(*error),
{
    let is_input = match error {
        PlexError::InvalidBaseUrl | PlexError::AssetTooLarge => true,
        _ => false,
    };
    match error.status() {
        Some(401) => (OperationFailureCategory::Authentication, false),
        Some(403) => (OperationFailureCategory::Authorization, false),
        Some(429) => (OperationFailureCategory::RateLimited, true),
        Some(status) => if 500 <= status && status <= 599 {
            (OperationFailureCategory::Unavailable, true)
        } else if is_input {
            (OperationFailureCategory::InvalidInput, false)
        } else {
            (OperationFailureCategory::InvalidRemoteData, false)
        },
        None => if is_input {
            (OperationFailureCategory::InvalidInput, false)
        } else {
            (OperationFailureCategory::Unavailable, true)
        },
    }
}

/// A lowercase hexadecimal digit.
pub open spec fn lower_hex_digit(c: char) -> bool {
    ('0' <= c && c <= '9') || ('a' <= c && c <= 'f')
}

/// The text of a random (version 4) UUID in lowercase hyphenated form:
/// 36 characters, hyphens at positions 8, 13, 18 and 23, lowercase
/// hexadecimal digits elsewhere, the version digit `4` at position 14 and a
/// variant digit `8`, `9`, `a` or `b` at position 19.
pub open spec fn is_uuid_v4_text(s: Seq<char>) -> bool {
    &&& s.len() == 36
    &&& forall|i: int| 0 <= i < 36 ==> if i == 8 || i == 13 || i == 18 || i == 23 {
        #[trigger] s[i] == '-'
    } else {
        lower_hex_digit(s[i])
    }
    &&& s[14] == '4'
    &&& (s[19] == '8' || s[19] == '9' || s[19] == 'a' || s[19] == 'b')
}

/// A fresh random UUID (`Uuid::new_v4`, which sets the version and variant
/// bits) in its lowercase hyphenated form (its `Display`).
#[verifier::external_body]
pub(crate) fn random_uuid() -> (r: String)
    ensures
        is_uuid_v4_text(r@),
{
    uuid::Uuid::new_v4().to_string()
}

/// The retry advice for a failure.
pub open spec fn retry_advice_of(retryable: bool) -> RetryAdviceView {
    RetryAdviceView {
        disposition: if retryable {
            RetryDisposition::Retryable
        } else {
            RetryDisposition::NotRetryable
        },
    }
}

/// A failure of this category, code and message; its diagnostic identifier is
/// `plex:` and a random UUID in lowercase hyphenated form.
pub open spec fn is_plex_failure(failure: OperationFailureView, category: OperationFailureCategory, code: Seq<char>, safe_message: Seq<char>, retryable: bool) -> bool {
    &&& failure.category == category
    &&& failure.code == code
    &&& failure.safe_message == safe_message
    &&& failure.retry == Some(retry_advice_of(retryable))
    &&& has_prefix(failure.diagnostic_id, "plex:"@)
    &&& failure.diagnostic_id.len() == 41
    &&& is_uuid_v4_text(failure.diagnostic_id.skip(5))
    &&& failure.field_problems.len() == 0
}

/// A failure of this category, code and message.
pub fn operation_failure(category: OperationFailureCategory, code: &str, safe_message: &str, retryable: bool) -> (r: OperationFailure)
    ensures
        is_plex_failure(r@, category, code@, safe_message@, retryable),
{
    let uuid = random_uuid();
    let diagnostic_id = join2("plex:", uuid.as_str());
    proof {
        reveal_strlit("plex:");
        assert(diagnostic_id@.take(5) =~= "plex:"@);
        assert(diagnostic_id@.skip(5) =~= uuid@);
    }
    OperationFailure {
        category,
        code: owned(code),
        safe_message: owned(safe_message),
        retry: Some(
            RetryAdvice {
                disposition: if retryable {
                    RetryDisposition::Retryable
                } else {
                    RetryDisposition::NotRetryable
                },
            },
        ),
        diagnostic_id,
        field_problems: Vec::new(),
    }
}

/// The failure of a Plex request, classified by `failure_class`.
pub fn plex_failure(error: &PlexError, code: &str, safe_message: &str) -> (r: OperationFailure)
    ensures
        is_plex_failure(r@, failure_class_of(*error).0, code@, safe_message@, failure_class_of(*error).1),
{
    let (category, retryable) = failure_class(error);
    operation_failure(category, code, safe_message, retryable)
}

/// The failure of a read mode that Plex does not serve.
pub fn unsupported_failure(code: &str) -> (r: OperationFailure)
    ensures
        is_plex_failure(
            r@,
            OperationFailureCategory::Unsupported,
            code@,
            "Plex does not support incremental reads for this source."@,
            false,
        ),
{
    operation_failure(
        OperationFailureCategory::Unsupported,
        code,
        "Plex does not support incremental reads for this source.",
        false,
    )
}

/// The failure of a read whose pages do not advance.
pub fn pagination_failure(code: &str) -> (r: OperationFailure)
    ensures
        is_plex_failure(
            r@,
            OperationFailureCategory::InvalidRemoteData,
            code@,
            "Plex returned a page that does not advance the read."@,
            false,
        ),
{
    operation_failure(
        OperationFailureCategory::InvalidRemoteData,
        code,
        "Plex returned a page that does not advance the read.",
        false,
    )
}

/// The failure of opening a connection to a server: rejected credentials,
/// denied access, an unreadable reply and an unreachable server each have
/// their own code; other failures are classified as any Plex failure.
pub open spec fn connection_failure_holds(error: PlexError, failure: OperationFailureView) -> bool {
    if error.status_of() == Some(401u16) {
        is_plex_failure(
            failure,
            OperationFailureCategory::Authentication,
            "connection_authentication_failed"@,
            "The Plex server rejected the authentication token. Connect again to reauthenticate."@,
            false,
        )
    } else if error.status_of() == Some(403u16) {
        is_plex_failure(
            failure,
            OperationFailureCategory::Authorization,
            "connection_authorization_failed"@,
            "The Plex server denied access for the authenticated account."@,
            false,
        )
    } else if error == PlexError::InvalidResponse {
        is_plex_failure(
            failure,
            OperationFailureCategory::InvalidRemoteData,
            "connection_invalid_response"@,
            "The Plex server returned an invalid response."@,
            false,
        )
    } else if error == PlexError::Transport(None) {
        is_plex_failure(
            failure,
            OperationFailureCategory::Unavailable,
            "connection_unavailable"@,
            "The Plex server could not be reached."@,
            true,
        )
    } else {
        is_plex_failure(
            failure,
            failure_class_of(error).0,
            "connection_failed"@,
            "The Plex server could not be reached or authenticated."@,
            failure_class_of(error).1,
        )
    }
}

/// The failure of opening a connection to a server.
pub fn connection_failure(error: &PlexError) -> (r: OperationFailure)
    ensures
        connection_failure_holds(*error, r@),
{
    let status = error.status();
    if status == Some(401u16) {
        operation_failure(
            OperationFailureCategory::Authentication,
            "connection_authentication_failed",
            "The Plex server rejected the authentication token. Connect again to reauthenticate.",
            false,
        )
    } else if status == Some(403u16) {
        operation_failure(
            OperationFailureCategory::Authorization,
            "connection_authorization_failed",
            "The Plex server denied access for the authenticated account.",
            false,
        )
    } else if matches!(error, PlexError::InvalidResponse) {
        operation_failure(
            OperationFailureCategory::InvalidRemoteData,
            "connection_invalid_response",
            "The Plex server returned an invalid response.",
            false,
        )
    } else if matches!(error, PlexError::Transport(None)) {
        operation_failure(
            OperationFailureCategory::Unavailable,
            "connection_unavailable",
            "The Plex server could not be reached.",
            true,
        )
    } else {
        plex_failure(error, "connection_failed", "The Plex server could not be reached or authenticated.")
    }
}

// ---------------------------------------------------------------------------
// Connection settings
// ---------------------------------------------------------------------------

/// How a connection proves its access to the server.
#[derive(Clone, Debug, PartialEq, Eq)]
pub enum ServerCredential {
    /// A token for the server itself.
    Token(String),
    /// A Plex account's token, to be exchanged for the server's own token
    /// among the account's resources, with the client identifier that the
    /// account signed in with when it is known.
    Account { account_token: String, client_identifier: Option<String> },
}

pub enum ServerCredentialView {
    Token(Seq<char>),
    Account { account_token: Seq<char>, client_identifier: Option<Seq<char>> },
}

impl View for ServerCredential {
    type V = ServerCredentialView;

    open spec fn view(&self) -> ServerCredentialView {
        match self {
            ServerCredential::Token(token) => ServerCredentialView::Token(token@),
            ServerCredential::Account { account_token, client_identifier } => ServerCredentialView::Account {
                account_token: account_token@,
                client_identifier: client_identifier.deep_view(),
            },
        }
    }
}

/// The settings of a Plex connection.
#[derive(Clone, Debug, PartialEq, Eq)]
pub struct PlexSettings {
    pub server_url: String,
    pub credential: ServerCredential,
}

pub struct PlexSettingsView {
    pub server_url: Seq<char>,
    pub credential: ServerCredentialView,
}

impl View for PlexSettings {
    type V = PlexSettingsView;

    open spec fn view(&self) -> PlexSettingsView {
        PlexSettingsView { server_url: self.server_url@, credential: self.credential@ }
    }
}

/// A problem with a connection field.
pub open spec fn field_problem_of(path: Seq<char>, code: Seq<char>, message: Seq<char>) -> FieldProblemView {
    FieldProblemView { path, code, message }
}

fn field_problem(path: &str, code: &str, message: &str) -> (r: FieldProblem)
    ensures
        r@ == field_problem_of(path@, code@, message@),
{
    FieldProblem { path: owned(path), code: owned(code), message: owned(message) }
}

/// The text that a configuration value holds, if it holds text.
pub open spec fn text_of(value: Option<ValueView>) -> Option<Seq<char>> {
    match value {
        Some(v) => match v.value {
            Some(ValueKindView::Text(t)) => Some(t),
            _ => None,
        },
        None => None,
    }
}

/// The text that a configuration value holds, if it holds text.
pub fn text(value: &Option<Value>) -> (r: Option<&str>)
    ensures
        r.deep_view() == text_of(value.deep_view()),
{
    match value {
        Some(v) => match &v.value {
            Some(ValueKind::Text(t)) => Some(t.as_str()),
            _ => None,
        },
        None => None,
    }
}

/// The state of a scan of connection values: the problems found, the value
/// accepted, and the keys seen.
pub struct SettingsScan {
    pub problems: Seq<FieldProblemView>,
    pub accepted: Option<Seq<char>>,
    pub seen: Seq<Seq<char>>,
}

/// The scan of the plain settings: a repeated key is a duplicate; the server
/// URL must be text that names an acceptable server; any other key is
/// unknown.
pub open spec fn scan_plex_settings(settings: Seq<ConfigurationValueView>) -> SettingsScan
    decreases settings.len(),
{
    if settings.len() == 0 {
        SettingsScan { problems: seq![], accepted: None, seen: seq![] }
    } else {
        let prev = scan_plex_settings(settings.drop_last());
        let setting = settings.last();
        if prev.seen.contains(setting.key) {
            SettingsScan {
                problems: prev.problems.push(
                    field_problem_of(setting.key, "duplicate_field"@, "Field is duplicated."@),
                ),
                ..prev
            }
        } else {
            let seen = prev.seen.push(setting.key);
            if setting.key == "server_url"@ {
                match text_of(setting.value) {
                    Some(url) => if crate::client::normalized_base_url(url) is Ok {
                        SettingsScan { problems: prev.problems, accepted: Some(url), seen }
                    } else {
                        SettingsScan {
                            problems: prev.problems.push(
                                field_problem_of(
                                    "server_url"@,
                                    "invalid_url"@,
                                    "Enter an HTTP or HTTPS Plex server URL without credentials or a query."@,
                                ),
                            ),
                            accepted: prev.accepted,
                            seen,
                        }
                    },
                    None => SettingsScan {
                        problems: prev.problems.push(
                            field_problem_of("server_url"@, "invalid_type"@, "Plex server URL must be text."@),
                        ),
                        accepted: prev.accepted,
                        seen,
                    },
                }
            } else {
                SettingsScan {
                    problems: prev.problems.push(
                        field_problem_of(
                            setting.key,
                            "unknown_field"@,
                            "This connection field is not supported."@,
                        ),
                    ),
                    accepted: prev.accepted,
                    seen,
                }
            }
        }
    }
}

/// The name by which a connection secret that the adapter knows is
/// described.
pub open spec fn secret_name_of(key: Seq<char>) -> Option<Seq<char>> {
    if key == "token"@ {
        Some("Plex token"@)
    } else if key == "account_token"@ {
        Some("Plex account token"@)
    } else if key == "client_identifier"@ {
        Some("Plex client identifier"@)
    } else {
        None
    }
}

/// The state of a scan of the secrets: the problems found, the server token,
/// account token and client identifier accepted, and the keys seen.
pub struct SecretsScan {
    pub problems: Seq<FieldProblemView>,
    pub token: Option<Seq<char>>,
    pub account_token: Option<Seq<char>>,
    pub client_identifier: Option<Seq<char>>,
    pub seen: Seq<Seq<char>>,
}

/// A scan that accepts `value` for the known secret `key`.
pub open spec fn accept_secret(scan: SecretsScan, key: Seq<char>, value: Seq<char>) -> SecretsScan {
    if key == "token"@ {
        SecretsScan { token: Some(value), ..scan }
    } else if key == "account_token"@ {
        SecretsScan { account_token: Some(value), ..scan }
    } else {
        SecretsScan { client_identifier: Some(value), ..scan }
    }
}

/// The scan of the secrets: a repeated key is a duplicate; the server token,
/// the account token and the client identifier must each be non-empty UTF-8
/// text; any other key is unknown.
pub open spec fn scan_plex_secrets(secrets: Seq<SecretValueView>) -> SecretsScan
    decreases secrets.len(),
{
    if secrets.len() == 0 {
        SecretsScan { problems: seq![], token: None, account_token: None, client_identifier: None, seen: seq![] }
    } else {
        let prev = scan_plex_secrets(secrets.drop_last());
        let secret = secrets.last();
        if prev.seen.contains(secret.key) {
            SecretsScan {
                problems: prev.problems.push(
                    field_problem_of(secret.key, "duplicate_field"@, "Field is duplicated."@),
                ),
                ..prev
            }
        } else {
            let seen = prev.seen.push(secret.key);
            match secret_name_of(secret.key) {
                Some(name) => if secret.value.len() > 0 && valid_utf8(secret.value) {
                    SecretsScan { seen, ..accept_secret(prev, secret.key, decode_utf8(secret.value)) }
                } else if secret.value.len() > 0 {
                    SecretsScan {
                        problems: prev.problems.push(
                            field_problem_of(secret.key, "invalid_type"@, name + " must be UTF-8 text."@),
                        ),
                        seen,
                        ..prev
                    }
                } else {
                    SecretsScan {
                        problems: prev.problems.push(field_problem_of(secret.key, "required"@, name + " is required."@)),
                        seen,
                        ..prev
                    }
                },
                None => SecretsScan {
                    problems: prev.problems.push(
                        field_problem_of(
                            secret.key,
                            "unknown_field"@,
                            "This connection secret is not supported."@,
                        ),
                    ),
                    seen,
                    ..prev
                },
            }
        }
    }
}

/// Whether some problem concerns the field at `path`.
pub open spec fn has_problem_at(problems: Seq<FieldProblemView>, path: Seq<char>) -> bool {
    exists|i: int| 0 <= i < problems.len() && problems[i].path == path
}

/// The problems of the settings and secrets together, with the server URL and
/// the token reported missing when nothing else was reported about them.
/// The problems of the settings and secrets together, with the server URL
/// reported missing when nothing else was reported about it.
pub open spec fn connection_value_problems(settings: Seq<ConfigurationValueView>, secrets: Seq<SecretValueView>) -> Seq<FieldProblemView> {
    let found = scan_plex_settings(settings).problems + scan_plex_secrets(secrets).problems;
    if scan_plex_settings(settings).accepted is None && !has_problem_at(found, "server_url"@) {
        found.push(field_problem_of("server_url"@, "required"@, "Plex server URL is required."@))
    } else {
        found
    }
}

/// The problems of the settings and secrets together, with the server URL
/// reported missing when nothing else was reported about it, and the token
/// when neither a server token nor an account token was given and nothing
/// was reported about either.
pub open spec fn plex_settings_problems(settings: Seq<ConfigurationValueView>, secrets: Seq<SecretValueView>) -> Seq<FieldProblemView> {
    let with_url = connection_value_problems(settings, secrets);
    let scan = scan_plex_secrets(secrets);
    if scan.token is None && scan.account_token is None && !has_problem_at(with_url, "token"@) && !has_problem_at(
        with_url,
        "account_token"@,
    ) {
        with_url.push(field_problem_of("token"@, "required"@, "Plex token is required."@))
    } else {
        with_url
    }
}

/// The credential that the accepted secrets give: the server token when
/// there is one, else the account token with the client identifier.
pub open spec fn credential_of(scan: SecretsScan) -> ServerCredentialView {
    match scan.token {
        Some(token) => ServerCredentialView::Token(token),
        None => ServerCredentialView::Account {
            account_token: scan.account_token.unwrap(),
            client_identifier: scan.client_identifier,
        },
    }
}

/// The settings of a Plex connection when its values have no problem; else
/// the problems.
pub open spec fn plex_settings_of(settings: Seq<ConfigurationValueView>, secrets: Seq<SecretValueView>) -> Result<PlexSettingsView, Seq<FieldProblemView>> {
    let problems = plex_settings_problems(settings, secrets);
    if problems.len() == 0 {
        Ok(
            PlexSettingsView {
                server_url: scan_plex_settings(settings).accepted.unwrap(),
                credential: credential_of(scan_plex_secrets(secrets)),
            },
        )
    } else {
        Err(problems)
    }
}

/// Whether `key` is among the texts seen.
pub fn seen_before(seen: &Vec<String>, key: &str) -> (r: bool)
    ensures
        r == seen.deep_view().contains(key@),
{
    let mut i: usize = 0;
    while i < seen.len()
        invariant
            i <= seen.len(),
            forall|j: int| 0 <= j < i ==> seen.deep_view()[j] != key@,
        decreases seen.len() - i,
    {
        if same_text(seen[i].as_str(), key) {
            assert(seen.deep_view()[i as int] == key@);
            return true;
        }
        i = i + 1;
    }
    false
}

fn problem_at(problems: &Vec<FieldProblem>, path: &str) -> (r: bool)
    ensures
        r == has_problem_at(problems.deep_view(), path@),
{
    let mut i: usize = 0;
    while i < problems.len()
        invariant
            i <= problems.len(),
            forall|j: int| 0 <= j < i ==> problems.deep_view()[j].path != path@,
        decreases problems.len() - i,
    {
        if same_text(problems[i].path.as_str(), path) {
            assert(problems.deep_view()[i as int].path == path@);
            return true;
        }
        i = i + 1;
    }
    false
}

/// The secrets accepted by a scan.
struct AcceptedSecrets {
    token: Option<String>,
    account_token: Option<String>,
    client_identifier: Option<String>,
}

/// The name by which a known connection secret is described.
fn secret_name(key: &str) -> (r: Option<&'static str>)
    ensures
        r.deep_view() == secret_name_of(key@),
{
    if same_text(key, "token") {
        Some("Plex token")
    } else if same_text(key, "account_token") {
        Some("Plex account token")
    } else if same_text(key, "client_identifier") {
        Some("Plex client identifier")
    } else {
        None
    }
}

/// The problems of a connection's values with the server URL and secrets
/// they give, before a missing token is reported.
fn scan_connection_values(settings: &Vec<ConfigurationValue>, secrets: &Vec<SecretValue>) -> (r: (
    Vec<FieldProblem>,
    Option<String>,
    AcceptedSecrets,
))
    ensures
        r.0.deep_view() == connection_value_problems(settings.deep_view(), secrets.deep_view()),
        r.1.deep_view() == scan_plex_settings(settings.deep_view()).accepted,
        r.2.token.deep_view() == scan_plex_secrets(secrets.deep_view()).token,
        r.2.account_token.deep_view() == scan_plex_secrets(secrets.deep_view()).account_token,
        r.2.client_identifier.deep_view() == scan_plex_secrets(secrets.deep_view()).client_identifier,
{
    let mut problems: Vec<FieldProblem> = Vec::new();
    let mut seen: Vec<String> = Vec::new();
    let mut server_url: Option<String> = None;
    let mut i: usize = 0;
    while i < settings.len()
        invariant
            i <= settings.len(),
            problems.deep_view() == scan_plex_settings(settings.deep_view().take(i as int)).problems,
            server_url.deep_view() == scan_plex_settings(settings.deep_view().take(i as int)).accepted,
            seen.deep_view() == scan_plex_settings(settings.deep_view().take(i as int)).seen,
        decreases settings.len() - i,
    {
        let ghost taken = settings.deep_view().take(i as int + 1);
        assert(taken.drop_last() =~= settings.deep_view().take(i as int));
        let setting = &settings[i];
        let key = setting.key.as_str();
        if seen_before(&seen, key) {
            push_item(&mut problems, field_problem(key, "duplicate_field", "Field is duplicated."));
        } else {
            push_item(&mut seen, owned(key));
            if same_text(key, "server_url") {
                match text(&setting.value) {
                    Some(url) => {
                        if crate::client::normalize_base_url(url).is_ok() {
                            server_url = Some(owned(url));
                        } else {
                            push_item(
                                &mut problems,
                                field_problem(
                                    "server_url",
                                    "invalid_url",
                                    "Enter an HTTP or HTTPS Plex server URL without credentials or a query.",
                                ),
                            );
                        }
                    },
                    None => push_item(
                        &mut problems,
                        field_problem("server_url", "invalid_type", "Plex server URL must be text."),
                    ),
                }
            } else {
                push_item(
                    &mut problems,
                    field_problem(key, "unknown_field", "This connection field is not supported."),
                );
            }
        }
        i = i + 1;
    }
    assert(settings.deep_view().take(settings.len() as int) =~= settings.deep_view());
    let ghost setting_problems = problems.deep_view();
    let mut secret_problems: Vec<FieldProblem> = Vec::new();
    let mut secret_seen: Vec<String> = Vec::new();
    let mut accepted = AcceptedSecrets { token: None, account_token: None, client_identifier: None };
    let mut k: usize = 0;
    while k < secrets.len()
        invariant
            k <= secrets.len(),
            secret_problems.deep_view() == scan_plex_secrets(secrets.deep_view().take(k as int)).problems,
            accepted.token.deep_view() == scan_plex_secrets(secrets.deep_view().take(k as int)).token,
            accepted.account_token.deep_view() == scan_plex_secrets(secrets.deep_view().take(k as int)).account_token,
            accepted.client_identifier.deep_view() == scan_plex_secrets(
                secrets.deep_view().take(k as int),
            ).client_identifier,
            secret_seen.deep_view() == scan_plex_secrets(secrets.deep_view().take(k as int)).seen,
        decreases secrets.len() - k,
    {
        let ghost taken = secrets.deep_view().take(k as int + 1);
        assert(taken.drop_last() =~= secrets.deep_view().take(k as int));
        let secret = &secrets[k];
        let key = secret.key.as_str();
        if seen_before(&secret_seen, key) {
            push_item(&mut secret_problems, field_problem(key, "duplicate_field", "Field is duplicated."));
        } else {
            push_item(&mut secret_seen, owned(key));
            match secret_name(key) {
                Some(name) => {
                    if secret.value.len() > 0 {
                        match text_from_utf8(secret.value.as_slice()) {
                            Some(value) => {
                                if same_text(key, "token") {
                                    accepted.token = Some(owned(value));
                                } else if same_text(key, "account_token") {
                                    accepted.account_token = Some(owned(value));
                                } else {
                                    accepted.client_identifier = Some(owned(value));
                                }
                            },
                            None => {
                                let message = join2(name, " must be UTF-8 text.");
                                push_item(&mut secret_problems, field_problem(key, "invalid_type", message.as_str()));
                            },
                        }
                    } else {
                        let message = join2(name, " is required.");
                        push_item(&mut secret_problems, field_problem(key, "required", message.as_str()));
                    }
                },
                None => push_item(
                    &mut secret_problems,
                    field_problem(key, "unknown_field", "This connection secret is not supported."),
                ),
            }
        }
        k = k + 1;
    }
    assert(secrets.deep_view().take(secrets.len() as int) =~= secrets.deep_view());
    let mut j: usize = 0;
    while j < secret_problems.len()
        invariant
            j <= secret_problems.len(),
            problems.deep_view() =~= setting_problems + secret_problems.deep_view().take(j as int),
        decreases secret_problems.len() - j,
    {
        push_item(&mut problems, secret_problems[j].duplicate());
        j = j + 1;
        assert(problems.deep_view() =~= setting_problems + secret_problems.deep_view().take(j as int));
    }
    assert(secret_problems.deep_view().take(secret_problems.len() as int) =~= secret_problems.deep_view());
    if server_url.is_none() && !problem_at(&problems, "server_url") {
        push_item(&mut problems, field_problem("server_url", "required", "Plex server URL is required."));
    }
    (problems, server_url, accepted)
}

/// The settings of a Plex connection from its configuration values and
/// secrets, or every problem with them.
pub fn plex_settings(settings: &Vec<ConfigurationValue>, secrets: &Vec<SecretValue>) -> (r: Result<PlexSettings, Vec<FieldProblem>>)
    ensures
        match r {
            Ok(v) => plex_settings_of(settings.deep_view(), secrets.deep_view()) == Ok::<PlexSettingsView, Seq<FieldProblemView>>(v@),
            Err(p) => plex_settings_of(settings.deep_view(), secrets.deep_view()) == Err::<PlexSettingsView, Seq<FieldProblemView>>(p.deep_view()),
        },
{
    let (mut problems, server_url, accepted) = scan_connection_values(settings, secrets);
    if accepted.token.is_none() && accepted.account_token.is_none() && !problem_at(&problems, "token") && !problem_at(
        &problems,
        "account_token",
    ) {
        push_item(&mut problems, field_problem("token", "required", "Plex token is required."));
    }
    if problems.len() == 0 {
        let credential = match accepted.token {
            Some(token) => ServerCredential::Token(token),
            None => ServerCredential::Account {
                account_token: accepted.account_token.unwrap(),
                client_identifier: accepted.client_identifier,
            },
        };
        Ok(PlexSettings { server_url: server_url.unwrap(), credential })
    } else {
        Err(problems)
    }
}

/// The problems that validating a connection reports: those of its values,
/// without asking for a token, which authentication provides.
pub fn validation_problems(settings: &Vec<ConfigurationValue>, secrets: &Vec<SecretValue>) -> (r: Vec<FieldProblem>)
    ensures
        r.deep_view() == connection_value_problems(settings.deep_view(), secrets.deep_view()),
{
    let (problems, _, _) = scan_connection_values(settings, secrets);
    problems
}

// ---------------------------------------------------------------------------
// Looking up portable references
// ---------------------------------------------------------------------------

/// A lookup request is refused without an operation identifier or with no
/// reference or more than the batch limit.
pub open spec fn lookup_request_valid(operation_id: Seq<u8>, reference_count: nat) -> bool {
    operation_id.len() > 0 && 0 < reference_count && reference_count <= MAX_LOOKUP_BATCH
}

/// Checks the shape of a lookup request.
pub fn check_lookup_request(operation_id: &Vec<u8>, reference_count: usize) -> (r: Result<(), ServiceError>)
    ensures
        r is Ok <==> lookup_request_valid(operation_id@, reference_count as nat),
        r matches Err(e) ==> e.code == ServiceErrorCode::InvalidArgument,
{
    if operation_id.len() == 0 || reference_count == 0 || reference_count > MAX_LOOKUP_BATCH {
        Err(ServiceError::new(
            ServiceErrorCode::InvalidArgument,
            "operation ID and between one and 50 references are required",
        ))
    } else {
        Ok(())
    }
}

/// The items of a lookup reply that the requested reference belongs to: those
/// whose provider item lists it among its candidates.
pub open spec fn matching_items(requested: PortableReferenceView, items: Seq<MediaItemView>, section: SectionPolicy) -> Seq<MediaItemView>
    decreases items.len(),
{
    if items.len() == 0 {
        seq![]
    } else {
        let rest = matching_items(requested, items.drop_last(), section);
        if provider_item_of(items.last(), item_policy_of(section, items.last().show_ordering)).portable_reference_candidates.contains(requested) {
            rest.push(items.last())
        } else {
            rest
        }
    }
}

/// The candidate that an item makes for a lookup, with its evidence.
pub open spec fn lookup_candidate_of(requested: PortableReferenceView, item: MediaItemView, section: SectionPolicy, observed_at: i64) -> LookupCandidateView {
    LookupCandidateView {
        provider_item: Some(provider_item_of(item, item_policy_of(section, item.show_ordering))),
        evidence: Some(
            LookupEvidenceView {
                adapter_revision: encode_utf8(provider_revision_text(item)),
                observed_time_milliseconds: observed_at,
                expires_time_milliseconds: None,
                matched_references: seq![requested],
            },
        ),
    }
}

/// The outcome of a lookup: not found without a matching item, matched with
/// one, ambiguous with several.
pub open spec fn lookup_outcome_of(requested: PortableReferenceView, items: Seq<MediaItemView>, section: SectionPolicy, observed_at: i64) -> LookupOutcomeView {
    let found = matching_items(requested, items, section);
    let candidates = Seq::new(found.len(), |i: int| lookup_candidate_of(requested, found[i], section, observed_at));
    if found.len() == 0 {
        LookupOutcomeView::NotFound
    } else if found.len() == 1 {
        LookupOutcomeView::Matched(Some(candidates[0]))
    } else {
        LookupOutcomeView::Ambiguous(candidates)
    }
}

/// The Plex GUID to look a reference up by; a reference without one is not
/// supported.
pub fn lookup_guid(reference: &PortableReference) -> (r: Option<String>)
    ensures
        r.deep_view() == crate::mapping::plex_guid_of(reference@),
{
    crate::mapping::plex_guid(reference)
}

/// The request that looks a reference up in a library section: the
/// section's items with the reference's Plex GUID, GUIDs included; none for a
/// reference without a Plex GUID, which is not supported.
pub open spec fn lookup_call_of(section_key: Seq<char>, reference: PortableReferenceView) -> Option<PlexCallView> {
    match crate::mapping::plex_guid_of(reference) {
        Some(guid) => Some(
            PlexCallView {
                method: HttpMethod::Get,
                path: "/library/sections/"@ + section_key + "/all"@,
                query: seq![("guid"@, guid), ("includeGuids"@, "1"@)],
            },
        ),
        None => None,
    }
}

/// The request that looks a reference up in a library section.
pub fn lookup_call(section_key: &str, reference: &PortableReference) -> (r: Option<PlexCall>)
    ensures
        r.deep_view() == lookup_call_of(section_key@, reference@),
{
    match lookup_guid(reference) {
        Some(guid) => {
            let mut query: Vec<(String, String)> = Vec::new();
            push_item(&mut query, (owned("guid"), guid));
            push_item(&mut query, (owned("includeGuids"), owned("1")));
            let ghost expected = lookup_call_of(section_key@, reference@).unwrap();
            assert(query.deep_view() =~= expected.query);
            let call = PlexCall { method: HttpMethod::Get, path: join3("/library/sections/", section_key, "/all"), query };
            assert(call.path@ =~= expected.path);
            Some(call)
        },
        None => None,
    }
}

/// The failure of a lookup that Plex could not answer.
pub fn lookup_failure(error: &PlexError) -> (r: OperationFailure)
    ensures
        is_plex_failure(
            r@,
            failure_class_of(*error).0,
            "reference_lookup_failed"@,
            "Plex could not look up the requested references."@,
            failure_class_of(*error).1,
        ),
{
    plex_failure(error, "reference_lookup_failed", "Plex could not look up the requested references.")
}

fn lookup_candidate(requested: &PortableReference, item: &MediaItem, section: SectionPolicy, observed_at: i64) -> (r: LookupCandidate)
    ensures
        r@ == lookup_candidate_of(requested@, item@, section, observed_at),
{
    let mut matched: Vec<PortableReference> = Vec::new();
    push_item(&mut matched, requested.duplicate());
    assert(matched.deep_view() =~= seq![requested@]);
    LookupCandidate {
        provider_item: Some(provider_item(item, item_policy(section, item))),
        evidence: Some(
            LookupEvidence {
                adapter_revision: provider_revision(item),
                observed_time_milliseconds: observed_at,
                expires_time_milliseconds: None,
                matched_references: matched,
            },
        ),
    }
}

fn lists_reference(references: &Vec<PortableReference>, requested: &PortableReference) -> (r: bool)
    ensures
        r == references.deep_view().contains(requested@),
{
    let mut i: usize = 0;
    while i < references.len()
        invariant
            i <= references.len(),
            forall|j: int| 0 <= j < i ==> references.deep_view()[j] != requested@,
        decreases references.len() - i,
    {
        if same_text(references[i].namespace.as_str(), requested.namespace.as_str())
            && crate::text::same_bytes(&references[i].value, &requested.value) {
            assert(references.deep_view()[i as int] == requested@);
            return true;
        }
        i = i + 1;
    }
    false
}

/// The outcome of looking a reference up among the items that Plex returned
/// for its GUID, observed at the given time.
pub fn lookup_outcome_at(requested: &PortableReference, items: &Vec<MediaItem>, section: SectionPolicy, observed_at: i64) -> (r: LookupOutcome)
    ensures
        r@ == lookup_outcome_of(requested@, items.deep_view(), section, observed_at),
{
    let mut candidates: Vec<LookupCandidate> = Vec::new();
    let ghost mut found: Seq<MediaItemView> = seq![];
    let mut i: usize = 0;
    while i < items.len()
        invariant
            i <= items.len(),
            found == matching_items(requested@, items.deep_view().take(i as int), section),
            candidates.deep_view() =~= Seq::new(
                found.len(),
                |k: int| lookup_candidate_of(requested@, found[k], section, observed_at),
            ),
        decreases items.len() - i,
    {
        let ghost taken = items.deep_view().take(i as int + 1);
        assert(taken.drop_last() =~= items.deep_view().take(i as int));
        let item = provider_item(&items[i], item_policy(section, &items[i]));
        if lists_reference(&item.portable_reference_candidates, requested) {
            push_item(&mut candidates, lookup_candidate(requested, &items[i], section, observed_at));
            proof {
                found = found.push(items.deep_view()[i as int]);
            }
        }
        i = i + 1;
        assert(candidates.deep_view() =~= Seq::new(
            found.len(),
            |k: int| lookup_candidate_of(requested@, found[k], section, observed_at),
        ));
    }
    assert(items.deep_view().take(items.len() as int) =~= items.deep_view());
    if candidates.len() == 0 {
        LookupOutcome::NotFound
    } else if candidates.len() == 1 {
        LookupOutcome::Matched(candidates.pop())
    } else {
        LookupOutcome::Ambiguous(candidates)
    }
}

/// The outcome of looking a reference up, observed now.
pub fn lookup_outcome(requested: &PortableReference, items: &Vec<MediaItem>, section: SectionPolicy) -> (r: LookupOutcome)
    ensures
        exists|at: i64| at >= 0 && r@ == lookup_outcome_of(requested@, items.deep_view(), section, at),
{
    let observed_at = crate::mapping::now_milliseconds();
    lookup_outcome_at(requested, items, section, observed_at)
}

// ---------------------------------------------------------------------------
// Targeted state
// ---------------------------------------------------------------------------

/// The rating key of a subject that is a Plex provider item.
pub open spec fn subject_rating_key_of(subject: Option<SubjectReferenceView>) -> Option<Seq<char>> {
    match subject {
        Some(s) => match s.subject {
            Some(SubjectView::ProviderItemKey(key)) => parsed_key(key, "item:"@),
            _ => None,
        },
        None => None,
    }
}

/// The rating key of a subject that is a Plex provider item.
pub fn subject_rating_key(subject: &Option<SubjectReference>) -> (r: Option<&str>)
    ensures
        r.deep_view() == subject_rating_key_of(subject.deep_view()),
{
    match subject {
        Some(s) => match &s.subject {
            Some(Subject::ProviderItemKey(key)) => crate::mapping::parse_item_key(key),
            _ => None,
        },
        None => None,
    }
}

/// The observation of a requested field of an item: present with its value
/// when Plex has one, absent for a rating that is not set, unknown otherwise.
pub open spec fn field_observation_of(item: MediaItemView, field: StateFieldView) -> TargetedStateFieldObservationView {
    TargetedStateFieldObservationView {
        field: Some(field),
        presence: if field_value_of(item, field) is Some {
            StatePresence::Present
        } else if field == rating_field_view() {
            StatePresence::Absent
        } else {
            StatePresence::Unknown
        },
        value: field_value_of(item, field),
    }
}

/// The targeted read of an item that Plex returned.
pub open spec fn targeted_read_matched_of(item: MediaItemView, fields: Seq<StateFieldView>, observed_at: i64) -> ReadTargetedStateResponseView {
    ReadTargetedStateResponseView {
        outcome: Some(
            TargetedReadOutcomeView::Matched(
                TargetedStateReadMatchedView {
                    membership: SourceMembership::Present,
                    fields: Seq::new(fields.len(), |i: int| field_observation_of(item, fields[i])),
                    provider_revision: encode_utf8(provider_revision_text(item)),
                    observed_time_milliseconds: observed_at,
                    expires_time_milliseconds: None,
                    precondition: seq![],
                    write_causation: None,
                },
            ),
        ),
    }
}

fn field_observation(item: &MediaItem, field: &StateField) -> (r: TargetedStateFieldObservation)
    ensures
        r@ == field_observation_of(item@, field@),
{
    let value = value_for_field(item, field);
    let presence = if value.is_some() {
        StatePresence::Present
    } else if same_state_field(field, &rating_field()) {
        StatePresence::Absent
    } else {
        StatePresence::Unknown
    };
    TargetedStateFieldObservation { field: Some(field.duplicate()), presence, value }
}

/// The targeted read of an item that Plex returned, observed at a time.
pub fn targeted_read_matched(item: &MediaItem, fields: &Vec<StateField>, observed_at: i64) -> (r: ReadTargetedStateResponse)
    ensures
        r@ == targeted_read_matched_of(item@, fields.deep_view(), observed_at),
{
    let mut observations: Vec<TargetedStateFieldObservation> = Vec::new();
    let mut i: usize = 0;
    while i < fields.len()
        invariant
            i <= fields.len(),
            observations.deep_view() =~= Seq::new(i as nat, |k: int| field_observation_of(item@, fields.deep_view()[k])),
        decreases fields.len() - i,
    {
        push_item(&mut observations, field_observation(item, &fields[i]));
        i = i + 1;
        assert(observations.deep_view() =~= Seq::new(i as nat, |k: int| field_observation_of(item@, fields.deep_view()[k])));
    }
    let precondition: Vec<u8> = Vec::new();
    assert(precondition@ =~= seq![]);
    ReadTargetedStateResponse {
        outcome: Some(
            TargetedReadOutcome::Matched(
                TargetedStateReadMatched {
                    membership: SourceMembership::Present,
                    fields: observations,
                    provider_revision: provider_revision(item),
                    observed_time_milliseconds: observed_at,
                    expires_time_milliseconds: None,
                    precondition,
                    write_causation: None,
                },
            ),
        ),
    }
}

/// The targeted read when the subject is no Plex item.
pub fn targeted_read_unsupported() -> (r: ReadTargetedStateResponse)
    ensures
        r@ == (ReadTargetedStateResponseView { outcome: Some(TargetedReadOutcomeView::Unsupported) }),
{
    ReadTargetedStateResponse { outcome: Some(TargetedReadOutcome::Unsupported) }
}

/// The targeted read when Plex has no such item.
pub fn targeted_read_not_found() -> (r: ReadTargetedStateResponse)
    ensures
        r@ == (ReadTargetedStateResponseView { outcome: Some(TargetedReadOutcomeView::NotFound) }),
{
    ReadTargetedStateResponse { outcome: Some(TargetedReadOutcome::NotFound) }
}

/// The targeted read when reading the item failed: not found for a missing
/// item, else indeterminate with the classified failure.
pub fn targeted_read_failed(error: &PlexError) -> (r: ReadTargetedStateResponse)
    ensures
        error.status_of() == Some(404u16) ==> r@ == (ReadTargetedStateResponseView { outcome: Some(TargetedReadOutcomeView::NotFound) }),
        error.status_of() != Some(404u16) ==> (r@.outcome matches Some(TargetedReadOutcomeView::Indeterminate(Some(f))) && is_plex_failure(
            f,
            failure_class_of(*error).0,
            "targeted_state_read_failed"@,
            "Plex watch state could not be read."@,
            failure_class_of(*error).1,
        )),
{
    if error.status() == Some(404u16) {
        targeted_read_not_found()
    } else {
        ReadTargetedStateResponse {
            outcome: Some(
                TargetedReadOutcome::Indeterminate(
                    Some(plex_failure(error, "targeted_state_read_failed", "Plex watch state could not be read.")),
                ),
            ),
        }
    }
}

/// The answer to a targeted read from what reading the item gave: the first
/// item that Plex returned, matched; no item, not found; a failure, as
/// `targeted_read_failed` answers it.
pub fn targeted_read_response(fetched: &Result<Vec<MediaItem>, PlexError>, fields: &Vec<StateField>, observed_at: i64) -> (r: ReadTargetedStateResponse)
    ensures
        match fetched {
            Ok(items) => if items.len() > 0 {
                r@ == targeted_read_matched_of(items[0]@, fields.deep_view(), observed_at)
            } else {
                r@ == (ReadTargetedStateResponseView { outcome: Some(TargetedReadOutcomeView::NotFound) })
            },
            Err(error) => if error.status_of() == Some(404u16) {
                r@ == (ReadTargetedStateResponseView { outcome: Some(TargetedReadOutcomeView::NotFound) })
            } else {
                r@.outcome matches Some(TargetedReadOutcomeView::Indeterminate(Some(f))) && is_plex_failure(
                    f,
                    failure_class_of(*error).0,
                    "targeted_state_read_failed"@,
                    "Plex watch state could not be read."@,
                    failure_class_of(*error).1,
                )
            },
        },
{
    match fetched {
        Ok(items) => if items.len() > 0 {
            targeted_read_matched(&items[0], fields, observed_at)
        } else {
            targeted_read_not_found()
        },
        Err(error) => targeted_read_failed(error),
    }
}

/// An HTTP method of a Plex request.
#[derive(Clone, Copy, Debug, PartialEq, Eq, Structural)]
pub enum HttpMethod {
    Get,
    Put,
    Post,
}

/// A request to Plex: method, server path and query pairs.
#[derive(Clone, Debug, PartialEq, Eq)]
pub struct PlexCall {
    pub method: HttpMethod,
    pub path: String,
    pub query: Vec<(String, String)>,
}

pub struct PlexCallView {
    pub method: HttpMethod,
    pub path: Seq<char>,
    pub query: Seq<(Seq<char>, Seq<char>)>,
}

impl View for PlexCall {
    type V = PlexCallView;

    open spec fn view(&self) -> PlexCallView {
        PlexCallView { method: self.method, path: self.path@, query: self.query.deep_view() }
    }
}

impl DeepView for PlexCall {
    type V = PlexCallView;

    open spec fn deep_view(&self) -> PlexCallView {
        self.view()
    }
}

/// A non-negative playback time: negative times are sent as zero.
pub open spec fn clamped_time(time: i64) -> i64 {
    if time > 0 {
        time
    } else {
        0
    }
}

/// The timeline report that stops playback of an item at a time.
pub open spec fn timeline_call_of(rating_key: Seq<char>, time: Seq<char>) -> PlexCallView {
    PlexCallView {
        method: HttpMethod::Post,
        path: "/:/timeline"@,
        query: seq![
            ("ratingKey"@, rating_key),
            ("key"@, "/library/metadata/"@ + rating_key),
            ("state"@, "stopped"@),
            ("time"@, time),
        ],
    }
}

/// The Plex request that a state write intent becomes: marking watched or
/// unwatched, reporting a stopped playback time (zero to clear it), or
/// rating; nothing for any other intent.
pub open spec fn intent_call_of(rating_key: Seq<char>, intent: TargetedStateWriteIntentView) -> Option<PlexCallView> {
    match (intent.field, intent.operation) {
        (Some(field), Some(WriteOperationView::Assign(value))) => if field == watched_field_view() {
            match value.value {
                Some(ValueKindView::Boolean(watched)) => Some(
                    PlexCallView {
                        method: HttpMethod::Put,
                        path: if watched {
                            "/:/scrobble"@
                        } else {
                            "/:/unscrobble"@
                        },
                        query: seq![("identifier"@, PLEX_LIBRARY_IDENTIFIER@), ("key"@, rating_key)],
                    },
                ),
                _ => None,
            }
        } else if field == progress_field_view() {
            match value.value {
                Some(ValueKindView::Integer(time)) => Some(
                    timeline_call_of(rating_key, decimal_text(clamped_time(time) as int)),
                ),
                _ => None,
            }
        } else if field == rating_field_view() {
            match value.value {
                Some(ValueKindView::Decimal(rating)) => Some(
                    PlexCallView {
                        method: HttpMethod::Put,
                        path: "/:/rate"@,
                        query: seq![
                            ("identifier"@, PLEX_LIBRARY_IDENTIFIER@),
                            ("key"@, rating_key),
                            ("rating"@, rating.value),
                        ],
                    },
                ),
                _ => None,
            }
        } else {
            None
        },
        (Some(field), Some(WriteOperationView::Clear)) => if field == progress_field_view() {
            Some(timeline_call_of(rating_key, "0"@))
        } else {
            None
        },
        _ => None,
    }
}

fn timeline_call(rating_key: &str, time: String) -> (r: PlexCall)
    ensures
        r@ == timeline_call_of(rating_key@, time@),
{
    let mut query: Vec<(String, String)> = Vec::new();
    push_item(&mut query, (owned("ratingKey"), owned(rating_key)));
    push_item(&mut query, (owned("key"), join2("/library/metadata/", rating_key)));
    push_item(&mut query, (owned("state"), owned("stopped")));
    push_item(&mut query, (owned("time"), time));
    assert(query.deep_view() =~= timeline_call_of(rating_key@, time@).query);
    PlexCall { method: HttpMethod::Post, path: owned("/:/timeline"), query }
}

/// The Plex request that a state write intent becomes, if any.
pub fn intent_call(rating_key: &str, intent: &TargetedStateWriteIntent) -> (r: Option<PlexCall>)
    ensures
        r.deep_view() == intent_call_of(rating_key@, intent@),
{
    let field = match &intent.field {
        Some(field) => field,
        None => return None,
    };
    match &intent.operation {
        Some(WriteOperation::Assign(value)) => {
            if same_state_field(field, &watched_field()) {
                match &value.value {
                    Some(ValueKind::Boolean(watched)) => {
                        let mut query: Vec<(String, String)> = Vec::new();
                        push_item(&mut query, (owned("identifier"), owned(PLEX_LIBRARY_IDENTIFIER)));
                        push_item(&mut query, (owned("key"), owned(rating_key)));
                        let ghost expected = intent_call_of(rating_key@, intent@).unwrap();
                        assert(query.deep_view() =~= expected.query);
                        Some(PlexCall {
                            method: HttpMethod::Put,
                            path: if *watched {
                                owned("/:/scrobble")
                            } else {
                                owned("/:/unscrobble")
                            },
                            query,
                        })
                    },
                    _ => None,
                }
            } else if same_state_field(field, &progress_field()) {
                match &value.value {
                    Some(ValueKind::Integer(time)) => {
                        let clamped = if *time > 0 {
                            *time
                        } else {
                            0
                        };
                        Some(timeline_call(rating_key, signed_decimal(clamped)))
                    },
                    _ => None,
                }
            } else if same_state_field(field, &rating_field()) {
                match &value.value {
                    Some(ValueKind::Decimal(rating)) => {
                        let mut query: Vec<(String, String)> = Vec::new();
                        push_item(&mut query, (owned("identifier"), owned(PLEX_LIBRARY_IDENTIFIER)));
                        push_item(&mut query, (owned("key"), owned(rating_key)));
                        push_item(&mut query, (owned("rating"), rating.value.clone()));
                        let ghost expected = intent_call_of(rating_key@, intent@).unwrap();
                        assert(query.deep_view() =~= expected.query);
                        Some(PlexCall { method: HttpMethod::Put, path: owned("/:/rate"), query })
                    },
                    _ => None,
                }
            } else {
                None
            }
        },
        Some(WriteOperation::Clear) => {
            if same_state_field(field, &progress_field()) {
                Some(timeline_call(rating_key, owned("0")))
            } else {
                None
            }
        },
        None => None,
    }
}

/// Every intent of a write becomes a Plex request.
pub open spec fn intents_supported(intents: Seq<TargetedStateWriteIntentView>) -> bool {
    forall|i: int| 0 <= i < intents.len() ==> (#[trigger] intent_call_of(seq![], intents[i])) is Some
}

/// The Plex requests of a state write, one per intent in order, when every
/// intent becomes one.
pub open spec fn state_write_calls_of(rating_key: Seq<char>, intents: Seq<TargetedStateWriteIntentView>) -> Option<Seq<PlexCallView>> {
    if forall|i: int| 0 <= i < intents.len() ==> (#[trigger] intent_call_of(rating_key, intents[i])) is Some {
        Some(Seq::new(intents.len(), |i: int| intent_call_of(rating_key, intents[i]).unwrap()))
    } else {
        None
    }
}

/// The Plex requests of a state write, in order; nothing when an intent does
/// not become a request.
pub fn state_write_calls(rating_key: &str, intents: &Vec<TargetedStateWriteIntent>) -> (r: Option<Vec<PlexCall>>)
    ensures
        r.deep_view() == state_write_calls_of(rating_key@, intents.deep_view()),
{
    let mut calls: Vec<PlexCall> = Vec::new();
    let mut i: usize = 0;
    while i < intents.len()
        invariant
            i <= intents.len(),
            forall|k: int| 0 <= k < i ==> (#[trigger] intent_call_of(rating_key@, intents.deep_view()[k])) is Some,
            calls.deep_view() =~= Seq::new(i as nat, |k: int| intent_call_of(rating_key@, intents.deep_view()[k]).unwrap()),
        decreases intents.len() - i,
    {
        match intent_call(rating_key, &intents[i]) {
            Some(call) => push_item(&mut calls, call),
            None => {
                assert(intent_call_of(rating_key@, intents.deep_view()[i as int]) is None);
                return None;
            },
        }
        i = i + 1;
        assert(calls.deep_view() =~= Seq::new(i as nat, |k: int| intent_call_of(rating_key@, intents.deep_view()[k]).unwrap()));
    }
    Some(calls)
}

/// A write intent that assigns a boolean to the watched field.
pub open spec fn watched_assignment(watched: bool) -> TargetedStateWriteIntentView {
    TargetedStateWriteIntentView {
        field: Some(watched_field_view()),
        operation: Some(WriteOperationView::Assign(crate::mapping::boolean_value_view(watched))),
    }
}

/// Marking an item unwatched becomes one `PUT /:/unscrobble` and marking it
/// watched one `PUT /:/scrobble`, each naming the Plex library and the item's
/// rating key; the requests for the two values differ.
pub proof fn lemma_watched_write_calls(rating_key: Seq<char>)
    ensures
        state_write_calls_of(rating_key, seq![watched_assignment(false)]) == Some(
            seq![
                (PlexCallView {
                    method: HttpMethod::Put,
                    path: "/:/unscrobble"@,
                    query: seq![("identifier"@, "com.plexapp.plugins.library"@), ("key"@, rating_key)],
                }),
            ],
        ),
        state_write_calls_of(rating_key, seq![watched_assignment(true)]) == Some(
            seq![
                (PlexCallView {
                    method: HttpMethod::Put,
                    path: "/:/scrobble"@,
                    query: seq![("identifier"@, "com.plexapp.plugins.library"@), ("key"@, rating_key)],
                }),
            ],
        ),
        state_write_calls_of(rating_key, seq![watched_assignment(false)]) != state_write_calls_of(
            rating_key,
            seq![watched_assignment(true)],
        ),
{
    reveal_strlit("/:/scrobble");
    reveal_strlit("/:/unscrobble");
    let unwatched = seq![watched_assignment(false)];
    let watched = seq![watched_assignment(true)];
    assert(intent_call_of(rating_key, unwatched[0]) is Some);
    assert(intent_call_of(rating_key, watched[0]) is Some);
    let a = state_write_calls_of(rating_key, unwatched).unwrap();
    let b = state_write_calls_of(rating_key, watched).unwrap();
    assert(a[0].path != b[0].path) by {
        assert("/:/scrobble"@.len() != "/:/unscrobble"@.len());
    }
}

/// Setting the playback progress to `time` milliseconds becomes one
/// `POST /:/timeline` that reports the item stopped at `time` (at zero when
/// `time` is negative), clearing it the same report at zero, and setting the
/// rating one `PUT /:/rate` that carries the rating text.
pub proof fn lemma_progress_and_rating_write_calls(rating_key: Seq<char>, time: i64, rating: Seq<char>)
    ensures
        intent_call_of(
            rating_key,
            TargetedStateWriteIntentView {
                field: Some(progress_field_view()),
                operation: Some(WriteOperationView::Assign(crate::mapping::integer_value_view(time))),
            },
        ) == Some(
            PlexCallView {
                method: HttpMethod::Post,
                path: "/:/timeline"@,
                query: seq![
                    ("ratingKey"@, rating_key),
                    ("key"@, "/library/metadata/"@ + rating_key),
                    ("state"@, "stopped"@),
                    ("time"@, decimal_text(if time >= 0 { time as int } else { 0 })),
                ],
            },
        ),
        intent_call_of(
            rating_key,
            TargetedStateWriteIntentView { field: Some(progress_field_view()), operation: Some(WriteOperationView::Clear) },
        ) == Some(
            PlexCallView {
                method: HttpMethod::Post,
                path: "/:/timeline"@,
                query: seq![
                    ("ratingKey"@, rating_key),
                    ("key"@, "/library/metadata/"@ + rating_key),
                    ("state"@, "stopped"@),
                    ("time"@, "0"@),
                ],
            },
        ),
        intent_call_of(
            rating_key,
            TargetedStateWriteIntentView {
                field: Some(rating_field_view()),
                operation: Some(WriteOperationView::Assign(crate::mapping::decimal_value_view(rating))),
            },
        ) == Some(
            PlexCallView {
                method: HttpMethod::Put,
                path: "/:/rate"@,
                query: seq![
                    ("identifier"@, "com.plexapp.plugins.library"@),
                    ("key"@, rating_key),
                    ("rating"@, rating),
                ],
            },
        ),
{
    reveal_strlit("watched");
    reveal_strlit("progress");
    reveal_strlit("rating");
    assert(progress_field_view() != watched_field_view()) by {
        assert(crate::mapping::PROGRESS_FIELD@.len() != crate::mapping::WATCHED_FIELD@.len());
    }
    assert(rating_field_view() != watched_field_view()) by {
        assert(crate::mapping::RATING_FIELD@.len() != crate::mapping::WATCHED_FIELD@.len());
    }
    assert(rating_field_view() != progress_field_view()) by {
        assert(crate::mapping::RATING_FIELD@.len() != crate::mapping::PROGRESS_FIELD@.len());
    }
    if time == 0 {
        assert(clamped_time(time) as int == 0);
    }
}

/// The effect that an intent had on its field.
pub open spec fn field_effect_of(intent: TargetedStateWriteIntentView) -> TargetedStateWriteFieldEffectView {
    TargetedStateWriteFieldEffectView {
        field: intent.field,
        effect: match intent.operation {
            Some(WriteOperationView::Assign(_)) => TargetedStateFieldEffectKind::Assigned,
            Some(WriteOperationView::Clear) => TargetedStateFieldEffectKind::Cleared,
            None => TargetedStateFieldEffectKind::Unknown,
        },
        value: match intent.operation {
            Some(WriteOperationView::Assign(v)) => Some(v),
            _ => None,
        },
    }
}

/// The digest that identifies an applied write: SHA-256 of the idempotency
/// key followed by the rating key.
pub open spec fn write_digest_of(idempotency_key: Seq<u8>, rating_key: Seq<char>) -> Seq<u8> {
    sha256(idempotency_key + encode_utf8(rating_key))
}

/// The reply to an applied write: confirmed, not to be retried, membership
/// unchanged, each intent's effect, the digest as revision and as much of it
/// as receipt as the request allows.
pub open spec fn applied_write_response_of(request: WriteTargetedStateRequestView, rating_key: Seq<char>) -> WriteTargetedStateResponseView {
    let digest = write_digest_of(request.idempotency_key, rating_key);
    let receipt_length = if request.maximum_receipt_bytes < digest.len() {
        request.maximum_receipt_bytes as int
    } else {
        digest.len() as int
    };
    WriteTargetedStateResponseView {
        status: TargetedStateWriteStatus::Applied,
        certainty: TargetedStateWriteCertainty::ConfirmedApplied,
        retry_disposition: TargetedStateWriteRetryDisposition::NotRetryable,
        membership_effect: TargetedStateMembershipEffect::Unchanged,
        field_effects: Seq::new(request.intents.len(), |i: int| field_effect_of(request.intents[i])),
        provider_revision: digest,
        successor_precondition: seq![],
        receipt: digest.take(receipt_length),
        error: None,
    }
}

fn field_effect(intent: &TargetedStateWriteIntent) -> (r: TargetedStateWriteFieldEffect)
    ensures
        r@ == field_effect_of(intent@),
{
    TargetedStateWriteFieldEffect {
        field: match &intent.field {
            Some(f) => Some(f.duplicate()),
            None => None,
        },
        effect: match &intent.operation {
            Some(WriteOperation::Assign(_)) => TargetedStateFieldEffectKind::Assigned,
            Some(WriteOperation::Clear) => TargetedStateFieldEffectKind::Cleared,
            None => TargetedStateFieldEffectKind::Unknown,
        },
        value: match &intent.operation {
            Some(WriteOperation::Assign(v)) => Some(v.duplicate()),
            _ => None,
        },
    }
}

/// The reply to an applied write.
pub fn applied_write_response(request: &WriteTargetedStateRequest, rating_key: &str) -> (r: WriteTargetedStateResponse)
    ensures
        r@ == applied_write_response_of(request@, rating_key@),
        r@.provider_revision.len() == 32,
        r@.receipt.len() == (if request.maximum_receipt_bytes < 32 {
            request.maximum_receipt_bytes as int
        } else {
            32
        }),
{
    let mut input = copy_bytes(&request.idempotency_key);
    let key_bytes = utf8_bytes(rating_key);
    let mut i: usize = 0;
    while i < key_bytes.len()
        invariant
            i <= key_bytes.len(),
            input@ =~= request.idempotency_key@ + key_bytes@.take(i as int),
        decreases key_bytes.len() - i,
    {
        input.push(key_bytes[i]);
        i = i + 1;
        assert(input@ =~= request.idempotency_key@ + key_bytes@.take(i as int));
    }
    assert(key_bytes@.take(key_bytes.len() as int) =~= key_bytes@);
    let digest = sha256_digest(input.as_slice());
    let receipt_length: usize = if request.maximum_receipt_bytes < 32 {
        request.maximum_receipt_bytes as usize
    } else {
        32
    };
    let mut receipt: Vec<u8> = Vec::new();
    let mut k: usize = 0;
    while k < receipt_length
        invariant
            k <= receipt_length <= 32,
            digest@.len() == 32,
            receipt@ =~= digest@.take(k as int),
        decreases receipt_length - k,
    {
        receipt.push(digest[k]);
        k = k + 1;
        assert(receipt@ =~= digest@.take(k as int));
    }
    let mut field_effects: Vec<TargetedStateWriteFieldEffect> = Vec::new();
    let mut j: usize = 0;
    while j < request.intents.len()
        invariant
            j <= request.intents.len(),
            field_effects.deep_view() =~= Seq::new(j as nat, |x: int| field_effect_of(request.intents.deep_view()[x])),
        decreases request.intents.len() - j,
    {
        push_item(&mut field_effects, field_effect(&request.intents[j]));
        j = j + 1;
        assert(field_effects.deep_view() =~= Seq::new(j as nat, |x: int| field_effect_of(request.intents.deep_view()[x])));
    }
    let successor: Vec<u8> = Vec::new();
    assert(successor@ =~= seq![]);
    WriteTargetedStateResponse {
        status: TargetedStateWriteStatus::Applied,
        certainty: TargetedStateWriteCertainty::ConfirmedApplied,
        retry_disposition: TargetedStateWriteRetryDisposition::NotRetryable,
        membership_effect: TargetedStateMembershipEffect::Unchanged,
        field_effects,
        provider_revision: digest,
        successor_precondition: successor,
        receipt,
        error: None,
    }
}

/// The reply to a write that failed part way: indeterminate, to be
/// reconciled before any retry, each field's effect unknown.
pub open spec fn indeterminate_write_holds(request: WriteTargetedStateRequestView, error: PlexError, r: WriteTargetedStateResponseView) -> bool {
    &&& r.status == TargetedStateWriteStatus::Indeterminate
    &&& r.certainty == TargetedStateWriteCertainty::Unknown
    &&& r.retry_disposition == TargetedStateWriteRetryDisposition::ReconcileFirst
    &&& r.membership_effect == TargetedStateMembershipEffect::Unknown
    &&& r.field_effects == Seq::new(
        request.intents.len(),
        |i: int| TargetedStateWriteFieldEffectView { field: request.intents[i].field, effect: TargetedStateFieldEffectKind::Unknown, value: None },
    )
    &&& r.provider_revision.len() == 0 && r.successor_precondition.len() == 0 && r.receipt.len() == 0
    &&& r.error matches Some(f) && is_plex_failure(
        f,
        failure_class_of(error).0,
        "targeted_state_write_indeterminate"@,
        "Plex watch state may have been partially updated."@,
        failure_class_of(error).1,
    )
}

/// The reply to a write that failed part way.
pub fn indeterminate_write_response(request: &WriteTargetedStateRequest, error: &PlexError) -> (r: WriteTargetedStateResponse)
    ensures
        indeterminate_write_holds(request@, *error, r@),
{
    let mut field_effects: Vec<TargetedStateWriteFieldEffect> = Vec::new();
    let mut j: usize = 0;
    while j < request.intents.len()
        invariant
            j <= request.intents.len(),
            field_effects.deep_view() =~= Seq::new(
                j as nat,
                |i: int| TargetedStateWriteFieldEffectView { field: request.intents.deep_view()[i].field, effect: TargetedStateFieldEffectKind::Unknown, value: None },
            ),
        decreases request.intents.len() - j,
    {
        let field = match &request.intents[j].field {
            Some(f) => Some(f.duplicate()),
            None => None,
        };
        push_item(&mut field_effects, TargetedStateWriteFieldEffect { field, effect: TargetedStateFieldEffectKind::Unknown, value: None });
        j = j + 1;
        assert(field_effects.deep_view() =~= Seq::new(
            j as nat,
            |i: int| TargetedStateWriteFieldEffectView { field: request.intents.deep_view()[i].field, effect: TargetedStateFieldEffectKind::Unknown, value: None },
        ));
    }
    WriteTargetedStateResponse {
        status: TargetedStateWriteStatus::Indeterminate,
        certainty: TargetedStateWriteCertainty::Unknown,
        retry_disposition: TargetedStateWriteRetryDisposition::ReconcileFirst,
        membership_effect: TargetedStateMembershipEffect::Unknown,
        field_effects,
        provider_revision: Vec::new(),
        successor_precondition: Vec::new(),
        receipt: Vec::new(),
        error: Some(
            plex_failure(error, "targeted_state_write_indeterminate", "Plex watch state may have been partially updated."),
        ),
    }
}

/// The answer to a targeted write from what sending its calls gave: applied
/// when every call succeeded, indeterminate with the failure otherwise.
pub fn write_response(request: &WriteTargetedStateRequest, rating_key: &str, sent: &Result<(), PlexError>) -> (r: WriteTargetedStateResponse)
    ensures
        match sent {
            Ok(()) => r@ == applied_write_response_of(request@, rating_key@) && r@.provider_revision.len() == 32
                && r@.receipt.len() == (if request.maximum_receipt_bytes < 32 {
                request.maximum_receipt_bytes as int
            } else {
                32
            }),
            Err(error) => indeterminate_write_holds(request@, *error, r@),
        },
{
    match sent {
        Ok(()) => applied_write_response(request, rating_key),
        Err(error) => indeterminate_write_response(request, error),
    }
}

} // verus!
