//! Opening a connection to a Plex server, finding its library sections, and
//! checking the keys that requests name.
use vstd::prelude::*;
use vstd::utf8::*;

use crate::adapter::{
    is_plex_failure, operation_failure, plex_settings_of, scan_plex_secrets, scan_plex_settings, PlexSettingsView,
    ServerCredential, ServerCredentialView, MAX_LOOKUP_BATCH,
};
use crate::authentication::{assigned_secrets, completed_progress, server_url_setting};
use crate::client::{normalized_base_url, plex_error_text_of, PlexError};
use crate::mapping::{
    account_key, key_view, parse_item_key, parse_source_key, parsed_key, asset_kind, asset_kind_of,
    REFERENCE_NAMESPACES,
};
use crate::model::{LibrarySection, LibrarySectionView, Resource, ResourceView, ServerInfo, ServerInfoView};
use crate::sdk::{
    push_item, AccountSnapshot, AccountSnapshotView, ConnectionCapabilities, ConnectionCapabilitiesView,
    EndpointOutcome, EndpointOutcomeView, FieldProblem, FieldProblemView, Key, KeyView, LookupCapability,
    LookupCapabilityView, OperationFailure, OperationFailureCategory, OperationFailureView, PortableEndpoint,
    PortableEndpointResolution, PortableEndpointResolutionView, PortableEndpointView, SecretPatch,
    SecretPatchOperation, SecretPatchOperationView, SecretPatchView, SecretValueView,
};
use crate::adapter::{subject_rating_key, subject_rating_key_of};
use crate::sdk::SubjectReference;
use crate::service::{OperationRegistry, ServiceError, ServiceErrorCode};
use crate::text::{owned, same_text, utf8_bytes};

verus! {

/// The path that lists a server's library sections.
pub const SECTIONS_PATH: &'static str = "/library/sections/all";
/// The path that older servers list their library sections under.
pub const SECTIONS_FALLBACK_PATH: &'static str = "/library/sections";

// ---------------------------------------------------------------------------
// Opening a connection
// ---------------------------------------------------------------------------

/// The failure of settings that do not describe a connection, carrying the
/// problems found.
pub fn invalid_connection_failure(problems: Vec<FieldProblem>) -> (r: OperationFailure)
    ensures
        is_plex_failure(
            (OperationFailureView { field_problems: seq![], ..r@ }),
            OperationFailureCategory::InvalidInput,
            "invalid_connection"@,
            "The Plex connection settings are invalid."@,
            false,
        ),
        r@.field_problems == problems.deep_view(),
{
    let mut failure = operation_failure(
        OperationFailureCategory::InvalidInput,
        "invalid_connection",
        "The Plex connection settings are invalid.",
        false,
    );
    failure.field_problems = problems;
    failure
}

/// The account that a server stands for: its machine, under its friendly
/// name or, when it has none, `Plex Media Server`.
pub open spec fn server_account_of(server: ServerInfoView) -> AccountSnapshotView {
    AccountSnapshotView {
        key: Some(key_view("account:"@ + server.machine_identifier)),
        display_name: if server.friendly_name.len() == 0 {
            "Plex Media Server"@
        } else {
            server.friendly_name
        },
    }
}

/// The account that a server stands for.
pub fn server_account(server: &ServerInfo) -> (r: AccountSnapshot)
    ensures
        r@ == server_account_of(server@),
{
    proof {
        reveal_strlit("");
        assert(""@ =~= Seq::<char>::empty());
        if server@.friendly_name.len() == 0 {
            assert(server@.friendly_name =~= ""@);
        }
    }
    let display_name = if same_text(server.friendly_name.as_str(), "") {
        owned("Plex Media Server")
    } else {
        server.friendly_name.clone()
    };
    let r = AccountSnapshot { key: Some(account_key(server.machine_identifier.as_str())), display_name };
    r
}

/// What an open connection offers: looking up references of the portable
/// namespaces, in batches of up to fifty, and no endpoint lookup.
pub open spec fn connection_capabilities_of() -> ConnectionCapabilitiesView {
    ConnectionCapabilitiesView {
        reference_lookup: Some(
            LookupCapabilityView {
                reference_namespaces: seq![
                    "tv.plex"@,
                    "com.imdb"@,
                    "org.themoviedb"@,
                    "com.thetvdb"@,
                    "org.musicbrainz"@,
                ],
                maximum_batch_size: MAX_LOOKUP_BATCH as u32,
            },
        ),
        endpoint_lookup: None,
    }
}

/// What an open connection offers.
pub fn connection_capabilities() -> (r: ConnectionCapabilities)
    ensures
        r@ == connection_capabilities_of(),
{
    let mut namespaces: Vec<String> = Vec::new();
    let mut i: usize = 0;
    while i < 5
        invariant
            i <= 5,
            namespaces.deep_view() =~= connection_capabilities_of().reference_lookup.unwrap().reference_namespaces.take(i as int),
        decreases 5 - i,
    {
        let ghost before = namespaces.deep_view();
        namespaces.push(owned(REFERENCE_NAMESPACES[i]));
        proof {
            reveal_strlit("tv.plex");
            reveal_strlit("com.imdb");
            reveal_strlit("org.themoviedb");
            reveal_strlit("com.thetvdb");
            reveal_strlit("org.musicbrainz");
            assert(namespaces.deep_view() =~= before.push(REFERENCE_NAMESPACES[i as int]@));
        }
        i = i + 1;
    }
    assert(connection_capabilities_of().reference_lookup.unwrap().reference_namespaces.take(5)
        =~= connection_capabilities_of().reference_lookup.unwrap().reference_namespaces);
    ConnectionCapabilities {
        reference_lookup: Some(LookupCapability { reference_namespaces: namespaces, maximum_batch_size: MAX_LOOKUP_BATCH as u32 }),
        endpoint_lookup: None,
    }
}

/// The failure of a server that the signed-in account does not list.
pub fn server_not_found_failure() -> (r: OperationFailure)
    ensures
        is_plex_failure(
            r@,
            OperationFailureCategory::Authorization,
            "connection_server_not_found"@,
            "The signed-in Plex account does not include this server."@,
            false,
        ),
{
    operation_failure(
        OperationFailureCategory::Authorization,
        "connection_server_not_found",
        "The signed-in Plex account does not include this server.",
        false,
    )
}

/// The failure of a listed server that the account holds no token for.
pub fn server_access_denied_failure() -> (r: OperationFailure)
    ensures
        is_plex_failure(
            r@,
            OperationFailureCategory::Authorization,
            "connection_server_access_denied"@,
            "The signed-in Plex account does not have access to this server."@,
            false,
        ),
{
    operation_failure(
        OperationFailureCategory::Authorization,
        "connection_server_access_denied",
        "The signed-in Plex account does not have access to this server.",
        false,
    )
}

/// The index of the first resource for this machine, if any.
pub open spec fn first_resource_index(resources: Seq<ResourceView>, machine_identifier: Seq<char>) -> Option<int>
    decreases resources.len(),
{
    if resources.len() == 0 {
        None
    } else {
        match first_resource_index(resources.drop_last(), machine_identifier) {
            Some(i) => Some(i),
            None => if resources.last().client_identifier == machine_identifier {
                Some(resources.len() - 1)
            } else {
                None
            },
        }
    }
}

/// The token that the signed-in account holds for the server with this
/// machine identifier: that of the first resource listed for the machine.
/// A machine that is not listed, or listed without a token, is refused.
pub open spec fn server_token_of(resources: Seq<ResourceView>, machine_identifier: Seq<char>) -> Result<Seq<char>, Seq<char>> {
    match first_resource_index(resources, machine_identifier) {
        None => Err("connection_server_not_found"@),
        Some(i) => match resources[i].access_token {
            Some(token) => Ok(token),
            None => Err("connection_server_access_denied"@),
        },
    }
}

proof fn lemma_first_resource_index_bounds(resources: Seq<ResourceView>, machine_identifier: Seq<char>)
    ensures
        first_resource_index(resources, machine_identifier) matches Some(i) ==> 0 <= i < resources.len()
            && resources[i].client_identifier == machine_identifier,
    decreases resources.len(),
{
    if resources.len() > 0 {
        lemma_first_resource_index_bounds(resources.drop_last(), machine_identifier);
    }
}

/// The token that the signed-in account holds for the server with this
/// machine identifier, or the failure of a server it does not list or
/// holds no token for.
pub fn server_token(resources: &Vec<Resource>, machine_identifier: &str) -> (r: Result<String, OperationFailure>)
    ensures
        r matches Ok(token) ==> server_token_of(resources.deep_view(), machine_identifier@) == Ok::<Seq<char>, Seq<char>>(token@),
        r matches Err(f) ==> server_token_of(resources.deep_view(), machine_identifier@) == Err::<Seq<char>, Seq<char>>(f@.code)
            && f@.category == OperationFailureCategory::Authorization,
        r is Ok <==> server_token_of(resources.deep_view(), machine_identifier@) is Ok,
{
    let ghost all = resources.deep_view();
    let mut i: usize = 0;
    while i < resources.len()
        invariant
            i <= resources.len(),
            all == resources.deep_view(),
            first_resource_index(all.take(i as int), machine_identifier@) is None,
        decreases resources.len() - i,
    {
        proof {
            assert(all.take(i + 1).drop_last() =~= all.take(i as int));
        }
        if same_text(resources[i].client_identifier.as_str(), machine_identifier) {
            proof {
                lemma_first_resource_prefix(all, i as int + 1, machine_identifier@);
            }
            return match &resources[i].access_token {
                Some(token) => Ok(token.clone()),
                None => Err(server_access_denied_failure()),
            };
        }
        i = i + 1;
    }
    proof {
        assert(all.take(all.len() as int) =~= all);
    }
    Err(server_not_found_failure())
}

/// Once a prefix holds a resource for the machine, every longer list finds
/// the same one.
proof fn lemma_first_resource_prefix(resources: Seq<ResourceView>, n: int, machine_identifier: Seq<char>)
    requires
        0 < n <= resources.len(),
        first_resource_index(resources.take(n), machine_identifier) is Some,
    ensures
        first_resource_index(resources, machine_identifier) == first_resource_index(resources.take(n), machine_identifier),
    decreases resources.len() - n,
{
    if n < resources.len() {
        assert(resources.take(n + 1).drop_last() =~= resources.take(n));
        lemma_first_resource_prefix(resources, n + 1, machine_identifier);
    } else {
        assert(resources.take(n) =~= resources);
    }
}

/// The client identifier that requests for a connection present: the one
/// that the account signed in with, when the credential is an account token
/// that keeps it; the adapter's own otherwise.
pub open spec fn request_client_identifier_of(credential: ServerCredentialView, own: Seq<char>) -> Seq<char> {
    match credential {
        ServerCredentialView::Account { client_identifier: Some(c), .. } => c,
        _ => own,
    }
}

/// The client identifier that requests for a connection present.
pub fn request_client_identifier(credential: &ServerCredential, own: &str) -> (r: String)
    ensures
        r@ == request_client_identifier_of(credential@, own@),
{
    match credential {
        ServerCredential::Account { client_identifier: Some(c), .. } => c.clone(),
        _ => owned(own),
    }
}

/// The changes to the stored secrets once a connection is open: a server
/// token given directly stays as it is; a server token obtained for an
/// account token is kept as the `token` secret, and the account token is
/// forgotten.
pub open spec fn opened_secret_patches_of(credential: ServerCredentialView, server_token: Seq<char>) -> Seq<SecretPatchView> {
    match credential {
        ServerCredentialView::Token(_) => seq![],
        ServerCredentialView::Account { .. } => seq![
            SecretPatchView { key: "token"@, patch: Some(SecretPatchOperationView::Assign(encode_utf8(server_token))) },
            SecretPatchView { key: "account_token"@, patch: Some(SecretPatchOperationView::Remove) },
        ],
    }
}

/// The changes to the stored secrets once a connection is open with
/// `server_token`.
pub fn opened_secret_patches(credential: &ServerCredential, server_token: &str) -> (r: Vec<SecretPatch>)
    ensures
        r.deep_view() == opened_secret_patches_of(credential@, server_token@),
{
    let mut patches: Vec<SecretPatch> = Vec::new();
    match credential {
        ServerCredential::Token(_) => {},
        ServerCredential::Account { .. } => {
            push_item(
                &mut patches,
                SecretPatch {
                    key: owned("token"),
                    patch: Some(SecretPatchOperation::Assign(utf8_bytes(server_token))),
                },
            );
            push_item(
                &mut patches,
                SecretPatch { key: owned("account_token"), patch: Some(SecretPatchOperation::Remove) },
            );
        },
    }
    assert(patches.deep_view() =~= opened_secret_patches_of(credential@, server_token@));
    patches
}

/// `store` without the secrets under `key`.
pub open spec fn without_secret(store: Seq<SecretValueView>, key: Seq<char>) -> Seq<SecretValueView>
    decreases store.len(),
{
    if store.len() == 0 {
        seq![]
    } else {
        let rest = without_secret(store.drop_last(), key);
        if store.last().key == key {
            rest
        } else {
            rest.push(store.last())
        }
    }
}

/// The secrets that a host keeps after applying `patches` to `store`, one
/// after another: a patch replaces what its key held with its value, or
/// forgets it.
pub open spec fn apply_secret_patches(store: Seq<SecretValueView>, patches: Seq<SecretPatchView>) -> Seq<SecretValueView>
    decreases patches.len(),
{
    if patches.len() == 0 {
        store
    } else {
        let before = apply_secret_patches(store, patches.drop_last());
        let patch = patches.last();
        let kept = without_secret(before, patch.key);
        match patch.patch {
            Some(SecretPatchOperationView::Assign(value)) => kept.push(SecretValueView { key: patch.key, value }),
            _ => kept,
        }
    }
}

/// Law: once an account token has been exchanged, the connection opens with
/// the server's own token. From the secrets that a completed sign-in stores,
/// the changes that opening with the account token makes leave no account
/// token behind, and the settings that the stored secrets then give use the
/// server token directly.
pub proof fn lemma_exchanged_token_reopens(
    id: Seq<char>,
    server_url: Seq<char>,
    account_token: Seq<char>,
    client_identifier: Seq<char>,
    server_token: Seq<char>,
)
    requires
        normalized_base_url(server_url) is Ok,
        account_token.len() > 0,
        client_identifier.len() > 0,
        server_token.len() > 0,
    ensures
        ({
            let credential = ServerCredentialView::Account {
                account_token,
                client_identifier: Some(client_identifier),
            };
            let store = apply_secret_patches(
                assigned_secrets(completed_progress(id, account_token, client_identifier).secret_patches),
                opened_secret_patches_of(credential, server_token),
            );
            &&& forall|i: int| 0 <= i < store.len() ==> store[i].key != "account_token"@
            &&& plex_settings_of(seq![server_url_setting(server_url)], store) == Ok::<
                PlexSettingsView,
                Seq<FieldProblemView>,
            >(PlexSettingsView { server_url, credential: ServerCredentialView::Token(server_token) })
        }),
{
    broadcast use {encode_utf8_valid_utf8, encode_utf8_decode_utf8};
    reveal_strlit("token");
    reveal_strlit("account_token");
    reveal_strlit("client_identifier");
    reveal_strlit("server_url");
    assert("account_token"@ != "token"@) by {
        assert("account_token"@.len() != "token"@.len());
    }
    assert("client_identifier"@ != "token"@) by {
        assert("client_identifier"@.len() != "token"@.len());
    }
    assert("client_identifier"@ != "account_token"@) by {
        assert("client_identifier"@.len() != "account_token"@.len());
    }
    let credential = ServerCredentialView::Account { account_token, client_identifier: Some(client_identifier) };
    let signed_in = completed_progress(id, account_token, client_identifier).secret_patches;
    reveal_with_fuel(assigned_secrets, 3);
    assert(signed_in.drop_last().drop_last() =~= seq![]);
    assert(signed_in.drop_last() =~= seq![signed_in[0]]);
    let account = SecretValueView { key: "account_token"@, value: encode_utf8(account_token) };
    let client = SecretValueView { key: "client_identifier"@, value: encode_utf8(client_identifier) };
    let stored = assigned_secrets(signed_in);
    assert(stored =~= seq![account, client]);

    let opened = opened_secret_patches_of(credential, server_token);
    reveal_with_fuel(apply_secret_patches, 3);
    reveal_with_fuel(without_secret, 3);
    assert(opened.drop_last().drop_last() =~= seq![]);
    assert(opened.drop_last() =~= seq![opened[0]]);
    let token = SecretValueView { key: "token"@, value: encode_utf8(server_token) };
    assert(seq![account, client].drop_last() =~= seq![account]);
    assert(seq![account].drop_last() =~= seq![]);
    let after_token = apply_secret_patches(stored, opened.drop_last());
    assert(without_secret(seq![account, client], "token"@) =~= seq![account, client]);
    assert(after_token =~= seq![account, client, token]);
    assert(seq![account, client, token].drop_last() =~= seq![account, client]);
    assert(without_secret(seq![account, client, token], "account_token"@) =~= seq![client, token]) by {
        reveal_with_fuel(without_secret, 4);
    }
    let store = apply_secret_patches(stored, opened);
    assert(store =~= seq![client, token]);

    let settings = seq![server_url_setting(server_url)];
    assert(settings.drop_last() =~= seq![]);
    let settings0 = scan_plex_settings(settings.drop_last());
    assert(settings0.seen =~= seq![]);
    assert(crate::adapter::text_of(settings.last().value) == Some(server_url));
    assert(scan_plex_settings(settings).problems =~= seq![]);
    assert(scan_plex_settings(settings).accepted == Some(server_url));

    assert(encode_utf8(client_identifier).len() > 0) by {
        if encode_utf8(client_identifier).len() == 0 {
            assert(encode_utf8(client_identifier) =~= Seq::<u8>::empty());
        }
    }
    assert(encode_utf8(server_token).len() > 0) by {
        if encode_utf8(server_token).len() == 0 {
            assert(encode_utf8(server_token) =~= Seq::<u8>::empty());
        }
    }
    assert(seq![client, token].drop_last() =~= seq![client]);
    assert(seq![client].drop_last() =~= seq![]);
    let scan0 = scan_plex_secrets(seq![client].drop_last());
    assert(scan0.seen =~= seq![]);
    let scan1 = scan_plex_secrets(seq![client]);
    assert(scan1.problems =~= seq![]);
    assert(scan1.seen =~= seq!["client_identifier"@]);
    assert(scan1.token is None);
    let scan = scan_plex_secrets(seq![client, token]);
    assert(scan.problems =~= seq![]);
    assert(scan.token == Some(server_token));
}

// ---------------------------------------------------------------------------
// Library sections
// ---------------------------------------------------------------------------

/// Whether listing the sections should be tried again under the older path:
/// only when the server does not know the newer one.
pub fn sections_fallback(error: &PlexError) -> (r: bool)
    ensures
        r == (error.status_of() == Some(404u16)),
{
    error.status() == Some(404u16)
}

/// The first of `sections` with this key.
pub open spec fn first_section(sections: Seq<LibrarySectionView>, key: Seq<char>) -> Option<LibrarySectionView>
    decreases sections.len(),
{
    if sections.len() == 0 {
        None
    } else if sections[0].key == key {
        Some(sections[0])
    } else {
        first_section(sections.drop_first(), key)
    }
}

/// The last of `sections` with this key: the one that a cache filled from
/// them in order keeps.
pub open spec fn last_section(sections: Seq<LibrarySectionView>, key: Seq<char>) -> Option<LibrarySectionView>
    decreases sections.len(),
{
    if sections.len() == 0 {
        None
    } else if sections.last().key == key {
        Some(sections.last())
    } else {
        last_section(sections.drop_last(), key)
    }
}

/// The first of freshly listed sections with this key.
pub fn find_section(sections: &Vec<LibrarySection>, key: &str) -> (r: Option<LibrarySection>)
    ensures
        r.deep_view() == first_section(sections.deep_view(), key@),
{
    let ghost all = sections.deep_view();
    assert(all.skip(0) =~= all);
    let mut i: usize = 0;
    while i < sections.len()
        invariant
            i <= sections.len(),
            all == sections.deep_view(),
            first_section(all, key@) == first_section(all.skip(i as int), key@),
        decreases sections.len() - i,
    {
        proof {
            assert(all.skip(i as int).drop_first() =~= all.skip(i + 1));
        }
        if same_text(sections[i].key.as_str(), key) {
            return Some(sections[i].duplicate());
        }
        i = i + 1;
    }
    proof {
        assert(all.skip(i as int).len() == 0);
    }
    None
}

/// The section with this key in a cache filled from listed sections in order,
/// a later section replacing an earlier one with the same key.
pub fn cached_section(cache: &Vec<LibrarySection>, key: &str) -> (r: Option<LibrarySection>)
    ensures
        r.deep_view() == last_section(cache.deep_view(), key@),
{
    let ghost all = cache.deep_view();
    assert(all.take(all.len() as int) =~= all);
    let mut i: usize = cache.len();
    while i > 0
        invariant
            i <= cache.len(),
            all == cache.deep_view(),
            last_section(all, key@) == last_section(all.take(i as int), key@),
        decreases i,
    {
        proof {
            assert(all.take(i as int).drop_last() =~= all.take(i - 1));
        }
        if same_text(cache[i - 1].key.as_str(), key) {
            return Some(cache[i - 1].duplicate());
        }
        i = i - 1;
    }
    None
}

/// The refusal of a request that a failed Plex request stopped: the service
/// is unavailable, and the message is how the failure reads.
pub fn plex_status(error: &PlexError) -> (r: ServiceError)
    ensures
        r.code == ServiceErrorCode::Unavailable,
        r.message@ == plex_error_text_of(*error),
{
    let text = error.text();
    ServiceError::new(ServiceErrorCode::Unavailable, text.as_str())
}

/// The section that a read names, found in a fresh listing of the server's
/// sections: the first with its key, the refusal of an unknown source when
/// none has it, or the refusal that a failed listing leads to.
pub fn listed_section(listing: &Result<Vec<LibrarySection>, PlexError>, key: &str) -> (r: Result<LibrarySection, ServiceError>)
    ensures
        match listing {
            Err(e) => r matches Err(x) && x.code == ServiceErrorCode::Unavailable && x.message@ == plex_error_text_of(*e),
            Ok(sections) => match first_section(sections.deep_view(), key@) {
                Some(section) => r matches Ok(found) && found.deep_view() == section,
                None => r matches Err(x) && x.code == ServiceErrorCode::NotFound && x.message@ == "source is unknown"@,
            },
        },
{
    match listing {
        Err(error) => Err(plex_status(error)),
        Ok(sections) => match find_section(sections, key) {
            Some(section) => Ok(section),
            None => Err(unknown_source()),
        },
    }
}

// ---------------------------------------------------------------------------
// Keys that requests name
// ---------------------------------------------------------------------------

/// The library section key that a request's source key names, or the refusal
/// of a missing or foreign source key.
pub fn source_section_key(source_key: &Option<Key>) -> (r: Result<&str, ServiceError>)
    ensures
        source_key is None ==> (r matches Err(e) && e.code == ServiceErrorCode::InvalidArgument && e.message@ == "source key is required"@),
        source_key matches Some(k) ==> match parsed_key(k@, "library:"@) {
            Some(section) => (r matches Ok(s) && s@ == section),
            None => (r matches Err(e) && e.code == ServiceErrorCode::InvalidArgument && e.message@ == "source key is invalid"@),
        },
{
    match source_key {
        None => Err(ServiceError::new(ServiceErrorCode::InvalidArgument, "source key is required")),
        Some(key) => match parse_source_key(key) {
            Some(section) => Ok(section),
            None => Err(ServiceError::new(ServiceErrorCode::InvalidArgument, "source key is invalid")),
        },
    }
}

/// The refusal of a source that the server does not list.
pub fn unknown_source() -> (r: ServiceError)
    ensures
        r.code == ServiceErrorCode::NotFound,
        r.message@ == "source is unknown"@,
{
    ServiceError::new(ServiceErrorCode::NotFound, "source is unknown")
}

/// The rating key and artwork kind that an asset request names, or the
/// refusal of a missing or malformed key.
pub fn asset_target<'a>(provider_item_key: &'a Option<Key>, asset_key: &'a Option<Key>) -> (r: Result<(&'a str, &'a str), ServiceError>)
    ensures
        r matches Ok(t) ==> (provider_item_key matches Some(ik) && (asset_key matches Some(ak) && parsed_key(ik@, "item:"@)
            == Some(t.0@) && asset_kind_of(ak@) == Some(t.1@))),
        r is Ok <==> (provider_item_key matches Some(ik) && (parsed_key(ik@, "item:"@) is Some && (asset_key matches Some(ak)
            && asset_kind_of(ak@) is Some))),
        r matches Err(e) ==> e.code == ServiceErrorCode::InvalidArgument,
        provider_item_key is None ==> (r matches Err(e) && e.message@ == "provider item key is required"@),
{
    let item_key = match provider_item_key {
        Some(key) => key,
        None => return Err(ServiceError::new(ServiceErrorCode::InvalidArgument, "provider item key is required")),
    };
    let rating_key = match parse_item_key(item_key) {
        Some(rating_key) => rating_key,
        None => return Err(ServiceError::new(ServiceErrorCode::InvalidArgument, "provider item key is invalid")),
    };
    let asset = match asset_key {
        Some(key) => key,
        None => return Err(ServiceError::new(ServiceErrorCode::InvalidArgument, "asset key is required")),
    };
    match asset_kind(asset) {
        Some(kind) => Ok((rating_key, kind)),
        None => Err(ServiceError::new(ServiceErrorCode::InvalidArgument, "asset key is invalid")),
    }
}

/// The rating key of the item that a state write names, or the refusal of a
/// subject that is not a Plex provider item.
pub fn writable_rating_key(subject: &Option<SubjectReference>) -> (r: Result<&str, ServiceError>)
    ensures
        subject_rating_key_of(subject.deep_view()) matches Some(k) ==> (r matches Ok(s) && s@ == k),
        subject_rating_key_of(subject.deep_view()) is None ==> (r matches Err(e) && e.code
            == ServiceErrorCode::InvalidArgument && e.message@ == "only Plex provider items are writable"@),
{
    match subject_rating_key(subject) {
        Some(rating_key) => Ok(rating_key),
        None => Err(ServiceError::new(ServiceErrorCode::InvalidArgument, "only Plex provider items are writable")),
    }
}

/// The failure of cancelling an operation that is not under way.
pub fn operation_not_found_failure() -> (r: OperationFailure)
    ensures
        is_plex_failure(
            r@,
            OperationFailureCategory::InvalidInput,
            "operation_not_found"@,
            "The Plex operation was not found."@,
            false,
        ),
{
    operation_failure(
        OperationFailureCategory::InvalidInput,
        "operation_not_found",
        "The Plex operation was not found.",
        false,
    )
}

/// Whether an operation may be cancelled: only one that is under way.
pub fn cancel_operation(operations: &OperationRegistry, operation_id: &Vec<u8>) -> (r: Result<(), OperationFailure>)
    ensures
        r is Ok <==> operations.holds(operation_id@),
        r matches Err(f) ==> is_plex_failure(
            f@,
            OperationFailureCategory::InvalidInput,
            "operation_not_found"@,
            "The Plex operation was not found."@,
            false,
        ),
{
    if operations.contains(operation_id) {
        Ok(())
    } else {
        Err(operation_not_found_failure())
    }
}

// ---------------------------------------------------------------------------
// Portable endpoints
// ---------------------------------------------------------------------------

/// Plex resolves no portable endpoint: each requested one is answered
/// unsupported, in order.
pub open spec fn endpoint_resolutions_of(endpoints: Seq<PortableEndpointView>) -> Seq<PortableEndpointResolutionView> {
    Seq::new(
        endpoints.len(),
        |i: int| PortableEndpointResolutionView { requested: Some(endpoints[i]), outcome: Some(EndpointOutcomeView::Unsupported) },
    )
}

/// The answers to a request to resolve portable endpoints.
pub fn endpoint_resolutions(endpoints: &Vec<PortableEndpoint>) -> (r: Vec<PortableEndpointResolution>)
    ensures
        r.deep_view() == endpoint_resolutions_of(endpoints.deep_view()),
{
    let mut results: Vec<PortableEndpointResolution> = Vec::new();
    let mut i: usize = 0;
    while i < endpoints.len()
        invariant
            i <= endpoints.len(),
            results.deep_view() =~= endpoint_resolutions_of(endpoints.deep_view()).take(i as int),
        decreases endpoints.len() - i,
    {
        push_item(
            &mut results,
            PortableEndpointResolution { requested: Some(endpoints[i].duplicate()), outcome: Some(EndpointOutcome::Unsupported) },
        );
        i = i + 1;
    }
    assert(endpoint_resolutions_of(endpoints.deep_view()).take(i as int) =~= endpoint_resolutions_of(endpoints.deep_view()));
    results
}

} // verus!
