//! Signing in with a Plex PIN: the attempts under way, the decision taken at
//! each step, and what each step answers.
use vstd::prelude::*;
use vstd::utf8::*;

use crate::adapter::{
    is_plex_failure, is_uuid_v4_text, operation_failure, plex_failure, failure_class_of, random_uuid, plex_settings_of, scan_plex_secrets,
    scan_plex_settings, PlexSettingsView, ServerCredentialView,
};
use crate::client::{normalized_base_url, PlexError, PRODUCT_NAME};
use crate::mapping::{key, key_view};
use crate::model::{Pin, PinView};
use crate::sdk::{
    push_item, AccountSnapshot, AccountSnapshotView, AuthenticationMethod, AuthenticationMethodView,
    AuthenticationProgress, AuthenticationProgressView, AuthenticationPrompt, AuthenticationPromptView,
    AuthenticationStatus, ConfigurationValueView, FieldProblemView, OperationFailure, OperationFailureCategory,
    SecretPatch, SecretPatchOperation, SecretPatchOperationView, SecretPatchView, SecretValueView, ValueKindView,
    ValueView,
};
use crate::text::{decimal_text, has_prefix, join2, owned, same_text, unsigned_decimal, utf8_bytes};

verus! {

/// The key of the one sign-in method.
pub const PIN_METHOD: &'static str = "plex/pin";
/// How long a PIN lives when Plex does not say.
pub const DEFAULT_PIN_LIFETIME_SECONDS: u64 = 300;
/// How long a host should wait before asking again about a PIN.
pub const PIN_RETRY_SECONDS: i64 = 2;

// ---------------------------------------------------------------------------
// Form encoding of the verification link
// ---------------------------------------------------------------------------

/// A byte that `application/x-www-form-urlencoded` leaves as it is.
pub open spec fn form_unchanged(b: u8) -> bool {
    b == 42 || b == 45 || b == 46 || (48 <= b && b <= 57) || (65 <= b && b <= 90) || b == 95 || (97
        <= b && b <= 122)
}

/// An upper-case hexadecimal digit.
pub open spec fn hex_digit(n: int) -> char {
    if n < 10 {
        (48 + n) as char
    } else {
        (55 + n) as char
    }
}

/// The form encoding of one byte: itself, `+` for a space, else `%` and two
/// upper-case hexadecimal digits.
pub open spec fn form_byte(b: u8) -> Seq<char> {
    if form_unchanged(b) {
        seq![b as char]
    } else if b == 32 {
        seq!['+']
    } else {
        seq!['%', hex_digit(b as int / 16), hex_digit(b as int % 16)]
    }
}

/// The form encoding of a byte sequence.
pub open spec fn form_encoded(bytes: Seq<u8>) -> Seq<char>
    decreases bytes.len(),
{
    if bytes.len() == 0 {
        seq![]
    } else {
        form_byte(bytes[0]) + form_encoded(bytes.drop_first())
    }
}

/// One name-value pair, form encoded.
pub open spec fn form_pair(pair: (Seq<char>, Seq<char>)) -> Seq<char> {
    form_encoded(encode_utf8(pair.0)) + "="@ + form_encoded(encode_utf8(pair.1))
}

/// Name-value pairs, form encoded and joined by `&`.
pub open spec fn form_pairs(pairs: Seq<(Seq<char>, Seq<char>)>) -> Seq<char>
    decreases pairs.len(),
{
    if pairs.len() == 0 {
        seq![]
    } else if pairs.len() == 1 {
        form_pair(pairs[0])
    } else {
        form_pairs(pairs.drop_last()) + "&"@ + form_pair(pairs.last())
    }
}

/// Name-value pairs in `application/x-www-form-urlencoded` form
/// (`form_urlencoded::Serializer` of the `url` crate, appending each pair to
/// an empty text): a pair is its encoded name, `=` and its encoded value, and
/// pairs are joined by `&`.
#[verifier::external_body]
fn form_urlencoded_pairs(pairs: &Vec<(String, String)>) -> (r: String)
    ensures
        r@ == form_pairs(pairs.deep_view()),
{
    let mut serializer = url::form_urlencoded::Serializer::new(String::new());
    serializer.extend_pairs(pairs.iter().map(|pair| (pair.0.as_str(), pair.1.as_str())));
    serializer.finish()
}

// ---------------------------------------------------------------------------
// Sign-in methods and prompts
// ---------------------------------------------------------------------------

/// The sign-in methods: a Plex PIN.
pub open spec fn authentication_methods_of() -> Seq<AuthenticationMethodView> {
    seq![AuthenticationMethodView { key: "plex/pin"@, display_name: "Sign in with Plex"@ }]
}

/// The sign-in methods.
pub fn authentication_methods() -> (r: Vec<AuthenticationMethod>)
    ensures
        r.deep_view() == authentication_methods_of(),
{
    let mut methods: Vec<AuthenticationMethod> = Vec::new();
    push_item(
        &mut methods,
        AuthenticationMethod { key: owned(PIN_METHOD), display_name: owned("Sign in with Plex") },
    );
    methods
}

/// The pairs of the verification link.
pub open spec fn prompt_pairs(client_identifier: Seq<char>, code: Seq<char>) -> Seq<(Seq<char>, Seq<char>)> {
    seq![
        ("clientID"@, client_identifier),
        ("code"@, code),
        ("context[device][product]"@, PRODUCT_NAME@),
    ]
}

/// What a person is shown to authorize a PIN: a link to Plex that carries the
/// client identifier, the code and the product name, and the code itself.
pub open spec fn authentication_prompt_of(client_identifier: Seq<char>, code: Seq<char>) -> AuthenticationPromptView {
    AuthenticationPromptView {
        message: "Open Plex to authorize this connection."@,
        verification_url: "https://app.plex.tv/auth#?"@ + form_pairs(prompt_pairs(client_identifier, code)),
        user_code: code,
        fields: seq![],
    }
}

/// What a person is shown to authorize a PIN.
pub fn authentication_prompt(client_identifier: &str, code: &str) -> (r: AuthenticationPrompt)
    ensures
        r@ == authentication_prompt_of(client_identifier@, code@),
{
    let mut pairs: Vec<(String, String)> = Vec::new();
    push_item(&mut pairs, (owned("clientID"), owned(client_identifier)));
    push_item(&mut pairs, (owned("code"), owned(code)));
    push_item(&mut pairs, (owned("context[device][product]"), owned(PRODUCT_NAME)));
    let fragment = form_urlencoded_pairs(&pairs);
    assert(pairs.deep_view() =~= prompt_pairs(client_identifier@, code@));
    let prompt = AuthenticationPrompt {
        message: owned("Open Plex to authorize this connection."),
        verification_url: join2("https://app.plex.tv/auth#?", fragment.as_str()),
        user_code: owned(code),
        fields: Vec::new(),
    };
    assert(prompt@.fields =~= seq![]);
    prompt
}

/// The failure of a request for a method other than the PIN.
pub fn unknown_method_failure() -> (r: OperationFailure)
    ensures
        is_plex_failure(
            r@,
            OperationFailureCategory::InvalidInput,
            "authentication_method_unknown"@,
            "The requested authentication method is not supported."@,
            false,
        ),
{
    operation_failure(
        OperationFailureCategory::InvalidInput,
        "authentication_method_unknown",
        "The requested authentication method is not supported.",
        false,
    )
}

/// Refuses every sign-in method but the PIN.
pub fn check_authentication_method(method: &str) -> (r: Option<OperationFailure>)
    ensures
        r is None <==> method@ == PIN_METHOD@,
        r matches Some(f) ==> is_plex_failure(
            f@,
            OperationFailureCategory::InvalidInput,
            "authentication_method_unknown"@,
            "The requested authentication method is not supported."@,
            false,
        ),
{
    if same_text(method, PIN_METHOD) {
        None
    } else {
        Some(unknown_method_failure())
    }
}

/// The failure of an attempt that is not under way.
pub fn authentication_not_found_failure() -> (r: OperationFailure)
    ensures
        is_plex_failure(
            r@,
            OperationFailureCategory::InvalidInput,
            "authentication_not_found"@,
            "The Plex authentication attempt was not found."@,
            false,
        ),
{
    operation_failure(
        OperationFailureCategory::InvalidInput,
        "authentication_not_found",
        "The Plex authentication attempt was not found.",
        false,
    )
}

/// The failure of asking Plex for a new PIN.
pub fn authentication_start_failure(error: &PlexError) -> (r: OperationFailure)
    ensures
        is_plex_failure(
            r@,
            failure_class_of(*error).0,
            "authentication_start_failed"@,
            "Plex authentication could not be started."@,
            failure_class_of(*error).1,
        ),
{
    plex_failure(error, "authentication_start_failed", "Plex authentication could not be started.")
}

/// The failure of asking Plex about a PIN.
pub fn authentication_check_failure(error: &PlexError) -> (r: OperationFailure)
    ensures
        is_plex_failure(
            r@,
            failure_class_of(*error).0,
            "authentication_check_failed"@,
            "Plex authentication status could not be checked."@,
            failure_class_of(*error).1,
        ),
{
    plex_failure(error, "authentication_check_failed", "Plex authentication status could not be checked.")
}

// ---------------------------------------------------------------------------
// Attempts under way
// ---------------------------------------------------------------------------

/// An attempt under way: its PIN, the code shown, and when it lapses, in
/// milliseconds of the adapter's clock.
#[derive(Clone, Debug, PartialEq, Eq)]
pub struct PendingAuthentication {
    pub pin_id: u64,
    pub code: String,
    pub expires_at_ms: u64,
}

pub struct PendingAuthenticationView {
    pub pin_id: u64,
    pub code: Seq<char>,
    pub expires_at_ms: u64,
}

impl View for PendingAuthentication {
    type V = PendingAuthenticationView;

    open spec fn view(&self) -> PendingAuthenticationView {
        PendingAuthenticationView { pin_id: self.pin_id, code: self.code@, expires_at_ms: self.expires_at_ms }
    }
}

impl PendingAuthentication {
    /// A copy with the same view.
    pub fn duplicate(&self) -> (r: PendingAuthentication)
        ensures
            r@ == self@,
    {
        PendingAuthentication { pin_id: self.pin_id, code: self.code.clone(), expires_at_ms: self.expires_at_ms }
    }
}

impl DeepView for PendingAuthentication {
    type V = PendingAuthenticationView;

    open spec fn deep_view(&self) -> PendingAuthenticationView {
        self.view()
    }
}

/// The lifetime of a PIN in seconds: what Plex says, at least one second, or
/// five minutes when Plex does not say.
pub open spec fn pin_lifetime_of(expires_in: Option<u64>) -> u64 {
    match expires_in {
        Some(seconds) => if seconds == 0 {
            1
        } else {
            seconds
        },
        None => DEFAULT_PIN_LIFETIME_SECONDS,
    }
}

/// The lifetime of a PIN in seconds.
pub fn pin_lifetime_seconds(expires_in: Option<u64>) -> (r: u64)
    ensures
        r == pin_lifetime_of(expires_in),
{
    match expires_in {
        Some(seconds) => if seconds == 0 {
            1
        } else {
            seconds
        },
        None => DEFAULT_PIN_LIFETIME_SECONDS,
    }
}

/// When an attempt started at `now_ms` with this PIN lapses: its lifetime
/// later, or at the end of the clock.
pub open spec fn expiry_of(pin: PinView, now_ms: u64) -> u64 {
    let at = now_ms + pin_lifetime_of(pin.expires_in) * 1000;
    if at > u64::MAX {
        u64::MAX
    } else {
        at as u64
    }
}

/// The attempt that a new PIN starts.
pub open spec fn pending_of(pin: PinView, now_ms: u64) -> PendingAuthenticationView {
    PendingAuthenticationView { pin_id: pin.id, code: pin.code, expires_at_ms: expiry_of(pin, now_ms) }
}

/// The attempt that a new PIN starts.
pub fn pending_authentication(pin: &Pin, now_ms: u64) -> (r: PendingAuthentication)
    ensures
        r@ == pending_of(pin@, now_ms),
{
    let lifetime = pin_lifetime_seconds(pin.expires_in);
    let expires_at_ms = if lifetime > (u64::MAX - now_ms) / 1000 {
        u64::MAX
    } else {
        now_ms + lifetime * 1000
    };
    PendingAuthentication { pin_id: pin.id, code: pin.code.clone(), expires_at_ms }
}

/// The attempts named by a list of entries, a later entry for a name
/// replacing an earlier one.
pub open spec fn entries_map(entries: Seq<(Seq<char>, PendingAuthenticationView)>) -> Map<Seq<char>, PendingAuthenticationView>
    decreases entries.len(),
{
    if entries.len() == 0 {
        Map::empty()
    } else {
        entries_map(entries.drop_last()).insert(entries.last().0, entries.last().1)
    }
}

/// A name that no entry from `from` on carries keeps what the entries before
/// `from` gave it.
proof fn lemma_entries_map_tail(entries: Seq<(Seq<char>, PendingAuthenticationView)>, from: int, id: Seq<char>)
    requires
        0 <= from <= entries.len(),
        forall|t: int| from <= t < entries.len() ==> entries[t].0 != id,
    ensures
        entries_map(entries).contains_key(id) == entries_map(entries.take(from)).contains_key(id),
        entries_map(entries).contains_key(id) ==> entries_map(entries)[id] == entries_map(entries.take(from))[id],
    decreases entries.len() - from,
{
    if from < entries.len() {
        let longer = entries.take(from + 1);
        assert(longer.drop_last() =~= entries.take(from));
        lemma_entries_map_tail(entries, from + 1, id);
    } else {
        assert(entries.take(from) =~= entries);
    }
}

/// The attempts under way, each under its identifier.
#[derive(Clone, Debug)]
pub struct PendingAuthentications {
    entries: Vec<(String, PendingAuthentication)>,
}

impl View for PendingAuthentications {
    type V = Map<Seq<char>, PendingAuthenticationView>;

    closed spec fn view(&self) -> Map<Seq<char>, PendingAuthenticationView> {
        entries_map(self.entries.deep_view())
    }
}

impl PendingAuthentications {
    /// No attempt under way.
    pub fn new() -> (r: PendingAuthentications)
        ensures
            r@ == Map::<Seq<char>, PendingAuthenticationView>::empty(),
    {
        let r = PendingAuthentications { entries: Vec::new() };
        assert(r.entries.deep_view() =~= Seq::<(Seq<char>, PendingAuthenticationView)>::empty());
        r
    }

    /// The attempt under `id`, if one is under way.
    pub fn get(&self, id: &str) -> (r: Option<PendingAuthentication>)
        ensures
            r is Some <==> self@.contains_key(id@),
            r matches Some(p) ==> p@ == self@[id@],
    {
        let ghost entries = self.entries.deep_view();
        let mut i: usize = self.entries.len();
        while i > 0
            invariant
                i <= self.entries.len(),
                entries == self.entries.deep_view(),
                forall|t: int| i <= t < entries.len() ==> entries[t].0 != id@,
            decreases i,
        {
            if same_text(self.entries[i - 1].0.as_str(), id) {
                proof {
                    lemma_entries_map_tail(entries, i as int, id@);
                    assert(entries.take(i as int).drop_last() =~= entries.take(i - 1));
                }
                let p = self.entries[i - 1].1.duplicate();
                proof {
                    assert(p@ == entries[i - 1].1);
                }
                return Some(p);
            }
            i = i - 1;
        }
        proof {
            lemma_entries_map_tail(entries, 0, id@);
            assert(entries.take(0) =~= Seq::<(Seq<char>, PendingAuthenticationView)>::empty());
        }
        None
    }

    /// Forgets the attempt under `id`; says whether there was one.
    pub fn remove(&mut self, id: &str) -> (r: bool)
        ensures
            r == old(self)@.contains_key(id@),
            final(self)@ == old(self)@.remove(id@),
    {
        let ghost before = self.entries.deep_view();
        let mut kept: Vec<(String, PendingAuthentication)> = Vec::new();
        let mut j: usize = 0;
        while j < self.entries.len()
            invariant
                j <= self.entries.len(),
                before == self.entries.deep_view(),
                entries_map(kept.deep_view()) == entries_map(before.take(j as int)).remove(id@),
            decreases self.entries.len() - j,
        {
            let ghost previous = kept.deep_view();
            let entry = (self.entries[j].0.clone(), self.entries[j].1.duplicate());
            proof {
                assert(before.take(j + 1).drop_last() =~= before.take(j as int));
                assert(entry.deep_view() == before[j as int]);
            }
            if same_text(entry.0.as_str(), id) {
                assert(entries_map(before.take(j + 1)).remove(id@) =~= entries_map(before.take(j as int)).remove(id@));
            } else {
                push_item(&mut kept, entry);
                assert(kept.deep_view().drop_last() =~= previous);
                assert(entries_map(before.take(j + 1)).remove(id@) =~= entries_map(before.take(j as int)).remove(id@).insert(before[j as int].0, before[j as int].1));
            }
            j = j + 1;
        }
        assert(before.take(before.len() as int) =~= before);
        let was_there = self.get(id).is_some();
        self.entries = kept;
        was_there
    }

    /// Records an attempt under `id`, replacing any attempt under it.
    pub fn insert(&mut self, id: String, pending: PendingAuthentication)
        ensures
            final(self)@ == old(self)@.insert(id@, pending@),
    {
        self.remove(id.as_str());
        let ghost removed = self.entries.deep_view();
        let ghost entry = (id@, pending@);
        self.entries.push((id, pending));
        assert(self.entries.deep_view().drop_last() =~= removed);
        assert(self.entries.deep_view().last() == entry);
        assert(old(self)@.remove(entry.0).insert(entry.0, entry.1) =~= old(self)@.insert(entry.0, entry.1));
    }
}

/// After an attempt is recorded it is found with what was recorded, and after
/// it is cancelled it is no longer found, whatever else is under way.
pub proof fn lemma_attempt_lifecycle(
    attempts: Map<Seq<char>, PendingAuthenticationView>,
    id: Seq<char>,
    pending: PendingAuthenticationView,
)
    ensures
        attempts.insert(id, pending).contains_key(id),
        attempts.insert(id, pending)[id] == pending,
        !attempts.insert(id, pending).remove(id).contains_key(id),
        forall|other: Seq<char>|
            other != id ==> (#[trigger] attempts.insert(id, pending).remove(id).contains_key(other)
                == attempts.contains_key(other)),
{
}

// ---------------------------------------------------------------------------
// The steps of a sign-in
// ---------------------------------------------------------------------------

/// An attempt identifier: `plex-pin-`, the PIN's number, `-` and a random
/// UUID.
pub open spec fn is_authentication_id(id: Seq<char>, pin_id: u64) -> bool {
    let prefix = "plex-pin-"@ + decimal_text(pin_id as int) + "-"@;
    has_prefix(id, prefix) && id.len() == prefix.len() + 36 && is_uuid_v4_text(id.skip(prefix.len() as int))
}

/// A fresh attempt identifier for a PIN.
pub fn authentication_id(pin_id: u64) -> (r: String)
    ensures
        is_authentication_id(r@, pin_id),
{
    let number = unsigned_decimal(pin_id);
    let head = join2("plex-pin-", number.as_str());
    let prefix = join2(head.as_str(), "-");
    let uuid = random_uuid();
    let id = join2(prefix.as_str(), uuid.as_str());
    proof {
        assert(id@.take(prefix@.len() as int) =~= prefix@);
        assert(id@.skip(prefix@.len() as int) =~= uuid@);
    }
    id
}

/// The progress of a sign-in, with nothing but its identifier and status.
pub open spec fn bare_progress(id: Seq<char>, status: AuthenticationStatus) -> AuthenticationProgressView {
    AuthenticationProgressView {
        authentication_id: id,
        status,
        prompt: None,
        retry_after_seconds: None,
        accounts: seq![],
        secret_patches: seq![],
    }
}

/// The progress that asks a person to authorize the PIN, and the host to ask
/// again after two seconds.
pub open spec fn prompting_progress(id: Seq<char>, status: AuthenticationStatus, client_identifier: Seq<char>, code: Seq<char>) -> AuthenticationProgressView {
    AuthenticationProgressView {
        prompt: Some(authentication_prompt_of(client_identifier, code)),
        retry_after_seconds: Some(PIN_RETRY_SECONDS),
        ..bare_progress(id, status)
    }
}

fn prompting(id: String, status: AuthenticationStatus, client_identifier: &str, code: &str) -> (r: AuthenticationProgress)
    ensures
        r@ == prompting_progress(id@, status, client_identifier@, code@),
{
    let r = AuthenticationProgress {
        authentication_id: id,
        status,
        prompt: Some(authentication_prompt(client_identifier, code)),
        retry_after_seconds: Some(PIN_RETRY_SECONDS),
        accounts: Vec::new(),
        secret_patches: Vec::new(),
    };
    assert(r@.accounts =~= seq![]);
    assert(r@.secret_patches =~= seq![]);
    r
}

/// Starts an attempt with a PIN that Plex handed out at `now_ms`: records it
/// under a fresh identifier and asks for the PIN to be authorized.
pub fn start_attempt(attempts: &mut PendingAuthentications, pin: &Pin, client_identifier: &str, now_ms: u64) -> (r: AuthenticationProgress)
    ensures
        is_authentication_id(r@.authentication_id, pin@.id),
        r@ == prompting_progress(r@.authentication_id, AuthenticationStatus::InputRequired, client_identifier@, pin@.code),
        final(attempts)@ == old(attempts)@.insert(r@.authentication_id, pending_of(pin@, now_ms)),
{
    let id = authentication_id(pin.id);
    let pending = pending_authentication(pin, now_ms);
    attempts.insert(id.clone(), pending);
    prompting(id, AuthenticationStatus::InputRequired, client_identifier, pin.code.as_str())
}

/// What to do when the host asks about an attempt.
#[derive(Clone, Debug, PartialEq, Eq)]
pub enum ContinueStep {
    /// No such attempt is under way.
    NotFound,
    /// The attempt lapsed; it has been forgotten.
    Expired,
    /// Ask Plex about this PIN.
    CheckPin { pin_id: u64, code: String },
}

/// What to do when the host asks about attempt `id` at `now_ms`: an unknown
/// attempt is not found, a lapsed one is forgotten and reported expired, and
/// otherwise Plex is asked about its PIN.
pub fn continue_step(attempts: &mut PendingAuthentications, id: &str, now_ms: u64) -> (r: ContinueStep)
    ensures
        !old(attempts)@.contains_key(id@) ==> r == ContinueStep::NotFound && final(attempts)@ == old(attempts)@,
        old(attempts)@.contains_key(id@) && now_ms >= old(attempts)@[id@].expires_at_ms ==> r == ContinueStep::Expired
            && final(attempts)@ == old(attempts)@.remove(id@),
        old(attempts)@.contains_key(id@) && now_ms < old(attempts)@[id@].expires_at_ms ==> (r matches ContinueStep::CheckPin { pin_id, code }
            && pin_id == old(attempts)@[id@].pin_id && code@ == old(attempts)@[id@].code)
            && final(attempts)@ == old(attempts)@,
{
    match attempts.get(id) {
        None => ContinueStep::NotFound,
        Some(pending) => if now_ms >= pending.expires_at_ms {
            attempts.remove(id);
            ContinueStep::Expired
        } else {
            ContinueStep::CheckPin { pin_id: pending.pin_id, code: pending.code }
        },
    }
}

/// The progress of a lapsed attempt.
pub fn expired_progress(id: String) -> (r: AuthenticationProgress)
    ensures
        r@ == bare_progress(id@, AuthenticationStatus::Expired),
{
    let r = AuthenticationProgress {
        authentication_id: id,
        status: AuthenticationStatus::Expired,
        prompt: None,
        retry_after_seconds: None,
        accounts: Vec::new(),
        secret_patches: Vec::new(),
    };
    assert(r@.accounts =~= seq![]);
    assert(r@.secret_patches =~= seq![]);
    r
}

/// The progress of a completed sign-in: the Plex account, and the secrets to
/// keep: the account's token, and the client identifier that it signed in
/// with, which later requests for the account's resources present again.
pub open spec fn completed_progress(id: Seq<char>, token: Seq<char>, client_identifier: Seq<char>) -> AuthenticationProgressView {
    AuthenticationProgressView {
        accounts: seq![AccountSnapshotView { key: Some(key_view("account:plex"@)), display_name: "Plex account"@ }],
        secret_patches: seq![
            SecretPatchView {
                key: "account_token"@,
                patch: Some(SecretPatchOperationView::Assign(encode_utf8(token))),
            },
            SecretPatchView {
                key: "client_identifier"@,
                patch: Some(SecretPatchOperationView::Assign(encode_utf8(client_identifier))),
            },
        ],
        ..bare_progress(id, AuthenticationStatus::Completed)
    }
}

/// What Plex said of the PIN of attempt `id`: with a token the sign-in is
/// complete and the attempt forgotten; without one, the person has not
/// authorized it yet and is asked again.
pub fn pin_checked(attempts: &mut PendingAuthentications, id: String, pin: &Pin, client_identifier: &str, code: &str) -> (r: AuthenticationProgress)
    ensures
        pin@.auth_token matches Some(token) ==> r@ == completed_progress(id@, token, client_identifier@) && final(attempts)@
            == old(attempts)@.remove(id@),
        pin@.auth_token is None ==> r@ == prompting_progress(id@, AuthenticationStatus::Waiting, client_identifier@, code@)
            && final(attempts)@ == old(attempts)@,
{
    match &pin.auth_token {
        Some(token) => {
            attempts.remove(id.as_str());
            let mut accounts: Vec<AccountSnapshot> = Vec::new();
            push_item(&mut accounts, AccountSnapshot { key: Some(key("account:plex")), display_name: owned("Plex account") });
            let mut secret_patches: Vec<SecretPatch> = Vec::new();
            push_item(
                &mut secret_patches,
                SecretPatch {
                    key: owned("account_token"),
                    patch: Some(SecretPatchOperation::Assign(utf8_bytes(token.as_str()))),
                },
            );
            push_item(
                &mut secret_patches,
                SecretPatch {
                    key: owned("client_identifier"),
                    patch: Some(SecretPatchOperation::Assign(utf8_bytes(client_identifier))),
                },
            );
            let r = AuthenticationProgress {
                authentication_id: id,
                status: AuthenticationStatus::Completed,
                prompt: None,
                retry_after_seconds: None,
                accounts,
                secret_patches,
            };
            assert(r@.accounts =~= completed_progress(r@.authentication_id, token@, client_identifier@).accounts);
            assert(r@.secret_patches =~= completed_progress(
                r@.authentication_id,
                token@,
                client_identifier@,
            ).secret_patches);
            r
        },
        None => prompting(id, AuthenticationStatus::Waiting, client_identifier, code),
    }
}

/// Cancels attempt `id`; refused when no such attempt is under way.
pub fn cancel_attempt(attempts: &mut PendingAuthentications, id: &str) -> (r: Result<(), OperationFailure>)
    ensures
        r is Ok <==> old(attempts)@.contains_key(id@),
        final(attempts)@ == old(attempts)@.remove(id@),
        r matches Err(f) ==> is_plex_failure(
            f@,
            OperationFailureCategory::InvalidInput,
            "authentication_not_found"@,
            "The Plex authentication attempt was not found."@,
            false,
        ),
{
    if attempts.remove(id) {
        Ok(())
    } else {
        Err(authentication_not_found_failure())
    }
}

/// The secrets that a host keeps after applying the assignments among
/// `patches` to an empty store, in order.
pub open spec fn assigned_secrets(patches: Seq<SecretPatchView>) -> Seq<SecretValueView>
    decreases patches.len(),
{
    if patches.len() == 0 {
        seq![]
    } else {
        let rest = assigned_secrets(patches.drop_last());
        match patches.last().patch {
            Some(SecretPatchOperationView::Assign(value)) => rest.push(SecretValueView { key: patches.last().key, value }),
            _ => rest,
        }
    }
}

/// The configuration that names a server URL.
pub open spec fn server_url_setting(server_url: Seq<char>) -> ConfigurationValueView {
    ConfigurationValueView { key: "server_url"@, value: Some(ValueView { value: Some(ValueKindView::Text(server_url)) }) }
}

/// Law: what a completed sign-in stores opens a connection. With a server
/// URL that names an acceptable server, the secrets that the completed
/// progress assigns give the account credential: the signed-in token and the
/// client identifier that the sign-in used.
pub proof fn lemma_signed_in_secrets_open(id: Seq<char>, server_url: Seq<char>, token: Seq<char>, client_identifier: Seq<char>)
    requires
        normalized_base_url(server_url) is Ok,
        token.len() > 0,
        client_identifier.len() > 0,
    ensures
        plex_settings_of(
            seq![server_url_setting(server_url)],
            assigned_secrets(completed_progress(id, token, client_identifier).secret_patches),
        ) == Ok::<PlexSettingsView, Seq<FieldProblemView>>(
            PlexSettingsView {
                server_url,
                credential: ServerCredentialView::Account {
                    account_token: token,
                    client_identifier: Some(client_identifier),
                },
            },
        ),
{
    let patches = completed_progress(id, token, client_identifier).secret_patches;
    let secrets = assigned_secrets(patches);
    reveal_with_fuel(assigned_secrets, 3);
    assert(patches.drop_last().drop_last() =~= seq![]);
    assert(patches.drop_last() =~= seq![patches[0]]);
    let expected = seq![
        SecretValueView { key: "account_token"@, value: encode_utf8(token) },
        SecretValueView { key: "client_identifier"@, value: encode_utf8(client_identifier) },
    ];
    assert(secrets =~= expected);
    let settings = seq![server_url_setting(server_url)];
    assert(settings.drop_last() =~= seq![]);
    reveal_strlit("token");
    reveal_strlit("account_token");
    reveal_strlit("client_identifier");
    reveal_strlit("server_url");
    assert(expected.drop_last() =~= seq![expected[0]]);
    assert(expected.drop_last().drop_last() =~= seq![]);
    assert(encode_utf8(token).len() > 0) by {
        lemma_encode_utf8_nonempty(token);
    }
    assert(encode_utf8(client_identifier).len() > 0) by {
        lemma_encode_utf8_nonempty(client_identifier);
    }
    broadcast use {encode_utf8_valid_utf8, encode_utf8_decode_utf8};
    assert("account_token"@ != "token"@) by {
        assert("account_token"@.len() != "token"@.len());
    }
    assert("client_identifier"@ != "token"@) by {
        assert("client_identifier"@.len() != "token"@.len());
    }
    let scan0 = scan_plex_secrets(expected.drop_last().drop_last());
    assert(scan0.seen =~= seq![]);
    let scan1 = scan_plex_secrets(expected.drop_last());
    assert(!scan0.seen.contains("account_token"@));
    assert(scan1.problems =~= seq![]);
    assert(scan1.seen =~= seq!["account_token"@]);
    assert(scan1.token is None);
    assert(scan1.account_token == Some(token));
    let scan = scan_plex_secrets(expected);
    assert(!seq!["account_token"@].contains("client_identifier"@)) by {
        assert("account_token"@ != "client_identifier"@) by {
            assert("account_token"@.len() != "client_identifier"@.len());
        }
    }
    assert(scan.problems =~= seq![]);
    let settings0 = scan_plex_settings(settings.drop_last());
    assert(settings0.seen =~= seq![]);
    assert(settings0.problems =~= seq![]);
    assert(!settings0.seen.contains("server_url"@));
    assert(crate::adapter::text_of(settings.last().value) == Some(server_url));
    assert(scan_plex_settings(settings).problems =~= seq![]);
    assert(scan_plex_settings(settings).accepted == Some(server_url));
}

/// The UTF-8 encoding of a non-empty text is not empty.
proof fn lemma_encode_utf8_nonempty(text: Seq<char>)
    requires
        text.len() > 0,
    ensures
        encode_utf8(text).len() > 0,
{
    if encode_utf8(text).len() == 0 {
        assert(decode_utf8(encode_utf8(text)) == text);
        assert(encode_utf8(text) =~= Seq::<u8>::empty());
    }
}

} // verus!
