//! Message types exchanged between a provider and its host, as plain values.
//!
//! Each message has a view whose text fields are character sequences and whose
//! byte fields are byte sequences; contracts across the crate speak of views.
use vstd::prelude::*;

verus! {

/// Copies a byte vector.
pub fn copy_bytes(v: &Vec<u8>) -> (r: Vec<u8>)
    ensures
        r@ == v@,
{
    vstd::slice::slice_to_vec(v.as_slice())
}

/// Appends `x` to `v`; the deep view grows by the view of `x`.
pub fn push_item<T: DeepView>(v: &mut Vec<T>, x: T)
    ensures
        final(v).deep_view() == old(v).deep_view().push(x.deep_view()),
{
    let ghost before = v.deep_view();
    let ghost xv = x.deep_view();
    v.push(x);
    assert(v.deep_view() =~= before.push(xv));
}

/// Copies an integer vector.
pub fn copy_integers(v: &Vec<i64>) -> (r: Vec<i64>)
    ensures
        r@ == v@,
{
    vstd::slice::slice_to_vec(v.as_slice())
}

/// Copies an optional text.
pub fn copy_optional_text(v: &Option<String>) -> (r: Option<String>)
    ensures
        r.deep_view() == v.deep_view(),
{
    match v {
        Some(s) => Some(s.clone()),
        None => None,
    }
}

/// Copies a vector of texts.
pub fn copy_texts(v: &Vec<String>) -> (r: Vec<String>)
    ensures
        r.deep_view() == v.deep_view(),
{
    let mut r: Vec<String> = Vec::new();
    let mut i: usize = 0;
    while i < v.len()
        invariant
            i <= v.len(),
            r.len() == i,
            forall|j: int| 0 <= j < i ==> #[trigger] r@[j]@ == v@[j]@,
        decreases v.len() - i,
    {
        let x = v[i].clone();
        r.push(x);
        i = i + 1;
    }
    assert(r.deep_view() =~= v.deep_view());
    r
}

#[derive(Clone, Copy, Debug, PartialEq, Eq, Structural, Default)]
pub enum ConfigurationValueKind {
    #[default]
    Unspecified,
    Text,
    Boolean,
    Integer,
    Decimal,
}

#[derive(Clone, Copy, Debug, PartialEq, Eq, Structural, Default)]
pub enum StateFieldQuantizer {
    #[default]
    Unspecified,
    Exact,
}

#[derive(Clone, Copy, Debug, PartialEq, Eq, Structural, Default)]
pub enum CoordinateBacking {
    #[default]
    Unspecified,
    Materialized,
    Virtual,
    Aggregate,
}

#[derive(Clone, Copy, Debug, PartialEq, Eq, Structural, Default)]
pub enum OperationFailureCategory {
    #[default]
    Unspecified,
    InvalidInput,
    Authentication,
    Authorization,
    RateLimited,
    Unavailable,
    Conflict,
    Unsupported,
    InvalidRemoteData,
    Internal,
}

#[derive(Clone, Copy, Debug, PartialEq, Eq, Structural, Default)]
pub enum RetryDisposition {
    #[default]
    Unspecified,
    Retryable,
    NotRetryable,
}

#[derive(Clone, Copy, Debug, PartialEq, Eq, Structural, Default)]
pub enum ReadMode {
    #[default]
    Unspecified,
    Full,
    Incremental,
}

#[derive(Clone, Copy, Debug, PartialEq, Eq, Structural, Default)]
pub enum SourceAvailability {
    #[default]
    Unspecified,
    Available,
}

#[derive(Clone, Copy, Debug, PartialEq, Eq, Structural, Default)]
pub enum SourceMembership {
    #[default]
    Unspecified,
    Present,
    Absent,
}

#[derive(Clone, Copy, Debug, PartialEq, Eq, Structural, Default)]
pub enum StatePresence {
    #[default]
    Unspecified,
    Unknown,
    Present,
    Absent,
    Deleted,
}

#[derive(Clone, Copy, Debug, PartialEq, Eq, Structural, Default)]
pub enum TargetedStateWritePreconditionMode {
    #[default]
    Unspecified,
    HostRecheckOnly,
    ProviderToken,
}

#[derive(Clone, Copy, Debug, PartialEq, Eq, Structural, Default)]
pub enum TargetedStateWriteIdempotencyMode {
    #[default]
    Unspecified,
    StableKey,
}

#[derive(Clone, Copy, Debug, PartialEq, Eq, Structural, Default)]
pub enum TargetedStateWriteStatus {
    #[default]
    Unspecified,
    Applied,
    Rejected,
    Indeterminate,
}

#[derive(Clone, Copy, Debug, PartialEq, Eq, Structural, Default)]
pub enum TargetedStateWriteCertainty {
    #[default]
    Unknown,
    ConfirmedApplied,
    ConfirmedNotApplied,
}

#[derive(Clone, Copy, Debug, PartialEq, Eq, Structural, Default)]
pub enum TargetedStateWriteRetryDisposition {
    #[default]
    Unspecified,
    NotRetryable,
    ReconcileFirst,
}

#[derive(Clone, Copy, Debug, PartialEq, Eq, Structural, Default)]
pub enum TargetedStateMembershipEffect {
    #[default]
    Unknown,
    Unchanged,
    Created,
}

#[derive(Clone, Copy, Debug, PartialEq, Eq, Structural, Default)]
pub enum TargetedStateFieldEffectKind {
    #[default]
    Unknown,
    Assigned,
    Cleared,
}

#[derive(Clone, Copy, Debug, PartialEq, Eq, Structural, Default)]
pub enum AuthenticationStatus {
    #[default]
    Unspecified,
    InputRequired,
    Waiting,
    Completed,
    Expired,
}

#[derive(Clone, Copy, Debug, PartialEq, Eq, Structural, Default)]
pub enum HealthStatus {
    #[default]
    Unspecified,
    Ready,
}

#[derive(Clone, Debug, PartialEq, Eq, Default)]
pub struct Key {
    pub namespace: String,
    pub value: Vec<u8>,
}

pub struct KeyView {
    pub namespace: Seq<char>,
    pub value: Seq<u8>,
}

impl View for Key {
    type V = KeyView;

    open spec fn view(&self) -> KeyView {
        KeyView { namespace: self.namespace@, value: self.value@ }
    }
}

impl DeepView for Key {
    type V = KeyView;

    open spec fn deep_view(&self) -> KeyView {
        self.view()
    }
}

impl Key {
    /// Copies the value, keeping its view.
    pub fn duplicate(&self) -> (r: Key)
        ensures
            r@ == self@,
    {
        Key { namespace: (&self.namespace).clone(), value: copy_bytes((&self.value)) }
    }

    /// Copies every element of `v`, keeping each element's view.
    pub fn duplicate_all(v: &Vec<Key>) -> (r: Vec<Key>)
        ensures
            r.deep_view() == v.deep_view(),
    {
        let mut r: Vec<Key> = Vec::new();
        let mut i: usize = 0;
        while i < v.len()
            invariant
                i <= v.len(),
                r.len() == i,
                forall|j: int| 0 <= j < i ==> #[trigger] r@[j].deep_view() == v@[j].deep_view(),
            decreases v.len() - i,
        {
            let x = v[i].duplicate();
            r.push(x);
            i = i + 1;
        }
        assert(r.deep_view() =~= v.deep_view());
        r
    }
}

#[derive(Clone, Debug, PartialEq, Eq, Default)]
pub struct Term {
    pub namespace: String,
    pub name: String,
}

pub struct TermView {
    pub namespace: Seq<char>,
    pub name: Seq<char>,
}

impl View for Term {
    type V = TermView;

    open spec fn view(&self) -> TermView {
        TermView { namespace: self.namespace@, name: self.name@ }
    }
}

impl DeepView for Term {
    type V = TermView;

    open spec fn deep_view(&self) -> TermView {
        self.view()
    }
}

impl Term {
    /// Copies the value, keeping its view.
    pub fn duplicate(&self) -> (r: Term)
        ensures
            r@ == self@,
    {
        Term { namespace: (&self.namespace).clone(), name: (&self.name).clone() }
    }

    /// Copies every element of `v`, keeping each element's view.
    pub fn duplicate_all(v: &Vec<Term>) -> (r: Vec<Term>)
        ensures
            r.deep_view() == v.deep_view(),
    {
        let mut r: Vec<Term> = Vec::new();
        let mut i: usize = 0;
        while i < v.len()
            invariant
                i <= v.len(),
                r.len() == i,
                forall|j: int| 0 <= j < i ==> #[trigger] r@[j].deep_view() == v@[j].deep_view(),
            decreases v.len() - i,
        {
            let x = v[i].duplicate();
            r.push(x);
            i = i + 1;
        }
        assert(r.deep_view() =~= v.deep_view());
        r
    }
}

#[derive(Clone, Debug, PartialEq, Eq, Default)]
pub struct PortableReference {
    pub namespace: String,
    pub value: Vec<u8>,
}

pub struct PortableReferenceView {
    pub namespace: Seq<char>,
    pub value: Seq<u8>,
}

impl View for PortableReference {
    type V = PortableReferenceView;

    open spec fn view(&self) -> PortableReferenceView {
        PortableReferenceView { namespace: self.namespace@, value: self.value@ }
    }
}

impl DeepView for PortableReference {
    type V = PortableReferenceView;

    open spec fn deep_view(&self) -> PortableReferenceView {
        self.view()
    }
}

impl PortableReference {
    /// Copies the value, keeping its view.
    pub fn duplicate(&self) -> (r: PortableReference)
        ensures
            r@ == self@,
    {
        PortableReference { namespace: (&self.namespace).clone(), value: copy_bytes((&self.value)) }
    }

    /// Copies every element of `v`, keeping each element's view.
    pub fn duplicate_all(v: &Vec<PortableReference>) -> (r: Vec<PortableReference>)
        ensures
            r.deep_view() == v.deep_view(),
    {
        let mut r: Vec<PortableReference> = Vec::new();
        let mut i: usize = 0;
        while i < v.len()
            invariant
                i <= v.len(),
                r.len() == i,
                forall|j: int| 0 <= j < i ==> #[trigger] r@[j].deep_view() == v@[j].deep_view(),
            decreases v.len() - i,
        {
            let x = v[i].duplicate();
            r.push(x);
            i = i + 1;
        }
        assert(r.deep_view() =~= v.deep_view());
        r
    }
}

#[derive(Clone, Debug, PartialEq, Eq, Default)]
pub struct PortableEndpoint {
    pub reference: Option<PortableReference>,
    pub selector: String,
}

pub struct PortableEndpointView {
    pub reference: Option<PortableReferenceView>,
    pub selector: Seq<char>,
}

impl View for PortableEndpoint {
    type V = PortableEndpointView;

    open spec fn view(&self) -> PortableEndpointView {
        PortableEndpointView { reference: self.reference.deep_view(), selector: self.selector@ }
    }
}

impl DeepView for PortableEndpoint {
    type V = PortableEndpointView;

    open spec fn deep_view(&self) -> PortableEndpointView {
        self.view()
    }
}

impl PortableEndpoint {
    /// Copies the value, keeping its view.
    pub fn duplicate(&self) -> (r: PortableEndpoint)
        ensures
            r@ == self@,
    {
        PortableEndpoint { reference: match (&self.reference) { Some(x) => Some(x.duplicate()), None => None }, selector: (&self.selector).clone() }
    }

    /// Copies every element of `v`, keeping each element's view.
    pub fn duplicate_all(v: &Vec<PortableEndpoint>) -> (r: Vec<PortableEndpoint>)
        ensures
            r.deep_view() == v.deep_view(),
    {
        let mut r: Vec<PortableEndpoint> = Vec::new();
        let mut i: usize = 0;
        while i < v.len()
            invariant
                i <= v.len(),
                r.len() == i,
                forall|j: int| 0 <= j < i ==> #[trigger] r@[j].deep_view() == v@[j].deep_view(),
            decreases v.len() - i,
        {
            let x = v[i].duplicate();
            r.push(x);
            i = i + 1;
        }
        assert(r.deep_view() =~= v.deep_view());
        r
    }
}

#[derive(Clone, Debug, PartialEq, Eq, Default)]
pub struct DecimalValue {
    pub value: String,
}

pub struct DecimalValueView {
    pub value: Seq<char>,
}

impl View for DecimalValue {
    type V = DecimalValueView;

    open spec fn view(&self) -> DecimalValueView {
        DecimalValueView { value: self.value@ }
    }
}

impl DeepView for DecimalValue {
    type V = DecimalValueView;

    open spec fn deep_view(&self) -> DecimalValueView {
        self.view()
    }
}

impl DecimalValue {
    /// Copies the value, keeping its view.
    pub fn duplicate(&self) -> (r: DecimalValue)
        ensures
            r@ == self@,
    {
        DecimalValue { value: (&self.value).clone() }
    }

    /// Copies every element of `v`, keeping each element's view.
    pub fn duplicate_all(v: &Vec<DecimalValue>) -> (r: Vec<DecimalValue>)
        ensures
            r.deep_view() == v.deep_view(),
    {
        let mut r: Vec<DecimalValue> = Vec::new();
        let mut i: usize = 0;
        while i < v.len()
            invariant
                i <= v.len(),
                r.len() == i,
                forall|j: int| 0 <= j < i ==> #[trigger] r@[j].deep_view() == v@[j].deep_view(),
            decreases v.len() - i,
        {
            let x = v[i].duplicate();
            r.push(x);
            i = i + 1;
        }
        assert(r.deep_view() =~= v.deep_view());
        r
    }
}

#[derive(Clone, Debug, PartialEq, Eq, Default)]
pub struct Value {
    pub value: Option<ValueKind>,
}

pub struct ValueView {
    pub value: Option<ValueKindView>,
}

impl View for Value {
    type V = ValueView;

    open spec fn view(&self) -> ValueView {
        ValueView { value: self.value.deep_view() }
    }
}

impl DeepView for Value {
    type V = ValueView;

    open spec fn deep_view(&self) -> ValueView {
        self.view()
    }
}

impl Value {
    /// Copies the value, keeping its view.
    pub fn duplicate(&self) -> (r: Value)
        ensures
            r@ == self@,
    {
        Value { value: match (&self.value) { Some(x) => Some(x.duplicate()), None => None } }
    }

    /// Copies every element of `v`, keeping each element's view.
    pub fn duplicate_all(v: &Vec<Value>) -> (r: Vec<Value>)
        ensures
            r.deep_view() == v.deep_view(),
    {
        let mut r: Vec<Value> = Vec::new();
        let mut i: usize = 0;
        while i < v.len()
            invariant
                i <= v.len(),
                r.len() == i,
                forall|j: int| 0 <= j < i ==> #[trigger] r@[j].deep_view() == v@[j].deep_view(),
            decreases v.len() - i,
        {
            let x = v[i].duplicate();
            r.push(x);
            i = i + 1;
        }
        assert(r.deep_view() =~= v.deep_view());
        r
    }
}

#[derive(Clone, Debug, PartialEq, Eq, Default)]
pub struct Attribute {
    pub term: Option<Term>,
    pub value: Option<Value>,
}

pub struct AttributeView {
    pub term: Option<TermView>,
    pub value: Option<ValueView>,
}

impl View for Attribute {
    type V = AttributeView;

    open spec fn view(&self) -> AttributeView {
        AttributeView { term: self.term.deep_view(), value: self.value.deep_view() }
    }
}

impl DeepView for Attribute {
    type V = AttributeView;

    open spec fn deep_view(&self) -> AttributeView {
        self.view()
    }
}

impl Attribute {
    /// Copies the value, keeping its view.
    pub fn duplicate(&self) -> (r: Attribute)
        ensures
            r@ == self@,
    {
        Attribute { term: match (&self.term) { Some(x) => Some(x.duplicate()), None => None }, value: match (&self.value) { Some(x) => Some(x.duplicate()), None => None } }
    }

    /// Copies every element of `v`, keeping each element's view.
    pub fn duplicate_all(v: &Vec<Attribute>) -> (r: Vec<Attribute>)
        ensures
            r.deep_view() == v.deep_view(),
    {
        let mut r: Vec<Attribute> = Vec::new();
        let mut i: usize = 0;
        while i < v.len()
            invariant
                i <= v.len(),
                r.len() == i,
                forall|j: int| 0 <= j < i ==> #[trigger] r@[j].deep_view() == v@[j].deep_view(),
            decreases v.len() - i,
        {
            let x = v[i].duplicate();
            r.push(x);
            i = i + 1;
        }
        assert(r.deep_view() =~= v.deep_view());
        r
    }
}

#[derive(Clone, Debug, PartialEq, Eq, Default)]
pub struct BinaryAssetReference {
    pub key: Option<Key>,
    pub kind: Option<Term>,
}

pub struct BinaryAssetReferenceView {
    pub key: Option<KeyView>,
    pub kind: Option<TermView>,
}

impl View for BinaryAssetReference {
    type V = BinaryAssetReferenceView;

    open spec fn view(&self) -> BinaryAssetReferenceView {
        BinaryAssetReferenceView { key: self.key.deep_view(), kind: self.kind.deep_view() }
    }
}

impl DeepView for BinaryAssetReference {
    type V = BinaryAssetReferenceView;

    open spec fn deep_view(&self) -> BinaryAssetReferenceView {
        self.view()
    }
}

impl BinaryAssetReference {
    /// Copies the value, keeping its view.
    pub fn duplicate(&self) -> (r: BinaryAssetReference)
        ensures
            r@ == self@,
    {
        BinaryAssetReference { key: match (&self.key) { Some(x) => Some(x.duplicate()), None => None }, kind: match (&self.kind) { Some(x) => Some(x.duplicate()), None => None } }
    }

    /// Copies every element of `v`, keeping each element's view.
    pub fn duplicate_all(v: &Vec<BinaryAssetReference>) -> (r: Vec<BinaryAssetReference>)
        ensures
            r.deep_view() == v.deep_view(),
    {
        let mut r: Vec<BinaryAssetReference> = Vec::new();
        let mut i: usize = 0;
        while i < v.len()
            invariant
                i <= v.len(),
                r.len() == i,
                forall|j: int| 0 <= j < i ==> #[trigger] r@[j].deep_view() == v@[j].deep_view(),
            decreases v.len() - i,
        {
            let x = v[i].duplicate();
            r.push(x);
            i = i + 1;
        }
        assert(r.deep_view() =~= v.deep_view());
        r
    }
}

#[derive(Clone, Debug, PartialEq, Eq, Default)]
pub struct ProviderItem {
    pub key: Option<Key>,
    pub kind: Option<Term>,
    pub display_name: String,
    pub attributes: Vec<Attribute>,
    pub portable_reference_candidates: Vec<PortableReference>,
    pub assets: Vec<BinaryAssetReference>,
    pub recommended_mapping_roots: Vec<PortableReference>,
}

pub struct ProviderItemView {
    pub key: Option<KeyView>,
    pub kind: Option<TermView>,
    pub display_name: Seq<char>,
    pub attributes: Seq<AttributeView>,
    pub portable_reference_candidates: Seq<PortableReferenceView>,
    pub assets: Seq<BinaryAssetReferenceView>,
    pub recommended_mapping_roots: Seq<PortableReferenceView>,
}

impl View for ProviderItem {
    type V = ProviderItemView;

    open spec fn view(&self) -> ProviderItemView {
        ProviderItemView { key: self.key.deep_view(), kind: self.kind.deep_view(), display_name: self.display_name@, attributes: self.attributes.deep_view(), portable_reference_candidates: self.portable_reference_candidates.deep_view(), assets: self.assets.deep_view(), recommended_mapping_roots: self.recommended_mapping_roots.deep_view() }
    }
}

impl DeepView for ProviderItem {
    type V = ProviderItemView;

    open spec fn deep_view(&self) -> ProviderItemView {
        self.view()
    }
}

impl ProviderItem {
    /// Copies the value, keeping its view.
    pub fn duplicate(&self) -> (r: ProviderItem)
        ensures
            r@ == self@,
    {
        ProviderItem { key: match (&self.key) { Some(x) => Some(x.duplicate()), None => None }, kind: match (&self.kind) { Some(x) => Some(x.duplicate()), None => None }, display_name: (&self.display_name).clone(), attributes: Attribute::duplicate_all((&self.attributes)), portable_reference_candidates: PortableReference::duplicate_all((&self.portable_reference_candidates)), assets: BinaryAssetReference::duplicate_all((&self.assets)), recommended_mapping_roots: PortableReference::duplicate_all((&self.recommended_mapping_roots)) }
    }

    /// Copies every element of `v`, keeping each element's view.
    pub fn duplicate_all(v: &Vec<ProviderItem>) -> (r: Vec<ProviderItem>)
        ensures
            r.deep_view() == v.deep_view(),
    {
        let mut r: Vec<ProviderItem> = Vec::new();
        let mut i: usize = 0;
        while i < v.len()
            invariant
                i <= v.len(),
                r.len() == i,
                forall|j: int| 0 <= j < i ==> #[trigger] r@[j].deep_view() == v@[j].deep_view(),
            decreases v.len() - i,
        {
            let x = v[i].duplicate();
            r.push(x);
            i = i + 1;
        }
        assert(r.deep_view() =~= v.deep_view());
        r
    }
}

#[derive(Clone, Debug, PartialEq, Eq, Default)]
pub struct CatalogRelation {
    pub key: Option<Key>,
    pub parent_key: Option<Key>,
    pub provider_item_key: Option<Key>,
    pub kind: Option<Term>,
    pub order: Vec<i64>,
    pub attributes: Vec<Attribute>,
}

pub struct CatalogRelationView {
    pub key: Option<KeyView>,
    pub parent_key: Option<KeyView>,
    pub provider_item_key: Option<KeyView>,
    pub kind: Option<TermView>,
    pub order: Seq<i64>,
    pub attributes: Seq<AttributeView>,
}

impl View for CatalogRelation {
    type V = CatalogRelationView;

    open spec fn view(&self) -> CatalogRelationView {
        CatalogRelationView { key: self.key.deep_view(), parent_key: self.parent_key.deep_view(), provider_item_key: self.provider_item_key.deep_view(), kind: self.kind.deep_view(), order: self.order@, attributes: self.attributes.deep_view() }
    }
}

impl DeepView for CatalogRelation {
    type V = CatalogRelationView;

    open spec fn deep_view(&self) -> CatalogRelationView {
        self.view()
    }
}

impl CatalogRelation {
    /// Copies the value, keeping its view.
    pub fn duplicate(&self) -> (r: CatalogRelation)
        ensures
            r@ == self@,
    {
        CatalogRelation { key: match (&self.key) { Some(x) => Some(x.duplicate()), None => None }, parent_key: match (&self.parent_key) { Some(x) => Some(x.duplicate()), None => None }, provider_item_key: match (&self.provider_item_key) { Some(x) => Some(x.duplicate()), None => None }, kind: match (&self.kind) { Some(x) => Some(x.duplicate()), None => None }, order: copy_integers((&self.order)), attributes: Attribute::duplicate_all((&self.attributes)) }
    }

    /// Copies every element of `v`, keeping each element's view.
    pub fn duplicate_all(v: &Vec<CatalogRelation>) -> (r: Vec<CatalogRelation>)
        ensures
            r.deep_view() == v.deep_view(),
    {
        let mut r: Vec<CatalogRelation> = Vec::new();
        let mut i: usize = 0;
        while i < v.len()
            invariant
                i <= v.len(),
                r.len() == i,
                forall|j: int| 0 <= j < i ==> #[trigger] r@[j].deep_view() == v@[j].deep_view(),
            decreases v.len() - i,
        {
            let x = v[i].duplicate();
            r.push(x);
            i = i + 1;
        }
        assert(r.deep_view() =~= v.deep_view());
        r
    }
}

#[derive(Clone, Debug, PartialEq, Eq, Default)]
pub struct StateField {
    pub field: Option<Term>,
    pub unit: Option<Term>,
}

pub struct StateFieldView {
    pub field: Option<TermView>,
    pub unit: Option<TermView>,
}

impl View for StateField {
    type V = StateFieldView;

    open spec fn view(&self) -> StateFieldView {
        StateFieldView { field: self.field.deep_view(), unit: self.unit.deep_view() }
    }
}

impl DeepView for StateField {
    type V = StateFieldView;

    open spec fn deep_view(&self) -> StateFieldView {
        self.view()
    }
}

impl StateField {
    /// Copies the value, keeping its view.
    pub fn duplicate(&self) -> (r: StateField)
        ensures
            r@ == self@,
    {
        StateField { field: match (&self.field) { Some(x) => Some(x.duplicate()), None => None }, unit: match (&self.unit) { Some(x) => Some(x.duplicate()), None => None } }
    }

    /// Copies every element of `v`, keeping each element's view.
    pub fn duplicate_all(v: &Vec<StateField>) -> (r: Vec<StateField>)
        ensures
            r.deep_view() == v.deep_view(),
    {
        let mut r: Vec<StateField> = Vec::new();
        let mut i: usize = 0;
        while i < v.len()
            invariant
                i <= v.len(),
                r.len() == i,
                forall|j: int| 0 <= j < i ==> #[trigger] r@[j].deep_view() == v@[j].deep_view(),
            decreases v.len() - i,
        {
            let x = v[i].duplicate();
            r.push(x);
            i = i + 1;
        }
        assert(r.deep_view() =~= v.deep_view());
        r
    }
}

#[derive(Clone, Debug, PartialEq, Eq, Default)]
pub struct SubjectReference {
    pub subject: Option<Subject>,
}

pub struct SubjectReferenceView {
    pub subject: Option<SubjectView>,
}

impl View for SubjectReference {
    type V = SubjectReferenceView;

    open spec fn view(&self) -> SubjectReferenceView {
        SubjectReferenceView { subject: self.subject.deep_view() }
    }
}

impl DeepView for SubjectReference {
    type V = SubjectReferenceView;

    open spec fn deep_view(&self) -> SubjectReferenceView {
        self.view()
    }
}

impl SubjectReference {
    /// Copies the value, keeping its view.
    pub fn duplicate(&self) -> (r: SubjectReference)
        ensures
            r@ == self@,
    {
        SubjectReference { subject: match (&self.subject) { Some(x) => Some(x.duplicate()), None => None } }
    }

    /// Copies every element of `v`, keeping each element's view.
    pub fn duplicate_all(v: &Vec<SubjectReference>) -> (r: Vec<SubjectReference>)
        ensures
            r.deep_view() == v.deep_view(),
    {
        let mut r: Vec<SubjectReference> = Vec::new();
        let mut i: usize = 0;
        while i < v.len()
            invariant
                i <= v.len(),
                r.len() == i,
                forall|j: int| 0 <= j < i ==> #[trigger] r@[j].deep_view() == v@[j].deep_view(),
            decreases v.len() - i,
        {
            let x = v[i].duplicate();
            r.push(x);
            i = i + 1;
        }
        assert(r.deep_view() =~= v.deep_view());
        r
    }
}

#[derive(Clone, Debug, PartialEq, Eq, Default)]
pub struct StateDeletion {
}

pub struct StateDeletionView {
}

impl View for StateDeletion {
    type V = StateDeletionView;

    open spec fn view(&self) -> StateDeletionView {
        StateDeletionView {  }
    }
}

impl DeepView for StateDeletion {
    type V = StateDeletionView;

    open spec fn deep_view(&self) -> StateDeletionView {
        self.view()
    }
}

impl StateDeletion {
    /// Copies the value, keeping its view.
    pub fn duplicate(&self) -> (r: StateDeletion)
        ensures
            r@ == self@,
    {
        StateDeletion {  }
    }

    /// Copies every element of `v`, keeping each element's view.
    pub fn duplicate_all(v: &Vec<StateDeletion>) -> (r: Vec<StateDeletion>)
        ensures
            r.deep_view() == v.deep_view(),
    {
        let mut r: Vec<StateDeletion> = Vec::new();
        let mut i: usize = 0;
        while i < v.len()
            invariant
                i <= v.len(),
                r.len() == i,
                forall|j: int| 0 <= j < i ==> #[trigger] r@[j].deep_view() == v@[j].deep_view(),
            decreases v.len() - i,
        {
            let x = v[i].duplicate();
            r.push(x);
            i = i + 1;
        }
        assert(r.deep_view() =~= v.deep_view());
        r
    }
}

#[derive(Clone, Debug, PartialEq, Eq, Default)]
pub struct StateObservation {
    pub subject: Option<SubjectReference>,
    pub field: Option<StateField>,
    pub observation: Option<Observation>,
    pub provider_revision: Vec<u8>,
    pub observed_time_milliseconds: i64,
}

pub struct StateObservationView {
    pub subject: Option<SubjectReferenceView>,
    pub field: Option<StateFieldView>,
    pub observation: Option<ObservationView>,
    pub provider_revision: Seq<u8>,
    pub observed_time_milliseconds: i64,
}

impl View for StateObservation {
    type V = StateObservationView;

    open spec fn view(&self) -> StateObservationView {
        StateObservationView { subject: self.subject.deep_view(), field: self.field.deep_view(), observation: self.observation.deep_view(), provider_revision: self.provider_revision@, observed_time_milliseconds: self.observed_time_milliseconds }
    }
}

impl DeepView for StateObservation {
    type V = StateObservationView;

    open spec fn deep_view(&self) -> StateObservationView {
        self.view()
    }
}

impl StateObservation {
    /// Copies the value, keeping its view.
    pub fn duplicate(&self) -> (r: StateObservation)
        ensures
            r@ == self@,
    {
        StateObservation { subject: match (&self.subject) { Some(x) => Some(x.duplicate()), None => None }, field: match (&self.field) { Some(x) => Some(x.duplicate()), None => None }, observation: match (&self.observation) { Some(x) => Some(x.duplicate()), None => None }, provider_revision: copy_bytes((&self.provider_revision)), observed_time_milliseconds: *(&self.observed_time_milliseconds) }
    }

    /// Copies every element of `v`, keeping each element's view.
    pub fn duplicate_all(v: &Vec<StateObservation>) -> (r: Vec<StateObservation>)
        ensures
            r.deep_view() == v.deep_view(),
    {
        let mut r: Vec<StateObservation> = Vec::new();
        let mut i: usize = 0;
        while i < v.len()
            invariant
                i <= v.len(),
                r.len() == i,
                forall|j: int| 0 <= j < i ==> #[trigger] r@[j].deep_view() == v@[j].deep_view(),
            decreases v.len() - i,
        {
            let x = v[i].duplicate();
            r.push(x);
            i = i + 1;
        }
        assert(r.deep_view() =~= v.deep_view());
        r
    }
}

#[derive(Clone, Debug, PartialEq, Eq, Default)]
pub struct StateFieldNumericRange {
    pub minimum: String,
    pub maximum: String,
    pub step: String,
}

pub struct StateFieldNumericRangeView {
    pub minimum: Seq<char>,
    pub maximum: Seq<char>,
    pub step: Seq<char>,
}

impl View for StateFieldNumericRange {
    type V = StateFieldNumericRangeView;

    open spec fn view(&self) -> StateFieldNumericRangeView {
        StateFieldNumericRangeView { minimum: self.minimum@, maximum: self.maximum@, step: self.step@ }
    }
}

impl DeepView for StateFieldNumericRange {
    type V = StateFieldNumericRangeView;

    open spec fn deep_view(&self) -> StateFieldNumericRangeView {
        self.view()
    }
}

impl StateFieldNumericRange {
    /// Copies the value, keeping its view.
    pub fn duplicate(&self) -> (r: StateFieldNumericRange)
        ensures
            r@ == self@,
    {
        StateFieldNumericRange { minimum: (&self.minimum).clone(), maximum: (&self.maximum).clone(), step: (&self.step).clone() }
    }

    /// Copies every element of `v`, keeping each element's view.
    pub fn duplicate_all(v: &Vec<StateFieldNumericRange>) -> (r: Vec<StateFieldNumericRange>)
        ensures
            r.deep_view() == v.deep_view(),
    {
        let mut r: Vec<StateFieldNumericRange> = Vec::new();
        let mut i: usize = 0;
        while i < v.len()
            invariant
                i <= v.len(),
                r.len() == i,
                forall|j: int| 0 <= j < i ==> #[trigger] r@[j].deep_view() == v@[j].deep_view(),
            decreases v.len() - i,
        {
            let x = v[i].duplicate();
            r.push(x);
            i = i + 1;
        }
        assert(r.deep_view() =~= v.deep_view());
        r
    }
}

#[derive(Clone, Debug, PartialEq, Eq, Default)]
pub struct RatingScale {
    pub minimum: String,
    pub maximum: String,
    pub step: String,
}

pub struct RatingScaleView {
    pub minimum: Seq<char>,
    pub maximum: Seq<char>,
    pub step: Seq<char>,
}

impl View for RatingScale {
    type V = RatingScaleView;

    open spec fn view(&self) -> RatingScaleView {
        RatingScaleView { minimum: self.minimum@, maximum: self.maximum@, step: self.step@ }
    }
}

impl DeepView for RatingScale {
    type V = RatingScaleView;

    open spec fn deep_view(&self) -> RatingScaleView {
        self.view()
    }
}

impl RatingScale {
    /// Copies the value, keeping its view.
    pub fn duplicate(&self) -> (r: RatingScale)
        ensures
            r@ == self@,
    {
        RatingScale { minimum: (&self.minimum).clone(), maximum: (&self.maximum).clone(), step: (&self.step).clone() }
    }

    /// Copies every element of `v`, keeping each element's view.
    pub fn duplicate_all(v: &Vec<RatingScale>) -> (r: Vec<RatingScale>)
        ensures
            r.deep_view() == v.deep_view(),
    {
        let mut r: Vec<RatingScale> = Vec::new();
        let mut i: usize = 0;
        while i < v.len()
            invariant
                i <= v.len(),
                r.len() == i,
                forall|j: int| 0 <= j < i ==> #[trigger] r@[j].deep_view() == v@[j].deep_view(),
            decreases v.len() - i,
        {
            let x = v[i].duplicate();
            r.push(x);
            i = i + 1;
        }
        assert(r.deep_view() =~= v.deep_view());
        r
    }
}

#[derive(Clone, Debug, PartialEq, Eq, Default)]
pub struct StateFieldDescriptor {
    pub field: Option<Term>,
    pub unit: Option<Term>,
    pub value_kind: ConfigurationValueKind,
    pub rating_scale: Option<RatingScale>,
    pub numeric_range: Option<StateFieldNumericRange>,
    pub quantizer: StateFieldQuantizer,
}

pub struct StateFieldDescriptorView {
    pub field: Option<TermView>,
    pub unit: Option<TermView>,
    pub value_kind: ConfigurationValueKind,
    pub rating_scale: Option<RatingScaleView>,
    pub numeric_range: Option<StateFieldNumericRangeView>,
    pub quantizer: StateFieldQuantizer,
}

impl View for StateFieldDescriptor {
    type V = StateFieldDescriptorView;

    open spec fn view(&self) -> StateFieldDescriptorView {
        StateFieldDescriptorView { field: self.field.deep_view(), unit: self.unit.deep_view(), value_kind: self.value_kind, rating_scale: self.rating_scale.deep_view(), numeric_range: self.numeric_range.deep_view(), quantizer: self.quantizer }
    }
}

impl DeepView for StateFieldDescriptor {
    type V = StateFieldDescriptorView;

    open spec fn deep_view(&self) -> StateFieldDescriptorView {
        self.view()
    }
}

impl StateFieldDescriptor {
    /// Copies the value, keeping its view.
    pub fn duplicate(&self) -> (r: StateFieldDescriptor)
        ensures
            r@ == self@,
    {
        StateFieldDescriptor { field: match (&self.field) { Some(x) => Some(x.duplicate()), None => None }, unit: match (&self.unit) { Some(x) => Some(x.duplicate()), None => None }, value_kind: *(&self.value_kind), rating_scale: match (&self.rating_scale) { Some(x) => Some(x.duplicate()), None => None }, numeric_range: match (&self.numeric_range) { Some(x) => Some(x.duplicate()), None => None }, quantizer: *(&self.quantizer) }
    }

    /// Copies every element of `v`, keeping each element's view.
    pub fn duplicate_all(v: &Vec<StateFieldDescriptor>) -> (r: Vec<StateFieldDescriptor>)
        ensures
            r.deep_view() == v.deep_view(),
    {
        let mut r: Vec<StateFieldDescriptor> = Vec::new();
        let mut i: usize = 0;
        while i < v.len()
            invariant
                i <= v.len(),
                r.len() == i,
                forall|j: int| 0 <= j < i ==> #[trigger] r@[j].deep_view() == v@[j].deep_view(),
            decreases v.len() - i,
        {
            let x = v[i].duplicate();
            r.push(x);
            i = i + 1;
        }
        assert(r.deep_view() =~= v.deep_view());
        r
    }
}

#[derive(Clone, Debug, PartialEq, Eq, Default)]
pub struct CoordinateBinding {
    pub endpoint: Option<PortableEndpoint>,
    pub subject: Option<SubjectReference>,
    pub backing: CoordinateBacking,
    pub evidence_revision: Vec<u8>,
}

pub struct CoordinateBindingView {
    pub endpoint: Option<PortableEndpointView>,
    pub subject: Option<SubjectReferenceView>,
    pub backing: CoordinateBacking,
    pub evidence_revision: Seq<u8>,
}

impl View for CoordinateBinding {
    type V = CoordinateBindingView;

    open spec fn view(&self) -> CoordinateBindingView {
        CoordinateBindingView { endpoint: self.endpoint.deep_view(), subject: self.subject.deep_view(), backing: self.backing, evidence_revision: self.evidence_revision@ }
    }
}

impl DeepView for CoordinateBinding {
    type V = CoordinateBindingView;

    open spec fn deep_view(&self) -> CoordinateBindingView {
        self.view()
    }
}

impl CoordinateBinding {
    /// Copies the value, keeping its view.
    pub fn duplicate(&self) -> (r: CoordinateBinding)
        ensures
            r@ == self@,
    {
        CoordinateBinding { endpoint: match (&self.endpoint) { Some(x) => Some(x.duplicate()), None => None }, subject: match (&self.subject) { Some(x) => Some(x.duplicate()), None => None }, backing: *(&self.backing), evidence_revision: copy_bytes((&self.evidence_revision)) }
    }

    /// Copies every element of `v`, keeping each element's view.
    pub fn duplicate_all(v: &Vec<CoordinateBinding>) -> (r: Vec<CoordinateBinding>)
        ensures
            r.deep_view() == v.deep_view(),
    {
        let mut r: Vec<CoordinateBinding> = Vec::new();
        let mut i: usize = 0;
        while i < v.len()
            invariant
                i <= v.len(),
                r.len() == i,
                forall|j: int| 0 <= j < i ==> #[trigger] r@[j].deep_view() == v@[j].deep_view(),
            decreases v.len() - i,
        {
            let x = v[i].duplicate();
            r.push(x);
            i = i + 1;
        }
        assert(r.deep_view() =~= v.deep_view());
        r
    }
}

#[derive(Clone, Debug, PartialEq, Eq, Default)]
pub struct CatalogBatch {
    pub sequence: u64,
    pub item_upserts: Vec<ProviderItem>,
    pub item_deletes: Vec<Key>,
    pub relation_upserts: Vec<CatalogRelation>,
    pub relation_deletes: Vec<Key>,
    pub coordinate_binding_upserts: Vec<CoordinateBinding>,
}

pub struct CatalogBatchView {
    pub sequence: u64,
    pub item_upserts: Seq<ProviderItemView>,
    pub item_deletes: Seq<KeyView>,
    pub relation_upserts: Seq<CatalogRelationView>,
    pub relation_deletes: Seq<KeyView>,
    pub coordinate_binding_upserts: Seq<CoordinateBindingView>,
}

impl View for CatalogBatch {
    type V = CatalogBatchView;

    open spec fn view(&self) -> CatalogBatchView {
        CatalogBatchView { sequence: self.sequence, item_upserts: self.item_upserts.deep_view(), item_deletes: self.item_deletes.deep_view(), relation_upserts: self.relation_upserts.deep_view(), relation_deletes: self.relation_deletes.deep_view(), coordinate_binding_upserts: self.coordinate_binding_upserts.deep_view() }
    }
}

impl DeepView for CatalogBatch {
    type V = CatalogBatchView;

    open spec fn deep_view(&self) -> CatalogBatchView {
        self.view()
    }
}

impl CatalogBatch {
    /// Copies the value, keeping its view.
    pub fn duplicate(&self) -> (r: CatalogBatch)
        ensures
            r@ == self@,
    {
        CatalogBatch { sequence: *(&self.sequence), item_upserts: ProviderItem::duplicate_all((&self.item_upserts)), item_deletes: Key::duplicate_all((&self.item_deletes)), relation_upserts: CatalogRelation::duplicate_all((&self.relation_upserts)), relation_deletes: Key::duplicate_all((&self.relation_deletes)), coordinate_binding_upserts: CoordinateBinding::duplicate_all((&self.coordinate_binding_upserts)) }
    }

    /// Copies every element of `v`, keeping each element's view.
    pub fn duplicate_all(v: &Vec<CatalogBatch>) -> (r: Vec<CatalogBatch>)
        ensures
            r.deep_view() == v.deep_view(),
    {
        let mut r: Vec<CatalogBatch> = Vec::new();
        let mut i: usize = 0;
        while i < v.len()
            invariant
                i <= v.len(),
                r.len() == i,
                forall|j: int| 0 <= j < i ==> #[trigger] r@[j].deep_view() == v@[j].deep_view(),
            decreases v.len() - i,
        {
            let x = v[i].duplicate();
            r.push(x);
            i = i + 1;
        }
        assert(r.deep_view() =~= v.deep_view());
        r
    }
}

#[derive(Clone, Debug, PartialEq, Eq, Default)]
pub struct StateBatch {
    pub sequence: u64,
    pub observations: Vec<StateObservation>,
}

pub struct StateBatchView {
    pub sequence: u64,
    pub observations: Seq<StateObservationView>,
}

impl View for StateBatch {
    type V = StateBatchView;

    open spec fn view(&self) -> StateBatchView {
        StateBatchView { sequence: self.sequence, observations: self.observations.deep_view() }
    }
}

impl DeepView for StateBatch {
    type V = StateBatchView;

    open spec fn deep_view(&self) -> StateBatchView {
        self.view()
    }
}

impl StateBatch {
    /// Copies the value, keeping its view.
    pub fn duplicate(&self) -> (r: StateBatch)
        ensures
            r@ == self@,
    {
        StateBatch { sequence: *(&self.sequence), observations: StateObservation::duplicate_all((&self.observations)) }
    }

    /// Copies every element of `v`, keeping each element's view.
    pub fn duplicate_all(v: &Vec<StateBatch>) -> (r: Vec<StateBatch>)
        ensures
            r.deep_view() == v.deep_view(),
    {
        let mut r: Vec<StateBatch> = Vec::new();
        let mut i: usize = 0;
        while i < v.len()
            invariant
                i <= v.len(),
                r.len() == i,
                forall|j: int| 0 <= j < i ==> #[trigger] r@[j].deep_view() == v@[j].deep_view(),
            decreases v.len() - i,
        {
            let x = v[i].duplicate();
            r.push(x);
            i = i + 1;
        }
        assert(r.deep_view() =~= v.deep_view());
        r
    }
}

#[derive(Clone, Debug, PartialEq, Eq, Default)]
pub struct ReadCompleted {
    pub next_cursor: Vec<u8>,
    pub evidence_revision: Vec<u8>,
    pub observed_time_milliseconds: i64,
}

pub struct ReadCompletedView {
    pub next_cursor: Seq<u8>,
    pub evidence_revision: Seq<u8>,
    pub observed_time_milliseconds: i64,
}

impl View for ReadCompleted {
    type V = ReadCompletedView;

    open spec fn view(&self) -> ReadCompletedView {
        ReadCompletedView { next_cursor: self.next_cursor@, evidence_revision: self.evidence_revision@, observed_time_milliseconds: self.observed_time_milliseconds }
    }
}

impl DeepView for ReadCompleted {
    type V = ReadCompletedView;

    open spec fn deep_view(&self) -> ReadCompletedView {
        self.view()
    }
}

impl ReadCompleted {
    /// Copies the value, keeping its view.
    pub fn duplicate(&self) -> (r: ReadCompleted)
        ensures
            r@ == self@,
    {
        ReadCompleted { next_cursor: copy_bytes((&self.next_cursor)), evidence_revision: copy_bytes((&self.evidence_revision)), observed_time_milliseconds: *(&self.observed_time_milliseconds) }
    }

    /// Copies every element of `v`, keeping each element's view.
    pub fn duplicate_all(v: &Vec<ReadCompleted>) -> (r: Vec<ReadCompleted>)
        ensures
            r.deep_view() == v.deep_view(),
    {
        let mut r: Vec<ReadCompleted> = Vec::new();
        let mut i: usize = 0;
        while i < v.len()
            invariant
                i <= v.len(),
                r.len() == i,
                forall|j: int| 0 <= j < i ==> #[trigger] r@[j].deep_view() == v@[j].deep_view(),
            decreases v.len() - i,
        {
            let x = v[i].duplicate();
            r.push(x);
            i = i + 1;
        }
        assert(r.deep_view() =~= v.deep_view());
        r
    }
}

#[derive(Clone, Debug, PartialEq, Eq, Default)]
pub struct RetryAdvice {
    pub disposition: RetryDisposition,
}

pub struct RetryAdviceView {
    pub disposition: RetryDisposition,
}

impl View for RetryAdvice {
    type V = RetryAdviceView;

    open spec fn view(&self) -> RetryAdviceView {
        RetryAdviceView { disposition: self.disposition }
    }
}

impl DeepView for RetryAdvice {
    type V = RetryAdviceView;

    open spec fn deep_view(&self) -> RetryAdviceView {
        self.view()
    }
}

impl RetryAdvice {
    /// Copies the value, keeping its view.
    pub fn duplicate(&self) -> (r: RetryAdvice)
        ensures
            r@ == self@,
    {
        RetryAdvice { disposition: *(&self.disposition) }
    }

    /// Copies every element of `v`, keeping each element's view.
    pub fn duplicate_all(v: &Vec<RetryAdvice>) -> (r: Vec<RetryAdvice>)
        ensures
            r.deep_view() == v.deep_view(),
    {
        let mut r: Vec<RetryAdvice> = Vec::new();
        let mut i: usize = 0;
        while i < v.len()
            invariant
                i <= v.len(),
                r.len() == i,
                forall|j: int| 0 <= j < i ==> #[trigger] r@[j].deep_view() == v@[j].deep_view(),
            decreases v.len() - i,
        {
            let x = v[i].duplicate();
            r.push(x);
            i = i + 1;
        }
        assert(r.deep_view() =~= v.deep_view());
        r
    }
}

#[derive(Clone, Debug, PartialEq, Eq, Default)]
pub struct FieldProblem {
    pub path: String,
    pub code: String,
    pub message: String,
}

pub struct FieldProblemView {
    pub path: Seq<char>,
    pub code: Seq<char>,
    pub message: Seq<char>,
}

impl View for FieldProblem {
    type V = FieldProblemView;

    open spec fn view(&self) -> FieldProblemView {
        FieldProblemView { path: self.path@, code: self.code@, message: self.message@ }
    }
}

impl DeepView for FieldProblem {
    type V = FieldProblemView;

    open spec fn deep_view(&self) -> FieldProblemView {
        self.view()
    }
}

impl FieldProblem {
    /// Copies the value, keeping its view.
    pub fn duplicate(&self) -> (r: FieldProblem)
        ensures
            r@ == self@,
    {
        FieldProblem { path: (&self.path).clone(), code: (&self.code).clone(), message: (&self.message).clone() }
    }

    /// Copies every element of `v`, keeping each element's view.
    pub fn duplicate_all(v: &Vec<FieldProblem>) -> (r: Vec<FieldProblem>)
        ensures
            r.deep_view() == v.deep_view(),
    {
        let mut r: Vec<FieldProblem> = Vec::new();
        let mut i: usize = 0;
        while i < v.len()
            invariant
                i <= v.len(),
                r.len() == i,
                forall|j: int| 0 <= j < i ==> #[trigger] r@[j].deep_view() == v@[j].deep_view(),
            decreases v.len() - i,
        {
            let x = v[i].duplicate();
            r.push(x);
            i = i + 1;
        }
        assert(r.deep_view() =~= v.deep_view());
        r
    }
}

#[derive(Clone, Debug, PartialEq, Eq, Default)]
pub struct OperationFailure {
    pub category: OperationFailureCategory,
    pub code: String,
    pub safe_message: String,
    pub retry: Option<RetryAdvice>,
    pub diagnostic_id: String,
    pub field_problems: Vec<FieldProblem>,
}

pub struct OperationFailureView {
    pub category: OperationFailureCategory,
    pub code: Seq<char>,
    pub safe_message: Seq<char>,
    pub retry: Option<RetryAdviceView>,
    pub diagnostic_id: Seq<char>,
    pub field_problems: Seq<FieldProblemView>,
}

impl View for OperationFailure {
    type V = OperationFailureView;

    open spec fn view(&self) -> OperationFailureView {
        OperationFailureView { category: self.category, code: self.code@, safe_message: self.safe_message@, retry: self.retry.deep_view(), diagnostic_id: self.diagnostic_id@, field_problems: self.field_problems.deep_view() }
    }
}

impl DeepView for OperationFailure {
    type V = OperationFailureView;

    open spec fn deep_view(&self) -> OperationFailureView {
        self.view()
    }
}

impl OperationFailure {
    /// Copies the value, keeping its view.
    pub fn duplicate(&self) -> (r: OperationFailure)
        ensures
            r@ == self@,
    {
        OperationFailure { category: *(&self.category), code: (&self.code).clone(), safe_message: (&self.safe_message).clone(), retry: match (&self.retry) { Some(x) => Some(x.duplicate()), None => None }, diagnostic_id: (&self.diagnostic_id).clone(), field_problems: FieldProblem::duplicate_all((&self.field_problems)) }
    }

    /// Copies every element of `v`, keeping each element's view.
    pub fn duplicate_all(v: &Vec<OperationFailure>) -> (r: Vec<OperationFailure>)
        ensures
            r.deep_view() == v.deep_view(),
    {
        let mut r: Vec<OperationFailure> = Vec::new();
        let mut i: usize = 0;
        while i < v.len()
            invariant
                i <= v.len(),
                r.len() == i,
                forall|j: int| 0 <= j < i ==> #[trigger] r@[j].deep_view() == v@[j].deep_view(),
            decreases v.len() - i,
        {
            let x = v[i].duplicate();
            r.push(x);
            i = i + 1;
        }
        assert(r.deep_view() =~= v.deep_view());
        r
    }
}

#[derive(Clone, Debug, PartialEq, Eq, Default)]
pub struct ReadFailed {
    pub error: Option<OperationFailure>,
}

pub struct ReadFailedView {
    pub error: Option<OperationFailureView>,
}

impl View for ReadFailed {
    type V = ReadFailedView;

    open spec fn view(&self) -> ReadFailedView {
        ReadFailedView { error: self.error.deep_view() }
    }
}

impl DeepView for ReadFailed {
    type V = ReadFailedView;

    open spec fn deep_view(&self) -> ReadFailedView {
        self.view()
    }
}

impl ReadFailed {
    /// Copies the value, keeping its view.
    pub fn duplicate(&self) -> (r: ReadFailed)
        ensures
            r@ == self@,
    {
        ReadFailed { error: match (&self.error) { Some(x) => Some(x.duplicate()), None => None } }
    }

    /// Copies every element of `v`, keeping each element's view.
    pub fn duplicate_all(v: &Vec<ReadFailed>) -> (r: Vec<ReadFailed>)
        ensures
            r.deep_view() == v.deep_view(),
    {
        let mut r: Vec<ReadFailed> = Vec::new();
        let mut i: usize = 0;
        while i < v.len()
            invariant
                i <= v.len(),
                r.len() == i,
                forall|j: int| 0 <= j < i ==> #[trigger] r@[j].deep_view() == v@[j].deep_view(),
            decreases v.len() - i,
        {
            let x = v[i].duplicate();
            r.push(x);
            i = i + 1;
        }
        assert(r.deep_view() =~= v.deep_view());
        r
    }
}

#[derive(Clone, Debug, PartialEq, Eq, Default)]
pub struct ReadCancelled {
}

pub struct ReadCancelledView {
}

impl View for ReadCancelled {
    type V = ReadCancelledView;

    open spec fn view(&self) -> ReadCancelledView {
        ReadCancelledView {  }
    }
}

impl DeepView for ReadCancelled {
    type V = ReadCancelledView;

    open spec fn deep_view(&self) -> ReadCancelledView {
        self.view()
    }
}

impl ReadCancelled {
    /// Copies the value, keeping its view.
    pub fn duplicate(&self) -> (r: ReadCancelled)
        ensures
            r@ == self@,
    {
        ReadCancelled {  }
    }

    /// Copies every element of `v`, keeping each element's view.
    pub fn duplicate_all(v: &Vec<ReadCancelled>) -> (r: Vec<ReadCancelled>)
        ensures
            r.deep_view() == v.deep_view(),
    {
        let mut r: Vec<ReadCancelled> = Vec::new();
        let mut i: usize = 0;
        while i < v.len()
            invariant
                i <= v.len(),
                r.len() == i,
                forall|j: int| 0 <= j < i ==> #[trigger] r@[j].deep_view() == v@[j].deep_view(),
            decreases v.len() - i,
        {
            let x = v[i].duplicate();
            r.push(x);
            i = i + 1;
        }
        assert(r.deep_view() =~= v.deep_view());
        r
    }
}

#[derive(Clone, Debug, PartialEq, Eq, Default)]
pub struct ReadHeartbeat {
    pub operation_id: Vec<u8>,
    pub records_emitted: u64,
}

pub struct ReadHeartbeatView {
    pub operation_id: Seq<u8>,
    pub records_emitted: u64,
}

impl View for ReadHeartbeat {
    type V = ReadHeartbeatView;

    open spec fn view(&self) -> ReadHeartbeatView {
        ReadHeartbeatView { operation_id: self.operation_id@, records_emitted: self.records_emitted }
    }
}

impl DeepView for ReadHeartbeat {
    type V = ReadHeartbeatView;

    open spec fn deep_view(&self) -> ReadHeartbeatView {
        self.view()
    }
}

impl ReadHeartbeat {
    /// Copies the value, keeping its view.
    pub fn duplicate(&self) -> (r: ReadHeartbeat)
        ensures
            r@ == self@,
    {
        ReadHeartbeat { operation_id: copy_bytes((&self.operation_id)), records_emitted: *(&self.records_emitted) }
    }

    /// Copies every element of `v`, keeping each element's view.
    pub fn duplicate_all(v: &Vec<ReadHeartbeat>) -> (r: Vec<ReadHeartbeat>)
        ensures
            r.deep_view() == v.deep_view(),
    {
        let mut r: Vec<ReadHeartbeat> = Vec::new();
        let mut i: usize = 0;
        while i < v.len()
            invariant
                i <= v.len(),
                r.len() == i,
                forall|j: int| 0 <= j < i ==> #[trigger] r@[j].deep_view() == v@[j].deep_view(),
            decreases v.len() - i,
        {
            let x = v[i].duplicate();
            r.push(x);
            i = i + 1;
        }
        assert(r.deep_view() =~= v.deep_view());
        r
    }
}

#[derive(Clone, Debug, PartialEq, Eq, Default)]
pub struct ReadCatalogResponse {
    pub event: Option<CatalogEvent>,
}

pub struct ReadCatalogResponseView {
    pub event: Option<CatalogEventView>,
}

impl View for ReadCatalogResponse {
    type V = ReadCatalogResponseView;

    open spec fn view(&self) -> ReadCatalogResponseView {
        ReadCatalogResponseView { event: self.event.deep_view() }
    }
}

impl DeepView for ReadCatalogResponse {
    type V = ReadCatalogResponseView;

    open spec fn deep_view(&self) -> ReadCatalogResponseView {
        self.view()
    }
}

impl ReadCatalogResponse {
    /// Copies the value, keeping its view.
    pub fn duplicate(&self) -> (r: ReadCatalogResponse)
        ensures
            r@ == self@,
    {
        ReadCatalogResponse { event: match (&self.event) { Some(x) => Some(x.duplicate()), None => None } }
    }

    /// Copies every element of `v`, keeping each element's view.
    pub fn duplicate_all(v: &Vec<ReadCatalogResponse>) -> (r: Vec<ReadCatalogResponse>)
        ensures
            r.deep_view() == v.deep_view(),
    {
        let mut r: Vec<ReadCatalogResponse> = Vec::new();
        let mut i: usize = 0;
        while i < v.len()
            invariant
                i <= v.len(),
                r.len() == i,
                forall|j: int| 0 <= j < i ==> #[trigger] r@[j].deep_view() == v@[j].deep_view(),
            decreases v.len() - i,
        {
            let x = v[i].duplicate();
            r.push(x);
            i = i + 1;
        }
        assert(r.deep_view() =~= v.deep_view());
        r
    }
}

#[derive(Clone, Debug, PartialEq, Eq, Default)]
pub struct ReadStateResponse {
    pub event: Option<StateEvent>,
}

pub struct ReadStateResponseView {
    pub event: Option<StateEventView>,
}

impl View for ReadStateResponse {
    type V = ReadStateResponseView;

    open spec fn view(&self) -> ReadStateResponseView {
        ReadStateResponseView { event: self.event.deep_view() }
    }
}

impl DeepView for ReadStateResponse {
    type V = ReadStateResponseView;

    open spec fn deep_view(&self) -> ReadStateResponseView {
        self.view()
    }
}

impl ReadStateResponse {
    /// Copies the value, keeping its view.
    pub fn duplicate(&self) -> (r: ReadStateResponse)
        ensures
            r@ == self@,
    {
        ReadStateResponse { event: match (&self.event) { Some(x) => Some(x.duplicate()), None => None } }
    }

    /// Copies every element of `v`, keeping each element's view.
    pub fn duplicate_all(v: &Vec<ReadStateResponse>) -> (r: Vec<ReadStateResponse>)
        ensures
            r.deep_view() == v.deep_view(),
    {
        let mut r: Vec<ReadStateResponse> = Vec::new();
        let mut i: usize = 0;
        while i < v.len()
            invariant
                i <= v.len(),
                r.len() == i,
                forall|j: int| 0 <= j < i ==> #[trigger] r@[j].deep_view() == v@[j].deep_view(),
            decreases v.len() - i,
        {
            let x = v[i].duplicate();
            r.push(x);
            i = i + 1;
        }
        assert(r.deep_view() =~= v.deep_view());
        r
    }
}

#[derive(Clone, Debug, PartialEq, Eq, Default)]
pub struct AccountSnapshot {
    pub key: Option<Key>,
    pub display_name: String,
}

pub struct AccountSnapshotView {
    pub key: Option<KeyView>,
    pub display_name: Seq<char>,
}

impl View for AccountSnapshot {
    type V = AccountSnapshotView;

    open spec fn view(&self) -> AccountSnapshotView {
        AccountSnapshotView { key: self.key.deep_view(), display_name: self.display_name@ }
    }
}

impl DeepView for AccountSnapshot {
    type V = AccountSnapshotView;

    open spec fn deep_view(&self) -> AccountSnapshotView {
        self.view()
    }
}

impl AccountSnapshot {
    /// Copies the value, keeping its view.
    pub fn duplicate(&self) -> (r: AccountSnapshot)
        ensures
            r@ == self@,
    {
        AccountSnapshot { key: match (&self.key) { Some(x) => Some(x.duplicate()), None => None }, display_name: (&self.display_name).clone() }
    }

    /// Copies every element of `v`, keeping each element's view.
    pub fn duplicate_all(v: &Vec<AccountSnapshot>) -> (r: Vec<AccountSnapshot>)
        ensures
            r.deep_view() == v.deep_view(),
    {
        let mut r: Vec<AccountSnapshot> = Vec::new();
        let mut i: usize = 0;
        while i < v.len()
            invariant
                i <= v.len(),
                r.len() == i,
                forall|j: int| 0 <= j < i ==> #[trigger] r@[j].deep_view() == v@[j].deep_view(),
            decreases v.len() - i,
        {
            let x = v[i].duplicate();
            r.push(x);
            i = i + 1;
        }
        assert(r.deep_view() =~= v.deep_view());
        r
    }
}

#[derive(Clone, Debug, PartialEq, Eq, Default)]
pub struct LookupCapability {
    pub reference_namespaces: Vec<String>,
    pub maximum_batch_size: u32,
}

pub struct LookupCapabilityView {
    pub reference_namespaces: Seq<Seq<char>>,
    pub maximum_batch_size: u32,
}

impl View for LookupCapability {
    type V = LookupCapabilityView;

    open spec fn view(&self) -> LookupCapabilityView {
        LookupCapabilityView { reference_namespaces: self.reference_namespaces.deep_view(), maximum_batch_size: self.maximum_batch_size }
    }
}

impl DeepView for LookupCapability {
    type V = LookupCapabilityView;

    open spec fn deep_view(&self) -> LookupCapabilityView {
        self.view()
    }
}

impl LookupCapability {
    /// Copies the value, keeping its view.
    pub fn duplicate(&self) -> (r: LookupCapability)
        ensures
            r@ == self@,
    {
        LookupCapability { reference_namespaces: copy_texts((&self.reference_namespaces)), maximum_batch_size: *(&self.maximum_batch_size) }
    }

    /// Copies every element of `v`, keeping each element's view.
    pub fn duplicate_all(v: &Vec<LookupCapability>) -> (r: Vec<LookupCapability>)
        ensures
            r.deep_view() == v.deep_view(),
    {
        let mut r: Vec<LookupCapability> = Vec::new();
        let mut i: usize = 0;
        while i < v.len()
            invariant
                i <= v.len(),
                r.len() == i,
                forall|j: int| 0 <= j < i ==> #[trigger] r@[j].deep_view() == v@[j].deep_view(),
            decreases v.len() - i,
        {
            let x = v[i].duplicate();
            r.push(x);
            i = i + 1;
        }
        assert(r.deep_view() =~= v.deep_view());
        r
    }
}

#[derive(Clone, Debug, PartialEq, Eq, Default)]
pub struct EndpointLookupCapability {
    pub reference_namespaces: Vec<String>,
    pub coordinate_ids: Vec<String>,
    pub maximum_batch_size: u32,
    pub maximum_response_bytes: u64,
}

pub struct EndpointLookupCapabilityView {
    pub reference_namespaces: Seq<Seq<char>>,
    pub coordinate_ids: Seq<Seq<char>>,
    pub maximum_batch_size: u32,
    pub maximum_response_bytes: u64,
}

impl View for EndpointLookupCapability {
    type V = EndpointLookupCapabilityView;

    open spec fn view(&self) -> EndpointLookupCapabilityView {
        EndpointLookupCapabilityView { reference_namespaces: self.reference_namespaces.deep_view(), coordinate_ids: self.coordinate_ids.deep_view(), maximum_batch_size: self.maximum_batch_size, maximum_response_bytes: self.maximum_response_bytes }
    }
}

impl DeepView for EndpointLookupCapability {
    type V = EndpointLookupCapabilityView;

    open spec fn deep_view(&self) -> EndpointLookupCapabilityView {
        self.view()
    }
}

impl EndpointLookupCapability {
    /// Copies the value, keeping its view.
    pub fn duplicate(&self) -> (r: EndpointLookupCapability)
        ensures
            r@ == self@,
    {
        EndpointLookupCapability { reference_namespaces: copy_texts((&self.reference_namespaces)), coordinate_ids: copy_texts((&self.coordinate_ids)), maximum_batch_size: *(&self.maximum_batch_size), maximum_response_bytes: *(&self.maximum_response_bytes) }
    }

    /// Copies every element of `v`, keeping each element's view.
    pub fn duplicate_all(v: &Vec<EndpointLookupCapability>) -> (r: Vec<EndpointLookupCapability>)
        ensures
            r.deep_view() == v.deep_view(),
    {
        let mut r: Vec<EndpointLookupCapability> = Vec::new();
        let mut i: usize = 0;
        while i < v.len()
            invariant
                i <= v.len(),
                r.len() == i,
                forall|j: int| 0 <= j < i ==> #[trigger] r@[j].deep_view() == v@[j].deep_view(),
            decreases v.len() - i,
        {
            let x = v[i].duplicate();
            r.push(x);
            i = i + 1;
        }
        assert(r.deep_view() =~= v.deep_view());
        r
    }
}

#[derive(Clone, Debug, PartialEq, Eq, Default)]
pub struct ConnectionCapabilities {
    pub reference_lookup: Option<LookupCapability>,
    pub endpoint_lookup: Option<EndpointLookupCapability>,
}

pub struct ConnectionCapabilitiesView {
    pub reference_lookup: Option<LookupCapabilityView>,
    pub endpoint_lookup: Option<EndpointLookupCapabilityView>,
}

impl View for ConnectionCapabilities {
    type V = ConnectionCapabilitiesView;

    open spec fn view(&self) -> ConnectionCapabilitiesView {
        ConnectionCapabilitiesView { reference_lookup: self.reference_lookup.deep_view(), endpoint_lookup: self.endpoint_lookup.deep_view() }
    }
}

impl DeepView for ConnectionCapabilities {
    type V = ConnectionCapabilitiesView;

    open spec fn deep_view(&self) -> ConnectionCapabilitiesView {
        self.view()
    }
}

impl ConnectionCapabilities {
    /// Copies the value, keeping its view.
    pub fn duplicate(&self) -> (r: ConnectionCapabilities)
        ensures
            r@ == self@,
    {
        ConnectionCapabilities { reference_lookup: match (&self.reference_lookup) { Some(x) => Some(x.duplicate()), None => None }, endpoint_lookup: match (&self.endpoint_lookup) { Some(x) => Some(x.duplicate()), None => None } }
    }

    /// Copies every element of `v`, keeping each element's view.
    pub fn duplicate_all(v: &Vec<ConnectionCapabilities>) -> (r: Vec<ConnectionCapabilities>)
        ensures
            r.deep_view() == v.deep_view(),
    {
        let mut r: Vec<ConnectionCapabilities> = Vec::new();
        let mut i: usize = 0;
        while i < v.len()
            invariant
                i <= v.len(),
                r.len() == i,
                forall|j: int| 0 <= j < i ==> #[trigger] r@[j].deep_view() == v@[j].deep_view(),
            decreases v.len() - i,
        {
            let x = v[i].duplicate();
            r.push(x);
            i = i + 1;
        }
        assert(r.deep_view() =~= v.deep_view());
        r
    }
}

#[derive(Clone, Debug, PartialEq, Eq, Default)]
pub struct ReadCapability {
    pub full: bool,
    pub incremental: bool,
}

pub struct ReadCapabilityView {
    pub full: bool,
    pub incremental: bool,
}

impl View for ReadCapability {
    type V = ReadCapabilityView;

    open spec fn view(&self) -> ReadCapabilityView {
        ReadCapabilityView { full: self.full, incremental: self.incremental }
    }
}

impl DeepView for ReadCapability {
    type V = ReadCapabilityView;

    open spec fn deep_view(&self) -> ReadCapabilityView {
        self.view()
    }
}

impl ReadCapability {
    /// Copies the value, keeping its view.
    pub fn duplicate(&self) -> (r: ReadCapability)
        ensures
            r@ == self@,
    {
        ReadCapability { full: *(&self.full), incremental: *(&self.incremental) }
    }

    /// Copies every element of `v`, keeping each element's view.
    pub fn duplicate_all(v: &Vec<ReadCapability>) -> (r: Vec<ReadCapability>)
        ensures
            r.deep_view() == v.deep_view(),
    {
        let mut r: Vec<ReadCapability> = Vec::new();
        let mut i: usize = 0;
        while i < v.len()
            invariant
                i <= v.len(),
                r.len() == i,
                forall|j: int| 0 <= j < i ==> #[trigger] r@[j].deep_view() == v@[j].deep_view(),
            decreases v.len() - i,
        {
            let x = v[i].duplicate();
            r.push(x);
            i = i + 1;
        }
        assert(r.deep_view() =~= v.deep_view());
        r
    }
}

#[derive(Clone, Debug, PartialEq, Eq, Default)]
pub struct AssetCapability {
    pub maximum_bytes: u64,
    pub content_types: Vec<String>,
}

pub struct AssetCapabilityView {
    pub maximum_bytes: u64,
    pub content_types: Seq<Seq<char>>,
}

impl View for AssetCapability {
    type V = AssetCapabilityView;

    open spec fn view(&self) -> AssetCapabilityView {
        AssetCapabilityView { maximum_bytes: self.maximum_bytes, content_types: self.content_types.deep_view() }
    }
}

impl DeepView for AssetCapability {
    type V = AssetCapabilityView;

    open spec fn deep_view(&self) -> AssetCapabilityView {
        self.view()
    }
}

impl AssetCapability {
    /// Copies the value, keeping its view.
    pub fn duplicate(&self) -> (r: AssetCapability)
        ensures
            r@ == self@,
    {
        AssetCapability { maximum_bytes: *(&self.maximum_bytes), content_types: copy_texts((&self.content_types)) }
    }

    /// Copies every element of `v`, keeping each element's view.
    pub fn duplicate_all(v: &Vec<AssetCapability>) -> (r: Vec<AssetCapability>)
        ensures
            r.deep_view() == v.deep_view(),
    {
        let mut r: Vec<AssetCapability> = Vec::new();
        let mut i: usize = 0;
        while i < v.len()
            invariant
                i <= v.len(),
                r.len() == i,
                forall|j: int| 0 <= j < i ==> #[trigger] r@[j].deep_view() == v@[j].deep_view(),
            decreases v.len() - i,
        {
            let x = v[i].duplicate();
            r.push(x);
            i = i + 1;
        }
        assert(r.deep_view() =~= v.deep_view());
        r
    }
}

#[derive(Clone, Debug, PartialEq, Eq, Default)]
pub struct CoordinateCapability {
    pub coordinate_ids: Vec<String>,
}

pub struct CoordinateCapabilityView {
    pub coordinate_ids: Seq<Seq<char>>,
}

impl View for CoordinateCapability {
    type V = CoordinateCapabilityView;

    open spec fn view(&self) -> CoordinateCapabilityView {
        CoordinateCapabilityView { coordinate_ids: self.coordinate_ids.deep_view() }
    }
}

impl DeepView for CoordinateCapability {
    type V = CoordinateCapabilityView;

    open spec fn deep_view(&self) -> CoordinateCapabilityView {
        self.view()
    }
}

impl CoordinateCapability {
    /// Copies the value, keeping its view.
    pub fn duplicate(&self) -> (r: CoordinateCapability)
        ensures
            r@ == self@,
    {
        CoordinateCapability { coordinate_ids: copy_texts((&self.coordinate_ids)) }
    }

    /// Copies every element of `v`, keeping each element's view.
    pub fn duplicate_all(v: &Vec<CoordinateCapability>) -> (r: Vec<CoordinateCapability>)
        ensures
            r.deep_view() == v.deep_view(),
    {
        let mut r: Vec<CoordinateCapability> = Vec::new();
        let mut i: usize = 0;
        while i < v.len()
            invariant
                i <= v.len(),
                r.len() == i,
                forall|j: int| 0 <= j < i ==> #[trigger] r@[j].deep_view() == v@[j].deep_view(),
            decreases v.len() - i,
        {
            let x = v[i].duplicate();
            r.push(x);
            i = i + 1;
        }
        assert(r.deep_view() =~= v.deep_view());
        r
    }
}

#[derive(Clone, Debug, PartialEq, Eq, Default)]
pub struct TargetedStateReadCapability {
    pub maximum_fields: u32,
    pub maximum_response_bytes: u64,
}

pub struct TargetedStateReadCapabilityView {
    pub maximum_fields: u32,
    pub maximum_response_bytes: u64,
}

impl View for TargetedStateReadCapability {
    type V = TargetedStateReadCapabilityView;

    open spec fn view(&self) -> TargetedStateReadCapabilityView {
        TargetedStateReadCapabilityView { maximum_fields: self.maximum_fields, maximum_response_bytes: self.maximum_response_bytes }
    }
}

impl DeepView for TargetedStateReadCapability {
    type V = TargetedStateReadCapabilityView;

    open spec fn deep_view(&self) -> TargetedStateReadCapabilityView {
        self.view()
    }
}

impl TargetedStateReadCapability {
    /// Copies the value, keeping its view.
    pub fn duplicate(&self) -> (r: TargetedStateReadCapability)
        ensures
            r@ == self@,
    {
        TargetedStateReadCapability { maximum_fields: *(&self.maximum_fields), maximum_response_bytes: *(&self.maximum_response_bytes) }
    }

    /// Copies every element of `v`, keeping each element's view.
    pub fn duplicate_all(v: &Vec<TargetedStateReadCapability>) -> (r: Vec<TargetedStateReadCapability>)
        ensures
            r.deep_view() == v.deep_view(),
    {
        let mut r: Vec<TargetedStateReadCapability> = Vec::new();
        let mut i: usize = 0;
        while i < v.len()
            invariant
                i <= v.len(),
                r.len() == i,
                forall|j: int| 0 <= j < i ==> #[trigger] r@[j].deep_view() == v@[j].deep_view(),
            decreases v.len() - i,
        {
            let x = v[i].duplicate();
            r.push(x);
            i = i + 1;
        }
        assert(r.deep_view() =~= v.deep_view());
        r
    }
}

#[derive(Clone, Debug, PartialEq, Eq, Default)]
pub struct TargetedStateFieldWriteCapability {
    pub field: Option<StateField>,
    pub set_supported: bool,
    pub clear_supported: bool,
}

pub struct TargetedStateFieldWriteCapabilityView {
    pub field: Option<StateFieldView>,
    pub set_supported: bool,
    pub clear_supported: bool,
}

impl View for TargetedStateFieldWriteCapability {
    type V = TargetedStateFieldWriteCapabilityView;

    open spec fn view(&self) -> TargetedStateFieldWriteCapabilityView {
        TargetedStateFieldWriteCapabilityView { field: self.field.deep_view(), set_supported: self.set_supported, clear_supported: self.clear_supported }
    }
}

impl DeepView for TargetedStateFieldWriteCapability {
    type V = TargetedStateFieldWriteCapabilityView;

    open spec fn deep_view(&self) -> TargetedStateFieldWriteCapabilityView {
        self.view()
    }
}

impl TargetedStateFieldWriteCapability {
    /// Copies the value, keeping its view.
    pub fn duplicate(&self) -> (r: TargetedStateFieldWriteCapability)
        ensures
            r@ == self@,
    {
        TargetedStateFieldWriteCapability { field: match (&self.field) { Some(x) => Some(x.duplicate()), None => None }, set_supported: *(&self.set_supported), clear_supported: *(&self.clear_supported) }
    }

    /// Copies every element of `v`, keeping each element's view.
    pub fn duplicate_all(v: &Vec<TargetedStateFieldWriteCapability>) -> (r: Vec<TargetedStateFieldWriteCapability>)
        ensures
            r.deep_view() == v.deep_view(),
    {
        let mut r: Vec<TargetedStateFieldWriteCapability> = Vec::new();
        let mut i: usize = 0;
        while i < v.len()
            invariant
                i <= v.len(),
                r.len() == i,
                forall|j: int| 0 <= j < i ==> #[trigger] r@[j].deep_view() == v@[j].deep_view(),
            decreases v.len() - i,
        {
            let x = v[i].duplicate();
            r.push(x);
            i = i + 1;
        }
        assert(r.deep_view() =~= v.deep_view());
        r
    }
}

#[derive(Clone, Debug, PartialEq, Eq, Default)]
pub struct TargetedStateWriteCapability {
    pub fields: Vec<TargetedStateFieldWriteCapability>,
    pub may_create_source_membership: bool,
    pub precondition_mode: TargetedStateWritePreconditionMode,
    pub idempotency_mode: TargetedStateWriteIdempotencyMode,
    pub maximum_fields: u32,
    pub maximum_request_bytes: u64,
    pub maximum_response_bytes: u64,
    pub maximum_receipt_bytes: u64,
}

pub struct TargetedStateWriteCapabilityView {
    pub fields: Seq<TargetedStateFieldWriteCapabilityView>,
    pub may_create_source_membership: bool,
    pub precondition_mode: TargetedStateWritePreconditionMode,
    pub idempotency_mode: TargetedStateWriteIdempotencyMode,
    pub maximum_fields: u32,
    pub maximum_request_bytes: u64,
    pub maximum_response_bytes: u64,
    pub maximum_receipt_bytes: u64,
}

impl View for TargetedStateWriteCapability {
    type V = TargetedStateWriteCapabilityView;

    open spec fn view(&self) -> TargetedStateWriteCapabilityView {
        TargetedStateWriteCapabilityView { fields: self.fields.deep_view(), may_create_source_membership: self.may_create_source_membership, precondition_mode: self.precondition_mode, idempotency_mode: self.idempotency_mode, maximum_fields: self.maximum_fields, maximum_request_bytes: self.maximum_request_bytes, maximum_response_bytes: self.maximum_response_bytes, maximum_receipt_bytes: self.maximum_receipt_bytes }
    }
}

impl DeepView for TargetedStateWriteCapability {
    type V = TargetedStateWriteCapabilityView;

    open spec fn deep_view(&self) -> TargetedStateWriteCapabilityView {
        self.view()
    }
}

impl TargetedStateWriteCapability {
    /// Copies the value, keeping its view.
    pub fn duplicate(&self) -> (r: TargetedStateWriteCapability)
        ensures
            r@ == self@,
    {
        TargetedStateWriteCapability { fields: TargetedStateFieldWriteCapability::duplicate_all((&self.fields)), may_create_source_membership: *(&self.may_create_source_membership), precondition_mode: *(&self.precondition_mode), idempotency_mode: *(&self.idempotency_mode), maximum_fields: *(&self.maximum_fields), maximum_request_bytes: *(&self.maximum_request_bytes), maximum_response_bytes: *(&self.maximum_response_bytes), maximum_receipt_bytes: *(&self.maximum_receipt_bytes) }
    }

    /// Copies every element of `v`, keeping each element's view.
    pub fn duplicate_all(v: &Vec<TargetedStateWriteCapability>) -> (r: Vec<TargetedStateWriteCapability>)
        ensures
            r.deep_view() == v.deep_view(),
    {
        let mut r: Vec<TargetedStateWriteCapability> = Vec::new();
        let mut i: usize = 0;
        while i < v.len()
            invariant
                i <= v.len(),
                r.len() == i,
                forall|j: int| 0 <= j < i ==> #[trigger] r@[j].deep_view() == v@[j].deep_view(),
            decreases v.len() - i,
        {
            let x = v[i].duplicate();
            r.push(x);
            i = i + 1;
        }
        assert(r.deep_view() =~= v.deep_view());
        r
    }
}

#[derive(Clone, Debug, PartialEq, Eq, Default)]
pub struct SourceCapabilities {
    pub catalog: Option<ReadCapability>,
    pub state: Option<ReadCapability>,
    pub state_fields: Vec<StateFieldDescriptor>,
    pub assets: Option<AssetCapability>,
    pub coordinates: Option<CoordinateCapability>,
    pub targeted_state_read: Option<TargetedStateReadCapability>,
    pub targeted_state_write: Option<TargetedStateWriteCapability>,
}

pub struct SourceCapabilitiesView {
    pub catalog: Option<ReadCapabilityView>,
    pub state: Option<ReadCapabilityView>,
    pub state_fields: Seq<StateFieldDescriptorView>,
    pub assets: Option<AssetCapabilityView>,
    pub coordinates: Option<CoordinateCapabilityView>,
    pub targeted_state_read: Option<TargetedStateReadCapabilityView>,
    pub targeted_state_write: Option<TargetedStateWriteCapabilityView>,
}

impl View for SourceCapabilities {
    type V = SourceCapabilitiesView;

    open spec fn view(&self) -> SourceCapabilitiesView {
        SourceCapabilitiesView { catalog: self.catalog.deep_view(), state: self.state.deep_view(), state_fields: self.state_fields.deep_view(), assets: self.assets.deep_view(), coordinates: self.coordinates.deep_view(), targeted_state_read: self.targeted_state_read.deep_view(), targeted_state_write: self.targeted_state_write.deep_view() }
    }
}

impl DeepView for SourceCapabilities {
    type V = SourceCapabilitiesView;

    open spec fn deep_view(&self) -> SourceCapabilitiesView {
        self.view()
    }
}

impl SourceCapabilities {
    /// Copies the value, keeping its view.
    pub fn duplicate(&self) -> (r: SourceCapabilities)
        ensures
            r@ == self@,
    {
        SourceCapabilities { catalog: match (&self.catalog) { Some(x) => Some(x.duplicate()), None => None }, state: match (&self.state) { Some(x) => Some(x.duplicate()), None => None }, state_fields: StateFieldDescriptor::duplicate_all((&self.state_fields)), assets: match (&self.assets) { Some(x) => Some(x.duplicate()), None => None }, coordinates: match (&self.coordinates) { Some(x) => Some(x.duplicate()), None => None }, targeted_state_read: match (&self.targeted_state_read) { Some(x) => Some(x.duplicate()), None => None }, targeted_state_write: match (&self.targeted_state_write) { Some(x) => Some(x.duplicate()), None => None } }
    }

    /// Copies every element of `v`, keeping each element's view.
    pub fn duplicate_all(v: &Vec<SourceCapabilities>) -> (r: Vec<SourceCapabilities>)
        ensures
            r.deep_view() == v.deep_view(),
    {
        let mut r: Vec<SourceCapabilities> = Vec::new();
        let mut i: usize = 0;
        while i < v.len()
            invariant
                i <= v.len(),
                r.len() == i,
                forall|j: int| 0 <= j < i ==> #[trigger] r@[j].deep_view() == v@[j].deep_view(),
            decreases v.len() - i,
        {
            let x = v[i].duplicate();
            r.push(x);
            i = i + 1;
        }
        assert(r.deep_view() =~= v.deep_view());
        r
    }
}

#[derive(Clone, Debug, PartialEq, Eq, Default)]
pub struct SourceSnapshot {
    pub key: Option<Key>,
    pub account_key: Option<Key>,
    pub display_name: String,
    pub kind: Option<Term>,
    pub availability: SourceAvailability,
    pub capabilities: Option<SourceCapabilities>,
}

pub struct SourceSnapshotView {
    pub key: Option<KeyView>,
    pub account_key: Option<KeyView>,
    pub display_name: Seq<char>,
    pub kind: Option<TermView>,
    pub availability: SourceAvailability,
    pub capabilities: Option<SourceCapabilitiesView>,
}

impl View for SourceSnapshot {
    type V = SourceSnapshotView;

    open spec fn view(&self) -> SourceSnapshotView {
        SourceSnapshotView { key: self.key.deep_view(), account_key: self.account_key.deep_view(), display_name: self.display_name@, kind: self.kind.deep_view(), availability: self.availability, capabilities: self.capabilities.deep_view() }
    }
}

impl DeepView for SourceSnapshot {
    type V = SourceSnapshotView;

    open spec fn deep_view(&self) -> SourceSnapshotView {
        self.view()
    }
}

impl SourceSnapshot {
    /// Copies the value, keeping its view.
    pub fn duplicate(&self) -> (r: SourceSnapshot)
        ensures
            r@ == self@,
    {
        SourceSnapshot { key: match (&self.key) { Some(x) => Some(x.duplicate()), None => None }, account_key: match (&self.account_key) { Some(x) => Some(x.duplicate()), None => None }, display_name: (&self.display_name).clone(), kind: match (&self.kind) { Some(x) => Some(x.duplicate()), None => None }, availability: *(&self.availability), capabilities: match (&self.capabilities) { Some(x) => Some(x.duplicate()), None => None } }
    }

    /// Copies every element of `v`, keeping each element's view.
    pub fn duplicate_all(v: &Vec<SourceSnapshot>) -> (r: Vec<SourceSnapshot>)
        ensures
            r.deep_view() == v.deep_view(),
    {
        let mut r: Vec<SourceSnapshot> = Vec::new();
        let mut i: usize = 0;
        while i < v.len()
            invariant
                i <= v.len(),
                r.len() == i,
                forall|j: int| 0 <= j < i ==> #[trigger] r@[j].deep_view() == v@[j].deep_view(),
            decreases v.len() - i,
        {
            let x = v[i].duplicate();
            r.push(x);
            i = i + 1;
        }
        assert(r.deep_view() =~= v.deep_view());
        r
    }
}

#[derive(Clone, Debug, PartialEq, Eq, Default)]
pub struct LookupEvidence {
    pub adapter_revision: Vec<u8>,
    pub observed_time_milliseconds: i64,
    pub expires_time_milliseconds: Option<i64>,
    pub matched_references: Vec<PortableReference>,
}

pub struct LookupEvidenceView {
    pub adapter_revision: Seq<u8>,
    pub observed_time_milliseconds: i64,
    pub expires_time_milliseconds: Option<i64>,
    pub matched_references: Seq<PortableReferenceView>,
}

impl View for LookupEvidence {
    type V = LookupEvidenceView;

    open spec fn view(&self) -> LookupEvidenceView {
        LookupEvidenceView { adapter_revision: self.adapter_revision@, observed_time_milliseconds: self.observed_time_milliseconds, expires_time_milliseconds: self.expires_time_milliseconds, matched_references: self.matched_references.deep_view() }
    }
}

impl DeepView for LookupEvidence {
    type V = LookupEvidenceView;

    open spec fn deep_view(&self) -> LookupEvidenceView {
        self.view()
    }
}

impl LookupEvidence {
    /// Copies the value, keeping its view.
    pub fn duplicate(&self) -> (r: LookupEvidence)
        ensures
            r@ == self@,
    {
        LookupEvidence { adapter_revision: copy_bytes((&self.adapter_revision)), observed_time_milliseconds: *(&self.observed_time_milliseconds), expires_time_milliseconds: *(&self.expires_time_milliseconds), matched_references: PortableReference::duplicate_all((&self.matched_references)) }
    }

    /// Copies every element of `v`, keeping each element's view.
    pub fn duplicate_all(v: &Vec<LookupEvidence>) -> (r: Vec<LookupEvidence>)
        ensures
            r.deep_view() == v.deep_view(),
    {
        let mut r: Vec<LookupEvidence> = Vec::new();
        let mut i: usize = 0;
        while i < v.len()
            invariant
                i <= v.len(),
                r.len() == i,
                forall|j: int| 0 <= j < i ==> #[trigger] r@[j].deep_view() == v@[j].deep_view(),
            decreases v.len() - i,
        {
            let x = v[i].duplicate();
            r.push(x);
            i = i + 1;
        }
        assert(r.deep_view() =~= v.deep_view());
        r
    }
}

#[derive(Clone, Debug, PartialEq, Eq, Default)]
pub struct LookupCandidate {
    pub provider_item: Option<ProviderItem>,
    pub evidence: Option<LookupEvidence>,
}

pub struct LookupCandidateView {
    pub provider_item: Option<ProviderItemView>,
    pub evidence: Option<LookupEvidenceView>,
}

impl View for LookupCandidate {
    type V = LookupCandidateView;

    open spec fn view(&self) -> LookupCandidateView {
        LookupCandidateView { provider_item: self.provider_item.deep_view(), evidence: self.evidence.deep_view() }
    }
}

impl DeepView for LookupCandidate {
    type V = LookupCandidateView;

    open spec fn deep_view(&self) -> LookupCandidateView {
        self.view()
    }
}

impl LookupCandidate {
    /// Copies the value, keeping its view.
    pub fn duplicate(&self) -> (r: LookupCandidate)
        ensures
            r@ == self@,
    {
        LookupCandidate { provider_item: match (&self.provider_item) { Some(x) => Some(x.duplicate()), None => None }, evidence: match (&self.evidence) { Some(x) => Some(x.duplicate()), None => None } }
    }

    /// Copies every element of `v`, keeping each element's view.
    pub fn duplicate_all(v: &Vec<LookupCandidate>) -> (r: Vec<LookupCandidate>)
        ensures
            r.deep_view() == v.deep_view(),
    {
        let mut r: Vec<LookupCandidate> = Vec::new();
        let mut i: usize = 0;
        while i < v.len()
            invariant
                i <= v.len(),
                r.len() == i,
                forall|j: int| 0 <= j < i ==> #[trigger] r@[j].deep_view() == v@[j].deep_view(),
            decreases v.len() - i,
        {
            let x = v[i].duplicate();
            r.push(x);
            i = i + 1;
        }
        assert(r.deep_view() =~= v.deep_view());
        r
    }
}

#[derive(Clone, Debug, PartialEq, Eq, Default)]
pub struct PortableReferenceLookupResult {
    pub requested: Option<PortableReference>,
    pub outcome: Option<LookupOutcome>,
}

pub struct PortableReferenceLookupResultView {
    pub requested: Option<PortableReferenceView>,
    pub outcome: Option<LookupOutcomeView>,
}

impl View for PortableReferenceLookupResult {
    type V = PortableReferenceLookupResultView;

    open spec fn view(&self) -> PortableReferenceLookupResultView {
        PortableReferenceLookupResultView { requested: self.requested.deep_view(), outcome: self.outcome.deep_view() }
    }
}

impl DeepView for PortableReferenceLookupResult {
    type V = PortableReferenceLookupResultView;

    open spec fn deep_view(&self) -> PortableReferenceLookupResultView {
        self.view()
    }
}

impl PortableReferenceLookupResult {
    /// Copies the value, keeping its view.
    pub fn duplicate(&self) -> (r: PortableReferenceLookupResult)
        ensures
            r@ == self@,
    {
        PortableReferenceLookupResult { requested: match (&self.requested) { Some(x) => Some(x.duplicate()), None => None }, outcome: match (&self.outcome) { Some(x) => Some(x.duplicate()), None => None } }
    }

    /// Copies every element of `v`, keeping each element's view.
    pub fn duplicate_all(v: &Vec<PortableReferenceLookupResult>) -> (r: Vec<PortableReferenceLookupResult>)
        ensures
            r.deep_view() == v.deep_view(),
    {
        let mut r: Vec<PortableReferenceLookupResult> = Vec::new();
        let mut i: usize = 0;
        while i < v.len()
            invariant
                i <= v.len(),
                r.len() == i,
                forall|j: int| 0 <= j < i ==> #[trigger] r@[j].deep_view() == v@[j].deep_view(),
            decreases v.len() - i,
        {
            let x = v[i].duplicate();
            r.push(x);
            i = i + 1;
        }
        assert(r.deep_view() =~= v.deep_view());
        r
    }
}

#[derive(Clone, Debug, PartialEq, Eq, Default)]
pub struct LookupPortableReferencesResponse {
    pub outcome: Option<LookupResponseOutcome>,
}

pub struct LookupPortableReferencesResponseView {
    pub outcome: Option<LookupResponseOutcomeView>,
}

impl View for LookupPortableReferencesResponse {
    type V = LookupPortableReferencesResponseView;

    open spec fn view(&self) -> LookupPortableReferencesResponseView {
        LookupPortableReferencesResponseView { outcome: self.outcome.deep_view() }
    }
}

impl DeepView for LookupPortableReferencesResponse {
    type V = LookupPortableReferencesResponseView;

    open spec fn deep_view(&self) -> LookupPortableReferencesResponseView {
        self.view()
    }
}

impl LookupPortableReferencesResponse {
    /// Copies the value, keeping its view.
    pub fn duplicate(&self) -> (r: LookupPortableReferencesResponse)
        ensures
            r@ == self@,
    {
        LookupPortableReferencesResponse { outcome: match (&self.outcome) { Some(x) => Some(x.duplicate()), None => None } }
    }

    /// Copies every element of `v`, keeping each element's view.
    pub fn duplicate_all(v: &Vec<LookupPortableReferencesResponse>) -> (r: Vec<LookupPortableReferencesResponse>)
        ensures
            r.deep_view() == v.deep_view(),
    {
        let mut r: Vec<LookupPortableReferencesResponse> = Vec::new();
        let mut i: usize = 0;
        while i < v.len()
            invariant
                i <= v.len(),
                r.len() == i,
                forall|j: int| 0 <= j < i ==> #[trigger] r@[j].deep_view() == v@[j].deep_view(),
            decreases v.len() - i,
        {
            let x = v[i].duplicate();
            r.push(x);
            i = i + 1;
        }
        assert(r.deep_view() =~= v.deep_view());
        r
    }
}

#[derive(Clone, Debug, PartialEq, Eq, Default)]
pub struct EndpointLookupCandidate {
    pub provider_item: Option<ProviderItem>,
    pub binding: Option<CoordinateBinding>,
    pub evidence: Option<LookupEvidence>,
}

pub struct EndpointLookupCandidateView {
    pub provider_item: Option<ProviderItemView>,
    pub binding: Option<CoordinateBindingView>,
    pub evidence: Option<LookupEvidenceView>,
}

impl View for EndpointLookupCandidate {
    type V = EndpointLookupCandidateView;

    open spec fn view(&self) -> EndpointLookupCandidateView {
        EndpointLookupCandidateView { provider_item: self.provider_item.deep_view(), binding: self.binding.deep_view(), evidence: self.evidence.deep_view() }
    }
}

impl DeepView for EndpointLookupCandidate {
    type V = EndpointLookupCandidateView;

    open spec fn deep_view(&self) -> EndpointLookupCandidateView {
        self.view()
    }
}

impl EndpointLookupCandidate {
    /// Copies the value, keeping its view.
    pub fn duplicate(&self) -> (r: EndpointLookupCandidate)
        ensures
            r@ == self@,
    {
        EndpointLookupCandidate { provider_item: match (&self.provider_item) { Some(x) => Some(x.duplicate()), None => None }, binding: match (&self.binding) { Some(x) => Some(x.duplicate()), None => None }, evidence: match (&self.evidence) { Some(x) => Some(x.duplicate()), None => None } }
    }

    /// Copies every element of `v`, keeping each element's view.
    pub fn duplicate_all(v: &Vec<EndpointLookupCandidate>) -> (r: Vec<EndpointLookupCandidate>)
        ensures
            r.deep_view() == v.deep_view(),
    {
        let mut r: Vec<EndpointLookupCandidate> = Vec::new();
        let mut i: usize = 0;
        while i < v.len()
            invariant
                i <= v.len(),
                r.len() == i,
                forall|j: int| 0 <= j < i ==> #[trigger] r@[j].deep_view() == v@[j].deep_view(),
            decreases v.len() - i,
        {
            let x = v[i].duplicate();
            r.push(x);
            i = i + 1;
        }
        assert(r.deep_view() =~= v.deep_view());
        r
    }
}

#[derive(Clone, Debug, PartialEq, Eq, Default)]
pub struct PortableEndpointResolution {
    pub requested: Option<PortableEndpoint>,
    pub outcome: Option<EndpointOutcome>,
}

pub struct PortableEndpointResolutionView {
    pub requested: Option<PortableEndpointView>,
    pub outcome: Option<EndpointOutcomeView>,
}

impl View for PortableEndpointResolution {
    type V = PortableEndpointResolutionView;

    open spec fn view(&self) -> PortableEndpointResolutionView {
        PortableEndpointResolutionView { requested: self.requested.deep_view(), outcome: self.outcome.deep_view() }
    }
}

impl DeepView for PortableEndpointResolution {
    type V = PortableEndpointResolutionView;

    open spec fn deep_view(&self) -> PortableEndpointResolutionView {
        self.view()
    }
}

impl PortableEndpointResolution {
    /// Copies the value, keeping its view.
    pub fn duplicate(&self) -> (r: PortableEndpointResolution)
        ensures
            r@ == self@,
    {
        PortableEndpointResolution { requested: match (&self.requested) { Some(x) => Some(x.duplicate()), None => None }, outcome: match (&self.outcome) { Some(x) => Some(x.duplicate()), None => None } }
    }

    /// Copies every element of `v`, keeping each element's view.
    pub fn duplicate_all(v: &Vec<PortableEndpointResolution>) -> (r: Vec<PortableEndpointResolution>)
        ensures
            r.deep_view() == v.deep_view(),
    {
        let mut r: Vec<PortableEndpointResolution> = Vec::new();
        let mut i: usize = 0;
        while i < v.len()
            invariant
                i <= v.len(),
                r.len() == i,
                forall|j: int| 0 <= j < i ==> #[trigger] r@[j].deep_view() == v@[j].deep_view(),
            decreases v.len() - i,
        {
            let x = v[i].duplicate();
            r.push(x);
            i = i + 1;
        }
        assert(r.deep_view() =~= v.deep_view());
        r
    }
}

#[derive(Clone, Debug, PartialEq, Eq, Default)]
pub struct ResolvePortableEndpointsResponse {
    pub results: Vec<PortableEndpointResolution>,
}

pub struct ResolvePortableEndpointsResponseView {
    pub results: Seq<PortableEndpointResolutionView>,
}

impl View for ResolvePortableEndpointsResponse {
    type V = ResolvePortableEndpointsResponseView;

    open spec fn view(&self) -> ResolvePortableEndpointsResponseView {
        ResolvePortableEndpointsResponseView { results: self.results.deep_view() }
    }
}

impl DeepView for ResolvePortableEndpointsResponse {
    type V = ResolvePortableEndpointsResponseView;

    open spec fn deep_view(&self) -> ResolvePortableEndpointsResponseView {
        self.view()
    }
}

impl ResolvePortableEndpointsResponse {
    /// Copies the value, keeping its view.
    pub fn duplicate(&self) -> (r: ResolvePortableEndpointsResponse)
        ensures
            r@ == self@,
    {
        ResolvePortableEndpointsResponse { results: PortableEndpointResolution::duplicate_all((&self.results)) }
    }

    /// Copies every element of `v`, keeping each element's view.
    pub fn duplicate_all(v: &Vec<ResolvePortableEndpointsResponse>) -> (r: Vec<ResolvePortableEndpointsResponse>)
        ensures
            r.deep_view() == v.deep_view(),
    {
        let mut r: Vec<ResolvePortableEndpointsResponse> = Vec::new();
        let mut i: usize = 0;
        while i < v.len()
            invariant
                i <= v.len(),
                r.len() == i,
                forall|j: int| 0 <= j < i ==> #[trigger] r@[j].deep_view() == v@[j].deep_view(),
            decreases v.len() - i,
        {
            let x = v[i].duplicate();
            r.push(x);
            i = i + 1;
        }
        assert(r.deep_view() =~= v.deep_view());
        r
    }
}

#[derive(Clone, Debug, PartialEq, Eq, Default)]
pub struct TargetedStateFieldObservation {
    pub field: Option<StateField>,
    pub presence: StatePresence,
    pub value: Option<Value>,
}

pub struct TargetedStateFieldObservationView {
    pub field: Option<StateFieldView>,
    pub presence: StatePresence,
    pub value: Option<ValueView>,
}

impl View for TargetedStateFieldObservation {
    type V = TargetedStateFieldObservationView;

    open spec fn view(&self) -> TargetedStateFieldObservationView {
        TargetedStateFieldObservationView { field: self.field.deep_view(), presence: self.presence, value: self.value.deep_view() }
    }
}

impl DeepView for TargetedStateFieldObservation {
    type V = TargetedStateFieldObservationView;

    open spec fn deep_view(&self) -> TargetedStateFieldObservationView {
        self.view()
    }
}

impl TargetedStateFieldObservation {
    /// Copies the value, keeping its view.
    pub fn duplicate(&self) -> (r: TargetedStateFieldObservation)
        ensures
            r@ == self@,
    {
        TargetedStateFieldObservation { field: match (&self.field) { Some(x) => Some(x.duplicate()), None => None }, presence: *(&self.presence), value: match (&self.value) { Some(x) => Some(x.duplicate()), None => None } }
    }

    /// Copies every element of `v`, keeping each element's view.
    pub fn duplicate_all(v: &Vec<TargetedStateFieldObservation>) -> (r: Vec<TargetedStateFieldObservation>)
        ensures
            r.deep_view() == v.deep_view(),
    {
        let mut r: Vec<TargetedStateFieldObservation> = Vec::new();
        let mut i: usize = 0;
        while i < v.len()
            invariant
                i <= v.len(),
                r.len() == i,
                forall|j: int| 0 <= j < i ==> #[trigger] r@[j].deep_view() == v@[j].deep_view(),
            decreases v.len() - i,
        {
            let x = v[i].duplicate();
            r.push(x);
            i = i + 1;
        }
        assert(r.deep_view() =~= v.deep_view());
        r
    }
}

#[derive(Clone, Debug, PartialEq, Eq, Default)]
pub struct TargetedStateWriteCausation {
    pub idempotency_key: Vec<u8>,
    pub receipt: Vec<u8>,
    pub provider_revision: Vec<u8>,
}

pub struct TargetedStateWriteCausationView {
    pub idempotency_key: Seq<u8>,
    pub receipt: Seq<u8>,
    pub provider_revision: Seq<u8>,
}

impl View for TargetedStateWriteCausation {
    type V = TargetedStateWriteCausationView;

    open spec fn view(&self) -> TargetedStateWriteCausationView {
        TargetedStateWriteCausationView { idempotency_key: self.idempotency_key@, receipt: self.receipt@, provider_revision: self.provider_revision@ }
    }
}

impl DeepView for TargetedStateWriteCausation {
    type V = TargetedStateWriteCausationView;

    open spec fn deep_view(&self) -> TargetedStateWriteCausationView {
        self.view()
    }
}

impl TargetedStateWriteCausation {
    /// Copies the value, keeping its view.
    pub fn duplicate(&self) -> (r: TargetedStateWriteCausation)
        ensures
            r@ == self@,
    {
        TargetedStateWriteCausation { idempotency_key: copy_bytes((&self.idempotency_key)), receipt: copy_bytes((&self.receipt)), provider_revision: copy_bytes((&self.provider_revision)) }
    }

    /// Copies every element of `v`, keeping each element's view.
    pub fn duplicate_all(v: &Vec<TargetedStateWriteCausation>) -> (r: Vec<TargetedStateWriteCausation>)
        ensures
            r.deep_view() == v.deep_view(),
    {
        let mut r: Vec<TargetedStateWriteCausation> = Vec::new();
        let mut i: usize = 0;
        while i < v.len()
            invariant
                i <= v.len(),
                r.len() == i,
                forall|j: int| 0 <= j < i ==> #[trigger] r@[j].deep_view() == v@[j].deep_view(),
            decreases v.len() - i,
        {
            let x = v[i].duplicate();
            r.push(x);
            i = i + 1;
        }
        assert(r.deep_view() =~= v.deep_view());
        r
    }
}

#[derive(Clone, Debug, PartialEq, Eq, Default)]
pub struct TargetedStateReadMatched {
    pub membership: SourceMembership,
    pub fields: Vec<TargetedStateFieldObservation>,
    pub provider_revision: Vec<u8>,
    pub observed_time_milliseconds: i64,
    pub expires_time_milliseconds: Option<i64>,
    pub precondition: Vec<u8>,
    pub write_causation: Option<TargetedStateWriteCausation>,
}

pub struct TargetedStateReadMatchedView {
    pub membership: SourceMembership,
    pub fields: Seq<TargetedStateFieldObservationView>,
    pub provider_revision: Seq<u8>,
    pub observed_time_milliseconds: i64,
    pub expires_time_milliseconds: Option<i64>,
    pub precondition: Seq<u8>,
    pub write_causation: Option<TargetedStateWriteCausationView>,
}

impl View for TargetedStateReadMatched {
    type V = TargetedStateReadMatchedView;

    open spec fn view(&self) -> TargetedStateReadMatchedView {
        TargetedStateReadMatchedView { membership: self.membership, fields: self.fields.deep_view(), provider_revision: self.provider_revision@, observed_time_milliseconds: self.observed_time_milliseconds, expires_time_milliseconds: self.expires_time_milliseconds, precondition: self.precondition@, write_causation: self.write_causation.deep_view() }
    }
}

impl DeepView for TargetedStateReadMatched {
    type V = TargetedStateReadMatchedView;

    open spec fn deep_view(&self) -> TargetedStateReadMatchedView {
        self.view()
    }
}

impl TargetedStateReadMatched {
    /// Copies the value, keeping its view.
    pub fn duplicate(&self) -> (r: TargetedStateReadMatched)
        ensures
            r@ == self@,
    {
        TargetedStateReadMatched { membership: *(&self.membership), fields: TargetedStateFieldObservation::duplicate_all((&self.fields)), provider_revision: copy_bytes((&self.provider_revision)), observed_time_milliseconds: *(&self.observed_time_milliseconds), expires_time_milliseconds: *(&self.expires_time_milliseconds), precondition: copy_bytes((&self.precondition)), write_causation: match (&self.write_causation) { Some(x) => Some(x.duplicate()), None => None } }
    }

    /// Copies every element of `v`, keeping each element's view.
    pub fn duplicate_all(v: &Vec<TargetedStateReadMatched>) -> (r: Vec<TargetedStateReadMatched>)
        ensures
            r.deep_view() == v.deep_view(),
    {
        let mut r: Vec<TargetedStateReadMatched> = Vec::new();
        let mut i: usize = 0;
        while i < v.len()
            invariant
                i <= v.len(),
                r.len() == i,
                forall|j: int| 0 <= j < i ==> #[trigger] r@[j].deep_view() == v@[j].deep_view(),
            decreases v.len() - i,
        {
            let x = v[i].duplicate();
            r.push(x);
            i = i + 1;
        }
        assert(r.deep_view() =~= v.deep_view());
        r
    }
}

#[derive(Clone, Debug, PartialEq, Eq, Default)]
pub struct ReadTargetedStateRequest {
    pub operation_id: Vec<u8>,
    pub source_key: Option<Key>,
    pub subject: Option<SubjectReference>,
    pub fields: Vec<StateField>,
    pub maximum_response_bytes: u64,
    pub reconciliation_idempotency_key: Vec<u8>,
}

pub struct ReadTargetedStateRequestView {
    pub operation_id: Seq<u8>,
    pub source_key: Option<KeyView>,
    pub subject: Option<SubjectReferenceView>,
    pub fields: Seq<StateFieldView>,
    pub maximum_response_bytes: u64,
    pub reconciliation_idempotency_key: Seq<u8>,
}

impl View for ReadTargetedStateRequest {
    type V = ReadTargetedStateRequestView;

    open spec fn view(&self) -> ReadTargetedStateRequestView {
        ReadTargetedStateRequestView { operation_id: self.operation_id@, source_key: self.source_key.deep_view(), subject: self.subject.deep_view(), fields: self.fields.deep_view(), maximum_response_bytes: self.maximum_response_bytes, reconciliation_idempotency_key: self.reconciliation_idempotency_key@ }
    }
}

impl DeepView for ReadTargetedStateRequest {
    type V = ReadTargetedStateRequestView;

    open spec fn deep_view(&self) -> ReadTargetedStateRequestView {
        self.view()
    }
}

impl ReadTargetedStateRequest {
    /// Copies the value, keeping its view.
    pub fn duplicate(&self) -> (r: ReadTargetedStateRequest)
        ensures
            r@ == self@,
    {
        ReadTargetedStateRequest { operation_id: copy_bytes((&self.operation_id)), source_key: match (&self.source_key) { Some(x) => Some(x.duplicate()), None => None }, subject: match (&self.subject) { Some(x) => Some(x.duplicate()), None => None }, fields: StateField::duplicate_all((&self.fields)), maximum_response_bytes: *(&self.maximum_response_bytes), reconciliation_idempotency_key: copy_bytes((&self.reconciliation_idempotency_key)) }
    }

    /// Copies every element of `v`, keeping each element's view.
    pub fn duplicate_all(v: &Vec<ReadTargetedStateRequest>) -> (r: Vec<ReadTargetedStateRequest>)
        ensures
            r.deep_view() == v.deep_view(),
    {
        let mut r: Vec<ReadTargetedStateRequest> = Vec::new();
        let mut i: usize = 0;
        while i < v.len()
            invariant
                i <= v.len(),
                r.len() == i,
                forall|j: int| 0 <= j < i ==> #[trigger] r@[j].deep_view() == v@[j].deep_view(),
            decreases v.len() - i,
        {
            let x = v[i].duplicate();
            r.push(x);
            i = i + 1;
        }
        assert(r.deep_view() =~= v.deep_view());
        r
    }
}

#[derive(Clone, Debug, PartialEq, Eq, Default)]
pub struct ReadTargetedStateResponse {
    pub outcome: Option<TargetedReadOutcome>,
}

pub struct ReadTargetedStateResponseView {
    pub outcome: Option<TargetedReadOutcomeView>,
}

impl View for ReadTargetedStateResponse {
    type V = ReadTargetedStateResponseView;

    open spec fn view(&self) -> ReadTargetedStateResponseView {
        ReadTargetedStateResponseView { outcome: self.outcome.deep_view() }
    }
}

impl DeepView for ReadTargetedStateResponse {
    type V = ReadTargetedStateResponseView;

    open spec fn deep_view(&self) -> ReadTargetedStateResponseView {
        self.view()
    }
}

impl ReadTargetedStateResponse {
    /// Copies the value, keeping its view.
    pub fn duplicate(&self) -> (r: ReadTargetedStateResponse)
        ensures
            r@ == self@,
    {
        ReadTargetedStateResponse { outcome: match (&self.outcome) { Some(x) => Some(x.duplicate()), None => None } }
    }

    /// Copies every element of `v`, keeping each element's view.
    pub fn duplicate_all(v: &Vec<ReadTargetedStateResponse>) -> (r: Vec<ReadTargetedStateResponse>)
        ensures
            r.deep_view() == v.deep_view(),
    {
        let mut r: Vec<ReadTargetedStateResponse> = Vec::new();
        let mut i: usize = 0;
        while i < v.len()
            invariant
                i <= v.len(),
                r.len() == i,
                forall|j: int| 0 <= j < i ==> #[trigger] r@[j].deep_view() == v@[j].deep_view(),
            decreases v.len() - i,
        {
            let x = v[i].duplicate();
            r.push(x);
            i = i + 1;
        }
        assert(r.deep_view() =~= v.deep_view());
        r
    }
}

#[derive(Clone, Debug, PartialEq, Eq, Default)]
pub struct TargetedStateWriteIntent {
    pub field: Option<StateField>,
    pub operation: Option<WriteOperation>,
}

pub struct TargetedStateWriteIntentView {
    pub field: Option<StateFieldView>,
    pub operation: Option<WriteOperationView>,
}

impl View for TargetedStateWriteIntent {
    type V = TargetedStateWriteIntentView;

    open spec fn view(&self) -> TargetedStateWriteIntentView {
        TargetedStateWriteIntentView { field: self.field.deep_view(), operation: self.operation.deep_view() }
    }
}

impl DeepView for TargetedStateWriteIntent {
    type V = TargetedStateWriteIntentView;

    open spec fn deep_view(&self) -> TargetedStateWriteIntentView {
        self.view()
    }
}

impl TargetedStateWriteIntent {
    /// Copies the value, keeping its view.
    pub fn duplicate(&self) -> (r: TargetedStateWriteIntent)
        ensures
            r@ == self@,
    {
        TargetedStateWriteIntent { field: match (&self.field) { Some(x) => Some(x.duplicate()), None => None }, operation: match (&self.operation) { Some(x) => Some(x.duplicate()), None => None } }
    }

    /// Copies every element of `v`, keeping each element's view.
    pub fn duplicate_all(v: &Vec<TargetedStateWriteIntent>) -> (r: Vec<TargetedStateWriteIntent>)
        ensures
            r.deep_view() == v.deep_view(),
    {
        let mut r: Vec<TargetedStateWriteIntent> = Vec::new();
        let mut i: usize = 0;
        while i < v.len()
            invariant
                i <= v.len(),
                r.len() == i,
                forall|j: int| 0 <= j < i ==> #[trigger] r@[j].deep_view() == v@[j].deep_view(),
            decreases v.len() - i,
        {
            let x = v[i].duplicate();
            r.push(x);
            i = i + 1;
        }
        assert(r.deep_view() =~= v.deep_view());
        r
    }
}

#[derive(Clone, Debug, PartialEq, Eq, Default)]
pub struct WriteTargetedStateRequest {
    pub operation_id: Vec<u8>,
    pub source_key: Option<Key>,
    pub subject: Option<SubjectReference>,
    pub idempotency_key: Vec<u8>,
    pub expected_membership: SourceMembership,
    pub precondition: Vec<u8>,
    pub allow_create_membership: bool,
    pub intents: Vec<TargetedStateWriteIntent>,
    pub maximum_receipt_bytes: u64,
    pub maximum_response_bytes: u64,
}

pub struct WriteTargetedStateRequestView {
    pub operation_id: Seq<u8>,
    pub source_key: Option<KeyView>,
    pub subject: Option<SubjectReferenceView>,
    pub idempotency_key: Seq<u8>,
    pub expected_membership: SourceMembership,
    pub precondition: Seq<u8>,
    pub allow_create_membership: bool,
    pub intents: Seq<TargetedStateWriteIntentView>,
    pub maximum_receipt_bytes: u64,
    pub maximum_response_bytes: u64,
}

impl View for WriteTargetedStateRequest {
    type V = WriteTargetedStateRequestView;

    open spec fn view(&self) -> WriteTargetedStateRequestView {
        WriteTargetedStateRequestView { operation_id: self.operation_id@, source_key: self.source_key.deep_view(), subject: self.subject.deep_view(), idempotency_key: self.idempotency_key@, expected_membership: self.expected_membership, precondition: self.precondition@, allow_create_membership: self.allow_create_membership, intents: self.intents.deep_view(), maximum_receipt_bytes: self.maximum_receipt_bytes, maximum_response_bytes: self.maximum_response_bytes }
    }
}

impl DeepView for WriteTargetedStateRequest {
    type V = WriteTargetedStateRequestView;

    open spec fn deep_view(&self) -> WriteTargetedStateRequestView {
        self.view()
    }
}

impl WriteTargetedStateRequest {
    /// Copies the value, keeping its view.
    pub fn duplicate(&self) -> (r: WriteTargetedStateRequest)
        ensures
            r@ == self@,
    {
        WriteTargetedStateRequest { operation_id: copy_bytes((&self.operation_id)), source_key: match (&self.source_key) { Some(x) => Some(x.duplicate()), None => None }, subject: match (&self.subject) { Some(x) => Some(x.duplicate()), None => None }, idempotency_key: copy_bytes((&self.idempotency_key)), expected_membership: *(&self.expected_membership), precondition: copy_bytes((&self.precondition)), allow_create_membership: *(&self.allow_create_membership), intents: TargetedStateWriteIntent::duplicate_all((&self.intents)), maximum_receipt_bytes: *(&self.maximum_receipt_bytes), maximum_response_bytes: *(&self.maximum_response_bytes) }
    }

    /// Copies every element of `v`, keeping each element's view.
    pub fn duplicate_all(v: &Vec<WriteTargetedStateRequest>) -> (r: Vec<WriteTargetedStateRequest>)
        ensures
            r.deep_view() == v.deep_view(),
    {
        let mut r: Vec<WriteTargetedStateRequest> = Vec::new();
        let mut i: usize = 0;
        while i < v.len()
            invariant
                i <= v.len(),
                r.len() == i,
                forall|j: int| 0 <= j < i ==> #[trigger] r@[j].deep_view() == v@[j].deep_view(),
            decreases v.len() - i,
        {
            let x = v[i].duplicate();
            r.push(x);
            i = i + 1;
        }
        assert(r.deep_view() =~= v.deep_view());
        r
    }
}

#[derive(Clone, Debug, PartialEq, Eq, Default)]
pub struct TargetedStateWriteFieldEffect {
    pub field: Option<StateField>,
    pub effect: TargetedStateFieldEffectKind,
    pub value: Option<Value>,
}

pub struct TargetedStateWriteFieldEffectView {
    pub field: Option<StateFieldView>,
    pub effect: TargetedStateFieldEffectKind,
    pub value: Option<ValueView>,
}

impl View for TargetedStateWriteFieldEffect {
    type V = TargetedStateWriteFieldEffectView;

    open spec fn view(&self) -> TargetedStateWriteFieldEffectView {
        TargetedStateWriteFieldEffectView { field: self.field.deep_view(), effect: self.effect, value: self.value.deep_view() }
    }
}

impl DeepView for TargetedStateWriteFieldEffect {
    type V = TargetedStateWriteFieldEffectView;

    open spec fn deep_view(&self) -> TargetedStateWriteFieldEffectView {
        self.view()
    }
}

impl TargetedStateWriteFieldEffect {
    /// Copies the value, keeping its view.
    pub fn duplicate(&self) -> (r: TargetedStateWriteFieldEffect)
        ensures
            r@ == self@,
    {
        TargetedStateWriteFieldEffect { field: match (&self.field) { Some(x) => Some(x.duplicate()), None => None }, effect: *(&self.effect), value: match (&self.value) { Some(x) => Some(x.duplicate()), None => None } }
    }

    /// Copies every element of `v`, keeping each element's view.
    pub fn duplicate_all(v: &Vec<TargetedStateWriteFieldEffect>) -> (r: Vec<TargetedStateWriteFieldEffect>)
        ensures
            r.deep_view() == v.deep_view(),
    {
        let mut r: Vec<TargetedStateWriteFieldEffect> = Vec::new();
        let mut i: usize = 0;
        while i < v.len()
            invariant
                i <= v.len(),
                r.len() == i,
                forall|j: int| 0 <= j < i ==> #[trigger] r@[j].deep_view() == v@[j].deep_view(),
            decreases v.len() - i,
        {
            let x = v[i].duplicate();
            r.push(x);
            i = i + 1;
        }
        assert(r.deep_view() =~= v.deep_view());
        r
    }
}

#[derive(Clone, Debug, PartialEq, Eq, Default)]
pub struct WriteTargetedStateResponse {
    pub status: TargetedStateWriteStatus,
    pub certainty: TargetedStateWriteCertainty,
    pub retry_disposition: TargetedStateWriteRetryDisposition,
    pub membership_effect: TargetedStateMembershipEffect,
    pub field_effects: Vec<TargetedStateWriteFieldEffect>,
    pub provider_revision: Vec<u8>,
    pub successor_precondition: Vec<u8>,
    pub receipt: Vec<u8>,
    pub error: Option<OperationFailure>,
}

pub struct WriteTargetedStateResponseView {
    pub status: TargetedStateWriteStatus,
    pub certainty: TargetedStateWriteCertainty,
    pub retry_disposition: TargetedStateWriteRetryDisposition,
    pub membership_effect: TargetedStateMembershipEffect,
    pub field_effects: Seq<TargetedStateWriteFieldEffectView>,
    pub provider_revision: Seq<u8>,
    pub successor_precondition: Seq<u8>,
    pub receipt: Seq<u8>,
    pub error: Option<OperationFailureView>,
}

impl View for WriteTargetedStateResponse {
    type V = WriteTargetedStateResponseView;

    open spec fn view(&self) -> WriteTargetedStateResponseView {
        WriteTargetedStateResponseView { status: self.status, certainty: self.certainty, retry_disposition: self.retry_disposition, membership_effect: self.membership_effect, field_effects: self.field_effects.deep_view(), provider_revision: self.provider_revision@, successor_precondition: self.successor_precondition@, receipt: self.receipt@, error: self.error.deep_view() }
    }
}

impl DeepView for WriteTargetedStateResponse {
    type V = WriteTargetedStateResponseView;

    open spec fn deep_view(&self) -> WriteTargetedStateResponseView {
        self.view()
    }
}

impl WriteTargetedStateResponse {
    /// Copies the value, keeping its view.
    pub fn duplicate(&self) -> (r: WriteTargetedStateResponse)
        ensures
            r@ == self@,
    {
        WriteTargetedStateResponse { status: *(&self.status), certainty: *(&self.certainty), retry_disposition: *(&self.retry_disposition), membership_effect: *(&self.membership_effect), field_effects: TargetedStateWriteFieldEffect::duplicate_all((&self.field_effects)), provider_revision: copy_bytes((&self.provider_revision)), successor_precondition: copy_bytes((&self.successor_precondition)), receipt: copy_bytes((&self.receipt)), error: match (&self.error) { Some(x) => Some(x.duplicate()), None => None } }
    }

    /// Copies every element of `v`, keeping each element's view.
    pub fn duplicate_all(v: &Vec<WriteTargetedStateResponse>) -> (r: Vec<WriteTargetedStateResponse>)
        ensures
            r.deep_view() == v.deep_view(),
    {
        let mut r: Vec<WriteTargetedStateResponse> = Vec::new();
        let mut i: usize = 0;
        while i < v.len()
            invariant
                i <= v.len(),
                r.len() == i,
                forall|j: int| 0 <= j < i ==> #[trigger] r@[j].deep_view() == v@[j].deep_view(),
            decreases v.len() - i,
        {
            let x = v[i].duplicate();
            r.push(x);
            i = i + 1;
        }
        assert(r.deep_view() =~= v.deep_view());
        r
    }
}

#[derive(Clone, Debug, PartialEq, Eq, Default)]
pub struct ContentHash {
    pub algorithm: Option<Term>,
    pub digest: Vec<u8>,
}

pub struct ContentHashView {
    pub algorithm: Option<TermView>,
    pub digest: Seq<u8>,
}

impl View for ContentHash {
    type V = ContentHashView;

    open spec fn view(&self) -> ContentHashView {
        ContentHashView { algorithm: self.algorithm.deep_view(), digest: self.digest@ }
    }
}

impl DeepView for ContentHash {
    type V = ContentHashView;

    open spec fn deep_view(&self) -> ContentHashView {
        self.view()
    }
}

impl ContentHash {
    /// Copies the value, keeping its view.
    pub fn duplicate(&self) -> (r: ContentHash)
        ensures
            r@ == self@,
    {
        ContentHash { algorithm: match (&self.algorithm) { Some(x) => Some(x.duplicate()), None => None }, digest: copy_bytes((&self.digest)) }
    }

    /// Copies every element of `v`, keeping each element's view.
    pub fn duplicate_all(v: &Vec<ContentHash>) -> (r: Vec<ContentHash>)
        ensures
            r.deep_view() == v.deep_view(),
    {
        let mut r: Vec<ContentHash> = Vec::new();
        let mut i: usize = 0;
        while i < v.len()
            invariant
                i <= v.len(),
                r.len() == i,
                forall|j: int| 0 <= j < i ==> #[trigger] r@[j].deep_view() == v@[j].deep_view(),
            decreases v.len() - i,
        {
            let x = v[i].duplicate();
            r.push(x);
            i = i + 1;
        }
        assert(r.deep_view() =~= v.deep_view());
        r
    }
}

#[derive(Clone, Debug, PartialEq, Eq, Default)]
pub struct ReadAssetResult {
    pub content: Vec<u8>,
    pub content_type: String,
    pub full_length: u64,
    pub hash: Option<ContentHash>,
    pub cache_control: String,
}

pub struct ReadAssetResultView {
    pub content: Seq<u8>,
    pub content_type: Seq<char>,
    pub full_length: u64,
    pub hash: Option<ContentHashView>,
    pub cache_control: Seq<char>,
}

impl View for ReadAssetResult {
    type V = ReadAssetResultView;

    open spec fn view(&self) -> ReadAssetResultView {
        ReadAssetResultView { content: self.content@, content_type: self.content_type@, full_length: self.full_length, hash: self.hash.deep_view(), cache_control: self.cache_control@ }
    }
}

impl DeepView for ReadAssetResult {
    type V = ReadAssetResultView;

    open spec fn deep_view(&self) -> ReadAssetResultView {
        self.view()
    }
}

impl ReadAssetResult {
    /// Copies the value, keeping its view.
    pub fn duplicate(&self) -> (r: ReadAssetResult)
        ensures
            r@ == self@,
    {
        ReadAssetResult { content: copy_bytes((&self.content)), content_type: (&self.content_type).clone(), full_length: *(&self.full_length), hash: match (&self.hash) { Some(x) => Some(x.duplicate()), None => None }, cache_control: (&self.cache_control).clone() }
    }

    /// Copies every element of `v`, keeping each element's view.
    pub fn duplicate_all(v: &Vec<ReadAssetResult>) -> (r: Vec<ReadAssetResult>)
        ensures
            r.deep_view() == v.deep_view(),
    {
        let mut r: Vec<ReadAssetResult> = Vec::new();
        let mut i: usize = 0;
        while i < v.len()
            invariant
                i <= v.len(),
                r.len() == i,
                forall|j: int| 0 <= j < i ==> #[trigger] r@[j].deep_view() == v@[j].deep_view(),
            decreases v.len() - i,
        {
            let x = v[i].duplicate();
            r.push(x);
            i = i + 1;
        }
        assert(r.deep_view() =~= v.deep_view());
        r
    }
}

#[derive(Clone, Debug, PartialEq, Eq, Default)]
pub struct ReadAssetResponse {
    pub outcome: Option<AssetOutcome>,
}

pub struct ReadAssetResponseView {
    pub outcome: Option<AssetOutcomeView>,
}

impl View for ReadAssetResponse {
    type V = ReadAssetResponseView;

    open spec fn view(&self) -> ReadAssetResponseView {
        ReadAssetResponseView { outcome: self.outcome.deep_view() }
    }
}

impl DeepView for ReadAssetResponse {
    type V = ReadAssetResponseView;

    open spec fn deep_view(&self) -> ReadAssetResponseView {
        self.view()
    }
}

impl ReadAssetResponse {
    /// Copies the value, keeping its view.
    pub fn duplicate(&self) -> (r: ReadAssetResponse)
        ensures
            r@ == self@,
    {
        ReadAssetResponse { outcome: match (&self.outcome) { Some(x) => Some(x.duplicate()), None => None } }
    }

    /// Copies every element of `v`, keeping each element's view.
    pub fn duplicate_all(v: &Vec<ReadAssetResponse>) -> (r: Vec<ReadAssetResponse>)
        ensures
            r.deep_view() == v.deep_view(),
    {
        let mut r: Vec<ReadAssetResponse> = Vec::new();
        let mut i: usize = 0;
        while i < v.len()
            invariant
                i <= v.len(),
                r.len() == i,
                forall|j: int| 0 <= j < i ==> #[trigger] r@[j].deep_view() == v@[j].deep_view(),
            decreases v.len() - i,
        {
            let x = v[i].duplicate();
            r.push(x);
            i = i + 1;
        }
        assert(r.deep_view() =~= v.deep_view());
        r
    }
}

#[derive(Clone, Debug, PartialEq, Eq, Default)]
pub struct ConfigurationOption {
    pub value: Option<Value>,
    pub display_name: String,
}

pub struct ConfigurationOptionView {
    pub value: Option<ValueView>,
    pub display_name: Seq<char>,
}

impl View for ConfigurationOption {
    type V = ConfigurationOptionView;

    open spec fn view(&self) -> ConfigurationOptionView {
        ConfigurationOptionView { value: self.value.deep_view(), display_name: self.display_name@ }
    }
}

impl DeepView for ConfigurationOption {
    type V = ConfigurationOptionView;

    open spec fn deep_view(&self) -> ConfigurationOptionView {
        self.view()
    }
}

impl ConfigurationOption {
    /// Copies the value, keeping its view.
    pub fn duplicate(&self) -> (r: ConfigurationOption)
        ensures
            r@ == self@,
    {
        ConfigurationOption { value: match (&self.value) { Some(x) => Some(x.duplicate()), None => None }, display_name: (&self.display_name).clone() }
    }

    /// Copies every element of `v`, keeping each element's view.
    pub fn duplicate_all(v: &Vec<ConfigurationOption>) -> (r: Vec<ConfigurationOption>)
        ensures
            r.deep_view() == v.deep_view(),
    {
        let mut r: Vec<ConfigurationOption> = Vec::new();
        let mut i: usize = 0;
        while i < v.len()
            invariant
                i <= v.len(),
                r.len() == i,
                forall|j: int| 0 <= j < i ==> #[trigger] r@[j].deep_view() == v@[j].deep_view(),
            decreases v.len() - i,
        {
            let x = v[i].duplicate();
            r.push(x);
            i = i + 1;
        }
        assert(r.deep_view() =~= v.deep_view());
        r
    }
}

#[derive(Clone, Debug, PartialEq, Eq, Default)]
pub struct ConfigurationField {
    pub key: String,
    pub display_name: String,
    pub value_kind: ConfigurationValueKind,
    pub required: bool,
    pub secret: bool,
    pub placeholder: String,
    pub options: Vec<ConfigurationOption>,
}

pub struct ConfigurationFieldView {
    pub key: Seq<char>,
    pub display_name: Seq<char>,
    pub value_kind: ConfigurationValueKind,
    pub required: bool,
    pub secret: bool,
    pub placeholder: Seq<char>,
    pub options: Seq<ConfigurationOptionView>,
}

impl View for ConfigurationField {
    type V = ConfigurationFieldView;

    open spec fn view(&self) -> ConfigurationFieldView {
        ConfigurationFieldView { key: self.key@, display_name: self.display_name@, value_kind: self.value_kind, required: self.required, secret: self.secret, placeholder: self.placeholder@, options: self.options.deep_view() }
    }
}

impl DeepView for ConfigurationField {
    type V = ConfigurationFieldView;

    open spec fn deep_view(&self) -> ConfigurationFieldView {
        self.view()
    }
}

impl ConfigurationField {
    /// Copies the value, keeping its view.
    pub fn duplicate(&self) -> (r: ConfigurationField)
        ensures
            r@ == self@,
    {
        ConfigurationField { key: (&self.key).clone(), display_name: (&self.display_name).clone(), value_kind: *(&self.value_kind), required: *(&self.required), secret: *(&self.secret), placeholder: (&self.placeholder).clone(), options: ConfigurationOption::duplicate_all((&self.options)) }
    }

    /// Copies every element of `v`, keeping each element's view.
    pub fn duplicate_all(v: &Vec<ConfigurationField>) -> (r: Vec<ConfigurationField>)
        ensures
            r.deep_view() == v.deep_view(),
    {
        let mut r: Vec<ConfigurationField> = Vec::new();
        let mut i: usize = 0;
        while i < v.len()
            invariant
                i <= v.len(),
                r.len() == i,
                forall|j: int| 0 <= j < i ==> #[trigger] r@[j].deep_view() == v@[j].deep_view(),
            decreases v.len() - i,
        {
            let x = v[i].duplicate();
            r.push(x);
            i = i + 1;
        }
        assert(r.deep_view() =~= v.deep_view());
        r
    }
}

#[derive(Clone, Debug, PartialEq, Eq, Default)]
pub struct ConfigurationValue {
    pub key: String,
    pub value: Option<Value>,
}

pub struct ConfigurationValueView {
    pub key: Seq<char>,
    pub value: Option<ValueView>,
}

impl View for ConfigurationValue {
    type V = ConfigurationValueView;

    open spec fn view(&self) -> ConfigurationValueView {
        ConfigurationValueView { key: self.key@, value: self.value.deep_view() }
    }
}

impl DeepView for ConfigurationValue {
    type V = ConfigurationValueView;

    open spec fn deep_view(&self) -> ConfigurationValueView {
        self.view()
    }
}

impl ConfigurationValue {
    /// Copies the value, keeping its view.
    pub fn duplicate(&self) -> (r: ConfigurationValue)
        ensures
            r@ == self@,
    {
        ConfigurationValue { key: (&self.key).clone(), value: match (&self.value) { Some(x) => Some(x.duplicate()), None => None } }
    }

    /// Copies every element of `v`, keeping each element's view.
    pub fn duplicate_all(v: &Vec<ConfigurationValue>) -> (r: Vec<ConfigurationValue>)
        ensures
            r.deep_view() == v.deep_view(),
    {
        let mut r: Vec<ConfigurationValue> = Vec::new();
        let mut i: usize = 0;
        while i < v.len()
            invariant
                i <= v.len(),
                r.len() == i,
                forall|j: int| 0 <= j < i ==> #[trigger] r@[j].deep_view() == v@[j].deep_view(),
            decreases v.len() - i,
        {
            let x = v[i].duplicate();
            r.push(x);
            i = i + 1;
        }
        assert(r.deep_view() =~= v.deep_view());
        r
    }
}

#[derive(Clone, Debug, PartialEq, Eq, Default)]
pub struct SecretValue {
    pub key: String,
    pub value: Vec<u8>,
}

pub struct SecretValueView {
    pub key: Seq<char>,
    pub value: Seq<u8>,
}

impl View for SecretValue {
    type V = SecretValueView;

    open spec fn view(&self) -> SecretValueView {
        SecretValueView { key: self.key@, value: self.value@ }
    }
}

impl DeepView for SecretValue {
    type V = SecretValueView;

    open spec fn deep_view(&self) -> SecretValueView {
        self.view()
    }
}

impl SecretValue {
    /// Copies the value, keeping its view.
    pub fn duplicate(&self) -> (r: SecretValue)
        ensures
            r@ == self@,
    {
        SecretValue { key: (&self.key).clone(), value: copy_bytes((&self.value)) }
    }

    /// Copies every element of `v`, keeping each element's view.
    pub fn duplicate_all(v: &Vec<SecretValue>) -> (r: Vec<SecretValue>)
        ensures
            r.deep_view() == v.deep_view(),
    {
        let mut r: Vec<SecretValue> = Vec::new();
        let mut i: usize = 0;
        while i < v.len()
            invariant
                i <= v.len(),
                r.len() == i,
                forall|j: int| 0 <= j < i ==> #[trigger] r@[j].deep_view() == v@[j].deep_view(),
            decreases v.len() - i,
        {
            let x = v[i].duplicate();
            r.push(x);
            i = i + 1;
        }
        assert(r.deep_view() =~= v.deep_view());
        r
    }
}

/// What a patch does to a stored secret.
#[derive(Clone, Debug, PartialEq, Eq)]
pub enum SecretPatchOperation {
    /// Store this value.
    Assign(Vec<u8>),
    /// Forget the secret.
    Remove,
}

pub enum SecretPatchOperationView {
    Assign(Seq<u8>),
    Remove,
}

impl View for SecretPatchOperation {
    type V = SecretPatchOperationView;

    open spec fn view(&self) -> SecretPatchOperationView {
        match self {
            SecretPatchOperation::Assign(value) => SecretPatchOperationView::Assign(value@),
            SecretPatchOperation::Remove => SecretPatchOperationView::Remove,
        }
    }
}

impl DeepView for SecretPatchOperation {
    type V = SecretPatchOperationView;

    open spec fn deep_view(&self) -> SecretPatchOperationView {
        self.view()
    }
}

impl SecretPatchOperation {
    /// Copies the value, keeping its view.
    pub fn duplicate(&self) -> (r: SecretPatchOperation)
        ensures
            r@ == self@,
    {
        match self {
            SecretPatchOperation::Assign(value) => SecretPatchOperation::Assign(copy_bytes(value)),
            SecretPatchOperation::Remove => SecretPatchOperation::Remove,
        }
    }
}

/// A change to a secret that the host stores for a connection.
#[derive(Clone, Debug, PartialEq, Eq, Default)]
pub struct SecretPatch {
    pub key: String,
    pub patch: Option<SecretPatchOperation>,
}

pub struct SecretPatchView {
    pub key: Seq<char>,
    pub patch: Option<SecretPatchOperationView>,
}

impl View for SecretPatch {
    type V = SecretPatchView;

    open spec fn view(&self) -> SecretPatchView {
        SecretPatchView { key: self.key@, patch: self.patch.deep_view() }
    }
}

impl DeepView for SecretPatch {
    type V = SecretPatchView;

    open spec fn deep_view(&self) -> SecretPatchView {
        self.view()
    }
}

impl SecretPatch {
    /// Copies the value, keeping its view.
    pub fn duplicate(&self) -> (r: SecretPatch)
        ensures
            r@ == self@,
    {
        SecretPatch {
            key: (&self.key).clone(),
            patch: match (&self.patch) {
                Some(x) => Some(x.duplicate()),
                None => None,
            },
        }
    }

    /// Copies every element of `v`, keeping each element's view.
    pub fn duplicate_all(v: &Vec<SecretPatch>) -> (r: Vec<SecretPatch>)
        ensures
            r.deep_view() == v.deep_view(),
    {
        let mut r: Vec<SecretPatch> = Vec::new();
        let mut i: usize = 0;
        while i < v.len()
            invariant
                i <= v.len(),
                r.len() == i,
                forall|j: int| 0 <= j < i ==> #[trigger] r@[j].deep_view() == v@[j].deep_view(),
            decreases v.len() - i,
        {
            let x = v[i].duplicate();
            r.push(x);
            i = i + 1;
        }
        assert(r.deep_view() =~= v.deep_view());
        r
    }
}

#[derive(Clone, Debug, PartialEq, Eq, Default)]
pub struct AuthenticationPrompt {
    pub message: String,
    pub verification_url: String,
    pub user_code: String,
    pub fields: Vec<ConfigurationField>,
}

pub struct AuthenticationPromptView {
    pub message: Seq<char>,
    pub verification_url: Seq<char>,
    pub user_code: Seq<char>,
    pub fields: Seq<ConfigurationFieldView>,
}

impl View for AuthenticationPrompt {
    type V = AuthenticationPromptView;

    open spec fn view(&self) -> AuthenticationPromptView {
        AuthenticationPromptView { message: self.message@, verification_url: self.verification_url@, user_code: self.user_code@, fields: self.fields.deep_view() }
    }
}

impl DeepView for AuthenticationPrompt {
    type V = AuthenticationPromptView;

    open spec fn deep_view(&self) -> AuthenticationPromptView {
        self.view()
    }
}

impl AuthenticationPrompt {
    /// Copies the value, keeping its view.
    pub fn duplicate(&self) -> (r: AuthenticationPrompt)
        ensures
            r@ == self@,
    {
        AuthenticationPrompt { message: (&self.message).clone(), verification_url: (&self.verification_url).clone(), user_code: (&self.user_code).clone(), fields: ConfigurationField::duplicate_all((&self.fields)) }
    }

    /// Copies every element of `v`, keeping each element's view.
    pub fn duplicate_all(v: &Vec<AuthenticationPrompt>) -> (r: Vec<AuthenticationPrompt>)
        ensures
            r.deep_view() == v.deep_view(),
    {
        let mut r: Vec<AuthenticationPrompt> = Vec::new();
        let mut i: usize = 0;
        while i < v.len()
            invariant
                i <= v.len(),
                r.len() == i,
                forall|j: int| 0 <= j < i ==> #[trigger] r@[j].deep_view() == v@[j].deep_view(),
            decreases v.len() - i,
        {
            let x = v[i].duplicate();
            r.push(x);
            i = i + 1;
        }
        assert(r.deep_view() =~= v.deep_view());
        r
    }
}

#[derive(Clone, Debug, PartialEq, Eq, Default)]
pub struct AuthenticationMethod {
    pub key: String,
    pub display_name: String,
}

pub struct AuthenticationMethodView {
    pub key: Seq<char>,
    pub display_name: Seq<char>,
}

impl View for AuthenticationMethod {
    type V = AuthenticationMethodView;

    open spec fn view(&self) -> AuthenticationMethodView {
        AuthenticationMethodView { key: self.key@, display_name: self.display_name@ }
    }
}

impl DeepView for AuthenticationMethod {
    type V = AuthenticationMethodView;

    open spec fn deep_view(&self) -> AuthenticationMethodView {
        self.view()
    }
}

impl AuthenticationMethod {
    /// Copies the value, keeping its view.
    pub fn duplicate(&self) -> (r: AuthenticationMethod)
        ensures
            r@ == self@,
    {
        AuthenticationMethod { key: (&self.key).clone(), display_name: (&self.display_name).clone() }
    }

    /// Copies every element of `v`, keeping each element's view.
    pub fn duplicate_all(v: &Vec<AuthenticationMethod>) -> (r: Vec<AuthenticationMethod>)
        ensures
            r.deep_view() == v.deep_view(),
    {
        let mut r: Vec<AuthenticationMethod> = Vec::new();
        let mut i: usize = 0;
        while i < v.len()
            invariant
                i <= v.len(),
                r.len() == i,
                forall|j: int| 0 <= j < i ==> #[trigger] r@[j].deep_view() == v@[j].deep_view(),
            decreases v.len() - i,
        {
            let x = v[i].duplicate();
            r.push(x);
            i = i + 1;
        }
        assert(r.deep_view() =~= v.deep_view());
        r
    }
}

#[derive(Clone, Debug, PartialEq, Eq, Default)]
pub struct AuthenticationProgress {
    pub authentication_id: String,
    pub status: AuthenticationStatus,
    pub prompt: Option<AuthenticationPrompt>,
    pub retry_after_seconds: Option<i64>,
    pub accounts: Vec<AccountSnapshot>,
    pub secret_patches: Vec<SecretPatch>,
}

pub struct AuthenticationProgressView {
    pub authentication_id: Seq<char>,
    pub status: AuthenticationStatus,
    pub prompt: Option<AuthenticationPromptView>,
    pub retry_after_seconds: Option<i64>,
    pub accounts: Seq<AccountSnapshotView>,
    pub secret_patches: Seq<SecretPatchView>,
}

impl View for AuthenticationProgress {
    type V = AuthenticationProgressView;

    open spec fn view(&self) -> AuthenticationProgressView {
        AuthenticationProgressView { authentication_id: self.authentication_id@, status: self.status, prompt: self.prompt.deep_view(), retry_after_seconds: self.retry_after_seconds, accounts: self.accounts.deep_view(), secret_patches: self.secret_patches.deep_view() }
    }
}

impl DeepView for AuthenticationProgress {
    type V = AuthenticationProgressView;

    open spec fn deep_view(&self) -> AuthenticationProgressView {
        self.view()
    }
}

impl AuthenticationProgress {
    /// Copies the value, keeping its view.
    pub fn duplicate(&self) -> (r: AuthenticationProgress)
        ensures
            r@ == self@,
    {
        AuthenticationProgress { authentication_id: (&self.authentication_id).clone(), status: *(&self.status), prompt: match (&self.prompt) { Some(x) => Some(x.duplicate()), None => None }, retry_after_seconds: *(&self.retry_after_seconds), accounts: AccountSnapshot::duplicate_all((&self.accounts)), secret_patches: SecretPatch::duplicate_all((&self.secret_patches)) }
    }

    /// Copies every element of `v`, keeping each element's view.
    pub fn duplicate_all(v: &Vec<AuthenticationProgress>) -> (r: Vec<AuthenticationProgress>)
        ensures
            r.deep_view() == v.deep_view(),
    {
        let mut r: Vec<AuthenticationProgress> = Vec::new();
        let mut i: usize = 0;
        while i < v.len()
            invariant
                i <= v.len(),
                r.len() == i,
                forall|j: int| 0 <= j < i ==> #[trigger] r@[j].deep_view() == v@[j].deep_view(),
            decreases v.len() - i,
        {
            let x = v[i].duplicate();
            r.push(x);
            i = i + 1;
        }
        assert(r.deep_view() =~= v.deep_view());
        r
    }
}

#[derive(Clone, Debug, PartialEq, Eq)]
pub enum ValueKind {
    Text(String),
    Boolean(bool),
    Integer(i64),
    Decimal(DecimalValue),
}

pub enum ValueKindView {
    Text(Seq<char>),
    Boolean(bool),
    Integer(i64),
    Decimal(DecimalValueView),
}

impl View for ValueKind {
    type V = ValueKindView;

    open spec fn view(&self) -> ValueKindView {
        match self {
            ValueKind::Text(p) => ValueKindView::Text(p@),
            ValueKind::Boolean(p) => ValueKindView::Boolean(*p),
            ValueKind::Integer(p) => ValueKindView::Integer(*p),
            ValueKind::Decimal(p) => ValueKindView::Decimal(p@),
        }
    }
}

impl DeepView for ValueKind {
    type V = ValueKindView;

    open spec fn deep_view(&self) -> ValueKindView {
        self.view()
    }
}

impl ValueKind {
    /// Copies the value, keeping its view.
    pub fn duplicate(&self) -> (r: ValueKind)
        ensures
            r@ == self@,
    {
        match self {
            ValueKind::Text(p) => ValueKind::Text(p.clone()),
            ValueKind::Boolean(p) => ValueKind::Boolean(*p),
            ValueKind::Integer(p) => ValueKind::Integer(*p),
            ValueKind::Decimal(p) => ValueKind::Decimal(p.duplicate()),
        }
    }

    /// Copies every element of `v`, keeping each element's view.
    pub fn duplicate_all(v: &Vec<ValueKind>) -> (r: Vec<ValueKind>)
        ensures
            r.deep_view() == v.deep_view(),
    {
        let mut r: Vec<ValueKind> = Vec::new();
        let mut i: usize = 0;
        while i < v.len()
            invariant
                i <= v.len(),
                r.len() == i,
                forall|j: int| 0 <= j < i ==> #[trigger] r@[j].deep_view() == v@[j].deep_view(),
            decreases v.len() - i,
        {
            let x = v[i].duplicate();
            r.push(x);
            i = i + 1;
        }
        assert(r.deep_view() =~= v.deep_view());
        r
    }
}

#[derive(Clone, Debug, PartialEq, Eq)]
pub enum Subject {
    ProviderItemKey(Key),
    CatalogRelationKey(Key),
}

pub enum SubjectView {
    ProviderItemKey(KeyView),
    CatalogRelationKey(KeyView),
}

impl View for Subject {
    type V = SubjectView;

    open spec fn view(&self) -> SubjectView {
        match self {
            Subject::ProviderItemKey(p) => SubjectView::ProviderItemKey(p@),
            Subject::CatalogRelationKey(p) => SubjectView::CatalogRelationKey(p@),
        }
    }
}

impl DeepView for Subject {
    type V = SubjectView;

    open spec fn deep_view(&self) -> SubjectView {
        self.view()
    }
}

impl Subject {
    /// Copies the value, keeping its view.
    pub fn duplicate(&self) -> (r: Subject)
        ensures
            r@ == self@,
    {
        match self {
            Subject::ProviderItemKey(p) => Subject::ProviderItemKey(p.duplicate()),
            Subject::CatalogRelationKey(p) => Subject::CatalogRelationKey(p.duplicate()),
        }
    }

    /// Copies every element of `v`, keeping each element's view.
    pub fn duplicate_all(v: &Vec<Subject>) -> (r: Vec<Subject>)
        ensures
            r.deep_view() == v.deep_view(),
    {
        let mut r: Vec<Subject> = Vec::new();
        let mut i: usize = 0;
        while i < v.len()
            invariant
                i <= v.len(),
                r.len() == i,
                forall|j: int| 0 <= j < i ==> #[trigger] r@[j].deep_view() == v@[j].deep_view(),
            decreases v.len() - i,
        {
            let x = v[i].duplicate();
            r.push(x);
            i = i + 1;
        }
        assert(r.deep_view() =~= v.deep_view());
        r
    }
}

#[derive(Clone, Debug, PartialEq, Eq)]
pub enum Observation {
    Value(Value),
    Deletion(StateDeletion),
}

pub enum ObservationView {
    Value(ValueView),
    Deletion(StateDeletionView),
}

impl View for Observation {
    type V = ObservationView;

    open spec fn view(&self) -> ObservationView {
        match self {
            Observation::Value(p) => ObservationView::Value(p@),
            Observation::Deletion(p) => ObservationView::Deletion(p@),
        }
    }
}

impl DeepView for Observation {
    type V = ObservationView;

    open spec fn deep_view(&self) -> ObservationView {
        self.view()
    }
}

impl Observation {
    /// Copies the value, keeping its view.
    pub fn duplicate(&self) -> (r: Observation)
        ensures
            r@ == self@,
    {
        match self {
            Observation::Value(p) => Observation::Value(p.duplicate()),
            Observation::Deletion(p) => Observation::Deletion(p.duplicate()),
        }
    }

    /// Copies every element of `v`, keeping each element's view.
    pub fn duplicate_all(v: &Vec<Observation>) -> (r: Vec<Observation>)
        ensures
            r.deep_view() == v.deep_view(),
    {
        let mut r: Vec<Observation> = Vec::new();
        let mut i: usize = 0;
        while i < v.len()
            invariant
                i <= v.len(),
                r.len() == i,
                forall|j: int| 0 <= j < i ==> #[trigger] r@[j].deep_view() == v@[j].deep_view(),
            decreases v.len() - i,
        {
            let x = v[i].duplicate();
            r.push(x);
            i = i + 1;
        }
        assert(r.deep_view() =~= v.deep_view());
        r
    }
}

#[derive(Clone, Debug, PartialEq, Eq)]
pub enum CatalogEvent {
    Batch(CatalogBatch),
    Completed(ReadCompleted),
    Failed(ReadFailed),
    Cancelled(ReadCancelled),
    Heartbeat(ReadHeartbeat),
}

pub enum CatalogEventView {
    Batch(CatalogBatchView),
    Completed(ReadCompletedView),
    Failed(ReadFailedView),
    Cancelled(ReadCancelledView),
    Heartbeat(ReadHeartbeatView),
}

impl View for CatalogEvent {
    type V = CatalogEventView;

    open spec fn view(&self) -> CatalogEventView {
        match self {
            CatalogEvent::Batch(p) => CatalogEventView::Batch(p@),
            CatalogEvent::Completed(p) => CatalogEventView::Completed(p@),
            CatalogEvent::Failed(p) => CatalogEventView::Failed(p@),
            CatalogEvent::Cancelled(p) => CatalogEventView::Cancelled(p@),
            CatalogEvent::Heartbeat(p) => CatalogEventView::Heartbeat(p@),
        }
    }
}

impl DeepView for CatalogEvent {
    type V = CatalogEventView;

    open spec fn deep_view(&self) -> CatalogEventView {
        self.view()
    }
}

impl CatalogEvent {
    /// Copies the value, keeping its view.
    pub fn duplicate(&self) -> (r: CatalogEvent)
        ensures
            r@ == self@,
    {
        match self {
            CatalogEvent::Batch(p) => CatalogEvent::Batch(p.duplicate()),
            CatalogEvent::Completed(p) => CatalogEvent::Completed(p.duplicate()),
            CatalogEvent::Failed(p) => CatalogEvent::Failed(p.duplicate()),
            CatalogEvent::Cancelled(p) => CatalogEvent::Cancelled(p.duplicate()),
            CatalogEvent::Heartbeat(p) => CatalogEvent::Heartbeat(p.duplicate()),
        }
    }

    /// Copies every element of `v`, keeping each element's view.
    pub fn duplicate_all(v: &Vec<CatalogEvent>) -> (r: Vec<CatalogEvent>)
        ensures
            r.deep_view() == v.deep_view(),
    {
        let mut r: Vec<CatalogEvent> = Vec::new();
        let mut i: usize = 0;
        while i < v.len()
            invariant
                i <= v.len(),
                r.len() == i,
                forall|j: int| 0 <= j < i ==> #[trigger] r@[j].deep_view() == v@[j].deep_view(),
            decreases v.len() - i,
        {
            let x = v[i].duplicate();
            r.push(x);
            i = i + 1;
        }
        assert(r.deep_view() =~= v.deep_view());
        r
    }
}

#[derive(Clone, Debug, PartialEq, Eq)]
pub enum StateEvent {
    Batch(StateBatch),
    Completed(ReadCompleted),
    Failed(ReadFailed),
    Cancelled(ReadCancelled),
    Heartbeat(ReadHeartbeat),
}

pub enum StateEventView {
    Batch(StateBatchView),
    Completed(ReadCompletedView),
    Failed(ReadFailedView),
    Cancelled(ReadCancelledView),
    Heartbeat(ReadHeartbeatView),
}

impl View for StateEvent {
    type V = StateEventView;

    open spec fn view(&self) -> StateEventView {
        match self {
            StateEvent::Batch(p) => StateEventView::Batch(p@),
            StateEvent::Completed(p) => StateEventView::Completed(p@),
            StateEvent::Failed(p) => StateEventView::Failed(p@),
            StateEvent::Cancelled(p) => StateEventView::Cancelled(p@),
            StateEvent::Heartbeat(p) => StateEventView::Heartbeat(p@),
        }
    }
}

impl DeepView for StateEvent {
    type V = StateEventView;

    open spec fn deep_view(&self) -> StateEventView {
        self.view()
    }
}

impl StateEvent {
    /// Copies the value, keeping its view.
    pub fn duplicate(&self) -> (r: StateEvent)
        ensures
            r@ == self@,
    {
        match self {
            StateEvent::Batch(p) => StateEvent::Batch(p.duplicate()),
            StateEvent::Completed(p) => StateEvent::Completed(p.duplicate()),
            StateEvent::Failed(p) => StateEvent::Failed(p.duplicate()),
            StateEvent::Cancelled(p) => StateEvent::Cancelled(p.duplicate()),
            StateEvent::Heartbeat(p) => StateEvent::Heartbeat(p.duplicate()),
        }
    }

    /// Copies every element of `v`, keeping each element's view.
    pub fn duplicate_all(v: &Vec<StateEvent>) -> (r: Vec<StateEvent>)
        ensures
            r.deep_view() == v.deep_view(),
    {
        let mut r: Vec<StateEvent> = Vec::new();
        let mut i: usize = 0;
        while i < v.len()
            invariant
                i <= v.len(),
                r.len() == i,
                forall|j: int| 0 <= j < i ==> #[trigger] r@[j].deep_view() == v@[j].deep_view(),
            decreases v.len() - i,
        {
            let x = v[i].duplicate();
            r.push(x);
            i = i + 1;
        }
        assert(r.deep_view() =~= v.deep_view());
        r
    }
}

#[derive(Clone, Debug, PartialEq, Eq)]
pub enum LookupOutcome {
    Matched(Option<LookupCandidate>),
    Ambiguous(Vec<LookupCandidate>),
    NotFound,
    Unsupported,
}

pub enum LookupOutcomeView {
    Matched(Option<LookupCandidateView>),
    Ambiguous(Seq<LookupCandidateView>),
    NotFound,
    Unsupported,
}

impl View for LookupOutcome {
    type V = LookupOutcomeView;

    open spec fn view(&self) -> LookupOutcomeView {
        match self {
            LookupOutcome::Matched(p) => LookupOutcomeView::Matched(p.deep_view()),
            LookupOutcome::Ambiguous(p) => LookupOutcomeView::Ambiguous(p.deep_view()),
            LookupOutcome::NotFound => LookupOutcomeView::NotFound,
            LookupOutcome::Unsupported => LookupOutcomeView::Unsupported,
        }
    }
}

impl DeepView for LookupOutcome {
    type V = LookupOutcomeView;

    open spec fn deep_view(&self) -> LookupOutcomeView {
        self.view()
    }
}

impl LookupOutcome {
    /// Copies the value, keeping its view.
    pub fn duplicate(&self) -> (r: LookupOutcome)
        ensures
            r@ == self@,
    {
        match self {
            LookupOutcome::Matched(p) => LookupOutcome::Matched(match p { Some(x) => Some(x.duplicate()), None => None }),
            LookupOutcome::Ambiguous(p) => LookupOutcome::Ambiguous(LookupCandidate::duplicate_all(p)),
            LookupOutcome::NotFound => LookupOutcome::NotFound,
            LookupOutcome::Unsupported => LookupOutcome::Unsupported,
        }
    }

    /// Copies every element of `v`, keeping each element's view.
    pub fn duplicate_all(v: &Vec<LookupOutcome>) -> (r: Vec<LookupOutcome>)
        ensures
            r.deep_view() == v.deep_view(),
    {
        let mut r: Vec<LookupOutcome> = Vec::new();
        let mut i: usize = 0;
        while i < v.len()
            invariant
                i <= v.len(),
                r.len() == i,
                forall|j: int| 0 <= j < i ==> #[trigger] r@[j].deep_view() == v@[j].deep_view(),
            decreases v.len() - i,
        {
            let x = v[i].duplicate();
            r.push(x);
            i = i + 1;
        }
        assert(r.deep_view() =~= v.deep_view());
        r
    }
}

#[derive(Clone, Debug, PartialEq, Eq)]
pub enum LookupResponseOutcome {
    Result(Vec<PortableReferenceLookupResult>),
    Error(OperationFailure),
}

pub enum LookupResponseOutcomeView {
    Result(Seq<PortableReferenceLookupResultView>),
    Error(OperationFailureView),
}

impl View for LookupResponseOutcome {
    type V = LookupResponseOutcomeView;

    open spec fn view(&self) -> LookupResponseOutcomeView {
        match self {
            LookupResponseOutcome::Result(p) => LookupResponseOutcomeView::Result(p.deep_view()),
            LookupResponseOutcome::Error(p) => LookupResponseOutcomeView::Error(p@),
        }
    }
}

impl DeepView for LookupResponseOutcome {
    type V = LookupResponseOutcomeView;

    open spec fn deep_view(&self) -> LookupResponseOutcomeView {
        self.view()
    }
}

impl LookupResponseOutcome {
    /// Copies the value, keeping its view.
    pub fn duplicate(&self) -> (r: LookupResponseOutcome)
        ensures
            r@ == self@,
    {
        match self {
            LookupResponseOutcome::Result(p) => LookupResponseOutcome::Result(PortableReferenceLookupResult::duplicate_all(p)),
            LookupResponseOutcome::Error(p) => LookupResponseOutcome::Error(p.duplicate()),
        }
    }

    /// Copies every element of `v`, keeping each element's view.
    pub fn duplicate_all(v: &Vec<LookupResponseOutcome>) -> (r: Vec<LookupResponseOutcome>)
        ensures
            r.deep_view() == v.deep_view(),
    {
        let mut r: Vec<LookupResponseOutcome> = Vec::new();
        let mut i: usize = 0;
        while i < v.len()
            invariant
                i <= v.len(),
                r.len() == i,
                forall|j: int| 0 <= j < i ==> #[trigger] r@[j].deep_view() == v@[j].deep_view(),
            decreases v.len() - i,
        {
            let x = v[i].duplicate();
            r.push(x);
            i = i + 1;
        }
        assert(r.deep_view() =~= v.deep_view());
        r
    }
}

#[derive(Clone, Debug, PartialEq, Eq)]
pub enum EndpointOutcome {
    Matched(Option<EndpointLookupCandidate>),
    Ambiguous(Vec<EndpointLookupCandidate>),
    NotFound,
    Unsupported,
}

pub enum EndpointOutcomeView {
    Matched(Option<EndpointLookupCandidateView>),
    Ambiguous(Seq<EndpointLookupCandidateView>),
    NotFound,
    Unsupported,
}

impl View for EndpointOutcome {
    type V = EndpointOutcomeView;

    open spec fn view(&self) -> EndpointOutcomeView {
        match self {
            EndpointOutcome::Matched(p) => EndpointOutcomeView::Matched(p.deep_view()),
            EndpointOutcome::Ambiguous(p) => EndpointOutcomeView::Ambiguous(p.deep_view()),
            EndpointOutcome::NotFound => EndpointOutcomeView::NotFound,
            EndpointOutcome::Unsupported => EndpointOutcomeView::Unsupported,
        }
    }
}

impl DeepView for EndpointOutcome {
    type V = EndpointOutcomeView;

    open spec fn deep_view(&self) -> EndpointOutcomeView {
        self.view()
    }
}

impl EndpointOutcome {
    /// Copies the value, keeping its view.
    pub fn duplicate(&self) -> (r: EndpointOutcome)
        ensures
            r@ == self@,
    {
        match self {
            EndpointOutcome::Matched(p) => EndpointOutcome::Matched(match p { Some(x) => Some(x.duplicate()), None => None }),
            EndpointOutcome::Ambiguous(p) => EndpointOutcome::Ambiguous(EndpointLookupCandidate::duplicate_all(p)),
            EndpointOutcome::NotFound => EndpointOutcome::NotFound,
            EndpointOutcome::Unsupported => EndpointOutcome::Unsupported,
        }
    }

    /// Copies every element of `v`, keeping each element's view.
    pub fn duplicate_all(v: &Vec<EndpointOutcome>) -> (r: Vec<EndpointOutcome>)
        ensures
            r.deep_view() == v.deep_view(),
    {
        let mut r: Vec<EndpointOutcome> = Vec::new();
        let mut i: usize = 0;
        while i < v.len()
            invariant
                i <= v.len(),
                r.len() == i,
                forall|j: int| 0 <= j < i ==> #[trigger] r@[j].deep_view() == v@[j].deep_view(),
            decreases v.len() - i,
        {
            let x = v[i].duplicate();
            r.push(x);
            i = i + 1;
        }
        assert(r.deep_view() =~= v.deep_view());
        r
    }
}

#[derive(Clone, Debug, PartialEq, Eq)]
pub enum TargetedReadOutcome {
    Matched(TargetedStateReadMatched),
    Ambiguous(Vec<SubjectReference>),
    NotFound,
    Indeterminate(Option<OperationFailure>),
    Unsupported,
}

pub enum TargetedReadOutcomeView {
    Matched(TargetedStateReadMatchedView),
    Ambiguous(Seq<SubjectReferenceView>),
    NotFound,
    Indeterminate(Option<OperationFailureView>),
    Unsupported,
}

impl View for TargetedReadOutcome {
    type V = TargetedReadOutcomeView;

    open spec fn view(&self) -> TargetedReadOutcomeView {
        match self {
            TargetedReadOutcome::Matched(p) => TargetedReadOutcomeView::Matched(p@),
            TargetedReadOutcome::Ambiguous(p) => TargetedReadOutcomeView::Ambiguous(p.deep_view()),
            TargetedReadOutcome::NotFound => TargetedReadOutcomeView::NotFound,
            TargetedReadOutcome::Indeterminate(p) => TargetedReadOutcomeView::Indeterminate(p.deep_view()),
            TargetedReadOutcome::Unsupported => TargetedReadOutcomeView::Unsupported,
        }
    }
}

impl DeepView for TargetedReadOutcome {
    type V = TargetedReadOutcomeView;

    open spec fn deep_view(&self) -> TargetedReadOutcomeView {
        self.view()
    }
}

impl TargetedReadOutcome {
    /// Copies the value, keeping its view.
    pub fn duplicate(&self) -> (r: TargetedReadOutcome)
        ensures
            r@ == self@,
    {
        match self {
            TargetedReadOutcome::Matched(p) => TargetedReadOutcome::Matched(p.duplicate()),
            TargetedReadOutcome::Ambiguous(p) => TargetedReadOutcome::Ambiguous(SubjectReference::duplicate_all(p)),
            TargetedReadOutcome::NotFound => TargetedReadOutcome::NotFound,
            TargetedReadOutcome::Indeterminate(p) => TargetedReadOutcome::Indeterminate(match p { Some(x) => Some(x.duplicate()), None => None }),
            TargetedReadOutcome::Unsupported => TargetedReadOutcome::Unsupported,
        }
    }

    /// Copies every element of `v`, keeping each element's view.
    pub fn duplicate_all(v: &Vec<TargetedReadOutcome>) -> (r: Vec<TargetedReadOutcome>)
        ensures
            r.deep_view() == v.deep_view(),
    {
        let mut r: Vec<TargetedReadOutcome> = Vec::new();
        let mut i: usize = 0;
        while i < v.len()
            invariant
                i <= v.len(),
                r.len() == i,
                forall|j: int| 0 <= j < i ==> #[trigger] r@[j].deep_view() == v@[j].deep_view(),
            decreases v.len() - i,
        {
            let x = v[i].duplicate();
            r.push(x);
            i = i + 1;
        }
        assert(r.deep_view() =~= v.deep_view());
        r
    }
}

#[derive(Clone, Debug, PartialEq, Eq)]
pub enum WriteOperation {
    Assign(Value),
    Clear,
}

pub enum WriteOperationView {
    Assign(ValueView),
    Clear,
}

impl View for WriteOperation {
    type V = WriteOperationView;

    open spec fn view(&self) -> WriteOperationView {
        match self {
            WriteOperation::Assign(p) => WriteOperationView::Assign(p@),
            WriteOperation::Clear => WriteOperationView::Clear,
        }
    }
}

impl DeepView for WriteOperation {
    type V = WriteOperationView;

    open spec fn deep_view(&self) -> WriteOperationView {
        self.view()
    }
}

impl WriteOperation {
    /// Copies the value, keeping its view.
    pub fn duplicate(&self) -> (r: WriteOperation)
        ensures
            r@ == self@,
    {
        match self {
            WriteOperation::Assign(p) => WriteOperation::Assign(p.duplicate()),
            WriteOperation::Clear => WriteOperation::Clear,
        }
    }

    /// Copies every element of `v`, keeping each element's view.
    pub fn duplicate_all(v: &Vec<WriteOperation>) -> (r: Vec<WriteOperation>)
        ensures
            r.deep_view() == v.deep_view(),
    {
        let mut r: Vec<WriteOperation> = Vec::new();
        let mut i: usize = 0;
        while i < v.len()
            invariant
                i <= v.len(),
                r.len() == i,
                forall|j: int| 0 <= j < i ==> #[trigger] r@[j].deep_view() == v@[j].deep_view(),
            decreases v.len() - i,
        {
            let x = v[i].duplicate();
            r.push(x);
            i = i + 1;
        }
        assert(r.deep_view() =~= v.deep_view());
        r
    }
}

#[derive(Clone, Debug, PartialEq, Eq)]
pub enum AssetOutcome {
    Result(ReadAssetResult),
    Error(OperationFailure),
}

pub enum AssetOutcomeView {
    Result(ReadAssetResultView),
    Error(OperationFailureView),
}

impl View for AssetOutcome {
    type V = AssetOutcomeView;

    open spec fn view(&self) -> AssetOutcomeView {
        match self {
            AssetOutcome::Result(p) => AssetOutcomeView::Result(p@),
            AssetOutcome::Error(p) => AssetOutcomeView::Error(p@),
        }
    }
}

impl DeepView for AssetOutcome {
    type V = AssetOutcomeView;

    open spec fn deep_view(&self) -> AssetOutcomeView {
        self.view()
    }
}

impl AssetOutcome {
    /// Copies the value, keeping its view.
    pub fn duplicate(&self) -> (r: AssetOutcome)
        ensures
            r@ == self@,
    {
        match self {
            AssetOutcome::Result(p) => AssetOutcome::Result(p.duplicate()),
            AssetOutcome::Error(p) => AssetOutcome::Error(p.duplicate()),
        }
    }

    /// Copies every element of `v`, keeping each element's view.
    pub fn duplicate_all(v: &Vec<AssetOutcome>) -> (r: Vec<AssetOutcome>)
        ensures
            r.deep_view() == v.deep_view(),
    {
        let mut r: Vec<AssetOutcome> = Vec::new();
        let mut i: usize = 0;
        while i < v.len()
            invariant
                i <= v.len(),
                r.len() == i,
                forall|j: int| 0 <= j < i ==> #[trigger] r@[j].deep_view() == v@[j].deep_view(),
            decreases v.len() - i,
        {
            let x = v[i].duplicate();
            r.push(x);
            i = i + 1;
        }
        assert(r.deep_view() =~= v.deep_view());
        r
    }
}

} // verus!
