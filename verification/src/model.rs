//! The Plex Media Server and plex.tv records that the adapter reads, as plain
//! values.
//!
//! A media item's user rating is held as the decimal text that Plex's number
//! formats to; the adapter only ever forwards that text.
use vstd::prelude::*;
#[allow(unused_imports)]
use crate::sdk::{copy_bytes, copy_integers, copy_optional_text, copy_texts};

verus! {

/// The `MediaContainer` envelope that wraps every Plex Media Server reply.
#[derive(Clone, Debug)]
pub struct MediaContainerEnvelope<T> {
    pub media_container: T,
}

#[derive(Clone, Debug, PartialEq, Eq, Default)]
pub struct ServerInfo {
    pub machine_identifier: String,
    pub friendly_name: String,
    pub version: String,
    pub updated_at: i64,
}

pub struct ServerInfoView {
    pub machine_identifier: Seq<char>,
    pub friendly_name: Seq<char>,
    pub version: Seq<char>,
    pub updated_at: i64,
}

impl View for ServerInfo {
    type V = ServerInfoView;

    open spec fn view(&self) -> ServerInfoView {
        ServerInfoView { machine_identifier: self.machine_identifier@, friendly_name: self.friendly_name@, version: self.version@, updated_at: self.updated_at }
    }
}

impl DeepView for ServerInfo {
    type V = ServerInfoView;

    open spec fn deep_view(&self) -> ServerInfoView {
        self.view()
    }
}

impl ServerInfo {
    /// Copies the value, keeping its view.
    pub fn duplicate(&self) -> (r: ServerInfo)
        ensures
            r@ == self@,
    {
        ServerInfo { machine_identifier: (&self.machine_identifier).clone(), friendly_name: (&self.friendly_name).clone(), version: (&self.version).clone(), updated_at: *(&self.updated_at) }
    }

    /// Copies every element of `v`, keeping each element's view.
    pub fn duplicate_all(v: &Vec<ServerInfo>) -> (r: Vec<ServerInfo>)
        ensures
            r.deep_view() == v.deep_view(),
    {
        let mut r: Vec<ServerInfo> = Vec::new();
        let mut i: usize = 0;
        while i < v.len()
            invariant
                i <= v.len(),
                r.len() == i,
                forall|j: int| 0 <= j < i ==> #[trigger] r@[j].deep_view() == v@[j].deep_view(),
            decreases v.len() - i,
        {
            let x = v[i].duplicate();
            r.push(x);
            i = i + 1;
        }
        assert(r.deep_view() =~= v.deep_view());
        r
    }
}

#[derive(Clone, Debug, PartialEq, Eq, Default)]
pub struct PlexAccount {
    pub username: String,
    pub email: String,
}

pub struct PlexAccountView {
    pub username: Seq<char>,
    pub email: Seq<char>,
}

impl View for PlexAccount {
    type V = PlexAccountView;

    open spec fn view(&self) -> PlexAccountView {
        PlexAccountView { username: self.username@, email: self.email@ }
    }
}

impl DeepView for PlexAccount {
    type V = PlexAccountView;

    open spec fn deep_view(&self) -> PlexAccountView {
        self.view()
    }
}

impl PlexAccount {
    /// Copies the value, keeping its view.
    pub fn duplicate(&self) -> (r: PlexAccount)
        ensures
            r@ == self@,
    {
        PlexAccount { username: (&self.username).clone(), email: (&self.email).clone() }
    }

    /// Copies every element of `v`, keeping each element's view.
    pub fn duplicate_all(v: &Vec<PlexAccount>) -> (r: Vec<PlexAccount>)
        ensures
            r.deep_view() == v.deep_view(),
    {
        let mut r: Vec<PlexAccount> = Vec::new();
        let mut i: usize = 0;
        while i < v.len()
            invariant
                i <= v.len(),
                r.len() == i,
                forall|j: int| 0 <= j < i ==> #[trigger] r@[j].deep_view() == v@[j].deep_view(),
            decreases v.len() - i,
        {
            let x = v[i].duplicate();
            r.push(x);
            i = i + 1;
        }
        assert(r.deep_view() =~= v.deep_view());
        r
    }
}

#[derive(Clone, Debug, PartialEq, Eq, Default)]
pub struct LibrarySections {
    pub directories: Vec<LibrarySection>,
}

pub struct LibrarySectionsView {
    pub directories: Seq<LibrarySectionView>,
}

impl View for LibrarySections {
    type V = LibrarySectionsView;

    open spec fn view(&self) -> LibrarySectionsView {
        LibrarySectionsView { directories: self.directories.deep_view() }
    }
}

impl DeepView for LibrarySections {
    type V = LibrarySectionsView;

    open spec fn deep_view(&self) -> LibrarySectionsView {
        self.view()
    }
}

impl LibrarySections {
    /// Copies the value, keeping its view.
    pub fn duplicate(&self) -> (r: LibrarySections)
        ensures
            r@ == self@,
    {
        LibrarySections { directories: LibrarySection::duplicate_all((&self.directories)) }
    }

    /// Copies every element of `v`, keeping each element's view.
    pub fn duplicate_all(v: &Vec<LibrarySections>) -> (r: Vec<LibrarySections>)
        ensures
            r.deep_view() == v.deep_view(),
    {
        let mut r: Vec<LibrarySections> = Vec::new();
        let mut i: usize = 0;
        while i < v.len()
            invariant
                i <= v.len(),
                r.len() == i,
                forall|j: int| 0 <= j < i ==> #[trigger] r@[j].deep_view() == v@[j].deep_view(),
            decreases v.len() - i,
        {
            let x = v[i].duplicate();
            r.push(x);
            i = i + 1;
        }
        assert(r.deep_view() =~= v.deep_view());
        r
    }
}

#[derive(Clone, Debug, PartialEq, Eq, Default)]
pub struct LibrarySection {
    pub key: String,
    pub uuid: String,
    pub title: String,
    pub media_type: String,
    pub updated_at: i64,
}

pub struct LibrarySectionView {
    pub key: Seq<char>,
    pub uuid: Seq<char>,
    pub title: Seq<char>,
    pub media_type: Seq<char>,
    pub updated_at: i64,
}

impl View for LibrarySection {
    type V = LibrarySectionView;

    open spec fn view(&self) -> LibrarySectionView {
        LibrarySectionView { key: self.key@, uuid: self.uuid@, title: self.title@, media_type: self.media_type@, updated_at: self.updated_at }
    }
}

impl DeepView for LibrarySection {
    type V = LibrarySectionView;

    open spec fn deep_view(&self) -> LibrarySectionView {
        self.view()
    }
}

impl LibrarySection {
    /// Copies the value, keeping its view.
    pub fn duplicate(&self) -> (r: LibrarySection)
        ensures
            r@ == self@,
    {
        LibrarySection { key: (&self.key).clone(), uuid: (&self.uuid).clone(), title: (&self.title).clone(), media_type: (&self.media_type).clone(), updated_at: *(&self.updated_at) }
    }

    /// Copies every element of `v`, keeping each element's view.
    pub fn duplicate_all(v: &Vec<LibrarySection>) -> (r: Vec<LibrarySection>)
        ensures
            r.deep_view() == v.deep_view(),
    {
        let mut r: Vec<LibrarySection> = Vec::new();
        let mut i: usize = 0;
        while i < v.len()
            invariant
                i <= v.len(),
                r.len() == i,
                forall|j: int| 0 <= j < i ==> #[trigger] r@[j].deep_view() == v@[j].deep_view(),
            decreases v.len() - i,
        {
            let x = v[i].duplicate();
            r.push(x);
            i = i + 1;
        }
        assert(r.deep_view() =~= v.deep_view());
        r
    }
}

#[derive(Clone, Debug, PartialEq, Eq, Default)]
pub struct MetadataContainer {
    pub size: usize,
    pub offset: usize,
    pub total_size: Option<usize>,
    pub metadata: Vec<MediaItem>,
}

pub struct MetadataContainerView {
    pub size: usize,
    pub offset: usize,
    pub total_size: Option<usize>,
    pub metadata: Seq<MediaItemView>,
}

impl View for MetadataContainer {
    type V = MetadataContainerView;

    open spec fn view(&self) -> MetadataContainerView {
        MetadataContainerView { size: self.size, offset: self.offset, total_size: self.total_size, metadata: self.metadata.deep_view() }
    }
}

impl DeepView for MetadataContainer {
    type V = MetadataContainerView;

    open spec fn deep_view(&self) -> MetadataContainerView {
        self.view()
    }
}

impl MetadataContainer {
    /// Copies the value, keeping its view.
    pub fn duplicate(&self) -> (r: MetadataContainer)
        ensures
            r@ == self@,
    {
        MetadataContainer { size: *(&self.size), offset: *(&self.offset), total_size: *(&self.total_size), metadata: MediaItem::duplicate_all((&self.metadata)) }
    }

    /// Copies every element of `v`, keeping each element's view.
    pub fn duplicate_all(v: &Vec<MetadataContainer>) -> (r: Vec<MetadataContainer>)
        ensures
            r.deep_view() == v.deep_view(),
    {
        let mut r: Vec<MetadataContainer> = Vec::new();
        let mut i: usize = 0;
        while i < v.len()
            invariant
                i <= v.len(),
                r.len() == i,
                forall|j: int| 0 <= j < i ==> #[trigger] r@[j].deep_view() == v@[j].deep_view(),
            decreases v.len() - i,
        {
            let x = v[i].duplicate();
            r.push(x);
            i = i + 1;
        }
        assert(r.deep_view() =~= v.deep_view());
        r
    }
}

#[derive(Clone, Debug, PartialEq, Eq, Default)]
pub struct MediaItem {
    pub rating_key: String,
    pub key: String,
    pub parent_rating_key: Option<String>,
    pub grandparent_rating_key: Option<String>,
    pub guid: Option<String>,
    pub media_type: String,
    pub title: String,
    pub show_ordering: Option<String>,
    pub parent_title: Option<String>,
    pub grandparent_title: Option<String>,
    pub summary: Option<String>,
    pub thumb: Option<String>,
    pub art: Option<String>,
    pub duration: Option<i64>,
    pub added_at: Option<i64>,
    pub updated_at: Option<i64>,
    pub originally_available_at: Option<String>,
    pub year: Option<i64>,
    pub index: Option<i64>,
    pub parent_index: Option<i64>,
    pub user_rating: Option<String>,
    pub view_count: Option<i64>,
    pub view_offset: Option<i64>,
    pub last_viewed_at: Option<i64>,
    pub guids: Vec<PlexGuid>,
    pub genres: Vec<Tag>,
}

pub struct MediaItemView {
    pub rating_key: Seq<char>,
    pub key: Seq<char>,
    pub parent_rating_key: Option<Seq<char>>,
    pub grandparent_rating_key: Option<Seq<char>>,
    pub guid: Option<Seq<char>>,
    pub media_type: Seq<char>,
    pub title: Seq<char>,
    pub show_ordering: Option<Seq<char>>,
    pub parent_title: Option<Seq<char>>,
    pub grandparent_title: Option<Seq<char>>,
    pub summary: Option<Seq<char>>,
    pub thumb: Option<Seq<char>>,
    pub art: Option<Seq<char>>,
    pub duration: Option<i64>,
    pub added_at: Option<i64>,
    pub updated_at: Option<i64>,
    pub originally_available_at: Option<Seq<char>>,
    pub year: Option<i64>,
    pub index: Option<i64>,
    pub parent_index: Option<i64>,
    pub user_rating: Option<Seq<char>>,
    pub view_count: Option<i64>,
    pub view_offset: Option<i64>,
    pub last_viewed_at: Option<i64>,
    pub guids: Seq<PlexGuidView>,
    pub genres: Seq<TagView>,
}

impl View for MediaItem {
    type V = MediaItemView;

    open spec fn view(&self) -> MediaItemView {
        MediaItemView { rating_key: self.rating_key@, key: self.key@, parent_rating_key: self.parent_rating_key.deep_view(), grandparent_rating_key: self.grandparent_rating_key.deep_view(), guid: self.guid.deep_view(), media_type: self.media_type@, title: self.title@, show_ordering: self.show_ordering.deep_view(), parent_title: self.parent_title.deep_view(), grandparent_title: self.grandparent_title.deep_view(), summary: self.summary.deep_view(), thumb: self.thumb.deep_view(), art: self.art.deep_view(), duration: self.duration, added_at: self.added_at, updated_at: self.updated_at, originally_available_at: self.originally_available_at.deep_view(), year: self.year, index: self.index, parent_index: self.parent_index, user_rating: self.user_rating.deep_view(), view_count: self.view_count, view_offset: self.view_offset, last_viewed_at: self.last_viewed_at, guids: self.guids.deep_view(), genres: self.genres.deep_view() }
    }
}

impl DeepView for MediaItem {
    type V = MediaItemView;

    open spec fn deep_view(&self) -> MediaItemView {
        self.view()
    }
}

impl MediaItem {
    /// Copies the value, keeping its view.
    pub fn duplicate(&self) -> (r: MediaItem)
        ensures
            r@ == self@,
    {
        MediaItem { rating_key: (&self.rating_key).clone(), key: (&self.key).clone(), parent_rating_key: copy_optional_text((&self.parent_rating_key)), grandparent_rating_key: copy_optional_text((&self.grandparent_rating_key)), guid: copy_optional_text((&self.guid)), media_type: (&self.media_type).clone(), title: (&self.title).clone(), show_ordering: copy_optional_text((&self.show_ordering)), parent_title: copy_optional_text((&self.parent_title)), grandparent_title: copy_optional_text((&self.grandparent_title)), summary: copy_optional_text((&self.summary)), thumb: copy_optional_text((&self.thumb)), art: copy_optional_text((&self.art)), duration: *(&self.duration), added_at: *(&self.added_at), updated_at: *(&self.updated_at), originally_available_at: copy_optional_text((&self.originally_available_at)), year: *(&self.year), index: *(&self.index), parent_index: *(&self.parent_index), user_rating: copy_optional_text((&self.user_rating)), view_count: *(&self.view_count), view_offset: *(&self.view_offset), last_viewed_at: *(&self.last_viewed_at), guids: PlexGuid::duplicate_all((&self.guids)), genres: Tag::duplicate_all((&self.genres)) }
    }

    /// Copies every element of `v`, keeping each element's view.
    pub fn duplicate_all(v: &Vec<MediaItem>) -> (r: Vec<MediaItem>)
        ensures
            r.deep_view() == v.deep_view(),
    {
        let mut r: Vec<MediaItem> = Vec::new();
        let mut i: usize = 0;
        while i < v.len()
            invariant
                i <= v.len(),
                r.len() == i,
                forall|j: int| 0 <= j < i ==> #[trigger] r@[j].deep_view() == v@[j].deep_view(),
            decreases v.len() - i,
        {
            let x = v[i].duplicate();
            r.push(x);
            i = i + 1;
        }
        assert(r.deep_view() =~= v.deep_view());
        r
    }
}

#[derive(Clone, Debug, PartialEq, Eq, Default)]
pub struct PlexGuid {
    pub id: String,
}

pub struct PlexGuidView {
    pub id: Seq<char>,
}

impl View for PlexGuid {
    type V = PlexGuidView;

    open spec fn view(&self) -> PlexGuidView {
        PlexGuidView { id: self.id@ }
    }
}

impl DeepView for PlexGuid {
    type V = PlexGuidView;

    open spec fn deep_view(&self) -> PlexGuidView {
        self.view()
    }
}

impl PlexGuid {
    /// Copies the value, keeping its view.
    pub fn duplicate(&self) -> (r: PlexGuid)
        ensures
            r@ == self@,
    {
        PlexGuid { id: (&self.id).clone() }
    }

    /// Copies every element of `v`, keeping each element's view.
    pub fn duplicate_all(v: &Vec<PlexGuid>) -> (r: Vec<PlexGuid>)
        ensures
            r.deep_view() == v.deep_view(),
    {
        let mut r: Vec<PlexGuid> = Vec::new();
        let mut i: usize = 0;
        while i < v.len()
            invariant
                i <= v.len(),
                r.len() == i,
                forall|j: int| 0 <= j < i ==> #[trigger] r@[j].deep_view() == v@[j].deep_view(),
            decreases v.len() - i,
        {
            let x = v[i].duplicate();
            r.push(x);
            i = i + 1;
        }
        assert(r.deep_view() =~= v.deep_view());
        r
    }
}

#[derive(Clone, Debug, PartialEq, Eq, Default)]
pub struct Tag {
    pub tag: String,
}

pub struct TagView {
    pub tag: Seq<char>,
}

impl View for Tag {
    type V = TagView;

    open spec fn view(&self) -> TagView {
        TagView { tag: self.tag@ }
    }
}

impl DeepView for Tag {
    type V = TagView;

    open spec fn deep_view(&self) -> TagView {
        self.view()
    }
}

impl Tag {
    /// Copies the value, keeping its view.
    pub fn duplicate(&self) -> (r: Tag)
        ensures
            r@ == self@,
    {
        Tag { tag: (&self.tag).clone() }
    }

    /// Copies every element of `v`, keeping each element's view.
    pub fn duplicate_all(v: &Vec<Tag>) -> (r: Vec<Tag>)
        ensures
            r.deep_view() == v.deep_view(),
    {
        let mut r: Vec<Tag> = Vec::new();
        let mut i: usize = 0;
        while i < v.len()
            invariant
                i <= v.len(),
                r.len() == i,
                forall|j: int| 0 <= j < i ==> #[trigger] r@[j].deep_view() == v@[j].deep_view(),
            decreases v.len() - i,
        {
            let x = v[i].duplicate();
            r.push(x);
            i = i + 1;
        }
        assert(r.deep_view() =~= v.deep_view());
        r
    }
}

#[derive(Clone, Debug, PartialEq, Eq, Default)]
pub struct Pin {
    pub id: u64,
    pub code: String,
    pub auth_token: Option<String>,
    pub expires_in: Option<u64>,
}

pub struct PinView {
    pub id: u64,
    pub code: Seq<char>,
    pub auth_token: Option<Seq<char>>,
    pub expires_in: Option<u64>,
}

impl View for Pin {
    type V = PinView;

    open spec fn view(&self) -> PinView {
        PinView { id: self.id, code: self.code@, auth_token: self.auth_token.deep_view(), expires_in: self.expires_in }
    }
}

impl DeepView for Pin {
    type V = PinView;

    open spec fn deep_view(&self) -> PinView {
        self.view()
    }
}

impl Pin {
    /// Copies the value, keeping its view.
    pub fn duplicate(&self) -> (r: Pin)
        ensures
            r@ == self@,
    {
        Pin { id: *(&self.id), code: (&self.code).clone(), auth_token: copy_optional_text((&self.auth_token)), expires_in: *(&self.expires_in) }
    }

    /// Copies every element of `v`, keeping each element's view.
    pub fn duplicate_all(v: &Vec<Pin>) -> (r: Vec<Pin>)
        ensures
            r.deep_view() == v.deep_view(),
    {
        let mut r: Vec<Pin> = Vec::new();
        let mut i: usize = 0;
        while i < v.len()
            invariant
                i <= v.len(),
                r.len() == i,
                forall|j: int| 0 <= j < i ==> #[trigger] r@[j].deep_view() == v@[j].deep_view(),
            decreases v.len() - i,
        {
            let x = v[i].duplicate();
            r.push(x);
            i = i + 1;
        }
        assert(r.deep_view() =~= v.deep_view());
        r
    }
}

#[derive(Clone, Debug, PartialEq, Eq, Default)]
pub struct Resource {
    pub name: String,
    pub client_identifier: String,
    pub access_token: Option<String>,
    pub provides: String,
    pub connections: Vec<ResourceConnection>,
}

pub struct ResourceView {
    pub name: Seq<char>,
    pub client_identifier: Seq<char>,
    pub access_token: Option<Seq<char>>,
    pub provides: Seq<char>,
    pub connections: Seq<ResourceConnectionView>,
}

impl View for Resource {
    type V = ResourceView;

    open spec fn view(&self) -> ResourceView {
        ResourceView { name: self.name@, client_identifier: self.client_identifier@, access_token: self.access_token.deep_view(), provides: self.provides@, connections: self.connections.deep_view() }
    }
}

impl DeepView for Resource {
    type V = ResourceView;

    open spec fn deep_view(&self) -> ResourceView {
        self.view()
    }
}

impl Resource {
    /// Copies the value, keeping its view.
    pub fn duplicate(&self) -> (r: Resource)
        ensures
            r@ == self@,
    {
        Resource { name: (&self.name).clone(), client_identifier: (&self.client_identifier).clone(), access_token: copy_optional_text((&self.access_token)), provides: (&self.provides).clone(), connections: ResourceConnection::duplicate_all((&self.connections)) }
    }

    /// Copies every element of `v`, keeping each element's view.
    pub fn duplicate_all(v: &Vec<Resource>) -> (r: Vec<Resource>)
        ensures
            r.deep_view() == v.deep_view(),
    {
        let mut r: Vec<Resource> = Vec::new();
        let mut i: usize = 0;
        while i < v.len()
            invariant
                i <= v.len(),
                r.len() == i,
                forall|j: int| 0 <= j < i ==> #[trigger] r@[j].deep_view() == v@[j].deep_view(),
            decreases v.len() - i,
        {
            let x = v[i].duplicate();
            r.push(x);
            i = i + 1;
        }
        assert(r.deep_view() =~= v.deep_view());
        r
    }
}

#[derive(Clone, Debug, PartialEq, Eq, Default)]
pub struct ResourceConnection {
    pub uri: String,
    pub local: bool,
    pub relay: bool,
}

pub struct ResourceConnectionView {
    pub uri: Seq<char>,
    pub local: bool,
    pub relay: bool,
}

impl View for ResourceConnection {
    type V = ResourceConnectionView;

    open spec fn view(&self) -> ResourceConnectionView {
        ResourceConnectionView { uri: self.uri@, local: self.local, relay: self.relay }
    }
}

impl DeepView for ResourceConnection {
    type V = ResourceConnectionView;

    open spec fn deep_view(&self) -> ResourceConnectionView {
        self.view()
    }
}

impl ResourceConnection {
    /// Copies the value, keeping its view.
    pub fn duplicate(&self) -> (r: ResourceConnection)
        ensures
            r@ == self@,
    {
        ResourceConnection { uri: (&self.uri).clone(), local: *(&self.local), relay: *(&self.relay) }
    }

    /// Copies every element of `v`, keeping each element's view.
    pub fn duplicate_all(v: &Vec<ResourceConnection>) -> (r: Vec<ResourceConnection>)
        ensures
            r.deep_view() == v.deep_view(),
    {
        let mut r: Vec<ResourceConnection> = Vec::new();
        let mut i: usize = 0;
        while i < v.len()
            invariant
                i <= v.len(),
                r.len() == i,
                forall|j: int| 0 <= j < i ==> #[trigger] r@[j].deep_view() == v@[j].deep_view(),
            decreases v.len() - i,
        {
            let x = v[i].duplicate();
            r.push(x);
            i = i + 1;
        }
        assert(r.deep_view() =~= v.deep_view());
        r
    }
}

#[derive(Clone, Debug, PartialEq, Eq, Default)]
pub struct CreatePinRequest {
    pub strong: bool,
}

pub struct CreatePinRequestView {
    pub strong: bool,
}

impl View for CreatePinRequest {
    type V = CreatePinRequestView;

    open spec fn view(&self) -> CreatePinRequestView {
        CreatePinRequestView { strong: self.strong }
    }
}

impl DeepView for CreatePinRequest {
    type V = CreatePinRequestView;

    open spec fn deep_view(&self) -> CreatePinRequestView {
        self.view()
    }
}

impl CreatePinRequest {
    /// Copies the value, keeping its view.
    pub fn duplicate(&self) -> (r: CreatePinRequest)
        ensures
            r@ == self@,
    {
        CreatePinRequest { strong: *(&self.strong) }
    }

    /// Copies every element of `v`, keeping each element's view.
    pub fn duplicate_all(v: &Vec<CreatePinRequest>) -> (r: Vec<CreatePinRequest>)
        ensures
            r.deep_view() == v.deep_view(),
    {
        let mut r: Vec<CreatePinRequest> = Vec::new();
        let mut i: usize = 0;
        while i < v.len()
            invariant
                i <= v.len(),
                r.len() == i,
                forall|j: int| 0 <= j < i ==> #[trigger] r@[j].deep_view() == v@[j].deep_view(),
            decreases v.len() - i,
        {
            let x = v[i].duplicate();
            r.push(x);
            i = i + 1;
        }
        assert(r.deep_view() =~= v.deep_view());
        r
    }
}

impl PlexAccount {
    /// The account's user name, or its email address when the user name is empty.
    pub fn display_name(&self) -> (r: &str)
        ensures
            r@ == (if self.username@.len() == 0 { self.email@ } else { self.username@ }),
    {
        if self.username.as_str().is_empty() {
            self.email.as_str()
        } else {
            self.username.as_str()
        }
    }
}

} // verus!
