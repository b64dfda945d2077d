//! The course of a paged read of a library section: which page to ask for
//! next, and what each page leads to.
use vstd::prelude::*;

use crate::adapter::{catalog_paths, catalog_paths_of, page_size, page_size_of, page_step, page_step_of, PageStep};
use crate::model::{LibrarySection, LibrarySectionView};
use crate::sdk::push_item;
use crate::text::owned;

verus! {

/// A paged read in progress: the paths still to read, the path being read,
/// where its next page starts, the page size, and how many batches were sent.
pub struct PagedRead {
    paths: Vec<(String, Option<&'static str>)>,
    path_index: usize,
    start: usize,
    page_size: usize,
    sequence: u64,
}

pub struct PagedReadView {
    pub paths: Seq<(Seq<char>, Option<Seq<char>>)>,
    pub path_index: nat,
    pub start: usize,
    pub page_size: usize,
    pub sequence: u64,
}

impl View for PagedRead {
    type V = PagedReadView;

    closed spec fn view(&self) -> PagedReadView {
        PagedReadView {
            paths: self.paths.deep_view(),
            path_index: self.path_index as nat,
            start: self.start,
            page_size: self.page_size,
            sequence: self.sequence,
        }
    }
}

/// What a paged read asks for next.
#[derive(Clone, Debug, PartialEq, Eq)]
pub enum PageRequest {
    /// A page of this path, of this Plex item type, from this position, of
    /// this size, with these query pairs.
    Fetch { path: String, query: Vec<(String, String)>, start: usize, size: usize },
    /// Every path has been read.
    Complete,
}

/// What a page led to.
#[derive(Clone, Copy, Debug, PartialEq, Eq, Structural)]
pub enum PageOutcome {
    /// Send the page's batch under this sequence number, then ask again.
    Batch(u64),
    /// The page was empty: ask again.
    Empty,
    /// The page did not advance: the read fails.
    NotAdvancing,
}

/// The query of a page: GUIDs included, and the Plex item type when there is
/// one.
pub open spec fn page_query_of(media_type: Option<Seq<char>>) -> Seq<(Seq<char>, Seq<char>)> {
    match media_type {
        Some(t) => seq![("includeGuids"@, "1"@), ("type"@, t)],
        None => seq![("includeGuids"@, "1"@)],
    }
}

/// A read of a section with a requested batch size: its catalog paths from
/// the first, from position zero, no batch sent yet.
pub open spec fn paged_read_of(section: LibrarySectionView, preferred_batch_size: u32) -> PagedReadView {
    PagedReadView {
        paths: catalog_paths_of(section),
        path_index: 0,
        start: 0,
        page_size: page_size_of(preferred_batch_size),
        sequence: 0,
    }
}

/// The state that a page leads to: an empty page ends its path; otherwise a
/// batch is counted and the page step decides whether the path goes on from
/// the page's end or ends; a page that does not advance is not counted and
/// changes nothing.
pub open spec fn after_page_of(read: PagedReadView, offset: usize, returned: usize, total_size: Option<usize>) -> PagedReadView {
    if returned == 0 {
        PagedReadView { path_index: read.path_index + 1, start: 0, ..read }
    } else {
        match page_step_of(read.start, read.page_size, offset, returned, total_size) {
            PageStep::Next(next) => PagedReadView { start: next, sequence: (read.sequence + 1) as u64, ..read },
            PageStep::Finished => PagedReadView {
                path_index: read.path_index + 1,
                start: 0,
                sequence: (read.sequence + 1) as u64,
                ..read
            },
            PageStep::NotAdvancing => read,
        }
    }
}

/// What a page leads to.
pub open spec fn page_outcome_of(read: PagedReadView, offset: usize, returned: usize, total_size: Option<usize>) -> PageOutcome {
    if returned == 0 {
        PageOutcome::Empty
    } else if page_step_of(read.start, read.page_size, offset, returned, total_size) == PageStep::NotAdvancing {
        PageOutcome::NotAdvancing
    } else {
        PageOutcome::Batch(read.sequence)
    }
}

fn page_query(media_type: Option<&'static str>) -> (r: Vec<(String, String)>)
    ensures
        r.deep_view() == page_query_of(media_type.deep_view()),
{
    let mut query: Vec<(String, String)> = Vec::new();
    push_item(&mut query, (owned("includeGuids"), owned("1")));
    match media_type {
        Some(t) => push_item(&mut query, (owned("type"), owned(t))),
        None => {},
    }
    assert(query.deep_view() =~= page_query_of(media_type.deep_view()));
    query
}

impl PagedRead {
    /// Begins a read of a section.
    pub fn new(section: &LibrarySection, preferred_batch_size: u32) -> (r: PagedRead)
        ensures
            r@ == paged_read_of(section@, preferred_batch_size),
    {
        PagedRead {
            paths: catalog_paths(section),
            path_index: 0,
            start: 0,
            page_size: page_size(preferred_batch_size),
            sequence: 0,
        }
    }

    /// How many batches the read has sent.
    pub fn sequence(&self) -> (r: u64)
        ensures
            r == self@.sequence,
    {
        self.sequence
    }

    /// What the read asks for next: the next page of the current path, or
    /// completion once every path has been read.
    pub fn next_request(&self) -> (r: PageRequest)
        ensures
            self@.path_index >= self@.paths.len() ==> r == PageRequest::Complete,
            self@.path_index < self@.paths.len() ==> (r matches PageRequest::Fetch { path, query, start, size }
                && path@ == self@.paths[self@.path_index as int].0 && query.deep_view() == page_query_of(
                self@.paths[self@.path_index as int].1,
            ) && start == self@.start && size == self@.page_size),
    {
        if self.path_index >= self.paths.len() {
            return PageRequest::Complete;
        }
        let entry = &self.paths[self.path_index];
        assert(self.paths.deep_view()[self.path_index as int] == entry.deep_view());
        PageRequest::Fetch { path: entry.0.clone(), query: page_query(entry.1), start: self.start, size: self.page_size }
    }

    /// Takes in a page that returned `returned` items from `offset`, out of
    /// `total_size` when Plex says; says what it leads to.
    pub fn after_page(&mut self, offset: usize, returned: usize, total_size: Option<usize>) -> (r: PageOutcome)
        requires
            returned > 0 ==> old(self)@.sequence < u64::MAX,
            old(self)@.path_index < old(self)@.paths.len(),
        ensures
            r == page_outcome_of(old(self)@, offset, returned, total_size),
            final(self)@ == after_page_of(old(self)@, offset, returned, total_size),
    {
        assert(self.paths.deep_view().len() == self.paths.len());
        if returned == 0 {
            self.path_index = self.path_index + 1;
            self.start = 0;
            return PageOutcome::Empty;
        }
        let sequence = self.sequence;
        match page_step(self.start, self.page_size, offset, returned, total_size) {
            PageStep::Next(next) => {
                self.sequence = sequence + 1;
                self.start = next;
                PageOutcome::Batch(sequence)
            },
            PageStep::Finished => {
                self.sequence = sequence + 1;
                self.path_index = self.path_index + 1;
                self.start = 0;
                PageOutcome::Batch(sequence)
            },
            PageStep::NotAdvancing => PageOutcome::NotAdvancing,
        }
    }
}

/// Law: a read never goes back. A page either moves the read further along
/// its path or on to the next path, or the read fails; batches are numbered
/// one after another from zero.
pub proof fn lemma_read_moves_forward(read: PagedReadView, offset: usize, returned: usize, total_size: Option<usize>)
    requires
        read.sequence < u64::MAX,
    ensures
        page_outcome_of(read, offset, returned, total_size) != PageOutcome::NotAdvancing ==> ({
            let after = after_page_of(read, offset, returned, total_size);
            after.path_index > read.path_index || (after.path_index == read.path_index && after.start > read.start)
        }),
        page_outcome_of(read, offset, returned, total_size) matches PageOutcome::Batch(n) ==> n == read.sequence
            && after_page_of(read, offset, returned, total_size).sequence == read.sequence + 1,
{
}

} // verus!
