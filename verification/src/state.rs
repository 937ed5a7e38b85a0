//! The browsing state: the current listing, the selection cursor, the scroll
//! offset and the search buffer, together with its mathematical view.

use vstd::prelude::*;

verus! {

/// One listed file-system object: its path and whether it is a directory.
#[derive(Clone, Debug, PartialEq, Eq)]
pub struct Entry {
    pub path: String,
    pub is_directory: bool,
}

/// The mathematical view of an [`Entry`].
pub struct EntryView {
    pub path: Seq<char>,
    pub is_directory: bool,
}

impl View for Entry {
    type V = EntryView;

    open spec fn view(&self) -> EntryView {
        EntryView { path: self.path@, is_directory: self.is_directory }
    }
}

impl DeepView for Entry {
    type V = EntryView;

    open spec fn deep_view(&self) -> EntryView {
        self.view()
    }
}

/// The mathematical view of a [`BrowserState`]: the listing as a sequence of
/// entry views, the two indices as unbounded integers, and the search buffer
/// as a character sequence.
#[verifier::ext_equal]
pub struct StateView {
    pub entries: Seq<EntryView>,
    pub selected: int,
    pub scroll: int,
    pub buffer: Seq<char>,
}

impl StateView {
    /// Well-formedness: the cursor names an existing entry (or 0 when the
    /// listing is empty) and the scroll offset lies within `[0, len]`.
    pub open spec fn wf(self) -> bool {
        &&& 0 <= self.selected
        &&& self.entries.len() == 0 ==> self.selected == 0
        &&& self.entries.len() > 0 ==> self.selected < self.entries.len()
        &&& 0 <= self.scroll <= self.entries.len()
    }
}

/// The state of the browser. Mutated only through the event controller,
/// which keeps it well formed.
#[derive(Clone, Debug, PartialEq, Eq)]
pub struct BrowserState {
    pub entries: Vec<Entry>,
    pub selected_index: usize,
    pub scroll_index: usize,
    pub search_buffer: String,
}

impl View for BrowserState {
    type V = StateView;

    open spec fn view(&self) -> StateView {
        StateView {
            entries: self.entries.deep_view(),
            selected: self.selected_index as int,
            scroll: self.scroll_index as int,
            buffer: self.search_buffer@,
        }
    }
}

impl BrowserState {
    /// Well-formedness of the state, stated on its view.
    pub open spec fn wf(&self) -> bool {
        self@.wf()
    }

    /// The initial state over a freshly enumerated listing: the cursor and
    /// the scroll offset at the top, the search buffer empty.
    pub fn new(listing: Vec<Entry>) -> (s: BrowserState)
        ensures
            s@.entries == listing.deep_view(),
            s@.selected == 0,
            s@.scroll == 0,
            s@.buffer == Seq::<char>::empty(),
            s.wf(),
    {
        BrowserState {
            entries: listing,
            selected_index: 0,
            scroll_index: 0,
            search_buffer: String::new(),
        }
    }

    /// Runtime check of well-formedness, for callers outside verified code.
    pub fn is_well_formed(&self) -> (r: bool)
        ensures
            r == self.wf(),
    {
        (if self.entries.len() == 0 {
            self.selected_index == 0
        } else {
            self.selected_index < self.entries.len()
        }) && self.scroll_index <= self.entries.len()
    }

    /// The entry under the cursor, or nothing when the listing is empty.
    pub fn current_entry(&self) -> (r: Option<&Entry>)
        requires
            self.wf(),
        ensures
            match r {
                Some(e) => self@.entries.len() > 0 && e@ == self@.entries[self@.selected],
                None => self@.entries.len() == 0,
            },
    {
        if self.entries.len() == 0 {
            None
        } else {
            Some(&self.entries[self.selected_index])
        }
    }

    /// The viewport: the listing from the scroll offset to the end.
    pub fn visible_entries(&self) -> (r: &[Entry])
        requires
            self.wf(),
        ensures
            r.deep_view() == self@.entries.subrange(self@.scroll, self@.entries.len() as int),
    {
        let r = vstd::slice::slice_subrange(self.entries.as_slice(), self.scroll_index, self.entries.len());
        assert(r.deep_view() =~= self@.entries.subrange(self@.scroll, self@.entries.len() as int));
        r
    }
}

} // verus!
