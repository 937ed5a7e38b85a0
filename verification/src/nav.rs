//! The event controller: one discrete key event in, the next browsing state
//! out, plus an action for the host to carry out.

use vstd::prelude::*;
use vstd::string::StrSliceExecFns;
use vstd::string::StringExecFns;

use crate::state::BrowserState;
use crate::state::Entry;
use crate::state::EntryView;
use crate::state::StateView;
use crate::text::lower_of;
use crate::text::lower_str;
use crate::text::str_starts_with;

verus! {

/// One discrete input event, as the host's key handling delivers it. A key
/// press that is not one of the named keys arrives as [`NavEvent::Key`] with
/// the key's name; only names of a single character feed the search.
#[derive(Debug, PartialEq, Eq)]
pub enum NavEvent {
    MoveSelectionUp,
    MoveSelectionDown,
    ScrollUp,
    ScrollDown,
    Cancel,
    Ascend,
    Activate,
    Key(String),
    Quit,
}

/// What the host must do after an event was applied.
#[derive(Debug, PartialEq, Eq)]
pub enum Action {
    /// The event was handled entirely inside the state; redraw and go on.
    Handled,
    /// Change the working directory to the given path, enumerate it, and
    /// hand the new listing back through `complete_directory_change`.
    ChangeDir(String),
    /// Hand the selected file to an opener; the state does not change.
    OpenFile(String),
    /// Leave the event loop.
    Quit,
}

/// The failures the controller and its host distinguish.
#[derive(Debug, PartialEq, Eq)]
pub enum NavError {
    /// A directory listing could not be read.
    EnumerationError,
    /// An entry's metadata could not be read.
    StatError,
    /// The working directory could not be changed.
    ChangeDirectoryError,
    /// Activate on an empty listing: there is no entry to act on.
    NoSelection,
}

/// Decrement with a floor of zero, as the cursor and scroll clamps use it.
pub fn bounded_dec(target: usize) -> (r: usize)
    ensures
        target > 0 ==> r == target - 1,
        target == 0 ==> r == 0,
{
    if target > 0 {
        target - 1
    } else {
        target
    }
}

/// Increment saturating at `upper`, as the cursor and scroll clamps use it.
pub fn bounded_inc(target: usize, upper: usize) -> (r: usize)
    ensures
        target < upper ==> r == target + 1,
        target >= upper ==> r == target,
{
    if target < upper {
        target + 1
    } else {
        target
    }
}

/// The cursor position after one move-selection-up event: one step toward
/// the top, with a floor of zero. The search buffer is cleared.
pub open spec fn move_up(v: StateView) -> StateView {
    StateView {
        selected: if v.selected > 0 {
            v.selected - 1
        } else {
            v.selected
        },
        buffer: Seq::empty(),
        ..v
    }
}

/// The largest legal cursor position: the last valid index of the listing,
/// or zero when the listing is empty. The cursor saturates here rather than
/// at the listing's length, so that it always names an existing entry.
pub open spec fn last_index(v: StateView) -> int {
    if v.entries.len() > 0 {
        v.entries.len() - 1
    } else {
        0
    }
}

/// The cursor position after one move-selection-down event: one step toward
/// the bottom, saturating at the last valid index. The search buffer is
/// cleared.
pub open spec fn move_down(v: StateView) -> StateView {
    StateView {
        selected: if v.selected < last_index(v) {
            v.selected + 1
        } else {
            v.selected
        },
        buffer: Seq::empty(),
        ..v
    }
}

/// The scroll offset after one page-up event: the offset grows by one,
/// saturating at the listing's length.
pub open spec fn page_up(v: StateView) -> StateView {
    StateView {
        scroll: if v.scroll < v.entries.len() {
            v.scroll + 1
        } else {
            v.scroll
        },
        ..v
    }
}

/// The scroll offset after one page-down event: the offset shrinks by one,
/// with a floor of zero.
pub open spec fn page_down(v: StateView) -> StateView {
    StateView {
        scroll: if v.scroll > 0 {
            v.scroll - 1
        } else {
            v.scroll
        },
        ..v
    }
}

/// Cancel clears the search buffer and changes nothing else.
pub open spec fn cancel(v: StateView) -> StateView {
    StateView { buffer: Seq::empty(), ..v }
}

/// Whether the (already lowercased) buffer is a prefix of the entry's
/// lowercased path.
pub open spec fn entry_matches(e: EntryView, buf: Seq<char>) -> bool {
    buf.is_prefix_of(lower_of(e.path))
}

/// The index of the first entry at or after `i` whose lowercased path starts
/// with `buf`, or nothing when no entry from `i` to the end matches. The scan
/// never wraps around to the beginning.
pub open spec fn first_match(entries: Seq<EntryView>, buf: Seq<char>, i: int) -> Option<int>
    decreases entries.len() - i,
{
    if i < 0 || i >= entries.len() {
        None
    } else if entry_matches(entries[i], buf) {
        Some(i)
    } else {
        first_match(entries, buf, i + 1)
    }
}

/// The state after typing one printable key of the given name: its lowercase
/// form is appended to the search buffer, and the cursor moves to the first
/// entry at or after it that the grown buffer matches. When nothing from the
/// cursor onward matches, the cursor stays and the buffer keeps the appended
/// character all the same.
pub open spec fn search_step(v: StateView, name: Seq<char>) -> StateView {
    let grown = v.buffer + lower_of(name);
    match first_match(v.entries, grown, v.selected) {
        Some(i) => StateView { selected: i, buffer: grown, ..v },
        None => StateView { buffer: grown, ..v },
    }
}

proof fn lemma_first_match_found(entries: Seq<EntryView>, buf: Seq<char>, start: int, i: int)
    requires
        0 <= start <= i < entries.len(),
        entry_matches(entries[i], buf),
        forall|j: int| start <= j < i ==> !entry_matches(entries[j], buf),
    ensures
        first_match(entries, buf, start) == Some(i),
    decreases i - start,
{
    if start < i {
        lemma_first_match_found(entries, buf, start + 1, i);
    }
}

proof fn lemma_first_match_none(entries: Seq<EntryView>, buf: Seq<char>, start: int)
    requires
        0 <= start <= entries.len(),
        forall|j: int| start <= j < entries.len() ==> !entry_matches(entries[j], buf),
    ensures
        first_match(entries, buf, start) is None,
    decreases entries.len() - start,
{
    if start < entries.len() {
        lemma_first_match_none(entries, buf, start + 1);
    }
}

impl BrowserState {
    /// Install a freshly enumerated listing after a successful directory
    /// change: the cursor and the scroll offset return to the top and the
    /// search buffer is cleared. The host calls this only once the working
    /// directory was in fact changed and enumerated; on any failure it leaves
    /// the state untouched instead.
    pub fn complete_directory_change(&mut self, listing: Vec<Entry>)
        ensures
            final(self)@.entries == listing.deep_view(),
            final(self)@.selected == 0,
            final(self)@.scroll == 0,
            final(self)@.buffer == Seq::<char>::empty(),
            final(self).wf(),
    {
        self.entries = listing;
        self.selected_index = 0;
        self.scroll_index = 0;
        self.search_buffer = String::new();
    }
}

/// Apply one input event to the state.
///
/// Every clause of the event policy lives here: cursor and scroll clamping,
/// buffer clearing, the forward wrapless prefix search, and the decision to
/// request a directory change. Events that need the file system (`Ascend`,
/// `Activate` on a directory) change nothing themselves; they hand the host
/// an [`Action::ChangeDir`], and the host reports back through
/// [`BrowserState::complete_directory_change`] only on success, so a failed
/// directory change leaves the state exactly as it was.
///
/// `Activate` on an empty listing fails with [`NavError::NoSelection`]; no
/// other event fails.
pub fn apply(state: &mut BrowserState, ev: NavEvent) -> (r: Result<Action, NavError>)
    requires
        old(state).wf(),
    ensures
        final(state).wf(),
        match ev {
            NavEvent::MoveSelectionUp => r matches Ok(Action::Handled)
                && final(state)@ == move_up(old(state)@),
            NavEvent::MoveSelectionDown => r matches Ok(Action::Handled)
                && final(state)@ == move_down(old(state)@),
            NavEvent::ScrollUp => r matches Ok(Action::Handled)
                && final(state)@ == page_up(old(state)@),
            NavEvent::ScrollDown => r matches Ok(Action::Handled)
                && final(state)@ == page_down(old(state)@),
            NavEvent::Cancel => r matches Ok(Action::Handled)
                && final(state)@ == cancel(old(state)@),
            NavEvent::Ascend => final(state)@ == old(state)@
                && (r matches Ok(Action::ChangeDir(p)) && p@ == ".."@),
            NavEvent::Activate => final(state)@ == old(state)@ && (if old(state)@.entries.len()
                == 0 {
                r matches Err(NavError::NoSelection)
            } else {
                let e = old(state)@.entries[old(state)@.selected];
                if e.is_directory {
                    r matches Ok(Action::ChangeDir(p)) && p@ == e.path
                } else {
                    r matches Ok(Action::OpenFile(p)) && p@ == e.path
                }
            }),
            NavEvent::Key(name) => r matches Ok(Action::Handled) && (if name@.len() == 1 {
                final(state)@ == search_step(old(state)@, name@)
            } else {
                final(state)@ == old(state)@
            }),
            NavEvent::Quit => r matches Ok(Action::Quit) && final(state)@ == old(state)@,
        },
{
    match ev {
        NavEvent::MoveSelectionUp => {
            state.selected_index = bounded_dec(state.selected_index);
            state.search_buffer = String::new();
            assert(state@ =~= move_up(old(state)@));
            Ok(Action::Handled)
        },
        NavEvent::MoveSelectionDown => {
            let upper: usize = if state.entries.len() > 0 {
                state.entries.len() - 1
            } else {
                0
            };
            state.selected_index = bounded_inc(state.selected_index, upper);
            state.search_buffer = String::new();
            assert(state@ =~= move_down(old(state)@));
            Ok(Action::Handled)
        },
        NavEvent::ScrollUp => {
            state.scroll_index = bounded_inc(state.scroll_index, state.entries.len());
            assert(state@ =~= page_up(old(state)@));
            Ok(Action::Handled)
        },
        NavEvent::ScrollDown => {
            state.scroll_index = bounded_dec(state.scroll_index);
            assert(state@ =~= page_down(old(state)@));
            Ok(Action::Handled)
        },
        NavEvent::Cancel => {
            state.search_buffer = String::new();
            assert(state@ =~= cancel(old(state)@));
            Ok(Action::Handled)
        },
        NavEvent::Ascend => Ok(Action::ChangeDir("..".to_owned())),
        NavEvent::Activate => {
            if state.entries.len() == 0 {
                Err(NavError::NoSelection)
            } else {
                let e = &state.entries[state.selected_index];
                let path = e.path.clone();
                if e.is_directory {
                    Ok(Action::ChangeDir(path))
                } else {
                    Ok(Action::OpenFile(path))
                }
            }
        },
        NavEvent::Key(name) => {
            if name.as_str().unicode_len() == 1 {
                let lowered = lower_str(name.as_str());
                state.search_buffer.append(lowered.as_str());
                let ghost grown = state.search_buffer@;
                let ghost start = old(state)@.selected;
                let n: usize = state.entries.len();
                let mut i: usize = state.selected_index;
                let mut found = false;
                while i < n && !found
                    invariant
                        old(state)@.selected <= i <= n,
                        n == state.entries@.len(),
                        state.entries == old(state).entries,
                        state.scroll_index == old(state).scroll_index,
                        state.search_buffer@ == grown,
                        !found ==> state.selected_index == old(state).selected_index,
                        !found ==> forall|j: int|
                            start <= j < i ==> !entry_matches(state@.entries[j], grown),
                        found ==> state.selected_index == i && i < n && entry_matches(
                            state@.entries[i as int],
                            grown,
                        ) && forall|j: int|
                            start <= j < i ==> !entry_matches(state@.entries[j], grown),
                    decreases n - i + (if found {
                        0int
                    } else {
                        1int
                    }),
                {
                    let e = &state.entries[i];
                    assert(*e == state.entries@[i as int]);
                    assert(state@.entries[i as int] == state.entries@[i as int]@);
                    let entry_lower = lower_str(e.path.as_str());
                    if str_starts_with(entry_lower.as_str(), state.search_buffer.as_str()) {
                        assert(entry_matches(state@.entries[i as int], grown));
                        state.selected_index = i;
                        found = true;
                    } else {
                        i = i + 1;
                    }
                }
                proof {
                    if found {
                        lemma_first_match_found(state@.entries, grown, start, i as int);
                        assert(state@ =~= search_step(old(state)@, name@));
                    } else {
                        lemma_first_match_none(state@.entries, grown, start);
                        assert(state@ =~= search_step(old(state)@, name@));
                    }
                }
            }
            Ok(Action::Handled)
        },
        NavEvent::Quit => Ok(Action::Quit),
    }
}

} // verus!
