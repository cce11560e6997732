//! A media query mirrored into a boolean: what the mirror shows, and when its
//! change listener is attached and detached. Looking the query up and
//! listening for changes is the host's work; the decisions are made here.

use vstd::prelude::*;

verus! {

/// The mirror as a mathematical value: its view.
pub struct MediaQueryModel {
    /// What the mirror shows.
    pub matches: bool,
    /// A change listener is attached to the query list.
    pub listening: bool,
}

/// What the host does after an update.
#[derive(Clone, Copy, Debug, PartialEq, Eq, Structural)]
pub struct MediaQueryUpdate {
    /// Detach the listener that was attached before.
    pub detach: bool,
    /// The value to show.
    pub matches: bool,
    /// Attach a change listener to the query list that was found.
    pub attach: bool,
}

/// The mirror after the query was looked up, and what the host does: the
/// listener of the previous lookup goes; a query list that was found is
/// listened to and shows whether it matches; without one the mirror shows
/// `false`.
pub open spec fn updated(m: MediaQueryModel, found: Option<bool>) -> (
    MediaQueryModel,
    MediaQueryUpdate,
) {
    match found {
        Some(matches) => (
            MediaQueryModel { matches, listening: true },
            MediaQueryUpdate { detach: m.listening, matches, attach: true },
        ),
        None => (
            MediaQueryModel { matches: false, listening: false },
            MediaQueryUpdate { detach: m.listening, matches: false, attach: false },
        ),
    }
}

/// The state of a mirrored media query.
#[derive(Clone, Copy, Debug)]
pub struct MediaQuery {
    matches: bool,
    listening: bool,
}

impl View for MediaQuery {
    type V = MediaQueryModel;

    closed spec fn view(&self) -> MediaQueryModel {
        MediaQueryModel { matches: self.matches, listening: self.listening }
    }
}

/// A mirror for a media query that has not been looked up yet: it shows
/// `false` and listens to nothing.
pub fn use_media_query() -> (query: MediaQuery)
    ensures
        query@ == (MediaQueryModel { matches: false, listening: false }),
{
    MediaQuery { matches: false, listening: false }
}

impl MediaQuery {
    /// What the mirror shows.
    pub fn matches(&self) -> (matches: bool)
        ensures
            matches == self@.matches,
    {
        self.matches
    }

    /// Whether a change listener is attached.
    pub fn is_listening(&self) -> (listening: bool)
        ensures
            listening == self@.listening,
    {
        self.listening
    }

    /// The query was looked up, at first or after a change: `found` is
    /// whether the query list that was found matches, or `None` where the
    /// host has none.
    pub fn update(&mut self, found: Option<bool>) -> (update: MediaQueryUpdate)
        ensures
            (final(self)@, update) == updated(old(self)@, found),
    {
        let detach = self.listening;
        match found {
            Some(matches) => {
                self.matches = matches;
                self.listening = true;
                MediaQueryUpdate { detach, matches, attach: true }
            },
            None => {
                self.matches = false;
                self.listening = false;
                MediaQueryUpdate { detach, matches: false, attach: false }
            },
        }
    }

    /// The owning scope ends: the answer says whether a listener is attached
    /// and has to go. The mirror keeps what it shows. A second cleanup finds
    /// nothing to detach.
    pub fn cleanup(&mut self) -> (detach: bool)
        ensures
            detach == old(self)@.listening,
            final(self)@ == (MediaQueryModel { matches: old(self)@.matches, listening: false }),
    {
        let detach = self.listening;
        self.listening = false;
        detach
    }
}

} // verus!
