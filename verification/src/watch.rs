//! When what is shown is drawn again, and when the session is saved.

use vstd::prelude::*;

verus! {

/// What was seen of a state that changes.
#[derive(Debug, Clone, Copy, PartialEq, Eq, Structural)]
pub struct Watch {
    /// The revision that was drawn last.
    pub drawn: u64,
    /// Whether there is something to save.
    pub unsaved: bool,
}

impl Watch {
    /// Nothing has changed since this revision.
    pub fn new(revision: u64) -> (watch: Watch)
        ensures
            watch == (Watch { drawn: revision, unsaved: false }),
    {
        Watch { drawn: revision, unsaved: false }
    }

    /// Looks at the revision of the state; says whether it is to be drawn again.
    pub fn look(&mut self, revision: u64) -> (redraw: bool)
        ensures
            redraw == (revision != old(self).drawn),
            final(self).drawn == revision,
            final(self).unsaved == (old(self).unsaved || redraw),
    {
        let redraw = revision != self.drawn;
        if redraw {
            self.drawn = revision;
            self.unsaved = true;
        }
        redraw
    }

    /// Says whether the session is to be saved, and takes it for saved.
    pub fn save(&mut self) -> (due: bool)
        ensures
            due == old(self).unsaved,
            final(self).drawn == old(self).drawn,
            !final(self).unsaved,
    {
        let due = self.unsaved;
        self.unsaved = false;
        due
    }
}

} // verus!
