use vstd::prelude::*;

verus! {

/// A counting admission gate for sessions: the listener admits every
/// session before dispatching it and releases it when it completes. A
/// ceiling of `None` — the default — admits without bound; `Some(n)` caps
/// the simultaneously active sessions at `n`.
#[derive(Clone, Copy, PartialEq, Eq, Debug)]
pub struct AdmissionGate {
    /// How many admitted sessions have not completed yet.
    pub active: usize,
    /// The largest number of simultaneously active sessions allowed, if
    /// any.
    pub ceiling: Option<usize>,
}

impl AdmissionGate {
    /// Well-formedness: where a ceiling is set, the active count stays
    /// within it.
    pub open spec fn wf(self) -> bool {
        match self.ceiling {
            Some(c) => self.active <= c,
            None => true,
        }
    }

    /// A fresh gate with the given ceiling and no active session.
    pub fn new(ceiling: Option<usize>) -> (g: AdmissionGate)
        ensures
            g.wf(),
            g.active == 0,
            g.ceiling == ceiling,
    {
        AdmissionGate { active: 0, ceiling }
    }

    /// Asks to admit one more session. Admission succeeds exactly while
    /// the count is under the ceiling (under the machine's limit where no
    /// ceiling is set); an admitted session raises the count by one and a
    /// refused one changes nothing. The ceiling never changes and the
    /// gate's invariant is kept either way.
    pub fn try_admit(&mut self) -> (admitted: bool)
        requires
            old(self).wf(),
        ensures
            final(self).wf(),
            final(self).ceiling == old(self).ceiling,
            admitted <==> (match old(self).ceiling {
                Some(c) => old(self).active < c,
                None => old(self).active < usize::MAX,
            }),
            admitted ==> final(self).active == old(self).active + 1,
            !admitted ==> final(self).active == old(self).active,
    {
        let room = match self.ceiling {
            Some(c) => self.active < c,
            None => self.active < usize::MAX,
        };
        if room {
            self.active = self.active + 1;
        }
        room
    }

    /// Marks one admitted session as completed: the count falls by one,
    /// the ceiling stays, the invariant is kept.
    pub fn release(&mut self)
        requires
            old(self).wf(),
            old(self).active > 0,
        ensures
            final(self).wf(),
            final(self).ceiling == old(self).ceiling,
            final(self).active == old(self).active - 1,
    {
        self.active = self.active - 1;
    }
}

} // verus!
