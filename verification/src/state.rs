//! The state store: the last-dispatched mute flag and volume percentage.
//!
//! Both cells are written only through compare-and-update operations, which
//! report whether the incoming value differs from the stored one; the
//! "changed" signal is consumed exactly once per divergence, which is what
//! suppresses duplicate dispatches.

use vstd::prelude::*;

verus! {

/// The abstract contents of the state store: the mute flag and volume
/// percentage most recently handed to the dispatcher.
pub struct StateView {
    pub muted: bool,
    pub volume: int,
}

/// Process-wide last-dispatched state. The two cells are independent
/// dimensions: a mute update never touches the volume cell and vice versa.
pub struct StateStore {
    muted: bool,
    volume: i32,
}

impl View for StateStore {
    type V = StateView;

    closed spec fn view(&self) -> StateView {
        StateView { muted: self.muted, volume: self.volume as int }
    }
}

impl StateStore {
    /// The stored volume always lies inside the percentage range.
    pub open spec fn wf(&self) -> bool {
        0 <= self@.volume <= 100
    }

    /// A fresh store starts unmuted at volume 0.
    pub fn new() -> (s: StateStore)
        ensures
            !s@.muted,
            s@.volume == 0,
            s.wf(),
    {
        StateStore { muted: false, volume: 0 }
    }

    /// Non-blocking read of both cells.
    pub fn read(&self) -> (r: (bool, i32))
        ensures
            r.0 == self@.muted,
            r.1 as int == self@.volume,
    {
        (self.muted, self.volume)
    }

    /// Stores `new_muted` and reports whether it differs from the value that
    /// was stored before; the volume cell is untouched.
    pub fn compare_and_update_mute(&mut self, new_muted: bool) -> (changed: bool)
        ensures
            changed == (new_muted != old(self)@.muted),
            final(self)@.muted == new_muted,
            final(self)@.volume == old(self)@.volume,
    {
        let changed = self.muted != new_muted;
        self.muted = new_muted;
        changed
    }

    /// Stores `new_volume` and reports whether it differs from the value that
    /// was stored before; the mute cell is untouched.
    pub fn compare_and_update_volume(&mut self, new_volume: i32) -> (changed: bool)
        requires
            0 <= new_volume <= 100,
        ensures
            changed == (new_volume as int != old(self)@.volume),
            final(self)@.volume == new_volume as int,
            final(self)@.muted == old(self)@.muted,
            final(self).wf(),
    {
        let changed = self.volume != new_volume;
        self.volume = new_volume;
        changed
    }
}

} // verus!
