//! The notification reducer: the single entry point invoked on every raw
//! volume-change event.
//!
//! The reducer derives the integer percentage from the fractional level,
//! runs one compare-and-update per dimension against the state store, and
//! reports in a [`DispatchPlan`] which dimensions diverged. The caller
//! performs one outbound trigger call per reported dimension — mute first,
//! then volume — and the outcome of those calls never feeds back into the
//! store, so a failed dispatch can never suppress a later genuine change.

use vstd::prelude::*;
use crate::state::{StateStore, StateView};
use crate::volume::{is_fraction_bits, volume_from_fraction, volume_percent};

verus! {

/// Whether a delivered mute flag makes the mute trigger fire: it fires
/// exactly when the flag differs from the last-dispatched one.
pub open spec fn mute_dispatch(prior_muted: bool, new_muted: bool) -> bool {
    new_muted != prior_muted
}

/// Whether a delivered volume percentage makes the volume trigger fire: it
/// fires exactly when the percentage differs from the last-dispatched one.
pub open spec fn volume_dispatch(prior_volume: int, new_volume: int) -> bool {
    new_volume != prior_volume
}

/// The state the store holds after a notification was handled: both cells
/// reflect the delivered values, whatever the dispatch outcomes were.
pub open spec fn handled_state(new_muted: bool, volume_fraction_bits: u32) -> StateView {
    StateView { muted: new_muted, volume: volume_percent(volume_fraction_bits) }
}

/// What one notification asks the caller to dispatch: at most one call per
/// dimension, mute before volume.
pub struct DispatchPlan {
    /// The mute trigger must be called (with an empty body).
    pub mute_fired: bool,
    /// The volume trigger must be called (with the JSON body carrying
    /// `volume`).
    pub volume_fired: bool,
    /// The integer percentage derived from the delivered fractional level.
    pub volume: i32,
}

/// Handles one notification: derives the percentage, updates both cells,
/// and reports which dimensions diverged. The two dimensions are
/// independent: the mute decision depends only on the mute flags, the
/// volume decision only on the volume values, and either, both, or neither
/// may fire.
pub fn handle_notification(
    store: &mut StateStore,
    new_muted: bool,
    volume_fraction_bits: u32,
) -> (plan: DispatchPlan)
    requires
        old(store).wf(),
        is_fraction_bits(volume_fraction_bits),
    ensures
        plan.volume as int == volume_percent(volume_fraction_bits),
        0 <= plan.volume <= 100,
        plan.mute_fired == mute_dispatch(old(store)@.muted, new_muted),
        plan.volume_fired == volume_dispatch(
            old(store)@.volume,
            volume_percent(volume_fraction_bits),
        ),
        final(store)@ == handled_state(new_muted, volume_fraction_bits),
        final(store).wf(),
{
    let new_volume = volume_from_fraction(volume_fraction_bits);
    let mute_fired = store.compare_and_update_mute(new_muted);
    let volume_fired = store.compare_and_update_volume(new_volume);
    DispatchPlan { mute_fired, volume_fired, volume: new_volume }
}

/// A notification that repeats the last-dispatched state is silent: neither
/// trigger fires and the store is left exactly as it was.
pub proof fn lemma_unchanged_notification_is_silent(s: StateView, bits: u32)
    requires
        volume_percent(bits) == s.volume,
    ensures
        !mute_dispatch(s.muted, s.muted),
        !volume_dispatch(s.volume, volume_percent(bits)),
        handled_state(s.muted, bits) == s,
{
}

/// A divergence is consumed exactly once: when a delivered value differs
/// from the stored one, the first delivery fires its trigger, and a second
/// delivery of the same event — running from the state the first one left —
/// fires nothing.
pub proof fn lemma_divergence_consumed_once(s: StateView, new_muted: bool, bits: u32)
    ensures
        new_muted != s.muted ==> mute_dispatch(s.muted, new_muted),
        volume_percent(bits) != s.volume ==> volume_dispatch(s.volume, volume_percent(bits)),
        !mute_dispatch(handled_state(new_muted, bits).muted, new_muted),
        !volume_dispatch(handled_state(new_muted, bits).volume, volume_percent(bits)),
{
}

/// The state after a notification depends only on the delivered values,
/// never on any dispatch outcome, so a failed trigger call cannot block a
/// later one: a second notification fires each dimension exactly when its
/// value differs from the one the first notification delivered.
pub proof fn lemma_dispatch_outcome_cannot_block(
    s: StateView,
    first_muted: bool,
    first_bits: u32,
    second_muted: bool,
    second_bits: u32,
)
    ensures
        mute_dispatch(handled_state(first_muted, first_bits).muted, second_muted)
            == (second_muted != first_muted),
        volume_dispatch(
            handled_state(first_muted, first_bits).volume,
            volume_percent(second_bits),
        ) == (volume_percent(second_bits) != volume_percent(first_bits)),
{
}

} // verus!
