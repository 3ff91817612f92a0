use loudstalker::bridge::handle_notification;
use loudstalker::state::StateStore;
use loudstalker::volume::volume_from_fraction;
use loudstalker::wire::{trigger_url, volume_body, TriggerTargets};

fn deliver(store: &mut StateStore, muted: bool, fraction: f32) -> (bool, bool, i32) {
    let plan = handle_notification(store, muted, fraction.to_bits());
    (plan.mute_fired, plan.volume_fired, plan.volume)
}

#[test]
fn unchanged_notification_is_silent() {
    let mut store = StateStore::new();
    deliver(&mut store, false, 0.50);
    assert_eq!(store.read(), (false, 50));
    let (mute_fired, volume_fired, volume) = deliver(&mut store, false, 0.50);
    assert!(!mute_fired);
    assert!(!volume_fired);
    assert_eq!(volume, 50);
    assert_eq!(store.read(), (false, 50));
}

#[test]
fn mute_toggle_fires_exactly_one_call() {
    let mut store = StateStore::new();
    deliver(&mut store, false, 0.50);
    let (mute_fired, volume_fired, _) = deliver(&mut store, true, 0.50);
    assert!(mute_fired);
    assert!(!volume_fired);
    assert_eq!(store.read(), (true, 50));
}

#[test]
fn volume_change_fires_exactly_one_call() {
    let mut store = StateStore::new();
    deliver(&mut store, false, 0.50);
    let (mute_fired, volume_fired, volume) = deliver(&mut store, false, 0.73);
    assert!(!mute_fired);
    assert!(volume_fired);
    assert_eq!(volume, 73);
    assert_eq!(volume_body(volume), "{\"data\":73}");
    assert_eq!(store.read(), (false, 73));
}

#[test]
fn combined_change_fires_both_independently() {
    let mut store = StateStore::new();
    deliver(&mut store, false, 0.50);
    let (mute_fired, volume_fired, volume) = deliver(&mut store, true, 0.10);
    assert!(mute_fired);
    assert!(volume_fired);
    assert_eq!(volume, 10);
    assert_eq!(store.read(), (true, 10));
}

#[test]
fn fraction_is_truncated_toward_zero() {
    assert_eq!(volume_from_fraction(0.999f32.to_bits()), 99);
}

#[test]
fn fraction_endpoints_and_subnormals() {
    assert_eq!(volume_from_fraction(0.0f32.to_bits()), 0);
    assert_eq!(volume_from_fraction(1.0f32.to_bits()), 100);
    assert_eq!(volume_from_fraction(0.5f32.to_bits()), 50);
    assert_eq!(volume_from_fraction(1.0e-40f32.to_bits()), 0);
    // The nearest binary32 value to 0.01 lies just below it, so the
    // truncated percentage is 0, not 1.
    assert_eq!(volume_from_fraction(0.01f32.to_bits()), 0);
    assert_eq!(volume_from_fraction(0.02f32.to_bits()), 1);
    assert_eq!(volume_from_fraction(0.11f32.to_bits()), 10);
}

#[test]
fn truncation_never_rounds_up() {
    // The binary32 value delivered for 0.29 is 0.28999999165...; scaling
    // by 100 gives 28.999999165..., which truncates to 28. A rounding
    // implementation (or one that rounds an intermediate product) would
    // report 29.
    assert_eq!(volume_from_fraction(0.29f32.to_bits()), 28);
    assert_eq!(volume_from_fraction(0.57f32.to_bits()), 56);
}

#[test]
fn divergence_is_consumed_exactly_once() {
    let mut store = StateStore::new();
    assert!(store.compare_and_update_mute(true));
    assert!(!store.compare_and_update_mute(true));
    assert!(store.compare_and_update_volume(40));
    assert!(!store.compare_and_update_volume(40));
    assert_eq!(store.read(), (true, 40));
}

#[test]
fn failed_dispatch_does_not_block_later_triggers() {
    let mut store = StateStore::new();
    // The first delivery asks for a mute dispatch; suppose that outbound
    // call fails. The outcome is never fed back into the store, so the
    // next genuine change must still be detected.
    let (mute_fired, _, _) = deliver(&mut store, true, 0.0);
    assert!(mute_fired);
    let (mute_fired, volume_fired, volume) = deliver(&mut store, true, 0.73);
    assert!(!mute_fired);
    assert!(volume_fired);
    assert_eq!(volume, 73);
}

#[test]
fn fresh_store_reads_unmuted_at_zero() {
    let store = StateStore::new();
    assert_eq!(store.read(), (false, 0));
}

#[test]
fn trigger_urls_are_resolved_from_configuration() {
    assert_eq!(
        trigger_url("10.0.0.7:8123", "mute"),
        "http://10.0.0.7:8123/interact/trigger/mute"
    );
    let targets = TriggerTargets::resolve("host.local", "mute", "volchange");
    assert_eq!(targets.mute_url, "http://host.local/interact/trigger/mute");
    assert_eq!(
        targets.volume_url,
        "http://host.local/interact/trigger/volchange"
    );
}

#[test]
fn volume_body_spells_every_width() {
    assert_eq!(volume_body(0), "{\"data\":0}");
    assert_eq!(volume_body(5), "{\"data\":5}");
    assert_eq!(volume_body(10), "{\"data\":10}");
    assert_eq!(volume_body(99), "{\"data\":99}");
    assert_eq!(volume_body(100), "{\"data\":100}");
}
