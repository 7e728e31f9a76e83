use isolapurr_usb_hub::{SoundId, SoundQueue, QUEUE_CAP};

#[test]
fn queue_deduplicates_by_identity() {
    let mut q = SoundQueue::new();
    assert!(q.push(SoundId::BootOk));
    assert!(!q.push(SoundId::BootOk));
    assert!(q.contains(SoundId::BootOk));
}

#[test]
fn pop_picks_strictly_by_priority_not_arrival() {
    let mut q = SoundQueue::new();
    assert!(q.push(SoundId::WarningOnce));
    assert!(q.push(SoundId::ErrorOnce));
    assert!(q.push(SoundId::BootOk));
    assert_eq!(q.pop_highest(), Some(SoundId::BootOk));
    assert_eq!(q.pop_highest(), Some(SoundId::ErrorOnce));
    assert_eq!(q.pop_highest(), Some(SoundId::WarningOnce));
    assert_eq!(q.pop_highest(), None);
}

#[test]
fn full_queue_evicts_only_a_lower_priority_sound() {
    let mut q = SoundQueue::new();
    let fill = [
        SoundId::ActionOnce,
        SoundId::PdOnce,
        SoundId::RecoverOnce,
        SoundId::WarningOnce,
        SoundId::ErrorOnce,
        SoundId::BootOk,
        SoundId::BootWarn,
        SoundId::BootFail,
    ];
    assert_eq!(fill.len(), QUEUE_CAP);
    for id in fill {
        assert!(q.push(id));
    }

    // A sound that outranks the lowest-priority pending one displaces it.
    assert!(q.push(SoundId::OverTemp));
    assert!(q.contains(SoundId::OverTemp));
    assert!(!q.contains(SoundId::ActionOnce));

    // One that outranks nothing pending is dropped.
    assert!(!q.push(SoundId::ActionOnce));
    assert!(!q.contains(SoundId::ActionOnce));
}

#[test]
fn equal_priorities_pop_in_arrival_order() {
    let mut q = SoundQueue::new();
    // The power-delivery and action acknowledgements share one priority
    // rank; the earlier-queued one leaves first.
    assert!(q.push(SoundId::PdOnce));
    assert!(q.push(SoundId::ActionOnce));
    assert_eq!(q.pop_highest(), Some(SoundId::PdOnce));
    assert_eq!(q.pop_highest(), Some(SoundId::ActionOnce));
}

#[test]
fn remove_drops_only_the_named_sound() {
    let mut q = SoundQueue::new();
    q.push(SoundId::BootOk);
    q.push(SoundId::ErrorOnce);
    q.remove(SoundId::BootOk);
    assert!(!q.contains(SoundId::BootOk));
    assert!(q.contains(SoundId::ErrorOnce));
    // Removing an absent sound is harmless.
    q.remove(SoundId::BootOk);
    assert!(q.contains(SoundId::ErrorOnce));
}
