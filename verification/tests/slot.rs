use poison_guard::InitSlot;
use poison_guard::MaybeUninitSlot;

#[test]
fn slot_starts_empty() {
    let slot: MaybeUninitSlot<i32> = MaybeUninitSlot::empty();

    assert!(slot.get().is_none());
}

#[test]
fn slot_stages_partial_state() {
    let mut slot = MaybeUninitSlot::empty();

    *slot.get_mut() = Some(vec![1, 2]);
    slot.get_mut().as_mut().unwrap().push(3);

    assert_eq!(&[1, 2, 3][..], slot.get().as_ref().unwrap().as_slice());
}

#[test]
fn slot_init_completes_the_value() {
    let mut slot = MaybeUninitSlot::empty();

    *slot.get_mut() = Some(1);
    let init = slot.init(16);

    assert_eq!(16, InitSlot::into_inner(init));
}

#[test]
fn init_slot_gives_access() {
    let slot = MaybeUninitSlot::empty();
    let mut init = slot.init(10);

    assert_eq!(10, *init.get());
    *init.get_mut() += 1;
    assert_eq!(11, InitSlot::into_inner(init));
}

#[test]
fn unwound_slot_hands_back_partial_state() {
    let mut slot = MaybeUninitSlot::empty();

    *slot.get_mut() = Some(8);
    let unwound = slot.into_unwound();

    assert_eq!(Some(8), unwound.into_inner());
}

#[test]
fn unwound_slot_empty_when_nothing_staged() {
    let slot: MaybeUninitSlot<i32> = MaybeUninitSlot::empty();

    let unwound = slot.into_unwound();

    assert_eq!(None, unwound.into_inner());
}
