use poison_guard::Origin;
use poison_guard::Poison;

fn here() -> Origin {
    Origin::new(10, 4)
}

#[test]
fn error_message_for_unwind_with_payload() {
    let poison = Poison::new_poisoned_by_unwind(0, here(), Some(String::from("boom")));

    let err = poison.get().err().unwrap();
    assert_eq!(
        "poisoned by a panic: boom (the poisoning guard was acquired at line 10, column 4)",
        err.message()
    );
}

#[test]
fn error_message_for_unwind_without_payload() {
    let poison = Poison::new(0);
    let guard = Poison::on_unwind(poison, here()).ok().unwrap();
    let poison = guard.release_unwinding(None);

    let err = poison.get().err().unwrap();
    assert_eq!(
        "poisoned by a panic (the poisoning guard was acquired at line 10, column 4)",
        err.message()
    );
}

#[test]
fn error_message_for_error_with_cause() {
    let poison = Poison::new_poisoned_by_error(0, here(), Some(String::from("disk full")));

    let err = poison.get().err().unwrap();
    assert_eq!(
        "poisoned by an error: disk full (the poisoning guard was acquired at line 10, column 4)",
        err.message()
    );
}

#[test]
fn error_message_for_error_without_cause() {
    // A strict checkout that was never recovered is an error poison with no
    // cause on record
    let poison = Poison::new(0);
    let poison = Poison::unless_recovered(poison, here()).ok().unwrap().release();

    let err = poison.get().err().unwrap();
    assert_eq!(
        "poisoned by an error (the poisoning guard was acquired at line 10, column 4)",
        err.message()
    );
}

#[test]
fn error_message_renders_multidigit_origin() {
    let poison = Poison::new_poisoned_by_error(0, Origin::new(1234, 56), None);

    let err = poison.get().err().unwrap();
    assert_eq!(
        "poisoned by an error (the poisoning guard was acquired at line 1234, column 56)",
        err.message()
    );
}

#[test]
fn error_message_renders_zero_origin() {
    let poison = Poison::new_poisoned_by_error(0, Origin::new(0, 0), None);

    let err = poison.get().err().unwrap();
    assert_eq!(
        "poisoned by an error (the poisoning guard was acquired at line 0, column 0)",
        err.message()
    );
}

#[test]
fn error_origin_is_the_checkout_site() {
    let poison = Poison::new(0);
    let guard = Poison::on_unwind(poison, Origin::new(77, 3)).ok().unwrap();
    let poison = guard.release_unwinding(None);

    let err = poison.get().err().unwrap();
    assert_eq!(Some(Origin::new(77, 3)), err.origin());
}

#[test]
fn error_cause_absent_for_unwind() {
    let poison = Poison::new_poisoned_by_unwind(0, here(), Some(String::from("boom")));

    let err = poison.get().err().unwrap();
    assert!(err.cause().is_none());
}

#[test]
fn into_error_preserves_container() {
    let poison = Poison::new_poisoned_by_error(9, here(), Some(String::from("cause")));

    let recover = Poison::on_unwind(poison, Origin::new(2, 1)).err().unwrap();
    let (err, poison) = recover.into_error();

    assert_eq!("cause", err.cause().unwrap().as_str());
    assert!(poison.is_poisoned());

    // The value survives untouched behind the poison
    let guard = Poison::on_unwind(poison, Origin::new(3, 1)).err().unwrap().recover(
        Origin::new(4, 1),
    );
    assert_eq!(9, *guard.get());
}
