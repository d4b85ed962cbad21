use poison_guard::Origin;
use poison_guard::Poison;

fn some_err() -> String {
    String::from("some error")
}

fn here() -> Origin {
    Origin::new(1, 1)
}

#[test]
fn poison_new_is_unpoisoned() {
    let poison = Poison::new(0);

    // A new container is not poisoned
    assert!(!poison.is_poisoned());

    assert!(poison.get().is_ok());
}

#[test]
fn poison_new_catch_unwind() {
    let poison = Poison::new_catch_unwind(|| 0);

    // A non-panicked initializer is not poisoned
    assert!(!poison.is_poisoned());
}

#[test]
fn poison_try_new_catch_unwind() {
    let poison = Poison::try_new_catch_unwind(|| Ok::<i32, String>(0), here());

    assert!(!poison.is_poisoned());
    assert!(poison.get().is_ok());
}

#[test]
fn poison_try_new_catch_unwind_err() {
    let poison = Poison::try_new_catch_unwind(|| Err::<i32, String>(some_err()), here());

    assert!(poison.is_poisoned());
    assert!(poison.get().is_err());
}

#[test]
fn try_catch_unwind_err_poisons() {
    let v = Poison::try_new_catch_unwind(|| Err::<i32, String>(some_err()), here());

    assert!(v.is_poisoned());
}

#[test]
fn poison_get_unpoisoned() {
    let poison = Poison::new(0);

    assert_eq!(0, *poison.get().unwrap());
}

#[test]
fn poison_get_poisoned() {
    let poison = Poison::new(0);

    // Release a strict guard without recovering, this will leave the value poisoned
    let guard = Poison::unless_recovered(poison, here()).ok().unwrap();
    let poison = guard.release();

    assert!(poison.get().is_err());
}

#[test]
fn fresh_container_yields_value_unchanged() {
    let poison = Poison::new(String::from("hello"));

    assert!(!poison.is_poisoned());
    assert_eq!("hello", poison.get().unwrap().as_str());
}

#[test]
fn new_poisoned_by_error_starts_poisoned() {
    let poison = Poison::new_poisoned_by_error(0, here(), Some(some_err()));

    assert!(poison.is_poisoned());
    assert!(poison.get().is_err());
}

#[test]
fn new_poisoned_by_unwind_starts_poisoned() {
    let poison = Poison::new_poisoned_by_unwind(0, here(), Some(String::from("boom")));

    assert!(poison.is_poisoned());
    assert!(poison.get().is_err());
}

#[test]
fn try_new_defaults_value_on_failure() {
    let poison = Poison::try_new_catch_unwind(|| Err::<i32, String>(some_err()), here());

    // The failed constructor left a defaulted value behind the poison
    let handle = Poison::on_unwind(poison, Origin::new(2, 1)).err().unwrap();
    let guard = handle.recover(Origin::new(3, 1));
    assert_eq!(0, *guard.get());
}
