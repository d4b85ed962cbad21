use poison_guard::Origin;
use poison_guard::Poison;

fn some_err() -> String {
    String::from("some error")
}

fn here() -> Origin {
    Origin::new(1, 1)
}

#[test]
fn scope_poisons_on_err() {
    let p = Poison::new(42);

    let s = Poison::scope(Poison::on_unwind(p, here()).ok().unwrap());

    let (s, r) = s.try_catch_unwind(|v: i32| (v, Err::<(), String>(some_err())));

    let _ = r.unwrap_err();

    let (_, p) = s.poison().err().unwrap().into_error();

    assert!(p.is_poisoned());
}

#[test]
fn scope_sync() {
    fn do_other_work() -> Result<(), String> {
        Err(some_err())
    }

    let p = Poison::new(42);

    let s = Poison::scope(Poison::on_unwind(p, here()).ok().unwrap());

    let (s, r) = s.try_catch_unwind(|v: i32| {
        let v = v + 1;

        match do_other_work() {
            Err(e) => (v, Err(e)),

            Ok(()) => (v + 1, Ok(())),
        }
    });

    // The step failed, so the work as a whole fails
    assert!(r.into_result().is_err());

    // Closing the scope preserves the captured failure on the container
    let (_, p) = s.poison().err().unwrap().into_error();
    assert!(p.is_poisoned());
}

#[test]
fn scope_short_circuits_after_failure() {
    let p = Poison::new(42);

    let s = Poison::scope(Poison::on_unwind(p, here()).ok().unwrap());

    // Step 1 succeeds
    let (s, r1) = s.try_catch_unwind(|v: i32| (v + 1, Ok::<i32, String>(0)));
    assert!(r1.into_result().is_ok());

    // Step 2 fails
    let (s, r2) = s.try_catch_unwind(|v: i32| (v, Err::<i32, String>(String::from("step two failed"))));
    assert!(r2.into_result().is_err());

    // Step 3 never executes once step 2 has failed within the same scope
    let (s, r3) = s.try_catch_unwind(|v: i32| (v + 100, Ok::<i32, String>(0)));
    assert!(r3.into_result().is_err());

    // Closing leaves the container poisoned with step 2's cause
    let (err, p) = s.poison().err().unwrap().into_error();
    assert_eq!("step two failed", err.cause().unwrap().as_str());
    assert!(p.is_poisoned());

    // The value reflects step 1 alone: step 3's mutation never happened
    let recover = Poison::on_unwind(p, Origin::new(2, 1)).err().unwrap();
    let guard = recover.recover(Origin::new(3, 1));
    assert_eq!(43, *guard.get());
}

#[test]
fn scope_with_all_steps_succeeding_closes_clean() {
    let p = Poison::new(1);

    let s = Poison::scope(Poison::on_unwind(p, here()).ok().unwrap());

    let (s, r1) = s.try_catch_unwind(|v: i32| (v + 1, Ok::<i32, String>(0)));
    assert!(r1.into_result().is_ok());

    let (s, r2) = s.try_catch_unwind(|v: i32| (v * 10, Ok::<i32, String>(0)));
    assert!(r2.into_result().is_ok());

    let guard = s.poison().ok().unwrap();
    assert_eq!(20, *guard.get());

    let p = guard.release();
    assert!(!p.is_poisoned());
}

#[test]
fn scope_step_returns_step_result() {
    let p = Poison::new(1);

    let s = Poison::scope(Poison::on_unwind(p, here()).ok().unwrap());

    let (s, r) = s.try_catch_unwind(|v: i32| (v + 1, Ok::<i32, String>(7)));

    // A regular success result is returned unchanged to the caller
    assert_eq!(7, r.unwrap());

    let guard = s.poison().ok().unwrap();
    assert_eq!(2, *guard.get());
}

#[test]
fn scope_records_error_event() {
    let p = Poison::new(3);

    let mut s = Poison::scope(Poison::on_unwind(p, here()).ok().unwrap());

    // A driver running its step elsewhere reports the failure back
    assert!(s.is_armed());
    s.record_error(Some(String::from("driver saw an error")));
    assert!(!s.is_armed());

    let (err, p) = s.poison().err().unwrap().into_error();
    assert_eq!("driver saw an error", err.cause().unwrap().as_str());
    assert!(p.is_poisoned());
}

#[test]
fn scope_records_unwind_event() {
    let p = Poison::new(3);

    let mut s = Poison::scope(Poison::on_unwind(p, here()).ok().unwrap());

    // A driver that caught its step's unwind reports it back
    s.record_unwind(Some(String::from("explicit panic")));
    assert!(!s.is_armed());

    let (err, p) = s.poison().err().unwrap().into_error();
    assert_eq!(
        "poisoned by a panic: explicit panic (the poisoning guard was acquired at line 1, column 1)",
        err.message()
    );
    assert!(p.is_poisoned());
}

#[test]
fn scope_value_escapes_step_boundary() {
    let p = Poison::new(42);

    let mut s = Poison::scope(Poison::on_unwind(p, here()).ok().unwrap());

    // A failure has been captured, yet the value may still be used
    s.record_error(Some(some_err()));
    *s.value_mut() += 1;

    // In the end the container is still poisoned
    let (_, p) = s.poison().err().unwrap().into_error();
    assert!(p.is_poisoned());
}

#[test]
fn scope_from_strict_guard_never_arms() {
    let p = Poison::new(5);

    let s = Poison::scope(Poison::unless_recovered(p, here()).ok().unwrap());

    assert!(!s.is_armed());

    // The step does not run: the strict checkout's poison comes back instead
    let (s, r) = s.try_catch_unwind(|v: i32| (v + 1, Ok::<i32, String>(0)));
    assert!(r.into_result().is_err());

    let (_, p) = s.poison().err().unwrap().into_error();
    assert!(p.is_poisoned());
}

#[test]
fn scope_abandoned_during_unwind_poisons() {
    let p = Poison::new(42);

    let s = Poison::scope(Poison::on_unwind(p, here()).ok().unwrap());

    // Even though no step failed, an unwinding abandonment forces the
    // container into an unwind poison
    let p = s.poison_unwinding(Some(String::from("explicit panic")));

    assert!(p.is_poisoned());
    let err = p.get().err().unwrap();
    assert_eq!(
        "poisoned by a panic: explicit panic (the poisoning guard was acquired at line 1, column 1)",
        err.message()
    );
}

#[test]
fn try_catch_unwind_map() {
    let p = Poison::new(1);
    let s = Poison::scope(Poison::on_unwind(p, here()).ok().unwrap());

    let (_, r) = s.try_catch_unwind(|v: i32| (v, Ok::<i32, String>(3)));

    assert_eq!(6, r.map(|v| v * 2).unwrap());
}

#[test]
fn try_catch_unwind_map_err() {
    let p = Poison::new(1);
    let s = Poison::scope(Poison::on_unwind(p, here()).ok().unwrap());

    let (_, r) = s.try_catch_unwind(|v: i32| (v, Err::<i32, String>(some_err())));

    let msg = r.map_err(|e| e.message()).err().unwrap();
    assert_eq!(
        "poisoned by an error: some error (the poisoning guard was acquired at line 1, column 1)",
        msg
    );
}

#[test]
fn try_catch_unwind_expect() {
    let p = Poison::new(1);
    let s = Poison::scope(Poison::on_unwind(p, here()).ok().unwrap());

    let (_, r) = s.try_catch_unwind(|v: i32| (v, Ok::<i32, String>(9)));

    assert_eq!(9, r.expect("the step succeeded"));
}

#[test]
fn try_catch_unwind_expect_err() {
    let p = Poison::new(1);
    let s = Poison::scope(Poison::on_unwind(p, here()).ok().unwrap());

    let (_, r) = s.try_catch_unwind(|v: i32| (v, Err::<i32, String>(some_err())));

    let err = r.expect_err("the step failed");
    assert_eq!(
        "poisoned by an error: some error (the poisoning guard was acquired at line 1, column 1)",
        err.message()
    );
}
