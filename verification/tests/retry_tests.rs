use crate_upd_bot::retry::tryn;

#[test]
fn first_success_is_returned_at_once() {
    let outcomes: Vec<Result<u32, &str>> = vec![Ok(7), Err("later"), Err("later")];
    let (r, attempts) = tryn(3, outcomes);
    assert_eq!(r, Ok(7));
    assert_eq!(attempts, 1);
}

#[test]
fn success_after_k_failures_spends_k_plus_one_attempts() {
    // Fails the first two times, then succeeds: fewer than the five allowed
    // attempts are made, and the success is returned.
    let outcomes: Vec<Result<u32, &str>> =
        vec![Err("busy"), Err("busy"), Ok(42), Ok(43), Err("busy")];
    let (r, attempts) = tryn(5, outcomes);
    assert_eq!(r, Ok(42));
    assert_eq!(attempts, 3);
    assert!(attempts < 5);
}

#[test]
fn success_on_the_last_allowed_attempt_is_still_returned() {
    let outcomes: Vec<Result<u32, &str>> = vec![Err("busy"), Err("busy"), Ok(1)];
    let (r, attempts) = tryn(3, outcomes);
    assert_eq!(r, Ok(1));
    assert_eq!(attempts, 3);
}

#[test]
fn exhaustion_returns_the_last_failure_after_exactly_n_attempts() {
    let outcomes: Vec<Result<u32, &str>> = vec![Err("first"), Err("second"), Err("third")];
    let (r, attempts) = tryn(3, outcomes);
    assert_eq!(r, Err("third"));
    assert_eq!(attempts, 3);
}

#[test]
fn attempts_past_the_bound_are_never_looked_at() {
    let outcomes: Vec<Result<u32, &str>> = vec![Err("a"), Err("b"), Ok(9)];
    let (r, attempts) = tryn(2, outcomes);
    assert_eq!(r, Err("b"));
    assert_eq!(attempts, 2);
}

#[test]
fn a_single_attempt_returns_its_outcome() {
    let (r, attempts) = tryn(1, vec![Ok::<u32, &str>(5)]);
    assert_eq!(r, Ok(5));
    assert_eq!(attempts, 1);
    let (r, attempts) = tryn(1, vec![Err::<u32, &str>("no")]);
    assert_eq!(r, Err("no"));
    assert_eq!(attempts, 1);
}
