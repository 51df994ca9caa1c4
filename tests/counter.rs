use lang_idioms::counter::{add_increments, increment, INCREMENTS_PER_WORKER, WORKERS};

#[test]
fn two_workers_holding_the_lock_reach_two_hundred_thousand() {
    let mut n: i32 = 0;
    for _ in 0..WORKERS {
        add_increments(&mut n, INCREMENTS_PER_WORKER);
    }
    assert_eq!(n, 200000);
}

#[test]
fn single_increments_reach_two_hundred_thousand() {
    let mut n: i32 = 0;
    for _ in 0..WORKERS {
        for _ in 0..INCREMENTS_PER_WORKER {
            increment(&mut n);
        }
    }
    assert_eq!(n, 200000);
}

#[test]
fn increments_up_to_the_largest_value() {
    let mut n: i32 = i32::MAX - 3;
    add_increments(&mut n, 3);
    assert_eq!(n, i32::MAX);
    let mut m: i32 = -5;
    add_increments(&mut m, 0);
    assert_eq!(m, -5);
}
