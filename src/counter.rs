use vstd::prelude::*;

verus! {

/// Number of workers that share the counter.
pub const WORKERS: u32 = 2;

/// Number of increments each worker applies.
pub const INCREMENTS_PER_WORKER: u32 = 100000;

/// One increment of the shared counter, made while its lock is held.
pub fn increment(n: &mut i32)
    requires
        *old(n) < i32::MAX,
    ensures
        *final(n) == *old(n) + 1,
{
    *n = *n + 1;
}

/// A worker's whole share of increments, made under a single hold of the lock.
pub fn add_increments(n: &mut i32, times: u32)
    requires
        *old(n) + times <= i32::MAX,
    ensures
        *final(n) == *old(n) + times,
{
    let mut done: u32 = 0;
    while done < times
        invariant
            done <= times,
            *n == *old(n) + done,
            *old(n) + times <= i32::MAX,
        decreases times - done,
    {
        increment(n);
        done = done + 1;
    }
}

} // verus!
