use vstd::prelude::*;

use crate::error::Error;

verus! {

/// What one reservation does to a counter: hands out the current value and
/// moves to the next, unless the counter is at the largest `u32`.
pub open spec fn reserve_step(counter: u32) -> (Result<u32, Error>, u32) {
    if counter < u32::MAX {
        (Ok(counter), (counter + 1) as u32)
    } else {
        (Err(Error::Overflow), counter)
    }
}

/// Hands out the counter's value as a fresh id and advances the counter by
/// one; at the largest `u32` fails with `Overflow` and leaves it as it is.
pub fn reserve_next_id(next_id: &mut u32) -> (r: Result<u32, Error>)
    ensures
        (r, *final(next_id)) == reserve_step(*old(next_id)),
{
    let current: u32 = *next_id;
    match current.checked_add(1) {
        Some(n) => {
            *next_id = n;
            Ok(current)
        },
        None => Err(Error::Overflow),
    }
}

/// The ids that `n` reservations in a row hand out from `counter`, and the
/// counter after them, as long as none of them fails.
pub open spec fn reserve_many(counter: u32, n: nat) -> (Seq<u32>, u32)
    decreases n,
{
    if n == 0 {
        (Seq::empty(), counter)
    } else {
        let (ids, c) = reserve_many(counter, (n - 1) as nat);
        match reserve_step(c).0 {
            Ok(id) => (ids.push(id), reserve_step(c).1),
            Err(_) => (ids, c),
        }
    }
}

/// Reserving `n` times from `counter`, while the counter stays in range,
/// yields the `n` contiguous, strictly increasing ids that start at
/// `counter`, and leaves the counter `n` further on.
pub proof fn lemma_reserve_contiguous(counter: u32, n: nat)
    requires
        counter + n <= u32::MAX,
    ensures
        reserve_many(counter, n).0.len() == n,
        reserve_many(counter, n).1 == counter + n,
        forall|k: int| 0 <= k < n ==> #[trigger] reserve_many(counter, n).0[k] == counter + k,
        forall|j: int, k: int|
            0 <= j < k < n ==> reserve_many(counter, n).0[j] < reserve_many(counter, n).0[k],
    decreases n,
{
    if n > 0 {
        lemma_reserve_contiguous(counter, (n - 1) as nat);
        let ids = reserve_many(counter, n).0;
        assert forall|k: int| 0 <= k < n implies #[trigger] ids[k] == counter + k by {
            if k < n - 1 {
                assert(ids[k] == reserve_many(counter, (n - 1) as nat).0[k]);
            }
        }
    }
}

/// Once the counter is at the largest `u32`, a reservation fails with
/// `Overflow` and leaves the counter unchanged.
pub proof fn lemma_reserve_at_max()
    ensures
        reserve_step(u32::MAX) == (Err::<u32, Error>(Error::Overflow), u32::MAX),
{
}

} // verus!
