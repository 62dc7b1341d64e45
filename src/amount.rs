//! Choice of the amount to transfer.

use vstd::prelude::*;
use rand::Rng;

verus! {

/// Relies on rand's `thread_rng` and `Rng::gen_range`: a value drawn from the
/// half-open range `0..bound`, which must not be empty.
#[verifier::external_body]
fn draw_below(bound: u64) -> (r: u64)
    requires
        bound > 0,
    ensures
        r < bound,
{
    rand::thread_rng().gen_range(0..bound)
}

/// A random amount below half of `balance`; zero where half of it is zero.
pub fn select_amount(balance: u64) -> (r: u64)
    ensures
        balance < 2 ==> r == 0,
        balance >= 2 ==> r < balance / 2,
        r <= balance / 2,
{
    let half: u64 = balance / 2;
    if half == 0 {
        0
    } else {
        draw_below(half)
    }
}

} // verus!
