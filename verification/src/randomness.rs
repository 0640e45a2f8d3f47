//! Random choice at the edge of the fun commands. One trusted item
//! draws the number; everything that depends on it is verified for
//! every value the draw can take.

use vstd::prelude::*;

verus! {

/// Relies on rand::random_range: a draw from `0..bound` (uniform over
/// the range, from the thread-local generator) lies strictly below
/// `bound`; the range is non-empty, so the call does not panic. Nothing
/// more is assumed of a random result.
#[verifier::external_body]
fn random_below(bound: u64) -> (r: u64)
    requires
        bound >= 1,
    ensures
        r < bound,
{
    rand::random_range(0..bound)
}

/// Picks an index of a non-empty slice of choices.
pub fn pick_index(len: usize) -> (i: usize)
    requires
        len >= 1,
    ensures
        i < len,
{
    let r = random_below(len as u64);
    r as usize
}

/// Picks one message of a non-empty list, as the fun commands do.
pub fn pick_one(items: &Vec<String>) -> (choice: &String)
    requires
        items@.len() >= 1,
    ensures
        exists|i: int| 0 <= i < items@.len() && choice@ == items@[i]@,
{
    let i = pick_index(items.len());
    &items[i]
}

/// The dice command: `None` exactly when the bounds are misordered
/// (minimum not below maximum), else a draw between them inclusive.
pub fn roll_between(min: i32, max: i32) -> (result: Option<i32>)
    ensures
        min >= max <==> result is None,
        result matches Some(v) ==> min <= v <= max,
{
    if min >= max {
        return None;
    }
    let span = (max as i64 - min as i64 + 1) as u64;
    let draw = random_below(span);
    let value = (min as i64 + draw as i64) as i32;
    Some(value)
}

} // verus!
