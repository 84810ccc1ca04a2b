use vstd::prelude::*;

verus! {

/// Relies on `rand::random::<usize>`: a uniformly drawn `usize`; nothing is
/// known of its value.
#[verifier::external_body]
fn random_usize() -> (r: usize) {
    rand::random::<usize>()
}

/// Removes a randomly chosen element of `xs` and returns it.
pub fn random_select_mut<T: Copy>(xs: &mut Vec<T>) -> (r: T)
    requires
        old(xs).len() > 0,
    ensures
        exists|i: int|
            0 <= i < old(xs).len() && r == old(xs)@[i] && final(xs)@ == old(xs)@.remove(i),
{
    let i = random_usize() % xs.len();
    xs.remove(i)
}

/// A randomly chosen element of `xs`.
pub fn random_select<T: Copy>(xs: &Vec<T>) -> (r: &T)
    requires
        xs.len() > 0,
    ensures
        exists|i: int| 0 <= i < xs.len() && *r == xs@[i],
{
    let i = random_usize() % xs.len();
    &xs[i]
}

} // verus!
