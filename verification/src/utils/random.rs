use vstd::prelude::*;
use rand::seq::SliceRandom;

verus! {

/// `SliceRandom::choose` with the thread-local generator (`rand::thread_rng`):
/// `None` for an empty slice, otherwise one of its elements, picked at random.
#[verifier::external_body]
pub fn choose_one(items: &[&'static str]) -> (r: Option<&'static str>)
    ensures
        r is None <==> items@.len() == 0,
        r matches Some(s) ==> items@.contains(s),
{
    items.choose(&mut rand::thread_rng()).copied()
}

} // verus!
