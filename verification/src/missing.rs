use vstd::prelude::*;

verus! {

/// Some reading is missing.
pub open spec fn any_missing<T>(readings: Seq<Option<T>>) -> bool {
    exists|i: int| 0 <= i < readings.len() && (#[trigger] readings[i]) is None
}

/// Gathers readings of which each may be missing, for callers that turn
/// closed forms into numbers of their own: all of them, in their order, or
/// nothing at all where one is missing.
pub fn all_or_missing<T: Copy>(readings: &Vec<Option<T>>) -> (r: Option<Vec<T>>)
    ensures
        match r {
            Some(all) => all@.len() == readings@.len() && forall|i: int|
                #![trigger readings@[i]]
                #![trigger all@[i]]
                0 <= i < all@.len() ==> readings@[i] == Some(all@[i]),
            None => any_missing(readings@),
        },
{
    let mut all: Vec<T> = Vec::new();
    for i in 0..readings.len()
        invariant
            all@.len() == i,
            forall|j: int| 0 <= j < i ==> readings@[j] == Some(#[trigger] all@[j]),
    {
        match readings[i] {
            Some(reading) => all.push(reading),
            None => {
                return None;
            },
        }
    }
    Some(all)
}

} // verus!
