//! Choice of the nearest of the hits that the meshes of a scene report.
//!
//! Each mesh reports `None` (missed) or `Some(key)`, where the key orders hits
//! by their distance along the ray: a smaller key is a nearer hit. For positive
//! finite IEEE-754 distances the bit pattern is such a key.
use vstd::prelude::*;

verus! {

/// `i` is the nearest hit of `keys`: it is a hit, no hit is nearer, and every
/// hit before it is strictly farther (the first one wins a tie).
pub open spec fn is_nearest(keys: Seq<Option<u32>>, i: int) -> bool {
    &&& 0 <= i < keys.len()
    &&& keys[i] is Some
    &&& forall|j: int|
        0 <= j < keys.len() && #[trigger] keys[j] is Some ==> keys[i]->0 <= keys[j]->0
    &&& forall|j: int| 0 <= j < i && #[trigger] keys[j] is Some ==> keys[i]->0 < keys[j]->0
}

/// No mesh reports a hit.
pub open spec fn all_missed(keys: Seq<Option<u32>>) -> bool {
    forall|j: int| 0 <= j < keys.len() ==> #[trigger] keys[j] is None
}

/// The index of the nearest hit among `keys`, the first one on a tie; `None`
/// when every mesh missed.
pub fn nearest_hit(keys: &Vec<Option<u32>>) -> (r: Option<usize>)
    ensures
        r is None <==> all_missed(keys@),
        r matches Some(i) ==> is_nearest(keys@, i as int),
{
    let mut best: Option<usize> = None;
    let mut best_key: u32 = 0;
    let mut k: usize = 0;
    while k < keys.len()
        invariant
            k <= keys@.len(),
            best is None ==> forall|j: int| 0 <= j < k ==> #[trigger] keys@[j] is None,
            best matches Some(i) ==> {
                &&& i < k
                &&& keys@[i as int] == Some(best_key)
                &&& forall|j: int|
                    0 <= j < k && #[trigger] keys@[j] is Some ==> best_key <= keys@[j]->0
                &&& forall|j: int|
                    0 <= j < i && #[trigger] keys@[j] is Some ==> best_key < keys@[j]->0
            },
        decreases keys@.len() - k,
    {
        if let Some(t) = keys[k] {
            let nearer = match best {
                None => true,
                Some(_) => t < best_key,
            };
            if nearer {
                best = Some(k);
                best_key = t;
            }
        }
        k = k + 1;
    }
    best
}

/// At most one index is the nearest hit, so `nearest_hit` determines its
/// result.
pub proof fn nearest_is_unique(keys: Seq<Option<u32>>, i: int, j: int)
    requires
        is_nearest(keys, i),
        is_nearest(keys, j),
    ensures
        i == j,
{
    if i < j {
        assert(keys[i] is Some);
    } else if j < i {
        assert(keys[j] is Some);
    }
}

} // verus!
