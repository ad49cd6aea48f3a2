//! Startup decisions about the object store's buckets: which of the listed
//! buckets lie in the working region, and whether the image bucket must be
//! created.

use vstd::prelude::*;
use crate::record::texts_view;

verus! {

/// The names, in listed order, of the buckets whose location is `region`.
pub open spec fn in_region(names: Seq<Seq<char>>, locations: Seq<Seq<char>>, region: Seq<char>) -> Seq<Seq<char>>
    decreases names.len(),
{
    if names.len() == 0 {
        Seq::empty()
    } else {
        let n = (names.len() - 1) as int;
        in_region(names.take(n), locations.take(n), region) + (if locations[n] == region {
            seq![names[n]]
        } else {
            Seq::empty()
        })
    }
}

/// Of the buckets listed with their locations, the names of those in `region`.
pub fn buckets_in_region(names: &Vec<String>, locations: &Vec<String>, region: &str) -> (r: Vec<String>)
    requires
        names.len() == locations.len(),
    ensures
        texts_view(r@) == in_region(texts_view(names@), texts_view(locations@), region@),
{
    let wanted = String::from_str(region);
    let mut r: Vec<String> = Vec::new();
    let mut i: usize = 0;
    while i < names.len()
        invariant
            names.len() == locations.len(),
            i <= names.len(),
            wanted@ == region@,
            texts_view(r@) == in_region(
                texts_view(names@).take(i as int),
                texts_view(locations@).take(i as int),
                region@,
            ),
        decreases names.len() - i,
    {
        let ghost before = texts_view(r@);
        if locations[i] == wanted {
            r.push(names[i].clone());
        }
        proof {
            let ns = texts_view(names@);
            let ls = texts_view(locations@);
            assert(ns.take(i + 1).take(i as int) =~= ns.take(i as int));
            assert(ls.take(i + 1).take(i as int) =~= ls.take(i as int));
            assert(texts_view(r@) =~= before + (if ls[i as int] == region@ {
                seq![ns[i as int]]
            } else {
                Seq::empty()
            }));
        }
        i += 1;
    }
    proof {
        assert(texts_view(names@).take(names.len() as int) =~= texts_view(names@));
        assert(texts_view(locations@).take(locations.len() as int) =~= texts_view(locations@));
    }
    r
}

/// Whether `bucket` is missing from the listed names and must be created.
pub fn needs_bucket(existing: &Vec<String>, bucket: &str) -> (r: bool)
    ensures
        r == !texts_view(existing@).contains(bucket@),
{
    let wanted = String::from_str(bucket);
    let mut i: usize = 0;
    while i < existing.len()
        invariant
            i <= existing.len(),
            wanted@ == bucket@,
            forall|j: int| 0 <= j < i ==> existing@[j]@ != bucket@,
        decreases existing.len() - i,
    {
        if existing[i] == wanted {
            proof {
                assert(texts_view(existing@)[i as int] == bucket@);
            }
            return false;
        }
        i += 1;
    }
    proof {
        if texts_view(existing@).contains(bucket@) {
            let k = choose|k: int| 0 <= k < texts_view(existing@).len() && texts_view(existing@)[k] == bucket@;
            assert(existing@[k]@ == bucket@);
        }
    }
    true
}

} // verus!
