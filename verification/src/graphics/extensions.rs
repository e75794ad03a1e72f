//! Lists of layer or extension names that the renderer asks for.

use crate::text::{holds_text, joined, texts_of};
use vstd::prelude::*;
use vstd::string::StringExecFns;

verus! {

/// Names of layers or extensions that must all be on offer.
#[derive(Copy, Clone, Debug)]
pub struct Extensions<'a, const SIZE: usize>(pub [&'a str; SIZE]);

/// Holds of the names that `available` lacks.
pub open spec fn absent_from(available: Seq<Seq<char>>) -> spec_fn(Seq<char>) -> bool {
    |name: Seq<char>| !available.contains(name)
}

/// Those of `requested` that `available` lacks, in the order of `requested`.
pub open spec fn missing_names(requested: Seq<Seq<char>>, available: Seq<Seq<char>>) -> Seq<
    Seq<char>,
> {
    requested.filter(absent_from(available))
}

impl<'a, const SIZE: usize> Extensions<'a, SIZE> {
    /// The names, in order.
    pub open spec fn names(&self) -> Seq<Seq<char>> {
        Seq::new(SIZE as nat, |i: int| self.0@[i]@)
    }

    /// Checks that every name is among `available_extensions`.
    ///
    /// Succeeds where none is missing. Otherwise the error names every missing one,
    /// in the order in which they were asked for, separated by a comma and a space.
    pub fn are_in(&self, available_extensions: &Vec<String>) -> (result: Result<(), String>)
        ensures
            missing_names(self.names(), texts_of(available_extensions@)).len() == 0 ==> result
                == Ok::<(), String>(()),
            missing_names(self.names(), texts_of(available_extensions@)).len() > 0 ==> (
            result matches Err(list) && list@ == joined(
                missing_names(self.names(), texts_of(available_extensions@)),
                ", "@,
            )),
    {
        let ghost available = texts_of(available_extensions@);
        let ghost absent = absent_from(available);
        let mut list = String::new();
        let mut any_missing = false;
        let mut i: usize = 0;
        proof {
            reveal(Seq::filter);
            assert(self.names().take(0).filter(absent) =~= Seq::<Seq<char>>::empty());
        }
        while i < SIZE
            invariant
                i <= SIZE,
                available == texts_of(available_extensions@),
                absent == absent_from(available),
                any_missing == (self.names().take(i as int).filter(absent).len() > 0),
                list@ == joined(self.names().take(i as int).filter(absent), ", "@),
            decreases SIZE - i,
        {
            let name = self.0[i];
            let ghost before = self.names().take(i as int);
            let ghost after = self.names().take(i as int + 1);
            proof {
                reveal(Seq::filter);
                assert(after.drop_last() =~= before);
                assert(after.last() == name@);
            }
            if !holds_text(available_extensions, name) {
                proof {
                    assert(after.filter(absent) == before.filter(absent).push(name@));
                    assert(after.filter(absent).drop_last() =~= before.filter(absent));
                }
                if any_missing {
                    list.append(", ");
                    list.append(name);
                    assert(list@ =~= joined(after.filter(absent), ", "@));
                } else {
                    list.append(name);
                    assert(list@ =~= joined(after.filter(absent), ", "@));
                }
                any_missing = true;
            } else {
                assert(after.filter(absent) == before.filter(absent));
            }
            i += 1;
        }
        assert(self.names().take(SIZE as int) =~= self.names());
        if any_missing {
            Err(list)
        } else {
            Ok(())
        }
    }
}


/// The list of missing names is complete and exact: every requested name that is not
/// available is on it, nothing else is, and it is empty exactly where every requested
/// name is available.
pub proof fn lemma_missing_names_are_all_the_absent(
    requested: Seq<Seq<char>>,
    available: Seq<Seq<char>>,
)
    ensures
        forall|i: int|
            0 <= i < requested.len() && !available.contains(requested[i]) ==> missing_names(
                requested,
                available,
            ).contains(#[trigger] requested[i]),
        forall|k: int|
            0 <= k < missing_names(requested, available).len() ==> {
                &&& requested.contains(#[trigger] missing_names(requested, available)[k])
                &&& !available.contains(missing_names(requested, available)[k])
            },
        missing_names(requested, available).len() == 0 <==> (forall|i: int|
            0 <= i < requested.len() ==> available.contains(#[trigger] requested[i])),
{
    let absent = absent_from(available);
    let missing = missing_names(requested, available);
    assert forall|i: int|
        0 <= i < requested.len() && !available.contains(requested[i]) implies missing.contains(
        #[trigger] requested[i],
    ) by {
        requested.lemma_filter_contains(absent, i);
    }
    assert forall|k: int| 0 <= k < missing.len() implies requested.contains(
        #[trigger] missing[k],
    ) && !available.contains(missing[k]) by {
        requested.lemma_filter_pred(absent, k);
        assert(missing.contains(missing[k]));
        requested.lemma_filter_contains_rev(absent, missing[k]);
    }
    if missing.len() == 0 {
        assert forall|i: int| 0 <= i < requested.len() implies available.contains(
            #[trigger] requested[i],
        ) by {
            if !available.contains(requested[i]) {
                assert(missing.contains(requested[i]));
            }
        }
    } else {
        assert(requested.contains(missing[0]));
    }
}

} // verus!
