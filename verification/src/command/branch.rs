use crate::repo::{branch_names_keep_every_readable_name, readable_names};
use vstd::prelude::*;

verus! {

/// No entry before `n` failed.
pub open spec fn none_failed_before<E>(entries: Seq<Result<Option<String>, E>>, n: int) -> bool {
    forall|k: int| 0 <= k < n ==> (#[trigger] entries[k]) is Ok
}

/// The branch names, from the branches that the repository lists: each entry is the
/// branch's name (`None` where it is not valid UTF-8) or the error met reading the branch.
/// The first error ends the listing; names that are not valid UTF-8 are left out.
pub fn get_branch_names_from_repository(entries: Vec<Result<Option<String>, git2::Error>>) -> (r:
    Result<Vec<String>, git2::Error>)
    ensures
        match r {
            Ok(names) => {
                &&& none_failed_before(entries@, entries@.len() as int)
                &&& names@ == readable_names(entries@)
                &&& forall|i: int|
                    0 <= i < entries@.len() ==> (#[trigger] entries@[i] matches Ok(Some(n))
                        ==> names@.contains(n))
            },
            Err(e) => exists|i: int|
                0 <= i < entries@.len() && entries@[i] == Err::<Option<String>, git2::Error>(e)
                    && none_failed_before(entries@, i),
        },
{
    let mut list = entries;
    let ghost all = list@;
    let mut names: Vec<String> = Vec::new();
    let mut i: usize = 0;
    while i < list.len()
        invariant
            list@ == all,
            all == entries@,
            i <= all.len(),
            none_failed_before(all, i as int),
            names@ == readable_names(all.take(i as int)),
        decreases all.len() - i,
    {
        assert(all.take(i + 1).drop_last() =~= all.take(i as int));
        let failed = list[i].is_err();
        if failed {
            let entry = list.remove(i);
            match entry {
                Err(e) => {
                    assert(entries@[i as int] == Err::<Option<String>, git2::Error>(e));
                    return Err(e);
                },
                Ok(_) => {
                    proof {
                        assert(false);
                    }
                    return Ok(names);
                },
            }
        }
        match &list[i] {
            Ok(Some(n)) => names.push(n.clone()),
            _ => {},
        }
        i = i + 1;
    }
    assert(all.take(all.len() as int) =~= all);
    proof {
        branch_names_keep_every_readable_name(all);
    }
    Ok(names)
}

} // verus!
