//! The filter engine: deciding whether a package takes part in a dispatch.

use vstd::prelude::*;

verus! {

/// The views of a list of package names.
pub open spec fn name_views(names: Seq<String>) -> Seq<Seq<char>> {
    names.map_values(|s: String| s@)
}

/// Whether a package takes part in a package-level dispatch.
///
/// A package is included when the only-list is empty or names it, and the
/// exclude-list does not name it.  The filters apply only at package-level
/// scopes; the workspace scope ignores them.
pub open spec fn included(name: Seq<char>, exclude: Seq<Seq<char>>, only: Seq<Seq<char>>) -> bool {
    (only.len() == 0 || only.contains(name)) && !exclude.contains(name)
}

/// Whether a list of names contains the given name.
pub fn contains_name(list: &Vec<String>, name: &String) -> (r: bool)
    ensures
        r == name_views(list@).contains(name@),
{
    let mut i: usize = 0;
    while i < list.len()
        invariant
            i <= list@.len(),
            forall|j: int| 0 <= j < i ==> list@[j]@ != name@,
        decreases list@.len() - i,
    {
        let elem: &String = &list[i];
        if elem.eq(name) {
            proof {
                assert(name_views(list@)[i as int] == name@);
            }
            return true;
        }
        i += 1;
    }
    proof {
        assert forall|j: int| 0 <= j < name_views(list@).len() implies name_views(list@)[j]
            != name@ by {
            assert(name_views(list@)[j] == list@[j]@);
        }
    }
    false
}

/// Evaluates the exclude-set and the only-set against one package name.
pub fn is_included(name: &String, exclude: &Vec<String>, only: &Vec<String>) -> (r: bool)
    ensures
        r == included(name@, name_views(exclude@), name_views(only@)),
{
    (only.len() == 0 || contains_name(only, name)) && !contains_name(exclude, name)
}

/// Law: with both filter sets empty every package is included, and a package
/// named by the exclude-set is never included, whatever the only-set holds.
pub proof fn lemma_included(name: Seq<char>, exclude: Seq<Seq<char>>, only: Seq<Seq<char>>)
    ensures
        exclude.len() == 0 && only.len() == 0 ==> included(name, exclude, only),
        exclude.contains(name) ==> !included(name, exclude, only),
{
}

} // verus!
