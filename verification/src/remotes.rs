//! Remote selection: the view builder operates against the remote named
//! `origin` when one exists; otherwise it falls back, best-effort, to the
//! first remote in the backend's enumeration order. A remote whose name is
//! not valid text is carried as `None` and never selected.

use vstd::prelude::*;

verus! {

/// Some remote in the list is named `origin`.
pub open spec fn spec_has_origin(names: Seq<Option<String>>) -> bool {
    exists|i: int|
        0 <= i < names.len() && ((#[trigger] names[i]) matches Some(n) && n@ == "origin"@)
}

/// The first text name at or after position `i`, if any.
pub open spec fn spec_first_text(names: Seq<Option<String>>, i: int) -> Option<Seq<char>>
    decreases names.len() - i,
{
    if i < 0 || i >= names.len() {
        None
    } else if names[i] is Some {
        Some(names[i]->0@)
    } else {
        spec_first_text(names, i + 1)
    }
}

/// The selection rule: `origin` when present, else the first text name.
pub open spec fn spec_select(names: Seq<Option<String>>) -> Option<Seq<char>> {
    if spec_has_origin(names) {
        Some("origin"@)
    } else {
        spec_first_text(names, 0)
    }
}

proof fn lemma_first_text_iff(names: Seq<Option<String>>, i: int)
    requires
        0 <= i <= names.len(),
    ensures
        spec_first_text(names, i) is Some <==> exists|j: int|
            i <= j < names.len() && names[j] is Some,
    decreases names.len() - i,
{
    if i < names.len() && !(names[i] is Some) {
        lemma_first_text_iff(names, i + 1);
    }
}

/// A selection exists exactly when some remote has a text name: with no
/// `origin` but at least one named remote the selection is non-empty, and
/// with zero remotes it is empty.
pub proof fn lemma_selection_nonempty_iff(names: Seq<Option<String>>)
    ensures
        spec_select(names) is Some <==> exists|i: int| 0 <= i < names.len() && names[i] is Some,
{
    lemma_first_text_iff(names, 0);
    if spec_has_origin(names) {
        let i = choose|i: int|
            0 <= i < names.len() && ((#[trigger] names[i]) matches Some(n) && n@ == "origin"@);
        assert(names[i] is Some);
    }
}

/// Pick the remote to operate against: `origin` when present, otherwise,
/// greedily, the first remote with a text name.
pub fn select_remote_name(names: &Vec<Option<String>>) -> (r: Option<String>)
    ensures
        r is Some <==> spec_select(names@) is Some,
        r matches Some(n) ==> spec_select(names@) == Some(n@),
{
    let origin = String::from_str("origin");
    let n = names.len();
    let mut i: usize = 0;
    while i < n
        invariant
            i <= n == names@.len(),
            origin@ == "origin"@,
            forall|j: int| 0 <= j < i ==> !((#[trigger] names@[j]) matches Some(m) && m@ == "origin"@),
        decreases n - i,
    {
        match &names[i] {
            Some(name) => {
                if *name == origin {
                    assert(spec_has_origin(names@));
                    return Some(name.clone());
                }
            },
            None => {},
        }
        i = i + 1;
    }
    assert(!spec_has_origin(names@));
    let mut i: usize = 0;
    while i < n
        invariant
            i <= n == names@.len(),
            !spec_has_origin(names@),
            spec_first_text(names@, 0) == spec_first_text(names@, i as int),
        decreases n - i,
    {
        match &names[i] {
            Some(name) => {
                return Some(name.clone());
            },
            None => {},
        }
        i = i + 1;
    }
    None
}

} // verus!
