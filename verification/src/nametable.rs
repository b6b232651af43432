//! Looking names up in a list of names.

use vstd::prelude::*;

verus! {

/// The names of a list, as sequences of characters.
pub open spec fn names_view(names: Seq<String>) -> Seq<Seq<char>> {
    Seq::new(names.len(), |i: int| names[i]@)
}

/// No name occurs twice.
pub open spec fn distinct(names: Seq<Seq<char>>) -> bool {
    forall|i: int, j: int| 0 <= i < j < names.len() ==> names[i] != names[j]
}

/// The first place at which `name` stands in `names`, if it stands there.
pub open spec fn position(names: Seq<Seq<char>>, name: Seq<char>) -> Option<int>
    decreases names.len(),
{
    if names.len() == 0 {
        None
    } else if position(names.drop_last(), name) is Some {
        position(names.drop_last(), name)
    } else if names.last() == name {
        Some(names.len() - 1)
    } else {
        None
    }
}

/// `position` finds the first occurrence, and finds one whenever there is one.
pub proof fn lemma_position(names: Seq<Seq<char>>, name: Seq<char>)
    ensures
        match position(names, name) {
            Some(i) => 0 <= i < names.len() && names[i] == name && forall|j: int|
                0 <= j < i ==> names[j] != name,
            None => forall|j: int| 0 <= j < names.len() ==> names[j] != name,
        },
    decreases names.len(),
{
    if names.len() > 0 {
        let init = names.drop_last();
        lemma_position(init, name);
        assert forall|j: int| 0 <= j < init.len() implies init[j] == names[j] by {}
        match position(init, name) {
            Some(i) => {
                assert(init[i] == name);
                assert forall|j: int| 0 <= j < i implies names[j] != name by {
                    assert(init[j] != name);
                }
            },
            None => {
                assert forall|j: int| 0 <= j < names.len() - 1 implies names[j] != name by {
                    assert(init[j] != name);
                }
            },
        }
    }
}

/// A name that is not in the list is still not there after another was
/// appended, and the places of all others stay.
pub proof fn lemma_position_push(names: Seq<Seq<char>>, added: Seq<char>, name: Seq<char>)
    ensures
        position(names.push(added), name) == if position(names, name) is Some {
            position(names, name)
        } else if added == name {
            Some(names.len() as int)
        } else {
            None
        },
        position(names, added) is None && distinct(names) ==> distinct(names.push(added)),
{
    assert(names.push(added).drop_last() =~= names);
    lemma_position(names, added);
}

/// Finds `name` in `names`.
pub fn position_of(names: &Vec<String>, name: &str) -> (r: Option<usize>)
    ensures
        match r {
            Some(i) => position(names_view(names@), name@) == Some(i as int),
            None => position(names_view(names@), name@) is None,
        },
{
    let wanted: String = name.to_owned();
    let mut i: usize = 0;
    while i < names.len()
        invariant
            i <= names.len(),
            wanted@ == name@,
            forall|j: int| 0 <= j < i ==> names_view(names@)[j] != name@,
        decreases names.len() - i,
    {
        if names[i] == wanted {
            proof {
                let view = names_view(names@);
                lemma_position(view, name@);
                assert(view[i as int] == name@);
                match position(view, name@) {
                    Some(k) => {
                        if k < i {
                            assert(view[k] != name@);
                        }
                    },
                    None => {},
                }
            }
            return Some(i);
        }
        assert(names_view(names@)[i as int] != name@);
        i = i + 1;
    }
    proof {
        lemma_position(names_view(names@), name@);
    }
    None
}

} // verus!
