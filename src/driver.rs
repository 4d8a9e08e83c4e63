//! Choosing a render driver by name from the list the platform reports.

use vstd::prelude::*;
use vstd::string::StringExecFns;

verus! {

/// The name of the render driver that can host an OpenGL context.
pub open spec fn gl_driver_name() -> Seq<char> {
    seq!['o', 'p', 'e', 'n', 'g', 'l']
}

/// Whether no entry of `names` before position `i` equals `wanted`.
pub open spec fn absent_before(names: Seq<Seq<char>>, wanted: Seq<char>, i: int) -> bool {
    forall|j: int| 0 <= j < i ==> #[trigger] names[j] != wanted
}

/// The position of the first entry of `names` equal to `wanted`, if any.
pub open spec fn first_index_of(names: Seq<Seq<char>>, wanted: Seq<char>) -> Option<int> {
    if exists|i: int| 0 <= i < names.len() && names[i] == wanted {
        Some(
            choose|i: int|
                0 <= i < names.len() && names[i] == wanted && absent_before(names, wanted, i),
        )
    } else {
        None
    }
}

/// The names of a list of drivers, as sequences of characters.
pub open spec fn names_view(names: Seq<String>) -> Seq<Seq<char>> {
    names.map_values(|s: String| s@)
}

/// A first match is unique: any position holding `wanted` with no earlier
/// match is the one `first_index_of` picks.
pub proof fn lemma_first_index_of(names: Seq<Seq<char>>, wanted: Seq<char>, i: int)
    requires
        0 <= i < names.len(),
        names[i] == wanted,
        absent_before(names, wanted, i),
    ensures
        first_index_of(names, wanted) == Some(i),
{
    let k = choose|k: int|
        0 <= k < names.len() && names[k] == wanted && absent_before(names, wanted, k);
    if k < i {
        assert(names[k] != wanted);
    } else if i < k {
        assert(names[i] != wanted);
    }
}

/// The position of the first driver called `wanted`.
pub fn find_driver_index(names: &Vec<String>, wanted: &String) -> (r: Option<u32>)
    requires
        names@.len() <= u32::MAX,
    ensures
        r matches Some(i) ==> first_index_of(names_view(names@), wanted@) == Some(i as int),
        r is None ==> first_index_of(names_view(names@), wanted@) is None,
{
    let ghost view = names_view(names@);
    let mut i: usize = 0;
    while i < names.len()
        invariant
            i <= names@.len() <= u32::MAX,
            view == names_view(names@),
            absent_before(view, wanted@, i as int),
        decreases names@.len() - i,
    {
        if names[i] == *wanted {
            proof {
                lemma_first_index_of(view, wanted@, i as int);
            }
            return Some(i as u32);
        }
        i = i + 1;
    }
    proof {
        assert forall|j: int| 0 <= j < view.len() implies view[j] != wanted@ by {
            assert(names_view(names@)[j] == names@[j]@);
        }
    }
    None
}

/// The position of the first driver that can host an OpenGL context.
pub fn find_sdl_gl_driver(names: &Vec<String>) -> (r: Option<u32>)
    requires
        names@.len() <= u32::MAX,
    ensures
        r matches Some(i) ==> first_index_of(names_view(names@), gl_driver_name()) == Some(
            i as int,
        ),
        r is None ==> first_index_of(names_view(names@), gl_driver_name()) is None,
{
    let wanted = String::from_str("opengl");
    proof {
        reveal_strlit("opengl");
        assert(wanted@ =~= gl_driver_name());
    }
    find_driver_index(names, &wanted)
}

} // verus!
