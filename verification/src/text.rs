//! Texts: comparing them, searching them, and finding a name in a list of names.

use vstd::prelude::*;
use vstd::string::StrSliceExecFns;
use vstd::string::StringExecFns;

verus! {

/// `i` is the first place in `names` at which `name` stands.
pub open spec fn is_first(names: Seq<Seq<char>>, name: Seq<char>, i: int) -> bool {
    &&& 0 <= i < names.len()
    &&& names[i] == name
    &&& forall|j: int| 0 <= j < i ==> names[j] != name
}

/// The first place in `names` at which `name` stands, if it stands anywhere.
pub open spec fn slot_of(names: Seq<Seq<char>>, name: Seq<char>) -> Option<int> {
    if exists|i: int| is_first(names, name, i) {
        Some(choose|i: int| is_first(names, name, i))
    } else {
        None
    }
}

/// The first place of a name is the only one that is first.
pub proof fn lemma_slot_found(names: Seq<Seq<char>>, name: Seq<char>, i: int)
    requires
        is_first(names, name, i),
    ensures
        slot_of(names, name) == Some(i),
{
    let c = choose|c: int| is_first(names, name, c);
    if c < i {
        assert(names[c] != name);
    } else if i < c {
        assert(names[i] != name);
    }
}

/// A name that stands nowhere has no place.
pub proof fn lemma_slot_missing(names: Seq<Seq<char>>, name: Seq<char>)
    requires
        forall|j: int| 0 <= j < names.len() ==> names[j] != name,
    ensures
        slot_of(names, name) is None,
{
    if exists|i: int| is_first(names, name, i) {
        let c = choose|c: int| is_first(names, name, c);
        assert(names[c] != name);
    }
}

/// The place that `slot_of` gives is within the list and holds the name.
pub proof fn lemma_slot_valid(names: Seq<Seq<char>>, name: Seq<char>)
    ensures
        slot_of(names, name) is Some ==> is_first(names, name, slot_of(names, name)->0),
        slot_of(names, name) is None ==> forall|j: int| 0 <= j < names.len() ==> names[j] != name,
{
    if slot_of(names, name) is None {
        assert forall|j: int| 0 <= j < names.len() implies names[j] != name by {
            if names[j] == name {
                lemma_has_first(names, name, j);
            }
        }
    }
}

/// A name that stands somewhere has a first place.
pub proof fn lemma_has_first(names: Seq<Seq<char>>, name: Seq<char>, j: int)
    requires
        0 <= j < names.len(),
        names[j] == name,
    ensures
        exists|i: int| is_first(names, name, i),
    decreases j,
{
    if exists|k: int| 0 <= k < j && names[k] == name {
        let k = choose|k: int| 0 <= k < j && names[k] == name;
        lemma_has_first(names, name, k);
    } else {
        assert(is_first(names, name, j));
    }
}

/// Whether two texts are the same.
pub fn same_text(a: &str, b: &str) -> (r: bool)
    ensures
        r == (a@ == b@),
{
    String::from_str(a) == String::from_str(b)
}

/// Whether `part` stands somewhere in `text`.
pub open spec fn has_part(text: Seq<char>, part: Seq<char>) -> bool {
    exists|i: int| stands_at(text, part, i)
}

/// Whether `part` stands in `text` from place `i` on.
pub open spec fn stands_at(text: Seq<char>, part: Seq<char>, i: int) -> bool {
    0 <= i && i + part.len() <= text.len() && text.subrange(i, i + part.len()) == part
}

/// Whether `text` begins with `prefix`.
pub open spec fn begins_with(text: Seq<char>, prefix: Seq<char>) -> bool {
    stands_at(text, prefix, 0)
}

/// Whether `part` stands somewhere in `text`.
pub fn contains_text(text: &str, part: &str) -> (r: bool)
    ensures
        r == has_part(text@, part@),
{
    let n = text.unicode_len();
    let m = part.unicode_len();
    if m > n {
        return false;
    }
    let last = n - m;
    let mut i: usize = 0;
    loop
        invariant
            m <= n,
            n == text@.len(),
            m == part@.len(),
            last == n - m,
            0 <= i <= last,
            forall|j: int| 0 <= j < i ==> !stands_at(text@, part@, j),
        decreases last - i,
    {
        if same_text(text.substring_char(i, i + m), part) {
            proof {
                assert(stands_at(text@, part@, i as int));
            }
            return true;
        }
        if i == last {
            return false;
        }
        i += 1;
    }
}

/// Whether `text` begins with `prefix`.
pub fn starts_with_text(text: &str, prefix: &str) -> (r: bool)
    ensures
        r == begins_with(text@, prefix@),
{
    let n = text.unicode_len();
    let m = prefix.unicode_len();
    if m > n {
        return false;
    }
    same_text(text.substring_char(0, m), prefix)
}

} // verus!
