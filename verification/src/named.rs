//! Lists of named values, in which the first value under a name counts.
use vstd::prelude::*;

use crate::text;

verus! {

/// The place of the first value under a name, or the length of the list.
pub open spec fn position<T>(list: Seq<(String, T)>, name: Seq<char>) -> nat
    decreases list.len(),
{
    if list.len() == 0 || list[0].0@ == name {
        0
    } else {
        1 + position(list.skip(1), name)
    }
}

/// The value under a name.
pub open spec fn lookup<T>(list: Seq<(String, T)>, name: Seq<char>) -> Option<T> {
    if position(list, name) < list.len() {
        Some(list[position(list, name) as int].1)
    } else {
        None
    }
}

/// Whether no two values have the same name.
pub open spec fn unique<T>(list: Seq<(String, T)>) -> bool {
    forall|i: int, j: int|
        0 <= i < j < list.len() ==> (#[trigger] list[i]).0@ != (#[trigger] list[j]).0@
}

/// What the place of a name says: the name stands there and nowhere before.
pub proof fn lemma_position<T>(list: Seq<(String, T)>, name: Seq<char>)
    ensures
        position(list, name) <= list.len(),
        position(list, name) < list.len() ==> list[position(list, name) as int].0@ == name,
        forall|i: int| 0 <= i < position(list, name) ==> (#[trigger] list[i]).0@ != name,
    decreases list.len(),
{
    if list.len() > 0 && list[0].0@ != name {
        lemma_position(list.skip(1), name);
        assert forall|i: int| 0 <= i < position(list, name) implies (#[trigger] list[i]).0@
            != name by {
            if i > 0 {
                assert(list.skip(1)[i - 1] == list[i]);
            }
        }
    }
}

/// The place at which a name stands, where it stands nowhere before.
pub proof fn lemma_position_is<T>(list: Seq<(String, T)>, name: Seq<char>, k: int)
    requires
        0 <= k <= list.len(),
        k < list.len() ==> list[k].0@ == name,
        forall|i: int| 0 <= i < k ==> (#[trigger] list[i]).0@ != name,
    ensures
        position(list, name) == k,
    decreases list.len(),
{
    if k > 0 {
        assert(list[0].0@ != name);
        assert forall|i: int| 0 <= i < k - 1 implies (#[trigger] list.skip(1)[i]).0@ != name by {
            assert(list.skip(1)[i] == list[i + 1]);
        }
        lemma_position_is(list.skip(1), name, k - 1);
    }
}

/// The place of the first value under a name.
pub fn find<T>(list: &Vec<(String, T)>, name: &str) -> (r: Option<usize>)
    ensures
        match r {
            Some(i) => i == position(list@, name@) && i < list@.len() && list@[i as int].0@ == name@
                && lookup(list@, name@) == Some(list@[i as int].1),
            None => position(list@, name@) == list@.len() && lookup(list@, name@) is None,
        },
{
    let mut i: usize = 0;
    while i < list.len()
        invariant
            i <= list@.len(),
            forall|j: int| 0 <= j < i ==> (#[trigger] list@[j]).0@ != name@,
        decreases list@.len() - i,
    {
        if text::same(list[i].0.as_str(), name) {
            proof {
                lemma_position_is(list@, name@, i as int);
            }
            return Some(i);
        }
        i += 1;
    }
    proof {
        lemma_position_is(list@, name@, i as int);
    }
    None
}

/// Whether `new` is `old` with a value put under a name: in place of the one that was there, or at
/// the end.
pub open spec fn is_put<T>(
    old: Seq<(String, T)>,
    new: Seq<(String, T)>,
    name: Seq<char>,
    value: T,
) -> bool {
    let k = position(old, name) as int;
    &&& new.len() == if k < old.len() {
        old.len()
    } else {
        old.len() + 1
    }
    &&& new[k].0@ == name
    &&& new[k].1 == value
    &&& forall|i: int| 0 <= i < old.len() && i != k ==> #[trigger] new[i] == old[i]
}

/// Puts a value under a name, in place of the one that was there.
pub fn put<T>(list: &mut Vec<(String, T)>, name: String, value: T)
    ensures
        is_put(old(list)@, final(list)@, name@, value),
        unique(old(list)@) ==> unique(final(list)@),
        lookup(final(list)@, name@) == Some(value),
        forall|other: Seq<char>|
            other != name@ ==> #[trigger] lookup(final(list)@, other) == lookup(old(list)@, other),
{
    let ghost before = list@;
    let ghost key = name@;
    match find(list, name.as_str()) {
        Some(i) => {
            let (kept, _gone) = list.remove(i);
            list.insert(i, (kept, value));
        },
        None => {
            list.push((name, value));
        },
    }
    proof {
        lemma_put(before, list@, key, value);
    }
}

/// What putting a value under a name does to what is looked up.
pub proof fn lemma_put<T>(
    old: Seq<(String, T)>,
    new: Seq<(String, T)>,
    name: Seq<char>,
    value: T,
)
    requires
        is_put(old, new, name, value),
    ensures
        unique(old) ==> unique(new),
        lookup(new, name) == Some(value),
        forall|other: Seq<char>|
            other != name ==> #[trigger] lookup(new, other) == lookup(old, other),
{
    lemma_position(old, name);
    let k = position(old, name) as int;
    lemma_position_is(new, name, k);
    assert forall|other: Seq<char>| other != name implies #[trigger] lookup(new, other) == lookup(
        old,
        other,
    ) by {
        lemma_position(old, other);
        let p = position(old, other) as int;
        if p < old.len() {
            assert forall|i: int| 0 <= i < p implies (#[trigger] new[i]).0@ != other by {
                if i != k {
                    assert(new[i] == old[i]);
                }
            }
            assert(p != k);
            assert(new[p] == old[p]);
            lemma_position_is(new, other, p);
        } else {
            assert forall|i: int| 0 <= i < new.len() implies (#[trigger] new[i]).0@ != other by {
                if i != k {
                    assert(new[i] == old[i]);
                }
            }
            lemma_position_is(new, other, new.len() as int);
        }
    }
    if unique(old) {
        assert forall|i: int, j: int| 0 <= i < j < new.len() implies (#[trigger] new[i]).0@ != (
        #[trigger] new[j]).0@ by {
            if i != k {
                assert(new[i] == old[i]);
            }
            if j != k {
                assert(new[j] == old[j]);
            }
            if k == i {
                if k < old.len() {
                    assert(old[k].0@ == name);
                }
            }
            if k == j && k < old.len() {
                assert(old[k].0@ == name);
            }
        }
    }
}

/// Takes the value under a name out of a list in which no two have the same name.
pub fn take<T>(list: &mut Vec<(String, T)>, name: &str) -> (r: Option<T>)
    requires
        unique(old(list)@),
    ensures
        r == lookup(old(list)@, name@),
        unique(final(list)@),
        lookup(final(list)@, name@) is None,
        forall|other: Seq<char>|
            other != name@ ==> #[trigger] lookup(final(list)@, other) == lookup(old(list)@, other),
{
    match find(list, name) {
        Some(i) => {
            let ghost before = list@;
            let (_gone, value) = list.remove(i);
            proof {
                lemma_take(before, i as int);
            }
            Some(value)
        },
        None => None,
    }
}

/// What taking a value out does to what is looked up.
pub proof fn lemma_take<T>(old: Seq<(String, T)>, k: int)
    requires
        unique(old),
        0 <= k < old.len(),
    ensures
        unique(old.remove(k)),
        lookup(old.remove(k), old[k].0@) is None,
        forall|other: Seq<char>|
            other != old[k].0@ ==> #[trigger] lookup(old.remove(k), other) == lookup(old, other),
{
    let new = old.remove(k);
    let name = old[k].0@;
    assert forall|i: int| 0 <= i < new.len() implies (#[trigger] new[i]).0@ != name by {
        if i < k {
            assert(new[i] == old[i]);
        } else {
            assert(new[i] == old[i + 1]);
        }
    }
    lemma_position_is(new, name, new.len() as int);
    assert forall|other: Seq<char>| other != name implies #[trigger] lookup(new, other) == lookup(
        old,
        other,
    ) by {
        lemma_position(old, other);
        let p = position(old, other) as int;
        if p < old.len() {
            assert(p != k);
            let q = if p < k {
                p
            } else {
                p - 1
            };
            assert forall|i: int| 0 <= i < q implies (#[trigger] new[i]).0@ != other by {
                if i < k {
                    assert(new[i] == old[i]);
                } else {
                    assert(new[i] == old[i + 1]);
                }
            }
            assert(new[q] == old[p]);
            lemma_position_is(new, other, q);
        } else {
            assert forall|i: int| 0 <= i < new.len() implies (#[trigger] new[i]).0@ != other by {
                if i < k {
                    assert(new[i] == old[i]);
                } else {
                    assert(new[i] == old[i + 1]);
                }
            }
            lemma_position_is(new, other, new.len() as int);
        }
    }
}

/// A name stands for the value that was given it first.
pub proof fn law_first_value_counts<T>(list: Seq<(String, T)>, k: int)
    requires
        0 <= k < list.len(),
        forall|i: int| 0 <= i < k ==> (#[trigger] list[i]).0@ != list[k].0@,
    ensures
        lookup(list, list[k].0@) == Some(list[k].1),
{
    lemma_position_is(list, list[k].0@, k);
}

/// A name that nothing has stands for nothing.
pub proof fn law_unused_name_stands_for_nothing<T>(list: Seq<(String, T)>, name: Seq<char>)
    requires
        forall|i: int| 0 <= i < list.len() ==> (#[trigger] list[i]).0@ != name,
    ensures
        lookup(list, name) is None,
{
    lemma_position_is(list, name, list.len() as int);
}

} // verus!
