use vstd::prelude::*;

verus! {

/// Where the first item that passes the test stands in the sequence.
pub open spec fn first_place<A>(items: Seq<A>, test: spec_fn(A) -> bool) -> Option<int>
    decreases items.len(),
{
    if items.len() == 0 {
        None
    } else if test(items[0]) {
        Some(0)
    } else {
        match first_place(items.drop_first(), test) {
            Some(i) => Some(i + 1),
            None => None,
        }
    }
}

/// The first place holds an item that passes the test, and no item before
/// it does; where there is no first place, no item passes.
pub proof fn first_place_is_first<A>(items: Seq<A>, test: spec_fn(A) -> bool)
    ensures
        match first_place(items, test) {
            Some(i) => 0 <= i < items.len() && test(items[i]) && forall|j: int|
                0 <= j < i ==> !test(#[trigger] items[j]),
            None => forall|j: int| 0 <= j < items.len() ==> !test(#[trigger] items[j]),
        },
    decreases items.len(),
{
    if items.len() > 0 && !test(items[0]) {
        let rest = items.drop_first();
        first_place_is_first(rest, test);
        match first_place(rest, test) {
            Some(i) => {
                assert forall|j: int| 0 <= j < i + 1 implies !test(#[trigger] items[j]) by {
                    if j > 0 {
                        assert(rest[j - 1] == items[j]);
                    }
                }
            },
            None => {
                assert forall|j: int| 0 <= j < items.len() implies !test(#[trigger] items[j]) by {
                    if j > 0 {
                        assert(rest[j - 1] == items[j]);
                    }
                }
            },
        }
    }
}

/// A place before which no item passes the test, and which holds one that
/// does or is the end, is the first place or shows that there is none.
pub proof fn place_found<A>(items: Seq<A>, test: spec_fn(A) -> bool, i: int)
    requires
        0 <= i <= items.len(),
        forall|j: int| 0 <= j < i ==> !test(#[trigger] items[j]),
        i == items.len() || test(items[i]),
    ensures
        first_place(items, test) == (if i < items.len() {
            Some(i)
        } else {
            None
        }),
    decreases i,
{
    if i > 0 {
        let rest = items.drop_first();
        assert forall|j: int| 0 <= j < i - 1 implies !test(#[trigger] rest[j]) by {
            assert(rest[j] == items[j + 1]);
        }
        assert(!test(items[0]));
        place_found(rest, test, i - 1);
    }
}

} // verus!
