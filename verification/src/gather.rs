//! What a scan keeps of a list of matches: the values that could be read,
//! each once.

use vstd::prelude::*;

verus! {

/// The values that `read` yields on the items of a list.
pub open spec fn gathered<A, B>(items: Seq<A>, read: spec_fn(A) -> Option<B>) -> Set<B> {
    Set::new(|b: B| exists|i: int| 0 <= i < items.len() && read(#[trigger] items[i]) == Some(b))
}

/// Nothing is gathered from an empty list.
pub proof fn lemma_gathered_empty<A, B>(read: spec_fn(A) -> Option<B>)
    ensures
        gathered(Seq::<A>::empty(), read) == Set::<B>::empty(),
{
    assert(gathered(Seq::<A>::empty(), read) =~= Set::<B>::empty());
}

/// One more item adds the value read from it, if there is one.
pub proof fn lemma_gathered_push<A, B>(items: Seq<A>, read: spec_fn(A) -> Option<B>, item: A)
    ensures
        gathered(items.push(item), read) == match read(item) {
            Some(b) => gathered(items, read).insert(b),
            None => gathered(items, read),
        },
{
    let longer = items.push(item);
    let expected = match read(item) {
        Some(b) => gathered(items, read).insert(b),
        None => gathered(items, read),
    };
    assert forall|b: B| gathered(longer, read).contains(b) <==> expected.contains(b) by {
        if gathered(longer, read).contains(b) {
            let i = choose|i: int| 0 <= i < longer.len() && read(#[trigger] longer[i]) == Some(b);
            if i < items.len() {
                assert(items[i] == longer[i]);
            }
        }
        if gathered(items, read).contains(b) {
            let i = choose|i: int| 0 <= i < items.len() && read(#[trigger] items[i]) == Some(b);
            assert(longer[i] == items[i]);
        }
        if read(item) == Some(b) {
            assert(longer[items.len() as int] == item);
        }
    }
    assert(gathered(longer, read) =~= expected);
}

/// The first value that `read` yields on the items of a list, going from
/// left to right.
pub open spec fn first_found<A, B>(items: Seq<A>, read: spec_fn(A) -> Option<B>) -> Option<B>
    decreases items.len(),
{
    if items.len() == 0 {
        None
    } else if read(items[0]) is Some {
        read(items[0])
    } else {
        first_found(items.drop_first(), read)
    }
}

/// The first item that yields a value decides: whatever stands after it in
/// the list is ignored.
pub proof fn lemma_first_found_at<A, B>(items: Seq<A>, read: spec_fn(A) -> Option<B>, at: int)
    requires
        0 <= at < items.len(),
        read(items[at]) is Some,
        forall|j: int| 0 <= j < at ==> read(#[trigger] items[j]) is None,
    ensures
        first_found(items, read) == read(items[at]),
    decreases at,
{
    if at > 0 {
        let rest = items.drop_first();
        assert(read(items[0]) is None);
        assert forall|j: int| 0 <= j < at - 1 implies read(#[trigger] rest[j]) is None by {
            assert(rest[j] == items[j + 1]);
        }
        assert(rest[at - 1] == items[at]);
        lemma_first_found_at(rest, read, at - 1);
    }
}

/// Where no item yields a value, none is found.
pub proof fn lemma_first_found_none<A, B>(items: Seq<A>, read: spec_fn(A) -> Option<B>)
    requires
        forall|j: int| 0 <= j < items.len() ==> read(#[trigger] items[j]) is None,
    ensures
        first_found(items, read) is None,
    decreases items.len(),
{
    if items.len() > 0 {
        let rest = items.drop_first();
        assert(read(items[0]) is None);
        assert forall|j: int| 0 <= j < rest.len() implies read(#[trigger] rest[j]) is None by {
            assert(rest[j] == items[j + 1]);
        }
        lemma_first_found_none(rest, read);
    }
}

} // verus!
