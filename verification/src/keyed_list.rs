//! Lists of items that are found by an address: the entries of the
//! aggregate whitelist by their principal, the records of the per-principal
//! whitelist by the address they live at.

use vstd::prelude::*;
use crate::address::Address;

verus! {

/// An item that is found by an address.
pub trait Keyed {
    /// The address by which the item is found.
    spec fn key(&self) -> Address;

    /// The address by which the item is found.
    fn key_address(&self) -> (k: Address)
        ensures
            k == self.key(),
    ;
}

/// Whether some item of `items` is found by `k`.
pub open spec fn has_key<T: Keyed>(items: Seq<T>, k: Address) -> bool {
    exists|i: int| 0 <= i < items.len() && (#[trigger] items[i]).key() == k
}

/// Whether `i` is the position of the first item found by `k`.
pub open spec fn is_first_match<T: Keyed>(items: Seq<T>, k: Address, i: int) -> bool {
    &&& 0 <= i < items.len()
    &&& items[i].key() == k
    &&& forall|j: int| 0 <= j < i ==> (#[trigger] items[j]).key() != k
}

/// The position of the first item found by `k`, where there is one.
pub open spec fn first_match<T: Keyed>(items: Seq<T>, k: Address) -> int {
    choose|i: int| is_first_match(items, k, i)
}

/// The first item found by `k`, or `None` where there is none.
pub open spec fn item_of<T: Keyed>(items: Seq<T>, k: Address) -> Option<T> {
    if has_key(items, k) {
        Some(items[first_match(items, k)])
    } else {
        None
    }
}

/// Whether no two items are found by the same address.
pub open spec fn unique_keys<T: Keyed>(items: Seq<T>) -> bool {
    forall|i: int, j: int|
        0 <= i < j < items.len() ==> (#[trigger] items[i]).key() != (#[trigger] items[j]).key()
}

/// The items that are not found by `k`, in their order.
pub open spec fn without_key<T: Keyed>(items: Seq<T>, k: Address) -> Seq<T> {
    items.filter(|t: T| t.key() != k)
}

proof fn lemma_first_below<T: Keyed>(items: Seq<T>, k: Address, w: int)
    requires
        0 <= w < items.len(),
        items[w].key() == k,
    ensures
        exists|i: int| is_first_match(items, k, i),
    decreases w,
{
    if exists|j: int| 0 <= j < w && (#[trigger] items[j]).key() == k {
        let j = choose|j: int| 0 <= j < w && (#[trigger] items[j]).key() == k;
        lemma_first_below(items, k, j);
    } else {
        assert(is_first_match(items, k, w));
    }
}

/// Where an address finds an item, it finds a first one.
pub proof fn lemma_has_first<T: Keyed>(items: Seq<T>, k: Address)
    requires
        has_key(items, k),
    ensures
        is_first_match(items, k, first_match(items, k)),
{
    let w = choose|i: int| 0 <= i < items.len() && (#[trigger] items[i]).key() == k;
    lemma_first_below(items, k, w);
}

/// The first item found by an address sits at one position only.
pub proof fn lemma_first_match_unique<T: Keyed>(items: Seq<T>, k: Address, i: int)
    requires
        is_first_match(items, k, i),
    ensures
        has_key(items, k),
        first_match(items, k) == i,
        item_of(items, k) == Some(items[i]),
{
    let f = first_match(items, k);
    assert(is_first_match(items, k, f));
    if f < i {
        assert(items[f].key() != k);
    }
    if i < f {
        assert(items[i].key() != k);
    }
}

/// What appending an item does to what an address finds.
pub proof fn lemma_item_of_push<T: Keyed>(items: Seq<T>, item: T, k: Address)
    ensures
        has_key(items.push(item), k) <==> has_key(items, k) || item.key() == k,
        has_key(items, k) ==> item_of(items.push(item), k) == item_of(items, k),
        !has_key(items, k) && item.key() == k ==> item_of(items.push(item), k) == Some(item),
        !has_key(items, k) && item.key() != k ==> item_of(items.push(item), k) is None,
{
    let grown = items.push(item);
    if has_key(items, k) {
        let f = first_match(items, k);
        lemma_has_first(items, k);
        assert(grown[f] == items[f]);
        assert forall|j: int| 0 <= j < f implies (#[trigger] grown[j]).key() != k by {
            assert(items[j].key() != k);
        }
        assert(is_first_match(grown, k, f));
        lemma_first_match_unique(grown, k, f);
    } else {
        if item.key() == k {
            let n = items.len() as int;
            assert(grown[n] == item);
            assert forall|j: int| 0 <= j < n implies (#[trigger] grown[j]).key() != k by {
                assert(grown[j] == items[j]);
            }
            assert(is_first_match(grown, k, n));
            lemma_first_match_unique(grown, k, n);
        } else {
            if has_key(grown, k) {
                let i = choose|i: int| 0 <= i < grown.len() && (#[trigger] grown[i]).key() == k;
                if i < items.len() {
                    assert(items[i].key() == k);
                }
            }
        }
    }
}

/// Appending an item under an address that finds nothing keeps a list
/// without duplicates free of them.
pub proof fn lemma_unique_push<T: Keyed>(items: Seq<T>, item: T)
    requires
        unique_keys(items),
        !has_key(items, item.key()),
    ensures
        unique_keys(items.push(item)),
{
    let grown = items.push(item);
    assert forall|i: int, j: int| 0 <= i < j < grown.len() implies (#[trigger] grown[i]).key() != (
    #[trigger] grown[j]).key() by {
        if j < items.len() {
            assert(items[i].key() != items[j].key());
        } else {
            assert(items[i].key() != item.key());
        }
    }
}

/// Removing what an address finds leaves nothing under that address, keeps
/// what every other address finds, and keeps a list without duplicates free
/// of them; such a list shrinks by exactly the one item removed. Whatever
/// is kept was in the list.
pub proof fn lemma_without_key<T: Keyed>(items: Seq<T>, k: Address)
    ensures
        !has_key(without_key(items, k), k),
        without_key(items, k).len() <= items.len(),
        forall|other: Address|
            other != k ==> item_of(without_key(items, k), other) == #[trigger] item_of(
                items,
                other,
            ),
        unique_keys(items) ==> unique_keys(without_key(items, k)),
        unique_keys(items) && has_key(items, k) ==> without_key(items, k).len() == items.len() - 1,
        !has_key(items, k) ==> without_key(items, k) == items,
        forall|i: int|
            0 <= i < without_key(items, k).len() ==> items.contains(
                #[trigger] without_key(items, k)[i],
            ),
    decreases items.len(),
{
    reveal(Seq::filter);
    let pred = |t: T| t.key() != k;
    let out = without_key(items, k);
    if items.len() == 0 {
        assert forall|other: Address| other != k implies item_of(out, other) == #[trigger] item_of(
            items,
            other,
        ) by {}
    } else {
        let rest = items.drop_last();
        let last = items.last();
        let rest_out = without_key(rest, k);
        lemma_without_key(rest, k);
        assert(out == if pred(last) {
            rest_out.push(last)
        } else {
            rest_out
        });
        assert forall|i: int| 0 <= i < out.len() implies items.contains(#[trigger] out[i]) by {
            if i < rest_out.len() {
                assert(rest.contains(rest_out[i]));
                let j = choose|j: int| 0 <= j < rest.len() && rest[j] == rest_out[i];
                assert(items[j] == out[i]);
            } else {
                assert(items[items.len() - 1] == out[i]);
            }
        }
        if has_key(out, k) {
            let i = choose|i: int| 0 <= i < out.len() && (#[trigger] out[i]).key() == k;
            if i < rest_out.len() {
                assert(rest_out[i].key() == k);
            }
        }
        assert forall|other: Address| other != k implies item_of(out, other) == #[trigger] item_of(
            items,
            other,
        ) by {
            lemma_item_of_push(rest, last, other);
            assert(items =~= rest.push(last));
            if pred(last) {
                lemma_item_of_push(rest_out, last, other);
            } else {
                assert(last.key() != other);
            }
        }
        if unique_keys(items) {
            assert forall|i: int, j: int| 0 <= i < j < rest.len() implies (#[trigger] rest[i]).key()
                != (#[trigger] rest[j]).key() by {
                assert(items[i].key() != items[j].key());
            }
            assert(unique_keys(rest));
            if pred(last) {
                assert forall|i: int, j: int| 0 <= i < j < out.len() implies (#[trigger] out[i]).key()
                    != (#[trigger] out[j]).key() by {
                    if j < rest_out.len() {
                        assert(rest_out[i].key() != rest_out[j].key());
                    } else {
                        if out[i].key() == last.key() {
                            assert(has_key(rest_out, last.key()));
                            assert(item_of(rest_out, last.key()) == item_of(rest, last.key()));
                            assert(has_key(rest, last.key()));
                            let w = choose|w: int|
                                0 <= w < rest.len() && (#[trigger] rest[w]).key() == last.key();
                            assert(items[w].key() != items[items.len() - 1].key());
                        }
                    }
                }
            }
            if has_key(items, k) {
                if pred(last) {
                    let w = choose|w: int| 0 <= w < items.len() && (#[trigger] items[w]).key() == k;
                    assert(rest[w].key() == k);
                    assert(has_key(rest, k));
                } else {
                    if has_key(rest, k) {
                        let w = choose|w: int| 0 <= w < rest.len() && (#[trigger] rest[w]).key() == k;
                        assert(items[w].key() != items[items.len() - 1].key());
                    }
                }
            }
        }
        if !has_key(items, k) {
            assert(items[items.len() - 1].key() != k);
            if has_key(rest, k) {
                let w = choose|w: int| 0 <= w < rest.len() && (#[trigger] rest[w]).key() == k;
                assert(items[w].key() == k);
            }
            assert(out =~= items);
        }
    }
}

/// Position of the first item found by `k`.
pub fn position<T: Keyed>(items: &Vec<T>, k: &Address) -> (found: Option<usize>)
    ensures
        match found {
            Some(i) => is_first_match(items@, *k, i as int) && item_of(items@, *k) == Some(
                items@[i as int],
            ),
            None => !has_key(items@, *k) && item_of(items@, *k) is None,
        },
{
    let mut i: usize = 0;
    while i < items.len()
        invariant
            i <= items@.len(),
            forall|j: int| 0 <= j < i ==> (#[trigger] items@[j]).key() != *k,
        decreases items.len() - i,
    {
        if items[i].key_address().equals(k) {
            proof {
                lemma_first_match_unique(items@, *k, i as int);
            }
            return Some(i);
        }
        i = i + 1;
    }
    None
}

/// The items of `items` that are not found by `k`, in their order.
pub fn strip_key<T: Keyed + Copy>(items: &Vec<T>, k: &Address) -> (kept: Vec<T>)
    ensures
        kept@ == without_key(items@, *k),
{
    let mut kept: Vec<T> = Vec::new();
    let mut i: usize = 0;
    while i < items.len()
        invariant
            i <= items@.len(),
            kept@ == without_key(items@.take(i as int), *k),
        decreases items.len() - i,
    {
        proof {
            reveal(Seq::filter);
            assert(items@.take(i + 1).drop_last() =~= items@.take(i as int));
        }
        let item = items[i];
        if !item.key_address().equals(k) {
            kept.push(item);
        }
        i = i + 1;
    }
    assert(items@.take(i as int) =~= items@);
    kept
}

} // verus!
