//! Stable ordering of the extracted records.

use crate::records::{TokenTransfer, TokenTransferView, ValueTransfer, ValueTransferView};
use vstd::prelude::*;

verus! {

/// Where a new item with key `k` goes into `items`: behind the last item
/// whose key is not above `k`, found from the end.
pub open spec fn insertion_point<T>(items: Seq<T>, key: spec_fn(T) -> int, k: int) -> int
    decreases items.len(),
{
    if items.len() == 0 {
        0
    } else if key(items.last()) <= k {
        items.len() as int
    } else {
        insertion_point(items.drop_last(), key, k)
    }
}

/// The items in ascending order of their keys, items of equal key in the
/// order in which they came.
pub open spec fn stable_sort_by<T>(items: Seq<T>, key: spec_fn(T) -> int) -> Seq<T>
    decreases items.len(),
{
    if items.len() == 0 {
        Seq::empty()
    } else {
        let sorted = stable_sort_by(items.drop_last(), key);
        sorted.insert(insertion_point(sorted, key, key(items.last())), items.last())
    }
}

/// Whether the keys of the items never fall.
pub open spec fn ascending<T>(items: Seq<T>, key: spec_fn(T) -> int) -> bool {
    forall|i: int, j: int| 0 <= i <= j < items.len() ==> key(items[i]) <= key(items[j])
}

/// The position key of a token transfer: its log index.
pub open spec fn log_index_key() -> spec_fn(TokenTransferView) -> int {
    |t: TokenTransferView| t.log_index as int
}

/// The position key of a value transfer: transaction index first, call
/// index second.
pub open spec fn call_position_key() -> spec_fn(ValueTransferView) -> int {
    |t: ValueTransferView| t.tx_index as int * 0x1_0000_0000 + t.call_index as int
}

/// Whether one value transfer stands at or before another by transaction
/// index, then call index.
pub open spec fn position_le(a: ValueTransferView, b: ValueTransferView) -> bool {
    a.tx_index < b.tx_index || (a.tx_index == b.tx_index && a.call_index <= b.call_index)
}

/// The insertion point lies within the items; in ascending items every key
/// before it is not above `k` and every key from it on is above `k`.
pub proof fn lemma_insertion_point<T>(items: Seq<T>, key: spec_fn(T) -> int, k: int)
    requires
        ascending(items, key),
    ensures
        0 <= insertion_point(items, key, k) <= items.len(),
        forall|i: int| 0 <= i < insertion_point(items, key, k) ==> key(#[trigger] items[i]) <= k,
        forall|i: int|
            insertion_point(items, key, k) <= i < items.len() ==> key(#[trigger] items[i]) > k,
    decreases items.len(),
{
    if items.len() > 0 && key(items.last()) > k {
        let rest = items.drop_last();
        assert forall|i: int, j: int| 0 <= i <= j < rest.len() implies key(rest[i]) <= key(
            rest[j],
        ) by {
            assert(rest[i] == items[i] && rest[j] == items[j]);
        }
        lemma_insertion_point(rest, key, k);
        assert forall|i: int| 0 <= i < insertion_point(items, key, k) implies key(
            #[trigger] items[i],
        ) <= k by {
            assert(items[i] == rest[i]);
        }
        assert forall|i: int| insertion_point(items, key, k) <= i < items.len() implies key(
            #[trigger] items[i],
        ) > k by {
            if i < rest.len() {
                assert(items[i] == rest[i]);
            }
        }
    }
}

/// A stable sort gives as many items as it took, in ascending order.
pub proof fn lemma_stable_sort_ascending<T>(items: Seq<T>, key: spec_fn(T) -> int)
    ensures
        stable_sort_by(items, key).len() == items.len(),
        ascending(stable_sort_by(items, key), key),
    decreases items.len(),
{
    if items.len() > 0 {
        lemma_stable_sort_ascending(items.drop_last(), key);
        let sorted = stable_sort_by(items.drop_last(), key);
        let k = key(items.last());
        let p = insertion_point(sorted, key, k);
        lemma_insertion_point(sorted, key, k);
        let out = sorted.insert(p, items.last());
        assert forall|i: int, j: int| 0 <= i <= j < out.len() implies key(out[i]) <= key(
            out[j],
        ) by {
            if i < p {
                assert(out[i] == sorted[i]);
            } else if i > p {
                assert(out[i] == sorted[i - 1]);
            }
            if j < p {
                assert(out[j] == sorted[j]);
            } else if j > p {
                assert(out[j] == sorted[j - 1]);
            }
        }
    }
}

/// A stable sort gives the items it took, each as often as it came.
pub proof fn lemma_stable_sort_permutes<T>(items: Seq<T>, key: spec_fn(T) -> int)
    ensures
        stable_sort_by(items, key).to_multiset() == items.to_multiset(),
    decreases items.len(),
{
    broadcast use vstd::seq_lib::group_to_multiset_ensures;

    if items.len() > 0 {
        lemma_stable_sort_permutes(items.drop_last(), key);
        let sorted = stable_sort_by(items.drop_last(), key);
        let k = key(items.last());
        let p = insertion_point(sorted, key, k);
        lemma_insertion_point_in_range(sorted, key, k);
        vstd::seq_lib::to_multiset_insert(sorted, p, items.last());
        vstd::seq_lib::to_multiset_build(items.drop_last(), items.last());
        assert(items.drop_last().push(items.last()) =~= items);
    }
}

/// The insertion point lies within the items.
pub proof fn lemma_insertion_point_in_range<T>(items: Seq<T>, key: spec_fn(T) -> int, k: int)
    ensures
        0 <= insertion_point(items, key, k) <= items.len(),
    decreases items.len(),
{
    if items.len() > 0 && key(items.last()) > k {
        lemma_insertion_point_in_range(items.drop_last(), key, k);
    }
}

/// The items whose key is `k`, in the order in which they stand.
pub open spec fn with_key<T>(items: Seq<T>, key: spec_fn(T) -> int, k: int) -> Seq<T>
    decreases items.len(),
{
    if items.len() == 0 {
        Seq::empty()
    } else {
        let before = with_key(items.drop_last(), key, k);
        if key(items.last()) == k {
            before.push(items.last())
        } else {
            before
        }
    }
}

/// The items of key `k` in two lists, one behind the other, are those of the
/// first followed by those of the second.
pub proof fn lemma_with_key_concat<T>(a: Seq<T>, b: Seq<T>, key: spec_fn(T) -> int, k: int)
    ensures
        with_key(a + b, key, k) == with_key(a, key, k) + with_key(b, key, k),
    decreases b.len(),
{
    if b.len() == 0 {
        assert(a + b =~= a);
        assert(with_key(a, key, k) + with_key(b, key, k) =~= with_key(a, key, k));
    } else {
        lemma_with_key_concat(a, b.drop_last(), key, k);
        assert((a + b).drop_last() =~= a + b.drop_last());
        assert((a + b).last() == b.last());
        assert(with_key(a + b, key, k) =~= with_key(a, key, k) + with_key(b, key, k));
    }
}

/// Where no item has the key `k` there are no items of key `k`.
pub proof fn lemma_with_key_none<T>(items: Seq<T>, key: spec_fn(T) -> int, k: int)
    requires
        forall|i: int| 0 <= i < items.len() ==> key(#[trigger] items[i]) != k,
    ensures
        with_key(items, key, k).len() == 0,
    decreases items.len(),
{
    if items.len() > 0 {
        let rest = items.drop_last();
        assert forall|i: int| 0 <= i < rest.len() implies key(#[trigger] rest[i]) != k by {
            assert(rest[i] == items[i]);
        }
        lemma_with_key_none(rest, key, k);
        assert(key(items[items.len() - 1]) != k);
    }
}

/// A stable sort keeps items of equal key in the order in which they came:
/// for every key, the items of that key stand in the sorted list as they
/// stood in the list that was sorted.
pub proof fn lemma_stable_sort_keeps_order<T>(items: Seq<T>, key: spec_fn(T) -> int, k: int)
    ensures
        with_key(stable_sort_by(items, key), key, k) == with_key(items, key, k),
    decreases items.len(),
{
    if items.len() > 0 {
        let rest = items.drop_last();
        let x = items.last();
        lemma_stable_sort_keeps_order(rest, key, k);
        lemma_stable_sort_ascending(rest, key);
        let sorted = stable_sort_by(rest, key);
        let p = insertion_point(sorted, key, key(x));
        lemma_insertion_point(sorted, key, key(x));
        let head = sorted.take(p);
        let tail = sorted.skip(p);
        let out = sorted.insert(p, x);
        assert(out =~= head + seq![x] + tail);
        assert(sorted =~= head + tail);
        lemma_with_key_concat(head + seq![x], tail, key, k);
        lemma_with_key_concat(head, seq![x], key, k);
        lemma_with_key_concat(head, tail, key, k);
        assert(seq![x].drop_last() =~= Seq::<T>::empty());
        assert(seq![x].last() == x);
        assert(with_key(Seq::<T>::empty(), key, k) =~= Seq::<T>::empty());
        if key(x) == k {
            assert forall|i: int| 0 <= i < tail.len() implies key(#[trigger] tail[i]) != k by {
                assert(tail[i] == sorted[p + i]);
            }
            lemma_with_key_none(tail, key, k);
            assert(with_key(seq![x], key, k) =~= seq![x]);
            assert(with_key(out, key, k) =~= with_key(head, key, k).push(x));
            assert(with_key(sorted, key, k) =~= with_key(head, key, k));
        } else {
            assert(with_key(seq![x], key, k) =~= Seq::<T>::empty());
            assert(with_key(out, key, k) =~= with_key(head, key, k) + with_key(tail, key, k));
        }
    }
}

/// The token transfers in ascending order of log index, transfers of one
/// log in the order in which they came.
pub fn sort_token_transfers(transfers: Vec<TokenTransfer>) -> (sorted: Vec<TokenTransfer>)
    ensures
        sorted.deep_view() == stable_sort_by(transfers.deep_view(), log_index_key()),
        ascending(sorted.deep_view(), log_index_key()),
        forall|i: int, j: int|
            0 <= i <= j < sorted@.len() ==> sorted@[i].log_index <= sorted@[j].log_index,
{
    let ghost all = transfers.deep_view();
    let ghost key = log_index_key();
    let mut rest = transfers;
    let mut sorted: Vec<TokenTransfer> = Vec::new();
    let ghost mut done: int = 0;
    assert(all.take(0) =~= Seq::empty());
    while rest.len() > 0
        invariant
            0 <= done <= all.len(),
            key == log_index_key(),
            rest.deep_view() == all.skip(done),
            sorted.deep_view() == stable_sort_by(all.take(done), key),
        decreases rest@.len(),
    {
        let ghost rest_before = rest.deep_view();
        let ghost rest_items = rest@;
        assert(rest_before.len() == rest@.len());
        assert(done < all.len());
        let item = rest.remove(0);
        assert(item@ == rest_before[0]);
        assert forall|i: int| 0 <= i < rest@.len() implies rest.deep_view()[i] == all.skip(
            done + 1,
        )[i] by {
            assert(rest@[i] == rest_items[i + 1]);
            assert(rest_before[i + 1] == all.skip(done)[i + 1]);
        }
        assert(rest.deep_view() =~= all.skip(done + 1));
        assert(item@ == all[done]);
        let ghost before = sorted.deep_view();
        let mut p: usize = sorted.len();
        assert(before.take(p as int) =~= before);
        while p > 0 && sorted[p - 1].log_index > item.log_index
            invariant
                p <= sorted@.len(),
                before == sorted.deep_view(),
                key == log_index_key(),
                insertion_point(before, key, key(item@)) == insertion_point(
                    before.take(p as int),
                    key,
                    key(item@),
                ),
            decreases p,
        {
            assert(before.take(p as int).drop_last() =~= before.take(p - 1));
            p -= 1;
        }
        sorted.insert(p, item);
        assert(sorted.deep_view() =~= before.insert(p as int, item@));
        proof {
            assert(all.take(done + 1).drop_last() =~= all.take(done));
            done = done + 1;
        }
    }
    assert(all.take(done) =~= all);
    proof {
        lemma_stable_sort_ascending(all, key);
        assert forall|i: int, j: int| 0 <= i <= j < sorted@.len() implies sorted@[i].log_index
            <= sorted@[j].log_index by {
            assert(key(sorted.deep_view()[i]) <= key(sorted.deep_view()[j]));
        }
    }
    sorted
}

/// The value transfers in ascending order of transaction index, then call
/// index, transfers of one position in the order in which they came.
pub fn sort_value_transfers(transfers: Vec<ValueTransfer>) -> (sorted: Vec<ValueTransfer>)
    ensures
        sorted.deep_view() == stable_sort_by(transfers.deep_view(), call_position_key()),
        ascending(sorted.deep_view(), call_position_key()),
        forall|i: int, j: int|
            0 <= i <= j < sorted@.len() ==> position_le(sorted@[i]@, sorted@[j]@),
{
    let ghost all = transfers.deep_view();
    let ghost key = call_position_key();
    let mut rest = transfers;
    let mut sorted: Vec<ValueTransfer> = Vec::new();
    let ghost mut done: int = 0;
    assert(all.take(0) =~= Seq::empty());
    while rest.len() > 0
        invariant
            0 <= done <= all.len(),
            key == call_position_key(),
            rest.deep_view() == all.skip(done),
            sorted.deep_view() == stable_sort_by(all.take(done), key),
        decreases rest@.len(),
    {
        let ghost rest_before = rest.deep_view();
        let ghost rest_items = rest@;
        assert(rest_before.len() == rest@.len());
        assert(done < all.len());
        let item = rest.remove(0);
        assert(item@ == rest_before[0]);
        assert forall|i: int| 0 <= i < rest@.len() implies rest.deep_view()[i] == all.skip(
            done + 1,
        )[i] by {
            assert(rest@[i] == rest_items[i + 1]);
            assert(rest_before[i + 1] == all.skip(done)[i + 1]);
        }
        assert(rest.deep_view() =~= all.skip(done + 1));
        assert(item@ == all[done]);
        let ghost before = sorted.deep_view();
        let mut p: usize = sorted.len();
        assert(before.take(p as int) =~= before);
        while p > 0 && (sorted[p - 1].tx_index > item.tx_index || (sorted[p - 1].tx_index
            == item.tx_index && sorted[p - 1].call_index > item.call_index))
            invariant
                p <= sorted@.len(),
                before == sorted.deep_view(),
                key == call_position_key(),
                insertion_point(before, key, key(item@)) == insertion_point(
                    before.take(p as int),
                    key,
                    key(item@),
                ),
            decreases p,
        {
            assert(before.take(p as int).drop_last() =~= before.take(p - 1));
            p -= 1;
        }
        sorted.insert(p, item);
        assert(sorted.deep_view() =~= before.insert(p as int, item@));
        proof {
            assert(all.take(done + 1).drop_last() =~= all.take(done));
            done = done + 1;
        }
    }
    assert(all.take(done) =~= all);
    proof {
        lemma_stable_sort_ascending(all, key);
        assert forall|i: int, j: int| 0 <= i <= j < sorted@.len() implies position_le(
            sorted@[i]@,
            sorted@[j]@,
        ) by {
            assert(key(sorted.deep_view()[i]) <= key(sorted.deep_view()[j]));
        }
    }
    sorted
}

} // verus!
