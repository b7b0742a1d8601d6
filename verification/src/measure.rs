//! Sizes that the columnar format bounds: the items of a list column and the
//! bytes of a text column, which it addresses with 32-bit offsets.

use vstd::prelude::*;

verus! {

/// The most items or bytes that 32-bit offsets can address.
pub const OFFSET_MAX: usize = 0x7FFF_FFFF;

/// The most rows that a column reserves room for ahead of time.
pub const MAX_RESERVE: usize = 0x10_0000;

/// Bytes of a text in UTF-8.
pub open spec fn text_bytes(text: Seq<char>) -> nat {
    vstd::utf8::encode_utf8(text).len()
}

/// Bytes of the texts among these values.
pub open spec fn texts_bytes(items: Seq<Option<Seq<char>>>) -> nat
    decreases items.len(),
{
    if items.len() == 0 {
        0
    } else {
        texts_bytes(items.drop_last()) + match items.last() {
            Some(text) => text_bytes(text),
            None => 0,
        }
    }
}

/// Items of the lists among these rows.
pub open spec fn lists_items<T>(rows: Seq<Option<Seq<Option<T>>>>) -> nat
    decreases rows.len(),
{
    if rows.len() == 0 {
        0
    } else {
        lists_items(rows.drop_last()) + match rows.last() {
            Some(list) => list.len(),
            None => 0,
        }
    }
}

/// Bytes of the texts in the lists among these rows.
pub open spec fn lists_bytes(rows: Seq<Option<Seq<Option<Seq<char>>>>>) -> nat
    decreases rows.len(),
{
    if rows.len() == 0 {
        0
    } else {
        lists_bytes(rows.drop_last()) + match rows.last() {
            Some(list) => texts_bytes(list),
            None => 0,
        }
    }
}

/// Whether a list holds a null.
pub open spec fn list_has_null<T>(list: Seq<Option<T>>) -> bool {
    exists|j: int| 0 <= j < list.len() && (#[trigger] list[j]) is None
}

/// Whether a list among these rows holds a null.
pub open spec fn lists_have_null<T>(rows: Seq<Option<Seq<Option<T>>>>) -> bool {
    exists|i: int|
        0 <= i < rows.len() && (#[trigger] rows[i]) is Some && list_has_null(rows[i]->0)
}

/// One more text adds its bytes; a null adds none.
pub proof fn lemma_texts_bytes_push(items: Seq<Option<Seq<char>>>, item: Option<Seq<char>>)
    ensures
        texts_bytes(items.push(item)) == texts_bytes(items) + match item {
            Some(text) => text_bytes(text),
            None => 0,
        },
{
    assert(items.push(item).drop_last() =~= items);
}

/// One more list adds its items; a null adds none.
pub proof fn lemma_lists_items_push<T>(
    rows: Seq<Option<Seq<Option<T>>>>,
    row: Option<Seq<Option<T>>>,
)
    ensures
        lists_items(rows.push(row)) == lists_items(rows) + match row {
            Some(list) => list.len(),
            None => 0,
        },
{
    assert(rows.push(row).drop_last() =~= rows);
}

/// One more list adds the bytes of its texts; a null adds none.
pub proof fn lemma_lists_bytes_push(
    rows: Seq<Option<Seq<Option<Seq<char>>>>>,
    row: Option<Seq<Option<Seq<char>>>>,
)
    ensures
        lists_bytes(rows.push(row)) == lists_bytes(rows) + match row {
            Some(list) => texts_bytes(list),
            None => 0,
        },
{
    assert(rows.push(row).drop_last() =~= rows);
}

/// A null is among the lists after one more exactly if it was before or is
/// in the new one.
pub proof fn lemma_lists_have_null_push<T>(
    rows: Seq<Option<Seq<Option<T>>>>,
    row: Option<Seq<Option<T>>>,
)
    ensures
        lists_have_null(rows.push(row)) == (lists_have_null(rows) || (row is Some
            && list_has_null(row->0))),
{
    let after = rows.push(row);
    if lists_have_null(rows) {
        let i = choose|i: int|
            0 <= i < rows.len() && (#[trigger] rows[i]) is Some && list_has_null(rows[i]->0);
        assert(after[i] == rows[i]);
    }
    if row is Some && list_has_null(row->0) {
        assert(after[rows.len() as int] == row);
    }
    if lists_have_null(after) {
        let i = choose|i: int|
            0 <= i < after.len() && (#[trigger] after[i]) is Some && list_has_null(after[i]->0);
        if i < rows.len() {
            assert(after[i] == rows[i]);
        }
    }
}

/// Whether a list holds a null.
pub fn has_null<T>(list: &Vec<Option<T>>) -> (yes: bool)
    ensures
        yes == list_has_null(list@),
{
    let mut i: usize = 0;
    while i < list.len()
        invariant
            i <= list.len(),
            forall|j: int| 0 <= j < i ==> (#[trigger] list@[j]) is Some,
        decreases list.len() - i,
    {
        if list[i].is_none() {
            return true;
        }
        i += 1;
    }
    false
}

/// Bytes of the texts among these values, unless they are more than
/// `OFFSET_MAX`.
pub fn bytes_of(items: &Vec<Option<String>>) -> (total: Option<usize>)
    ensures
        match total {
            Some(n) => n == texts_bytes(items.deep_view()) && n <= OFFSET_MAX,
            None => texts_bytes(items.deep_view()) > OFFSET_MAX,
        },
{
    let ghost all = items.deep_view();
    let mut total: usize = 0;
    let mut i: usize = 0;
    while i < items.len()
        invariant
            i <= items.len(),
            all == items.deep_view(),
            total == texts_bytes(all.take(i as int)),
            total <= OFFSET_MAX,
        decreases items.len() - i,
    {
        proof {
            assert(all.take(i + 1) =~= all.take(i as int).push(all[i as int]));
            lemma_texts_bytes_push(all.take(i as int), all[i as int]);
            assert(all[i as int] == items@[i as int].deep_view());
        }
        match &items[i] {
            Some(text) => {
                let n: usize = text.as_str().as_bytes().len();
                assert(n == text_bytes(text@));
                if n > OFFSET_MAX - total {
                    proof {
                        lemma_texts_bytes_grow(all, i + 1);
                    }
                    return None;
                }
                total += n;
            },
            None => {},
        }
        i += 1;
    }
    assert(all.take(items.len() as int) =~= all);
    Some(total)
}

/// The bytes of the first `n` values are no more than those of all.
pub proof fn lemma_texts_bytes_grow(items: Seq<Option<Seq<char>>>, n: int)
    requires
        0 <= n <= items.len(),
    ensures
        texts_bytes(items.take(n)) <= texts_bytes(items),
    decreases items.len() - n,
{
    if n < items.len() {
        assert(items.take(n + 1) =~= items.take(n).push(items[n]));
        lemma_texts_bytes_push(items.take(n), items[n]);
        lemma_texts_bytes_grow(items, n + 1);
    } else {
        assert(items.take(n) =~= items);
    }
}

} // verus!
