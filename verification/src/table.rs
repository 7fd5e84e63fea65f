//! Tables keyed by a natural id.
//!
//! A table is a list of rows in strictly ascending order of their keys, so
//! that no key occurs twice. Keys are compared as the store compares text:
//! byte by byte over their UTF-8 encoding. Inserting a row whose key is
//! present changes nothing.

use vstd::prelude::*;
use vstd::string::*;
use vstd::utf8::{encode_utf8, encode_utf8_decode_utf8};

verus! {

/// Whether `a` comes before `b` in the order of byte strings: at the first
/// place where they differ `a` has the smaller byte, or `a` ends there and
/// `b` does not.
pub open spec fn bytes_before(a: Seq<u8>, b: Seq<u8>) -> bool
    decreases a.len(),
{
    if b.len() == 0 {
        false
    } else if a.len() == 0 {
        true
    } else if a[0] != b[0] {
        a[0] < b[0]
    } else {
        bytes_before(a.drop_first(), b.drop_first())
    }
}

/// Whether the key `a` comes before the key `b`.
pub open spec fn precedes(a: Seq<char>, b: Seq<char>) -> bool {
    bytes_before(encode_utf8(a), encode_utf8(b))
}

proof fn lemma_bytes_irreflexive(a: Seq<u8>)
    ensures
        !bytes_before(a, a),
    decreases a.len(),
{
    if a.len() > 0 {
        lemma_bytes_irreflexive(a.drop_first());
    }
}

proof fn lemma_bytes_transitive(a: Seq<u8>, b: Seq<u8>, c: Seq<u8>)
    requires
        bytes_before(a, b),
        bytes_before(b, c),
    ensures
        bytes_before(a, c),
    decreases a.len(),
{
    if a.len() > 0 && a[0] == b[0] && b[0] == c[0] {
        lemma_bytes_transitive(a.drop_first(), b.drop_first(), c.drop_first());
    }
}

proof fn lemma_bytes_total(a: Seq<u8>, b: Seq<u8>)
    ensures
        a == b || bytes_before(a, b) || bytes_before(b, a),
    decreases a.len(),
{
    if a.len() > 0 && b.len() > 0 && a[0] == b[0] {
        lemma_bytes_total(a.drop_first(), b.drop_first());
        if a.drop_first() == b.drop_first() {
            assert(a =~= seq![a[0]] + a.drop_first());
            assert(b =~= seq![b[0]] + b.drop_first());
        }
    } else if a.len() == 0 && b.len() == 0 {
        assert(a =~= b);
    }
}

/// Comparing from place `i` on decides the order of two byte strings that
/// agree before `i`.
proof fn lemma_bytes_skip(a: Seq<u8>, b: Seq<u8>, i: int)
    requires
        0 <= i <= a.len(),
        i <= b.len(),
        a.take(i) == b.take(i),
    ensures
        bytes_before(a, b) == bytes_before(a.skip(i), b.skip(i)),
    decreases i,
{
    if i > 0 {
        assert(a[0] == a.take(i)[0]);
        assert(b[0] == b.take(i)[0]);
        assert(a.drop_first().take(i - 1) =~= a.take(i).drop_first());
        assert(b.drop_first().take(i - 1) =~= b.take(i).drop_first());
        lemma_bytes_skip(a.drop_first(), b.drop_first(), i - 1);
        assert(a.drop_first().skip(i - 1) =~= a.skip(i));
        assert(b.drop_first().skip(i - 1) =~= b.skip(i));
    } else {
        assert(a.skip(0) =~= a);
        assert(b.skip(0) =~= b);
    }
}

/// No key comes before itself.
pub proof fn lemma_precedes_irreflexive(a: Seq<char>)
    ensures
        !precedes(a, a),
{
    lemma_bytes_irreflexive(encode_utf8(a));
}

/// The order of keys is transitive.
pub proof fn lemma_precedes_transitive(a: Seq<char>, b: Seq<char>, c: Seq<char>)
    requires
        precedes(a, b),
        precedes(b, c),
    ensures
        precedes(a, c),
{
    lemma_bytes_transitive(encode_utf8(a), encode_utf8(b), encode_utf8(c));
}

/// Of two different keys one comes before the other.
pub proof fn lemma_precedes_total(a: Seq<char>, b: Seq<char>)
    ensures
        a == b || precedes(a, b) || precedes(b, a),
{
    lemma_bytes_total(encode_utf8(a), encode_utf8(b));
    encode_utf8_decode_utf8(a);
    encode_utf8_decode_utf8(b);
}

/// No two keys come before each other.
pub proof fn lemma_precedes_asymmetric(a: Seq<char>, b: Seq<char>)
    requires
        precedes(a, b),
    ensures
        !precedes(b, a),
        a != b,
{
    if precedes(b, a) {
        lemma_precedes_transitive(a, b, a);
    }
    lemma_precedes_irreflexive(a);
}

/// How one key stands to another.
#[derive(Clone, Copy, Debug, PartialEq, Eq, Structural)]
pub enum Order {
    Before,
    Same,
    After,
}

/// How the key `a` stands to the key `b`.
pub open spec fn order_of(a: Seq<char>, b: Seq<char>) -> Order {
    if a == b {
        Order::Same
    } else if precedes(a, b) {
        Order::Before
    } else {
        Order::After
    }
}

/// Compares two keys byte by byte.
pub fn compare_keys(a: &str, b: &str) -> (order: Order)
    ensures
        order == order_of(a@, b@),
        order == Order::After ==> precedes(b@, a@),
{
    let x = a.as_bytes();
    let y = b.as_bytes();
    let ghost xs = encode_utf8(a@);
    let ghost ys = encode_utf8(b@);
    let mut i: usize = 0;
    while i < x.len() && i < y.len()
        invariant
            x@ == xs,
            y@ == ys,
            xs == encode_utf8(a@),
            ys == encode_utf8(b@),
            i <= xs.len(),
            i <= ys.len(),
            xs.take(i as int) == ys.take(i as int),
        decreases xs.len() - i,
    {
        if x[i] != y[i] {
            proof {
                lemma_bytes_skip(xs, ys, i as int);
                lemma_bytes_skip(ys, xs, i as int);
                assert(xs.skip(i as int)[0] == xs[i as int]);
                assert(ys.skip(i as int)[0] == ys[i as int]);
                assert(xs != ys);
                if precedes(a@, b@) {
                    lemma_precedes_asymmetric(a@, b@);
                }
            }
            if x[i] < y[i] {
                return Order::Before;
            } else {
                return Order::After;
            }
        }
        assert(xs.take(i + 1) =~= xs.take(i as int).push(xs[i as int]));
        assert(ys.take(i + 1) =~= ys.take(i as int).push(ys[i as int]));
        i += 1;
    }
    proof {
        lemma_bytes_skip(xs, ys, i as int);
        lemma_bytes_skip(ys, xs, i as int);
        lemma_precedes_irreflexive(a@);
        if precedes(a@, b@) {
            lemma_precedes_asymmetric(a@, b@);
        }
        if i == xs.len() && i == ys.len() {
            assert(xs.take(i as int) =~= xs);
            assert(ys.take(i as int) =~= ys);
            encode_utf8_decode_utf8(a@);
            encode_utf8_decode_utf8(b@);
        } else {
            assert(xs.len() != ys.len());
        }
    }
    if x.len() == y.len() {
        Order::Same
    } else if x.len() < y.len() {
        Order::Before
    } else {
        Order::After
    }
}

/// Whether two texts are the same.
pub fn str_equal(a: &str, b: &str) -> (same: bool)
    ensures
        same == (a@ == b@),
{
    compare_keys(a, b) == Order::Same
}

/// A row that a table can hold: its key is one of its columns.
pub trait Keyed: DeepView + Sized {
    /// The key of a row.
    spec fn key_of(row: Self::V) -> Seq<char>;

    /// The key of this row.
    fn key(&self) -> (key: &str)
        ensures
            key@ == Self::key_of(self.deep_view()),
    ;
}

/// Whether the rows are in strictly ascending order of their keys.
pub open spec fn ascending<R: Keyed>(rows: Seq<R::V>) -> bool {
    forall|i: int, j: int|
        0 <= i < j < rows.len() ==> precedes(
            R::key_of(#[trigger] rows[i]),
            R::key_of(#[trigger] rows[j]),
        )
}

/// Whether one of the rows has the given key.
pub open spec fn has_key<R: Keyed>(rows: Seq<R::V>, key: Seq<char>) -> bool {
    exists|i: int| 0 <= i < rows.len() && R::key_of(#[trigger] rows[i]) == key
}

/// The number of rows whose key comes before the given key. In a table this
/// is where a row of that key stands or would stand.
pub open spec fn rank<R: Keyed>(rows: Seq<R::V>, key: Seq<char>) -> int
    decreases rows.len(),
{
    if rows.len() == 0 {
        0
    } else {
        rank::<R>(rows.drop_last(), key) + if precedes(R::key_of(rows.last()), key) {
            1int
        } else {
            0int
        }
    }
}

/// The table after a row is inserted with conflicts ignored: where its key is
/// present nothing changes, else the row takes its place in the order.
pub open spec fn insert_ignore<R: Keyed>(rows: Seq<R::V>, row: R::V) -> Seq<R::V> {
    if has_key::<R>(rows, R::key_of(row)) {
        rows
    } else {
        rows.insert(rank::<R>(rows, R::key_of(row)), row)
    }
}

/// The table after a list of rows is inserted one after the other with
/// conflicts ignored. Of two new rows with one key the first is kept.
pub open spec fn insert_all_ignore<R: Keyed>(rows: Seq<R::V>, new: Seq<R::V>) -> Seq<R::V>
    decreases new.len(),
{
    if new.len() == 0 {
        rows
    } else {
        insert_ignore::<R>(insert_all_ignore::<R>(rows, new.drop_last()), new.last())
    }
}

/// In a table, the rank of a key is the place before which all keys come
/// before it, and from which on none does.
pub proof fn lemma_rank<R: Keyed>(rows: Seq<R::V>, key: Seq<char>)
    requires
        ascending::<R>(rows),
    ensures
        0 <= rank::<R>(rows, key) <= rows.len(),
        forall|i: int|
            0 <= i < rank::<R>(rows, key) ==> precedes(R::key_of(#[trigger] rows[i]), key),
        forall|i: int|
            rank::<R>(rows, key) <= i < rows.len() ==> !precedes(R::key_of(#[trigger] rows[i]), key),
    decreases rows.len(),
{
    if rows.len() > 0 {
        let init = rows.drop_last();
        let last = rows.len() - 1;
        assert forall|i: int, j: int| 0 <= i < j < init.len() implies precedes(
            R::key_of(#[trigger] init[i]),
            R::key_of(#[trigger] init[j]),
        ) by {
            assert(init[i] == rows[i] && init[j] == rows[j]);
        }
        lemma_rank::<R>(init, key);
        let r = rank::<R>(init, key);
        if precedes(R::key_of(rows.last()), key) {
            // every earlier key comes before the last one, hence before `key`
            assert forall|i: int| 0 <= i < init.len() implies precedes(
                R::key_of(#[trigger] init[i]),
                key,
            ) by {
                assert(init[i] == rows[i]);
                lemma_precedes_transitive(R::key_of(rows[i]), R::key_of(rows[last]), key);
            }
            if r < init.len() {
                assert(!precedes(R::key_of(init[r]), key));
            }
            assert(r == init.len());
            assert forall|i: int| 0 <= i < r + 1 implies precedes(
                R::key_of(#[trigger] rows[i]),
                key,
            ) by {
                if i < last {
                    assert(init[i] == rows[i]);
                }
            }
        } else {
            assert forall|i: int| 0 <= i < r implies precedes(
                R::key_of(#[trigger] rows[i]),
                key,
            ) by {
                assert(init[i] == rows[i]);
            }
            assert forall|i: int| r <= i < rows.len() implies !precedes(
                R::key_of(#[trigger] rows[i]),
                key,
            ) by {
                if i < last {
                    assert(init[i] == rows[i]);
                }
            }
        }
    }
}

/// Inserting a row keeps a table a table, makes its key present, keeps every
/// key that was present and adds no other.
pub proof fn lemma_insert_ignore<R: Keyed>(rows: Seq<R::V>, row: R::V)
    requires
        ascending::<R>(rows),
    ensures
        ascending::<R>(insert_ignore::<R>(rows, row)),
        has_key::<R>(insert_ignore::<R>(rows, row), R::key_of(row)),
        forall|key: Seq<char>|
            has_key::<R>(insert_ignore::<R>(rows, row), key) <==> (has_key::<R>(rows, key) || key
                == R::key_of(row)),
        insert_ignore::<R>(rows, row).len() == rows.len() + if has_key::<R>(
            rows,
            R::key_of(row),
        ) {
            0int
        } else {
            1int
        },
{
    let key = R::key_of(row);
    let after = insert_ignore::<R>(rows, row);
    lemma_rank::<R>(rows, key);
    let r = rank::<R>(rows, key);
    if !has_key::<R>(rows, key) {
        assert forall|i: int, j: int| 0 <= i < j < after.len() implies precedes(
            R::key_of(#[trigger] after[i]),
            R::key_of(#[trigger] after[j]),
        ) by {
            if j == r {
                assert(after[i] == rows[i]);
            } else if i == r {
                assert(after[j] == rows[j - 1]);
                lemma_precedes_total(R::key_of(rows[j - 1]), key);
            } else {
                let oi = if i < r {
                    i
                } else {
                    i - 1
                };
                let oj = if j < r {
                    j
                } else {
                    j - 1
                };
                assert(after[i] == rows[oi] && after[j] == rows[oj]);
            }
        }
        assert(after[r] == row);
        assert forall|k: Seq<char>| has_key::<R>(after, k) <==> (has_key::<R>(rows, k) || k
            == key) by {
            if has_key::<R>(after, k) {
                let i = choose|i: int| 0 <= i < after.len() && R::key_of(#[trigger] after[i]) == k;
                if i < r {
                    assert(after[i] == rows[i]);
                } else if i > r {
                    assert(after[i] == rows[i - 1]);
                }
            }
            if has_key::<R>(rows, k) {
                let i = choose|i: int| 0 <= i < rows.len() && R::key_of(#[trigger] rows[i]) == k;
                if i < r {
                    assert(after[i] == rows[i]);
                } else {
                    assert(after[i + 1] == rows[i]);
                }
            }
        }
    }
}

/// Inserting a list of rows keeps a table a table; afterwards the keys
/// present are those that were present and those of the new rows.
pub proof fn lemma_insert_all_ignore<R: Keyed>(rows: Seq<R::V>, new: Seq<R::V>)
    requires
        ascending::<R>(rows),
    ensures
        ascending::<R>(insert_all_ignore::<R>(rows, new)),
        forall|key: Seq<char>|
            has_key::<R>(insert_all_ignore::<R>(rows, new), key) <==> (has_key::<R>(rows, key)
                || has_key::<R>(new, key)),
        rows.len() <= insert_all_ignore::<R>(rows, new).len() <= rows.len() + new.len(),
    decreases new.len(),
{
    if new.len() > 0 {
        let init = new.drop_last();
        lemma_insert_all_ignore::<R>(rows, init);
        let mid = insert_all_ignore::<R>(rows, init);
        lemma_insert_ignore::<R>(mid, new.last());
        let after = insert_all_ignore::<R>(rows, new);
        assert forall|key: Seq<char>| has_key::<R>(after, key) <==> (has_key::<R>(rows, key)
            || has_key::<R>(new, key)) by {
            if has_key::<R>(init, key) {
                let i = choose|i: int| 0 <= i < init.len() && R::key_of(#[trigger] init[i]) == key;
                assert(new[i] == init[i]);
            }
            if has_key::<R>(new, key) {
                let i = choose|i: int| 0 <= i < new.len() && R::key_of(#[trigger] new[i]) == key;
                if i < init.len() {
                    assert(new[i] == init[i]);
                }
            }
            if key == R::key_of(new.last()) {
                assert(R::key_of(new[new.len() - 1]) == key);
            }
        }
    }
}

/// Inserting rows whose keys are all present changes nothing.
pub proof fn lemma_insert_present<R: Keyed>(rows: Seq<R::V>, new: Seq<R::V>)
    requires
        forall|i: int| 0 <= i < new.len() ==> has_key::<R>(rows, R::key_of(#[trigger] new[i])),
    ensures
        insert_all_ignore::<R>(rows, new) == rows,
    decreases new.len(),
{
    if new.len() > 0 {
        let init = new.drop_last();
        assert forall|i: int| 0 <= i < init.len() implies has_key::<R>(
            rows,
            R::key_of(#[trigger] init[i]),
        ) by {
            assert(init[i] == new[i]);
        }
        lemma_insert_present::<R>(rows, init);
        assert(has_key::<R>(rows, R::key_of(new[new.len() - 1])));
    }
}

/// Importing is idempotent: inserting the same rows a second time leaves the
/// table as the first time left it, with as many rows.
pub proof fn lemma_insert_twice<R: Keyed>(rows: Seq<R::V>, new: Seq<R::V>)
    requires
        ascending::<R>(rows),
    ensures
        insert_all_ignore::<R>(insert_all_ignore::<R>(rows, new), new) == insert_all_ignore::<R>(
            rows,
            new,
        ),
        insert_all_ignore::<R>(insert_all_ignore::<R>(rows, new), new).len()
            == insert_all_ignore::<R>(rows, new).len(),
{
    lemma_insert_all_ignore::<R>(rows, new);
    let once = insert_all_ignore::<R>(rows, new);
    assert forall|i: int| 0 <= i < new.len() implies has_key::<R>(
        once,
        R::key_of(#[trigger] new[i]),
    ) by {
        assert(has_key::<R>(new, R::key_of(new[i])));
    }
    lemma_insert_present::<R>(once, new);
}

/// Where the row of the given key stands in a table, or where it would
/// stand, found by halving.
pub fn locate<R: Keyed>(rows: &Vec<R>, key: &str) -> (place: (bool, usize))
    requires
        ascending::<R>(rows.deep_view()),
    ensures
        place.0 == has_key::<R>(rows.deep_view(), key@),
        place.1 == rank::<R>(rows.deep_view(), key@),
        place.1 <= rows.len(),
        place.0 ==> place.1 < rows.len() && R::key_of(rows[place.1 as int].deep_view()) == key@,
{
    let ghost views = rows.deep_view();
    proof {
        lemma_rank::<R>(views, key@);
        lemma_precedes_irreflexive(key@);
    }
    let ghost r = rank::<R>(views, key@);
    let mut low: usize = 0;
    let mut high: usize = rows.len();
    while low < high
        invariant
            views == rows.deep_view(),
            ascending::<R>(views),
            low <= r <= high <= rows.len(),
            r == rank::<R>(views, key@),
            !precedes(key@, key@),
            forall|i: int| 0 <= i < r ==> precedes(R::key_of(#[trigger] views[i]), key@),
            forall|i: int| r <= i < views.len() ==> !precedes(R::key_of(#[trigger] views[i]), key@),
            forall|i: int|
                0 <= i < views.len() && R::key_of(#[trigger] views[i]) == key@ ==> low <= i < high,
        decreases high - low,
    {
        let mid = low + (high - low) / 2;
        assert(views[mid as int] == rows[mid as int].deep_view());
        match compare_keys(rows[mid].key(), key) {
            Order::Before => {
                low = mid + 1;
            },
            Order::Same => {
                proof {
                    if mid > r {
                        // the row at the rank would come before an equal key
                        assert(!precedes(R::key_of(views[r]), key@));
                        assert(precedes(R::key_of(views[r]), R::key_of(views[mid as int])));
                    }
                }
                return (true, mid);
            },
            Order::After => {
                proof {
                    assert forall|i: int|
                        0 <= i < views.len() && R::key_of(#[trigger] views[i]) == key@ implies i
                        < mid by {
                        if i > mid {
                            assert(precedes(R::key_of(views[mid as int]), R::key_of(views[i])));
                            lemma_precedes_asymmetric(key@, R::key_of(views[mid as int]));
                        }
                    }
                }
                high = mid;
            },
        }
    }
    (false, low)
}

/// Inserting one list of rows and then another is inserting both lists at
/// once: where a list of rows is cut makes no difference to the table.
pub proof fn lemma_insert_in_parts<R: Keyed>(rows: Seq<R::V>, first: Seq<R::V>, second: Seq<R::V>)
    ensures
        insert_all_ignore::<R>(insert_all_ignore::<R>(rows, first), second)
            == insert_all_ignore::<R>(rows, first + second),
    decreases second.len(),
{
    if second.len() == 0 {
        assert(first + second =~= first);
    } else {
        lemma_insert_in_parts::<R>(rows, first, second.drop_last());
        assert((first + second).drop_last() =~= first + second.drop_last());
        assert((first + second).last() == second.last());
    }
}

/// An import that stopped part of the way can be run again: once the first
/// `done` of the rows are in, inserting all rows gives the table that
/// inserting all rows at once would have given.
pub proof fn lemma_insert_resumed<R: Keyed>(rows: Seq<R::V>, new: Seq<R::V>, done: int)
    requires
        ascending::<R>(rows),
        0 <= done <= new.len(),
    ensures
        insert_all_ignore::<R>(insert_all_ignore::<R>(rows, new.take(done)), new)
            == insert_all_ignore::<R>(rows, new),
{
    let first = new.take(done);
    let rest = new.skip(done);
    assert(first + rest =~= new);
    let some = insert_all_ignore::<R>(rows, first);
    lemma_insert_in_parts::<R>(some, first, rest);
    lemma_insert_twice::<R>(rows, first);
    lemma_insert_in_parts::<R>(rows, first, rest);
}

/// Inserts a row into a table unless its key is present. Says whether the
/// row went in.
pub fn insert_row<R: Keyed>(rows: &mut Vec<R>, row: R) -> (inserted: bool)
    requires
        ascending::<R>(old(rows).deep_view()),
    ensures
        final(rows).deep_view() == insert_ignore::<R>(old(rows).deep_view(), row.deep_view()),
        ascending::<R>(final(rows).deep_view()),
        inserted == !has_key::<R>(old(rows).deep_view(), R::key_of(row.deep_view())),
{
    let ghost before = rows.deep_view();
    proof {
        lemma_insert_ignore::<R>(before, row.deep_view());
    }
    let (found, place) = locate(rows, row.key());
    if found {
        false
    } else {
        rows.insert(place, row);
        assert(rows.deep_view() =~= before.insert(place as int, row.deep_view()));
        true
    }
}

/// Inserts a list of rows into a table, one after the other, each unless its
/// key is present.
pub fn insert_rows<R: Keyed>(rows: &mut Vec<R>, new: Vec<R>)
    requires
        ascending::<R>(old(rows).deep_view()),
    ensures
        final(rows).deep_view() == insert_all_ignore::<R>(old(rows).deep_view(), new.deep_view()),
        ascending::<R>(final(rows).deep_view()),
{
    let ghost before = rows.deep_view();
    let ghost all = new.deep_view();
    let ghost news = new@;
    for row in it: new
        invariant
            it.seq() == news,
            all == Seq::new(news.len(), |i: int| news[i].deep_view()),
            ascending::<R>(rows.deep_view()),
            rows.deep_view() == insert_all_ignore::<R>(before, all.take(it.index() as int)),
    {
        assert(all.take(it.index() + 1).drop_last() =~= all.take(it.index() as int));
        insert_row(rows, row);
    }
    assert(all.take(news.len() as int) =~= all);
}

} // verus!
