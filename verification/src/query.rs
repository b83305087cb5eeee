use crate::error::{DbError, Error};
use vstd::prelude::*;

verus! {

/// A row of a table, found by the number in its primary key.
pub trait Row: Sized {
    /// The row's primary key.
    spec fn key(&self) -> i32;

    /// The row's primary key.
    fn row_id(&self) -> (id: i32)
        ensures
            id == self.key(),
    ;

    /// The same row once more.
    fn duplicate(&self) -> (copy: Self)
        ensures
            copy == *self,
    ;
}

/// What a statement asks of the rows that it is about.
pub trait Condition<R> {
    /// Whether the condition holds of `row`.
    spec fn holds(&self, row: R) -> bool;

    /// Whether the condition holds of `row`.
    fn test(&self, row: &R) -> (yes: bool)
        ensures
            yes == self.holds(*row),
    ;
}

/// The order in which a query hands out its rows.
pub trait SortOrder<R> {
    /// Whether `a` may stand before `b`.
    spec fn le(&self, a: R, b: R) -> bool;

    /// Whether `a` may stand before `b`.
    fn test_le(&self, a: &R, b: &R) -> (yes: bool)
        ensures
            yes == self.le(*a, *b),
    ;
}

/// The rows of which the condition holds, in table order.
pub open spec fn matching<R, C: Condition<R>>(rows: Seq<R>, condition: C) -> Seq<R> {
    rows.filter(|row: R| condition.holds(row))
}

/// The first of `rows`, or the error of a query that found none.
pub open spec fn first_row<R>(rows: Seq<R>) -> Result<R, Error> {
    if rows.len() == 0 {
        Err(Error::Db(DbError::NotFound))
    } else {
        Ok(rows[0])
    }
}

/// Of a row: its primary key is `id`.
pub open spec fn key_is<R: Row>(id: i32) -> spec_fn(R) -> bool {
    |row: R| row.key() == id
}

/// Of a row: its primary key is not `id`.
pub open spec fn key_is_not<R: Row>(id: i32) -> spec_fn(R) -> bool {
    |row: R| row.key() != id
}

/// The rows whose primary key is `id`.
pub open spec fn with_key<R: Row>(rows: Seq<R>, id: i32) -> Seq<R> {
    rows.filter(key_is(id))
}

/// The rows whose primary key is not `id`.
pub open spec fn without_key<R: Row>(rows: Seq<R>, id: i32) -> Seq<R> {
    rows.filter(key_is_not(id))
}

/// Whether no two rows share their primary key.
pub open spec fn keys_distinct<R: Row>(rows: Seq<R>) -> bool {
    forall|i: int, j: int|
        0 <= i < j < rows.len() ==> #[trigger] rows[i].key() != #[trigger] rows[j].key()
}

/// The largest primary key in use, or zero where none is larger.
pub open spec fn last_key<R: Row>(rows: Seq<R>) -> i32
    decreases rows.len(),
{
    if rows.len() == 0 {
        0
    } else if rows.last().key() > last_key(rows.drop_last()) {
        rows.last().key()
    } else {
        last_key(rows.drop_last())
    }
}

/// `rows`, already in order, with `row` put behind everything that may stand before it.
pub open spec fn place<R, O: SortOrder<R>>(order: O, rows: Seq<R>, row: R) -> Seq<R>
    decreases rows.len(),
{
    if rows.len() == 0 || order.le(rows.last(), row) {
        rows.push(row)
    } else {
        place(order, rows.drop_last(), row).push(rows.last())
    }
}

/// `rows` in the given order; rows that may stand either way round keep their places.
pub open spec fn sorted<R, O: SortOrder<R>>(order: O, rows: Seq<R>) -> Seq<R>
    decreases rows.len(),
{
    if rows.len() == 0 {
        rows
    } else {
        place(order, sorted(order, rows.drop_last()), rows.last())
    }
}

/// `rows` from the one numbered `offset` on, at most `limit` of them.
pub open spec fn window<R>(rows: Seq<R>, offset: int, limit: int) -> Seq<R>
    recommends
        offset >= 0,
        limit >= 0,
{
    let start = if offset < rows.len() { offset } else { rows.len() as int };
    let end = if start + limit < rows.len() { start + limit } else { rows.len() as int };
    rows.subrange(start, end)
}

/// What a database does with a negative offset or limit.
#[derive(Clone, Copy, Debug, PartialEq, Eq, Structural)]
pub enum NegativeBound {
    /// It fails, as PostgreSQL does.
    Refused,
    /// It goes on as if the bound had not been given, as SQLite does.
    Ignored,
}

/// What a query for `rows` from the one numbered `offset` on, at most `limit` of them, is answered.
pub open spec fn limited<R>(
    rows: Seq<R>,
    negative: NegativeBound,
    offset: int,
    limit: int,
) -> Result<Seq<R>, Error> {
    if negative == NegativeBound::Refused && (offset < 0 || limit < 0) {
        Err(Error::Db(DbError::Query))
    } else {
        let offset = if offset < 0 { 0 } else { offset };
        let limit = if limit < 0 { rows.len() as int } else { limit };
        Ok(window(rows, offset, limit))
    }
}

/// A condition may be put in other words.
pub proof fn matching_is_filter<R, C: Condition<R>>(
    rows: Seq<R>,
    condition: C,
    keep: spec_fn(R) -> bool,
)
    requires
        forall|row: R| #[trigger] condition.holds(row) == keep(row),
    ensures
        matching(rows, condition) == rows.filter(keep),
{
    assert((|row: R| condition.holds(row)) =~= keep);
}

/// One more row is looked at.
pub proof fn filter_push<R>(rows: Seq<R>, row: R, keep: spec_fn(R) -> bool)
    ensures
        rows.push(row).filter(keep) == if keep(row) {
            rows.filter(keep).push(row)
        } else {
            rows.filter(keep)
        },
{
    reveal(Seq::filter);
    assert(rows.push(row).drop_last() =~= rows);
}

/// The rows of which the condition holds, in table order.
pub fn select<R: Row, C: Condition<R>>(rows: &Vec<R>, condition: &C) -> (found: Vec<R>)
    ensures
        found@ == matching(rows@, *condition),
{
    let ghost keep = |row: R| condition.holds(row);
    let mut found: Vec<R> = Vec::new();
    let mut i: usize = 0;
    proof {
        reveal(Seq::filter);
        assert(rows@.take(0).filter(keep) =~= Seq::<R>::empty());
    }
    while i < rows.len()
        invariant
            i <= rows.len(),
            keep == (|row: R| condition.holds(row)),
            found@ == rows@.take(i as int).filter(keep),
        decreases rows.len() - i,
    {
        proof {
            filter_push(rows@.take(i as int), rows@[i as int], keep);
            assert(rows@.take(i + 1) =~= rows@.take(i as int).push(rows@[i as int]));
        }
        if condition.test(&rows[i]) {
            found.push(rows[i].duplicate());
        }
        i += 1;
    }
    assert(rows@.take(i as int) =~= rows@);
    found
}

/// The first row of which the condition holds.
pub fn first<R: Row, C: Condition<R>>(rows: &Vec<R>, condition: &C) -> (found: Result<R, Error>)
    ensures
        found == first_row(matching(rows@, *condition)),
{
    let mut hits = select(rows, condition);
    if hits.len() == 0 {
        Err(Error::Db(DbError::NotFound))
    } else {
        Ok(hits.swap_remove(0))
    }
}

/// The rows whose primary key is the number held.
pub struct KeyIs(pub i32);

impl<R: Row> Condition<R> for KeyIs {
    open spec fn holds(&self, row: R) -> bool {
        row.key() == self.0
    }

    fn test(&self, row: &R) -> bool {
        row.row_id() == self.0
    }
}

/// The rows whose primary key is not the number held.
pub struct KeyIsNot(pub i32);

impl<R: Row> Condition<R> for KeyIsNot {
    open spec fn holds(&self, row: R) -> bool {
        row.key() != self.0
    }

    fn test(&self, row: &R) -> bool {
        row.row_id() != self.0
    }
}

/// The row with primary key `id`.
pub fn get<R: Row>(rows: &Vec<R>, id: i32) -> (found: Result<R, Error>)
    ensures
        found == first_row(with_key(rows@, id)),
{
    let condition = KeyIs(id);
    proof {
        matching_is_filter(rows@, condition, key_is(id));
    }
    first(rows, &condition)
}

/// The table without the row with primary key `id`.
pub fn delete<R: Row>(rows: &Vec<R>, id: i32) -> (rest: Vec<R>)
    ensures
        rest@ == without_key(rows@, id),
{
    let condition = KeyIsNot(id);
    proof {
        matching_is_filter(rows@, condition, key_is_not(id));
    }
    select(rows, &condition)
}

/// The primary key of the next row: one more than the largest in use, where that is a number.
pub fn next_key<R: Row>(rows: &Vec<R>) -> (key: Result<i32, Error>)
    ensures
        key == if last_key(rows@) < i32::MAX {
            Ok::<i32, Error>((last_key(rows@) + 1) as i32)
        } else {
            Err(Error::Db(DbError::Query))
        },
{
    let mut last: i32 = 0;
    let mut i: usize = 0;
    while i < rows.len()
        invariant
            i <= rows.len(),
            last == last_key(rows@.take(i as int)),
        decreases rows.len() - i,
    {
        assert(rows@.take(i + 1).drop_last() =~= rows@.take(i as int));
        let id = rows[i].row_id();
        if id > last {
            last = id;
        }
        i += 1;
    }
    assert(rows@.take(i as int) =~= rows@);
    if last < i32::MAX {
        Ok(last + 1)
    } else {
        Err(Error::Db(DbError::Query))
    }
}

/// Every primary key in use is at most the last one.
pub proof fn last_key_is_largest<R: Row>(rows: Seq<R>)
    ensures
        last_key(rows) >= 0,
        forall|i: int| 0 <= i < rows.len() ==> #[trigger] rows[i].key() <= last_key(rows),
    decreases rows.len(),
{
    if rows.len() > 0 {
        last_key_is_largest(rows.drop_last());
        assert forall|i: int| 0 <= i < rows.len() implies #[trigger] rows[i].key() <= last_key(
            rows,
        ) by {
            if i < rows.len() - 1 {
                assert(rows[i] == rows.drop_last()[i]);
            }
        }
    }
}

/// Where `row` goes among rows in order.
pub proof fn place_is_insert<R, O: SortOrder<R>>(order: O, rows: Seq<R>, row: R, at: int)
    requires
        0 <= at <= rows.len(),
        at > 0 ==> order.le(rows[at - 1], row),
        forall|k: int| at <= k < rows.len() ==> !order.le(#[trigger] rows[k], row),
    ensures
        place(order, rows, row) == rows.insert(at, row),
    decreases rows.len(),
{
    if at < rows.len() {
        assert(!order.le(rows[rows.len() - 1], row));
        place_is_insert(order, rows.drop_last(), row, at);
        assert(rows.insert(at, row) =~= rows.drop_last().insert(at, row).push(rows.last()));
    } else {
        assert(rows.insert(at, row) =~= rows.push(row));
    }
}

/// The rows in the given order.
pub fn arrange<R: Row, O: SortOrder<R>>(rows: &Vec<R>, order: &O) -> (arranged: Vec<R>)
    ensures
        arranged@ == sorted(*order, rows@),
{
    let mut arranged: Vec<R> = Vec::new();
    let mut i: usize = 0;
    while i < rows.len()
        invariant
            i <= rows.len(),
            arranged@ == sorted(*order, rows@.take(i as int)),
        decreases rows.len() - i,
    {
        assert(rows@.take(i + 1).drop_last() =~= rows@.take(i as int));
        let row = rows[i].duplicate();
        let mut at: usize = arranged.len();
        while at > 0 && !order.test_le(&arranged[at - 1], &row)
            invariant
                at <= arranged.len(),
                forall|k: int|
                    at <= k < arranged.len() ==> !order.le(#[trigger] arranged@[k], row),
            decreases at,
        {
            at -= 1;
        }
        proof {
            place_is_insert(*order, arranged@, row, at as int);
        }
        arranged.insert(at, row);
        i += 1;
    }
    assert(rows@.take(i as int) =~= rows@);
    arranged
}

/// The rows from the one numbered `start` up to but not including the one numbered `end`.
fn cut<R: Row>(rows: &Vec<R>, start: usize, end: usize) -> (part: Vec<R>)
    requires
        start <= end <= rows.len(),
    ensures
        part@ == rows@.subrange(start as int, end as int),
{
    let mut part: Vec<R> = Vec::new();
    let mut i: usize = start;
    while i < end
        invariant
            start <= i <= end <= rows.len(),
            part@ == rows@.subrange(start as int, i as int),
        decreases end - i,
    {
        part.push(rows[i].duplicate());
        i += 1;
    }
    part
}

/// The rows from the one numbered `offset` on, at most `limit` of them.
pub fn fetch<R: Row>(rows: &Vec<R>, negative: NegativeBound, offset: i64, limit: i64) -> (part:
    Result<Vec<R>, Error>)
    ensures
        match part {
            Ok(part) => limited(rows@, negative, offset as int, limit as int) == Ok::<
                Seq<R>,
                Error,
            >(part@),
            Err(e) => limited(rows@, negative, offset as int, limit as int) == Err::<
                Seq<R>,
                Error,
            >(e),
        },
{
    if offset < 0 || limit < 0 {
        if let NegativeBound::Refused = negative {
            return Err(Error::Db(DbError::Query));
        }
    }
    let start: usize = if offset < 0 {
        0
    } else if (offset as i128) < rows.len() as i128 {
        offset as usize
    } else {
        rows.len()
    };
    let end: usize = if limit >= 0 && limit as i128 + (start as i128) < rows.len() as i128 {
        start + limit as usize
    } else {
        rows.len()
    };
    Ok(cut(rows, start, end))
}

/// Whether any two rows stand in the order one way or the other.
pub open spec fn is_total<R, O: SortOrder<R>>(order: O) -> bool {
    forall|a: R, b: R| #[trigger] order.le(a, b) || order.le(b, a)
}

/// Whether what may stand before a row may stand before everything behind it.
pub open spec fn is_transitive<R, O: SortOrder<R>>(order: O) -> bool {
    forall|a: R, b: R, c: R|
        #[trigger] order.le(a, b) && #[trigger] order.le(b, c) ==> order.le(a, c)
}

/// Whether no row stands before one that has to come first.
pub open spec fn is_ordered<R, O: SortOrder<R>>(order: O, rows: Seq<R>) -> bool {
    forall|i: int, j: int| 0 <= i < j < rows.len() ==> order.le(#[trigger] rows[i], #[trigger] rows[j])
}

/// A row that is put in its place is there, and the others stay.
proof fn place_keeps<R, O: SortOrder<R>>(order: O, rows: Seq<R>, row: R)
    ensures
        place(order, rows, row).to_multiset() == rows.to_multiset().insert(row),
        place(order, rows, row).len() == rows.len() + 1,
    decreases rows.len(),
{
    broadcast use vstd::seq_lib::group_to_multiset_ensures;

    if rows.len() > 0 && !order.le(rows.last(), row) {
        place_keeps(order, rows.drop_last(), row);
        assert(rows =~= rows.drop_last().push(rows.last()));
    }
}

/// A row that is put in its place leaves the order intact.
proof fn place_is_ordered<R, O: SortOrder<R>>(order: O, rows: Seq<R>, row: R)
    requires
        is_total(order),
        is_transitive(order),
        is_ordered(order, rows),
    ensures
        is_ordered(order, place(order, rows, row)),
        forall|i: int|
            0 <= i < place(order, rows, row).len() ==> (#[trigger] place(order, rows, row)[i] == row
                || rows.contains(place(order, rows, row)[i])),
    decreases rows.len(),
{
    let placed = place(order, rows, row);
    if rows.len() == 0 {
    } else if order.le(rows.last(), row) {
        assert forall|i: int, j: int| 0 <= i < j < placed.len() implies order.le(
            #[trigger] placed[i],
            #[trigger] placed[j],
        ) by {
            if j == rows.len() && i < rows.len() - 1 {
                assert(order.le(rows[i], rows[rows.len() - 1]));
            }
        }
    } else {
        let front = rows.drop_last();
        assert forall|i: int, j: int| 0 <= i < j < front.len() implies order.le(
            #[trigger] front[i],
            #[trigger] front[j],
        ) by {
            assert(order.le(rows[i], rows[j]));
        }
        place_is_ordered(order, front, row);
        place_keeps(order, front, row);
        let inner = place(order, front, row);
        assert forall|i: int, j: int| 0 <= i < j < placed.len() implies order.le(
            #[trigger] placed[i],
            #[trigger] placed[j],
        ) by {
            assert(placed[i] == inner[i]);
            if j < inner.len() {
                assert(placed[j] == inner[j]);
            } else if inner[i] != row {
                let k = choose|k: int| 0 <= k < front.len() && front[k] == inner[i];
                assert(order.le(rows[k], rows[rows.len() - 1]));
            }
        }
        assert forall|i: int| 0 <= i < placed.len() implies (#[trigger] placed[i] == row
            || rows.contains(placed[i])) by {
            if i < inner.len() {
                assert(placed[i] == inner[i]);
                if inner[i] != row {
                    let k = choose|k: int| 0 <= k < front.len() && front[k] == inner[i];
                    assert(rows[k] == placed[i]);
                }
            } else {
                assert(rows[rows.len() - 1] == placed[i]);
            }
        }
    }
}

/// Sorting loses no row, adds none and brings all into the order.
pub proof fn sorted_is_ordered<R, O: SortOrder<R>>(order: O, rows: Seq<R>)
    requires
        is_total(order),
        is_transitive(order),
    ensures
        is_ordered(order, sorted(order, rows)),
        sorted(order, rows).to_multiset() == rows.to_multiset(),
        sorted(order, rows).len() == rows.len(),
    decreases rows.len(),
{
    broadcast use vstd::seq_lib::group_to_multiset_ensures;

    if rows.len() > 0 {
        sorted_is_ordered(order, rows.drop_last());
        place_is_ordered(order, sorted(order, rows.drop_last()), rows.last());
        place_keeps(order, sorted(order, rows.drop_last()), rows.last());
        assert(rows =~= rows.drop_last().push(rows.last()));
    }
}

/// A table whose keys are distinct stays so when a row goes.
pub proof fn filter_keeps_distinct<R: Row>(rows: Seq<R>, keep: spec_fn(R) -> bool)
    requires
        keys_distinct(rows),
    ensures
        keys_distinct(rows.filter(keep)),
    decreases rows.len(),
{
    reveal(Seq::filter);
    if rows.len() > 0 {
        let front = rows.drop_last();
        filter_keeps_distinct(front, keep);
        if keep(rows.last()) {
            let kept = rows.filter(keep);
            assert(kept =~= front.filter(keep).push(rows.last()));
            assert forall|i: int, j: int| 0 <= i < j < kept.len() implies #[trigger] kept[i].key()
                != #[trigger] kept[j].key() by {
                if j == kept.len() - 1 {
                    filter_is_within(front, keep, i);
                    let k = choose|k: int| 0 <= k < front.len() && front[k] == front.filter(keep)[i];
                    assert(rows[k].key() != rows[rows.len() - 1].key());
                }
            }
        }
    }
}

/// What a query finds is in the table.
pub proof fn filter_is_within<R>(rows: Seq<R>, keep: spec_fn(R) -> bool, i: int)
    requires
        0 <= i < rows.filter(keep).len(),
    ensures
        rows.contains(rows.filter(keep)[i]),
        keep(rows.filter(keep)[i]),
    decreases rows.len(),
{
    reveal(Seq::filter);
    let front = rows.drop_last();
    if i < front.filter(keep).len() {
        filter_is_within(front, keep, i);
        let k = choose|k: int| 0 <= k < front.len() && front[k] == front.filter(keep)[i];
        assert(rows[k] == rows.filter(keep)[i]);
    } else {
        assert(rows[rows.len() - 1] == rows.filter(keep)[i]);
    }
}

/// The next row's key is new.
pub proof fn next_key_is_fresh<R: Row>(rows: Seq<R>, row: R)
    requires
        row.key() > last_key(rows),
    ensures
        with_key(rows, row.key()) == Seq::<R>::empty(),
        keys_distinct(rows) ==> keys_distinct(rows.push(row)),
{
    last_key_is_largest(rows);
    let found = with_key(rows, row.key());
    if found.len() > 0 {
        filter_is_within(rows, key_is(row.key()), 0);
        let k = choose|k: int| 0 <= k < rows.len() && rows[k] == found[0];
        assert(rows[k].key() <= last_key(rows));
    }
    assert(found =~= Seq::<R>::empty());
}

/// The first row is looked at before the others.
pub proof fn filter_first<R>(rows: Seq<R>, keep: spec_fn(R) -> bool)
    requires
        rows.len() > 0,
    ensures
        rows.filter(keep) == if keep(rows[0]) {
            seq![rows[0]] + rows.drop_first().filter(keep)
        } else {
            rows.drop_first().filter(keep)
        },
{
    let head = seq![rows[0]];
    assert(rows =~= head + rows.drop_first());
    Seq::filter_distributes_over_add(head, rows.drop_first(), keep);
    assert(head =~= Seq::<R>::empty().push(rows[0]));
    filter_push(Seq::<R>::empty(), rows[0], keep);
    filter_keeps_all(Seq::<R>::empty(), keep);
    assert(rows.filter(keep) =~= head.filter(keep) + rows.drop_first().filter(keep));
    if !keep(rows[0]) {
        assert(rows.filter(keep) =~= rows.drop_first().filter(keep));
    }
}

/// A query that every row meets hands out the table.
pub proof fn filter_keeps_all<R>(rows: Seq<R>, keep: spec_fn(R) -> bool)
    requires
        forall|i: int| 0 <= i < rows.len() ==> keep(#[trigger] rows[i]),
    ensures
        rows.filter(keep) == rows,
    decreases rows.len(),
{
    reveal(Seq::filter);
    if rows.len() > 0 {
        filter_keeps_all(rows.drop_last(), keep);
        assert(rows =~= rows.drop_last().push(rows.last()));
    }
}

/// Taking out the newest row leaves the table as it was before that row came.
pub proof fn removal_undoes_insert<R: Row>(rows: Seq<R>, row: R)
    requires
        row.key() > last_key(rows),
    ensures
        without_key(rows.push(row), row.key()) == rows,
{
    last_key_is_largest(rows);
    filter_push(rows, row, key_is_not::<R>(row.key()));
    filter_keeps_all(rows, key_is_not::<R>(row.key()));
}

/// Where the keys are distinct, taking out by key takes out one row.
pub proof fn removal_takes_one<R: Row>(rows: Seq<R>, at: int)
    requires
        keys_distinct(rows),
        0 <= at < rows.len(),
    ensures
        without_key(rows, rows[at].key()) == rows.remove(at),
{
    let other = key_is_not::<R>(rows[at].key());
    let before = rows.take(at);
    let from = rows.skip(at);
    assert(rows =~= before + from);
    Seq::filter_distributes_over_add(before, from, other);
    filter_keeps_all(before, other);
    filter_first(from, other);
    assert forall|i: int| 0 <= i < from.drop_first().len() implies other(
        #[trigger] from.drop_first()[i],
    ) by {
        assert(rows[at].key() != rows[at + 1 + i].key());
    }
    filter_keeps_all(from.drop_first(), other);
    assert(rows.remove(at) =~= before + from.drop_first());
}

/// A query for one row hands out the first that meets it, and fails where none does.
pub proof fn first_match<R>(rows: Seq<R>, keep: spec_fn(R) -> bool)
    ensures
        match first_row(rows.filter(keep)) {
            Ok(row) => {
                &&& keep(row)
                &&& exists|i: int|
                    {
                        &&& 0 <= i < rows.len()
                        &&& #[trigger] rows[i] == row
                        &&& forall|j: int| 0 <= j < i ==> !keep(#[trigger] rows[j])
                    }
            },
            Err(e) => {
                &&& e == Error::Db(DbError::NotFound)
                &&& forall|i: int| 0 <= i < rows.len() ==> !keep(#[trigger] rows[i])
            },
        },
    decreases rows.len(),
{
    reveal(Seq::filter);
    if rows.len() > 0 {
        let front = rows.drop_last();
        first_match(front, keep);
        if let Ok(row) = first_row(front.filter(keep)) {
            let i = choose|i: int|
                {
                    &&& 0 <= i < front.len()
                    &&& #[trigger] front[i] == row
                    &&& forall|j: int| 0 <= j < i ==> !keep(#[trigger] front[j])
                };
            assert(rows[i] == row);
            assert forall|j: int| 0 <= j < i implies !keep(#[trigger] rows[j]) by {
                assert(front[j] == rows[j]);
            }
        } else {
            assert forall|j: int| 0 <= j < front.len() implies !keep(#[trigger] rows[j]) by {
                assert(front[j] == rows[j]);
            }
            if keep(rows.last()) {
                assert(rows[rows.len() - 1] == rows.last());
            }
        }
    }
}

/// A query hands out a row if and only if the table has it and it meets the query.
pub proof fn filter_holds<R>(rows: Seq<R>, keep: spec_fn(R) -> bool)
    ensures
        forall|row: R| #[trigger]
            rows.filter(keep).contains(row) <==> rows.contains(row) && keep(row),
    decreases rows.len(),
{
    reveal(Seq::filter);
    if rows.len() > 0 {
        let front = rows.drop_last();
        filter_holds(front, keep);
        filter_push(front, rows.last(), keep);
        assert(rows =~= front.push(rows.last()));
        assert forall|row: R| #[trigger]
            rows.filter(keep).contains(row) <==> rows.contains(row) && keep(row) by {
            holds_pushed(front, rows.last(), row);
            holds_pushed(front.filter(keep), rows.last(), row);
        }
    }
}

/// One more row is in the table.
proof fn holds_pushed<R>(rows: Seq<R>, last: R, row: R)
    ensures
        rows.push(last).contains(row) <==> rows.contains(row) || row == last,
{
    if rows.contains(row) {
        let k = choose|k: int| 0 <= k < rows.len() && rows[k] == row;
        assert(rows.push(last)[k] == row);
    }
    assert(rows.push(last)[rows.len() as int] == last);
}

/// The last key is in use, unless it is zero.
pub proof fn last_key_is_used<R: Row>(rows: Seq<R>)
    ensures
        last_key(rows) > 0 ==> exists|i: int|
            0 <= i < rows.len() && (#[trigger] rows[i]).key() == last_key(rows),
    decreases rows.len(),
{
    if rows.len() > 0 {
        let front = rows.drop_last();
        last_key_is_used(front);
        if rows.last().key() > last_key(front) {
            assert(rows[rows.len() - 1].key() == last_key(rows));
        } else if last_key(front) > 0 {
            let i = choose|i: int|
                0 <= i < front.len() && (#[trigger] front[i]).key() == last_key(front);
            assert(rows[i].key() == last_key(rows));
        }
    }
}

/// A query hands out no more rows than there are.
pub proof fn filter_is_no_longer<R>(rows: Seq<R>, keep: spec_fn(R) -> bool)
    ensures
        rows.filter(keep).len() <= rows.len(),
    decreases rows.len(),
{
    reveal(Seq::filter);
    if rows.len() > 0 {
        filter_is_no_longer(rows.drop_last(), keep);
    }
}

} // verus!
