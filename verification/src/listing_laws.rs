//! What lists and tests hand out, in terms of the rows that the tables hold.
use crate::connection::Connection;
use crate::error::{DbError, Error};
use crate::instance::{ByDomain, Instance};
use crate::instance_laws::{page_is_in_order, themes_are_shared_out};
use crate::query::{
    filter_holds, filter_keeps_distinct, is_ordered, keys_distinct, sorted,
    sorted_is_ordered, window, NegativeBound, Row, SortOrder,
};
use crate::reshare::{made_by, NewestFirst, Reshare};
use crate::reshare_laws::recents_are_newest;
use crate::text::{text_le_by_first_difference, text_le_total, text_le_transitive};
use crate::themes::{theme_name, theme_names, DirEntry};
use crate::timestamp::Timestamp;
use crate::users::User;
use vstd::prelude::*;

verus! {

/// One moment is not before another if and only if it has more whole seconds, or as many and no
/// fewer nanoseconds; a fraction of a second never outweighs a second.
pub proof fn seconds_come_first(a: Timestamp, b: Timestamp, a_later: bool, b_later: bool)
    requires
        call_ensures(Timestamp::not_before, (&a, &b), a_later),
        call_ensures(Timestamp::not_before, (&b, &a), b_later),
    ensures
        a.secs > b.secs ==> a_later && !b_later,
        a.secs == b.secs && a.nanos > b.nanos ==> a_later && !b_later,
        a.secs == b.secs && a.nanos == b.nanos ==> a_later && b_later,
{
}

/// Rows that are rearranged keep distinct keys distinct.
proof fn rearranged_keys<R: Row>(rows: Seq<R>, moved: Seq<R>)
    requires
        keys_distinct(rows),
        rows.to_multiset() == moved.to_multiset(),
    ensures
        keys_distinct(moved),
{
    broadcast use vstd::seq_lib::group_to_multiset_ensures;

    assert(rows.no_duplicates()) by {
        assert forall|i: int, j: int| 0 <= i < j < rows.len() implies rows[i] != rows[j] by {
            assert(rows[i].key() != rows[j].key());
        }
    }
    rows.lemma_multiset_has_no_duplicates();
    assert forall|x: R| moved.to_multiset().contains(x) implies moved.to_multiset().count(x)
        == 1 by {
        assert(rows.to_multiset().contains(x));
    }
    moved.lemma_multiset_has_no_duplicates_conv();
    assert forall|i: int, j: int| 0 <= i < j < moved.len() implies #[trigger] moved[i].key()
        != #[trigger] moved[j].key() by {
        assert(moved.contains(moved[i]) && moved.contains(moved[j]));
        assert(rows.to_multiset().count(moved[i]) > 0 && rows.to_multiset().count(moved[j]) > 0);
        assert(rows.contains(moved[i]) && rows.contains(moved[j]));
        let p = choose|p: int| 0 <= p < rows.len() && rows[p] == moved[i];
        let q = choose|q: int| 0 <= q < rows.len() && rows[q] == moved[j];
        if p < q {
            assert(rows[p].key() != rows[q].key());
        } else if q < p {
            assert(rows[q].key() != rows[p].key());
        }
    }
}

/// The recent reshares of a user are rows of that user, none listed twice, and none of them is
/// older than one that comes after it. A row of that user is left out only where as many as asked
/// for are listed, all of them at least as new.
pub proof fn recents_by_date(
    conn: Connection,
    user: User,
    limit: i64,
    recents: Result<Vec<Reshare>, Error>,
)
    requires
        call_ensures(Reshare::get_recents_for_author, (&conn, &user, limit), recents),
    ensures
        match recents {
            Ok(rows) => {
                &&& limit >= 0 || conn.negative == NegativeBound::Ignored
                &&& limit >= 0 ==> rows@.len() <= limit
                &&& forall|i: int|
                    0 <= i < rows@.len() ==> (#[trigger] rows@[i]).user_id == user.id
                        && conn.reshares@.contains(rows@[i])
                &&& forall|i: int, j: int|
                    0 <= i < j < rows@.len() ==> {
                        ||| (#[trigger] rows@[i]).creation_date.secs > (
                        #[trigger] rows@[j]).creation_date.secs
                        ||| rows@[i].creation_date.secs == rows@[j].creation_date.secs
                            && rows@[i].creation_date.nanos >= rows@[j].creation_date.nanos
                    }
                &&& forall|k: int|
                    0 <= k < conn.reshares@.len() && (#[trigger] conn.reshares@[k]).user_id
                        == user.id && !rows@.contains(conn.reshares@[k]) ==> {
                        &&& rows@.len() == limit
                        &&& forall|i: int|
                            0 <= i < rows@.len() ==> {
                                ||| (#[trigger] rows@[i]).creation_date.secs
                                    > conn.reshares@[k].creation_date.secs
                                ||| rows@[i].creation_date.secs
                                    == conn.reshares@[k].creation_date.secs
                                    && rows@[i].creation_date.nanos
                                    >= conn.reshares@[k].creation_date.nanos
                            }
                    }
                &&& conn@.wf() ==> forall|i: int, j: int|
                    0 <= i < j < rows@.len() ==> (#[trigger] rows@[i]).id != (
                    #[trigger] rows@[j]).id
            },
            Err(e) => {
                &&& limit < 0
                &&& conn.negative == NegativeBound::Refused
                &&& e == Error::Db(DbError::Query)
            },
        },
{
    broadcast use vstd::seq_lib::group_to_multiset_ensures;

    recents_are_newest(conn@, user.id, limit as int);
    if let Ok(rows) = recents {
        let made = conn.reshares@.filter(made_by(user.id));
        let newest = sorted(NewestFirst, made);
        assert(forall|a: Reshare, b: Reshare| #[trigger]
            NewestFirst.le(a, b) || NewestFirst.le(b, a));
        sorted_is_ordered(NewestFirst, made);
        let rest = newest.skip(rows@.len() as int);
        filter_holds(conn.reshares@, made_by(user.id));
        assert(rows@ + rest =~= newest);
        assert forall|i: int| 0 <= i < rows@.len() implies (#[trigger] rows@[i]).user_id == user.id
            && conn.reshares@.contains(rows@[i]) by {
            assert(conn@.reshares.contains(rows@[i]));
        }
        assert forall|i: int, j: int| 0 <= i < j < rows@.len() implies {
            ||| (#[trigger] rows@[i]).creation_date.secs > (#[trigger] rows@[j]).creation_date.secs
            ||| rows@[i].creation_date.secs == rows@[j].creation_date.secs
                && rows@[i].creation_date.nanos >= rows@[j].creation_date.nanos
        } by {
            assert(NewestFirst.le(rows@[i], rows@[j]));
        }
        assert forall|k: int|
            0 <= k < conn.reshares@.len() && (#[trigger] conn.reshares@[k]).user_id == user.id
                && !rows@.contains(conn.reshares@[k]) implies {
            &&& rows@.len() == limit
            &&& forall|i: int|
                0 <= i < rows@.len() ==> {
                    ||| (#[trigger] rows@[i]).creation_date.secs
                        > conn.reshares@[k].creation_date.secs
                    ||| rows@[i].creation_date.secs == conn.reshares@[k].creation_date.secs
                        && rows@[i].creation_date.nanos >= conn.reshares@[k].creation_date.nanos
                }
        } by {
            let row = conn.reshares@[k];
            assert(conn.reshares@.contains(row));
            assert(made.contains(row));
            assert(newest.to_multiset().count(row) > 0);
            assert(newest.contains(row));
            let at = choose|at: int| 0 <= at < newest.len() && newest[at] == row;
            if at < rows@.len() {
                assert(rows@[at] == row);
            }
            assert(rest[at - rows@.len()] == row);
        }
        if conn@.wf() {
            filter_keeps_distinct(conn.reshares@, made_by(user.id));
            rearranged_keys(made, newest);
            assert forall|i: int, j: int| 0 <= i < j < rows@.len() implies (
            #[trigger] rows@[i]).id != (#[trigger] rows@[j]).id by {
                assert(newest[i].key() != newest[j].key());
            }
        }
    }
}

/// The order of domains is one, so sorting by it works.
proof fn sorted_by_domain(conn: Connection)
    ensures
        is_ordered(ByDomain, sorted(ByDomain, conn.instances@)),
        sorted(ByDomain, conn.instances@).to_multiset() == conn.instances@.to_multiset(),
        sorted(ByDomain, conn.instances@).len() == conn.instances@.len(),
{
    assert forall|a: Instance, b: Instance| #[trigger] ByDomain.le(a, b) || ByDomain.le(b, a) by {
        text_le_total(a.public_domain@, b.public_domain@);
    }
    assert forall|a: Instance, b: Instance, c: Instance| #[trigger]
        ByDomain.le(a, b) && #[trigger] ByDomain.le(b, c) implies ByDomain.le(a, c) by {
        text_le_transitive(a.public_domain@, b.public_domain@, c.public_domain@);
    }
    sorted_is_ordered(ByDomain, conn.instances@);
}

/// A page lists rows of the table, none twice. Of two of them, wherever the domains agree so far and
/// that of the first goes on, that of the other goes on with no smaller code point.
pub proof fn page_by_domain(
    conn: Connection,
    range: (i32, i32),
    page: Result<Vec<Instance>, Error>,
)
    requires
        call_ensures(Instance::page, (&conn, range), page),
    ensures
        match page {
            Ok(rows) => {
                &&& conn.negative == NegativeBound::Ignored || 0 <= range.0 <= range.1
                &&& forall|i: int|
                    0 <= i < rows@.len() ==> conn.instances@.contains(#[trigger] rows@[i])
                &&& forall|i: int, j: int, k: int|
                    #![trigger rows@[i], rows@[j].public_domain@.take(k)]
                    {
                        &&& 0 <= i < j < rows@.len()
                        &&& 0 <= k < rows@[i].public_domain@.len()
                        &&& k <= rows@[j].public_domain@.len()
                        &&& rows@[i].public_domain@.take(k) == rows@[j].public_domain@.take(k)
                    } ==> k < rows@[j].public_domain@.len() && rows@[i].public_domain@[k]
                        <= rows@[j].public_domain@[k]
                &&& conn@.wf() ==> forall|i: int, j: int|
                    0 <= i < j < rows@.len() ==> (#[trigger] rows@[i]).id != (
                    #[trigger] rows@[j]).id
                &&& 0 <= range.0 <= range.1 ==> rows@.len() == if range.1
                    <= conn.instances@.len() {
                    range.1 - range.0
                } else if range.0 <= conn.instances@.len() {
                    conn.instances@.len() - range.0
                } else {
                    0
                }
            },
            Err(e) => {
                &&& conn.negative == NegativeBound::Refused
                &&& !(0 <= range.0 <= range.1)
                &&& e == Error::Db(DbError::Query)
            },
        },
{
    page_is_in_order(conn@, range.0 as int, range.1 as int);
    if let Ok(rows) = page {
        let all = sorted(ByDomain, conn.instances@);
        sorted_by_domain(conn);
        assert forall|i: int, j: int, k: int|
            #![trigger rows@[i], rows@[j].public_domain@.take(k)]
            {
                &&& 0 <= i < j < rows@.len()
                &&& 0 <= k < rows@[i].public_domain@.len()
                &&& k <= rows@[j].public_domain@.len()
                &&& rows@[i].public_domain@.take(k) == rows@[j].public_domain@.take(k)
            } implies k < rows@[j].public_domain@.len() && rows@[i].public_domain@[k]
            <= rows@[j].public_domain@[k] by {
            assert(ByDomain.le(rows@[i], rows@[j]));
            text_le_by_first_difference(rows@[j].public_domain@, rows@[i].public_domain@);
            text_le_total(rows@[i].public_domain@, rows@[j].public_domain@);
        }
        if conn@.wf() {
            rearranged_keys(conn.instances@, all);
            let start = if range.0 < 0 {
                0
            } else if range.0 < all.len() {
                range.0 as int
            } else {
                all.len() as int
            };
            assert forall|i: int, j: int| 0 <= i < j < rows@.len() implies (
            #[trigger] rows@[i]).id != (#[trigger] rows@[j]).id by {
                assert(rows@[i] == all[start + i] && rows@[j] == all[start + j]);
                assert(all[start + i].key() != all[start + j].key());
            }
        }
    }
}

/// Pages that border on each other are together the page over both ranges.
pub proof fn pages_follow_on(
    conn: Connection,
    min: i32,
    middle: i32,
    max: i32,
    first: Result<Vec<Instance>, Error>,
    second: Result<Vec<Instance>, Error>,
    both: Result<Vec<Instance>, Error>,
)
    requires
        0 <= min <= middle <= max,
        call_ensures(Instance::page, (&conn, (min, middle)), first),
        call_ensures(Instance::page, (&conn, (middle, max)), second),
        call_ensures(Instance::page, (&conn, (min, max)), both),
    ensures
        match (first, second, both) {
            (Ok(first), Ok(second), Ok(both)) => both@ == first@ + second@,
            _ => false,
        },
{
    crate::instance_laws::pages_join(conn@, min as int, middle as int, max as int);
}

/// A page from the start that is long enough lists every row, as often as it is there.
pub proof fn long_page(conn: Connection, max: i32, page: Result<Vec<Instance>, Error>)
    requires
        conn.instances@.len() <= max,
        call_ensures(Instance::page, (&conn, (0i32, max)), page),
    ensures
        page matches Ok(rows) && rows@.to_multiset() == conn.instances@.to_multiset(),
{
    crate::instance_laws::whole_page(conn@, max as int);
}

/// Where negative bounds are ignored, a negative start counts as the first row and a range that
/// ends before it starts has no end.
pub proof fn ignored_bounds(
    conn: Connection,
    range: (i32, i32),
    page: Result<Vec<Instance>, Error>,
    plain: (i32, i32),
    plain_page: Result<Vec<Instance>, Error>,
)
    requires
        conn.negative == NegativeBound::Ignored,
        call_ensures(Instance::page, (&conn, range), page),
        call_ensures(Instance::page, (&conn, plain), plain_page),
        plain.0 == if range.0 < 0 { 0 } else { range.0 },
        if range.1 >= range.0 {
            plain.1 - plain.0 == range.1 - range.0
        } else {
            plain.1 >= plain.0 && plain.1 >= conn.instances@.len()
        },
    ensures
        match (page, plain_page) {
            (Ok(a), Ok(b)) => a@ == b@,
            _ => false,
        },
{
    sorted_by_domain(conn);
    let rows = sorted(ByDomain, conn.instances@);
    if range.1 < range.0 {
        assert(window(rows, plain.0 as int, rows.len() as int) =~= window(
            rows,
            plain.0 as int,
            plain.1 - plain.0,
        ));
    }
}

/// There are as many instances as the table has rows.
pub proof fn counted_instances(conn: Connection, count: Result<i64, Error>)
    requires
        conn.instances@.len() <= i64::MAX,
        call_ensures(Instance::count, (&conn,), count),
    ensures
        count matches Ok(n) && n == conn.instances@.len(),
{
}

/// An identifier is blocked if and only if it begins with `https://`, the domain of an instance that
/// is blocked, and a slash.
pub proof fn blocked_by_domain(conn: Connection, id: &str, blocked: Result<bool, Error>)
    requires
        call_ensures(Instance::is_blocked, (&conn, id), blocked),
    ensures
        blocked == Ok::<bool, Error>(
            exists|i: int|
                {
                    &&& 0 <= i < conn.instances@.len()
                    &&& (#[trigger] conn.instances@[i]).blocked
                    &&& ("https://"@ + conn.instances@[i].public_domain@ + "/"@).is_prefix_of(id@)
                },
        ),
{
    if conn@.bar(id@) {
        let i = choose|i: int|
            0 <= i < conn.instances@.len() && #[trigger] conn@.instances[i].bars(id@);
        assert(conn.instances@[i].blocked);
    }
    if exists|i: int|
        {
            &&& 0 <= i < conn.instances@.len()
            &&& (#[trigger] conn.instances@[i]).blocked
            &&& ("https://"@ + conn.instances@[i].public_domain@ + "/"@).is_prefix_of(id@)
        } {
        let i = choose|i: int|
            {
                &&& 0 <= i < conn.instances@.len()
                &&& (#[trigger] conn.instances@[i]).blocked
                &&& ("https://"@ + conn.instances@[i].public_domain@ + "/"@).is_prefix_of(id@)
            };
        assert(conn@.instances[i].bars(id@));
    }
}

/// The address of a box is `https://`, the instance's domain, the prefix, the name and the box, with
/// slashes between the last four.
pub proof fn box_address(
    instance: Instance,
    prefix: &str,
    name: &str,
    box_name: &str,
    url: String,
)
    requires
        call_ensures(Instance::compute_box, (&instance, prefix, name, box_name), url),
    ensures
        url@ == "https://"@ + instance.public_domain@ + "/"@ + prefix@ + "/"@ + name@ + "/"@
            + box_name@,
{
    assert(url@ =~= "https://"@ + instance.public_domain@ + "/"@ + prefix@ + "/"@ + name@ + "/"@
        + box_name@);
}

/// The names that are listed as themes are those of directories with a `theme.css`: for blogs where
/// the name begins with `blog-`, for the instance where it does not. Together they are all of them,
/// each as often as it is there. A directory that could not be read is answered as it was.
pub proof fn listed_themes(
    listing: Result<Vec<Option<DirEntry>>, Error>,
    themes: Result<Vec<String>, Error>,
    blog_themes: Result<Vec<String>, Error>,
)
    requires
        call_ensures(Instance::list_themes, (listing,), themes),
        call_ensures(Instance::list_blog_themes, (listing,), blog_themes),
    ensures
        match listing {
            Err(e) => {
                &&& themes == Err::<Vec<String>, Error>(e)
                &&& blog_themes == Err::<Vec<String>, Error>(e)
            },
            Ok(entries) => {
                &&& themes is Ok && blog_themes is Ok
                &&& forall|i: int|
                    0 <= i < themes->Ok_0@.len() ==> !"blog-"@.is_prefix_of(
                        (#[trigger] themes->Ok_0@[i])@,
                    )
                &&& forall|i: int|
                    0 <= i < blog_themes->Ok_0@.len() ==> "blog-"@.is_prefix_of(
                        (#[trigger] blog_themes->Ok_0@[i])@,
                    )
                &&& (themes->Ok_0@ + blog_themes->Ok_0@).to_multiset() == entries@.filter(
                    |entry: Option<DirEntry>|
                        entry matches Some(e) && e.is_dir == Some(true) && e.has_theme_css
                            && e.name is Some,
                ).map_values(|entry: Option<DirEntry>| entry->0.name->0).to_multiset()
            },
        },
{
    if let Ok(entries) = listing {
        themes_are_shared_out(entries@);
        let any = |entry: Option<DirEntry>|
            entry matches Some(e) && e.is_dir == Some(true) && e.has_theme_css && e.name is Some;
        let name = |entry: Option<DirEntry>| entry->0.name->0;
        assert(any =~= crate::instance_laws::holds_any_theme());
        assert(name =~= theme_name());
        assert(themes->Ok_0@ == theme_names(entries@, false));
        assert(blog_themes->Ok_0@ == theme_names(entries@, true));
    }
}

} // verus!
