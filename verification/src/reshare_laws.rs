//! What holds of reshares over several calls.
use crate::activity::{all_iris, Announce, Announce07, Received};
use crate::connection::{Connection, Tables, TimelineEntry};
use crate::error::{DbError, Error};
use crate::flow::stored;
use crate::iri::is_iri;
use crate::json::json_value;
use crate::notifications::{is_about, Notification, NotificationKind};
use crate::posts::{post_url_is, Post};
use crate::query::{
    filter_first, filter_is_within, filter_keeps_all, filter_keeps_distinct, filter_push, first_row, is_ordered, is_total,
    is_transitive, key_is, key_is_not, last_key, last_key_is_largest,
    next_key_is_fresh, place_is_insert, removal_takes_one, removal_undoes_insert, sorted,
    sorted_is_ordered, with_key, without_key, NegativeBound, Row, SortOrder,
};
use crate::reshare::{
    made_by, made_by_of, reshare_url_is, NewReshare, NewestFirst, Reshare,
};
use crate::task::{notice, Request, Step, Task};
use crate::users::{user_url_is, User};
use vstd::prelude::*;

verus! {

/// A reshare that was stored is found under its number, and by its identifier and by its user and
/// post where it is the first of those. The others stay.
pub proof fn insert_is_found(tables: Tables, new: NewReshare)
    requires
        last_key(tables.reshares) < i32::MAX,
    ensures
        ({
            let (after, stored) = tables.reshare_added(new);
            match stored {
                Ok(row) => {
                    &&& row.user_id == new.user_id
                    &&& row.post_id == new.post_id
                    &&& row.ap_url == new.ap_url
                    &&& row.creation_date == tables.now
                    &&& tables.wf() ==> after.wf()
                    &&& first_row(with_key(after.reshares, row.id)) == Ok::<Reshare, Error>(row)
                    &&& forall|id: i32|
                        id != row.id ==> #[trigger] with_key(after.reshares, id) == with_key(
                            tables.reshares,
                            id,
                        )
                    &&& tables.reshares.filter(reshare_url_is(new.ap_url@)).len() == 0
                        ==> first_row(after.reshares.filter(reshare_url_is(new.ap_url@))) == Ok::<
                        Reshare,
                        Error,
                    >(row)
                    &&& tables.reshares.filter(made_by_of(new.user_id, new.post_id)).len() == 0
                        ==> first_row(
                        after.reshares.filter(made_by_of(new.user_id, new.post_id)),
                    ) == Ok::<Reshare, Error>(row)
                },
                Err(_) => false,
            }
        }),
{
    let (after, stored) = tables.reshare_added(new);
    let row = stored->Ok_0;
    next_key_is_fresh(tables.reshares, row);
    filter_push(tables.reshares, row, key_is::<Reshare>(row.id));
    filter_push(tables.reshares, row, reshare_url_is(new.ap_url@));
    filter_push(tables.reshares, row, made_by_of(new.user_id, new.post_id));
    assert forall|id: i32| id != row.id implies #[trigger] with_key(after.reshares, id)
        == with_key(tables.reshares, id) by {
        filter_push(tables.reshares, row, key_is::<Reshare>(id));
    }
}

/// Two posts that a user reshares get two identifiers.
pub proof fn urls_tell_posts_apart(user_url: Seq<char>, a: Seq<char>, b: Seq<char>)
    requires
        NewReshare::spec_url(user_url, a) == NewReshare::spec_url(user_url, b),
    ensures
        a == b,
{
    let start = (user_url + "reshare/"@).len() as int;
    assert(NewReshare::spec_url(user_url, a).skip(start) =~= a);
    assert(NewReshare::spec_url(user_url, b).skip(start) =~= b);
}

/// Every two reshares compare by date, and the order carries over.
proof fn newest_first_is_an_order()
    ensures
        is_total::<Reshare, NewestFirst>(NewestFirst),
        is_transitive::<Reshare, NewestFirst>(NewestFirst),
{
}

/// The recent reshares of a user are all theirs and come newest first. There are as many as asked
/// for unless they run out, and what is left out is no newer than what is in. They are refused if
/// and only if the limit is negative and the database refuses such limits.
pub proof fn recents_are_newest(tables: Tables, user_id: i32, limit: int)
    ensures
        match tables.recents(user_id, limit) {
            Ok(recents) => {
                let made = tables.reshares.filter(made_by(user_id));
                let rest = sorted(NewestFirst, made).skip(recents.len() as int);
                &&& limit >= 0 || tables.negative == NegativeBound::Ignored
                &&& is_ordered(NewestFirst, recents)
                &&& forall|i: int|
                    0 <= i < recents.len() ==> {
                        &&& #[trigger] tables.reshares.contains(recents[i])
                        &&& recents[i].user_id == user_id
                    }
                &&& recents.len() == if 0 <= limit <= made.len() {
                    limit
                } else {
                    made.len() as int
                }
                &&& (recents + rest).to_multiset() == made.to_multiset()
                &&& forall|i: int, j: int|
                    0 <= i < recents.len() && 0 <= j < rest.len() ==> (
                    #[trigger] recents[i]).creation_date.at_or_after(
                        (#[trigger] rest[j]).creation_date,
                    )
            },
            Err(e) => {
                &&& limit < 0
                &&& tables.negative == NegativeBound::Refused
                &&& e == Error::Db(DbError::Query)
            },
        },
{
    broadcast use vstd::seq_lib::group_to_multiset_ensures;

    newest_first_is_an_order();
    let made = tables.reshares.filter(made_by(user_id));
    sorted_is_ordered(NewestFirst, made);
    let newest = sorted(NewestFirst, made);
    if let Ok(recents) = tables.recents(user_id, limit) {
        let rest = newest.skip(recents.len() as int);
        assert(recents + rest =~= newest);
        assert forall|i: int| 0 <= i < recents.len() implies {
            &&& #[trigger] tables.reshares.contains(recents[i])
            &&& recents[i].user_id == user_id
        } by {
            assert(newest.contains(newest[i]));
            assert(made.to_multiset().count(newest[i]) > 0);
            assert(made.contains(newest[i]));
            let k = choose|k: int| 0 <= k < made.len() && made[k] == newest[i];
            filter_is_within(tables.reshares, made_by(user_id), k);
        }
        assert forall|i: int, j: int| 0 <= i < recents.len() && 0 <= j < rest.len() implies (
        #[trigger] recents[i]).creation_date.at_or_after(
            (#[trigger] rest[j]).creation_date,
        ) by {
            assert(NewestFirst.le(newest[i], newest[recents.len() + j]));
        }
    }
}

/// A reshare that is newer than all others of its user comes first among the recent ones, and the
/// others follow as before.
pub proof fn newest_comes_first(tables: Tables, new: NewReshare)
    requires
        tables.reshare_added(new).1 is Ok,
        forall|i: int|
            0 <= i < tables.reshares.filter(made_by(new.user_id)).len()
                ==> !(#[trigger] tables.reshares.filter(
                made_by(new.user_id),
            )[i]).creation_date.at_or_after(tables.now),
    ensures
        ({
            let (after, row) = tables.reshare_added(new);
            sorted(NewestFirst, after.reshares.filter(made_by(new.user_id))) == seq![row->Ok_0]
                + sorted(NewestFirst, tables.reshares.filter(made_by(new.user_id)))
        }),
{
    broadcast use vstd::seq_lib::group_to_multiset_ensures;

    newest_first_is_an_order();
    let made = tables.reshares.filter(made_by(new.user_id));
    let newest = sorted(NewestFirst, made);
    sorted_is_ordered(NewestFirst, made);
    let row = tables.reshare_added(new).1->Ok_0;
    filter_push(tables.reshares, row, made_by(new.user_id));
    assert(made.push(row).drop_last() =~= made);
    assert forall|k: int| 0 <= k < newest.len() implies !NewestFirst.le(
        #[trigger] newest[k],
        row,
    ) by {
        assert(newest.contains(newest[k]));
        assert(made.to_multiset().count(newest[k]) > 0);
        assert(made.contains(newest[k]));
    }
    place_is_insert(NewestFirst, newest, row, 0);
    assert(newest.insert(0, row) =~= seq![row] + newest);
}

/// What withdraws a reshare wraps what announced it: the same actor tells the same readers, under
/// the same identifier with `#delete` behind it.
pub proof fn undo_wraps_announcement(reshare: Reshare, user: User, post: Post)
    ensures
        ({
            let announced = reshare.announcement(user, post, user);
            let undone = reshare.withdrawal(user, announced, user);
            &&& undone.object == announced
            &&& undone.actor == announced.actor
            &&& undone.to == announced.to
            &&& undone.cc == announced.cc
            &&& undone.id == announced.id + "#delete"@
        }),
{
}

/// A reshare that can be announced is announced in the newer format too, where it names all in
/// IRIs, and is the same JSON in both.
pub proof fn formats_are_one_json(
    conn: Connection,
    reshare: Reshare,
    act: Announce,
    json: String,
    act07: Result<Announce07, Error>,
    json07: Result<String, Error>,
)
    requires
        call_ensures(Reshare::to_activity, (&reshare, &conn), Ok(act)),
        call_ensures(Announce::to_json, (&act,), Ok(json)),
        is_iri(act@.actor),
        is_iri(act@.object),
        is_iri(act@.id),
        all_iris(act@.cc),
        call_ensures(Reshare::to_activity07, (&reshare, &conn), act07),
        act07 matches Ok(a) ==> call_ensures(Announce07::to_json, (&a,), json07),
    ensures
        act07 is Ok,
        json07 is Ok,
        json_value(json@) is Some,
        json_value(json07->Ok_0@) == json_value(json@),
{
    let followers = act@.cc[0];
    assert(is_iri(followers));
}

/// Who receives what was announced of a reshare, and knows the post and the user, stores a reshare
/// of the same post by the same user under the same identifier, and notifies the authors; it is
/// not put before the timelines.
pub proof fn announcement_is_stored(
    tables: Tables,
    reshare: Reshare,
    user: User,
    post: Post,
    act: Received,
)
    requires
        act@ == reshare.announcement(user, post, user).received(),
        stored(tables.posts.filter(post_url_is(post.ap_url@))) == Ok::<Post, Error>(post),
        stored(tables.users.filter(user_url_is(user.ap_url@))) == Ok::<User, Error>(user),
    ensures
        exists|ap_url: String|
            {
                &&& ap_url@ == reshare.ap_url@
                &&& tables.received(act) == #[trigger] tables.reshared(
                    NewReshare { user_id: user.id, post_id: post.id, ap_url },
                    None,
                )
            },
        tables.received(act).1 matches Ok(row) ==> {
            &&& row.user_id == user.id
            &&& row.post_id == post.id
            &&& row.ap_url@ == reshare.ap_url@
        },
{
    let ap_url = act.id->Text_0;
    assert(tables.received(act) == tables.reshared(
        NewReshare { user_id: user.id, post_id: post.id, ap_url },
        None,
    ));
}

/// Whether two rows of reshares say the same.
pub open spec fn same_row(a: Reshare, b: Reshare) -> bool {
    &&& a.id == b.id
    &&& a.user_id == b.user_id
    &&& a.post_id == b.post_id
    &&& a.ap_url@ == b.ap_url@
    &&& a.creation_date == b.creation_date
}

/// Whether two ways to store a reshare come to the same: the tables hold the same, and the same row
/// or the same error comes out.
pub open spec fn same_outcome(
    a: (Tables, Result<Reshare, Error>),
    b: (Tables, Result<Reshare, Error>),
) -> bool {
    &&& b.0 == (Tables { reshares: b.0.reshares, ..a.0 })
    &&& a.0.reshares.len() == b.0.reshares.len()
    &&& forall|i: int|
        0 <= i < a.0.reshares.len() ==> same_row(
            #[trigger] a.0.reshares[i],
            #[trigger] b.0.reshares[i],
        )
    &&& match (a.1, b.1) {
        (Ok(x), Ok(y)) => same_row(x, y),
        (Err(x), Err(y)) => x == y,
        _ => false,
    }
}

/// Notifying authors does not depend on the reshares that are stored, nor on the identifier of the
/// one that they are notified of.
proof fn notices_are_alike(
    tables: Tables,
    others: Tables,
    a: Reshare,
    b: Reshare,
    authors: Seq<User>,
)
    requires
        others == (Tables { reshares: others.reshares, ..tables }),
        a.id == b.id,
    ensures
        others.authors_notified(b, authors) == (
            Tables {
                reshares: others.reshares,
                ..tables.authors_notified(a, authors).0
            },
            tables.authors_notified(a, authors).1,
        ),
        tables.authors_notified(a, authors).0.reshares == tables.reshares,
    decreases authors.len(),
{
    if authors.len() > 0 {
        if !authors[0].local {
            notices_are_alike(tables, others, a, b, authors.drop_first());
        } else if last_key(tables.notifications) < i32::MAX {
            notices_are_alike(
                tables.notification_added(notice(a, authors[0])).0,
                others.notification_added(notice(b, authors[0])).0,
                a,
                b,
                authors.drop_first(),
            );
        }
    }
}

/// The same reshare of a post, announced here in the older format and in the newer one, is stored,
/// notified and delivered alike. `ap_url` and `ap_url07` are the identifier, as either took it.
pub proof fn announcements_are_alike(
    tables: Tables,
    actor: User,
    post: Post,
    ap_url: String,
    ap_url07: String,
    delivery: Option<TimelineEntry>,
)
    requires
        ap_url@ == ap_url07@,
    ensures
        same_outcome(
            tables.reshared(NewReshare { user_id: actor.id, post_id: post.id, ap_url }, delivery),
            tables.reshared(
                NewReshare { user_id: actor.id, post_id: post.id, ap_url: ap_url07 },
                delivery,
            ),
        ),
{
    let new = NewReshare { user_id: actor.id, post_id: post.id, ap_url };
    let new07 = NewReshare { user_id: actor.id, post_id: post.id, ap_url: ap_url07 };
    let (stored, row) = tables.reshare_added(new);
    let (stored07, row07) = tables.reshare_added(new07);
    if row is Ok {
        let found = with_key(tables.posts, post.id);
        if found.len() > 0 {
            assert(stored.authors(found[0].id) == stored07.authors(found[0].id));
            notices_are_alike(
                stored,
                stored07,
                row->Ok_0,
                row07->Ok_0,
                stored.authors(found[0].id),
            );
        }
    }
}

/// Announcements that come in with the same object, actor and id are stored alike, whether the
/// older format was read or the newer one: `act` is what was read of `json`, and `act07` what was
/// read of `json07`.
pub proof fn receptions_are_alike(
    tables: Tables,
    json: Seq<char>,
    act: Received,
    json07: Seq<char>,
    act07: Received,
)
    requires
        act@ == Received::spec_announce(json),
        act07@ == Received::spec_announce07(json07),
        Received::spec_announce(json) == Received::spec_announce07(json07),
    ensures
        same_outcome(tables.received(act), tables.received(act07)),
{
    if act.object.text() is Ok && act.actor.text() is Ok && act.id.text() is Ok {
        let posts = tables.posts.filter(post_url_is(act.object->Text_0@));
        let users = tables.users.filter(user_url_is(act.actor->Text_0@));
        if posts.len() > 0 && users.len() > 0 {
            announcements_are_alike(
                tables,
                users[0],
                posts[0],
                act.id->Text_0,
                act07.id->Text_0,
                None,
            );
        }
    }
}

/// Nobody but the one who made a reshare can withdraw it, and the attempt changes nothing.
pub proof fn only_owner_withdraws(tables: Tables, reshare: Reshare, actor_id: i32)
    requires
        actor_id != reshare.user_id,
    ensures
        tables.withdrawn(reshare, actor_id) == (tables, Err::<Reshare, Error>(Error::Unauthorized)),
{
}

/// A lookup under one number finds the same whether or not the row under another was taken out,
/// and nothing where it was.
proof fn removal_by_key<R: Row>(rows: Seq<R>, gone: i32, asked: i32)
    ensures
        with_key(without_key(rows, gone), asked) == if asked == gone {
            Seq::<R>::empty()
        } else {
            with_key(rows, asked)
        },
    decreases rows.len(),
{
    reveal(Seq::filter);
    if rows.len() > 0 {
        let front = rows.drop_last();
        removal_by_key(front, gone, asked);
        if rows.last().key() != gone {
            filter_push(without_key(front, gone), rows.last(), key_is::<R>(asked));
        }
    }
}

/// What the one who made a reshare withdraws is gone; every other reshare stays, and so do all
/// tables but the notifications, of which at most one about the reshare goes.
pub proof fn withdrawal_removes(tables: Tables, reshare: Reshare, asked: i32)
    ensures
        ({
            let after = tables.withdrawn(reshare, reshare.user_id).0;
            &&& with_key(after.reshares, asked) == if asked == reshare.id {
                Seq::<Reshare>::empty()
            } else {
                with_key(tables.reshares, asked)
            }
            &&& after == (Tables {
                reshares: after.reshares,
                notifications: after.notifications,
                ..tables
            })
            &&& after.notifications == match first_row(
                tables.notifications.filter(is_about(NotificationKind::Reshare, reshare.id)),
            ) {
                Ok(notification) => without_key(tables.notifications, notification.id),
                Err(_) => tables.notifications,
            }
            &&& tables.wf() ==> after.wf()
            &&& tables.wf() && tables.notifications.filter(
                is_about(NotificationKind::Reshare, reshare.id),
            ).len() > 0 ==> exists|j: int|
                {
                    &&& 0 <= j < tables.notifications.len()
                    &&& is_about(NotificationKind::Reshare, reshare.id)(tables.notifications[j])
                    &&& after.notifications == #[trigger] tables.notifications.remove(j)
                }
        }),
{
    removal_by_key(tables.reshares, reshare.id, asked);
    if tables.wf() {
        filter_keeps_distinct(tables.reshares, key_is_not::<Reshare>(reshare.id));
        let about = tables.notifications.filter(is_about(NotificationKind::Reshare, reshare.id));
        if about.len() > 0 {
            filter_keeps_distinct(
                tables.notifications,
                key_is_not::<Notification>(about[0].id),
            );
            filter_is_within(
                tables.notifications,
                is_about(NotificationKind::Reshare, reshare.id),
                0,
            );
            let j = choose|j: int|
                0 <= j < tables.notifications.len() && tables.notifications[j] == about[0];
            removal_takes_one(tables.notifications, j);
        }
    }
}

/// Of a user: their account is on the local instance.
pub open spec fn is_local() -> spec_fn(User) -> bool {
    |row: User| row.local
}

/// One notification of the reshare for each of `users`, in order, numbered from `from` on.
pub open spec fn notices(reshare: Reshare, users: Seq<User>, from: int) -> Seq<Notification> {
    Seq::new(
        users.len(),
        |k: int|
            Notification {
                id: (from + k) as i32,
                user_id: users[k].id,
                kind: NotificationKind::Reshare,
                object_id: reshare.id,
            },
    )
}

/// Each local author is notified once, in order, and nobody else is; nothing but notifications
/// comes of it. It fails only when the numbers for notifications run out, and then those that
/// could be stored are.
pub proof fn local_authors_are_notified(tables: Tables, reshare: Reshare, authors: Seq<User>)
    ensures
        ({
            let locals = authors.filter(is_local());
            let last = last_key(tables.notifications);
            let (after, done) = tables.authors_notified(reshare, authors);
            &&& last + locals.len() <= i32::MAX ==> {
                &&& done is Ok
                &&& after == (Tables {
                    notifications: tables.notifications + notices(reshare, locals, last + 1),
                    ..tables
                })
            }
            &&& last + locals.len() > i32::MAX ==> {
                &&& done == Err::<(), Error>(Error::Db(DbError::Query))
                &&& after == (Tables {
                    notifications: tables.notifications + notices(
                        reshare,
                        locals.take(i32::MAX - last),
                        last + 1,
                    ),
                    ..tables
                })
            }
        }),
    decreases authors.len(),
{
    let locals = authors.filter(is_local());
    let last = last_key(tables.notifications);
    last_key_is_largest(tables.notifications);
    if authors.len() == 0 {
        filter_keeps_all(authors, is_local());
        assert(tables.notifications + notices(reshare, locals, last + 1)
            =~= tables.notifications);
    } else {
        let rest = authors.drop_first();
        let others = rest.filter(is_local());
        filter_first(authors, is_local());
        if !authors[0].local {
            local_authors_are_notified(tables, reshare, rest);
        } else {
            if last < i32::MAX {
                let (stored, row) = tables.notification_added(notice(reshare, authors[0]));
                let row = row->Ok_0;
                assert(stored.notifications.drop_last() =~= tables.notifications);
                local_authors_are_notified(stored, reshare, rest);
                assert(tables.notifications + notices(reshare, locals, last + 1)
                    =~= stored.notifications + notices(reshare, others, last + 2));
                if last + locals.len() > i32::MAX {
                    assert(locals.take(i32::MAX - last) =~= seq![authors[0]] + others.take(
                        i32::MAX - last - 1,
                    ));
                    assert(tables.notifications + notices(
                        reshare,
                        locals.take(i32::MAX - last),
                        last + 1,
                    ) =~= stored.notifications + notices(
                        reshare,
                        others.take(i32::MAX - last - 1),
                        last + 2,
                    ));
                }
            } else {
                assert(tables.notifications + notices(reshare, locals.take(0), last + 1)
                    =~= tables.notifications);
            }
        }
    }
}

/// What comes of a reshare that succeeds: its row, one notification for each local author of the
/// post, and one entry for the timelines where it is delivered. Nothing else changes.
pub proof fn reshare_adds(tables: Tables, new: NewReshare, delivery: Option<TimelineEntry>)
    requires
        tables.reshared(new, delivery).1 is Ok,
    ensures
        ({
            let (after, result) = tables.reshared(new, delivery);
            let row = result->Ok_0;
            let locals = tables.authors(new.post_id).filter(is_local());
            &&& tables.reshare_added(new).1 == Ok::<Reshare, Error>(row)
            &&& first_row(with_key(tables.posts, new.post_id)) is Ok
            &&& last_key(tables.notifications) + locals.len() <= i32::MAX
            &&& after == (Tables {
                reshares: tables.reshares.push(row),
                notifications: tables.notifications + notices(
                    row,
                    locals,
                    last_key(tables.notifications) + 1,
                ),
                timeline: match delivery {
                    Some(entry) => tables.timeline.push(entry),
                    None => tables.timeline,
                },
                ..tables
            })
        }),
{
    let (stored, row) = tables.reshare_added(new);
    let row = row->Ok_0;
    let found = with_key(tables.posts, new.post_id);
    if found.len() > 0 {
        filter_is_within(tables.posts, key_is::<Post>(new.post_id), 0);
        assert(stored.authors(new.post_id) == tables.authors(new.post_id));
        local_authors_are_notified(stored, row, stored.authors(new.post_id));
    }
}

/// Reshares succeed where the post is there and the numbers do not run out.
pub proof fn reshare_succeeds(tables: Tables, new: NewReshare, delivery: Option<TimelineEntry>)
    requires
        last_key(tables.reshares) < i32::MAX,
        first_row(with_key(tables.posts, new.post_id)) is Ok,
        last_key(tables.notifications) + tables.authors(new.post_id).filter(is_local()).len()
            <= i32::MAX,
    ensures
        tables.reshared(new, delivery).1 is Ok,
{
    let (stored, row) = tables.reshare_added(new);
    let row = row->Ok_0;
    filter_is_within(tables.posts, key_is::<Post>(new.post_id), 0);
    local_authors_are_notified(stored, row, stored.authors(new.post_id));
}

/// Withdrawing what was just reshared leaves the reshares as they were. Of the notifications that
/// the reshare had sent, the first goes and the others stay, provided that none was about a
/// reshare with the same number before.
pub proof fn withdrawal_undoes_reshare(
    tables: Tables,
    new: NewReshare,
    delivery: Option<TimelineEntry>,
)
    requires
        tables.reshared(new, delivery).1 is Ok,
        tables.notifications.filter(
            is_about(NotificationKind::Reshare, tables.reshared(new, delivery).1->Ok_0.id),
        ).len() == 0,
    ensures
        ({
            let (reshared, result) = tables.reshared(new, delivery);
            let row = result->Ok_0;
            let locals = tables.authors(new.post_id).filter(is_local());
            let sent = notices(row, locals, last_key(tables.notifications) + 1);
            let after = reshared.withdrawn(row, new.user_id).0;
            &&& after.reshares == tables.reshares
            &&& after.notifications == if sent.len() > 0 {
                tables.notifications + sent.drop_first()
            } else {
                tables.notifications
            }
        }),
{
    reshare_adds(tables, new, delivery);
    let (reshared, result) = tables.reshared(new, delivery);
    let row = result->Ok_0;
    removal_undoes_insert(tables.reshares, row);
    let locals = tables.authors(new.post_id).filter(is_local());
    let last = last_key(tables.notifications);
    last_key_is_largest(tables.notifications);
    let sent = notices(row, locals, last + 1);
    let about = is_about(NotificationKind::Reshare, row.id);
    Seq::filter_distributes_over_add(tables.notifications, sent, about);
    filter_keeps_all(sent, about);
    assert(tables.notifications.filter(about) =~= Seq::<Notification>::empty());
    assert(reshared.notifications.filter(about) =~= sent);
    if sent.len() > 0 {
        let other = key_is_not::<Notification>(sent[0].id);
        Seq::filter_distributes_over_add(tables.notifications, sent, other);
        filter_keeps_all(tables.notifications, other);
        filter_first(sent, other);
        filter_keeps_all(sent.drop_first(), other);
    } else {
        assert(reshared.notifications =~= tables.notifications);
    }
}

/// Doing what a task asks for keeps one row to each primary key.
pub proof fn request_keeps_keys(tables: Tables, request: Request)
    requires
        tables.wf(),
    ensures
        tables.performed(request).wf(),
{
    match request {
        Request::InsertReshare(new) => {
            if last_key(tables.reshares) < i32::MAX {
                next_key_is_fresh(tables.reshares, tables.reshare_added(new).1->Ok_0);
            }
        },
        Request::InsertNotification(new) => {
            if last_key(tables.notifications) < i32::MAX {
                next_key_is_fresh(tables.notifications, tables.notification_added(new).1->Ok_0);
            }
        },
        Request::DeleteReshare(id) => {
            filter_keeps_distinct(tables.reshares, key_is_not::<Reshare>(id));
        },
        Request::DeleteNotification(id) => {
            filter_keeps_distinct(tables.notifications, key_is_not::<Notification>(id));
        },
        _ => {},
    }
}

/// Notifying authors keeps one row to each primary key.
proof fn notices_keep_keys(tables: Tables, reshare: Reshare, authors: Seq<User>)
    requires
        tables.wf(),
    ensures
        tables.authors_notified(reshare, authors).0.wf(),
    decreases authors.len(),
{
    if authors.len() > 0 {
        if authors[0].local {
            let new = notice(reshare, authors[0]);
            request_keeps_keys(tables, Request::InsertNotification(new));
            if last_key(tables.notifications) < i32::MAX {
                notices_keep_keys(
                    tables.notification_added(new).0,
                    reshare,
                    authors.drop_first(),
                );
            }
        } else {
            notices_keep_keys(tables, reshare, authors.drop_first());
        }
    }
}

/// Whatever comes of resharing, of receiving an announcement and of withdrawing, no two rows get
/// the same primary key.
pub proof fn tasks_keep_keys(
    tables: Tables,
    new: NewReshare,
    delivery: Option<TimelineEntry>,
    act: Received,
    reshare: Reshare,
    actor_id: i32,
)
    requires
        tables.wf(),
    ensures
        tables.reshared(new, delivery).0.wf(),
        tables.received(act).0.wf(),
        tables.withdrawn(reshare, actor_id).0.wf(),
        tables.notified(reshare).0.wf(),
{
    reshare_keeps_keys(tables, new, delivery);
    if act.object.text() is Ok && act.actor.text() is Ok && act.id.text() is Ok {
        let posts = tables.posts.filter(post_url_is(act.object->Text_0@));
        let users = tables.users.filter(user_url_is(act.actor->Text_0@));
        if posts.len() > 0 && users.len() > 0 {
            reshare_keeps_keys(
                tables,
                NewReshare {
                    user_id: users[0].id,
                    post_id: posts[0].id,
                    ap_url: act.id->Text_0,
                },
                None,
            );
        }
    }
    withdrawal_removes(tables, reshare, reshare.id);
    if let Ok(post) = first_row(with_key(tables.posts, reshare.post_id)) {
        notices_keep_keys(tables, reshare, tables.authors(post.id));
    }
}

/// Resharing keeps one row to each primary key.
proof fn reshare_keeps_keys(tables: Tables, new: NewReshare, delivery: Option<TimelineEntry>)
    requires
        tables.wf(),
    ensures
        tables.reshared(new, delivery).0.wf(),
{
    request_keeps_keys(tables, Request::InsertReshare(new));
    let (stored, row) = tables.reshare_added(new);
    if row is Ok {
        let found = with_key(stored.posts, row->Ok_0.post_id);
        if found.len() > 0 {
            notices_keep_keys(stored, row->Ok_0, stored.authors(found[0].id));
        }
    }
}

/// A failure ends whatever task waited for the reply, with the same error. The one exception is the
/// search for a notification to take back, which need not exist: then the withdrawal is done.
pub proof fn failure_ends_task(task: Task, error: Error)
    ensures
        task.after(Err(error)) == match task {
            Task::FindNotification { reshare } => Step::Finish(Ok(reshare)),
            _ => Step::Finish(Err(error)),
        },
{
}

} // verus!
