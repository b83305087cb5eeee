//! What comes of resharing, in terms of the rows that the tables hold and the texts that are sent.
use crate::activity::{
    actor07_of, actor_of, all_iris, id07_of, id_of, is_announce, is_announce07, object07_of,
    object_of, texts, Announce, Announce07, Property, PropertyView, Received, Undo,
};
use crate::connection::{Connection, Tables, TimelineEntry};
use crate::error::{DbError, Error};
use crate::flow::stored;
use crate::iri::is_iri;
use crate::json::{json_value, JsonView};
use crate::notifications::{is_about, Notification, NotificationKind};
use crate::posts::{post_url_is, wrote, Post, PostAuthor};
use crate::query::{
    filter_holds, filter_is_no_longer, filter_keeps_distinct, first_match,
    first_row, key_is, key_is_not, keys_distinct, last_key, last_key_is_largest, last_key_is_used,
    removal_takes_one, with_key, without_key, Row,
};
use crate::reshare::{NewReshare, Reshare};
use crate::reshare_laws::{
    is_local, local_authors_are_notified, notices, reshare_adds, reshare_succeeds,
};
use crate::task::{Reply, Step, Task};
use crate::users::{user_url_is, User};
use vstd::prelude::*;

verus! {

/// A reshare that is asked for shares the post for the user, under the user's address, `reshare/`
/// and the post's address.
pub proof fn reshare_is_named(post: Post, user: User, new: NewReshare)
    requires
        call_ensures(NewReshare::new, (&post, &user), new),
    ensures
        new.user_id == user.id,
        new.post_id == post.id,
        new.ap_url@ == user.ap_url@ + "reshare/"@ + post.ap_url@,
{
}

/// A reshare gets a row behind the others, with what was given, created now, and under a number that
/// no other row has. It fails only where the largest number is taken, and then nothing changes.
pub proof fn reshare_is_inserted(
    conn: &mut Connection,
    new: NewReshare,
    inserted: Result<Reshare, Error>,
)
    requires
        call_ensures(Reshare::insert, (conn, new), inserted),
    ensures
        inserted is Err <==> exists|i: int|
            0 <= i < old(conn).reshares@.len() && (#[trigger] old(conn).reshares@[i]).id
                == i32::MAX,
        match inserted {
            Ok(row) => {
                &&& row.user_id == new.user_id
                &&& row.post_id == new.post_id
                &&& row.ap_url@ == new.ap_url@
                &&& row.creation_date == old(conn).now
                &&& forall|i: int|
                    0 <= i < old(conn).reshares@.len() ==> (#[trigger] old(conn).reshares@[i]).id
                        != row.id
                &&& final(conn).reshares@ == old(conn).reshares@.push(row)
            },
            Err(e) => {
                &&& e == Error::Db(DbError::Query)
                &&& final(conn).reshares@ == old(conn).reshares@
            },
        },
        final(conn).now == old(conn).now,
        final(conn).negative == old(conn).negative,
        final(conn).instances@ == old(conn).instances@,
        final(conn).users@ == old(conn).users@,
        final(conn).posts@ == old(conn).posts@,
        final(conn).post_authors@ == old(conn).post_authors@,
        final(conn).notifications@ == old(conn).notifications@,
        final(conn).timeline@ == old(conn).timeline@,
{
    let rows = old(conn).reshares@;
    assert(final(conn)@.users == old(conn)@.users);
    largest_key(rows);
    if inserted is Ok {
        assert(inserted->Ok_0.id == last_key(rows) + 1);
    }
}

/// The largest number is taken if and only if the last key is the largest number, and the next one
/// is free.
proof fn largest_key<R: Row>(rows: Seq<R>)
    ensures
        last_key(rows) >= 0,
        last_key(rows) == i32::MAX <==> exists|i: int|
            0 <= i < rows.len() && (#[trigger] rows[i]).key() == i32::MAX,
        forall|i: int| 0 <= i < rows.len() ==> (#[trigger] rows[i]).key() <= last_key(rows),
{
    last_key_is_largest(rows);
    last_key_is_used(rows);
    if last_key(rows) == i32::MAX {
        let i = choose|i: int|
            0 <= i < rows.len() && (#[trigger] rows[i]).key() == last_key(rows);
        assert(rows[i].key() == i32::MAX);
    }
}

/// What is announced of a reshare: its user, who is the row that it names, shares its post, likewise,
/// under its own identifier, to everyone, with a copy to that user's followers. It fails only where
/// one of the two rows is missing.
pub proof fn announcement_by_rows(
    conn: Connection,
    reshare: Reshare,
    act: Result<Announce, Error>,
)
    requires
        call_ensures(Reshare::to_activity, (&reshare, &conn), act),
    ensures
        match act {
            Ok(a) => {
                &&& exists|i: int|
                    {
                        &&& 0 <= i < conn.users@.len()
                        &&& (#[trigger] conn.users@[i]).id == reshare.user_id
                        &&& a.actor@ == conn.users@[i].ap_url@
                        &&& a.cc@.len() == 1
                        &&& a.cc@[0]@ == conn.users@[i].followers_endpoint@
                    }
                &&& exists|i: int|
                    {
                        &&& 0 <= i < conn.posts@.len()
                        &&& (#[trigger] conn.posts@[i]).id == reshare.post_id
                        &&& a.object@ == conn.posts@[i].ap_url@
                    }
                &&& a.id@ == reshare.ap_url@
                &&& a.to@.len() == 1
                &&& a.to@[0]@ == "https://www.w3.org/ns/activitystreams#Public"@
            },
            Err(e) => {
                &&& e == Error::Db(DbError::NotFound)
                &&& {
                    ||| forall|i: int|
                        0 <= i < conn.users@.len() ==> (#[trigger] conn.users@[i]).id
                            != reshare.user_id
                    ||| forall|i: int|
                        0 <= i < conn.posts@.len() ==> (#[trigger] conn.posts@[i]).id
                            != reshare.post_id
                }
            },
        },
{
    first_match(conn.users@, key_is::<User>(reshare.user_id));
    first_match(conn.posts@, key_is::<Post>(reshare.post_id));
    if let Ok(a) = act {
        let user = first_row(with_key(conn.users@, reshare.user_id))->Ok_0;
        let post = first_row(with_key(conn.posts@, reshare.post_id))->Ok_0;
        assert(texts(a.to@) == a@.to && texts(a.cc@) == a@.cc);
        assert(texts(a.to@)[0] == a.to@[0]@);
        assert(texts(a.cc@)[0] == a.cc@[0]@);
        let i = choose|i: int| 0 <= i < conn.users@.len() && #[trigger] conn.users@[i] == user;
        assert(conn.users@[i].id == reshare.user_id);
        let j = choose|j: int| 0 <= j < conn.posts@.len() && #[trigger] conn.posts@[j] == post;
        assert(conn.posts@[j].id == reshare.post_id);
    }
}

/// What is announced in the newer format, where `user` and `post` are the rows that the reshare
/// names: the same five things, if and only if the user's, the post's, the reshare's and the
/// followers' addresses are IRIs.
pub proof fn announcement07_by_rows(
    conn: Connection,
    reshare: Reshare,
    user: User,
    post: Post,
    act: Result<Announce07, Error>,
)
    requires
        call_ensures(Reshare::to_activity07, (&reshare, &conn), act),
        conn@.wf(),
        conn.users@.contains(user),
        user.id == reshare.user_id,
        conn.posts@.contains(post),
        post.id == reshare.post_id,
    ensures
        match act {
            Ok(a) => {
                &&& a.actor@ == user.ap_url@
                &&& a.object@ == post.ap_url@
                &&& a.id@ == reshare.ap_url@
                &&& a.to@.len() == 1
                &&& a.to@[0]@ == "https://www.w3.org/ns/activitystreams#Public"@
                &&& a.cc@.len() == 1
                &&& a.cc@[0]@ == user.followers_endpoint@
                &&& is_iri(user.ap_url@)
                &&& is_iri(post.ap_url@)
                &&& is_iri(reshare.ap_url@)
                &&& is_iri(user.followers_endpoint@)
            },
            Err(e) => {
                &&& e == Error::Url
                &&& !(is_iri(user.ap_url@) && is_iri(post.ap_url@) && is_iri(reshare.ap_url@)
                    && is_iri(user.followers_endpoint@))
            },
        },
{
    only_row(conn.users@, user);
    only_row(conn.posts@, post);
    if let Ok(a) = act {
        assert(texts(a.to@) == a@.to && texts(a.cc@) == a@.cc);
        assert(texts(a.to@)[0] == a.to@[0]@);
        assert(texts(a.cc@)[0] == a.cc@[0]@);
    }
}

/// Where keys are distinct, a lookup by the key of a row finds that row.
proof fn only_row<R: Row>(rows: Seq<R>, row: R)
    requires
        keys_distinct(rows),
        rows.contains(row),
    ensures
        first_row(with_key(rows, row.key())) == Ok::<R, Error>(row),
{
    first_match(rows, key_is::<R>(row.key()));
    let at = choose|at: int| 0 <= at < rows.len() && rows[at] == row;
    if let Ok(found) = first_row(with_key(rows, row.key())) {
        let i = choose|i: int| 0 <= i < rows.len() && #[trigger] rows[i] == found;
        if i < at {
            assert(rows[i].key() != rows[at].key());
        } else if at < i {
            assert(rows[at].key() != rows[i].key());
        }
    }
}

/// In the newer format nothing is announced where a row is missing: the missing row is the answer,
/// unless the user is there and their address is no IRI.
pub proof fn announcement07_needs_rows(
    conn: Connection,
    reshare: Reshare,
    act: Result<Announce07, Error>,
)
    requires
        call_ensures(Reshare::to_activity07, (&reshare, &conn), act),
    ensures
        (forall|i: int|
            0 <= i < conn.users@.len() ==> (#[trigger] conn.users@[i]).id != reshare.user_id)
            ==> act == Err::<Announce07, Error>(Error::Db(DbError::NotFound)),
        (forall|i: int|
            0 <= i < conn.posts@.len() ==> (#[trigger] conn.posts@[i]).id != reshare.post_id)
            ==> act is Err,
{
    first_match(conn.users@, key_is::<User>(reshare.user_id));
    first_match(conn.posts@, key_is::<Post>(reshare.post_id));
}

/// What withdraws a reshare: the one who made it, to everyone with a copy to their followers, under
/// its identifier with `#delete` behind it, and around what announces it.
pub proof fn withdrawal_by_rows(
    conn: Connection,
    reshare: Reshare,
    act: Result<Announce, Error>,
    undo: Result<Undo, Error>,
)
    requires
        call_ensures(Reshare::to_activity, (&reshare, &conn), act),
        call_ensures(Reshare::build_undo, (&reshare, &conn), undo),
    ensures
        match (act, undo) {
            (Ok(a), Ok(u)) => {
                &&& u.actor@ == a.actor@
                &&& u.id@ == reshare.ap_url@ + "#delete"@
                &&& u.to@.len() == 1
                &&& u.to@[0]@ == "https://www.w3.org/ns/activitystreams#Public"@
                &&& u.cc@.len() == 1
                &&& u.cc@[0]@ == a.cc@[0]@
                &&& u.object.actor@ == a.actor@
                &&& u.object.object@ == a.object@
                &&& u.object.id@ == a.id@
                &&& u.object.to@.len() == 1
                &&& u.object.to@[0]@ == a.to@[0]@
                &&& u.object.cc@.len() == 1
                &&& u.object.cc@[0]@ == a.cc@[0]@
            },
            (Err(a), Err(u)) => a == u,
            _ => false,
        },
{
    if let (Ok(a), Ok(u)) = (act, undo) {
        assert(texts(a.to@) == a@.to && texts(a.cc@) == a@.cc);
        assert(texts(a.to@)[0] == a.to@[0]@ && texts(a.cc@)[0] == a.cc@[0]@);
        assert(texts(u.to@) == u@.to && texts(u.cc@) == u@.cc);
        assert(texts(u.to@)[0] == u.to@[0]@ && texts(u.cc@)[0] == u.cc@[0]@);
        assert(u.object@ == u@.object);
        assert(texts(u.object.to@) == u@.object.to && texts(u.object.cc@) == u@.object.cc);
        assert(texts(u.object.to@)[0] == u.object.to@[0]@);
        assert(texts(u.object.cc@)[0] == u.object.cc@[0]@);
    }
}

/// An announcement in JSON has its type, actor, object and id, and the lists of those it is for, and
/// nothing else; in the newer format it is written if and only if all of it is in IRIs.
pub proof fn announcement_in_json(
    act: Announce,
    json: Result<String, Error>,
    act07: Announce07,
    json07: Result<String, Error>,
)
    requires
        call_ensures(Announce::to_json, (&act,), json),
        call_ensures(Announce07::to_json, (&act07,), json07),
    ensures
        json matches Ok(text) && json_value(text@) == Some(
            JsonView::Object(
                map![
                    "type"@ => JsonView::Text("Announce"@),
                    "actor"@ => JsonView::Text(act.actor@),
                    "object"@ => JsonView::Text(act.object@),
                    "id"@ => JsonView::Text(act.id@),
                    "to"@ => JsonView::List(
                        act.to@.map_values(|t: String| JsonView::Text(t@)),
                    ),
                    "cc"@ => JsonView::List(
                        act.cc@.map_values(|t: String| JsonView::Text(t@)),
                    ),
                ],
            ),
        ),
        json07 is Ok <==> {
            &&& is_iri(act07.actor@)
            &&& is_iri(act07.object@)
            &&& is_iri(act07.id@)
            &&& forall|i: int| 0 <= i < act07.to@.len() ==> is_iri((#[trigger] act07.to@[i])@)
            &&& forall|i: int| 0 <= i < act07.cc@.len() ==> is_iri((#[trigger] act07.cc@[i])@)
        },
        json07 matches Ok(text) ==> json_value(text@) == Some(
            JsonView::Object(
                map![
                    "type"@ => JsonView::Text("Announce"@),
                    "actor"@ => JsonView::Text(act07.actor@),
                    "object"@ => JsonView::Text(act07.object@),
                    "id"@ => JsonView::Text(act07.id@),
                    "to"@ => JsonView::List(
                        act07.to@.map_values(|t: String| JsonView::Text(t@)),
                    ),
                    "cc"@ => JsonView::List(
                        act07.cc@.map_values(|t: String| JsonView::Text(t@)),
                    ),
                ],
            ),
        ),
        json07 matches Err(e) ==> e == Error::Url,
{
    listed(act.to@);
    listed(act.cc@);
    listed(act07.to@);
    listed(act07.cc@);
    iris(act07.to@);
    iris(act07.cc@);
}

/// A list of texts, put in other words.
proof fn listed(list: Seq<String>)
    ensures
        JsonView::texts(texts(list)) == JsonView::List(
            list.map_values(|t: String| JsonView::Text(t@)),
        ),
{
    assert(texts(list).map_values(|text: Seq<char>| JsonView::Text(text)) =~= list.map_values(
        |t: String| JsonView::Text(t@),
    ));
}

/// A list of IRIs, put in other words.
proof fn iris(list: Seq<String>)
    ensures
        all_iris(texts(list)) <==> forall|i: int|
            0 <= i < list.len() ==> is_iri((#[trigger] list[i])@),
{
    if all_iris(texts(list)) {
        assert forall|i: int| 0 <= i < list.len() implies is_iri((#[trigger] list[i])@) by {
            assert(texts(list)[i] == list[i]@);
        }
    }
}

/// A withdrawal in JSON has its type, actor and id, the lists of those it is for, and for its object
/// the announcement as that is in JSON itself.
pub proof fn withdrawal_in_json(
    undo: Undo,
    json: Result<String, Error>,
    inner: Result<String, Error>,
)
    requires
        call_ensures(Undo::to_json, (&undo,), json),
        call_ensures(Announce::to_json, (&undo.object,), inner),
    ensures
        json matches Ok(text) && json_value(text@) == Some(
            JsonView::Object(
                map![
                    "type"@ => JsonView::Text("Undo"@),
                    "actor"@ => JsonView::Text(undo.actor@),
                    "object"@ => json_value(inner->Ok_0@)->0,
                    "id"@ => JsonView::Text(undo.id@),
                    "to"@ => JsonView::List(
                        undo.to@.map_values(|t: String| JsonView::Text(t@)),
                    ),
                    "cc"@ => JsonView::List(
                        undo.cc@.map_values(|t: String| JsonView::Text(t@)),
                    ),
                ],
            ),
        ),
        inner is Ok,
{
    listed(undo.to@);
    listed(undo.cc@);
}

/// What is read of an announcement is its object, its actor and its id, each as the crate for the
/// format reads it, and the newer format has an id or none.
pub proof fn reading_keeps_properties(
    json: &str,
    read: Result<Received, Error>,
    read07: Result<Received, Error>,
)
    requires
        call_ensures(Received::announce, (json,), read),
        call_ensures(Received::announce07, (json,), read07),
    ensures
        match read {
            Ok(r) => {
                &&& is_announce(json@)
                &&& r.object matches Property::Text(t) ==> object_of(json@) == PropertyView::Text(t@)
                &&& r.object is Absent ==> object_of(json@) == PropertyView::Absent
                &&& r.object is Unreadable ==> object_of(json@) == PropertyView::Unreadable
                &&& r.actor matches Property::Text(t) ==> actor_of(json@) == PropertyView::Text(t@)
                &&& r.actor is Absent ==> actor_of(json@) == PropertyView::Absent
                &&& r.actor is Unreadable ==> actor_of(json@) == PropertyView::Unreadable
                &&& r.id matches Property::Text(t) ==> id_of(json@) == PropertyView::Text(t@)
                &&& r.id is Absent ==> id_of(json@) == PropertyView::Absent
                &&& r.id is Unreadable ==> id_of(json@) == PropertyView::Unreadable
            },
            Err(e) => !is_announce(json@) && e == Error::SerDe,
        },
        match read07 {
            Ok(r) => {
                &&& is_announce07(json@)
                &&& r.object matches Property::Text(t) ==> object07_of(json@) == Some(t@)
                &&& r.object !is Text ==> r.object is Absent && object07_of(json@) is None
                &&& r.actor matches Property::Text(t) ==> actor07_of(json@) == Some(t@)
                &&& r.actor !is Text ==> r.actor is Absent && actor07_of(json@) is None
                &&& r.id matches Property::Text(t) ==> id07_of(json@) == Some(t@)
                &&& r.id !is Text ==> r.id is Absent && id07_of(json@) is None
            },
            Err(e) => !is_announce07(json@) && e == Error::SerDe,
        },
{
}

/// Who reads what was written finds the object, the actor and the id that were written.
pub proof fn reading_gives_back_writing(
    act: Announce,
    json: String,
    text: &str,
    read: Result<Received, Error>,
    act07: Announce07,
    json07: String,
    text07: &str,
    read07: Result<Received, Error>,
)
    requires
        call_ensures(Announce::to_json, (&act,), Ok(json)),
        text@ == json@,
        call_ensures(Received::announce, (text,), read),
        call_ensures(Announce07::to_json, (&act07,), Ok(json07)),
        text07@ == json07@,
        call_ensures(Received::announce07, (text07,), read07),
    ensures
        match read {
            Ok(r) => {
                &&& r.object matches Property::Text(t) && t@ == act.object@
                &&& r.actor matches Property::Text(t) && t@ == act.actor@
                &&& r.id matches Property::Text(t) && t@ == act.id@
            },
            Err(_) => false,
        },
        match read07 {
            Ok(r) => {
                &&& r.object matches Property::Text(t) && t@ == act07.object@
                &&& r.actor matches Property::Text(t) && t@ == act07.actor@
                &&& r.id matches Property::Text(t) && t@ == act07.id@
            },
            Err(_) => false,
        },
{
    if let Ok(r) = read {
        assert(r@.object == PropertyView::Text(act.object@));
        assert(r@.actor == PropertyView::Text(act.actor@));
        assert(r@.id == PropertyView::Text(act.id@));
    }
    if let Ok(r) = read07 {
        assert(r@.object == PropertyView::Text(act07.object@));
        assert(r@.actor == PropertyView::Text(act07.actor@));
        assert(r@.id == PropertyView::Text(act07.id@));
    }
}

/// Whether exactly the local authors of a post were told of a reshare, behind the notifications that
/// were there.
pub open spec fn authors_told(
    users: Seq<User>,
    links: Seq<PostAuthor>,
    before: Seq<Notification>,
    after: Seq<Notification>,
    post_id: i32,
    reshare_id: i32,
) -> bool {
    &&& before.len() <= after.len()
    &&& after.take(before.len() as int) == before
    &&& only_authors_told(users, links, before, after, post_id, reshare_id)
    &&& all_authors_told(users, links, before, after, post_id)
}

/// Whether each notification behind those that were there is about the reshare, for a user who is
/// local and has written the post, and under a number of its own, and no user has two.
#[verifier::opaque]
pub open spec fn only_authors_told(
    users: Seq<User>,
    links: Seq<PostAuthor>,
    before: Seq<Notification>,
    after: Seq<Notification>,
    post_id: i32,
    reshare_id: i32,
) -> bool {
    &&& forall|k: int|
        before.len() <= k < after.len() ==> {
            &&& (#[trigger] after[k]).kind == NotificationKind::Reshare
            &&& after[k].object_id == reshare_id
            &&& exists|i: int|
                {
                    &&& 0 <= i < users.len()
                    &&& (#[trigger] users[i]).id == after[k].user_id
                    &&& users[i].local
                    &&& links.contains(PostAuthor { post_id, author_id: users[i].id })
                }
            &&& forall|j: int| 0 <= j < k ==> (#[trigger] after[j]).id != after[k].id
        }
    &&& (forall|i: int, j: int|
        0 <= i < j < users.len() ==> (#[trigger] users[i]).id != (#[trigger] users[j]).id)
        ==> forall|i: int, j: int|
        before.len() <= i < j < after.len() ==> (#[trigger] after[i]).user_id != (
        #[trigger] after[j]).user_id
}

/// Whether each user who is local and has written the post has a notification behind those that were
/// there.
#[verifier::opaque]
pub open spec fn all_authors_told(
    users: Seq<User>,
    links: Seq<PostAuthor>,
    before: Seq<Notification>,
    after: Seq<Notification>,
    post_id: i32,
) -> bool {
    forall|i: int|
        0 <= i < users.len() && (#[trigger] users[i]).local && links.contains(
            PostAuthor { post_id, author_id: users[i].id },
        ) ==> exists|k: int|
            before.len() <= k < after.len() && (#[trigger] after[k]).user_id == users[i].id
}

/// The local authors of a post are the users who are local and linked to it.
proof fn local_author(users: Seq<User>, links: Seq<PostAuthor>, post_id: i32, user: User)
    ensures
        users.filter(wrote(links, post_id)).filter(is_local()).contains(user) <==> {
            &&& users.contains(user)
            &&& user.local
            &&& links.contains(PostAuthor { post_id, author_id: user.id })
        },
{
    filter_holds(users, wrote(links, post_id));
    filter_holds(users.filter(wrote(links, post_id)), is_local());
}

/// Each notification of a local author is about the reshare, for such an author and under a number
/// of its own.
proof fn notice_is_due(
    users: Seq<User>,
    links: Seq<PostAuthor>,
    before: Seq<Notification>,
    reshare: Reshare,
    locals: Seq<User>,
    k: int,
)
    requires
        locals.is_prefix_of(users.filter(wrote(links, reshare.post_id)).filter(is_local())),
        last_key(before) + locals.len() <= i32::MAX,
        before.len() <= k < before.len() + locals.len(),
    ensures
        ({
            let after = before + notices(reshare, locals, last_key(before) + 1);
            &&& after[k].kind == NotificationKind::Reshare
            &&& after[k].object_id == reshare.id
            &&& exists|i: int|
                {
                    &&& 0 <= i < users.len()
                    &&& (#[trigger] users[i]).id == after[k].user_id
                    &&& users[i].local
                    &&& links.contains(
                        PostAuthor { post_id: reshare.post_id, author_id: users[i].id },
                    )
                }
            &&& forall|j: int| 0 <= j < k ==> (#[trigger] after[j]).id != after[k].id
        }),
{
    let last = last_key(before);
    let after = before + notices(reshare, locals, last + 1);
    let user = locals[k - before.len()];
    let authors = users.filter(wrote(links, reshare.post_id)).filter(is_local());
    assert(authors[k - before.len()] == user);
    local_author(users, links, reshare.post_id, user);
    let i = choose|i: int| 0 <= i < users.len() && users[i] == user;
    assert(users[i].id == after[k].user_id);
    last_key_is_largest(before);
    assert forall|j: int| 0 <= j < k implies (#[trigger] after[j]).id != after[k].id by {
        if j < before.len() {
            assert(before[j].key() <= last);
        }
    }
}

/// Notifications for the local authors, or for the first of them, tell none but them.
proof fn notices_tell_only(
    users: Seq<User>,
    links: Seq<PostAuthor>,
    before: Seq<Notification>,
    reshare: Reshare,
    locals: Seq<User>,
)
    requires
        locals.is_prefix_of(users.filter(wrote(links, reshare.post_id)).filter(is_local())),
        last_key(before) + locals.len() <= i32::MAX,
    ensures
        only_authors_told(
            users,
            links,
            before,
            before + notices(reshare, locals, last_key(before) + 1),
            reshare.post_id,
            reshare.id,
        ),
{
    reveal(only_authors_told);
    let after = before + notices(reshare, locals, last_key(before) + 1);
    assert forall|k: int| before.len() <= k < after.len() implies {
        &&& (#[trigger] after[k]).kind == NotificationKind::Reshare
        &&& after[k].object_id == reshare.id
        &&& exists|i: int|
            {
                &&& 0 <= i < users.len()
                &&& (#[trigger] users[i]).id == after[k].user_id
                &&& users[i].local
                &&& links.contains(
                    PostAuthor { post_id: reshare.post_id, author_id: users[i].id },
                )
            }
        &&& forall|j: int| 0 <= j < k ==> (#[trigger] after[j]).id != after[k].id
    } by {
        notice_is_due(users, links, before, reshare, locals, k);
    }
    if forall|i: int, j: int|
        0 <= i < j < users.len() ==> (#[trigger] users[i]).id != (#[trigger] users[j]).id {
        nobody_is_told_twice(users, links, before, reshare, locals);
    }
}

/// Notifications for the local authors tell each of them.
proof fn notices_tell_all(
    users: Seq<User>,
    links: Seq<PostAuthor>,
    before: Seq<Notification>,
    reshare: Reshare,
    locals: Seq<User>,
)
    requires
        locals == users.filter(wrote(links, reshare.post_id)).filter(is_local()),
    ensures
        all_authors_told(
            users,
            links,
            before,
            before + notices(reshare, locals, last_key(before) + 1),
            reshare.post_id,
        ),
{
    reveal(all_authors_told);
    let after = before + notices(reshare, locals, last_key(before) + 1);
    assert forall|i: int|
        0 <= i < users.len() && (#[trigger] users[i]).local && links.contains(
            PostAuthor { post_id: reshare.post_id, author_id: users[i].id },
        ) implies exists|k: int|
        before.len() <= k < after.len() && (#[trigger] after[k]).user_id == users[i].id by {
        assert(users.contains(users[i]));
        local_author(users, links, reshare.post_id, users[i]);
        let m = choose|m: int| 0 <= m < locals.len() && locals[m] == users[i];
        assert(after[before.len() + m].user_id == users[i].id);
    }
}

/// One notification for each local author tells exactly the local authors.
proof fn notices_tell(
    users: Seq<User>,
    links: Seq<PostAuthor>,
    before: Seq<Notification>,
    reshare: Reshare,
)
    requires
        last_key(before) + users.filter(wrote(links, reshare.post_id)).filter(is_local()).len()
            <= i32::MAX,
    ensures
        authors_told(
            users,
            links,
            before,
            before + notices(
                reshare,
                users.filter(wrote(links, reshare.post_id)).filter(is_local()),
                last_key(before) + 1,
            ),
            reshare.post_id,
            reshare.id,
        ),
{
    let locals = users.filter(wrote(links, reshare.post_id)).filter(is_local());
    let after = before + notices(reshare, locals, last_key(before) + 1);
    assert(after.take(before.len() as int) =~= before);
    notices_tell_only(users, links, before, reshare, locals);
    notices_tell_all(users, links, before, reshare, locals);
}

/// Where no two users share their number, no two notifications of local authors are for one user.
proof fn nobody_is_told_twice(
    users: Seq<User>,
    links: Seq<PostAuthor>,
    before: Seq<Notification>,
    reshare: Reshare,
    locals: Seq<User>,
)
    requires
        locals.is_prefix_of(users.filter(wrote(links, reshare.post_id)).filter(is_local())),
        forall|i: int, j: int|
            0 <= i < j < users.len() ==> (#[trigger] users[i]).id != (#[trigger] users[j]).id,
    ensures
        ({
            let after = before + notices(reshare, locals, last_key(before) + 1);
            forall|i: int, j: int|
                before.len() <= i < j < after.len() ==> (#[trigger] after[i]).user_id != (
                #[trigger] after[j]).user_id
        }),
{
    let authors = users.filter(wrote(links, reshare.post_id));
    let all = authors.filter(is_local());
    let after = before + notices(reshare, locals, last_key(before) + 1);
    assert forall|i: int, j: int| 0 <= i < j < users.len() implies #[trigger] users[i].key()
        != #[trigger] users[j].key() by {
        assert(users[i].id != users[j].id);
    }
    filter_keeps_distinct(users, wrote(links, reshare.post_id));
    filter_keeps_distinct(authors, is_local());
    assert forall|i: int, j: int| before.len() <= i < j < after.len() implies (
    #[trigger] after[i]).user_id != (#[trigger] after[j]).user_id by {
        assert(all[i - before.len()].key() != all[j - before.len()].key());
        assert(locals[i - before.len()] == all[i - before.len()]);
        assert(locals[j - before.len()] == all[j - before.len()]);
    }
}

/// Where no notification has one of the largest numbers, there is room for one to each user.
proof fn room_for_notices(users: Seq<User>, links: Seq<PostAuthor>, before: Seq<Notification>, post_id: i32)
    requires
        users.len() <= i32::MAX,
        forall|n: int| 0 <= n < before.len() ==> (#[trigger] before[n]).id + users.len() <= i32::MAX,
    ensures
        last_key(before) + users.filter(wrote(links, post_id)).filter(is_local()).len() <= i32::MAX,
{
    filter_is_no_longer(users, wrote(links, post_id));
    filter_is_no_longer(users.filter(wrote(links, post_id)), is_local());
    last_key_is_largest(before);
    last_key_is_used(before);
    if last_key(before) > 0 {
        let n = choose|n: int|
            0 <= n < before.len() && (#[trigger] before[n]).key() == last_key(before);
        assert(before[n].id + users.len() <= i32::MAX);
    }
}

/// Notifying the authors of a reshared post tells exactly those who are local, and changes nothing
/// else. Where the post is missing nobody is told; where it is there and numbers are left it works.
pub proof fn notify_tells_local_authors(
    reshare: Reshare,
    conn: &mut Connection,
    done: Result<(), Error>,
)
    requires
        call_ensures(Reshare::notify, (&reshare, conn), done),
    ensures
        done is Ok ==> authors_told(
            old(conn).users@,
            old(conn).post_authors@,
            old(conn).notifications@,
            final(conn).notifications@,
            reshare.post_id,
            reshare.id,
        ),
        old(conn).notifications@.len() <= final(conn).notifications@.len(),
        final(conn).notifications@.take(old(conn).notifications@.len() as int)
            == old(conn).notifications@,
        only_authors_told(
            old(conn).users@,
            old(conn).post_authors@,
            old(conn).notifications@,
            final(conn).notifications@,
            reshare.post_id,
            reshare.id,
        ),
        done matches Err(e) ==> e == Error::Db(DbError::NotFound) || e == Error::Db(DbError::Query),
        done == Err::<(), Error>(Error::Db(DbError::Query)) ==> exists|n: int|
            0 <= n < final(conn).notifications@.len() && (
            #[trigger] final(conn).notifications@[n]).id == i32::MAX,
        (forall|i: int|
            0 <= i < old(conn).posts@.len() ==> (#[trigger] old(conn).posts@[i]).id
                != reshare.post_id) ==> {
            &&& done == Err::<(), Error>(Error::Db(DbError::NotFound))
            &&& final(conn).notifications@ == old(conn).notifications@
        },
        ({
            &&& exists|i: int|
                0 <= i < old(conn).posts@.len() && (#[trigger] old(conn).posts@[i]).id
                    == reshare.post_id
            &&& old(conn).users@.len() <= i32::MAX
            &&& forall|n: int|
                0 <= n < old(conn).notifications@.len() ==> (
                #[trigger] old(conn).notifications@[n]).id + old(conn).users@.len() <= i32::MAX
        }) ==> done is Ok,
        final(conn).now == old(conn).now,
        final(conn).negative == old(conn).negative,
        final(conn).instances@ == old(conn).instances@,
        final(conn).users@ == old(conn).users@,
        final(conn).posts@ == old(conn).posts@,
        final(conn).post_authors@ == old(conn).post_authors@,
        final(conn).reshares@ == old(conn).reshares@,
        final(conn).timeline@ == old(conn).timeline@,
{
    let before = old(conn)@;
    first_match(before.posts, key_is::<Post>(reshare.post_id));
    let authors = before.authors(reshare.post_id);
    local_authors_are_notified(before, reshare, authors);
    assert(final(conn)@ == before.notified(reshare).0);
    assert(final(conn)@.users == before.users);
    let locals = authors.filter(is_local());
    let last = last_key(before.notifications);
    last_key_is_largest(before.notifications);
    if done is Ok {
        notices_tell(before.users, before.post_authors, before.notifications, reshare);
    } else {
        let told = if first_row(with_key(before.posts, reshare.post_id)) is Ok {
            locals.take(i32::MAX - last)
        } else {
            locals.take(0)
        };
        assert(told.is_prefix_of(locals));
        notices_tell_only(
            before.users,
            before.post_authors,
            before.notifications,
            reshare,
            told,
        );
        assert(final(conn)@.notifications =~= before.notifications + notices(
            reshare,
            told,
            last + 1,
        ));
        assert(final(conn)@.notifications.take(before.notifications.len() as int)
            =~= before.notifications);
        if first_row(with_key(before.posts, reshare.post_id)) is Ok {
            last_key_is_used(before.notifications);
            let sent = final(conn)@.notifications;
            if last == i32::MAX {
                let n = choose|n: int|
                    0 <= n < before.notifications.len() && (
                    #[trigger] before.notifications[n]).key() == last;
                assert(sent[n].id == i32::MAX);
            } else {
                assert(sent[sent.len() - 1].id == i32::MAX);
            }
        }
    }
    if {
        &&& old(conn).users@.len() <= i32::MAX
        &&& forall|n: int|
            0 <= n < old(conn).notifications@.len() ==> (
            #[trigger] old(conn).notifications@[n]).id + old(conn).users@.len() <= i32::MAX
    } {
        room_for_notices(
            before.users,
            before.post_authors,
            before.notifications,
            reshare.post_id,
        );
    }
}

/// What a reshare that succeeded leaves: its row behind the others under a number of its own, the
/// local authors told, and the timelines with what was delivered.
proof fn reshared_by_rows(
    tables: Tables,
    new: NewReshare,
    delivery: Option<TimelineEntry>,
)
    ensures
        tables.reshared(new, delivery).1 matches Ok(row) ==> {
            let after = tables.reshared(new, delivery).0;
            &&& row.user_id == new.user_id
            &&& row.post_id == new.post_id
            &&& row.ap_url == new.ap_url
            &&& row.creation_date == tables.now
            &&& forall|i: int|
                0 <= i < tables.reshares.len() ==> (#[trigger] tables.reshares[i]).id != row.id
            &&& after.reshares == tables.reshares.push(row)
            &&& authors_told(
                tables.users,
                tables.post_authors,
                tables.notifications,
                after.notifications,
                new.post_id,
                row.id,
            )
            &&& after.timeline == match delivery {
                Some(entry) => tables.timeline.push(entry),
                None => tables.timeline,
            }
            &&& after.now == tables.now
            &&& after.negative == tables.negative
            &&& after.instances == tables.instances
            &&& after.users == tables.users
            &&& after.posts == tables.posts
            &&& after.post_authors == tables.post_authors
        },
        ({
            &&& exists|i: int|
                0 <= i < tables.posts.len() && (#[trigger] tables.posts[i]).id == new.post_id
            &&& tables.users.len() <= i32::MAX
            &&& forall|n: int|
                0 <= n < tables.notifications.len() ==> (#[trigger] tables.notifications[n]).id
                    + tables.users.len() <= i32::MAX
            &&& forall|n: int|
                0 <= n < tables.reshares.len() ==> (#[trigger] tables.reshares[n]).id != i32::MAX
        }) ==> tables.reshared(new, delivery).1 is Ok,
{
    largest_key(tables.reshares);
    first_match(tables.posts, key_is::<Post>(new.post_id));
    if let Ok(row) = tables.reshared(new, delivery).1 {
        reshare_adds(tables, new, delivery);
        notices_tell(tables.users, tables.post_authors, tables.notifications, row);
        assert(row.id == last_key(tables.reshares) + 1);
        assert forall|i: int| 0 <= i < tables.reshares.len() implies (
        #[trigger] tables.reshares[i]).id != row.id by {
            assert(tables.reshares[i].key() <= last_key(tables.reshares));
        }
    }
    if {
        &&& exists|i: int|
            0 <= i < tables.posts.len() && (#[trigger] tables.posts[i]).id == new.post_id
        &&& tables.users.len() <= i32::MAX
        &&& forall|n: int|
            0 <= n < tables.notifications.len() ==> (#[trigger] tables.notifications[n]).id
                + tables.users.len() <= i32::MAX
        &&& forall|n: int|
            0 <= n < tables.reshares.len() ==> (#[trigger] tables.reshares[n]).id != i32::MAX
    } {
        room_for_notices(
            tables.users,
            tables.post_authors,
            tables.notifications,
            new.post_id,
        );
        if last_key(tables.reshares) == i32::MAX {
            let n = choose|n: int|
                0 <= n < tables.reshares.len() && (#[trigger] tables.reshares[n]).key()
                    == i32::MAX;
            assert(tables.reshares[n].id == i32::MAX);
        }
        reshare_succeeds(tables, new, delivery);
    }
}

/// A post that is announced here, in either format, gets a reshare with the actor, the post and the
/// identifier that were given; its local authors are told, and the timelines get that post from that
/// actor once. Where the post is there and numbers are left it works.
pub proof fn announcing_here(
    post: Post,
    conn: &mut Connection,
    actor: User,
    id: &str,
    done: Result<Reshare, Error>,
)
    requires
        call_ensures(Post::activity, (post, conn, actor, id), done) || call_ensures(
            Post::activity07,
            (post, conn, actor, id),
            done,
        ),
    ensures
        done matches Ok(row) ==> {
            &&& row.user_id == actor.id
            &&& row.post_id == post.id
            &&& row.ap_url@ == id@
            &&& row.creation_date == old(conn).now
            &&& forall|i: int|
                0 <= i < old(conn).reshares@.len() ==> (#[trigger] old(conn).reshares@[i]).id
                    != row.id
            &&& final(conn).reshares@ == old(conn).reshares@.push(row)
            &&& authors_told(
                old(conn).users@,
                old(conn).post_authors@,
                old(conn).notifications@,
                final(conn).notifications@,
                post.id,
                row.id,
            )
            &&& final(conn).timeline@.len() == old(conn).timeline@.len() + 1
            &&& final(conn).timeline@.take(old(conn).timeline@.len() as int)
                == old(conn).timeline@
            &&& final(conn).timeline@.last().post_id == post.id
            &&& final(conn).timeline@.last().actor_id == actor.id
            &&& final(conn).now == old(conn).now
            &&& final(conn).negative == old(conn).negative
            &&& final(conn).instances@ == old(conn).instances@
            &&& final(conn).users@ == old(conn).users@
            &&& final(conn).posts@ == old(conn).posts@
            &&& final(conn).post_authors@ == old(conn).post_authors@
        },
        ({
            &&& exists|i: int|
                0 <= i < old(conn).posts@.len() && (#[trigger] old(conn).posts@[i]).id == post.id
            &&& old(conn).users@.len() <= i32::MAX
            &&& forall|n: int|
                0 <= n < old(conn).notifications@.len() ==> (
                #[trigger] old(conn).notifications@[n]).id + old(conn).users@.len() <= i32::MAX
            &&& forall|n: int|
                0 <= n < old(conn).reshares@.len() ==> (#[trigger] old(conn).reshares@[n]).id
                    != i32::MAX
        }) ==> done is Ok,
        done is Err ==> final(conn).timeline@ == old(conn).timeline@,
        (exists|n: int|
            0 <= n < old(conn).reshares@.len() && (#[trigger] old(conn).reshares@[n]).id
                == i32::MAX) ==> {
            &&& done == Err::<Reshare, Error>(Error::Db(DbError::Query))
            &&& final(conn)@ == old(conn)@
        },
        ({
            &&& forall|n: int|
                0 <= n < old(conn).reshares@.len() ==> (#[trigger] old(conn).reshares@[n]).id
                    != i32::MAX
            &&& forall|i: int|
                0 <= i < old(conn).posts@.len() ==> (#[trigger] old(conn).posts@[i]).id != post.id
        }) ==> {
            &&& done == Err::<Reshare, Error>(Error::Db(DbError::NotFound))
            &&& final(conn).notifications@ == old(conn).notifications@
            &&& final(conn).reshares@.len() == old(conn).reshares@.len() + 1
            &&& final(conn).reshares@.take(old(conn).reshares@.len() as int)
                == old(conn).reshares@
            &&& final(conn).reshares@.last().user_id == actor.id
            &&& final(conn).reshares@.last().post_id == post.id
            &&& final(conn).reshares@.last().ap_url@ == id@
        },
{
    let before = old(conn)@;
    largest_key(before.reshares);
    if exists|n: int|
        0 <= n < before.reshares.len() && (#[trigger] before.reshares[n]).id == i32::MAX {
        let n = choose|n: int|
            0 <= n < before.reshares.len() && (#[trigger] before.reshares[n]).id == i32::MAX;
        assert(before.reshares[n].key() == i32::MAX);
    } else if last_key(before.reshares) == i32::MAX {
        let n = choose|n: int|
            0 <= n < before.reshares.len() && (#[trigger] before.reshares[n]).key() == i32::MAX;
        assert(before.reshares[n].id == i32::MAX);
    }
    let entry = TimelineEntry { post_id: post.id, actor_id: actor.id };
    let ap_url = choose|ap_url: String|
        {
            &&& ap_url@ == id@
            &&& (final(conn)@, done) == #[trigger] before.reshared(
                NewReshare { user_id: actor.id, post_id: post.id, ap_url },
                Some(TimelineEntry { post_id: post.id, actor_id: actor.id }),
            )
        };
    let new = NewReshare { user_id: actor.id, post_id: post.id, ap_url };
    assert((final(conn)@, done) == before.reshared(new, Some(entry)));
    reshared_by_rows(before, new, Some(entry));
    assert(final(conn)@ == before.reshared(new, Some(entry)).0);
    if done is Ok {
        reshare_adds(before, new, Some(entry));
        first_match(before.posts, key_is::<Post>(post.id));
        assert(final(conn)@.reshares == before.reshares.push(done->Ok_0));
        assert(final(conn)@.timeline == before.timeline.push(entry));
        assert(final(conn).timeline@.take(before.timeline.len() as int) =~= before.timeline);
    } else {
        let (stored, row) = before.reshare_added(new);
        if row is Ok {
            first_match(stored.posts, key_is::<Post>(post.id));
            assert(stored.reshares.take(before.reshares.len() as int) =~= before.reshares);
            if first_row(with_key(stored.posts, post.id)) is Ok {
                let found = first_row(with_key(stored.posts, post.id))->Ok_0;
                local_authors_are_notified(stored, row->Ok_0, stored.authors(found.id));
            }
        }
        assert(final(conn)@.timeline == before.timeline);
    }
}

/// Whether the first post with the identifier `url` is the one numbered `id`.
pub open spec fn is_post_at(posts: Seq<Post>, url: Seq<char>, id: i32) -> bool {
    exists|i: int|
        {
            &&& 0 <= i < posts.len()
            &&& (#[trigger] posts[i]).ap_url@ == url
            &&& posts[i].id == id
            &&& forall|j: int| 0 <= j < i ==> (#[trigger] posts[j]).ap_url@ != url
        }
}

/// Whether the first user with the identifier `url`, whoever they are, is the one numbered `id`.
pub open spec fn is_user_at(users: Seq<User>, url: Seq<char>, id: i32) -> bool {
    exists|i: int|
        {
            &&& 0 <= i < users.len()
            &&& (#[trigger] users[i]).ap_url@ == url
            &&& users[i].id == id
            &&& forall|j: int| 0 <= j < i ==> (#[trigger] users[j]).ap_url@ != url
        }
}

/// Whether a received announcement that was stored left what it should: a reshare of the post that
/// is its object by the user who is its actor, under its id, with the local authors told of it.
pub open spec fn stored_rightly(
    before: Tables,
    after: Tables,
    object: Seq<char>,
    actor: Seq<char>,
    id: Seq<char>,
    row: Reshare,
) -> bool {
    &&& is_post_at(before.posts, object, row.post_id)
    &&& is_user_at(before.users, actor, row.user_id)
    &&& row.ap_url@ == id
    &&& row.creation_date == before.now
    &&& forall|i: int|
        0 <= i < before.reshares.len() ==> (#[trigger] before.reshares[i]).id != row.id
    &&& after.reshares == before.reshares.push(row)
    &&& authors_told(
        before.users,
        before.post_authors,
        before.notifications,
        after.notifications,
        row.post_id,
        row.id,
    )
    &&& after.timeline == before.timeline
    &&& after.now == before.now
    &&& after.negative == before.negative
    &&& after.instances == before.instances
    &&& after.users == before.users
    &&& after.posts == before.posts
    &&& after.post_authors == before.post_authors
}

/// Whether a table has a post at the identifier `url`.
pub open spec fn has_post_at(posts: Seq<Post>, url: Seq<char>) -> bool {
    exists|i: int| 0 <= i < posts.len() && (#[trigger] posts[i]).ap_url@ == url
}

/// Whether a table has a user at the identifier `url`.
pub open spec fn has_user_at(users: Seq<User>, url: Seq<char>) -> bool {
    exists|i: int| 0 <= i < users.len() && (#[trigger] users[i]).ap_url@ == url
}

/// Whether numbers are left for a reshare and for a notification to each user.
pub open spec fn has_room(tables: Tables) -> bool {
    &&& tables.users.len() <= i32::MAX
    &&& forall|n: int|
        0 <= n < tables.notifications.len() ==> (#[trigger] tables.notifications[n]).id
            + tables.users.len() <= i32::MAX
    &&& forall|n: int|
        0 <= n < tables.reshares.len() ==> (#[trigger] tables.reshares[n]).id != i32::MAX
}

/// Whether an announcement with these properties was answered as it should be. Where the tables have
/// a post at its object and a user at its actor, and numbers are left, it is stored. What is missing
/// is told in the order object, actor, id, and then nothing changes.
pub open spec fn received_rightly(
    before: Tables,
    after: Tables,
    object: PropertyView,
    actor: PropertyView,
    id: PropertyView,
    done: Result<Reshare, Error>,
) -> bool {
    match object {
        PropertyView::Absent => done == Err::<Reshare, Error>(Error::MissingApProperty) && after
            == before,
        PropertyView::Unreadable => done == Err::<Reshare, Error>(Error::SerDe) && after == before,
        PropertyView::Text(o) => if !has_post_at(before.posts, o) {
            done == Err::<Reshare, Error>(Error::Request) && after == before
        } else {
            match actor {
                PropertyView::Absent => done == Err::<Reshare, Error>(Error::MissingApProperty)
                    && after == before,
                PropertyView::Unreadable => done == Err::<Reshare, Error>(Error::SerDe) && after
                    == before,
                PropertyView::Text(a) => if !has_user_at(before.users, a) {
                    done == Err::<Reshare, Error>(Error::Request) && after == before
                } else {
                    match id {
                        PropertyView::Absent => done == Err::<Reshare, Error>(
                            Error::MissingApProperty,
                        ) && after == before,
                        PropertyView::Unreadable => done == Err::<Reshare, Error>(Error::SerDe)
                            && after == before,
                        PropertyView::Text(u) => {
                            &&& has_room(before) ==> done is Ok
                            &&& done matches Ok(row) ==> stored_rightly(
                                before,
                                after,
                                o,
                                a,
                                u,
                                row,
                            )
                            &&& done matches Err(e) ==> e == Error::Db(DbError::Query)
                        },
                    }
                },
            }
        },
    }
}

/// What the tables make of an announcement is what they should.
proof fn reception(before: Tables, act: Received)
    ensures
        received_rightly(
            before,
            before.received(act).0,
            act.object@,
            act.actor@,
            act.id@,
            before.received(act).1,
        ),
{
    if let Property::Text(o) = act.object {
        first_match(before.posts, post_url_is(o@));
        let posts = before.posts.filter(post_url_is(o@));
        if posts.len() > 0 {
            assert(first_row(posts) == Ok::<Post, Error>(posts[0]));
            assert(is_post_at(before.posts, o@, posts[0].id));
            assert(has_post_at(before.posts, o@));
            if let Property::Text(a) = act.actor {
                first_match(before.users, user_url_is(a@));
                let users = before.users.filter(user_url_is(a@));
                if users.len() > 0 {
                    assert(first_row(users) == Ok::<User, Error>(users[0]));
                    assert(is_user_at(before.users, a@, users[0].id));
                    assert(has_user_at(before.users, a@));
                    if let Property::Text(u) = act.id {
                        let new = NewReshare {
                            user_id: users[0].id,
                            post_id: posts[0].id,
                            ap_url: u,
                        };
                        assert(before.received(act) == before.reshared(new, None));
                        reshared_by_rows(before, new, None);
                        only_numbers_run_out(before, new);
                    }
                } else {
                    assert(!has_user_at(before.users, a@));
                }
            }
        } else {
            assert(!has_post_at(before.posts, o@));
        }
    }
}

/// Resharing a post that is there fails only where numbers run out.
proof fn only_numbers_run_out(tables: Tables, new: NewReshare)
    requires
        exists|i: int|
            0 <= i < tables.posts.len() && (#[trigger] tables.posts[i]).id == new.post_id,
    ensures
        tables.reshared(new, None).1 matches Err(e) ==> e == Error::Db(DbError::Query),
{
    first_match(tables.posts, key_is::<Post>(new.post_id));
    let (stored, row) = tables.reshare_added(new);
    if row is Ok {
        let found = first_row(with_key(stored.posts, new.post_id))->Ok_0;
        local_authors_are_notified(stored, row->Ok_0, stored.authors(found.id));
    }
}

/// An announcement that was read is answered by what the tables hold: it is stored where its object
/// is at a post and its actor at a user, local or not, and else refused.
pub proof fn reception_by_rows(conn: &mut Connection, act: Received, done: Result<Reshare, Error>)
    requires
        call_ensures(Reshare::from_received, (conn, act), done),
    ensures
        received_rightly(
            old(conn)@,
            final(conn)@,
            act.object@,
            act.actor@,
            act.id@,
            done,
        ),
{
    reception(old(conn)@, act);
    assert((final(conn)@, done) == old(conn)@.received(act));
}

/// An announcement in JSON, in the older format, is answered by what the tables hold for the object,
/// the actor and the id that are read from it; what is no announcement changes nothing.
pub proof fn json_reception_by_rows(conn: &mut Connection, json: &str, done: Result<Reshare, Error>)
    requires
        call_ensures(Reshare::from_activity, (conn, json), done),
    ensures
        is_announce(json@) ==> received_rightly(
            old(conn)@,
            final(conn)@,
            object_of(json@),
            actor_of(json@),
            id_of(json@),
            done,
        ),
        !is_announce(json@) ==> done == Err::<Reshare, Error>(Error::SerDe) && final(conn)@ == old(
            conn,
        )@,
{
    if is_announce(json@) {
        let act = choose|act: Received|
            act@ == Received::spec_announce(json@) && (final(conn)@, done)
                == #[trigger] old(conn)@.received(act);
        assert((final(conn)@, done) == old(conn)@.received(act));
        reception(old(conn)@, act);
        assert(act.object@ == act@.object && act.actor@ == act@.actor && act.id@ == act@.id);
    }
}

/// An announcement in JSON, in the newer format, is answered by what the tables hold for the object,
/// the actor and the id that are read from it; what is no announcement changes nothing.
pub proof fn json07_reception_by_rows(
    conn: &mut Connection,
    json: &str,
    done: Result<Reshare, Error>,
)
    requires
        call_ensures(Reshare::from_activity07, (conn, json), done),
    ensures
        is_announce07(json@) ==> received_rightly(
            old(conn)@,
            final(conn)@,
            match object07_of(json@) {
                Some(text) => PropertyView::Text(text),
                None => PropertyView::Absent,
            },
            match actor07_of(json@) {
                Some(text) => PropertyView::Text(text),
                None => PropertyView::Absent,
            },
            match id07_of(json@) {
                Some(text) => PropertyView::Text(text),
                None => PropertyView::Absent,
            },
            done,
        ),
        !is_announce07(json@) ==> done == Err::<Reshare, Error>(Error::SerDe) && final(conn)@
            == old(conn)@,
{
    if is_announce07(json@) {
        let act = choose|act: Received|
            act@ == Received::spec_announce07(json@) && (final(conn)@, done)
                == #[trigger] old(conn)@.received(act);
        assert((final(conn)@, done) == old(conn)@.received(act));
        reception(old(conn)@, act);
        assert(act.object@ == act@.object && act.actor@ == act@.actor && act.id@ == act@.id);
    }
}

/// What comes in as it was announced elsewhere becomes a reshare of the post at the announced object
/// by the user at the announced actor, under the announced id.
pub proof fn announced_is_received(
    act: Announce,
    json: String,
    conn: &mut Connection,
    text: &str,
    done: Result<Reshare, Error>,
)
    requires
        call_ensures(Announce::to_json, (&act,), Ok(json)),
        text@ == json@,
        call_ensures(Reshare::from_activity, (conn, text), done),
        has_post_at(old(conn)@.posts, act.object@),
        has_user_at(old(conn)@.users, act.actor@),
        has_room(old(conn)@),
    ensures
        done matches Ok(row) && stored_rightly(
            old(conn)@,
            final(conn)@,
            act.object@,
            act.actor@,
            act.id@,
            row,
        ),
{
    json_reception_by_rows(conn, text, done);
    assert(Received::spec_announce(json@) == act@.received());
    assert(object_of(json@) == PropertyView::Text(act.object@));
    assert(actor_of(json@) == PropertyView::Text(act.actor@));
    assert(id_of(json@) == PropertyView::Text(act.id@));
}

/// What comes in as it was announced elsewhere in the newer format becomes a reshare of the post at
/// the announced object by the user at the announced actor, under the announced id.
pub proof fn announced07_is_received(
    act: Announce07,
    json: String,
    conn: &mut Connection,
    text: &str,
    done: Result<Reshare, Error>,
)
    requires
        call_ensures(Announce07::to_json, (&act,), Ok(json)),
        text@ == json@,
        call_ensures(Reshare::from_activity07, (conn, text), done),
        has_post_at(old(conn)@.posts, act.object@),
        has_user_at(old(conn)@.users, act.actor@),
        has_room(old(conn)@),
    ensures
        done matches Ok(row) && stored_rightly(
            old(conn)@,
            final(conn)@,
            act.object@,
            act.actor@,
            act.id@,
            row,
        ),
{
    json07_reception_by_rows(conn, text, done);
    assert(Received::spec_announce07(json@) == act@.received());
    assert(Property::view_of_id(object07_of(json@)) == PropertyView::Text(act.object@));
    assert(Property::view_of_id(actor07_of(json@)) == PropertyView::Text(act.actor@));
    assert(Property::view_of_id(id07_of(json@)) == PropertyView::Text(act.id@));
}

/// A reshare is withdrawn by the one who made it and by nobody else: for anyone else nothing changes.
/// Its row goes and every other stays. Of the notifications, the first that is of the kind for
/// reshares and about this one goes, and every other stays: each of another kind, and each about
/// another object. Nothing else changes.
pub proof fn withdrawal_by_owner(
    reshare: Reshare,
    conn: &mut Connection,
    actor: User,
    id: &str,
    done: Result<(), Error>,
)
    requires
        call_ensures(Reshare::activity, (reshare, conn, actor, id), done),
        old(conn)@.wf(),
    ensures
        actor.id != reshare.user_id ==> done == Err::<(), Error>(Error::Unauthorized)
            && final(conn)@ == old(conn)@,
        actor.id == reshare.user_id ==> {
            &&& done == Ok::<(), Error>(())
            &&& forall|row: Reshare| #[trigger]
                final(conn).reshares@.contains(row) <==> old(conn).reshares@.contains(row)
                    && row.id != reshare.id
            &&& forall|n: Notification| #[trigger]
                old(conn).notifications@.contains(n) && (n.kind != NotificationKind::Reshare
                    || n.object_id != reshare.id) ==> final(conn).notifications@.contains(n)
            &&& if forall|n: int|
                0 <= n < old(conn).notifications@.len() ==> (
                #[trigger] old(conn).notifications@[n]).kind != NotificationKind::Reshare
                    || old(conn).notifications@[n].object_id != reshare.id {
                final(conn).notifications@ == old(conn).notifications@
            } else {
                exists|n: int|
                    {
                        &&& 0 <= n < old(conn).notifications@.len()
                        &&& old(conn).notifications@[n].kind == NotificationKind::Reshare
                        &&& old(conn).notifications@[n].object_id == reshare.id
                        &&& final(conn).notifications@ == #[trigger] old(
                            conn,
                        ).notifications@.remove(n)
                        &&& forall|m: int|
                            0 <= m < n ==> (#[trigger] old(conn).notifications@[m]).kind
                                != NotificationKind::Reshare || old(conn).notifications@[m].object_id
                                != reshare.id
                    }
            }
            &&& final(conn).now == old(conn).now
            &&& final(conn).negative == old(conn).negative
            &&& final(conn).instances@ == old(conn).instances@
            &&& final(conn).users@ == old(conn).users@
            &&& final(conn).posts@ == old(conn).posts@
            &&& final(conn).post_authors@ == old(conn).post_authors@
            &&& final(conn).timeline@ == old(conn).timeline@
        },
{
    let before = old(conn)@;
    assert(final(conn)@ == before.withdrawn(reshare, actor.id).0);
    if actor.id == reshare.user_id {
        assert(final(conn)@.reshares == without_key(before.reshares, reshare.id));
        filter_holds(before.reshares, key_is_not::<Reshare>(reshare.id));
        first_match(
            before.notifications,
            is_about(NotificationKind::Reshare, reshare.id),
        );
        let about = before.notifications.filter(is_about(NotificationKind::Reshare, reshare.id));
        if about.len() > 0 {
            assert(first_row(about) == Ok::<Notification, Error>(about[0]));
            let n = choose|n: int|
                {
                    &&& 0 <= n < before.notifications.len()
                    &&& #[trigger] before.notifications[n] == about[0]
                    &&& forall|m: int|
                        0 <= m < n ==> !is_about(NotificationKind::Reshare, reshare.id)(
                            #[trigger] before.notifications[m],
                        )
                };
            removal_takes_one(before.notifications, n);
            filter_holds(before.notifications, key_is_not::<Notification>(about[0].id));
            assert(final(conn)@.notifications == before.notifications.remove(n));
            assert forall|k: Notification| #[trigger]
                old(conn).notifications@.contains(k) && (k.kind != NotificationKind::Reshare
                    || k.object_id != reshare.id) implies final(conn).notifications@.contains(
                k,
            ) by {
                let p = choose|p: int|
                    0 <= p < before.notifications.len() && before.notifications[p] == k;
                if p < n {
                    assert(before.notifications[p].key() != before.notifications[n].key());
                } else if n < p {
                    assert(before.notifications[n].key() != before.notifications[p].key());
                }
            }
            assert(old(conn).notifications@[n].kind == NotificationKind::Reshare);
            assert(old(conn).notifications@[n].object_id == reshare.id);
            assert forall|m: int| 0 <= m < n implies (
            #[trigger] old(conn).notifications@[m]).kind != NotificationKind::Reshare || old(
                conn,
            ).notifications@[m].object_id != reshare.id by {
                assert(!is_about(NotificationKind::Reshare, reshare.id)(
                    before.notifications[m],
                ));
            }
        }
    }
}

/// A failed reply ends a task with the same failure. The one task that goes on is the withdrawal
/// whose notification was not found: it is done, with its reshare.
pub proof fn failed_replies(task: Task, e: Error, step: Step)
    requires
        call_ensures(Task::resume, (task, Err::<Reply, Error>(e)), step),
    ensures
        step == match task {
            Task::FindNotification { reshare } => Step::Finish(Ok::<Reshare, Error>(reshare)),
            _ => Step::Finish(Err::<Reshare, Error>(e)),
        },
{
}

/// What is announced from lookups that were made: the actor from the first, the object from the
/// second, the followers from the third. The first lookup that failed is the answer.
pub proof fn announcement_from_lookups(
    reshare: Reshare,
    actor: Result<User, Error>,
    post: Result<Post, Error>,
    sharer: Result<User, Error>,
    act: Result<Announce, Error>,
)
    requires
        call_ensures(Reshare::announce_from, (&reshare, actor, post, sharer), act),
    ensures
        actor matches Err(e) ==> act == Err::<Announce, Error>(e),
        actor is Ok ==> (post matches Err(e) ==> act == Err::<Announce, Error>(e)),
        actor is Ok && post is Ok ==> (sharer matches Err(e) ==> act == Err::<Announce, Error>(e)),
        actor is Ok && post is Ok && sharer is Ok ==> match act {
            Ok(a) => {
                &&& a.actor@ == actor->Ok_0.ap_url@
                &&& a.object@ == post->Ok_0.ap_url@
                &&& a.id@ == reshare.ap_url@
                &&& a.to@.len() == 1
                &&& a.to@[0]@ == "https://www.w3.org/ns/activitystreams#Public"@
                &&& a.cc@.len() == 1
                &&& a.cc@[0]@ == sharer->Ok_0.followers_endpoint@
            },
            Err(_) => false,
        },
{
    if let Ok(a) = act {
        assert(texts(a.to@) == a@.to && texts(a.cc@) == a@.cc);
        assert(texts(a.to@)[0] == a.to@[0]@ && texts(a.cc@)[0] == a.cc@[0]@);
    }
}

/// What is announced in the newer format from lookups that were made: the same, where the addresses
/// are IRIs. The first lookup that failed, or address that is none, is the answer.
pub proof fn announcement07_from_lookups(
    reshare: Reshare,
    actor: Result<User, Error>,
    post: Result<Post, Error>,
    sharer: Result<User, Error>,
    act: Result<Announce07, Error>,
)
    requires
        call_ensures(Reshare::announce07_from, (&reshare, actor, post, sharer), act),
    ensures
        actor matches Err(e) ==> act == Err::<Announce07, Error>(e),
        actor matches Ok(user) ==> !is_iri(user.ap_url@) ==> act == Err::<Announce07, Error>(
            Error::Url,
        ),
        actor matches Ok(user) ==> is_iri(user.ap_url@) ==> (post matches Err(e) ==> act == Err::<
            Announce07,
            Error,
        >(e)),
        actor is Ok && post is Ok && is_iri(actor->Ok_0.ap_url@) ==> {
            if is_iri(post->Ok_0.ap_url@) && is_iri(reshare.ap_url@) {
                match sharer {
                    Err(e) => act == Err::<Announce07, Error>(e),
                    Ok(sharer) => match act {
                        Ok(a) => {
                            &&& is_iri(sharer.followers_endpoint@)
                            &&& a.actor@ == actor->Ok_0.ap_url@
                            &&& a.object@ == post->Ok_0.ap_url@
                            &&& a.id@ == reshare.ap_url@
                            &&& a.to@.len() == 1
                            &&& a.to@[0]@ == "https://www.w3.org/ns/activitystreams#Public"@
                            &&& a.cc@.len() == 1
                            &&& a.cc@[0]@ == sharer.followers_endpoint@
                        },
                        Err(e) => e == Error::Url && !is_iri(sharer.followers_endpoint@),
                    },
                }
            } else {
                act == Err::<Announce07, Error>(Error::Url)
            }
        },
{
    if let Ok(a) = act {
        assert(texts(a.to@) == a@.to && texts(a.cc@) == a@.cc);
        assert(texts(a.to@)[0] == a.to@[0]@ && texts(a.cc@)[0] == a.cc@[0]@);
    }
}

/// What withdraws a reshare, from lookups that were made: the actor from the first, the announcement
/// from the second, the followers from the third. The first lookup that failed is the answer.
pub proof fn withdrawal_from_lookups(
    reshare: Reshare,
    actor: Result<User, Error>,
    object: Result<Announce, Error>,
    sharer: Result<User, Error>,
    undo: Result<Undo, Error>,
)
    requires
        call_ensures(Reshare::undo_from, (&reshare, actor, object, sharer), undo),
    ensures
        actor matches Err(e) ==> undo == Err::<Undo, Error>(e),
        actor is Ok ==> (object matches Err(e) ==> undo == Err::<Undo, Error>(e)),
        actor is Ok && object is Ok ==> (sharer matches Err(e) ==> undo == Err::<Undo, Error>(e)),
        actor is Ok && object is Ok && sharer is Ok ==> match undo {
            Ok(u) => {
                &&& u.actor@ == actor->Ok_0.ap_url@
                &&& u.object.actor@ == object->Ok_0.actor@
                &&& u.object.object@ == object->Ok_0.object@
                &&& u.object.id@ == object->Ok_0.id@
                &&& u.id@ == reshare.ap_url@ + "#delete"@
                &&& u.to@.len() == 1
                &&& u.to@[0]@ == "https://www.w3.org/ns/activitystreams#Public"@
                &&& u.cc@.len() == 1
                &&& u.cc@[0]@ == sharer->Ok_0.followers_endpoint@
            },
            Err(_) => false,
        },
{
    if let Ok(u) = undo {
        assert(texts(u.to@) == u@.to && texts(u.cc@) == u@.cc);
        assert(texts(u.to@)[0] == u.to@[0]@ && texts(u.cc@)[0] == u.cc@[0]@);
        assert(u.object@ == u@.object);
    }
}

} // verus!
