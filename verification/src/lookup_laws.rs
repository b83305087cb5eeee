//! What lookups find, in terms of the rows that the tables hold.
use crate::connection::Connection;
use crate::error::{DbError, Error};
use crate::instance::{administers, domain_is, local_is, Instance, LocalInstance};
use crate::notifications::{is_about, NewNotification, Notification, NotificationKind};
use crate::posts::{post_url_is, wrote, Post, PostAuthor};
use crate::query::{
    filter_holds, first_match, first_row, key_is, key_is_not, last_key, last_key_is_largest,
    last_key_is_used, Row,
};
use crate::reshare::{made_by_of, reshare_url_is, Reshare};
use crate::users::{user_url_is, Role, User};
use vstd::prelude::*;

verus! {

/// A user is found by their identifier if and only if a row has it, whoever they are: the first
/// such row.
pub proof fn user_by_url(conn: Connection, url: &str, found: Result<User, Error>)
    requires
        call_ensures(User::find_by_ap_url, (&conn, url), found),
    ensures
        match found {
            Ok(user) => {
                &&& user.ap_url@ == url@
                &&& exists|i: int|
                    {
                        &&& 0 <= i < conn.users@.len()
                        &&& #[trigger] conn.users@[i] == user
                        &&& forall|j: int| 0 <= j < i ==> (#[trigger] conn.users@[j]).ap_url@ != url@
                    }
            },
            Err(e) => {
                &&& e == Error::Db(DbError::NotFound)
                &&& forall|i: int|
                    0 <= i < conn.users@.len() ==> (#[trigger] conn.users@[i]).ap_url@ != url@
            },
        },
{
    first_match(conn.users@, user_url_is(url@));
}

/// A post is found by its identifier if and only if a row has it: the first such row.
pub proof fn post_by_url(conn: Connection, url: &str, found: Result<Post, Error>)
    requires
        call_ensures(Post::find_by_ap_url, (&conn, url), found),
    ensures
        match found {
            Ok(post) => {
                &&& post.ap_url@ == url@
                &&& exists|i: int|
                    {
                        &&& 0 <= i < conn.posts@.len()
                        &&& #[trigger] conn.posts@[i] == post
                        &&& forall|j: int| 0 <= j < i ==> (#[trigger] conn.posts@[j]).ap_url@ != url@
                    }
            },
            Err(e) => {
                &&& e == Error::Db(DbError::NotFound)
                &&& forall|i: int|
                    0 <= i < conn.posts@.len() ==> (#[trigger] conn.posts@[i]).ap_url@ != url@
            },
        },
{
    first_match(conn.posts@, post_url_is(url@));
}

/// A reshare is found by its identifier, through each of the three ways to ask, if and only if a
/// row has it: the first such row.
pub proof fn reshare_by_url(conn: Connection, url: &str, found: Result<Reshare, Error>)
    requires
        call_ensures(Reshare::find_by_ap_url, (&conn, url), found) || call_ensures(
            Reshare::from_db,
            (&conn, url),
            found,
        ) || call_ensures(Reshare::from_db07, (&conn, url), found),
    ensures
        match found {
            Ok(row) => {
                &&& row.ap_url@ == url@
                &&& exists|i: int|
                    {
                        &&& 0 <= i < conn.reshares@.len()
                        &&& #[trigger] conn.reshares@[i] == row
                        &&& forall|j: int|
                            0 <= j < i ==> (#[trigger] conn.reshares@[j]).ap_url@ != url@
                    }
            },
            Err(e) => {
                &&& e == Error::Db(DbError::NotFound)
                &&& forall|i: int|
                    0 <= i < conn.reshares@.len() ==> (#[trigger] conn.reshares@[i]).ap_url@ != url@
            },
        },
{
    first_match(conn.reshares@, reshare_url_is(url@));
}

/// The reshare of a post by a user is found if and only if a row has both: that user and that post.
pub proof fn reshare_by_user_and_post(
    conn: Connection,
    user_id: i32,
    post_id: i32,
    found: Result<Reshare, Error>,
)
    requires
        call_ensures(Reshare::find_by_user_on_post, (&conn, user_id, post_id), found),
    ensures
        match found {
            Ok(row) => {
                &&& row.user_id == user_id
                &&& row.post_id == post_id
                &&& exists|i: int|
                    {
                        &&& 0 <= i < conn.reshares@.len()
                        &&& #[trigger] conn.reshares@[i] == row
                        &&& forall|j: int|
                            0 <= j < i ==> (#[trigger] conn.reshares@[j]).user_id != user_id
                                || conn.reshares@[j].post_id != post_id
                    }
            },
            Err(e) => {
                &&& e == Error::Db(DbError::NotFound)
                &&& forall|i: int|
                    0 <= i < conn.reshares@.len() ==> (#[trigger] conn.reshares@[i]).user_id
                        != user_id || conn.reshares@[i].post_id != post_id
            },
        },
{
    first_match(conn.reshares@, made_by_of(user_id, post_id));
}

/// An instance is found by its domain if and only if a row has it: the first such row.
pub proof fn instance_by_domain(conn: Connection, domain: &str, found: Result<Instance, Error>)
    requires
        call_ensures(Instance::find_by_domain, (&conn, domain), found),
    ensures
        match found {
            Ok(row) => {
                &&& row.public_domain@ == domain@
                &&& exists|i: int|
                    {
                        &&& 0 <= i < conn.instances@.len()
                        &&& #[trigger] conn.instances@[i] == row
                        &&& forall|j: int|
                            0 <= j < i ==> (#[trigger] conn.instances@[j]).public_domain@ != domain@
                    }
            },
            Err(e) => {
                &&& e == Error::Db(DbError::NotFound)
                &&& forall|i: int|
                    0 <= i < conn.instances@.len() ==> (
                    #[trigger] conn.instances@[i]).public_domain@ != domain@
            },
        },
{
    first_match(conn.instances@, domain_is(domain@));
}

/// An instance, a reshare, a post and a user are found by their number if and only if a row has it.
pub proof fn rows_by_number(
    conn: Connection,
    id: i32,
    instance: Result<Instance, Error>,
    reshare: Result<Reshare, Error>,
    post: Result<Post, Error>,
    user: Result<User, Error>,
)
    requires
        call_ensures(Instance::get, (&conn, id), instance),
        call_ensures(Reshare::get, (&conn, id), reshare),
        call_ensures(Post::get, (&conn, id), post),
        call_ensures(User::get, (&conn, id), user),
    ensures
        match instance {
            Ok(row) => row.id == id && conn.instances@.contains(row),
            Err(e) => {
                &&& e == Error::Db(DbError::NotFound)
                &&& forall|i: int|
                    0 <= i < conn.instances@.len() ==> (#[trigger] conn.instances@[i]).id != id
            },
        },
        match reshare {
            Ok(row) => row.id == id && conn.reshares@.contains(row),
            Err(e) => {
                &&& e == Error::Db(DbError::NotFound)
                &&& forall|i: int|
                    0 <= i < conn.reshares@.len() ==> (#[trigger] conn.reshares@[i]).id != id
            },
        },
        match post {
            Ok(row) => row.id == id && conn.posts@.contains(row),
            Err(e) => {
                &&& e == Error::Db(DbError::NotFound)
                &&& forall|i: int|
                    0 <= i < conn.posts@.len() ==> (#[trigger] conn.posts@[i]).id != id
            },
        },
        match user {
            Ok(row) => row.id == id && conn.users@.contains(row),
            Err(e) => {
                &&& e == Error::Db(DbError::NotFound)
                &&& forall|i: int|
                    0 <= i < conn.users@.len() ==> (#[trigger] conn.users@[i]).id != id
            },
        },
{
    first_match(conn.instances@, key_is::<Instance>(id));
    first_match(conn.reshares@, key_is::<Reshare>(id));
    first_match(conn.posts@, key_is::<Post>(id));
    first_match(conn.users@, key_is::<User>(id));
}

/// The post and the user of a reshare are the rows with the numbers that it names.
pub proof fn rows_of_a_reshare(
    conn: Connection,
    reshare: Reshare,
    post: Result<Post, Error>,
    user: Result<User, Error>,
)
    requires
        call_ensures(Reshare::get_post, (&reshare, &conn), post),
        call_ensures(Reshare::get_user, (&reshare, &conn), user),
    ensures
        match post {
            Ok(row) => row.id == reshare.post_id && conn.posts@.contains(row),
            Err(e) => {
                &&& e == Error::Db(DbError::NotFound)
                &&& forall|i: int|
                    0 <= i < conn.posts@.len() ==> (#[trigger] conn.posts@[i]).id
                        != reshare.post_id
            },
        },
        match user {
            Ok(row) => row.id == reshare.user_id && conn.users@.contains(row),
            Err(e) => {
                &&& e == Error::Db(DbError::NotFound)
                &&& forall|i: int|
                    0 <= i < conn.users@.len() ==> (#[trigger] conn.users@[i]).id
                        != reshare.user_id
            },
        },
{
    first_match(conn.posts@, key_is::<Post>(reshare.post_id));
    first_match(conn.users@, key_is::<User>(reshare.user_id));
}

/// The local instances that are listed are the rows that are local, the remote ones the rows that
/// are not, and no row is left out of both or listed more often than it is there.
pub proof fn listed_instances(
    conn: Connection,
    locals: Result<Vec<Instance>, Error>,
    remotes: Result<Vec<Instance>, Error>,
)
    requires
        call_ensures(Instance::get_locals, (&conn,), locals),
        call_ensures(Instance::get_remotes, (&conn,), remotes),
    ensures
        match (locals, remotes) {
            (Ok(locals), Ok(remotes)) => {
                &&& forall|row: Instance| #[trigger]
                    locals@.contains(row) <==> conn.instances@.contains(row) && row.local
                &&& forall|row: Instance| #[trigger]
                    remotes@.contains(row) <==> conn.instances@.contains(row) && !row.local
                &&& (locals@ + remotes@).to_multiset() == conn.instances@.to_multiset()
            },
            _ => false,
        },
{
    filter_holds(conn.instances@, local_is(true));
    filter_holds(conn.instances@, local_is(false));
    crate::instance_laws::locals_and_remotes(conn@);
    vstd::seq_lib::lemma_multiset_commutative(locals->Ok_0@, remotes->Ok_0@);
}

/// The local instance that is looked up is a row that is local, the first one, and it is missing
/// only where no row is.
pub proof fn local_by_lookup(conn: Connection, found: Result<Instance, Error>)
    requires
        call_ensures(Instance::get_local_uncached, (&conn,), found),
    ensures
        match found {
            Ok(row) => {
                &&& row.local
                &&& exists|i: int|
                    {
                        &&& 0 <= i < conn.instances@.len()
                        &&& #[trigger] conn.instances@[i] == row
                        &&& forall|j: int| 0 <= j < i ==> !(#[trigger] conn.instances@[j]).local
                    }
            },
            Err(e) => {
                &&& e == Error::Db(DbError::NotFound)
                &&& forall|i: int|
                    0 <= i < conn.instances@.len() ==> !(#[trigger] conn.instances@[i]).local
            },
        },
{
    first_match(conn.instances@, local_is(true));
}

/// What is at hand after a lookup is the row that the lookup finds; after it failed, nothing is.
pub proof fn local_at_hand(
    conn: Connection,
    cache: &mut LocalInstance,
    after: LocalInstance,
    found: Result<Instance, Error>,
    kept: Result<Instance, Error>,
)
    requires
        call_ensures(Instance::cache_local, (&conn, cache), ()),
        after == *final(cache),
        call_ensures(Instance::get_local_uncached, (&conn,), found),
        call_ensures(Instance::get_local, (&after,), kept),
    ensures
        match found {
            Ok(row) => kept == Ok::<Instance, Error>(row),
            Err(_) => kept == Err::<Instance, Error>(Error::NotFound),
        },
{
}

/// The instance that was put at hand is the one that is handed out.
pub proof fn local_as_set(
    instance: Instance,
    cache: &mut LocalInstance,
    after: LocalInstance,
    kept: Result<Instance, Error>,
)
    requires
        call_ensures(Instance::set_local, (instance, cache), ()),
        after == *final(cache),
        call_ensures(Instance::get_local, (&after,), kept),
    ensures
        kept == Ok::<Instance, Error>(instance),
{
}

/// An instance has an administrator if and only if a user of that instance has the role numbered
/// zero, and the main one is the first of them.
pub proof fn administrators_by_role(
    conn: Connection,
    instance: Instance,
    any: Result<bool, Error>,
    main: Result<User, Error>,
)
    requires
        call_ensures(Instance::has_admin, (&instance, &conn), any),
        call_ensures(Instance::main_admin, (&instance, &conn), main),
    ensures
        any == Ok::<bool, Error>(
            exists|i: int|
                0 <= i < conn.users@.len() && (#[trigger] conn.users@[i]).instance_id
                    == instance.id && conn.users@[i].role == 0,
        ),
        match main {
            Ok(user) => {
                &&& user.instance_id == instance.id
                &&& user.role == 0
                &&& exists|i: int|
                    {
                        &&& 0 <= i < conn.users@.len()
                        &&& #[trigger] conn.users@[i] == user
                        &&& forall|j: int|
                            0 <= j < i ==> (#[trigger] conn.users@[j]).instance_id != instance.id
                                || conn.users@[j].role != 0
                    }
            },
            Err(e) => {
                &&& e == Error::Db(DbError::NotFound)
                &&& any == Ok::<bool, Error>(false)
            },
        },
{
    first_match(conn.users@, administers(instance.id));
    let found = conn.users@.filter(administers(instance.id));
    if found.len() > 0 {
        assert(first_row(found) is Ok);
    }
}

/// The roles have the numbers zero for administrators, one for moderators and two for the others.
pub proof fn role_numbers(admin: i32, moderator: i32, normal: i32)
    requires
        call_ensures(Role::code, (Role::Admin,), admin),
        call_ensures(Role::code, (Role::Moderator,), moderator),
        call_ensures(Role::code, (Role::Normal,), normal),
    ensures
        admin == 0,
        moderator == 1,
        normal == 2,
{
}

/// The authors of a post are the users that are linked to it, whether they are local or not.
pub proof fn authors_by_link(conn: Connection, post: Post, authors: Result<Vec<User>, Error>)
    requires
        call_ensures(Post::get_authors, (&post, &conn), authors),
    ensures
        match authors {
            Ok(authors) => forall|user: User| #[trigger]
                authors@.contains(user) <==> {
                    &&& conn.users@.contains(user)
                    &&& exists|i: int|
                        {
                            &&& 0 <= i < conn.post_authors@.len()
                            &&& (#[trigger] conn.post_authors@[i]).post_id == post.id
                            &&& conn.post_authors@[i].author_id == user.id
                        }
                },
            Err(_) => false,
        },
{
    filter_holds(conn.users@, wrote(conn.post_authors@, post.id));
    let authors = authors->Ok_0;
    assert forall|user: User| #[trigger]
        authors@.contains(user) <==> {
            &&& conn.users@.contains(user)
            &&& exists|i: int|
                {
                    &&& 0 <= i < conn.post_authors@.len()
                    &&& (#[trigger] conn.post_authors@[i]).post_id == post.id
                    &&& conn.post_authors@[i].author_id == user.id
                }
        } by {
        let link = PostAuthor { post_id: post.id, author_id: user.id };
        if conn.post_authors@.contains(link) {
            let i = choose|i: int|
                0 <= i < conn.post_authors@.len() && conn.post_authors@[i] == link;
            assert(conn.post_authors@[i].post_id == post.id);
        }
        if exists|i: int|
            {
                &&& 0 <= i < conn.post_authors@.len()
                &&& (#[trigger] conn.post_authors@[i]).post_id == post.id
                &&& conn.post_authors@[i].author_id == user.id
            } {
            let i = choose|i: int|
                {
                    &&& 0 <= i < conn.post_authors@.len()
                    &&& (#[trigger] conn.post_authors@[i]).post_id == post.id
                    &&& conn.post_authors@[i].author_id == user.id
                };
            assert(conn.post_authors@[i] == link);
        }
    }
}

/// A notification is found by its kind and its object if and only if a row has both: the first.
pub proof fn notification_by_object(
    conn: Connection,
    kind: NotificationKind,
    object_id: i32,
    found: Result<Notification, Error>,
)
    requires
        call_ensures(Notification::find, (&conn, kind, object_id), found),
    ensures
        match found {
            Ok(row) => {
                &&& row.kind == kind
                &&& row.object_id == object_id
                &&& exists|i: int|
                    {
                        &&& 0 <= i < conn.notifications@.len()
                        &&& #[trigger] conn.notifications@[i] == row
                        &&& forall|j: int|
                            0 <= j < i ==> (#[trigger] conn.notifications@[j]).kind != kind
                                || conn.notifications@[j].object_id != object_id
                    }
            },
            Err(e) => {
                &&& e == Error::Db(DbError::NotFound)
                &&& forall|i: int|
                    0 <= i < conn.notifications@.len() ==> (#[trigger] conn.notifications@[i]).kind
                        != kind || conn.notifications@[i].object_id != object_id
            },
        },
{
    first_match(conn.notifications@, is_about(kind, object_id));
}

/// A notification gets a row behind the others with what was given.
pub proof fn notification_is_inserted(
    conn: &mut Connection,
    new: NewNotification,
    inserted: Result<Notification, Error>,
)
    requires
        call_ensures(Notification::insert, (conn, new), inserted),
    ensures
        match inserted {
            Ok(row) => {
                &&& row.user_id == new.user_id
                &&& row.kind == new.kind
                &&& row.object_id == new.object_id
                &&& forall|i: int|
                    0 <= i < old(conn).notifications@.len() ==> (
                    #[trigger] old(conn).notifications@[i]).id != row.id
                &&& final(conn).notifications@ == old(conn).notifications@.push(row)
            },
            Err(e) => {
                &&& e == Error::Db(DbError::Query)
                &&& exists|i: int|
                    0 <= i < old(conn).notifications@.len() && (
                    #[trigger] old(conn).notifications@[i]).id == i32::MAX
                &&& final(conn)@ == old(conn)@
            },
        },
{
    let rows = old(conn).notifications@;
    last_key_is_largest(rows);
    last_key_is_used(rows);
    if inserted is Ok {
        assert forall|i: int| 0 <= i < rows.len() implies (#[trigger] rows[i]).id
            != inserted->Ok_0.id by {
            assert(rows[i].key() <= last_key(rows));
        }
    } else {
        let i = choose|i: int|
            0 <= i < rows.len() && (#[trigger] rows[i]).key() == last_key(rows);
        assert(rows[i].id == i32::MAX);
    }
}

/// What is taken out by its number goes, and every other row stays.
pub proof fn rows_are_taken_out(conn: &mut Connection, other: &mut Connection, id: i32)
    requires
        call_ensures(Reshare::remove, (conn, id), ()),
        call_ensures(Notification::remove, (other, id), ()),
    ensures
        forall|row: Reshare| #[trigger]
            final(conn).reshares@.contains(row) <==> old(conn).reshares@.contains(row) && row.id
                != id,
        forall|row: Notification| #[trigger]
            final(other).notifications@.contains(row) <==> old(other).notifications@.contains(row)
                && row.id != id,
{
    filter_holds(old(conn).reshares@, key_is_not::<Reshare>(id));
    filter_holds(old(other).notifications@, key_is_not::<Notification>(id));
    assert(final(conn)@.reshares == old(conn)@.reshare_removed(id).reshares);
    assert(final(other)@.notifications == old(other)@.notification_removed(id).notifications);
}

} // verus!
