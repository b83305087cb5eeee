use crate::activity::{Announce, Announce07, AnnounceView, Undo, UndoView};
use crate::connection::{Connection, Tables};
use crate::error::{DbError, Error};
use crate::iri::{is_iri, parse_iri};
use crate::posts::Post;
use crate::query::{
    arrange, delete, fetch, first, first_row, get, last_key, limited, matching_is_filter, next_key,
    select, sorted, with_key, without_key, Condition, Row, SortOrder,
};
use crate::text::join;
use crate::timestamp::Timestamp;
use crate::users::User;
use vstd::prelude::*;

verus! {

/// A row of the table of reshares: a user has shared a post.
#[derive(Debug)]
pub struct Reshare {
    pub id: i32,
    pub user_id: i32,
    pub post_id: i32,
    /// The reshare's identifier on the network.
    pub ap_url: String,
    pub creation_date: Timestamp,
}

/// A reshare that has no row yet.
#[derive(Debug)]
pub struct NewReshare {
    pub user_id: i32,
    pub post_id: i32,
    pub ap_url: String,
}

impl Clone for Reshare {
    fn clone(&self) -> (copy: Self)
        ensures
            copy == *self,
    {
        Reshare {
            id: self.id,
            user_id: self.user_id,
            post_id: self.post_id,
            ap_url: self.ap_url.clone(),
            creation_date: self.creation_date,
        }
    }
}

impl Row for Reshare {
    open spec fn key(&self) -> i32 {
        self.id
    }

    fn row_id(&self) -> i32 {
        self.id
    }

    fn duplicate(&self) -> Self {
        self.clone()
    }
}

impl Clone for NewReshare {
    fn clone(&self) -> (copy: Self)
        ensures
            copy == *self,
    {
        NewReshare {
            user_id: self.user_id,
            post_id: self.post_id,
            ap_url: self.ap_url.clone(),
        }
    }
}

impl NewReshare {
    /// The identifier of the reshare of the post at `post_url` by the user at `user_url`.
    pub open spec fn spec_url(user_url: Seq<char>, post_url: Seq<char>) -> Seq<char> {
        user_url + "reshare/"@ + post_url
    }

    /// That the user `u` shares the post `p`.
    pub fn new(p: &Post, u: &User) -> (new: NewReshare)
        ensures
            new.user_id == u.id,
            new.post_id == p.id,
            new.ap_url@ == NewReshare::spec_url(u.ap_url@, p.ap_url@),
    {
        let mut ap_url = join(&u.ap_url, "reshare/");
        ap_url.append(&p.ap_url);
        NewReshare { user_id: u.id, post_id: p.id, ap_url }
    }
}

/// Of a reshare: its identifier is `url`.
pub open spec fn reshare_url_is(url: Seq<char>) -> spec_fn(Reshare) -> bool {
    |row: Reshare| row.ap_url@ == url
}

/// Of a reshare: this user has made it, of this post.
pub open spec fn made_by_of(user_id: i32, post_id: i32) -> spec_fn(Reshare) -> bool {
    |row: Reshare| row.user_id == user_id && row.post_id == post_id
}

/// Of a reshare: this user has made it.
pub open spec fn made_by(user_id: i32) -> spec_fn(Reshare) -> bool {
    |row: Reshare| row.user_id == user_id
}

/// The reshares with an identifier.
pub struct ReshareUrlIs(pub String);

impl Condition<Reshare> for ReshareUrlIs {
    open spec fn holds(&self, row: Reshare) -> bool {
        row.ap_url@ == self.0@
    }

    fn test(&self, row: &Reshare) -> bool {
        row.ap_url == self.0
    }
}

/// The reshares that a user has made of a post.
pub struct MadeByOf {
    pub user_id: i32,
    pub post_id: i32,
}

impl Condition<Reshare> for MadeByOf {
    open spec fn holds(&self, row: Reshare) -> bool {
        row.user_id == self.user_id && row.post_id == self.post_id
    }

    fn test(&self, row: &Reshare) -> bool {
        row.user_id == self.user_id && row.post_id == self.post_id
    }
}

/// The reshares that a user has made.
pub struct MadeBy(pub i32);

impl Condition<Reshare> for MadeBy {
    open spec fn holds(&self, row: Reshare) -> bool {
        row.user_id == self.0
    }

    fn test(&self, row: &Reshare) -> bool {
        row.user_id == self.0
    }
}

/// Reshares with the newest first.
pub struct NewestFirst;

impl SortOrder<Reshare> for NewestFirst {
    open spec fn le(&self, a: Reshare, b: Reshare) -> bool {
        a.creation_date.at_or_after(b.creation_date)
    }

    fn test_le(&self, a: &Reshare, b: &Reshare) -> bool {
        a.creation_date.not_before(&b.creation_date)
    }
}

impl Tables {
    /// The tables after a row was added for `new`, under the next free number, and that row.
    pub open spec fn reshare_added(self, new: NewReshare) -> (Tables, Result<Reshare, Error>) {
        if last_key(self.reshares) < i32::MAX {
            let row = Reshare {
                id: (last_key(self.reshares) + 1) as i32,
                user_id: new.user_id,
                post_id: new.post_id,
                ap_url: new.ap_url,
                creation_date: self.now,
            };
            (Tables { reshares: self.reshares.push(row), ..self }, Ok(row))
        } else {
            (self, Err(Error::Db(DbError::Query)))
        }
    }

    /// The newest reshares that the user numbered `user_id` has made, at most `limit` of them.
    pub open spec fn recents(self, user_id: i32, limit: int) -> Result<Seq<Reshare>, Error> {
        limited(
            sorted(NewestFirst, self.reshares.filter(made_by(user_id))),
            self.negative,
            0,
            limit,
        )
    }

    /// The tables without the reshare numbered `id`.
    pub open spec fn reshare_removed(self, id: i32) -> Tables {
        Tables { reshares: without_key(self.reshares, id), ..self }
    }
}

/// The identifier of everyone: what is addressed to it is public.
pub open spec fn spec_public_visibility() -> Seq<char> {
    "https://www.w3.org/ns/activitystreams#Public"@
}

/// The identifier of everyone: what is addressed to it is public.
pub fn public_visibility() -> (everyone: String)
    ensures
        everyone@ == spec_public_visibility(),
{
    "https://www.w3.org/ns/activitystreams#Public".to_owned()
}

/// A text that had to be an IRI, or the error that it is none.
pub fn required_iri(iri: Option<String>) -> (text: Result<String, Error>)
    ensures
        text == match iri {
            Some(text) => Ok::<String, Error>(text),
            None => Err(Error::Url),
        },
{
    match iri {
        Some(text) => Ok(text),
        None => Err(Error::Url),
    }
}

impl Reshare {
    /// Adds a row for `new`, under the next free number, and hands it out.
    pub fn insert(conn: &mut Connection, new: NewReshare) -> (row: Result<Reshare, Error>)
        ensures
            (final(conn)@, row) == old(conn)@.reshare_added(new),
    {
        match next_key(&conn.reshares) {
            Ok(id) => {
                let row = Reshare {
                    id,
                    user_id: new.user_id,
                    post_id: new.post_id,
                    ap_url: new.ap_url,
                    creation_date: conn.now,
                };
                conn.reshares.push(row.clone());
                Ok(row)
            },
            Err(e) => Err(e),
        }
    }

    /// The reshare numbered `id`.
    pub fn get(conn: &Connection, id: i32) -> (row: Result<Reshare, Error>)
        ensures
            row == first_row(with_key(conn@.reshares, id)),
    {
        get(&conn.reshares, id)
    }

    /// Takes out the reshare numbered `id`.
    pub fn remove(conn: &mut Connection, id: i32)
        ensures
            final(conn)@ == old(conn)@.reshare_removed(id),
    {
        conn.reshares = delete(&conn.reshares, id);
    }

    /// The reshare with the identifier `url`.
    pub fn find_by_ap_url(conn: &Connection, url: &str) -> (row: Result<Reshare, Error>)
        ensures
            row == first_row(conn@.reshares.filter(reshare_url_is(url@))),
    {
        let condition = ReshareUrlIs(url.to_owned());
        proof {
            matching_is_filter(conn@.reshares, condition, reshare_url_is(url@));
        }
        first(&conn.reshares, &condition)
    }

    /// The reshare that the user has made of the post.
    pub fn find_by_user_on_post(conn: &Connection, user_id: i32, post_id: i32) -> (row: Result<
        Reshare,
        Error,
    >)
        ensures
            row == first_row(conn@.reshares.filter(made_by_of(user_id, post_id))),
    {
        let condition = MadeByOf { user_id, post_id };
        proof {
            matching_is_filter(conn@.reshares, condition, made_by_of(user_id, post_id));
        }
        first(&conn.reshares, &condition)
    }

    /// The newest reshares that the user has made, at most `limit` of them, newest first.
    pub fn get_recents_for_author(conn: &Connection, user: &User, limit: i64) -> (rows: Result<
        Vec<Reshare>,
        Error,
    >)
        ensures
            match rows {
                Ok(rows) => conn@.recents(user.id, limit as int) == Ok::<Seq<Reshare>, Error>(
                    rows@,
                ),
                Err(e) => conn@.recents(user.id, limit as int) == Err::<Seq<Reshare>, Error>(e),
            },
    {
        let condition = MadeBy(user.id);
        proof {
            matching_is_filter(conn@.reshares, condition, made_by(user.id));
        }
        let made = select(&conn.reshares, &condition);
        let newest = arrange(&made, &NewestFirst);
        fetch(&newest, conn.negative, 0, limit)
    }

    /// The post that is shared.
    pub fn get_post(&self, conn: &Connection) -> (post: Result<Post, Error>)
        ensures
            post == first_row(with_key(conn@.posts, self.post_id)),
    {
        Post::get(conn, self.post_id)
    }

    /// The user who shares it.
    pub fn get_user(&self, conn: &Connection) -> (user: Result<User, Error>)
        ensures
            user == first_row(with_key(conn@.users, self.user_id)),
    {
        User::get(conn, self.user_id)
    }

    /// How the reshare is announced, where `actor` shares `post` and the followers are those of
    /// `sharer`: to everyone, with a copy to the followers.
    pub open spec fn announcement(self, actor: User, post: Post, sharer: User) -> AnnounceView {
        AnnounceView {
            actor: actor.ap_url@,
            object: post.ap_url@,
            id: self.ap_url@,
            to: seq![spec_public_visibility()],
            cc: seq![sharer.followers_endpoint@],
        }
    }

    /// How the reshare is withdrawn, where `actor` withdraws what was announced as `object`.
    pub open spec fn withdrawal(self, actor: User, object: AnnounceView, sharer: User) -> UndoView {
        UndoView {
            actor: actor.ap_url@,
            object,
            id: self.ap_url@ + "#delete"@,
            to: seq![spec_public_visibility()],
            cc: seq![sharer.followers_endpoint@],
        }
    }

    /// The activity that announces the reshare, from what was found of the user who shares, of the
    /// post, and of the user once more for their followers. The first lookup that failed is the
    /// answer.
    pub fn announce_from(
        &self,
        actor: Result<User, Error>,
        post: Result<Post, Error>,
        sharer: Result<User, Error>,
    ) -> (act: Result<Announce, Error>)
        ensures
            match (actor, post, sharer) {
                (Err(e), _, _) => act == Err::<Announce, Error>(e),
                (Ok(_), Err(e), _) => act == Err::<Announce, Error>(e),
                (Ok(_), Ok(_), Err(e)) => act == Err::<Announce, Error>(e),
                (Ok(actor), Ok(post), Ok(sharer)) => act matches Ok(a) && a@ == self.announcement(
                    actor,
                    post,
                    sharer,
                ),
            },
    {
        let actor = match actor {
            Ok(actor) => actor,
            Err(e) => return Err(e),
        };
        let post = match post {
            Ok(post) => post,
            Err(e) => return Err(e),
        };
        let sharer = match sharer {
            Ok(sharer) => sharer,
            Err(e) => return Err(e),
        };
        let act = Announce {
            actor: actor.ap_url,
            object: post.ap_url,
            id: self.ap_url.clone(),
            to: vec![public_visibility()],
            cc: vec![sharer.followers_endpoint],
        };
        assert(act@ =~= self.announcement(actor, post, sharer));
        Ok(act)
    }

    /// The activity that announces the reshare.
    pub fn to_activity(&self, conn: &Connection) -> (act: Result<Announce, Error>)
        ensures
            match (
                first_row(with_key(conn@.users, self.user_id)),
                first_row(with_key(conn@.posts, self.post_id)),
            ) {
                (Err(e), _) => act == Err::<Announce, Error>(e),
                (Ok(_), Err(e)) => act == Err::<Announce, Error>(e),
                (Ok(user), Ok(post)) => act matches Ok(a) && a@ == self.announcement(
                    user,
                    post,
                    user,
                ),
            },
    {
        self.announce_from(
            User::get(conn, self.user_id),
            Post::get(conn, self.post_id),
            self.get_user(conn),
        )
    }

    /// Whether the reshare and its post are named in IRIs.
    pub open spec fn named_in_iris(self, post: Post) -> bool {
        is_iri(post.ap_url@) && is_iri(self.ap_url@)
    }

    /// Whether all that the announcement names is named in IRIs: the actor, the post, the reshare
    /// and the followers.
    pub open spec fn announced_in_iris(self, actor: User, post: Post, sharer: User) -> bool {
        is_iri(actor.ap_url@) && self.named_in_iris(post) && is_iri(sharer.followers_endpoint@)
    }

    /// The activity that announces the reshare, in IRIs, from the same lookups as
    /// [`announce_from`](Reshare::announce_from). The first lookup that failed or text that is no
    /// IRI decides the answer, in the order actor, post, id, followers.
    pub fn announce07_from(
        &self,
        actor: Result<User, Error>,
        post: Result<Post, Error>,
        sharer: Result<User, Error>,
    ) -> (act: Result<Announce07, Error>)
        ensures
            match (actor, post, sharer) {
                (Err(e), _, _) => act == Err::<Announce07, Error>(e),
                (Ok(actor), Err(e), _) => act == Err::<Announce07, Error>(
                    if is_iri(actor.ap_url@) {
                        e
                    } else {
                        Error::Url
                    },
                ),
                (Ok(actor), Ok(post), Err(e)) => act == Err::<Announce07, Error>(
                    if is_iri(actor.ap_url@) && self.named_in_iris(post) {
                        e
                    } else {
                        Error::Url
                    },
                ),
                (Ok(actor), Ok(post), Ok(sharer)) => match act {
                    Ok(a) => {
                        &&& a@ == self.announcement(actor, post, sharer)
                        &&& a@.in_iris()
                        &&& self.announced_in_iris(actor, post, sharer)
                    },
                    Err(e) => {
                        &&& !self.announced_in_iris(actor, post, sharer)
                        &&& e == Error::Url
                    },
                },
            },
    {
        let actor = match actor {
            Ok(actor) => actor,
            Err(e) => return Err(e),
        };
        let actor_iri = match required_iri(parse_iri(&actor.ap_url)) {
            Ok(iri) => iri,
            Err(e) => return Err(e),
        };
        let post = match post {
            Ok(post) => post,
            Err(e) => return Err(e),
        };
        proof {
            if sharer is Ok {
                let said = self.announcement(actor, post, sharer->Ok_0);
                assert(said.to[0] == spec_public_visibility());
                assert(said.cc[0] == sharer->Ok_0.followers_endpoint@);
            }
        }
        let object_iri = match required_iri(parse_iri(&post.ap_url)) {
            Ok(iri) => iri,
            Err(e) => return Err(e),
        };
        let id_iri = match required_iri(parse_iri(&self.ap_url)) {
            Ok(iri) => iri,
            Err(e) => return Err(e),
        };
        let to_iri = match required_iri(parse_iri(&public_visibility())) {
            Ok(iri) => iri,
            Err(e) => return Err(e),
        };
        let sharer = match sharer {
            Ok(sharer) => sharer,
            Err(e) => return Err(e),
        };
        let cc_iri = match required_iri(parse_iri(&sharer.followers_endpoint)) {
            Ok(iri) => iri,
            Err(e) => return Err(e),
        };
        let act = Announce07 {
            actor: actor_iri,
            object: object_iri,
            id: id_iri,
            to: vec![to_iri],
            cc: vec![cc_iri],
        };
        assert(act@ =~= self.announcement(actor, post, sharer));
        Ok(act)
    }

    /// The activity that announces the reshare, in IRIs.
    pub fn to_activity07(&self, conn: &Connection) -> (act: Result<Announce07, Error>)
        ensures
            match (
                first_row(with_key(conn@.users, self.user_id)),
                first_row(with_key(conn@.posts, self.post_id)),
            ) {
                (Err(e), _) => act == Err::<Announce07, Error>(e),
                (Ok(user), Err(e)) => act == Err::<Announce07, Error>(
                    if is_iri(user.ap_url@) {
                        e
                    } else {
                        Error::Url
                    },
                ),
                (Ok(user), Ok(post)) => match act {
                    Ok(a) => {
                        &&& a@ == self.announcement(user, post, user)
                        &&& a@.in_iris()
                        &&& self.announced_in_iris(user, post, user)
                    },
                    Err(e) => !self.announced_in_iris(user, post, user) && e == Error::Url,
                },
            },
    {
        self.announce07_from(
            User::get(conn, self.user_id),
            Post::get(conn, self.post_id),
            self.get_user(conn),
        )
    }

    /// The activity that withdraws the reshare, from what was found of the user who shares, of the
    /// announcement, and of the user once more for their followers. The first lookup that failed
    /// is the answer.
    pub fn undo_from(
        &self,
        actor: Result<User, Error>,
        object: Result<Announce, Error>,
        sharer: Result<User, Error>,
    ) -> (act: Result<Undo, Error>)
        ensures
            match (actor, object, sharer) {
                (Err(e), _, _) => act == Err::<Undo, Error>(e),
                (Ok(_), Err(e), _) => act == Err::<Undo, Error>(e),
                (Ok(_), Ok(_), Err(e)) => act == Err::<Undo, Error>(e),
                (Ok(actor), Ok(object), Ok(sharer)) => act matches Ok(a) && a@ == self.withdrawal(
                    actor,
                    object@,
                    sharer,
                ),
            },
    {
        let actor = match actor {
            Ok(actor) => actor,
            Err(e) => return Err(e),
        };
        let object = match object {
            Ok(object) => object,
            Err(e) => return Err(e),
        };
        let sharer = match sharer {
            Ok(sharer) => sharer,
            Err(e) => return Err(e),
        };
        let act = Undo {
            actor: actor.ap_url,
            object,
            id: join(&self.ap_url, "#delete"),
            to: vec![public_visibility()],
            cc: vec![sharer.followers_endpoint],
        };
        assert(act@ =~= self.withdrawal(actor, object@, sharer));
        Ok(act)
    }

    /// The activity that withdraws the reshare.
    pub fn build_undo(&self, conn: &Connection) -> (act: Result<Undo, Error>)
        ensures
            match (
                first_row(with_key(conn@.users, self.user_id)),
                first_row(with_key(conn@.posts, self.post_id)),
            ) {
                (Err(e), _) => act == Err::<Undo, Error>(e),
                (Ok(_), Err(e)) => act == Err::<Undo, Error>(e),
                (Ok(user), Ok(post)) => act matches Ok(a) && a@ == self.withdrawal(
                    user,
                    self.announcement(user, post, user),
                    user,
                ),
            },
    {
        self.undo_from(User::get(conn, self.user_id), self.to_activity(conn), self.get_user(conn))
    }
}

} // verus!
