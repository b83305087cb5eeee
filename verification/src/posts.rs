use crate::connection::{Connection, Tables};
use crate::error::Error;
use crate::query::{first, first_row, get, matching_is_filter, select, with_key, Condition, Row};
use crate::users::User;
use vstd::prelude::*;

verus! {

/// A row of the table of posts, as far as reshares read it.
#[derive(Debug)]
pub struct Post {
    pub id: i32,
    /// The post's identifier on the network.
    pub ap_url: String,
}

impl Clone for Post {
    fn clone(&self) -> (copy: Self)
        ensures
            copy == *self,
    {
        Post { id: self.id, ap_url: self.ap_url.clone() }
    }
}

impl Row for Post {
    open spec fn key(&self) -> i32 {
        self.id
    }

    fn row_id(&self) -> i32 {
        self.id
    }

    fn duplicate(&self) -> Self {
        self.clone()
    }
}

/// That a user is one of the authors of a post.
#[derive(Clone, Copy, Debug, PartialEq, Eq, Structural)]
pub struct PostAuthor {
    pub post_id: i32,
    pub author_id: i32,
}

/// Of a post: its identifier is `url`.
pub open spec fn post_url_is(url: Seq<char>) -> spec_fn(Post) -> bool {
    |row: Post| row.ap_url@ == url
}

/// Of a user: `authors` has them among the authors of the post numbered `post_id`.
pub open spec fn wrote(authors: Seq<PostAuthor>, post_id: i32) -> spec_fn(User) -> bool {
    |row: User| authors.contains(PostAuthor { post_id, author_id: row.id })
}

impl Tables {
    /// The authors of the post numbered `post_id`.
    pub open spec fn authors(self, post_id: i32) -> Seq<User> {
        self.users.filter(wrote(self.post_authors, post_id))
    }
}

/// The posts with an identifier.
pub struct PostUrlIs(pub String);

impl Condition<Post> for PostUrlIs {
    open spec fn holds(&self, row: Post) -> bool {
        row.ap_url@ == self.0@
    }

    fn test(&self, row: &Post) -> bool {
        row.ap_url == self.0
    }
}

/// The users that a list has among the authors of a post.
pub struct Wrote<'a> {
    pub authors: &'a Vec<PostAuthor>,
    pub post_id: i32,
}

impl<'a> Condition<User> for Wrote<'a> {
    open spec fn holds(&self, row: User) -> bool {
        self.authors@.contains(PostAuthor { post_id: self.post_id, author_id: row.id })
    }

    fn test(&self, row: &User) -> bool {
        let mut i: usize = 0;
        while i < self.authors.len()
            invariant
                i <= self.authors.len(),
                forall|j: int|
                    0 <= j < i ==> #[trigger] self.authors@[j] != (PostAuthor {
                        post_id: self.post_id,
                        author_id: row.id,
                    }),
            decreases self.authors.len() - i,
        {
            let author = self.authors[i];
            if author.post_id == self.post_id && author.author_id == row.id {
                assert(self.authors@[i as int] == author);
                return true;
            }
            i += 1;
        }
        false
    }
}

impl Post {
    /// The post numbered `id`.
    pub fn get(conn: &Connection, id: i32) -> (row: Result<Post, Error>)
        ensures
            row == first_row(with_key(conn@.posts, id)),
    {
        get(&conn.posts, id)
    }

    /// The post with the identifier `url`.
    pub fn find_by_ap_url(conn: &Connection, url: &str) -> (row: Result<Post, Error>)
        ensures
            row == first_row(conn@.posts.filter(post_url_is(url@))),
    {
        let condition = PostUrlIs(url.to_owned());
        proof {
            matching_is_filter(conn@.posts, condition, post_url_is(url@));
        }
        first(&conn.posts, &condition)
    }

    /// The authors of the post.
    pub fn get_authors(&self, conn: &Connection) -> (authors: Result<Vec<User>, Error>)
        ensures
            authors matches Ok(rows) && rows@ == conn@.authors(self.id),
    {
        Ok(authors_of(conn, self.id))
    }
}

/// The authors of the post numbered `post_id`.
pub fn authors_of(conn: &Connection, post_id: i32) -> (authors: Vec<User>)
    ensures
        authors@ == conn@.authors(post_id),
{
    let condition = Wrote { authors: &conn.post_authors, post_id };
    proof {
        matching_is_filter(conn@.users, condition, wrote(conn@.post_authors, post_id));
    }
    select(&conn.users, &condition)
}

} // verus!
