use crate::connection::Connection;
use crate::error::Error;
use crate::query::{first, first_row, get, matching_is_filter, with_key, Condition, Row};
use vstd::prelude::*;

verus! {

/// What a user may do on their instance.
#[derive(Clone, Copy, Debug, PartialEq, Eq, Structural)]
pub enum Role {
    Admin,
    Moderator,
    Normal,
}

impl Role {
    /// The number that stands for the role in the database.
    pub open spec fn spec_code(self) -> i32 {
        match self {
            Role::Admin => 0,
            Role::Moderator => 1,
            Role::Normal => 2,
        }
    }

    /// The number that stands for the role in the database.
    pub fn code(self) -> (code: i32)
        ensures
            code == self.spec_code(),
    {
        match self {
            Role::Admin => 0,
            Role::Moderator => 1,
            Role::Normal => 2,
        }
    }
}

/// A row of the table of users, as far as instances and reshares read it.
#[derive(Debug)]
pub struct User {
    pub id: i32,
    pub instance_id: i32,
    /// The number of the user's [`Role`].
    pub role: i32,
    /// Whether the user's account is on the local instance.
    pub local: bool,
    /// The user's identifier on the network.
    pub ap_url: String,
    /// Where the user's followers are listed.
    pub followers_endpoint: String,
}

/// Of a user: their identifier is `url`.
pub open spec fn user_url_is(url: Seq<char>) -> spec_fn(User) -> bool {
    |row: User| row.ap_url@ == url
}

/// The users with an identifier.
pub struct UserUrlIs(pub String);

impl Condition<User> for UserUrlIs {
    open spec fn holds(&self, row: User) -> bool {
        row.ap_url@ == self.0@
    }

    fn test(&self, row: &User) -> bool {
        row.ap_url == self.0
    }
}

impl User {
    /// The user numbered `id`.
    pub fn get(conn: &Connection, id: i32) -> (row: Result<User, Error>)
        ensures
            row == first_row(with_key(conn@.users, id)),
    {
        get(&conn.users, id)
    }

    /// The user with the identifier `url`.
    pub fn find_by_ap_url(conn: &Connection, url: &str) -> (row: Result<User, Error>)
        ensures
            row == first_row(conn@.users.filter(user_url_is(url@))),
    {
        let condition = UserUrlIs(url.to_owned());
        proof {
            matching_is_filter(conn@.users, condition, user_url_is(url@));
        }
        first(&conn.users, &condition)
    }

    /// Whether the user's account is on the local instance.
    pub fn is_local(&self) -> (yes: bool)
        ensures
            yes == self.local,
    {
        self.local
    }
}

impl Clone for User {
    fn clone(&self) -> (copy: Self)
        ensures
            copy == *self,
    {
        User {
            id: self.id,
            instance_id: self.instance_id,
            role: self.role,
            local: self.local,
            ap_url: self.ap_url.clone(),
            followers_endpoint: self.followers_endpoint.clone(),
        }
    }
}

impl Row for User {
    open spec fn key(&self) -> i32 {
        self.id
    }

    fn row_id(&self) -> i32 {
        self.id
    }

    fn duplicate(&self) -> Self {
        self.clone()
    }
}

} // verus!
