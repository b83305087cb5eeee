use crate::instance::Instance;
use crate::notifications::Notification;
use crate::posts::{Post, PostAuthor};
use crate::query::{keys_distinct, NegativeBound};
use crate::reshare::Reshare;
use crate::timestamp::Timestamp;
use crate::users::User;
use vstd::prelude::*;

verus! {

/// That a post was put before the timelines, because an actor had reshared it.
#[derive(Clone, Copy, Debug, PartialEq, Eq, Structural)]
pub struct TimelineEntry {
    pub post_id: i32,
    pub actor_id: i32,
}

/// The tables that instances and reshares live in, held in memory.
///
/// A row that is not here cannot be fetched from elsewhere: no network stands behind the tables.
#[derive(Debug)]
pub struct Connection {
    /// The date that rows are created at.
    pub now: Timestamp,
    /// What a negative offset or limit comes to.
    pub negative: NegativeBound,
    pub instances: Vec<Instance>,
    pub users: Vec<User>,
    pub posts: Vec<Post>,
    pub post_authors: Vec<PostAuthor>,
    pub reshares: Vec<Reshare>,
    pub notifications: Vec<Notification>,
    /// What the timelines were handed, in order.
    pub timeline: Vec<TimelineEntry>,
}

/// What the tables hold, in table order.
#[verifier::ext_equal]
pub struct Tables {
    pub now: Timestamp,
    pub negative: NegativeBound,
    pub instances: Seq<Instance>,
    pub users: Seq<User>,
    pub posts: Seq<Post>,
    pub post_authors: Seq<PostAuthor>,
    pub reshares: Seq<Reshare>,
    pub notifications: Seq<Notification>,
    pub timeline: Seq<TimelineEntry>,
}

impl View for Connection {
    type V = Tables;

    open spec fn view(&self) -> Tables {
        Tables {
            now: self.now,
            negative: self.negative,
            instances: self.instances@,
            users: self.users@,
            posts: self.posts@,
            post_authors: self.post_authors@,
            reshares: self.reshares@,
            notifications: self.notifications@,
            timeline: self.timeline@,
        }
    }
}

impl Tables {
    /// Whether each primary key names one row.
    pub open spec fn wf(self) -> bool {
        &&& keys_distinct(self.instances)
        &&& keys_distinct(self.users)
        &&& keys_distinct(self.posts)
        &&& keys_distinct(self.reshares)
        &&& keys_distinct(self.notifications)
    }
}

impl Connection {
    /// Empty tables, whose rows will be created at `now`.
    pub fn new(now: Timestamp, negative: NegativeBound) -> (conn: Connection)
        ensures
            conn@.wf(),
            conn@ == (Tables {
                now,
                negative,
                instances: Seq::empty(),
                users: Seq::empty(),
                posts: Seq::empty(),
                post_authors: Seq::empty(),
                reshares: Seq::empty(),
                notifications: Seq::empty(),
                timeline: Seq::empty(),
            }),
    {
        Connection {
            now,
            negative,
            instances: Vec::new(),
            users: Vec::new(),
            posts: Vec::new(),
            post_authors: Vec::new(),
            reshares: Vec::new(),
            notifications: Vec::new(),
            timeline: Vec::new(),
        }
    }
}

} // verus!
