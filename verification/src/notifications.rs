use crate::connection::{Connection, Tables};
use crate::error::{DbError, Error};
use crate::query::{
    delete, first, first_row, last_key, matching_is_filter, next_key, without_key, Condition, Row,
};
use vstd::prelude::*;

verus! {

/// What a notification is about.
#[derive(Clone, Copy, Debug, PartialEq, Eq, Structural)]
pub enum NotificationKind {
    Comment,
    Follow,
    Like,
    Mention,
    Reshare,
}

/// A row of the table of notifications.
#[derive(Clone, Copy, Debug, PartialEq, Eq, Structural)]
pub struct Notification {
    pub id: i32,
    pub user_id: i32,
    pub kind: NotificationKind,
    /// The row that the notification is about, in the table that its kind tells.
    pub object_id: i32,
}

/// A notification that has no row yet.
#[derive(Clone, Copy, Debug, PartialEq, Eq, Structural)]
pub struct NewNotification {
    pub user_id: i32,
    pub kind: NotificationKind,
    pub object_id: i32,
}

impl Row for Notification {
    open spec fn key(&self) -> i32 {
        self.id
    }

    fn row_id(&self) -> i32 {
        self.id
    }

    fn duplicate(&self) -> Self {
        *self
    }
}

/// Of a notification: it is of this kind and about this object.
pub open spec fn is_about(kind: NotificationKind, object_id: i32) -> spec_fn(Notification) -> bool {
    |row: Notification| row.kind == kind && row.object_id == object_id
}

/// The notifications of a kind about an object.
pub struct About {
    pub kind: NotificationKind,
    pub object_id: i32,
}

impl Condition<Notification> for About {
    open spec fn holds(&self, row: Notification) -> bool {
        row.kind == self.kind && row.object_id == self.object_id
    }

    fn test(&self, row: &Notification) -> bool {
        row.kind == self.kind && row.object_id == self.object_id
    }
}

impl Tables {
    /// The tables after a row was added for `new`, under the next free number, and that row.
    pub open spec fn notification_added(self, new: NewNotification) -> (
        Tables,
        Result<Notification, Error>,
    ) {
        if last_key(self.notifications) < i32::MAX {
            let row = Notification {
                id: (last_key(self.notifications) + 1) as i32,
                user_id: new.user_id,
                kind: new.kind,
                object_id: new.object_id,
            };
            (Tables { notifications: self.notifications.push(row), ..self }, Ok(row))
        } else {
            (self, Err(Error::Db(DbError::Query)))
        }
    }

    /// The tables without the notification numbered `id`.
    pub open spec fn notification_removed(self, id: i32) -> Tables {
        Tables { notifications: without_key(self.notifications, id), ..self }
    }
}

impl Notification {
    /// Adds a row for `new`, under the next free number, and hands it out.
    pub fn insert(conn: &mut Connection, new: NewNotification) -> (row: Result<Notification, Error>)
        ensures
            (final(conn)@, row) == old(conn)@.notification_added(new),
    {
        match next_key(&conn.notifications) {
            Ok(id) => {
                let row = Notification {
                    id,
                    user_id: new.user_id,
                    kind: new.kind,
                    object_id: new.object_id,
                };
                conn.notifications.push(row);
                Ok(row)
            },
            Err(e) => Err(e),
        }
    }

    /// A notification of this kind about this object.
    pub fn find(conn: &Connection, kind: NotificationKind, object_id: i32) -> (row: Result<
        Notification,
        Error,
    >)
        ensures
            row == first_row(conn@.notifications.filter(is_about(kind, object_id))),
    {
        let condition = About { kind, object_id };
        proof {
            matching_is_filter(conn@.notifications, condition, is_about(kind, object_id));
        }
        first(&conn.notifications, &condition)
    }

    /// Takes out the notification numbered `id`.
    pub fn remove(conn: &mut Connection, id: i32)
        ensures
            final(conn)@ == old(conn)@.notification_removed(id),
    {
        conn.notifications = delete(&conn.notifications, id);
    }
}

} // verus!
