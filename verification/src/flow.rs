use crate::activity::{is_announce, is_announce07, Property, Received};
use crate::connection::{Connection, Tables, TimelineEntry};
use crate::error::Error;
use crate::notifications::{is_about, Notification, NotificationKind};
use crate::posts::{authors_of, post_url_is, Post};
use crate::query::{first_row, with_key};
use crate::reshare::{reshare_url_is, NewReshare, Reshare};
use crate::task::{next_local, notice, notify_step, Reply, Request, Step, Task};
use crate::users::{user_url_is, User};
use vstd::prelude::*;

verus! {

/// What is found without a network: a row, or nothing that could be fetched.
pub open spec fn stored<R>(rows: Seq<R>) -> Result<R, Error> {
    if rows.len() == 0 {
        Err(Error::Request)
    } else {
        Ok(rows[0])
    }
}

impl Tables {
    /// The tables after each local one of `authors` was notified of the reshare, in order, up to
    /// the first notification that could not be stored.
    pub open spec fn authors_notified(self, reshare: Reshare, authors: Seq<User>) -> (
        Tables,
        Result<(), Error>,
    )
        decreases authors.len(),
    {
        if authors.len() == 0 {
            (self, Ok(()))
        } else if !authors[0].local {
            self.authors_notified(reshare, authors.drop_first())
        } else {
            match self.notification_added(notice(reshare, authors[0])) {
                (tables, Ok(_)) => tables.authors_notified(reshare, authors.drop_first()),
                (tables, Err(e)) => (tables, Err(e)),
            }
        }
    }

    /// The tables after the authors of the reshared post were notified.
    pub open spec fn notified(self, reshare: Reshare) -> (Tables, Result<(), Error>) {
        match first_row(with_key(self.posts, reshare.post_id)) {
            Ok(post) => self.authors_notified(reshare, self.authors(post.id)),
            Err(e) => (self, Err(e)),
        }
    }

    /// The tables after the reshared post was put before the timelines, where it is.
    pub open spec fn delivered(self, delivery: Option<TimelineEntry>) -> Tables {
        match delivery {
            Some(entry) => Tables { timeline: self.timeline.push(entry), ..self },
            None => self,
        }
    }

    /// The tables after a row was added for `new`, the authors were notified and the post was
    /// delivered, and that row. What was done before a failure stays done.
    pub open spec fn reshared(self, new: NewReshare, delivery: Option<TimelineEntry>) -> (
        Tables,
        Result<Reshare, Error>,
    ) {
        match self.reshare_added(new) {
            (tables, Ok(reshare)) => after_notices(tables.notified(reshare), reshare, delivery),
            (tables, Err(e)) => (tables, Err(e)),
        }
    }

    /// The tables after a received announcement was stored, where the post is known.
    pub open spec fn received_from(self, post_id: i32, actor: Property, id: Property) -> (
        Tables,
        Result<Reshare, Error>,
    ) {
        match actor.text() {
            Ok(url) => match stored(self.users.filter(user_url_is(url@))) {
                Ok(user) => self.received_by(post_id, user.id, id),
                Err(e) => (self, Err(e)),
            },
            Err(e) => (self, Err(e)),
        }
    }

    /// The tables after a received announcement was stored, where the post and the user are known.
    pub open spec fn received_by(self, post_id: i32, user_id: i32, id: Property) -> (
        Tables,
        Result<Reshare, Error>,
    ) {
        match id.text() {
            Ok(ap_url) => self.reshared(NewReshare { user_id, post_id, ap_url }, None),
            Err(e) => (self, Err(e)),
        }
    }

    /// The tables after the received announcement `act` was stored, and its row.
    pub open spec fn received(self, act: Received) -> (Tables, Result<Reshare, Error>) {
        match act.object.text() {
            Ok(url) => match stored(self.posts.filter(post_url_is(url@))) {
                Ok(post) => self.received_from(post.id, act.actor, act.id),
                Err(e) => (self, Err(e)),
            },
            Err(e) => (self, Err(e)),
        }
    }

    /// The tables without a notification about the reshare.
    pub open spec fn notice_removed(self, reshare: Reshare) -> Tables {
        match first_row(
            self.notifications.filter(is_about(NotificationKind::Reshare, reshare.id)),
        ) {
            Ok(notification) => self.notification_removed(notification.id),
            Err(_) => self,
        }
    }

    /// The tables after the actor numbered `actor_id` withdrew the reshare: it is gone, and with
    /// it a notification about it, unless someone else had made it.
    pub open spec fn withdrawn(self, reshare: Reshare, actor_id: i32) -> (
        Tables,
        Result<Reshare, Error>,
    ) {
        if actor_id == reshare.user_id {
            (self.reshare_removed(reshare.id).notice_removed(reshare), Ok(reshare))
        } else {
            (self, Err(Error::Unauthorized))
        }
    }
}

/// What comes after the notifications: the delivery, or their failure.
pub open spec fn after_notices(
    notices: (Tables, Result<(), Error>),
    reshare: Reshare,
    delivery: Option<TimelineEntry>,
) -> (Tables, Result<Reshare, Error>) {
    match notices {
        (tables, Ok(_)) => (tables.delivered(delivery), Ok(reshare)),
        (tables, Err(e)) => (tables, Err(e)),
    }
}

impl Step {
    /// Whether the request is the one that the task waits for a reply to.
    pub open spec fn coherent(self) -> bool {
        match self {
            Step::Finish(_) => true,
            Step::Ask(request, task) => task.wf() && match task {
                Task::FindPost { .. } => request is ResolvePost,
                Task::FindUser { .. } => request is ResolveUser,
                Task::Store { .. } => request is InsertReshare,
                Task::LoadPost { reshare, .. } => request == Request::GetPost(reshare.post_id),
                Task::LoadAuthors { .. } => request is GetAuthors,
                Task::Notify { reshare, authors, at, .. } => {
                    &&& authors@[at as int].local
                    &&& request == Request::InsertNotification(
                        notice(reshare, authors@[at as int]),
                    )
                },
                Task::Deliver { .. } => request is AddToTimelines,
                Task::Remove { reshare } => request == Request::DeleteReshare(reshare.id),
                Task::FindNotification { reshare } => request == (Request::FindNotification {
                    kind: NotificationKind::Reshare,
                    object_id: reshare.id,
                }),
                Task::RemoveNotification { .. } => request is DeleteNotification,
            },
        }
    }

    /// What the tables become, and what comes out, if every request is answered by the tables.
    pub open spec fn outcome(self, tables: Tables) -> (Tables, Result<Reshare, Error>) {
        match self {
            Step::Finish(result) => (tables, result),
            Step::Ask(request, task) => match (task, request) {
                (Task::FindPost { actor, id }, Request::ResolvePost(url)) => match stored(
                    tables.posts.filter(post_url_is(url@)),
                ) {
                    Ok(post) => tables.received_from(post.id, actor, id),
                    Err(e) => (tables, Err(e)),
                },
                (Task::FindUser { post_id, id }, Request::ResolveUser(url)) => match stored(
                    tables.users.filter(user_url_is(url@)),
                ) {
                    Ok(user) => tables.received_by(post_id, user.id, id),
                    Err(e) => (tables, Err(e)),
                },
                (Task::Store { delivery }, Request::InsertReshare(new)) => tables.reshared(
                    new,
                    delivery,
                ),
                (Task::LoadPost { reshare, delivery }, Request::GetPost(_)) => after_notices(
                    tables.notified(reshare),
                    reshare,
                    delivery,
                ),
                (Task::LoadAuthors { reshare, delivery }, Request::GetAuthors(post_id)) =>
                    after_notices(
                        tables.authors_notified(reshare, tables.authors(post_id)),
                        reshare,
                        delivery,
                    ),
                (
                    Task::Notify { reshare, authors, at, delivery },
                    Request::InsertNotification(_),
                ) => after_notices(
                    tables.authors_notified(reshare, authors@.skip(at as int)),
                    reshare,
                    delivery,
                ),
                (Task::Deliver { reshare }, Request::AddToTimelines(entry)) => (
                    tables.delivered(Some(entry)),
                    Ok(reshare),
                ),
                (Task::Remove { reshare }, Request::DeleteReshare(id)) => (
                    tables.reshare_removed(id).notice_removed(reshare),
                    Ok(reshare),
                ),
                (Task::FindNotification { reshare }, Request::FindNotification { .. }) => (
                    tables.notice_removed(reshare),
                    Ok(reshare),
                ),
                (Task::RemoveNotification { reshare }, Request::DeleteNotification(id)) => (
                    tables.notification_removed(id),
                    Ok(reshare),
                ),
                _ => arbitrary(),
            },
        }
    }

    /// How many kinds of work still lie ahead.
    pub open spec fn stage(self) -> nat {
        match self {
            Step::Finish(_) => 0,
            Step::Ask(_, Task::RemoveNotification { .. }) => 1,
            Step::Ask(_, Task::FindNotification { .. }) => 2,
            Step::Ask(_, Task::Remove { .. }) => 3,
            Step::Ask(_, Task::Deliver { .. }) => 4,
            Step::Ask(_, Task::Notify { .. }) => 5,
            Step::Ask(_, Task::LoadAuthors { .. }) => 6,
            Step::Ask(_, Task::LoadPost { .. }) => 7,
            Step::Ask(_, Task::Store { .. }) => 8,
            Step::Ask(_, Task::FindUser { .. }) => 9,
            Step::Ask(_, Task::FindPost { .. }) => 10,
        }
    }

    /// How many authors are still to be looked at.
    pub open spec fn authors_left(self) -> nat {
        match self {
            Step::Ask(_, Task::Notify { authors, at, .. }) => (authors@.len() - at) as nat,
            _ => 0,
        }
    }
}

/// What the tables answer to `request`.
pub open spec fn answers(tables: Tables, request: Request, reply: Result<Reply, Error>) -> bool {
    match request {
        Request::ResolvePost(url) => reply == match stored(
            tables.posts.filter(post_url_is(url@)),
        ) {
            Ok(post) => Ok::<Reply, Error>(Reply::Post(post)),
            Err(e) => Err(e),
        },
        Request::ResolveUser(url) => reply == match stored(
            tables.users.filter(user_url_is(url@)),
        ) {
            Ok(user) => Ok::<Reply, Error>(Reply::User(user)),
            Err(e) => Err(e),
        },
        Request::InsertReshare(new) => reply == match tables.reshare_added(new).1 {
            Ok(reshare) => Ok::<Reply, Error>(Reply::Reshare(reshare)),
            Err(e) => Err(e),
        },
        Request::GetPost(id) => reply == match first_row(with_key(tables.posts, id)) {
            Ok(post) => Ok::<Reply, Error>(Reply::Post(post)),
            Err(e) => Err(e),
        },
        Request::GetAuthors(post_id) => reply matches Ok(Reply::Authors(authors)) && authors@
            == tables.authors(post_id),
        Request::InsertNotification(new) => reply == match tables.notification_added(new).1 {
            Ok(notification) => Ok::<Reply, Error>(Reply::Notification(notification)),
            Err(e) => Err(e),
        },
        Request::AddToTimelines(_) => reply == Ok::<Reply, Error>(Reply::Done),
        Request::DeleteReshare(_) => reply == Ok::<Reply, Error>(Reply::Done),
        Request::FindNotification { kind, object_id } => reply == match first_row(
            tables.notifications.filter(is_about(kind, object_id)),
        ) {
            Ok(notification) => Ok::<Reply, Error>(Reply::Notification(notification)),
            Err(e) => Err(e),
        },
        Request::DeleteNotification(_) => reply == Ok::<Reply, Error>(Reply::Done),
    }
}

impl Tables {
    /// What the tables become by `request`.
    pub open spec fn performed(self, request: Request) -> Tables {
        match request {
            Request::InsertReshare(new) => self.reshare_added(new).0,
            Request::InsertNotification(new) => self.notification_added(new).0,
            Request::AddToTimelines(entry) => self.delivered(Some(entry)),
            Request::DeleteReshare(id) => self.reshare_removed(id),
            Request::DeleteNotification(id) => self.notification_removed(id),
            _ => self,
        }
    }
}

impl Connection {
    /// Does what `request` asks for, on the tables.
    pub fn perform(&mut self, request: Request) -> (reply: Result<Reply, Error>)
        ensures
            final(self)@ == old(self)@.performed(request),
            answers(old(self)@, request, reply),
    {
        match request {
            Request::ResolvePost(url) => match Post::find_by_ap_url(self, &url) {
                Ok(post) => Ok(Reply::Post(post)),
                Err(_) => Err(Error::Request),
            },
            Request::ResolveUser(url) => match User::find_by_ap_url(self, &url) {
                Ok(user) => Ok(Reply::User(user)),
                Err(_) => Err(Error::Request),
            },
            Request::InsertReshare(new) => match Reshare::insert(self, new) {
                Ok(reshare) => Ok(Reply::Reshare(reshare)),
                Err(e) => Err(e),
            },
            Request::GetPost(id) => match Post::get(self, id) {
                Ok(post) => Ok(Reply::Post(post)),
                Err(e) => Err(e),
            },
            Request::GetAuthors(post_id) => Ok(Reply::Authors(authors_of(self, post_id))),
            Request::InsertNotification(new) => match Notification::insert(self, new) {
                Ok(notification) => Ok(Reply::Notification(notification)),
                Err(e) => Err(e),
            },
            Request::AddToTimelines(entry) => {
                self.timeline.push(entry);
                Ok(Reply::Done)
            },
            Request::DeleteReshare(id) => {
                Reshare::remove(self, id);
                Ok(Reply::Done)
            },
            Request::FindNotification { kind, object_id } => match Notification::find(
                self,
                kind,
                object_id,
            ) {
                Ok(notification) => Ok(Reply::Notification(notification)),
                Err(e) => Err(e),
            },
            Request::DeleteNotification(id) => {
                Notification::remove(self, id);
                Ok(Reply::Done)
            },
        }
    }
}

/// Authors that are not local make no difference.
proof fn skip_to_local(tables: Tables, reshare: Reshare, authors: Seq<User>, from: int)
    requires
        0 <= from <= authors.len(),
    ensures
        from <= next_local(authors, from) <= authors.len(),
        next_local(authors, from) < authors.len() ==> authors[next_local(authors, from)].local,
        tables.authors_notified(reshare, authors.skip(from)) == tables.authors_notified(
            reshare,
            authors.skip(next_local(authors, from)),
        ),
    decreases authors.len() - from,
{
    if from < authors.len() && !authors[from].local {
        skip_to_local(tables, reshare, authors, from + 1);
        assert(authors.skip(from).drop_first() =~= authors.skip(from + 1));
    }
}

/// The step among notifications comes to what is left of them.
proof fn notify_step_outcome(
    tables: Tables,
    reshare: Reshare,
    authors: Vec<User>,
    from: int,
    delivery: Option<TimelineEntry>,
)
    requires
        0 <= from <= authors.len(),
    ensures
        notify_step(reshare, authors, from, delivery).coherent(),
        notify_step(reshare, authors, from, delivery).stage() <= 5,
        notify_step(reshare, authors, from, delivery).authors_left() <= authors.len() - from,
        notify_step(reshare, authors, from, delivery).outcome(tables) == after_notices(
            tables.authors_notified(reshare, authors@.skip(from)),
            reshare,
            delivery,
        ),
{
    skip_to_local(tables, reshare, authors@, from);
    let at = next_local(authors@, from);
    if at >= authors@.len() {
        assert(authors@.skip(at) =~= Seq::<User>::empty());
    }
}

/// Answering a request and going on keeps what the task comes to.
proof fn step_keeps_outcome(tables: Tables, request: Request, task: Task, reply: Result<Reply, Error>)
    requires
        Step::Ask(request, task).coherent(),
        answers(tables, request, reply),
    ensures
        task.accepts(reply),
        task.after(reply).coherent(),
        task.after(reply).outcome(tables.performed(request)) == Step::Ask(request, task).outcome(
            tables,
        ),
        task.after(reply).stage() < Step::Ask(request, task).stage() || (task.after(reply).stage()
            == Step::Ask(request, task).stage() && task.after(reply).authors_left() < Step::Ask(
            request,
            task,
        ).authors_left()),
{
    match task {
        Task::LoadAuthors { reshare, delivery } => {
            let authors = reply->Ok_0->Authors_0;
            assert(authors@.skip(0) =~= authors@);
            notify_step_outcome(tables, reshare, authors, 0, delivery);
        },
        Task::Notify { reshare, authors, at, delivery } => {
            assert(authors@.skip(at as int).drop_first() =~= authors@.skip(at + 1));
            if reply is Ok {
                notify_step_outcome(
                    tables.performed(request),
                    reshare,
                    authors,
                    at + 1,
                    delivery,
                );
            }
        },
        _ => {},
    }
}

/// Runs a task on the tables until it has come out.
pub fn run(step: Step, conn: &mut Connection) -> (result: Result<Reshare, Error>)
    requires
        step.coherent(),
    ensures
        (final(conn)@, result) == step.outcome(old(conn)@),
{
    let mut next = step;
    loop
        invariant
            next.coherent(),
            next.outcome(conn@) == step.outcome(old(conn)@),
        decreases next.stage(), next.authors_left(),
    {
        match next {
            Step::Finish(result) => return result,
            Step::Ask(request, task) => {
                let ghost before = conn@;
                let ghost asked = request;
                let reply = conn.perform(request);
                proof {
                    step_keeps_outcome(before, asked, task, reply);
                }
                next = task.resume(reply);
            },
        }
    }
}

impl Reshare {
    /// Notifies each local author of the post that was reshared.
    pub fn notify(&self, conn: &mut Connection) -> (done: Result<(), Error>)
        ensures
            final(conn)@ == old(conn)@.notified(*self).0,
            match done {
                Ok(_) => old(conn)@.notified(*self).1 is Ok,
                Err(e) => old(conn)@.notified(*self).1 == Err::<(), Error>(e),
            },
    {
        match run(Task::notify(self), conn) {
            Ok(_) => Ok(()),
            Err(e) => Err(e),
        }
    }

    /// The reshare with the identifier `id`.
    pub fn from_db(conn: &Connection, id: &str) -> (row: Result<Reshare, Error>)
        ensures
            row == first_row(conn@.reshares.filter(reshare_url_is(id@))),
    {
        Reshare::find_by_ap_url(conn, id)
    }

    /// The reshare with the identifier `id`.
    pub fn from_db07(conn: &Connection, id: &str) -> (row: Result<Reshare, Error>)
        ensures
            row == first_row(conn@.reshares.filter(reshare_url_is(id@))),
    {
        Reshare::find_by_ap_url(conn, id)
    }

    /// Stores the reshare that a received announcement tells of, and notifies the authors.
    pub fn from_received(conn: &mut Connection, act: Received) -> (row: Result<Reshare, Error>)
        ensures
            (final(conn)@, row) == old(conn)@.received(act),
    {
        run(Task::receive(act), conn)
    }

    /// Stores the reshare that the announcement `act`, in JSON, tells of, as `activitypub` reads
    /// it, and notifies the authors.
    pub fn from_activity(conn: &mut Connection, act: &str) -> (row: Result<Reshare, Error>)
        ensures
            if is_announce(act@) {
                exists|received: Received|
                    received@ == Received::spec_announce(act@) && (final(conn)@, row)
                        == #[trigger] old(conn)@.received(received)
            } else {
                final(conn)@ == old(conn)@ && row == Err::<Reshare, Error>(Error::SerDe)
            },
    {
        match Received::announce(act) {
            Ok(received) => Reshare::from_received(conn, received),
            Err(e) => Err(e),
        }
    }

    /// Stores the reshare that the announcement `act`, in JSON, tells of, as `activitystreams`
    /// reads it, and notifies the authors.
    pub fn from_activity07(conn: &mut Connection, act: &str) -> (row: Result<Reshare, Error>)
        ensures
            if is_announce07(act@) {
                exists|received: Received|
                    received@ == Received::spec_announce07(act@) && (final(conn)@, row)
                        == #[trigger] old(conn)@.received(received)
            } else {
                final(conn)@ == old(conn)@ && row == Err::<Reshare, Error>(Error::SerDe)
            },
    {
        match Received::announce07(act) {
            Ok(received) => Reshare::from_received(conn, received),
            Err(e) => Err(e),
        }
    }

    /// Withdraws the reshare on behalf of `actor`, who must be the one who made it. The
    /// withdrawal's own identifier does not matter.
    pub fn activity(self, conn: &mut Connection, actor: User, _id: &str) -> (done: Result<
        (),
        Error,
    >)
        ensures
            final(conn)@ == old(conn)@.withdrawn(self, actor.id).0,
            done == if actor.id == self.user_id {
                Ok::<(), Error>(())
            } else {
                Err(Error::Unauthorized)
            },
    {
        match run(Task::undo(self, actor.id), conn) {
            Ok(_) => Ok(()),
            Err(e) => Err(e),
        }
    }
}

impl Post {
    /// Stores that `actor` shares the post, as `id`, notifies the authors and puts the post before
    /// the timelines.
    pub fn activity(self, conn: &mut Connection, actor: User, id: &str) -> (row: Result<
        Reshare,
        Error,
    >)
        ensures
            exists|ap_url: String|
                {
                    &&& ap_url@ == id@
                    &&& (final(conn)@, row) == #[trigger] old(conn)@.reshared(
                        NewReshare { user_id: actor.id, post_id: self.id, ap_url },
                        Some(TimelineEntry { post_id: self.id, actor_id: actor.id }),
                    )
                },
    {
        let ap_url = id.to_owned();
        run(Task::announce(self.id, actor.id, ap_url), conn)
    }

    /// Stores that `actor` shares the post, as `id`, notifies the authors and puts the post before
    /// the timelines.
    pub fn activity07(self, conn: &mut Connection, actor: User, id: &str) -> (row: Result<
        Reshare,
        Error,
    >)
        ensures
            exists|ap_url: String|
                {
                    &&& ap_url@ == id@
                    &&& (final(conn)@, row) == #[trigger] old(conn)@.reshared(
                        NewReshare { user_id: actor.id, post_id: self.id, ap_url },
                        Some(TimelineEntry { post_id: self.id, actor_id: actor.id }),
                    )
                },
    {
        let ap_url = id.to_owned();
        run(Task::announce(self.id, actor.id, ap_url), conn)
    }
}

} // verus!
