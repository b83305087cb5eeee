use crate::activity::{Property, Received};
use crate::connection::TimelineEntry;
use crate::error::Error;
use crate::notifications::{NewNotification, Notification, NotificationKind};
use crate::posts::Post;
use crate::reshare::{NewReshare, Reshare};
use crate::users::User;
use vstd::prelude::*;

verus! {

/// Work that a task cannot do itself.
#[derive(Debug)]
pub enum Request {
    /// Find the post with an identifier, in the database or on the network.
    ResolvePost(String),
    /// Find the user with an identifier, in the database or on the network.
    ResolveUser(String),
    /// Add a row for a reshare.
    InsertReshare(NewReshare),
    /// Look up the post with a number.
    GetPost(i32),
    /// Look up the authors of the post with a number.
    GetAuthors(i32),
    /// Add a row for a notification.
    InsertNotification(NewNotification),
    /// Put a reshared post before all timelines.
    AddToTimelines(TimelineEntry),
    /// Delete the reshare with a number.
    DeleteReshare(i32),
    /// Look up the notification of a reshare.
    FindNotification { kind: NotificationKind, object_id: i32 },
    /// Delete the notification with a number.
    DeleteNotification(i32),
}

/// What came of a request that succeeded.
#[derive(Debug)]
pub enum Reply {
    Post(Post),
    User(User),
    Authors(Vec<User>),
    Reshare(Reshare),
    Notification(Notification),
    Done,
}

/// A task that waits for a reply.
#[derive(Debug)]
pub enum Task {
    /// Waits for the post that a received announcement is about.
    FindPost { actor: Property, id: Property },
    /// Waits for the user who sent it.
    FindUser { post_id: i32, id: Property },
    /// Waits for the row of a reshare.
    Store { delivery: Option<TimelineEntry> },
    /// Waits for the post that was reshared.
    LoadPost { reshare: Reshare, delivery: Option<TimelineEntry> },
    /// Waits for the authors of that post.
    LoadAuthors { reshare: Reshare, delivery: Option<TimelineEntry> },
    /// Waits for the notification of the author numbered `at`.
    Notify { reshare: Reshare, authors: Vec<User>, at: usize, delivery: Option<TimelineEntry> },
    /// Waits for the timelines.
    Deliver { reshare: Reshare },
    /// Waits for a withdrawn reshare to be deleted.
    Remove { reshare: Reshare },
    /// Waits for a notification about it.
    FindNotification { reshare: Reshare },
    /// Waits for this notification to be deleted.
    RemoveNotification { reshare: Reshare },
}

/// How a task goes on.
#[derive(Debug)]
pub enum Step {
    /// With the task, once there is a reply to the request.
    Ask(Request, Task),
    /// Not at all: it has come out.
    Finish(Result<Reshare, Error>),
}

impl Task {
    /// Whether the task can go on with `reply`: a failure always will do, and otherwise the reply
    /// has to be of the kind that the request was for.
    pub open spec fn accepts(self, reply: Result<Reply, Error>) -> bool {
        match reply {
            Err(_) => true,
            Ok(Reply::Post(_)) => self is FindPost || self is LoadPost,
            Ok(Reply::User(_)) => self is FindUser,
            Ok(Reply::Authors(_)) => self is LoadAuthors,
            Ok(Reply::Reshare(_)) => self is Store,
            Ok(Reply::Notification(_)) => self is Notify || self is FindNotification,
            Ok(Reply::Done) => self is Deliver || self is Remove || self is RemoveNotification,
        }
    }

    /// Whether the author whose notification is waited for is one of the authors.
    pub open spec fn wf(self) -> bool {
        self matches Task::Notify { authors, at, .. } ==> at < authors.len()
    }

    /// Whether the task is whole and can go on with `reply`.
    pub fn fits(&self, reply: &Result<Reply, Error>) -> (yes: bool)
        ensures
            yes == (self.wf() && self.accepts(*reply)),
    {
        if let Task::Notify { authors, at, .. } = self {
            if *at >= authors.len() {
                return false;
            }
        }
        match (self, reply) {
            (_, Err(_)) => true,
            (Task::FindPost { .. }, Ok(Reply::Post(_))) => true,
            (Task::FindUser { .. }, Ok(Reply::User(_))) => true,
            (Task::Store { .. }, Ok(Reply::Reshare(_))) => true,
            (Task::LoadPost { .. }, Ok(Reply::Post(_))) => true,
            (Task::LoadAuthors { .. }, Ok(Reply::Authors(_))) => true,
            (Task::Notify { .. }, Ok(Reply::Notification(_))) => true,
            (Task::Deliver { .. }, Ok(Reply::Done)) => true,
            (Task::Remove { .. }, Ok(Reply::Done)) => true,
            (Task::FindNotification { .. }, Ok(Reply::Notification(_))) => true,
            (Task::RemoveNotification { .. }, Ok(Reply::Done)) => true,
            _ => false,
        }
    }
}

/// The first local one among `authors`, from the one numbered `from` on; their number where there
/// is none.
pub open spec fn next_local(authors: Seq<User>, from: int) -> int
    decreases authors.len() - from,
{
    if from >= authors.len() {
        authors.len() as int
    } else if authors[from].local {
        from
    } else {
        next_local(authors, from + 1)
    }
}

/// The notification of `author` that their post was reshared.
pub open spec fn notice(reshare: Reshare, author: User) -> NewNotification {
    NewNotification {
        user_id: author.id,
        kind: NotificationKind::Reshare,
        object_id: reshare.id,
    }
}

/// Everyone is notified: the timelines are next, where the post is delivered.
pub open spec fn deliver_step(reshare: Reshare, delivery: Option<TimelineEntry>) -> Step {
    match delivery {
        Some(entry) => Step::Ask(Request::AddToTimelines(entry), Task::Deliver { reshare }),
        None => Step::Finish(Ok(reshare)),
    }
}

/// The authors before the one numbered `from` are notified: the next local one is next.
pub open spec fn notify_step(
    reshare: Reshare,
    authors: Vec<User>,
    from: int,
    delivery: Option<TimelineEntry>,
) -> Step {
    let at = next_local(authors@, from);
    if at < authors@.len() {
        Step::Ask(
            Request::InsertNotification(notice(reshare, authors@[at])),
            Task::Notify { reshare, authors, at: at as usize, delivery },
        )
    } else {
        deliver_step(reshare, delivery)
    }
}

/// The post and the user are known: the reshare needs its own identifier to be stored.
pub open spec fn store_step(post_id: i32, user_id: i32, id: Property) -> Step {
    match id.text() {
        Ok(ap_url) => Step::Ask(
            Request::InsertReshare(NewReshare { user_id, post_id, ap_url }),
            Task::Store { delivery: None },
        ),
        Err(e) => Step::Finish(Err(e)),
    }
}

/// The post is known: the user who sent the announcement is next.
pub open spec fn user_step(post_id: i32, actor: Property, id: Property) -> Step {
    match actor.text() {
        Ok(url) => Step::Ask(Request::ResolveUser(url), Task::FindUser { post_id, id }),
        Err(e) => Step::Finish(Err(e)),
    }
}

impl Task {
    /// How the task goes on after `reply`. A failure ends it, but for the search for a
    /// notification, which need not exist.
    pub open spec fn after(self, reply: Result<Reply, Error>) -> Step {
        match (self, reply) {
            (Task::FindNotification { reshare }, Err(_)) => Step::Finish(Ok(reshare)),
            (_, Err(e)) => Step::Finish(Err(e)),
            (Task::FindPost { actor, id }, Ok(Reply::Post(post))) => user_step(post.id, actor, id),
            (Task::FindUser { post_id, id }, Ok(Reply::User(user))) => store_step(
                post_id,
                user.id,
                id,
            ),
            (Task::Store { delivery }, Ok(Reply::Reshare(reshare))) => Step::Ask(
                Request::GetPost(reshare.post_id),
                Task::LoadPost { reshare, delivery },
            ),
            (Task::LoadPost { reshare, delivery }, Ok(Reply::Post(post))) => Step::Ask(
                Request::GetAuthors(post.id),
                Task::LoadAuthors { reshare, delivery },
            ),
            (Task::LoadAuthors { reshare, delivery }, Ok(Reply::Authors(authors))) => notify_step(
                reshare,
                authors,
                0,
                delivery,
            ),
            (Task::Notify { reshare, authors, at, delivery }, Ok(Reply::Notification(_))) =>
                notify_step(reshare, authors, at + 1, delivery),
            (Task::Deliver { reshare }, Ok(Reply::Done)) => Step::Finish(Ok(reshare)),
            (Task::Remove { reshare }, Ok(Reply::Done)) => Step::Ask(
                Request::FindNotification {
                    kind: NotificationKind::Reshare,
                    object_id: reshare.id,
                },
                Task::FindNotification { reshare },
            ),
            (Task::FindNotification { reshare }, Ok(Reply::Notification(notification))) =>
                Step::Ask(
                    Request::DeleteNotification(notification.id),
                    Task::RemoveNotification { reshare },
                ),
            (Task::RemoveNotification { reshare }, Ok(Reply::Done)) => Step::Finish(Ok(reshare)),
            _ => arbitrary(),
        }
    }

    /// How the notification of a reshared post's authors starts: with the post.
    pub open spec fn spec_notify(reshare: Reshare) -> Step {
        Step::Ask(Request::GetPost(reshare.post_id), Task::LoadPost { reshare, delivery: None })
    }

    /// How a reshare that was announced here starts: with its row, and in the end the post is put
    /// before the timelines.
    pub open spec fn spec_announce(post_id: i32, actor_id: i32, ap_url: String) -> Step {
        Step::Ask(
            Request::InsertReshare(NewReshare { user_id: actor_id, post_id, ap_url }),
            Task::Store { delivery: Some(TimelineEntry { post_id, actor_id }) },
        )
    }

    /// How a received announcement starts: with the post that it is about.
    pub open spec fn spec_receive(act: Received) -> Step {
        match act.object.text() {
            Ok(url) => Step::Ask(
                Request::ResolvePost(url),
                Task::FindPost { actor: act.actor, id: act.id },
            ),
            Err(e) => Step::Finish(Err(e)),
        }
    }

    /// How a withdrawal starts: nobody but the one who shares may withdraw.
    pub open spec fn spec_undo(reshare: Reshare, actor_id: i32) -> Step {
        if actor_id == reshare.user_id {
            Step::Ask(Request::DeleteReshare(reshare.id), Task::Remove { reshare })
        } else {
            Step::Finish(Err(Error::Unauthorized))
        }
    }

    /// The next step while authors are notified.
    fn go_notify(
        reshare: Reshare,
        authors: Vec<User>,
        from: usize,
        delivery: Option<TimelineEntry>,
    ) -> (step: Step)
        requires
            from <= authors@.len(),
        ensures
            step == notify_step(reshare, authors, from as int, delivery),
            step matches Step::Ask(_, task) ==> task.wf(),
    {
        let mut at: usize = from;
        while at < authors.len() && !authors[at].is_local()
            invariant
                at <= authors.len(),
                next_local(authors@, at as int) == next_local(authors@, from as int),
            decreases authors.len() - at,
        {
            at += 1;
        }
        if at < authors.len() {
            let new = NewNotification {
                user_id: authors[at].id,
                kind: NotificationKind::Reshare,
                object_id: reshare.id,
            };
            Step::Ask(
                Request::InsertNotification(new),
                Task::Notify { reshare, authors, at, delivery },
            )
        } else {
            match delivery {
                Some(entry) => Step::Ask(
                    Request::AddToTimelines(entry),
                    Task::Deliver { reshare },
                ),
                None => Step::Finish(Ok(reshare)),
            }
        }
    }

    /// Goes on after `reply`.
    pub fn resume(self, reply: Result<Reply, Error>) -> (step: Step)
        requires
            self.wf(),
            self.accepts(reply),
        ensures
            step == self.after(reply),
            step matches Step::Ask(_, task) ==> task.wf(),
    {
        match (self, reply) {
            (Task::FindNotification { reshare }, Err(_)) => Step::Finish(Ok(reshare)),
            (_, Err(e)) => Step::Finish(Err(e)),
            (Task::FindPost { actor, id }, Ok(Reply::Post(post))) => match actor.into_text() {
                Ok(url) => Step::Ask(
                    Request::ResolveUser(url),
                    Task::FindUser { post_id: post.id, id },
                ),
                Err(e) => Step::Finish(Err(e)),
            },
            (Task::FindUser { post_id, id }, Ok(Reply::User(user))) => match id.into_text() {
                Ok(ap_url) => Step::Ask(
                    Request::InsertReshare(NewReshare { user_id: user.id, post_id, ap_url }),
                    Task::Store { delivery: None },
                ),
                Err(e) => Step::Finish(Err(e)),
            },
            (Task::Store { delivery }, Ok(Reply::Reshare(reshare))) => Step::Ask(
                Request::GetPost(reshare.post_id),
                Task::LoadPost { reshare, delivery },
            ),
            (Task::LoadPost { reshare, delivery }, Ok(Reply::Post(post))) => Step::Ask(
                Request::GetAuthors(post.id),
                Task::LoadAuthors { reshare, delivery },
            ),
            (Task::LoadAuthors { reshare, delivery }, Ok(Reply::Authors(authors))) =>
                Task::go_notify(reshare, authors, 0, delivery),
            (Task::Notify { reshare, authors, at, delivery }, Ok(Reply::Notification(_))) =>
                Task::go_notify(reshare, authors, at + 1, delivery),
            (Task::Deliver { reshare }, Ok(Reply::Done)) => Step::Finish(Ok(reshare)),
            (Task::Remove { reshare }, Ok(Reply::Done)) => Step::Ask(
                Request::FindNotification {
                    kind: NotificationKind::Reshare,
                    object_id: reshare.id,
                },
                Task::FindNotification { reshare },
            ),
            (Task::FindNotification { reshare }, Ok(Reply::Notification(notification))) =>
                Step::Ask(
                    Request::DeleteNotification(notification.id),
                    Task::RemoveNotification { reshare },
                ),
            (Task::RemoveNotification { reshare }, Ok(Reply::Done)) => Step::Finish(Ok(reshare)),
            _ => vstd::pervasive::unreached(),
        }
    }

    /// Starts to notify the authors of the post that was reshared.
    pub fn notify(reshare: &Reshare) -> (step: Step)
        ensures
            step == Task::spec_notify(*reshare),
    {
        Step::Ask(
            Request::GetPost(reshare.post_id),
            Task::LoadPost { reshare: reshare.clone(), delivery: None },
        )
    }

    /// Starts to store a reshare that was announced here.
    pub fn announce(post_id: i32, actor_id: i32, ap_url: String) -> (step: Step)
        ensures
            step == Task::spec_announce(post_id, actor_id, ap_url),
    {
        Step::Ask(
            Request::InsertReshare(NewReshare { user_id: actor_id, post_id, ap_url }),
            Task::Store { delivery: Some(TimelineEntry { post_id, actor_id }) },
        )
    }

    /// Starts to store a reshare of which an announcement came in.
    pub fn receive(act: Received) -> (step: Step)
        ensures
            step == Task::spec_receive(act),
    {
        match act.object.into_text() {
            Ok(url) => Step::Ask(
                Request::ResolvePost(url),
                Task::FindPost { actor: act.actor, id: act.id },
            ),
            Err(e) => Step::Finish(Err(e)),
        }
    }

    /// Starts to withdraw a reshare.
    pub fn undo(reshare: Reshare, actor_id: i32) -> (step: Step)
        ensures
            step == Task::spec_undo(reshare, actor_id),
    {
        if actor_id == reshare.user_id {
            Step::Ask(Request::DeleteReshare(reshare.id), Task::Remove { reshare })
        } else {
            Step::Finish(Err(Error::Unauthorized))
        }
    }
}

} // verus!
