use plume_models::activity::{Property, Received};
use plume_models::connection::{Connection, TimelineEntry};
use plume_models::error::{DbError, Error};
use plume_models::notifications::{NewNotification, Notification, NotificationKind};
use plume_models::posts::{Post, PostAuthor};
use plume_models::query::NegativeBound;
use plume_models::reshare::{NewReshare, Reshare};
use plume_models::task::{Reply, Request, Step, Task};
use plume_models::timestamp::Timestamp;
use plume_models::users::{Role, User};
use serde_json::Value;

fn at(secs: i64) -> Timestamp {
    Timestamp { secs, nanos: 0 }
}

fn user(id: i32, name: &str, local: bool) -> User {
    User {
        id,
        instance_id: if local { 1 } else { 2 },
        role: Role::Normal.code(),
        local,
        ap_url: format!("https://plu.me/@/{}/", name),
        followers_endpoint: format!("https://plu.me/@/{}/followers", name),
    }
}

fn fill_database() -> Connection {
    let mut conn = Connection::new(at(100), NegativeBound::Refused);
    conn.users.push(user(1, "admin", true));
    conn.users.push(user(2, "user", true));
    conn.users.push(user(3, "other", false));
    conn.posts.push(Post { id: 1, ap_url: "https://plu.me/~/BlogName/testing".to_owned() });
    conn.posts.push(Post { id: 2, ap_url: "https://plu.me/~/BlogName/testing2".to_owned() });
    for (post_id, author_id) in [(1, 1), (2, 1), (2, 2), (2, 3)] {
        conn.post_authors.push(PostAuthor { post_id, author_id });
    }
    conn
}

fn object(fields: Vec<(&str, Value)>) -> Value {
    let mut map = serde_json::Map::new();
    for (name, value) in fields {
        map.insert(name.to_owned(), value);
    }
    Value::Object(map)
}

fn expected_announce() -> Value {
    object(vec![
        ("actor", Value::from("https://plu.me/@/admin/")),
        ("cc", Value::from(vec!["https://plu.me/@/admin/followers"])),
        (
            "id",
            Value::from("https://plu.me/@/admin/reshare/https://plu.me/~/BlogName/testing"),
        ),
        ("object", Value::from("https://plu.me/~/BlogName/testing")),
        ("to", Value::from(vec!["https://www.w3.org/ns/activitystreams#Public"])),
        ("type", Value::from("Announce")),
    ])
}

fn parsed(json: &str) -> Value {
    serde_json::from_str(json).unwrap()
}

fn summary(conn: &Connection) -> Vec<(i32, i32, NotificationKind, i32)> {
    conn.notifications.iter().map(|n| (n.id, n.user_id, n.kind, n.object_id)).collect()
}

#[test]
fn to_activity() {
    let mut conn = fill_database();
    let post = conn.posts[0].clone();
    let user = post.get_authors(&conn).unwrap()[0].clone();
    let reshare = Reshare::insert(&mut conn, NewReshare::new(&post, &user)).unwrap();
    let act = reshare.to_activity(&conn).unwrap();

    assert_eq!(parsed(&act.to_json().unwrap()), expected_announce());
}

#[test]
fn to_activity07() {
    let mut conn = fill_database();
    let post = conn.posts[0].clone();
    let user = post.get_authors(&conn).unwrap()[0].clone();
    let reshare = Reshare::insert(&mut conn, NewReshare::new(&post, &user)).unwrap();
    let act = reshare.to_activity07(&conn).unwrap();

    assert_eq!(parsed(&act.to_json().unwrap()), expected_announce());
}

#[test]
fn build_undo() {
    let mut conn = fill_database();
    let post = conn.posts[0].clone();
    let user = post.get_authors(&conn).unwrap()[0].clone();
    let reshare = Reshare::insert(&mut conn, NewReshare::new(&post, &user)).unwrap();
    let act = reshare.build_undo(&conn).unwrap();

    let expected = object(vec![
        ("actor", Value::from("https://plu.me/@/admin/")),
        ("cc", Value::from(vec!["https://plu.me/@/admin/followers"])),
        (
            "id",
            Value::from("https://plu.me/@/admin/reshare/https://plu.me/~/BlogName/testing#delete"),
        ),
        ("object", expected_announce()),
        ("to", Value::from(vec!["https://www.w3.org/ns/activitystreams#Public"])),
        ("type", Value::from("Undo")),
    ]);
    assert_eq!(parsed(&act.to_json().unwrap()), expected);
}

#[test]
fn activities_need_their_rows() {
    let mut conn = fill_database();
    let missing = Some(Error::Db(DbError::NotFound));
    let no_user = Reshare::insert(
        &mut conn,
        NewReshare { user_id: 9, post_id: 1, ap_url: "https://plu.me/r/1".to_owned() },
    )
    .unwrap();
    let no_post = Reshare::insert(
        &mut conn,
        NewReshare { user_id: 1, post_id: 9, ap_url: "https://plu.me/r/2".to_owned() },
    )
    .unwrap();
    for reshare in [&no_user, &no_post] {
        assert_eq!(reshare.to_activity(&conn).err(), missing);
        assert_eq!(reshare.to_activity07(&conn).err(), missing);
        assert_eq!(reshare.build_undo(&conn).err(), missing);
    }
    assert_eq!(no_user.get_user(&conn).err(), missing);
    assert_eq!(no_user.get_post(&conn).unwrap().id, 1);
    assert_eq!(no_post.get_post(&conn).err(), missing);
    assert_eq!(no_post.get_user(&conn).unwrap().id, 1);
}

#[test]
fn activities_in_iris_refuse_other_texts() {
    let mut conn = fill_database();
    let odd = Reshare::insert(
        &mut conn,
        NewReshare { user_id: 1, post_id: 1, ap_url: "no iri".to_owned() },
    )
    .unwrap();
    assert_eq!(odd.to_activity07(&conn).err(), Some(Error::Url));
    assert_eq!(odd.to_activity(&conn).unwrap().id, "no iri");

    conn.users[0].ap_url = "relative/path".to_owned();
    let unknown_post = Reshare::insert(
        &mut conn,
        NewReshare { user_id: 1, post_id: 9, ap_url: "https://plu.me/r/1".to_owned() },
    )
    .unwrap();
    assert_eq!(unknown_post.to_activity07(&conn).err(), Some(Error::Url));

    conn.users[1].followers_endpoint = "<>".to_owned();
    let no_followers = Reshare::insert(
        &mut conn,
        NewReshare { user_id: 2, post_id: 1, ap_url: "https://plu.me/r/2".to_owned() },
    )
    .unwrap();
    assert_eq!(no_followers.to_activity07(&conn).err(), Some(Error::Url));
    assert!(no_followers.to_activity(&conn).is_ok());
}

#[test]
fn announcements_in_iris_refuse_other_texts_in_json() {
    let mut conn = fill_database();
    let post = conn.posts[0].clone();
    let user = conn.users[0].clone();
    let reshare = Reshare::insert(&mut conn, NewReshare::new(&post, &user)).unwrap();
    let mut act = reshare.to_activity07(&conn).unwrap();
    act.cc.push("no iri".to_owned());
    assert_eq!(act.to_json().err(), Some(Error::Url));
}

#[test]
fn failed_lookups_answer_in_order() {
    let reshare = Reshare {
        id: 1,
        user_id: 1,
        post_id: 1,
        ap_url: "https://plu.me/r/1".to_owned(),
        creation_date: at(0),
    };
    let found = || Ok(user(1, "admin", true));
    let post = || Ok(Post { id: 1, ap_url: "https://plu.me/p/1".to_owned() });
    let first = || Err(Error::Request);
    assert_eq!(
        reshare.announce_from(first(), Err(Error::Io), Err(Error::Url)).err(),
        Some(Error::Request)
    );
    assert_eq!(
        reshare.announce_from(found(), Err(Error::Io), Err(Error::NotFound)).err(),
        Some(Error::Io)
    );
    assert_eq!(
        reshare.announce_from(found(), post(), Err(Error::NotFound)).err(),
        Some(Error::NotFound)
    );
    assert_eq!(
        reshare.announce07_from(found(), post(), Err(Error::NotFound)).err(),
        Some(Error::NotFound)
    );
    assert_eq!(
        reshare.announce07_from(found(), Err(Error::Io), found()).err(),
        Some(Error::Io)
    );
    assert_eq!(
        reshare.undo_from(found(), Err(Error::Io), Err(Error::NotFound)).err(),
        Some(Error::Io)
    );
    let act = reshare.announce_from(found(), post(), Ok(user(2, "user", true))).unwrap();
    assert_eq!(act.cc, vec!["https://plu.me/@/user/followers".to_owned()]);
    assert_eq!(act.actor, "https://plu.me/@/admin/");
}

#[test]
fn a_new_reshare_is_named_after_user_and_post() {
    let conn = fill_database();
    let new = NewReshare::new(&conn.posts[1], &conn.users[2]);
    assert_eq!(new.user_id, 3);
    assert_eq!(new.post_id, 2);
    assert_eq!(
        new.ap_url,
        "https://plu.me/@/other/reshare/https://plu.me/~/BlogName/testing2"
    );
    let other = NewReshare::new(&conn.posts[0], &conn.users[2]);
    assert_ne!(new.ap_url, other.ap_url);
}

#[test]
fn stored_reshares_are_found() {
    let mut conn = fill_database();
    let new = NewReshare::new(&conn.posts[1], &conn.users[2]);
    let url = new.ap_url.clone();
    let row = Reshare::insert(&mut conn, new).unwrap();
    assert_eq!(row.id, 1);
    assert_eq!(row.creation_date, at(100));
    assert_eq!(Reshare::get(&conn, 1).unwrap().ap_url, url);
    assert_eq!(Reshare::find_by_ap_url(&conn, &url).unwrap().id, 1);
    assert_eq!(Reshare::from_db(&conn, &url).unwrap().id, 1);
    assert_eq!(Reshare::from_db07(&conn, &url).unwrap().id, 1);
    assert_eq!(Reshare::find_by_user_on_post(&conn, 3, 2).unwrap().id, 1);
    let missing = Some(Error::Db(DbError::NotFound));
    assert_eq!(Reshare::get(&conn, 2).err(), missing);
    assert_eq!(Reshare::find_by_ap_url(&conn, "").err(), missing);
    assert_eq!(Reshare::find_by_user_on_post(&conn, 2, 3).err(), missing);
    conn.reshares[0].id = i32::MAX;
    assert_eq!(
        Reshare::insert(
            &mut conn,
            NewReshare { user_id: 1, post_id: 1, ap_url: String::new() }
        )
        .err(),
        Some(Error::Db(DbError::Query))
    );
}

#[test]
fn recents_come_newest_first() {
    let mut conn = fill_database();
    let dates = [(1, 50, 0), (1, 70, 0), (2, 90, 0), (1, 60, 0), (1, 70, 5), (1, 70, 0)];
    for (index, (user_id, secs, nanos)) in dates.iter().enumerate() {
        conn.now = Timestamp { secs: *secs, nanos: *nanos };
        Reshare::insert(
            &mut conn,
            NewReshare { user_id: *user_id, post_id: 1, ap_url: format!("r{}", index) },
        )
        .unwrap();
    }
    let admin = conn.users[0].clone();
    let ids = |limit| {
        Reshare::get_recents_for_author(&conn, &admin, limit)
            .map(|rows| rows.iter().map(|r| r.id).collect::<Vec<i32>>())
    };
    assert_eq!(ids(10), Ok(vec![5, 2, 6, 4, 1]));
    assert_eq!(ids(2), Ok(vec![5, 2]));
    assert_eq!(ids(0), Ok(vec![]));
    assert_eq!(ids(-1), Err(Error::Db(DbError::Query)));
    let other = conn.users[2].clone();
    assert!(Reshare::get_recents_for_author(&conn, &other, 5).unwrap().is_empty());
    conn.negative = NegativeBound::Ignored;
    let all: Vec<i32> = Reshare::get_recents_for_author(&conn, &admin, -1)
        .unwrap()
        .iter()
        .map(|r| r.id)
        .collect();
    assert_eq!(all, vec![5, 2, 6, 4, 1]);
}

#[test]
fn local_authors_are_notified() {
    let mut conn = fill_database();
    let reshare = Reshare::insert(
        &mut conn,
        NewReshare { user_id: 3, post_id: 2, ap_url: "https://other/r".to_owned() },
    )
    .unwrap();
    assert_eq!(reshare.notify(&mut conn), Ok(()));
    assert_eq!(
        summary(&conn),
        vec![(1, 1, NotificationKind::Reshare, 1), (2, 2, NotificationKind::Reshare, 1)]
    );
    assert!(conn.timeline.is_empty());
}

#[test]
fn notification_needs_a_post() {
    let mut conn = fill_database();
    let reshare = Reshare::insert(
        &mut conn,
        NewReshare { user_id: 3, post_id: 7, ap_url: "https://other/r".to_owned() },
    )
    .unwrap();
    assert_eq!(reshare.notify(&mut conn), Err(Error::Db(DbError::NotFound)));
    assert!(conn.notifications.is_empty());
}

#[test]
fn notification_stops_at_a_failure() {
    let mut conn = fill_database();
    conn.notifications.push(Notification {
        id: i32::MAX - 1,
        user_id: 1,
        kind: NotificationKind::Like,
        object_id: 1,
    });
    let reshare = Reshare {
        id: 4,
        user_id: 3,
        post_id: 2,
        ap_url: String::new(),
        creation_date: at(0),
    };
    assert_eq!(reshare.notify(&mut conn), Err(Error::Db(DbError::Query)));
    assert_eq!(conn.notifications.len(), 2);
    assert_eq!(conn.notifications[1].id, i32::MAX);
    assert_eq!(conn.notifications[1].user_id, 1);
}

#[test]
fn announcing_here_reaches_the_timelines() {
    for newer in [false, true] {
        let mut conn = fill_database();
        let post = conn.posts[1].clone();
        let actor = conn.users[0].clone();
        let id = "https://plu.me/r/1";
        let row = if newer {
            post.activity07(&mut conn, actor, id).unwrap()
        } else {
            post.activity(&mut conn, actor, id).unwrap()
        };
        assert_eq!((row.id, row.user_id, row.post_id), (1, 1, 2));
        assert_eq!(row.ap_url, "https://plu.me/r/1");
        assert_eq!(conn.timeline, vec![TimelineEntry { post_id: 2, actor_id: 1 }]);
        assert_eq!(conn.reshares.len(), 1);
        assert_eq!(
            summary(&conn),
            vec![(1, 1, NotificationKind::Reshare, 1), (2, 2, NotificationKind::Reshare, 1)]
        );
    }
}

#[test]
fn announcing_what_is_not_there_stays_half_done() {
    let mut conn = fill_database();
    let post = Post { id: 8, ap_url: "https://plu.me/gone".to_owned() };
    let actor = conn.users[0].clone();
    let result = post.activity(&mut conn, actor.clone(), "https://plu.me/r/1");
    assert_eq!(result.err(), Some(Error::Db(DbError::NotFound)));
    assert_eq!(conn.reshares.len(), 1);
    assert!(conn.timeline.is_empty());
}

#[test]
fn an_announcement_comes_back_as_the_same_reshare() {
    for newer in [false, true] {
        let mut sender = fill_database();
        let post = sender.posts[0].clone();
        let user = sender.users[1].clone();
        let sent = Reshare::insert(&mut sender, NewReshare::new(&post, &user)).unwrap();
        let json = if newer {
            sent.to_activity07(&sender).unwrap().to_json().unwrap()
        } else {
            sent.to_activity(&sender).unwrap().to_json().unwrap()
        };

        let mut receiver = fill_database();
        let row = if newer {
            Reshare::from_activity07(&mut receiver, &json).unwrap()
        } else {
            Reshare::from_activity(&mut receiver, &json).unwrap()
        };
        assert_eq!((row.user_id, row.post_id), (sent.user_id, sent.post_id));
        assert_eq!(row.ap_url, sent.ap_url);
        assert_eq!(Reshare::get(&receiver, row.id).unwrap().ap_url, sent.ap_url);
        assert_eq!(summary(&receiver), vec![(1, 1, NotificationKind::Reshare, row.id)]);
        assert!(receiver.timeline.is_empty());
    }
}

fn announce_text(fields: Vec<(&str, Value)>) -> String {
    object(fields).to_string()
}

#[test]
fn received_announcements_need_their_properties() {
    let actor = ("actor", Value::from("https://plu.me/@/user/"));
    let post = ("object", Value::from("https://plu.me/~/BlogName/testing"));
    let id = ("id", Value::from("https://plu.me/r/1"));
    let kind = ("type", Value::from("Announce"));
    let no_id = announce_text(vec![actor.clone(), post.clone(), kind.clone()]);
    let no_object = announce_text(vec![actor.clone(), id.clone(), kind.clone()]);
    let number = announce_text(vec![
        actor.clone(),
        ("object", Value::from(7)),
        id.clone(),
        kind.clone(),
    ]);
    let other_kind =
        announce_text(vec![actor.clone(), post.clone(), id.clone(), ("type", Value::from("Like"))]);
    let many = announce_text(vec![
        actor.clone(),
        ("object", Value::from(vec!["https://plu.me/a", "https://plu.me/b"])),
        id.clone(),
        kind.clone(),
    ]);

    let mut conn = fill_database();
    let old = |conn: &mut Connection, text: &str| Reshare::from_activity(conn, text).err();
    assert_eq!(old(&mut conn, &no_id), Some(Error::MissingApProperty));
    assert_eq!(old(&mut conn, &no_object), Some(Error::SerDe));
    assert_eq!(old(&mut conn, &number), Some(Error::SerDe));
    assert_eq!(old(&mut conn, &other_kind), Some(Error::SerDe));
    assert_eq!(old(&mut conn, "{"), Some(Error::SerDe));
    let newer = |conn: &mut Connection, text: &str| Reshare::from_activity07(conn, text).err();
    assert_eq!(newer(&mut conn, &no_id), Some(Error::MissingApProperty));
    assert_eq!(newer(&mut conn, &many), Some(Error::MissingApProperty));
    assert_eq!(newer(&mut conn, &other_kind), Some(Error::SerDe));
    assert_eq!(newer(&mut conn, "{"), Some(Error::SerDe));
    assert!(conn.reshares.is_empty());
    assert!(conn.notifications.is_empty());
}

#[test]
fn received_announcements_need_known_rows() {
    let mut conn = fill_database();
    let act = |object: &str, actor: &str| Received {
        object: Property::Text(object.to_owned()),
        actor: Property::Text(actor.to_owned()),
        id: Property::Text("https://plu.me/r/1".to_owned()),
    };
    let post = "https://plu.me/~/BlogName/testing";
    let user = "https://plu.me/@/user/";
    assert_eq!(
        Reshare::from_received(&mut conn, act("https://else/", user)).err(),
        Some(Error::Request)
    );
    assert_eq!(
        Reshare::from_received(&mut conn, act(post, "https://else/")).err(),
        Some(Error::Request)
    );
    assert!(conn.reshares.is_empty());
    let row = Reshare::from_received(&mut conn, act(post, user)).unwrap();
    assert_eq!((row.user_id, row.post_id), (2, 1));
}

#[test]
fn the_object_is_looked_at_before_the_actor() {
    let mut conn = fill_database();
    let act = Received {
        object: Property::Absent,
        actor: Property::Unreadable,
        id: Property::Absent,
    };
    assert_eq!(Reshare::from_received(&mut conn, act).err(), Some(Error::MissingApProperty));
    let act = Received {
        object: Property::Text("https://plu.me/~/BlogName/testing".to_owned()),
        actor: Property::Unreadable,
        id: Property::Absent,
    };
    assert_eq!(Reshare::from_received(&mut conn, act).err(), Some(Error::SerDe));
}

#[test]
fn the_owner_withdraws() {
    let mut conn = fill_database();
    conn.notifications.push(Notification {
        id: 1,
        user_id: 1,
        kind: NotificationKind::Like,
        object_id: 1,
    });
    let actor = conn.users[2].clone();
    let post = conn.posts[0].clone();
    let sharer = conn.users[1].clone();
    let kept = post
        .clone()
        .activity(&mut conn, sharer, "https://plu.me/r/0")
        .unwrap();
    let row = post.activity(&mut conn, actor.clone(), "https://plu.me/r/1").unwrap();
    assert_eq!(conn.notifications.len(), 3);
    assert_eq!(row.clone().activity(&mut conn, actor.clone(), "https://plu.me/u/1"), Ok(()));
    assert_eq!(Reshare::get(&conn, row.id).err(), Some(Error::Db(DbError::NotFound)));
    assert_eq!(Reshare::get(&conn, kept.id).unwrap().ap_url, "https://plu.me/r/0");
    assert_eq!(
        summary(&conn),
        vec![(1, 1, NotificationKind::Like, 1), (2, 1, NotificationKind::Reshare, kept.id)]
    );
    assert_eq!(row.activity(&mut conn, actor.clone(), "https://plu.me/u/1"), Ok(()));
    assert_eq!(conn.reshares.len(), 1);
}

#[test]
fn one_notification_goes_with_the_reshare() {
    let mut conn = fill_database();
    let actor = conn.users[2].clone();
    let post = conn.posts[1].clone();
    let row = post.activity(&mut conn, actor.clone(), "https://plu.me/r/1").unwrap();
    assert_eq!(conn.notifications.len(), 2);
    assert_eq!(row.activity(&mut conn, actor.clone(), "https://plu.me/u/1"), Ok(()));
    assert!(conn.reshares.is_empty());
    assert_eq!(summary(&conn), vec![(2, 2, NotificationKind::Reshare, 1)]);
}

#[test]
fn a_stranger_cannot_withdraw() {
    let mut conn = fill_database();
    let actor = conn.users[2].clone();
    let stranger = conn.users[1].clone();
    let post = conn.posts[0].clone();
    let row = post.activity(&mut conn, actor.clone(), "https://plu.me/r/1").unwrap();
    assert_eq!(row.activity(&mut conn, stranger, "https://plu.me/u/1"), Err(Error::Unauthorized));
    assert_eq!(conn.reshares.len(), 1);
    assert_eq!(conn.notifications.len(), 1);
}

#[test]
fn a_task_asks_step_by_step() {
    let reshare = Reshare {
        id: 4,
        user_id: 3,
        post_id: 2,
        ap_url: "https://plu.me/r/4".to_owned(),
        creation_date: at(0),
    };
    let task = match Task::notify(&reshare) {
        Step::Ask(Request::GetPost(2), task) => task,
        step => panic!("{:?}", step),
    };
    assert!(!task.fits(&Ok(Reply::Done)));
    let reply = Ok(Reply::Post(Post { id: 2, ap_url: String::new() }));
    assert!(task.fits(&reply));
    let task = match task.resume(reply) {
        Step::Ask(Request::GetAuthors(2), task) => task,
        step => panic!("{:?}", step),
    };
    let reply = Ok(Reply::Authors(vec![user(3, "other", false), user(1, "admin", true)]));
    let task = match task.resume(reply) {
        Step::Ask(Request::InsertNotification(new), task) => {
            assert_eq!(
                new,
                NewNotification { user_id: 1, kind: NotificationKind::Reshare, object_id: 4 }
            );
            task
        }
        step => panic!("{:?}", step),
    };
    assert!(matches!(
        task.resume(Err(Error::Request)),
        Step::Finish(Err(Error::Request))
    ));
}

#[test]
fn a_withdrawal_survives_a_missing_notification() {
    let reshare = Reshare {
        id: 4,
        user_id: 3,
        post_id: 2,
        ap_url: String::new(),
        creation_date: at(0),
    };
    assert!(matches!(
        Task::undo(reshare.clone(), 1),
        Step::Finish(Err(Error::Unauthorized))
    ));
    let task = match Task::undo(reshare, 3) {
        Step::Ask(Request::DeleteReshare(4), task) => task,
        step => panic!("{:?}", step),
    };
    let task = match task.resume(Ok(Reply::Done)) {
        Step::Ask(
            Request::FindNotification { kind: NotificationKind::Reshare, object_id: 4 },
            task,
        ) => task,
        step => panic!("{:?}", step),
    };
    assert!(matches!(
        task.resume(Err(Error::Db(DbError::NotFound))),
        Step::Finish(Ok(row)) if row.id == 4
    ));
}

#[test]
fn rows_keep_their_own_numbers() {
    let mut conn = fill_database();
    let actor = conn.users[2].clone();
    for round in 0..4 {
        let post = conn.posts[round % 2].clone();
        let row = post
            .activity(&mut conn, actor.clone(), &format!("https://plu.me/r/{}", round))
            .unwrap();
        if round == 1 {
            row.activity(&mut conn, actor.clone(), "https://plu.me/u/1").unwrap();
        }
    }
    let mut numbers: Vec<i32> = conn.reshares.iter().map(|r| r.id).collect();
    assert_eq!(numbers, vec![1, 2, 3]);
    numbers = conn.notifications.iter().map(|n| n.id).collect();
    numbers.sort();
    numbers.dedup();
    assert_eq!(numbers.len(), conn.notifications.len());
}

#[test]
fn a_newer_reshare_comes_first() {
    let mut conn = fill_database();
    let author = conn.users[0].clone();
    for (secs, url) in [(10, "a"), (30, "b"), (20, "c")] {
        conn.now = at(secs);
        Reshare::insert(
            &mut conn,
            NewReshare { user_id: 1, post_id: 1, ap_url: url.to_owned() },
        )
        .unwrap();
    }
    conn.now = at(40);
    Reshare::insert(&mut conn, NewReshare { user_id: 1, post_id: 2, ap_url: "d".to_owned() })
        .unwrap();
    let urls: Vec<String> = Reshare::get_recents_for_author(&conn, &author, 10)
        .unwrap()
        .into_iter()
        .map(|r| r.ap_url)
        .collect();
    assert_eq!(urls, vec!["d", "b", "c", "a"]);
}

#[test]
fn a_task_that_is_not_whole_fits_no_reply() {
    let reshare = Reshare {
        id: 4,
        user_id: 3,
        post_id: 2,
        ap_url: String::new(),
        creation_date: at(0),
    };
    let task = Task::Notify { reshare, authors: vec![], at: 0, delivery: None };
    assert!(!task.fits(&Err(Error::Io)));
}

#[test]
fn both_formats_are_one_json() {
    let mut conn = fill_database();
    let post = conn.posts[1].clone();
    let user = conn.users[2].clone();
    let reshare = Reshare::insert(&mut conn, NewReshare::new(&post, &user)).unwrap();
    let mut act = reshare.to_activity(&conn).unwrap();
    let mut act07 = reshare.to_activity07(&conn).unwrap();
    assert_eq!(parsed(&act.to_json().unwrap()), parsed(&act07.to_json().unwrap()));

    for list in [vec![], vec!["https://plu.me/a".to_owned(), "https://plu.me/b".to_owned()]] {
        act.to = list.clone();
        act.cc = list.clone();
        act07.to = list.clone();
        act07.cc = list.clone();
        let value = parsed(&act.to_json().unwrap());
        assert_eq!(value, parsed(&act07.to_json().unwrap()));
        assert_eq!(value["to"], Value::from(list.clone()));
        assert_eq!(value["cc"], Value::from(list));
        assert_eq!(value.as_object().unwrap().len(), 6);
    }
}

#[test]
fn a_withdrawal_holds_the_announcement_it_withdraws() {
    let mut conn = fill_database();
    let post = conn.posts[1].clone();
    let user = conn.users[2].clone();
    let reshare = Reshare::insert(&mut conn, NewReshare::new(&post, &user)).unwrap();
    let act = reshare.to_activity(&conn).unwrap();
    let value = parsed(&reshare.build_undo(&conn).unwrap().to_json().unwrap());
    assert_eq!(value["object"], parsed(&act.to_json().unwrap()));
    assert_eq!(value["type"], "Undo");
    assert_eq!(value.as_object().unwrap().len(), 6);
}
