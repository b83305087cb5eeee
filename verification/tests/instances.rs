use plume_models::connection::Connection;
use plume_models::error::{DbError, Error};
use plume_models::instance::{Instance, InstanceChange, Keypair, LocalInstance, NewInstance};
use plume_models::query::NegativeBound;
use plume_models::safe_string::SafeString;
use plume_models::timestamp::Timestamp;
use plume_models::users::{Role, User};

fn now() -> Timestamp {
    Timestamp { secs: 1_600_000_000, nanos: 0 }
}

fn samples() -> Vec<NewInstance> {
    vec![
        NewInstance {
            default_license: "WTFPL".to_string(),
            local: true,
            long_description: SafeString::trusted("This is my instance."),
            long_description_html: "<p>This is my instance</p>".to_string(),
            short_description: SafeString::trusted("My instance."),
            short_description_html: "<p>My instance</p>".to_string(),
            name: "My instance".to_string(),
            open_registrations: true,
            public_domain: "plu.me".to_string(),
            private_key: None,
            public_key: None,
        },
        NewInstance {
            default_license: "WTFPL".to_string(),
            local: false,
            long_description: SafeString::trusted("This is an instance."),
            long_description_html: "<p>This is an instance</p>".to_string(),
            short_description: SafeString::trusted("An instance."),
            short_description_html: "<p>An instance</p>".to_string(),
            name: "An instance".to_string(),
            open_registrations: true,
            public_domain: "1plu.me".to_string(),
            private_key: None,
            public_key: None,
        },
        NewInstance {
            default_license: "CC-0".to_string(),
            local: false,
            long_description: SafeString::trusted("This is the instance of someone."),
            long_description_html: "<p>This is the instance of someone</p>".to_string(),
            short_description: SafeString::trusted("Someone instance."),
            short_description_html: "<p>Someone instance</p>".to_string(),
            name: "Someone instance".to_string(),
            open_registrations: false,
            public_domain: "2plu.me".to_string(),
            private_key: None,
            public_key: None,
        },
        NewInstance {
            default_license: "CC-0-BY-SA".to_string(),
            local: false,
            long_description: SafeString::trusted("Good morning"),
            long_description_html: "<p>Good morning</p>".to_string(),
            short_description: SafeString::trusted("Hello"),
            short_description_html: "<p>Hello</p>".to_string(),
            name: "Nice day".to_string(),
            open_registrations: true,
            public_domain: "3plu.me".to_string(),
            private_key: None,
            public_key: None,
        },
    ]
}

fn fill_database(
    conn: &mut Connection,
    cache: &mut LocalInstance,
) -> Vec<(NewInstance, Instance)> {
    conn.instances.clear();
    let mut res = Vec::new();
    for inst in samples() {
        let row = match Instance::find_by_domain(conn, &inst.public_domain) {
            Ok(row) => row,
            Err(_) => Instance::insert(conn, inst.clone()).unwrap(),
        };
        res.push((inst, row));
    }
    Instance::cache_local(conn, cache);
    res
}

fn assert_same(new: &NewInstance, row: &Instance) {
    assert_eq!(new.default_license, row.default_license);
    assert_eq!(new.local, row.local);
    assert_eq!(new.long_description.get(), row.long_description.get());
    assert_eq!(new.short_description.get(), row.short_description.get());
    assert_eq!(new.name, row.name);
    assert_eq!(new.open_registrations, row.open_registrations);
    assert_eq!(new.public_domain, row.public_domain);
    assert_eq!(&new.long_description_html, row.long_description_html.get());
    assert_eq!(&new.short_description_html, row.short_description_html.get());
}

fn user(id: i32, instance_id: i32, role: Role) -> User {
    User {
        id,
        instance_id,
        role: role.code(),
        local: true,
        ap_url: format!("https://plu.me/@/user{}/", id),
        followers_endpoint: format!("https://plu.me/@/user{}/followers", id),
    }
}

#[test]
fn local_instance() {
    let mut conn = Connection::new(now(), NegativeBound::Refused);
    let mut cache = LocalInstance::new();
    let inserted = fill_database(&mut conn, &mut cache)
        .into_iter()
        .map(|(inserted, _)| inserted)
        .find(|inst| inst.local)
        .unwrap();
    let res = Instance::get_local(&cache).unwrap();

    assert_eq!(res.default_license, inserted.default_license);
    assert_eq!(res.local, inserted.local);
    assert_eq!(res.long_description.get(), inserted.long_description.get());
    assert_eq!(res.short_description.get(), inserted.short_description.get());
    assert_eq!(res.name, inserted.name);
    assert_eq!(res.open_registrations, inserted.open_registrations);
    assert_eq!(res.public_domain, inserted.public_domain);
    assert_eq!(res.long_description_html.get(), &inserted.long_description_html);
    assert_eq!(res.short_description_html.get(), &inserted.short_description_html);
}

#[test]
fn remote_instance() {
    let mut conn = Connection::new(now(), NegativeBound::Refused);
    let mut cache = LocalInstance::new();
    let inserted = fill_database(&mut conn, &mut cache);
    assert_eq!(Instance::count(&conn).unwrap(), inserted.len() as i64);

    let res = Instance::get_remotes(&conn).unwrap();
    assert_eq!(res.len(), inserted.iter().filter(|(inst, _)| !inst.local).count());

    inserted
        .iter()
        .filter(|(newinst, _)| !newinst.local)
        .map(|(newinst, inst)| (newinst, res.iter().find(|res| res.id == inst.id).unwrap()))
        .for_each(|(newinst, inst)| assert_same(newinst, inst));

    let page = Instance::page(&conn, (0, 2)).unwrap();
    assert_eq!(page.len(), 2);
    let page1 = &page[0];
    let page2 = &page[1];
    assert!(page1.public_domain <= page2.public_domain);

    let mut last_domaine: String =
        Instance::page(&conn, (0, 1)).unwrap()[0].public_domain.clone();
    for i in 1..inserted.len() as i32 {
        let page = Instance::page(&conn, (i, i + 1)).unwrap();
        assert_eq!(page.len(), 1);
        assert!(last_domaine <= page[0].public_domain);
        last_domaine = page[0].public_domain.clone();
    }
}

#[test]
fn blocked() {
    let mut conn = Connection::new(now(), NegativeBound::Refused);
    let mut cache = LocalInstance::new();
    let inst_list = fill_database(&mut conn, &mut cache);
    let inst = &inst_list[0].1;
    let inst_list = &inst_list[1..];

    let blocked = inst.blocked;
    inst.toggle_block(&mut conn).unwrap();
    let inst = Instance::get(&conn, inst.id).unwrap();
    assert_eq!(inst.blocked, !blocked);
    assert_eq!(
        inst_list
            .iter()
            .filter(|(_, inst)| inst.blocked != Instance::get(&conn, inst.id).unwrap().blocked)
            .count(),
        0
    );
    assert_eq!(
        Instance::is_blocked(&conn, &format!("https://{}/something", inst.public_domain)).unwrap(),
        inst.blocked
    );
    assert_eq!(
        Instance::is_blocked(&conn, &format!("https://{}a/something", inst.public_domain))
            .unwrap(),
        Instance::find_by_domain(&conn, &format!("{}a", inst.public_domain))
            .map(|inst| inst.blocked)
            .unwrap_or(false)
    );

    inst.toggle_block(&mut conn).unwrap();
    let inst = Instance::get(&conn, inst.id).unwrap();
    assert_eq!(inst.blocked, blocked);
    assert_eq!(
        Instance::is_blocked(&conn, &format!("https://{}/something", inst.public_domain)).unwrap(),
        inst.blocked
    );
    assert_eq!(
        Instance::is_blocked(&conn, &format!("https://{}a/something", inst.public_domain))
            .unwrap(),
        Instance::find_by_domain(&conn, &format!("{}a", inst.public_domain))
            .map(|inst| inst.blocked)
            .unwrap_or(false)
    );
    assert_eq!(
        inst_list
            .iter()
            .filter(|(_, inst)| inst.blocked != Instance::get(&conn, inst.id).unwrap().blocked)
            .count(),
        0
    );
}

#[test]
fn update() {
    let mut conn = Connection::new(now(), NegativeBound::Refused);
    let mut cache = LocalInstance::new();
    let inst = &fill_database(&mut conn, &mut cache)[0].1;

    inst.update(
        &mut conn,
        &mut cache,
        "NewName".to_owned(),
        false,
        SafeString::trusted("[short](#link)"),
        SafeString::trusted("[long_description](/with_link)"),
        "CC-BY-SAO".to_owned(),
        SafeString::trusted("<p dir=\"auto\"><a href=\"#link\">short</a></p>\n"),
        SafeString::trusted("<p dir=\"auto\"><a href=\"/with_link\">long_description</a></p>\n"),
    )
    .unwrap();
    let inst = Instance::get(&conn, inst.id).unwrap();
    assert_eq!(inst.name, "NewName".to_owned());
    assert_eq!(inst.open_registrations, false);
    assert_eq!(inst.long_description.get(), "[long_description](/with_link)");
    assert_eq!(
        inst.long_description_html.get(),
        "<p dir=\"auto\"><a href=\"/with_link\">long_description</a></p>\n"
    );
    assert_eq!(inst.short_description.get(), "[short](#link)");
    assert_eq!(
        inst.short_description_html.get(),
        "<p dir=\"auto\"><a href=\"#link\">short</a></p>\n"
    );
    assert_eq!(inst.default_license, "CC-BY-SAO".to_owned());
}

#[test]
fn update_says_what_to_render() {
    let mut conn = Connection::new(now(), NegativeBound::Refused);
    let mut cache = LocalInstance::new();
    let inst = &fill_database(&mut conn, &mut cache)[0].1;
    let (short, long) = inst.renderings(
        &SafeString::trusted("[short](#link)"),
        &SafeString::trusted("[long_description](/with_link)"),
    );
    assert_eq!(short.text, "[short](#link)");
    assert_eq!(short.base_url, "plu.me");
    assert!(short.inline);
    assert_eq!(long.text, "[long_description](/with_link)");
    assert_eq!(long.base_url, "plu.me");
    assert!(!long.inline);
}

#[test]
fn updating_renews_what_is_at_hand() {
    let mut conn = Connection::new(now(), NegativeBound::Refused);
    let mut cache = LocalInstance::new();
    let rows = fill_database(&mut conn, &mut cache);
    for (index, name) in [(0, "Mine"), (1, "Theirs")] {
        rows[index]
            .1
            .update(
                &mut conn,
                &mut cache,
                name.to_owned(),
                true,
                SafeString::trusted(""),
                SafeString::trusted(""),
                "CC-0".to_owned(),
                SafeString::trusted(""),
                SafeString::trusted(""),
            )
            .unwrap();
        assert_eq!(Instance::get_local(&cache).unwrap().name, "Mine");
    }
    assert_eq!(Instance::get(&conn, rows[1].1.id).unwrap().name, "Theirs");
    assert_eq!(Instance::get(&conn, rows[2].1.id).unwrap().name, "Someone instance");
}

#[test]
fn a_failed_update_still_renews_what_is_at_hand() {
    let mut conn = Connection::new(now(), NegativeBound::Refused);
    let mut cache = LocalInstance::new();
    let rows = fill_database(&mut conn, &mut cache);
    let done = rows[0].1.settle_update(
        &mut cache,
        Err(Error::Db(DbError::Query)),
        Err(Error::Db(DbError::NotFound)),
    );
    assert_eq!(done, Err(Error::Db(DbError::Query)));
    assert_eq!(Instance::get_local(&cache).err(), Some(Error::NotFound));

    rows[0].1.clone().set_local(&mut cache);
    let done = rows[1].1.settle_update(&mut cache, Ok(()), Err(Error::Db(DbError::NotFound)));
    assert_eq!(done, Ok(()));
    assert_eq!(Instance::get_local(&cache).unwrap().public_domain, "plu.me");
}

#[test]
fn set_local_is_at_hand() {
    let mut conn = Connection::new(now(), NegativeBound::Refused);
    let mut cache = LocalInstance::new();
    assert_eq!(Instance::get_local(&cache).err(), Some(Error::NotFound));
    let rows = fill_database(&mut conn, &mut cache);
    rows[2].1.clone().set_local(&mut cache);
    assert_eq!(Instance::get_local(&cache).unwrap().public_domain, "2plu.me");

    let empty = Connection::new(now(), NegativeBound::Refused);
    Instance::cache_local(&empty, &mut cache);
    assert_eq!(Instance::get_local(&cache).err(), Some(Error::NotFound));
    assert_eq!(
        Instance::get_local_uncached(&empty).err(),
        Some(Error::Db(DbError::NotFound))
    );
}

#[test]
fn locals_and_remotes_share_the_table_out() {
    let mut conn = Connection::new(now(), NegativeBound::Refused);
    let mut cache = LocalInstance::new();
    let rows = fill_database(&mut conn, &mut cache);
    let locals = Instance::get_locals(&conn).unwrap();
    let remotes = Instance::get_remotes(&conn).unwrap();
    assert_eq!(locals.iter().map(|i| i.id).collect::<Vec<_>>(), vec![rows[0].1.id]);
    assert_eq!(
        remotes.iter().map(|i| i.id).collect::<Vec<_>>(),
        vec![rows[1].1.id, rows[2].1.id, rows[3].1.id]
    );
    assert_eq!(Instance::get_local_uncached(&conn).unwrap().id, rows[0].1.id);
}

#[test]
fn pages_are_sorted_and_tile() {
    let mut conn = Connection::new(now(), NegativeBound::Refused);
    let mut cache = LocalInstance::new();
    fill_database(&mut conn, &mut cache);
    let domains = |range| {
        Instance::page(&conn, range)
            .unwrap()
            .into_iter()
            .map(|i| i.public_domain)
            .collect::<Vec<String>>()
    };
    assert_eq!(domains((0, 4)), vec!["1plu.me", "2plu.me", "3plu.me", "plu.me"]);
    assert_eq!(domains((1, 3)), vec!["2plu.me", "3plu.me"]);
    assert_eq!(domains((3, 9)), vec!["plu.me"]);
    assert_eq!(domains((4, 9)), Vec::<String>::new());
    assert_eq!(domains((9, 12)), Vec::<String>::new());
    assert_eq!(domains((2, 2)), Vec::<String>::new());
    let mut both = domains((0, 2));
    both.extend(domains((2, 4)));
    assert_eq!(both, domains((0, 4)));
}

#[test]
fn pages_may_ignore_negative_numbers() {
    let mut conn = Connection::new(now(), NegativeBound::Ignored);
    let mut cache = LocalInstance::new();
    fill_database(&mut conn, &mut cache);
    let domains = |range| {
        Instance::page(&conn, range)
            .unwrap()
            .into_iter()
            .map(|i| i.public_domain)
            .collect::<Vec<String>>()
    };
    assert_eq!(domains((-1, 1)), vec!["1plu.me", "2plu.me"]);
    assert_eq!(domains((3, 1)), vec!["plu.me"]);
    assert_eq!(domains((1, -3)), vec!["2plu.me", "3plu.me", "plu.me"]);
    assert_eq!(domains((-1, -3)), vec!["1plu.me", "2plu.me", "3plu.me", "plu.me"]);
    assert_eq!(domains((1, 2)), vec!["2plu.me"]);
}

#[test]
fn pages_refuse_negative_numbers() {
    let conn = Connection::new(now(), NegativeBound::Refused);
    assert_eq!(Instance::page(&conn, (-1, 3)).err(), Some(Error::Db(DbError::Query)));
    assert_eq!(Instance::page(&conn, (3, 1)).err(), Some(Error::Db(DbError::Query)));
    assert!(Instance::page(&conn, (0, 0)).is_ok());
}

#[test]
fn pages_compare_code_points() {
    let mut conn = Connection::new(now(), NegativeBound::Refused);
    for domain in ["b", "a\u{e9}", "ab", "a", "\u{10000}", "\u{ff5e}", "Z"] {
        let mut new = samples().remove(1);
        new.public_domain = domain.to_owned();
        Instance::insert(&mut conn, new).unwrap();
    }
    let page = Instance::page(&conn, (0, 7)).unwrap();
    let mut domains: Vec<String> = page.into_iter().map(|i| i.public_domain).collect();
    assert_eq!(domains, vec!["Z", "a", "ab", "a\u{e9}", "b", "\u{ff5e}", "\u{10000}"]);
    let listed = domains.clone();
    domains.sort();
    assert_eq!(domains, listed);
}

#[test]
fn inserting_numbers_rows() {
    let mut conn = Connection::new(now(), NegativeBound::Refused);
    let mut cache = LocalInstance::new();
    let rows = fill_database(&mut conn, &mut cache);
    assert_eq!(rows.iter().map(|(_, i)| i.id).collect::<Vec<_>>(), vec![1, 2, 3, 4]);
    for (new, row) in &rows {
        assert!(!row.blocked);
        assert_eq!(row.creation_date, now());
        assert_same(new, &Instance::get(&conn, row.id).unwrap());
        assert_eq!(Instance::find_by_domain(&conn, &new.public_domain).unwrap().id, row.id);
    }
    assert_eq!(Instance::get(&conn, 5).err(), Some(Error::Db(DbError::NotFound)));
    assert_eq!(
        Instance::find_by_domain(&conn, "4plu.me").err(),
        Some(Error::Db(DbError::NotFound))
    );
    conn.instances[3].id = i32::MAX;
    assert_eq!(
        Instance::insert(&mut conn, samples().remove(0)).err(),
        Some(Error::Db(DbError::Query))
    );
    assert_eq!(Instance::count(&conn).unwrap(), 4);
}

#[test]
fn blocking_covers_boxes() {
    let mut conn = Connection::new(now(), NegativeBound::Refused);
    let mut cache = LocalInstance::new();
    let rows = fill_database(&mut conn, &mut cache);
    let inst = &rows[1].1;
    let inbox = inst.compute_box("@", "someone", "inbox");
    assert_eq!(inbox, "https://1plu.me/@/someone/inbox");
    assert_eq!(Instance::is_blocked(&conn, &inbox), Ok(false));
    inst.toggle_block(&mut conn).unwrap();
    assert_eq!(Instance::is_blocked(&conn, &inbox), Ok(true));
    assert_eq!(Instance::is_blocked(&conn, "https://1plu.me"), Ok(false));
    assert_eq!(Instance::is_blocked(&conn, "http://1plu.me/@/someone"), Ok(false));
    assert_eq!(Instance::is_blocked(&conn, "https://2plu.me/@/someone"), Ok(false));
    assert_eq!(Instance::is_blocked(&conn, ""), Ok(false));
}

#[test]
fn toggling_goes_by_what_was_read() {
    let mut conn = Connection::new(now(), NegativeBound::Refused);
    let mut cache = LocalInstance::new();
    let rows = fill_database(&mut conn, &mut cache);
    rows[1].1.toggle_block(&mut conn).unwrap();
    rows[1].1.toggle_block(&mut conn).unwrap();
    assert!(Instance::get(&conn, rows[1].1.id).unwrap().blocked);

    conn.instances.remove(2);
    assert_eq!(rows[2].1.toggle_block(&mut conn), Ok(()));
    assert_eq!(Instance::count(&conn).unwrap(), 3);
    assert!(!Instance::get(&conn, rows[3].1.id).unwrap().blocked);
}

#[test]
fn administrators_of_an_instance() {
    let mut conn = Connection::new(now(), NegativeBound::Refused);
    let mut cache = LocalInstance::new();
    let rows = fill_database(&mut conn, &mut cache);
    let inst = &rows[0].1;
    conn.users.push(user(1, inst.id, Role::Normal));
    conn.users.push(user(2, inst.id, Role::Moderator));
    conn.users.push(user(3, rows[1].1.id, Role::Admin));
    assert_eq!(inst.has_admin(&conn), Ok(false));
    assert_eq!(inst.main_admin(&conn).err(), Some(Error::Db(DbError::NotFound)));
    conn.users.push(user(4, inst.id, Role::Admin));
    conn.users.push(user(5, inst.id, Role::Admin));
    assert_eq!(inst.has_admin(&conn), Ok(true));
    assert_eq!(inst.main_admin(&conn).unwrap().id, 4);
    assert_eq!(rows[1].1.main_admin(&conn).unwrap().id, 3);
}

#[test]
fn keys_are_stored_and_published() {
    let mut conn = Connection::new(now(), NegativeBound::Refused);
    let mut cache = LocalInstance::new();
    let rows = fill_database(&mut conn, &mut cache);
    let pair = |public: &[u8], private: &[u8]| Keypair {
        public_key: public.to_vec(),
        private_key: private.to_vec(),
    };
    for (_, row) in &rows[..2] {
        row.set_keypair(&mut conn, pair(b"public \xc3\xa9", b"private")).unwrap();
    }
    let inst = Instance::get(&conn, rows[0].1.id).unwrap();
    assert_eq!(inst.public_key, Some("public \u{e9}".to_owned()));
    assert_eq!(inst.private_key, Some("private".to_owned()));

    let actor = inst.to_activity(&cache).unwrap();
    assert_eq!(actor.id, "https://plu.me/!/plu.me");
    assert_eq!(actor.name, "My instance");
    let key = actor.public_key.unwrap();
    assert_eq!(key.id, "https://plu.me/!/plu.me#main-key");
    assert_eq!(key.owner, "https://plu.me/!/plu.me");
    assert_eq!(key.public_key_pem, "public \u{e9}");

    let remote = Instance::get(&conn, rows[1].1.id).unwrap();
    assert_eq!(remote.public_key, Some("public \u{e9}".to_owned()));
    let actor = remote.to_activity(&cache).unwrap();
    assert_eq!(actor.id, "https://plu.me/!/1plu.me");
    assert!(actor.public_key.is_none());

    for (public, private) in [(&b"\xff"[..], &b"ok"[..]), (b"ok", b"\xc3")] {
        assert_eq!(
            inst.set_keypair(&mut conn, pair(public, private)),
            Err(Error::Signature)
        );
        assert_eq!(
            Instance::get(&conn, inst.id).unwrap().public_key,
            Some("public \u{e9}".to_owned())
        );
    }
}

#[test]
fn keypair_change_holds_both_texts() {
    let change = Instance::keypair_change(Keypair {
        public_key: b"pub".to_vec(),
        private_key: b"priv".to_vec(),
    });
    assert!(matches!(
        change,
        Ok(InstanceChange::Keypair { private_key, public_key })
            if private_key == "priv" && public_key == "pub"
    ));
}

#[test]
fn an_actor_needs_a_local_instance() {
    let mut conn = Connection::new(now(), NegativeBound::Refused);
    let mut cache = LocalInstance::new();
    let rows = fill_database(&mut conn, &mut cache);
    let actor = rows[0].1.to_activity(&cache).unwrap();
    assert!(actor.public_key.is_none());
    assert_eq!(
        rows[0].1.to_activity(&LocalInstance::new()).err(),
        Some(Error::NotFound)
    );
}

#[test]
fn an_actor_in_json() {
    let mut conn = Connection::new(now(), NegativeBound::Refused);
    let mut cache = LocalInstance::new();
    let rows = fill_database(&mut conn, &mut cache);
    let json = rows[1].1.to_activity(&cache).unwrap().service_json().unwrap();
    let value: serde_json::Value = serde_json::from_str(&json).unwrap();
    assert_eq!(value["id"], "https://plu.me/!/1plu.me");
    assert_eq!(value["name"], "An instance");
    assert_eq!(value["type"], "Service");
    for unset in ["inbox", "outbox", "following", "followers", "liked"] {
        assert_eq!(value.get(unset), Some(&serde_json::Value::Null));
    }
    assert_eq!(value.as_object().unwrap().len(), 8);
}

#[test]
fn a_local_instance_is_set_up() {
    let mut conn = Connection::new(now(), NegativeBound::Refused);
    let mut cache = LocalInstance::new();
    let pair = |public: &[u8]| Keypair {
        public_key: public.to_vec(),
        private_key: b"private".to_vec(),
    };
    let refused = NewInstance::new_local(
        &mut conn,
        "plu.me".to_owned(),
        "Mine".to_owned(),
        true,
        "CC-0".to_owned(),
        pair(b"\xf0\x9f"),
    );
    assert_eq!(refused.err(), Some(Error::Signature));
    assert_eq!(Instance::count(&conn), Ok(0));

    let row = NewInstance::new_local(
        &mut conn,
        "plu.me".to_owned(),
        "Mine".to_owned(),
        true,
        "CC-0".to_owned(),
        pair(b"public"),
    )
    .unwrap();
    assert_eq!(row.id, 1);
    assert!(row.local);
    assert!(!row.blocked);
    assert!(row.open_registrations);
    assert_eq!(row.public_domain, "plu.me");
    assert_eq!(row.name, "Mine");
    assert_eq!(row.default_license, "CC-0");
    assert_eq!(row.short_description.get(), "");
    assert_eq!(row.long_description.get(), "");
    assert_eq!(row.short_description_html.get(), "");
    assert_eq!(row.long_description_html.get(), "");
    assert_eq!(row.public_key, Some("public".to_owned()));
    assert_eq!(row.private_key, Some("private".to_owned()));
    Instance::cache_local(&conn, &mut cache);
    assert_eq!(Instance::get_local(&cache).unwrap().id, row.id);
}

#[test]
fn details_are_changed_each_in_its_place() {
    let change = Instance::details_change(
        "name".to_owned(),
        true,
        SafeString::trusted("short"),
        SafeString::trusted("long"),
        "license".to_owned(),
        SafeString::trusted("short html"),
        SafeString::trusted("long html"),
    );
    match change {
        InstanceChange::Details {
            name,
            open_registrations,
            short_description,
            long_description,
            short_description_html,
            long_description_html,
            default_license,
        } => {
            assert_eq!(name, "name");
            assert!(open_registrations);
            assert_eq!(short_description.get(), "short");
            assert_eq!(long_description.get(), "long");
            assert_eq!(short_description_html.get(), "short html");
            assert_eq!(long_description_html.get(), "long html");
            assert_eq!(default_license, "license");
        }
        other => panic!("{:?}", other),
    }
}
