//! What changes of instances leave in the tables and publish, in terms of the rows.
use crate::activity::CustomService;
use crate::connection::Connection;
use crate::error::{DbError, Error};
use crate::instance::{
    local_is, Instance, InstanceChange, Keypair, LocalInstance, Markdown, NewInstance,
};
use crate::instance_laws::change_is_found;
use crate::json::{json_value, JsonView};
use crate::query::{
    first_match, key_is, last_key, last_key_is_largest, last_key_is_used, Row,
};
use crate::safe_string::SafeString;
use vstd::prelude::*;
use vstd::utf8::{decode_utf8, valid_utf8};

verus! {

/// Blocking or opening an instance sets whether its row is blocked to the opposite of what was
/// read. Nothing else of the row changes, and no other row or table does.
pub proof fn toggle_flips_one_field(
    instance: Instance,
    conn: &mut Connection,
    done: Result<(), Error>,
)
    requires
        call_ensures(Instance::toggle_block, (&instance, conn), done),
    ensures
        done is Ok,
        final(conn).instances@.len() == old(conn).instances@.len(),
        forall|i: int|
            0 <= i < old(conn).instances@.len() ==> #[trigger] final(conn).instances@[i] == (
            Instance {
                blocked: if old(conn).instances@[i].id == instance.id {
                    !instance.blocked
                } else {
                    old(conn).instances@[i].blocked
                },
                ..old(conn).instances@[i]
            }),
        final(conn).now == old(conn).now,
        final(conn).negative == old(conn).negative,
        final(conn).users@ == old(conn).users@,
        final(conn).posts@ == old(conn).posts@,
        final(conn).post_authors@ == old(conn).post_authors@,
        final(conn).reshares@ == old(conn).reshares@,
        final(conn).notifications@ == old(conn).notifications@,
        final(conn).timeline@ == old(conn).timeline@,
{
}

/// Whoever reads an instance that was open, blocks it and asks about an identifier of it, is told
/// that it is blocked; and is told so no more after opening it again, unless another instance bars
/// the identifier.
pub proof fn blocking_is_told(
    instance: Instance,
    conn: &mut Connection,
    done: Result<(), Error>,
    after: Connection,
    id: &str,
    blocked: Result<bool, Error>,
)
    requires
        old(conn).instances@.contains(instance),
        call_ensures(Instance::toggle_block, (&instance, conn), done),
        after == *final(conn),
        call_ensures(Instance::is_blocked, (&after, id), blocked),
        ("https://"@ + instance.public_domain@ + "/"@).is_prefix_of(id@),
    ensures
        !instance.blocked ==> blocked == Ok::<bool, Error>(true),
        instance.blocked && (forall|i: int|
            0 <= i < old(conn).instances@.len() && (#[trigger] old(conn).instances@[i]).id
                != instance.id ==> !old(conn).instances@[i].blocked) ==> blocked == Ok::<
            bool,
            Error,
        >(false),
{
    let at = choose|at: int|
        0 <= at < old(conn).instances@.len() && old(conn).instances@[at] == instance;
    assert(after@.instances[at].spec_root() == "https://"@ + instance.public_domain@ + "/"@);
    if !instance.blocked {
        assert(after@.instances[at].bars(id@));
    } else if after@.bar(id@) {
        let i = choose|i: int|
            0 <= i < after@.instances.len() && #[trigger] after@.instances[i].bars(id@);
        assert(old(conn).instances@[i].id == old(conn).instances@[i].id);
    }
}

/// After an update, the row that is read back under the instance's number has the name, the
/// setting, the descriptions, the HTML and the license of the call, whatever it held before, and
/// keeps the rest. No other row and no other table changes.
pub proof fn update_is_read_back(
    instance: Instance,
    conn: &mut Connection,
    cache: &mut LocalInstance,
    name: String,
    open_registrations: bool,
    short_description: SafeString,
    long_description: SafeString,
    default_license: String,
    short_description_html: SafeString,
    long_description_html: SafeString,
    done: Result<(), Error>,
    after: Connection,
    found: Result<Instance, Error>,
)
    requires
        call_ensures(
            Instance::update,
            (
                &instance,
                conn,
                cache,
                name,
                open_registrations,
                short_description,
                long_description,
                default_license,
                short_description_html,
                long_description_html,
            ),
            done,
        ),
        after == *final(conn),
        call_ensures(Instance::get, (&after, instance.id), found),
    ensures
        done is Ok,
        found is Ok <==> exists|i: int|
            0 <= i < old(conn).instances@.len() && (#[trigger] old(conn).instances@[i]).id
                == instance.id,
        found matches Ok(row) ==> {
            &&& row.id == instance.id
            &&& row.name@ == name@
            &&& row.open_registrations == open_registrations
            &&& row.short_description@ == short_description@
            &&& row.long_description@ == long_description@
            &&& row.short_description_html@ == short_description_html@
            &&& row.long_description_html@ == long_description_html@
            &&& row.default_license@ == default_license@
        },
        after.instances@.len() == old(conn).instances@.len(),
        forall|i: int|
            0 <= i < old(conn).instances@.len() ==> {
                let before = old(conn).instances@[i];
                let row = #[trigger] after.instances@[i];
                if before.id == instance.id {
                    &&& row.name@ == name@
                    &&& row.open_registrations == open_registrations
                    &&& row.short_description@ == short_description@
                    &&& row.long_description@ == long_description@
                    &&& row.short_description_html@ == short_description_html@
                    &&& row.long_description_html@ == long_description_html@
                    &&& row.default_license@ == default_license@
                    &&& row.id == before.id
                    &&& row.public_domain == before.public_domain
                    &&& row.local == before.local
                    &&& row.blocked == before.blocked
                    &&& row.creation_date == before.creation_date
                    &&& row.private_key == before.private_key
                    &&& row.public_key == before.public_key
                } else {
                    row == before
                }
            },
        after.now == old(conn).now,
        after.negative == old(conn).negative,
        after.users@ == old(conn).users@,
        after.posts@ == old(conn).posts@,
        after.post_authors@ == old(conn).post_authors@,
        after.reshares@ == old(conn).reshares@,
        after.notifications@ == old(conn).notifications@,
        after.timeline@ == old(conn).timeline@,
{
    first_match(old(conn).instances@, key_is::<Instance>(instance.id));
    first_match(after.instances@, key_is::<Instance>(instance.id));
    let change = InstanceChange::Details {
        name,
        open_registrations,
        short_description,
        long_description,
        short_description_html,
        long_description_html,
        default_license,
    };
    change_is_found(old(conn)@, instance.id, change, instance.id);
}

/// After the local instance was updated, what is at hand is the first local row as the update left
/// it: where that is the instance itself, it has what the call gave. Updating another leaves what is
/// at hand alone.
pub proof fn update_reaches_the_cache(
    instance: Instance,
    conn: &mut Connection,
    cache: &mut LocalInstance,
    name: String,
    open_registrations: bool,
    short_description: SafeString,
    long_description: SafeString,
    default_license: String,
    short_description_html: SafeString,
    long_description_html: SafeString,
    done: Result<(), Error>,
    after: LocalInstance,
    kept: Result<Instance, Error>,
    at: int,
)
    requires
        call_ensures(
            Instance::update,
            (
                &instance,
                conn,
                cache,
                name,
                open_registrations,
                short_description,
                long_description,
                default_license,
                short_description_html,
                long_description_html,
            ),
            done,
        ),
        after == *final(cache),
        call_ensures(Instance::get_local, (&after,), kept),
        0 <= at < old(conn).instances@.len(),
        old(conn).instances@[at].local,
        forall|j: int| 0 <= j < at ==> !(#[trigger] old(conn).instances@[j]).local,
    ensures
        instance.local ==> kept is Ok && kept->Ok_0 == final(conn).instances@[at],
        instance.local && old(conn).instances@[at].id == instance.id ==> {
            &&& kept->Ok_0.name@ == name@
            &&& kept->Ok_0.open_registrations == open_registrations
            &&& kept->Ok_0.short_description@ == short_description@
            &&& kept->Ok_0.long_description@ == long_description@
            &&& kept->Ok_0.short_description_html@ == short_description_html@
            &&& kept->Ok_0.long_description_html@ == long_description_html@
            &&& kept->Ok_0.default_license@ == default_license@
            &&& kept->Ok_0.public_domain == old(conn).instances@[at].public_domain
        },
        !instance.local ==> *final(cache) == *old(cache),
{
    let rows = final(conn).instances@;
    first_match(rows, local_is(true));
    assert(rows[at].local);
    assert forall|j: int| 0 <= j < at implies !(#[trigger] rows[j]).local by {
        assert(!old(conn).instances@[j].local);
    }
}

/// An update hands the database's answer on, and looks at what was found only for a local instance.
pub proof fn update_is_settled(
    instance: Instance,
    cache: &mut LocalInstance,
    saved: Result<(), Error>,
    found: Result<Instance, Error>,
    done: Result<(), Error>,
)
    requires
        call_ensures(Instance::settle_update, (&instance, cache, saved, found), done),
    ensures
        done == saved,
        !instance.local ==> *final(cache) == *old(cache),
        instance.local && found is Ok ==> final(cache).cached == Some(found->Ok_0),
        instance.local && found is Err ==> final(cache).cached is None,
{
}

/// Each description is rendered against the instance's domain, the short one within a line.
pub proof fn descriptions_to_render(
    instance: Instance,
    short_description: SafeString,
    long_description: SafeString,
    jobs: (Markdown, Markdown),
)
    requires
        call_ensures(
            Instance::renderings,
            (&instance, &short_description, &long_description),
            jobs,
        ),
    ensures
        jobs.0.text@ == short_description@,
        jobs.1.text@ == long_description@,
        jobs.0.inline,
        !jobs.1.inline,
        jobs.0.base_url@ == instance.public_domain@,
        jobs.1.base_url@ == instance.public_domain@,
{
}

/// Keys that are texts are stored as these texts, each in its own field, and nothing else changes;
/// keys of which one is no text are refused.
pub proof fn keys_are_stored(
    instance: Instance,
    conn: &mut Connection,
    keypair: Keypair,
    done: Result<(), Error>,
)
    requires
        call_ensures(Instance::set_keypair, (&instance, conn, keypair), done),
    ensures
        done is Ok <==> valid_utf8(keypair.private_key@) && valid_utf8(keypair.public_key@),
        done matches Err(e) ==> e == Error::Signature && final(conn)@ == old(conn)@,
        done is Ok ==> final(conn).instances@.len() == old(conn).instances@.len(),
        done is Ok ==> forall|i: int|
            0 <= i < old(conn).instances@.len() ==> {
                let before = old(conn).instances@[i];
                let row = #[trigger] final(conn).instances@[i];
                if before.id == instance.id {
                    &&& row.private_key is Some
                    &&& row.private_key->0@ == decode_utf8(keypair.private_key@)
                    &&& row.public_key is Some
                    &&& row.public_key->0@ == decode_utf8(keypair.public_key@)
                    &&& row == (Instance {
                        private_key: row.private_key,
                        public_key: row.public_key,
                        ..before
                    })
                } else {
                    row == before
                }
            },
        final(conn).users@ == old(conn).users@,
        final(conn).posts@ == old(conn).posts@,
        final(conn).post_authors@ == old(conn).post_authors@,
        final(conn).reshares@ == old(conn).reshares@,
        final(conn).notifications@ == old(conn).notifications@,
        final(conn).timeline@ == old(conn).timeline@,
{
    if done is Ok {
        let (private_key, public_key) = choose|private_key: String, public_key: String|
            {
                &&& private_key@ == decode_utf8(keypair.private_key@)
                &&& public_key@ == decode_utf8(keypair.public_key@)
                &&& final(conn)@ == #[trigger] old(conn)@.with_change(
                    instance.id,
                    InstanceChange::Keypair { private_key, public_key },
                )
            };
        let after = old(conn)@.with_change(
            instance.id,
            InstanceChange::Keypair { private_key, public_key },
        );
        assert(final(conn).instances@ == after.instances);
        assert(final(conn)@.users == old(conn)@.users);
    }
}

/// A new instance gets a row behind the others, with what was given, open, created now, and under a
/// number that no other row has. It fails only where the largest number is taken, and then nothing
/// changes.
pub proof fn instance_is_inserted(
    conn: &mut Connection,
    new: NewInstance,
    inserted: Result<Instance, Error>,
)
    requires
        call_ensures(Instance::insert, (conn, new), inserted),
    ensures
        inserted is Err <==> exists|i: int|
            0 <= i < old(conn).instances@.len() && (#[trigger] old(conn).instances@[i]).id
                == i32::MAX,
        match inserted {
            Ok(row) => {
                &&& row.public_domain@ == new.public_domain@
                &&& row.name@ == new.name@
                &&& row.local == new.local
                &&& !row.blocked
                &&& row.creation_date == old(conn).now
                &&& row.open_registrations == new.open_registrations
                &&& row.short_description@ == new.short_description@
                &&& row.long_description@ == new.long_description@
                &&& row.default_license@ == new.default_license@
                &&& row.long_description_html@ == new.long_description_html@
                &&& row.short_description_html@ == new.short_description_html@
                &&& row.private_key == new.private_key
                &&& row.public_key == new.public_key
                &&& forall|i: int|
                    0 <= i < old(conn).instances@.len() ==> (
                    #[trigger] old(conn).instances@[i]).id != row.id
                &&& final(conn).instances@ == old(conn).instances@.push(row)
            },
            Err(e) => {
                &&& e == Error::Db(DbError::Query)
                &&& final(conn).instances@ == old(conn).instances@
            },
        },
        final(conn).now == old(conn).now,
        final(conn).negative == old(conn).negative,
        final(conn).users@ == old(conn).users@,
        final(conn).posts@ == old(conn).posts@,
        final(conn).post_authors@ == old(conn).post_authors@,
        final(conn).reshares@ == old(conn).reshares@,
        final(conn).notifications@ == old(conn).notifications@,
        final(conn).timeline@ == old(conn).timeline@,
{
    let rows = old(conn).instances@;
    last_key_is_largest(rows);
    last_key_is_used(rows);
    assert(final(conn)@.users == old(conn)@.users);
    if inserted is Err {
        let i = choose|i: int|
            0 <= i < rows.len() && (#[trigger] rows[i]).id == last_key(rows);
        assert(rows[i].id == i32::MAX);
    } else {
        assert forall|i: int| 0 <= i < rows.len() implies (#[trigger] rows[i]).id
            != inserted->Ok_0.id && rows[i].id != i32::MAX by {
            assert(rows[i].key() <= last_key(rows));
        }
    }
}

/// A local instance that is set up has the domain, the name, the setting and the license that were
/// given, both keys as texts, nothing to say about itself, and is local and open. Keys of which one
/// is no text are refused.
pub proof fn local_instance_is_set_up(
    conn: &mut Connection,
    public_domain: String,
    name: String,
    open_registrations: bool,
    default_license: String,
    keypair: Keypair,
    made: Result<Instance, Error>,
)
    requires
        call_ensures(
            NewInstance::new_local,
            (conn, public_domain, name, open_registrations, default_license, keypair),
            made,
        ),
    ensures
        match made {
            Ok(row) => {
                &&& valid_utf8(keypair.private_key@) && valid_utf8(keypair.public_key@)
                &&& row.public_domain@ == public_domain@
                &&& row.name@ == name@
                &&& row.local
                &&& !row.blocked
                &&& row.creation_date == old(conn).now
                &&& row.open_registrations == open_registrations
                &&& row.default_license@ == default_license@
                &&& row.short_description@.len() == 0
                &&& row.long_description@.len() == 0
                &&& row.short_description_html@.len() == 0
                &&& row.long_description_html@.len() == 0
                &&& row.private_key is Some
                &&& row.private_key->0@ == decode_utf8(keypair.private_key@)
                &&& row.public_key is Some
                &&& row.public_key->0@ == decode_utf8(keypair.public_key@)
                &&& final(conn).instances@ == old(conn).instances@.push(row)
                &&& forall|i: int|
                    0 <= i < old(conn).instances@.len() ==> (
                    #[trigger] old(conn).instances@[i]).id != row.id
            },
            Err(e) => {
                &&& final(conn)@ == old(conn)@
                &&& if valid_utf8(keypair.private_key@) && valid_utf8(keypair.public_key@) {
                    &&& e == Error::Db(DbError::Query)
                    &&& exists|i: int|
                        0 <= i < old(conn).instances@.len() && (
                        #[trigger] old(conn).instances@[i]).id == i32::MAX
                } else {
                    e == Error::Signature
                }
            },
        },
{
    let rows = old(conn).instances@;
    last_key_is_largest(rows);
    last_key_is_used(rows);
    if made is Ok {
        let row = made->Ok_0;
        let new = choose|new: NewInstance|
            new.is_fresh_local(
                public_domain,
                name,
                open_registrations,
                default_license,
                keypair,
            ) && #[trigger] row.is_row_of(
                new,
                (last_key(old(conn)@.instances) + 1) as i32,
                old(conn)@.now,
            );
        assert(row.is_row_of(new, (last_key(rows) + 1) as i32, old(conn).now));
        assert forall|i: int| 0 <= i < rows.len() implies (#[trigger] rows[i]).id != row.id by {
            assert(rows[i].key() <= last_key(rows));
        }
    } else if valid_utf8(keypair.private_key@) && valid_utf8(keypair.public_key@) {
        let i = choose|i: int|
            0 <= i < rows.len() && (#[trigger] rows[i]).id == last_key(rows);
        assert(rows[i].id == i32::MAX);
    }
}

/// An instance is published under `https://`, the domain of the instance at hand, `/!/` and its own
/// domain, with its name. A key goes with it if and only if it is local and has one: its own, owned
/// by the actor and named after it. Without an instance at hand nothing is published.
pub proof fn published_actor(
    instance: Instance,
    cache: LocalInstance,
    actor: Result<CustomService, Error>,
)
    requires
        call_ensures(Instance::to_activity, (&instance, &cache), actor),
    ensures
        match (actor, cache.cached) {
            (Ok(actor), Some(local)) => {
                &&& actor.id@ == "https://"@ + local.public_domain@ + "/!/"@
                    + instance.public_domain@
                &&& actor.name@ == instance.name@
                &&& actor.public_key is Some <==> instance.local && instance.public_key is Some
                &&& actor.public_key matches Some(key) ==> {
                    &&& key.id@ == actor.id@ + "#main-key"@
                    &&& key.owner@ == actor.id@
                    &&& key.public_key_pem@ == instance.public_key->0@
                }
            },
            (Err(e), None) => e == Error::NotFound,
            _ => false,
        },
{
    if let Ok(actor) = actor {
        let local = cache.cached->0;
        assert(actor.id@ == actor@.id);
        assert(actor.id@ =~= "https://"@ + local.public_domain@ + "/!/"@
            + instance.public_domain@);
        assert(actor@.public_key is Some <==> actor.public_key is Some);
    }
}

/// The actor in JSON is a service with the id and the name, and nothing but these to tell.
pub proof fn actor_in_json(actor: CustomService, json: Result<String, Error>)
    requires
        call_ensures(CustomService::service_json, (&actor,), json),
    ensures
        json matches Ok(text) && json_value(text@) == Some(
            JsonView::Object(
                map![
                    "type"@ => JsonView::Text("Service"@),
                    "id"@ => JsonView::Text(actor.id@),
                    "name"@ => JsonView::Text(actor.name@),
                    "inbox"@ => JsonView::Null,
                    "outbox"@ => JsonView::Null,
                    "following"@ => JsonView::Null,
                    "followers"@ => JsonView::Null,
                    "liked"@ => JsonView::Null,
                ],
            ),
        ),
{
}

} // verus!
