use crate::activity::{CustomService, CustomServiceView, PublicKey, PublicKeyView};
use crate::connection::{Connection, Tables};
use crate::error::{DbError, Error};
use crate::query::{
    arrange, fetch, first, first_row, get, last_key, limited, matching_is_filter, next_key, select,
    sorted, with_key, Condition, Row, SortOrder,
};
use crate::safe_string::SafeString;
use crate::text::{ap_url, from_utf8, in_order, join, spec_ap_url, starts_with, text_le};
use crate::timestamp::Timestamp;
use crate::users::{Role, User};
use vstd::prelude::*;
use vstd::utf8::{decode_utf8, valid_utf8};

verus! {

/// A row of the table of instances: a server that takes part in the network.
#[derive(Debug)]
pub struct Instance {
    pub id: i32,
    pub public_domain: String,
    pub name: String,
    /// Whether the instance is this server.
    pub local: bool,
    pub blocked: bool,
    pub creation_date: Timestamp,
    pub open_registrations: bool,
    pub short_description: SafeString,
    pub long_description: SafeString,
    pub default_license: String,
    pub long_description_html: SafeString,
    pub short_description_html: SafeString,
    pub private_key: Option<String>,
    pub public_key: Option<String>,
}

/// An instance that has no row yet.
#[derive(Debug)]
pub struct NewInstance {
    pub public_domain: String,
    pub name: String,
    pub local: bool,
    pub open_registrations: bool,
    pub short_description: SafeString,
    pub long_description: SafeString,
    pub default_license: String,
    pub long_description_html: String,
    pub short_description_html: String,
    pub private_key: Option<String>,
    pub public_key: Option<String>,
}

/// An optional text once more.
fn copy_key(key: &Option<String>) -> (copy: Option<String>)
    ensures
        copy == *key,
{
    match key {
        Some(text) => Some(text.clone()),
        None => None,
    }
}

impl Clone for Instance {
    fn clone(&self) -> (copy: Self)
        ensures
            copy == *self,
    {
        Instance {
            id: self.id,
            public_domain: self.public_domain.clone(),
            name: self.name.clone(),
            local: self.local,
            blocked: self.blocked,
            creation_date: self.creation_date,
            open_registrations: self.open_registrations,
            short_description: self.short_description.clone(),
            long_description: self.long_description.clone(),
            default_license: self.default_license.clone(),
            long_description_html: self.long_description_html.clone(),
            short_description_html: self.short_description_html.clone(),
            private_key: copy_key(&self.private_key),
            public_key: copy_key(&self.public_key),
        }
    }
}

impl Clone for NewInstance {
    fn clone(&self) -> (copy: Self)
        ensures
            copy == *self,
    {
        NewInstance {
            public_domain: self.public_domain.clone(),
            name: self.name.clone(),
            local: self.local,
            open_registrations: self.open_registrations,
            short_description: self.short_description.clone(),
            long_description: self.long_description.clone(),
            default_license: self.default_license.clone(),
            long_description_html: self.long_description_html.clone(),
            short_description_html: self.short_description_html.clone(),
            private_key: copy_key(&self.private_key),
            public_key: copy_key(&self.public_key),
        }
    }
}

impl Row for Instance {
    open spec fn key(&self) -> i32 {
        self.id
    }

    fn row_id(&self) -> i32 {
        self.id
    }

    fn duplicate(&self) -> Self {
        self.clone()
    }
}

impl Instance {
    /// Whether this is the row that `new` becomes, as number `id`, at `now`.
    pub open spec fn is_row_of(self, new: NewInstance, id: i32, now: Timestamp) -> bool {
        &&& self.id == id
        &&& self.public_domain == new.public_domain
        &&& self.name == new.name
        &&& self.local == new.local
        &&& !self.blocked
        &&& self.creation_date == now
        &&& self.open_registrations == new.open_registrations
        &&& self.short_description == new.short_description
        &&& self.long_description == new.long_description
        &&& self.default_license == new.default_license
        &&& self.long_description_html@ == new.long_description_html@
        &&& self.short_description_html@ == new.short_description_html@
        &&& self.private_key == new.private_key
        &&& self.public_key == new.public_key
    }

    /// The start of every identifier on the network that belongs to this instance.
    pub open spec fn spec_root(self) -> Seq<char> {
        "https://"@ + self.public_domain@ + "/"@
    }

    /// Whether the instance is blocked and `id` belongs to it.
    pub open spec fn bars(self, id: Seq<char>) -> bool {
        self.blocked && self.spec_root().is_prefix_of(id)
    }
}

/// Of an instance: it is local, or is not, as `local` says.
pub open spec fn local_is(local: bool) -> spec_fn(Instance) -> bool {
    |row: Instance| row.local == local
}

/// Of an instance: it is at `domain`.
pub open spec fn domain_is(domain: Seq<char>) -> spec_fn(Instance) -> bool {
    |row: Instance| row.public_domain@ == domain
}

/// Of a user: they administer the instance numbered `instance_id`.
pub open spec fn administers(instance_id: i32) -> spec_fn(User) -> bool {
    |row: User| row.instance_id == instance_id && row.role == Role::Admin.spec_code()
}

/// The instances that are local, or those that are not.
pub struct LocalIs(pub bool);

impl Condition<Instance> for LocalIs {
    open spec fn holds(&self, row: Instance) -> bool {
        row.local == self.0
    }

    fn test(&self, row: &Instance) -> bool {
        row.local == self.0
    }
}

/// The instances at a domain.
pub struct DomainIs(pub String);

impl Condition<Instance> for DomainIs {
    open spec fn holds(&self, row: Instance) -> bool {
        row.public_domain@ == self.0@
    }

    fn test(&self, row: &Instance) -> bool {
        row.public_domain == self.0
    }
}

/// The users that administer the instance with a number.
pub struct AdminOf(pub i32);

impl Condition<User> for AdminOf {
    open spec fn holds(&self, row: User) -> bool {
        row.instance_id == self.0 && row.role == Role::Admin.spec_code()
    }

    fn test(&self, row: &User) -> bool {
        row.instance_id == self.0 && row.role == Role::Admin.code()
    }
}

/// Instances in the order of their domains.
pub struct ByDomain;

impl SortOrder<Instance> for ByDomain {
    open spec fn le(&self, a: Instance, b: Instance) -> bool {
        text_le(a.public_domain@, b.public_domain@)
    }

    fn test_le(&self, a: &Instance, b: &Instance) -> bool {
        in_order(&a.public_domain, &b.public_domain)
    }
}

/// The local instance, kept at hand so that it need not be looked up.
#[derive(Debug)]
pub struct LocalInstance {
    pub cached: Option<Instance>,
}

/// What the statement that changes a row of instances sets.
#[derive(Debug)]
pub enum InstanceChange {
    Blocked(bool),
    Details {
        name: String,
        open_registrations: bool,
        short_description: SafeString,
        long_description: SafeString,
        short_description_html: SafeString,
        long_description_html: SafeString,
        default_license: String,
    },
    Keypair { private_key: String, public_key: String },
}

impl InstanceChange {
    /// The row after the change.
    pub open spec fn applied(self, row: Instance) -> Instance {
        match self {
            InstanceChange::Blocked(blocked) => Instance { blocked, ..row },
            InstanceChange::Details {
                name,
                open_registrations,
                short_description,
                long_description,
                short_description_html,
                long_description_html,
                default_license,
            } => Instance {
                name,
                open_registrations,
                short_description,
                long_description,
                short_description_html,
                long_description_html,
                default_license,
                ..row
            },
            InstanceChange::Keypair { private_key, public_key } => Instance {
                private_key: Some(private_key),
                public_key: Some(public_key),
                ..row
            },
        }
    }

    /// The row after the change.
    pub fn apply(&self, row: &Instance) -> (changed: Instance)
        ensures
            changed == self.applied(*row),
    {
        let row = row.clone();
        match self {
            InstanceChange::Blocked(blocked) => Instance { blocked: *blocked, ..row },
            InstanceChange::Details {
                name,
                open_registrations,
                short_description,
                long_description,
                short_description_html,
                long_description_html,
                default_license,
            } => Instance {
                name: name.clone(),
                open_registrations: *open_registrations,
                short_description: short_description.clone(),
                long_description: long_description.clone(),
                short_description_html: short_description_html.clone(),
                long_description_html: long_description_html.clone(),
                default_license: default_license.clone(),
                ..row
            },
            InstanceChange::Keypair { private_key, public_key } => Instance {
                private_key: Some(private_key.clone()),
                public_key: Some(public_key.clone()),
                ..row
            },
        }
    }
}

/// Of an instance: what it is after the one numbered `id` was changed.
pub open spec fn changed(id: i32, change: InstanceChange) -> spec_fn(Instance) -> Instance {
    |row: Instance|
        if row.id == id {
            change.applied(row)
        } else {
            row
        }
}

impl Tables {
    /// Whether the identifier `id` belongs to a blocked instance.
    pub open spec fn bar(self, id: Seq<char>) -> bool {
        exists|i: int| 0 <= i < self.instances.len() && #[trigger] self.instances[i].bars(id)
    }

    /// The instances numbered from `min` up to but not including `max` in the order of their
    /// domains.
    pub open spec fn page(self, min: int, max: int) -> Result<Seq<Instance>, Error> {
        limited(sorted(ByDomain, self.instances), self.negative, min, max - min)
    }

    /// The tables after the instance numbered `id` was changed.
    pub open spec fn with_change(self, id: i32, change: InstanceChange) -> Tables {
        Tables {
            instances: self.instances.map_values(changed(id, change)),
            ..self
        }
    }
}

impl Connection {
    /// Changes the instance numbered `id`; where there is none, nothing changes.
    pub fn change_instance(&mut self, id: i32, change: &InstanceChange)
        ensures
            final(self)@ == old(self)@.with_change(id, *change),
    {
        let mut rows: Vec<Instance> = Vec::new();
        let mut i: usize = 0;
        while i < self.instances.len()
            invariant
                i <= self.instances.len(),
                rows@.len() == i,
                *self == *old(self),
                forall|j: int|
                    0 <= j < i ==> #[trigger] rows@[j] == if self.instances@[j].id == id {
                        change.applied(self.instances@[j])
                    } else {
                        self.instances@[j]
                    },
            decreases self.instances.len() - i,
        {
            if self.instances[i].id == id {
                rows.push(change.apply(&self.instances[i]));
            } else {
                rows.push(self.instances[i].clone());
            }
            i += 1;
        }
        self.instances = rows;
    }
}

/// A text in Markdown that is to become HTML.
#[derive(Debug)]
pub struct Markdown {
    pub text: String,
    /// The domain that relative links are resolved against.
    pub base_url: String,
    /// Whether the HTML has to stay within a line of text.
    pub inline: bool,
}

/// A fresh pair of keys, each in PEM.
#[derive(Debug)]
pub struct Keypair {
    pub public_key: Vec<u8>,
    pub private_key: Vec<u8>,
}

impl Keypair {
    /// Whether both keys are texts.
    pub open spec fn is_text(self) -> bool {
        valid_utf8(self.private_key@) && valid_utf8(self.public_key@)
    }

    /// The keys as texts, the private one first.
    fn into_texts(self) -> (texts: Result<(String, String), Error>)
        ensures
            match texts {
                Ok((private_key, public_key)) => {
                    &&& self.is_text()
                    &&& private_key@ == decode_utf8(self.private_key@)
                    &&& public_key@ == decode_utf8(self.public_key@)
                },
                Err(e) => !self.is_text() && e == Error::Signature,
            },
    {
        match from_utf8(self.private_key) {
            Some(private_key) => match from_utf8(self.public_key) {
                Some(public_key) => Ok((private_key, public_key)),
                None => Err(Error::Signature),
            },
            None => Err(Error::Signature),
        }
    }
}

impl LocalInstance {
    /// The instance at hand, or the error that there is none.
    pub open spec fn local(self) -> Result<Instance, Error> {
        match self.cached {
            Some(instance) => Ok(instance),
            None => Err(Error::NotFound),
        }
    }

    /// Nothing at hand yet.
    pub fn new() -> (cache: LocalInstance)
        ensures
            cache.cached is None,
    {
        LocalInstance { cached: None }
    }

    /// Keeps what a lookup of the local instance found, and nothing where it failed.
    pub fn refresh(&mut self, found: Result<Instance, Error>)
        ensures
            final(self).cached == found.ok(),
    {
        self.cached = match found {
            Ok(instance) => Some(instance),
            Err(_) => None,
        };
    }
}

impl Instance {
    /// Makes this the instance at hand.
    pub fn set_local(self, cache: &mut LocalInstance)
        ensures
            final(cache).cached == Some(self),
    {
        cache.cached = Some(self);
    }

    /// The instance at hand.
    pub fn get_local(cache: &LocalInstance) -> (local: Result<Instance, Error>)
        ensures
            local == cache.local(),
    {
        match &cache.cached {
            Some(instance) => Ok(instance.clone()),
            None => Err(Error::NotFound),
        }
    }

    /// The local instance, looked up.
    pub fn get_local_uncached(conn: &Connection) -> (local: Result<Instance, Error>)
        ensures
            local == first_row(conn@.instances.filter(local_is(true))),
    {
        let condition = LocalIs(true);
        proof {
            matching_is_filter(conn@.instances, condition, local_is(true));
        }
        first(&conn.instances, &condition)
    }

    /// Looks the local instance up and keeps it at hand.
    pub fn cache_local(conn: &Connection, cache: &mut LocalInstance)
        ensures
            final(cache).cached == first_row(conn@.instances.filter(local_is(true))).ok(),
    {
        cache.refresh(Instance::get_local_uncached(conn));
    }

    /// The instances that are local.
    pub fn get_locals(conn: &Connection) -> (locals: Result<Vec<Instance>, Error>)
        ensures
            locals matches Ok(rows) && rows@ == conn@.instances.filter(local_is(true)),
    {
        let condition = LocalIs(true);
        proof {
            matching_is_filter(conn@.instances, condition, local_is(true));
        }
        Ok(select(&conn.instances, &condition))
    }

    /// The instances that are not local.
    pub fn get_remotes(conn: &Connection) -> (remotes: Result<Vec<Instance>, Error>)
        ensures
            remotes matches Ok(rows) && rows@ == conn@.instances.filter(local_is(false)),
    {
        let condition = LocalIs(false);
        proof {
            matching_is_filter(conn@.instances, condition, local_is(false));
        }
        Ok(select(&conn.instances, &condition))
    }

    /// The instances numbered from `range.0` up to but not including `range.1` in the order of
    /// their domains.
    pub fn page(conn: &Connection, range: (i32, i32)) -> (page: Result<Vec<Instance>, Error>)
        requires
            i32::MIN <= range.1 - range.0 <= i32::MAX,
        ensures
            match page {
                Ok(rows) => conn@.page(range.0 as int, range.1 as int) == Ok::<
                    Seq<Instance>,
                    Error,
                >(rows@),
                Err(e) => conn@.page(range.0 as int, range.1 as int) == Err::<
                    Seq<Instance>,
                    Error,
                >(e),
            },
    {
        let (min, max): (i32, i32) = range;
        let limit: i32 = max - min;
        let rows = arrange(&conn.instances, &ByDomain);
        fetch(&rows, conn.negative, min as i64, limit as i64)
    }

    /// Adds a row for `new`, under the next free number, and hands it out.
    pub fn insert(conn: &mut Connection, new: NewInstance) -> (row: Result<Instance, Error>)
        ensures
            match row {
                Ok(row) => {
                    &&& last_key(old(conn)@.instances) < i32::MAX
                    &&& row.is_row_of(
                        new,
                        (last_key(old(conn)@.instances) + 1) as i32,
                        old(conn)@.now,
                    )
                    &&& final(conn)@ == (Tables {
                        instances: old(conn)@.instances.push(row),
                        ..old(conn)@
                    })
                },
                Err(e) => {
                    &&& last_key(old(conn)@.instances) == i32::MAX
                    &&& e == Error::Db(DbError::Query)
                    &&& final(conn)@ == old(conn)@
                },
            },
    {
        let id = match next_key(&conn.instances) {
            Ok(id) => id,
            Err(e) => return Err(e),
        };
        let row = Instance {
            id,
            public_domain: new.public_domain,
            name: new.name,
            local: new.local,
            blocked: false,
            creation_date: conn.now,
            open_registrations: new.open_registrations,
            short_description: new.short_description,
            long_description: new.long_description,
            default_license: new.default_license,
            long_description_html: SafeString::trusted(&new.long_description_html),
            short_description_html: SafeString::trusted(&new.short_description_html),
            private_key: new.private_key,
            public_key: new.public_key,
        };
        conn.instances.push(row.clone());
        Ok(row)
    }

    /// The instance numbered `id`.
    pub fn get(conn: &Connection, id: i32) -> (row: Result<Instance, Error>)
        ensures
            row == first_row(with_key(conn@.instances, id)),
    {
        get(&conn.instances, id)
    }

    /// The instance at `domain`.
    pub fn find_by_domain(conn: &Connection, domain: &str) -> (row: Result<Instance, Error>)
        ensures
            row == first_row(conn@.instances.filter(domain_is(domain@))),
    {
        let condition = DomainIs(domain.to_owned());
        proof {
            matching_is_filter(conn@.instances, condition, domain_is(domain@));
        }
        first(&conn.instances, &condition)
    }

    /// The change that blocks an open instance and opens a blocked one.
    pub fn block_change(&self) -> (change: InstanceChange)
        ensures
            change == InstanceChange::Blocked(!self.blocked),
    {
        InstanceChange::Blocked(!self.blocked)
    }

    /// Blocks the instance if it was open when it was read, and opens it if it was blocked.
    pub fn toggle_block(&self, conn: &mut Connection) -> (done: Result<(), Error>)
        ensures
            done is Ok,
            final(conn)@ == old(conn)@.with_change(self.id, InstanceChange::Blocked(!self.blocked)),
    {
        let change = self.block_change();
        conn.change_instance(self.id, &change);
        Ok(())
    }

    /// The start of every identifier on the network that belongs to this instance.
    pub fn root(&self) -> (root: String)
        ensures
            root@ == self.spec_root(),
    {
        let mut root = join("https://", &self.public_domain);
        root.append("/");
        root
    }

    /// Whether the identifier `id` belongs to a blocked instance.
    pub fn is_blocked(conn: &Connection, id: &str) -> (blocked: Result<bool, Error>)
        ensures
            blocked == Ok::<bool, Error>(conn@.bar(id@)),
    {
        let mut i: usize = 0;
        while i < conn.instances.len()
            invariant
                i <= conn.instances.len(),
                forall|j: int| 0 <= j < i ==> !#[trigger] conn@.instances[j].bars(id@),
            decreases conn.instances.len() - i,
        {
            if conn.instances[i].blocked && starts_with(id, &conn.instances[i].root()) {
                assert(conn@.instances[i as int].bars(id@));
                return Ok(true);
            }
            i += 1;
        }
        Ok(false)
    }

    /// Whether anyone administers the instance.
    pub fn has_admin(&self, conn: &Connection) -> (yes: Result<bool, Error>)
        ensures
            yes == Ok::<bool, Error>(conn@.users.filter(administers(self.id)).len() > 0),
    {
        let condition = AdminOf(self.id);
        proof {
            matching_is_filter(conn@.users, condition, administers(self.id));
        }
        Ok(select(&conn.users, &condition).len() > 0)
    }

    /// Someone who administers the instance.
    pub fn main_admin(&self, conn: &Connection) -> (admin: Result<User, Error>)
        ensures
            admin == first_row(conn@.users.filter(administers(self.id))),
    {
        let condition = AdminOf(self.id);
        proof {
            matching_is_filter(conn@.users, condition, administers(self.id));
        }
        first(&conn.users, &condition)
    }

    /// The address of the box `box_name` of the object `name` on this instance.
    pub fn compute_box(&self, prefix: &str, name: &str, box_name: &str) -> (url: String)
        ensures
            url@ == spec_ap_url(
                self.public_domain@ + "/"@ + prefix@ + "/"@ + name@ + "/"@ + box_name@,
            ),
    {
        let mut path = join(&self.public_domain, "/");
        path.append(prefix);
        path.append("/");
        path.append(name);
        path.append("/");
        path.append(box_name);
        ap_url(&path)
    }

    /// What has to become HTML before the descriptions are changed: the short one within a line,
    /// then the long one.
    pub fn renderings(
        &self,
        short_description: &SafeString,
        long_description: &SafeString,
    ) -> (jobs: (Markdown, Markdown))
        ensures
            jobs.0.text@ == short_description@,
            jobs.0.base_url == self.public_domain,
            jobs.0.inline,
            jobs.1.text@ == long_description@,
            jobs.1.base_url == self.public_domain,
            !jobs.1.inline,
    {
        (
            Markdown {
                text: short_description.get().clone(),
                base_url: self.public_domain.clone(),
                inline: true,
            },
            Markdown {
                text: long_description.get().clone(),
                base_url: self.public_domain.clone(),
                inline: false,
            },
        )
    }

    /// The change that gives an instance its name, descriptions and license, and says whether it
    /// takes new users.
    pub fn details_change(
        name: String,
        open_registrations: bool,
        short_description: SafeString,
        long_description: SafeString,
        default_license: String,
        short_description_html: SafeString,
        long_description_html: SafeString,
    ) -> (change: InstanceChange)
        ensures
            change == (InstanceChange::Details {
                name,
                open_registrations,
                short_description,
                long_description,
                short_description_html,
                long_description_html,
                default_license,
            }),
    {
        InstanceChange::Details {
            name,
            open_registrations,
            short_description,
            long_description,
            short_description_html,
            long_description_html,
            default_license,
        }
    }

    /// Closes a change of the instance: `saved` is how the database answered it and `found` what a
    /// lookup of the local instance finds now. What is at hand is renewed where this instance is
    /// local, even if the change failed.
    pub fn settle_update(
        &self,
        cache: &mut LocalInstance,
        saved: Result<(), Error>,
        found: Result<Instance, Error>,
    ) -> (done: Result<(), Error>)
        ensures
            done == saved,
            final(cache).cached == if self.local { found.ok() } else { old(cache).cached },
    {
        if self.local {
            cache.refresh(found);
        }
        saved
    }

    /// Changes the instance's name, descriptions and license, and whether it takes new users.
    /// The HTML is what the [renderings](Instance::renderings) of the descriptions came out as.
    pub fn update(
        &self,
        conn: &mut Connection,
        cache: &mut LocalInstance,
        name: String,
        open_registrations: bool,
        short_description: SafeString,
        long_description: SafeString,
        default_license: String,
        short_description_html: SafeString,
        long_description_html: SafeString,
    ) -> (done: Result<(), Error>)
        ensures
            done is Ok,
            final(conn)@ == old(conn)@.with_change(
                self.id,
                InstanceChange::Details {
                    name,
                    open_registrations,
                    short_description,
                    long_description,
                    short_description_html,
                    long_description_html,
                    default_license,
                },
            ),
            final(cache).cached == if self.local {
                first_row(final(conn)@.instances.filter(local_is(true))).ok()
            } else {
                old(cache).cached
            },
    {
        let change = Instance::details_change(
            name,
            open_registrations,
            short_description,
            long_description,
            default_license,
            short_description_html,
            long_description_html,
        );
        conn.change_instance(self.id, &change);
        let found = Instance::get_local_uncached(conn);
        self.settle_update(cache, Ok(()), found)
    }

    /// How many instances there are.
    pub fn count(conn: &Connection) -> (count: Result<i64, Error>)
        requires
            conn@.instances.len() <= i64::MAX,
        ensures
            count == Ok::<i64, Error>(conn@.instances.len() as i64),
    {
        Ok(conn.instances.len() as i64)
    }

    /// The change that gives an instance its keys; keys that are no texts are unusable.
    pub fn keypair_change(keypair: Keypair) -> (change: Result<InstanceChange, Error>)
        ensures
            match change {
                Ok(InstanceChange::Keypair { private_key, public_key }) => {
                    &&& keypair.is_text()
                    &&& private_key@ == decode_utf8(keypair.private_key@)
                    &&& public_key@ == decode_utf8(keypair.public_key@)
                },
                Ok(_) => false,
                Err(e) => !keypair.is_text() && e == Error::Signature,
            },
    {
        match keypair.into_texts() {
            Ok((private_key, public_key)) => Ok(
                InstanceChange::Keypair { private_key, public_key },
            ),
            Err(e) => Err(e),
        }
    }

    /// Gives the instance the fresh keys `keypair`.
    pub fn set_keypair(&self, conn: &mut Connection, keypair: Keypair) -> (done: Result<(), Error>)
        ensures
            match done {
                Ok(_) => keypair.is_text() && exists|private_key: String, public_key: String|
                    {
                        &&& private_key@ == decode_utf8(keypair.private_key@)
                        &&& public_key@ == decode_utf8(keypair.public_key@)
                        &&& final(conn)@ == #[trigger] old(conn)@.with_change(
                            self.id,
                            InstanceChange::Keypair { private_key, public_key },
                        )
                    },
                Err(e) => {
                    &&& !keypair.is_text()
                    &&& e == Error::Signature
                    &&& final(conn)@ == old(conn)@
                },
            },
    {
        match Instance::keypair_change(keypair) {
            Ok(change) => {
                conn.change_instance(self.id, &change);
                Ok(())
            },
            Err(e) => Err(e),
        }
    }

    /// What is published of this instance, by the server whose domain is `local_domain`.
    pub open spec fn activity_view(self, local_domain: Seq<char>) -> CustomServiceView {
        let id = spec_ap_url(local_domain + "/!/"@ + self.public_domain@);
        CustomServiceView {
            id,
            name: self.name@,
            public_key: if self.local {
                match self.public_key {
                    Some(pem) => Some(
                        PublicKeyView {
                            id: id + "#main-key"@,
                            owner: id,
                            public_key_pem: pem@,
                        },
                    ),
                    None => None,
                }
            } else {
                None
            },
        }
    }

    /// The actor that stands for this instance. Only the local instance publishes a key.
    pub fn to_activity(&self, cache: &LocalInstance) -> (actor: Result<CustomService, Error>)
        ensures
            match actor {
                Ok(service) => cache.cached matches Some(local) && service@
                    == self.activity_view(local.public_domain@),
                Err(e) => cache.cached is None && e == Error::NotFound,
            },
    {
        let local = match Instance::get_local(cache) {
            Ok(local) => local,
            Err(e) => return Err(e),
        };
        let mut path = join(&local.public_domain, "/!/");
        path.append(&self.public_domain);
        let id = ap_url(&path);
        let mut key: Option<PublicKey> = None;
        if self.local {
            if let Some(pem) = &self.public_key {
                key =
                Some(
                    PublicKey {
                        id: join(&id, "#main-key"),
                        owner: id.clone(),
                        public_key_pem: pem.clone(),
                    },
                );
            }
        }
        Ok(CustomService { id, name: self.name.clone(), public_key: key })
    }
}

impl NewInstance {
    /// Whether this is a fresh local instance with the given settings and keys, and nothing to say
    /// about itself yet.
    pub open spec fn is_fresh_local(
        self,
        public_domain: String,
        name: String,
        open_registrations: bool,
        default_license: String,
        keypair: Keypair,
    ) -> bool {
        &&& self.public_domain == public_domain
        &&& self.name == name
        &&& self.local
        &&& self.open_registrations == open_registrations
        &&& self.short_description@ == Seq::<char>::empty()
        &&& self.long_description@ == Seq::<char>::empty()
        &&& self.default_license == default_license
        &&& self.long_description_html@ == Seq::<char>::empty()
        &&& self.short_description_html@ == Seq::<char>::empty()
        &&& self.private_key matches Some(key) && key@ == decode_utf8(keypair.private_key@)
        &&& self.public_key matches Some(key) && key@ == decode_utf8(keypair.public_key@)
    }

    /// A fresh local instance; keys that are no texts are unusable.
    pub fn fresh_local(
        public_domain: String,
        name: String,
        open_registrations: bool,
        default_license: String,
        keypair: Keypair,
    ) -> (new: Result<NewInstance, Error>)
        ensures
            match new {
                Ok(new) => keypair.is_text() && new.is_fresh_local(
                    public_domain,
                    name,
                    open_registrations,
                    default_license,
                    keypair,
                ),
                Err(e) => !keypair.is_text() && e == Error::Signature,
            },
    {
        match keypair.into_texts() {
            Ok((private_key, public_key)) => {
                proof {
                    reveal_strlit("");
                    assert(""@ =~= Seq::<char>::empty());
                }
                Ok(
                    NewInstance {
                        public_domain,
                        name,
                        local: true,
                        open_registrations,
                        short_description: SafeString::trusted(""),
                        long_description: SafeString::trusted(""),
                        default_license,
                        long_description_html: String::new(),
                        short_description_html: String::new(),
                        private_key: Some(private_key),
                        public_key: Some(public_key),
                    },
                )
            },
            Err(e) => Err(e),
        }
    }

    /// Adds a row for a fresh local instance with the fresh keys `keypair`.
    pub fn new_local(
        conn: &mut Connection,
        public_domain: String,
        name: String,
        open_registrations: bool,
        default_license: String,
        keypair: Keypair,
    ) -> (row: Result<Instance, Error>)
        ensures
            match row {
                Ok(row) => {
                    &&& keypair.is_text()
                    &&& last_key(old(conn)@.instances) < i32::MAX
                    &&& exists|new: NewInstance|
                        new.is_fresh_local(
                            public_domain,
                            name,
                            open_registrations,
                            default_license,
                            keypair,
                        ) && #[trigger] row.is_row_of(
                            new,
                            (last_key(old(conn)@.instances) + 1) as i32,
                            old(conn)@.now,
                        )
                    &&& final(conn)@ == (Tables {
                        instances: old(conn)@.instances.push(row),
                        ..old(conn)@
                    })
                },
                Err(e) => {
                    &&& final(conn)@ == old(conn)@
                    &&& if keypair.is_text() {
                        last_key(old(conn)@.instances) == i32::MAX && e == Error::Db(DbError::Query)
                    } else {
                        e == Error::Signature
                    }
                },
            },
    {
        match NewInstance::fresh_local(
            public_domain,
            name,
            open_registrations,
            default_license,
            keypair,
        ) {
            Ok(new) => Instance::insert(conn, new),
            Err(e) => Err(e),
        }
    }
}

} // verus!
