//! What holds of instances over several calls.
use crate::connection::Tables;
use crate::error::{DbError, Error};
use crate::instance::{
    administers, changed, domain_is, local_is, ByDomain, Instance, InstanceChange, Keypair,
    LocalInstance, NewInstance,
};
use crate::query::{
    filter_is_within, filter_push, first_row, is_ordered, is_total,
    is_transitive, key_is, keys_distinct, last_key, next_key_is_fresh, sorted, sorted_is_ordered,
    window, with_key, NegativeBound, Row, SortOrder,
};
use crate::text::{spec_ap_url, text_le_total, text_le_transitive};
use crate::themes::{holds_theme, theme_name, theme_names, DirEntry};
use crate::users::Role;
use vstd::prelude::*;

verus! {

/// A query that looks at nothing that a change touches finds the changed rows.
proof fn change_commutes(
    rows: Seq<Instance>,
    id: i32,
    change: InstanceChange,
    keep: spec_fn(Instance) -> bool,
)
    requires
        forall|row: Instance| keep(#[trigger] change.applied(row)) == keep(row),
    ensures
        rows.map_values(changed(id, change)).filter(keep) == rows.filter(keep).map_values(
            changed(id, change),
        ),
    decreases rows.len(),
{
    reveal(Seq::filter);
    let f = changed(id, change);
    if rows.len() > 0 {
        let front = rows.drop_last();
        change_commutes(front, id, change, keep);
        assert(rows.map_values(f).drop_last() =~= front.map_values(f));
        assert(rows.map_values(f).filter(keep) =~= rows.filter(keep).map_values(f));
    } else {
        assert(rows.map_values(f).filter(keep) =~= rows.filter(keep).map_values(f));
    }
}

/// What a lookup by number finds after a change: the changed row under the number that was
/// changed, and what was there before under every other.
pub proof fn change_is_found(tables: Tables, id: i32, change: InstanceChange, asked: i32)
    ensures
        first_row(with_key(tables.with_change(id, change).instances, asked)) == match first_row(
            with_key(tables.instances, asked),
        ) {
            Ok(row) => Ok::<Instance, Error>(
                if asked == id {
                    change.applied(row)
                } else {
                    row
                },
            ),
            Err(e) => Err(e),
        },
{
    change_commutes(tables.instances, id, change, key_is::<Instance>(asked));
    let found = with_key(tables.instances, asked);
    if found.len() > 0 {
        filter_is_within(tables.instances, key_is::<Instance>(asked), 0);
    }
}

/// A change touches the table of instances alone, adds no row and takes none.
pub proof fn change_keeps_the_rest(tables: Tables, id: i32, change: InstanceChange)
    ensures
        tables.with_change(id, change).instances.len() == tables.instances.len(),
        tables.with_change(id, change) == (Tables {
            instances: tables.with_change(id, change).instances,
            ..tables
        }),
        tables.wf() ==> tables.with_change(id, change).wf(),
{
    let after = tables.with_change(id, change).instances;
    if keys_distinct(tables.instances) {
        assert forall|i: int, j: int| 0 <= i < j < after.len() implies #[trigger] after[i].key()
            != #[trigger] after[j].key() by {
            assert(tables.instances[i].key() != tables.instances[j].key());
        }
    }
}

/// Blocking what was open and then opening what is blocked, or the other way round, each time with
/// the row as it was last read, leaves everything as it was.
pub proof fn toggling_twice_restores(tables: Tables, instance: Instance)
    requires
        tables.wf(),
        first_row(with_key(tables.instances, instance.id)) == Ok::<Instance, Error>(instance),
    ensures
        ({
            let once = tables.with_change(
                instance.id,
                InstanceChange::Blocked(!instance.blocked),
            );
            match first_row(with_key(once.instances, instance.id)) {
                Ok(read) => {
                    &&& read.blocked == !instance.blocked
                    &&& once.with_change(read.id, InstanceChange::Blocked(!read.blocked)) == tables
                },
                Err(_) => false,
            }
        }),
{
    let change = InstanceChange::Blocked(!instance.blocked);
    let once = tables.with_change(instance.id, change);
    change_is_found(tables, instance.id, change, instance.id);
    let twice = once.with_change(instance.id, InstanceChange::Blocked(instance.blocked));
    filter_is_within(tables.instances, key_is::<Instance>(instance.id), 0);
    let at = choose|k: int| 0 <= k < tables.instances.len() && tables.instances[k] == instance;
    assert forall|i: int| 0 <= i < tables.instances.len() implies twice.instances[i]
        == tables.instances[i] by {
        if i < at {
            assert(tables.instances[i].key() != tables.instances[at].key());
        } else if at < i {
            assert(tables.instances[at].key() != tables.instances[i].key());
        }
    }
    assert(twice.instances =~= tables.instances);
}

/// Once an instance is blocked, every identifier that belongs to it is.
pub proof fn blocking_bars(tables: Tables, instance: Instance, ap_id: Seq<char>)
    requires
        first_row(with_key(tables.instances, instance.id)) == Ok::<Instance, Error>(instance),
        instance.spec_root().is_prefix_of(ap_id),
    ensures
        tables.with_change(instance.id, InstanceChange::Blocked(true)).bar(ap_id),
{
    filter_is_within(tables.instances, key_is::<Instance>(instance.id), 0);
    let at = choose|k: int| 0 <= k < tables.instances.len() && tables.instances[k] == instance;
    let after = tables.with_change(instance.id, InstanceChange::Blocked(true));
    assert(after.instances[at].bars(ap_id));
}

/// Once an instance is open, an identifier is blocked only if another instance bars it.
pub proof fn opening_unbars(tables: Tables, id: i32, ap_id: Seq<char>)
    ensures
        tables.with_change(id, InstanceChange::Blocked(false)).bar(ap_id) <==> exists|i: int|
            0 <= i < tables.instances.len() && tables.instances[i].id != id
                && #[trigger] tables.instances[i].bars(ap_id),
{
    let after = tables.with_change(id, InstanceChange::Blocked(false));
    if after.bar(ap_id) {
        let i = choose|i: int|
            0 <= i < after.instances.len() && #[trigger] after.instances[i].bars(ap_id);
        assert(tables.instances[i].bars(ap_id));
    }
    if exists|i: int|
        0 <= i < tables.instances.len() && tables.instances[i].id != id
            && #[trigger] tables.instances[i].bars(ap_id) {
        let i = choose|i: int|
            0 <= i < tables.instances.len() && tables.instances[i].id != id
                && #[trigger] tables.instances[i].bars(ap_id);
        assert(after.instances[i].bars(ap_id));
    }
}

/// Blocking or opening an instance makes no difference to what does not belong to it.
pub proof fn toggling_spares_others(
    tables: Tables,
    instance: Instance,
    blocked: bool,
    ap_id: Seq<char>,
)
    requires
        tables.wf(),
        first_row(with_key(tables.instances, instance.id)) == Ok::<Instance, Error>(instance),
        !instance.spec_root().is_prefix_of(ap_id),
    ensures
        tables.with_change(instance.id, InstanceChange::Blocked(blocked)).bar(ap_id) == tables.bar(
            ap_id,
        ),
{
    filter_is_within(tables.instances, key_is::<Instance>(instance.id), 0);
    let at = choose|k: int| 0 <= k < tables.instances.len() && tables.instances[k] == instance;
    let after = tables.with_change(instance.id, InstanceChange::Blocked(blocked));
    assert forall|i: int| 0 <= i < tables.instances.len() implies (
    #[trigger] after.instances[i]).bars(ap_id) == tables.instances[i].bars(ap_id) by {
        if i < at {
            assert(tables.instances[i].key() != tables.instances[at].key());
        } else if at < i {
            assert(tables.instances[at].key() != tables.instances[i].key());
        }
    }
    if tables.bar(ap_id) {
        let i = choose|i: int|
            0 <= i < tables.instances.len() && #[trigger] tables.instances[i].bars(ap_id);
        assert(after.instances[i].bars(ap_id));
    }
    if after.bar(ap_id) {
        let i = choose|i: int|
            0 <= i < after.instances.len() && #[trigger] after.instances[i].bars(ap_id);
        assert(tables.instances[i].bars(ap_id));
    }
}

/// An instance bars what is at its own domain and nothing at another, such as one that only begins
/// with the same letters.
pub proof fn bars_own_domain_only(instance: Instance, domain: Seq<char>, path: Seq<char>)
    requires
        !instance.public_domain@.contains('/'),
        !domain.contains('/'),
    ensures
        instance.bars("https://"@ + domain + "/"@ + path) <==> instance.blocked
            && instance.public_domain@ == domain,
{
    reveal_strlit("/");
    let own = instance.public_domain@;
    let scheme = "https://"@;
    let root = instance.spec_root();
    let url = scheme + domain + "/"@ + path;
    if own == domain {
        assert(root =~= url.subrange(0, root.len() as int));
    } else if root.is_prefix_of(url) {
        assert forall|i: int| 0 <= i < root.len() implies root[i] == url[i] by {
            assert(url.subrange(0, root.len() as int)[i] == url[i]);
        }
        if own.len() < domain.len() {
            assert(root[(scheme.len() + own.len()) as int] == '/');
            assert(domain[own.len() as int] == '/');
        } else if domain.len() < own.len() {
            assert(url[(scheme.len() + domain.len()) as int] == '/');
            assert(own[domain.len() as int] == root[(scheme.len() + domain.len()) as int]);
            assert(own[domain.len() as int] == '/');
        } else {
            assert forall|i: int| 0 <= i < own.len() implies own[i] == domain[i] by {
                assert(root[scheme.len() + i] == url[scheme.len() + i]);
            }
            assert(own =~= domain);
        }
    }
}

/// The addresses that an instance gives its boxes belong to it, so blocking it blocks them.
pub proof fn boxes_belong(
    instance: Instance,
    prefix: Seq<char>,
    name: Seq<char>,
    box_name: Seq<char>,
)
    ensures
        instance.spec_root().is_prefix_of(
            spec_ap_url(
                instance.public_domain@ + "/"@ + prefix + "/"@ + name + "/"@ + box_name,
            ),
        ),
{
    let url = spec_ap_url(instance.public_domain@ + "/"@ + prefix + "/"@ + name + "/"@ + box_name);
    let root = instance.spec_root();
    assert(root =~= url.subrange(0, root.len() as int));
}

/// A query and its opposite share the table out between them.
proof fn filter_splits<R>(rows: Seq<R>, keep: spec_fn(R) -> bool, others: spec_fn(R) -> bool)
    requires
        forall|row: R| #[trigger] keep(row) == !others(row),
    ensures
        rows.filter(keep).to_multiset().add(rows.filter(others).to_multiset())
            == rows.to_multiset(),
        rows.filter(keep).len() + rows.filter(others).len() == rows.len(),
    decreases rows.len(),
{
    broadcast use vstd::seq_lib::group_to_multiset_ensures;

    reveal(Seq::filter);
    if rows.len() > 0 {
        let front = rows.drop_last();
        filter_splits(front, keep, others);
        assert(rows =~= front.push(rows.last()));
        assert(rows.filter(keep).to_multiset().add(rows.filter(others).to_multiset())
            =~= rows.to_multiset());
    } else {
        assert(rows.filter(keep).to_multiset().add(rows.filter(others).to_multiset())
            =~= rows.to_multiset());
    }
}

/// Every instance is among the local ones or among the others, and none is among both.
pub proof fn locals_and_remotes(tables: Tables)
    ensures
        tables.instances.filter(local_is(true)).to_multiset().add(
            tables.instances.filter(local_is(false)).to_multiset(),
        ) == tables.instances.to_multiset(),
        tables.instances.filter(local_is(true)).len() + tables.instances.filter(
            local_is(false),
        ).len() == tables.instances.len(),
        forall|i: int|
            0 <= i < tables.instances.filter(local_is(true)).len()
                ==> (#[trigger] tables.instances.filter(local_is(true))[i]).local,
        forall|i: int|
            0 <= i < tables.instances.filter(local_is(false)).len()
                ==> !(#[trigger] tables.instances.filter(local_is(false))[i]).local,
{
    filter_splits(tables.instances, local_is(true), local_is(false));
    assert forall|i: int| 0 <= i < tables.instances.filter(local_is(true)).len() implies (
    #[trigger] tables.instances.filter(local_is(true))[i]).local by {
        filter_is_within(tables.instances, local_is(true), i);
    }
    assert forall|i: int| 0 <= i < tables.instances.filter(local_is(false)).len() implies !(
    #[trigger] tables.instances.filter(local_is(false))[i]).local by {
        filter_is_within(tables.instances, local_is(false), i);
    }
}

/// Every two instances compare by domain, and the order carries over.
proof fn by_domain_is_an_order()
    ensures
        is_total::<Instance, ByDomain>(ByDomain),
        is_transitive::<Instance, ByDomain>(ByDomain),
{
    assert forall|a: Instance, b: Instance| #[trigger] ByDomain.le(a, b) || ByDomain.le(b, a) by {
        text_le_total(a.public_domain@, b.public_domain@);
    }
    assert forall|a: Instance, b: Instance, c: Instance| #[trigger]
        ByDomain.le(a, b) && #[trigger] ByDomain.le(b, c) implies ByDomain.le(a, c) by {
        text_le_transitive(a.public_domain@, b.public_domain@, c.public_domain@);
    }
}

/// A page is in the order of the domains and holds only instances of the table, whatever was asked
/// for. It is as long as asked for unless the instances run out.
pub proof fn page_is_in_order(tables: Tables, min: int, max: int)
    ensures
        tables.page(min, max) matches Ok(page) ==> {
            &&& is_ordered(ByDomain, page)
            &&& forall|i: int|
                0 <= i < page.len() ==> tables.instances.contains(#[trigger] page[i])
        },
        0 <= min <= max ==> match tables.page(min, max) {
            Ok(page) => page.len() == if max <= tables.instances.len() {
                max - min
            } else if min <= tables.instances.len() {
                tables.instances.len() - min
            } else {
                0
            },
            Err(_) => false,
        },
{
    broadcast use vstd::seq_lib::group_to_multiset_ensures;

    by_domain_is_an_order();
    sorted_is_ordered(ByDomain, tables.instances);
    let rows = sorted(ByDomain, tables.instances);
    if let Ok(page) = tables.page(min, max) {
        assert forall|i: int| 0 <= i < page.len() implies tables.instances.contains(
            #[trigger] page[i],
        ) by {
            assert(rows.contains(page[i]));
            assert(rows.to_multiset().count(page[i]) > 0);
        }
    }
}

/// A page is refused if and only if a bound is negative and the database refuses such bounds.
pub proof fn page_is_refused(tables: Tables, min: int, max: int)
    ensures
        tables.page(min, max) is Err <==> tables.negative == NegativeBound::Refused && !(0 <= min
            <= max),
        tables.page(min, max) matches Err(e) ==> e == Error::Db(DbError::Query),
{
}

/// Pages that border on each other make one page.
pub proof fn pages_join(tables: Tables, min: int, middle: int, max: int)
    requires
        0 <= min <= middle <= max,
    ensures
        match (tables.page(min, middle), tables.page(middle, max)) {
            (Ok(first), Ok(second)) => tables.page(min, max) == Ok::<Seq<Instance>, Error>(
                first + second,
            ),
            _ => false,
        },
{
    let rows = sorted(ByDomain, tables.instances);
    assert(window(rows, min, middle - min) + window(rows, middle, max - middle) =~= window(
        rows,
        min,
        max - min,
    ));
}

/// One page that is long enough holds every instance, each as often as the table.
pub proof fn whole_page(tables: Tables, max: int)
    requires
        max >= tables.instances.len(),
    ensures
        match tables.page(0, max) {
            Ok(page) => page.to_multiset() == tables.instances.to_multiset(),
            Err(_) => false,
        },
{
    by_domain_is_an_order();
    sorted_is_ordered(ByDomain, tables.instances);
    let rows = sorted(ByDomain, tables.instances);
    assert(window(rows, 0, max) =~= rows);
}

/// A fresh instance is found under its number and, where no other is at its domain, by domain.
/// Nothing else changes: the others stay, and nothing more is blocked.
pub proof fn insert_is_found(tables: Tables, new: NewInstance, row: Instance)
    requires
        last_key(tables.instances) < i32::MAX,
        row.is_row_of(new, (last_key(tables.instances) + 1) as i32, tables.now),
    ensures
        ({
            let after = Tables { instances: tables.instances.push(row), ..tables };
            &&& tables.wf() ==> after.wf()
            &&& first_row(with_key(after.instances, row.id)) == Ok::<Instance, Error>(row)
            &&& forall|id: i32|
                id != row.id ==> #[trigger] with_key(after.instances, id) == with_key(
                    tables.instances,
                    id,
                )
            &&& tables.instances.filter(domain_is(new.public_domain@)).len() == 0 ==> first_row(
                after.instances.filter(domain_is(new.public_domain@)),
            ) == Ok::<Instance, Error>(row)
            &&& after.instances.len() == tables.instances.len() + 1
            &&& forall|ap_id: Seq<char>| #[trigger] after.bar(ap_id) == tables.bar(ap_id)
        }),
{
    let after = Tables { instances: tables.instances.push(row), ..tables };
    next_key_is_fresh(tables.instances, row);
    filter_push(tables.instances, row, key_is::<Instance>(row.id));
    filter_push(tables.instances, row, domain_is(new.public_domain@));
    assert forall|id: i32| id != row.id implies #[trigger] with_key(after.instances, id)
        == with_key(tables.instances, id) by {
        filter_push(tables.instances, row, key_is::<Instance>(id));
    }
    assert forall|ap_id: Seq<char>| #[trigger] after.bar(ap_id) == tables.bar(ap_id) by {
        if after.bar(ap_id) {
            let i = choose|i: int|
                0 <= i < after.instances.len() && #[trigger] after.instances[i].bars(ap_id);
            assert(tables.instances[i].bars(ap_id));
        }
        if tables.bar(ap_id) {
            let i = choose|i: int|
                0 <= i < tables.instances.len() && #[trigger] tables.instances[i].bars(ap_id);
            assert(after.instances[i].bars(ap_id));
        }
    }
}

/// The instance that was put at hand is the one that is at hand.
pub proof fn kept_at_hand(cache: LocalInstance, instance: Instance)
    requires
        cache.cached == Some(instance),
    ensures
        cache.local() == Ok::<Instance, Error>(instance),
{
}

/// What is at hand after the local instance was looked up is what the lookup found.
pub proof fn lookup_is_at_hand(tables: Tables, cache: LocalInstance)
    requires
        cache.cached == first_row(tables.instances.filter(local_is(true))).ok(),
    ensures
        cache.local() == match first_row(tables.instances.filter(local_is(true))) {
            Ok(instance) => Ok::<Instance, Error>(instance),
            Err(_) => Err(Error::NotFound),
        },
{
}

/// After the local instance was changed, what is looked up for keeping at hand is the changed row.
pub proof fn change_renews_local(tables: Tables, instance: Instance, change: InstanceChange)
    requires
        first_row(tables.instances.filter(local_is(true))) == Ok::<Instance, Error>(instance),
    ensures
        first_row(tables.with_change(instance.id, change).instances.filter(local_is(true))) == Ok::<
            Instance,
            Error,
        >(change.applied(instance)),
{
    change_commutes(tables.instances, instance.id, change, local_is(true));
}

/// Where there was no local instance, the one that is set up is the one that is found, open and
/// with its keys.
pub proof fn new_local_is_found(
    tables: Tables,
    public_domain: String,
    name: String,
    open_registrations: bool,
    default_license: String,
    keypair: Keypair,
    new: NewInstance,
    row: Instance,
)
    requires
        new.is_fresh_local(public_domain, name, open_registrations, default_license, keypair),
        row.is_row_of(new, (last_key(tables.instances) + 1) as i32, tables.now),
        tables.instances.filter(local_is(true)).len() == 0,
    ensures
        first_row(tables.instances.push(row).filter(local_is(true))) == Ok::<Instance, Error>(row),
        row.local,
        !row.blocked,
        row.private_key is Some,
        row.public_key is Some,
{
    filter_push(tables.instances, row, local_is(true));
}

/// An instance has an administrator if and only if its main administrator can be found, and that
/// one administers it.
pub proof fn administrators(tables: Tables, instance: Instance)
    ensures
        (tables.users.filter(administers(instance.id)).len() > 0) == (first_row(
            tables.users.filter(administers(instance.id)),
        ) is Ok),
        first_row(tables.users.filter(administers(instance.id))) matches Ok(admin) ==> {
            &&& tables.users.contains(admin)
            &&& admin.instance_id == instance.id
            &&& admin.role == Role::Admin.spec_code()
        },
{
    if tables.users.filter(administers(instance.id)).len() > 0 {
        filter_is_within(tables.users, administers(instance.id), 0);
    }
}

/// An instance publishes a key if and only if it is local and has one; the key is its own, and is
/// owned by the actor that it is published with.
pub proof fn only_local_publishes(instance: Instance, local_domain: Seq<char>)
    ensures
        ({
            let actor = instance.activity_view(local_domain);
            &&& actor.public_key is Some <==> instance.local && instance.public_key is Some
            &&& actor.public_key matches Some(key) ==> {
                &&& key.owner == actor.id
                &&& key.id == actor.id + "#main-key"@
                &&& key.public_key_pem == instance.public_key->0@
            }
        }),
{
}

/// The key that a local instance is given is the one that it publishes.
pub proof fn new_key_is_published(
    tables: Tables,
    instance: Instance,
    private_key: String,
    public_key: String,
    local_domain: Seq<char>,
)
    requires
        first_row(with_key(tables.instances, instance.id)) == Ok::<Instance, Error>(instance),
        instance.local,
    ensures
        ({
            let change = InstanceChange::Keypair { private_key, public_key };
            let after = tables.with_change(instance.id, change);
            match first_row(with_key(after.instances, instance.id)) {
                Ok(read) => {
                    &&& read.private_key == Some(private_key)
                    &&& read.activity_view(local_domain).public_key matches Some(key)
                    &&& key.public_key_pem == public_key@
                },
                Err(_) => false,
            }
        }),
{
    change_is_found(
        tables,
        instance.id,
        InstanceChange::Keypair { private_key, public_key },
        instance.id,
    );
}

/// Of an entry that could be read, or not: it is a directory with a text for its name and a
/// `theme.css` in it.
pub open spec fn holds_any_theme() -> spec_fn(Option<DirEntry>) -> bool {
    |entry: Option<DirEntry>|
        entry matches Some(e) && e.is_dir == Some(true) && e.has_theme_css && e.name is Some
}

/// Every theme is one of the instance themes or one of the blog themes: what begins with `blog-`
/// is in the second list and nothing else is.
pub proof fn themes_are_shared_out(entries: Seq<Option<DirEntry>>)
    ensures
        (theme_names(entries, false) + theme_names(entries, true)).to_multiset() == entries.filter(
            holds_any_theme(),
        ).map_values(theme_name()).to_multiset(),
        forall|i: int|
            0 <= i < theme_names(entries, false).len() ==> !"blog-"@.is_prefix_of(
                (#[trigger] theme_names(entries, false)[i])@,
            ),
        forall|i: int|
            0 <= i < theme_names(entries, true).len() ==> "blog-"@.is_prefix_of(
                (#[trigger] theme_names(entries, true)[i])@,
            ),
{
    themes_add_up(entries);
    vstd::seq_lib::lemma_multiset_commutative(
        theme_names(entries, false),
        theme_names(entries, true),
    );
    assert forall|i: int| 0 <= i < theme_names(entries, false).len() implies !"blog-"@.is_prefix_of(
        (#[trigger] theme_names(entries, false)[i])@,
    ) by {
        filter_is_within(entries, holds_theme(false), i);
    }
    assert forall|i: int| 0 <= i < theme_names(entries, true).len() implies "blog-"@.is_prefix_of(
        (#[trigger] theme_names(entries, true)[i])@,
    ) by {
        filter_is_within(entries, holds_theme(true), i);
    }
}

/// The themes of both kinds are the themes, each as often as there.
proof fn themes_add_up(entries: Seq<Option<DirEntry>>)
    ensures
        theme_names(entries, false).to_multiset().add(theme_names(entries, true).to_multiset())
            == entries.filter(holds_any_theme()).map_values(theme_name()).to_multiset(),
    decreases entries.len(),
{
    broadcast use vstd::seq_lib::group_to_multiset_ensures;

    let all = entries.filter(holds_any_theme()).map_values(theme_name());
    reveal(Seq::filter);
    if entries.len() > 0 {
        let front = entries.drop_last();
        let entry = entries.last();
        let known = front.filter(holds_any_theme()).map_values(theme_name());
        themes_add_up(front);
        if holds_any_theme()(entry) {
            let name = theme_name()(entry);
            let blog = "blog-"@.is_prefix_of(name@);
            assert(holds_theme(blog)(entry) && !holds_theme(!blog)(entry));
            assert(theme_names(entries, blog) =~= theme_names(front, blog).push(name));
            assert(all =~= known.push(name));
        }
    } else {
        assert(theme_names(entries, false) =~= Seq::<String>::empty());
        assert(theme_names(entries, true) =~= Seq::<String>::empty());
        assert(all =~= Seq::<String>::empty());
    }
    assert(theme_names(entries, false).to_multiset().add(theme_names(entries, true).to_multiset())
        =~= all.to_multiset());
}

} // verus!
