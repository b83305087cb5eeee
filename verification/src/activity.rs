use crate::error::Error;
use crate::iri::is_iri;
use crate::json::{json_value, JsonView};
use activitystreams::activity::ActorAndObjectRef;
use activitystreams::base::BaseExt;
use activitystreams::iri_string::types::IriString;
use activitystreams::object::ObjectExt;
use vstd::prelude::*;

verus! {

/// What each of `strings` holds.
pub open spec fn texts(strings: Seq<String>) -> Seq<Seq<char>> {
    strings.map_values(|s: String| s@)
}

/// Whether each of `list` is an IRI.
pub open spec fn all_iris(list: Seq<Seq<char>>) -> bool {
    forall|i: int| 0 <= i < list.len() ==> is_iri(#[trigger] list[i])
}

/// An announcement: `actor` shares `object`.
#[derive(Debug)]
pub struct Announce {
    pub actor: String,
    pub object: String,
    pub id: String,
    pub to: Vec<String>,
    pub cc: Vec<String>,
}

/// What an announcement says.
#[verifier::ext_equal]
pub struct AnnounceView {
    pub actor: Seq<char>,
    pub object: Seq<char>,
    pub id: Seq<char>,
    pub to: Seq<Seq<char>>,
    pub cc: Seq<Seq<char>>,
}

impl View for Announce {
    type V = AnnounceView;

    open spec fn view(&self) -> AnnounceView {
        AnnounceView {
            actor: self.actor@,
            object: self.object@,
            id: self.id@,
            to: texts(self.to@),
            cc: texts(self.cc@),
        }
    }
}

/// An announcement each of whose texts is an IRI.
#[derive(Debug)]
pub struct Announce07 {
    pub actor: String,
    pub object: String,
    pub id: String,
    pub to: Vec<String>,
    pub cc: Vec<String>,
}

impl View for Announce07 {
    type V = AnnounceView;

    open spec fn view(&self) -> AnnounceView {
        AnnounceView {
            actor: self.actor@,
            object: self.object@,
            id: self.id@,
            to: texts(self.to@),
            cc: texts(self.cc@),
        }
    }
}

/// The withdrawal of an announcement by `actor`.
#[derive(Debug)]
pub struct Undo {
    pub actor: String,
    pub object: Announce,
    pub id: String,
    pub to: Vec<String>,
    pub cc: Vec<String>,
}

/// What a withdrawal says.
#[verifier::ext_equal]
pub struct UndoView {
    pub actor: Seq<char>,
    pub object: AnnounceView,
    pub id: Seq<char>,
    pub to: Seq<Seq<char>>,
    pub cc: Seq<Seq<char>>,
}

impl View for Undo {
    type V = UndoView;

    open spec fn view(&self) -> UndoView {
        UndoView {
            actor: self.actor@,
            object: self.object@,
            id: self.id@,
            to: texts(self.to@),
            cc: texts(self.cc@),
        }
    }
}

/// A property of a received activity that should hold one text.
#[derive(Debug)]
pub enum Property {
    /// There is no such property.
    Absent,
    /// There is one, and it is not a text.
    Unreadable,
    /// The text.
    Text(String),
}

/// What a property holds.
pub enum PropertyView {
    Absent,
    Unreadable,
    Text(Seq<char>),
}

impl View for Property {
    type V = PropertyView;

    open spec fn view(&self) -> PropertyView {
        match self {
            Property::Absent => PropertyView::Absent,
            Property::Unreadable => PropertyView::Unreadable,
            Property::Text(text) => PropertyView::Text(text@),
        }
    }
}

impl Property {
    /// The text that has to be there, or the error that answers its absence.
    pub open spec fn text(self) -> Result<String, Error> {
        match self {
            Property::Absent => Err(Error::MissingApProperty),
            Property::Unreadable => Err(Error::SerDe),
            Property::Text(text) => Ok(text),
        }
    }

    /// The text that has to be there: a property that is absent is missing, one that holds no text
    /// cannot be read.
    pub fn into_text(self) -> (text: Result<String, Error>)
        ensures
            text == self.text(),
    {
        match self {
            Property::Absent => Err(Error::MissingApProperty),
            Property::Unreadable => Err(Error::SerDe),
            Property::Text(text) => Ok(text),
        }
    }

    /// An id that may be missing.
    pub open spec fn view_of_id(id: Option<Seq<char>>) -> PropertyView {
        match id {
            Some(text) => PropertyView::Text(text),
            None => PropertyView::Absent,
        }
    }

    /// An id that may be missing.
    fn from_id(id: Option<String>) -> (property: Property)
        ensures
            id is None ==> property@ == PropertyView::Absent,
            id matches Some(text) ==> property@ == PropertyView::Text(text@),
    {
        match id {
            Some(text) => Property::Text(text),
            None => Property::Absent,
        }
    }
}

/// An announcement as it came in: the properties that a reshare is made of.
#[derive(Debug)]
pub struct Received {
    pub object: Property,
    pub actor: Property,
    pub id: Property,
}

/// What came in.
pub struct ReceivedView {
    pub object: PropertyView,
    pub actor: PropertyView,
    pub id: PropertyView,
}

impl View for Received {
    type V = ReceivedView;

    open spec fn view(&self) -> ReceivedView {
        ReceivedView { object: self.object@, actor: self.actor@, id: self.id@ }
    }
}

/// The text of the JSON that `activitypub` gives an announcement.
pub uninterp spec fn announce_json(
    actor: Seq<char>,
    object: Seq<char>,
    id: Seq<char>,
    to: Seq<Seq<char>>,
    cc: Seq<Seq<char>>,
) -> Seq<char>;

/// Whether `json` is an announcement to `activitypub`.
pub uninterp spec fn is_announce(json: Seq<char>) -> bool;

/// The `object` of the announcement `json`, as `activitypub` reads it.
pub uninterp spec fn object_of(json: Seq<char>) -> PropertyView;

/// The `actor` of the announcement `json`, as `activitypub` reads it.
pub uninterp spec fn actor_of(json: Seq<char>) -> PropertyView;

/// The `id` of the announcement `json`, as `activitypub` reads it.
pub uninterp spec fn id_of(json: Seq<char>) -> PropertyView;

/// Writes an announcement as JSON.
///
/// Stands for the setters of `activitypub::activity::Announce`, each of which stores one text or
/// list of texts, and for `serde_json::to_string`. Neither fails on texts. The JSON depends on the
/// five arguments alone, and its value is an object with these and the type for its members; read
/// back, it is an announcement with the same object, actor and id.
#[verifier::external_body]
fn write_announce(
    actor: &str,
    object: &str,
    id: &str,
    to: &Vec<String>,
    cc: &Vec<String>,
) -> (json: Option<String>)
    ensures
        json is Some,
        json matches Some(text) ==> {
            &&& text@ == announce_json(actor@, object@, id@, texts(to@), texts(cc@))
            &&& json_value(text@) == Some(
                JsonView::announce(actor@, object@, id@, texts(to@), texts(cc@)),
            )
            &&& is_announce(text@)
            &&& object_of(text@) == PropertyView::Text(object@)
            &&& actor_of(text@) == PropertyView::Text(actor@)
            &&& id_of(text@) == PropertyView::Text(id@)
        },
{
    let mut act = activitypub::activity::Announce::default();
    act.announce_props.set_actor_string(actor.to_owned()).ok()?;
    act.announce_props.set_object_string(object.to_owned()).ok()?;
    act.object_props.set_id_string(id.to_owned()).ok()?;
    act.object_props.set_to_string_vec(to.clone()).ok()?;
    act.object_props.set_cc_string_vec(cc.clone()).ok()?;
    serde_json::to_string(&act).ok()
}

/// The `object` of an announcement.
///
/// Stands for `activitypub`'s reading of the JSON and its `object_string`.
#[verifier::external_body]
fn read_object(json: &str) -> (object: Option<Property>)
    ensures
        object is Some == is_announce(json@),
        object matches Some(property) ==> property@ == object_of(json@),
{
    let act: activitypub::activity::Announce = serde_json::from_str(json).ok()?;
    match act.announce_props.object_string() {
        Ok(text) => Some(Property::Text(text)),
        Err(activitypub::Error::NotFound) => Some(Property::Absent),
        Err(activitypub::Error::Serialize) => Some(Property::Unreadable),
        Err(activitypub::Error::Deserialize) => Some(Property::Unreadable),
    }
}

/// The `actor` of an announcement.
///
/// Stands for `activitypub`'s reading of the JSON and its `actor_string`.
#[verifier::external_body]
fn read_actor(json: &str) -> (actor: Option<Property>)
    ensures
        actor is Some == is_announce(json@),
        actor matches Some(property) ==> property@ == actor_of(json@),
{
    let act: activitypub::activity::Announce = serde_json::from_str(json).ok()?;
    match act.announce_props.actor_string() {
        Ok(text) => Some(Property::Text(text)),
        Err(activitypub::Error::NotFound) => Some(Property::Absent),
        Err(activitypub::Error::Serialize) => Some(Property::Unreadable),
        Err(activitypub::Error::Deserialize) => Some(Property::Unreadable),
    }
}

/// The `id` of an announcement.
///
/// Stands for `activitypub`'s reading of the JSON and its `id_string`.
#[verifier::external_body]
fn read_id(json: &str) -> (id: Option<Property>)
    ensures
        id is Some == is_announce(json@),
        id matches Some(property) ==> property@ == id_of(json@),
{
    let act: activitypub::activity::Announce = serde_json::from_str(json).ok()?;
    match act.object_props.id_string() {
        Ok(text) => Some(Property::Text(text)),
        Err(activitypub::Error::NotFound) => Some(Property::Absent),
        Err(activitypub::Error::Serialize) => Some(Property::Unreadable),
        Err(activitypub::Error::Deserialize) => Some(Property::Unreadable),
    }
}

/// The text of the JSON that `activitypub` gives the withdrawal of the announcement `object`,
/// itself in JSON.
pub uninterp spec fn undo_json(
    actor: Seq<char>,
    object: Seq<char>,
    id: Seq<char>,
    to: Seq<Seq<char>>,
    cc: Seq<Seq<char>>,
) -> Seq<char>;

/// Writes a withdrawal as JSON, around the JSON of the announcement that it withdraws.
///
/// Stands for the setters of `activitypub::activity::Undo` and for `serde_json::to_string`. They
/// fail only where `object` is no announcement. The JSON depends on the five arguments alone, and
/// its value is an object with these and the type for its members. Of the announcement, what
/// `activitypub` has no property for is lost, so this is said only of one that says nothing else.
#[verifier::external_body]
fn write_undo(
    actor: &str,
    object: &str,
    id: &str,
    to: &Vec<String>,
    cc: &Vec<String>,
) -> (json: Option<String>)
    ensures
        json is Some == is_announce(object@),
        json matches Some(text) ==> {
            &&& text@ == undo_json(actor@, object@, id@, texts(to@), texts(cc@))
            &&& json_value(object@) matches Some(announce) ==> announce.is_bare_announce()
                ==> json_value(text@) == Some(
                JsonView::activity("Undo"@, actor@, announce, id@, texts(to@), texts(cc@)),
            )
        },
{
    let announce: activitypub::activity::Announce = serde_json::from_str(object).ok()?;
    let mut act = activitypub::activity::Undo::default();
    act.undo_props.set_actor_string(actor.to_owned()).ok()?;
    act.undo_props.set_object_object(announce).ok()?;
    act.object_props.set_id_string(id.to_owned()).ok()?;
    act.object_props.set_to_string_vec(to.clone()).ok()?;
    act.object_props.set_cc_string_vec(cc.clone()).ok()?;
    serde_json::to_string(&act).ok()
}

/// The text of the JSON that `activitypub` gives a service.
pub uninterp spec fn service_json(id: Seq<char>, name: Seq<char>) -> Seq<char>;

/// Writes a service as JSON.
///
/// Stands for the setters of `activitypub::actor::Service` and for `serde_json::to_string`.
/// Neither fails on texts. The JSON depends on the two arguments alone; its value is an object with
/// these, the type, and nothing in the members that every actor has.
#[verifier::external_body]
fn write_service(id: &str, name: &str) -> (json: Option<String>)
    ensures
        json is Some,
        json matches Some(text) ==> {
            &&& text@ == service_json(id@, name@)
            &&& json_value(text@) == Some(JsonView::service(id@, name@))
        },
{
    let mut actor = activitypub::actor::Service::default();
    actor.object_props.set_id_string(id.to_owned()).ok()?;
    actor.object_props.set_name_string(name.to_owned()).ok()?;
    serde_json::to_string(&actor).ok()
}

/// The text of the JSON that `activitystreams` gives an announcement.
pub uninterp spec fn announce07_json(
    actor: Seq<char>,
    object: Seq<char>,
    id: Seq<char>,
    to: Seq<Seq<char>>,
    cc: Seq<Seq<char>>,
) -> Seq<char>;

/// Whether `json` is an announcement to `activitystreams`.
pub uninterp spec fn is_announce07(json: Seq<char>) -> bool;

/// The id of the one object of the announcement `json`, as `activitystreams` reads it.
pub uninterp spec fn object07_of(json: Seq<char>) -> Option<Seq<char>>;

/// The id of the one actor of the announcement `json`, as `activitystreams` reads it.
pub uninterp spec fn actor07_of(json: Seq<char>) -> Option<Seq<char>>;

/// The id of the announcement `json`, as `activitystreams` reads it.
pub uninterp spec fn id07_of(json: Seq<char>) -> Option<Seq<char>>;

/// Writes an announcement as JSON, where each of its texts is an IRI.
///
/// Stands for `Announce::new`, `set_id`, `set_many_tos` and `set_many_ccs` of `activitystreams`,
/// each of which stores what it is given, and for `serde_json::to_string`. They succeed where each
/// text is an IRI. The JSON depends on the five arguments alone, and its value is an object with
/// these and the type for its members; read back, it is an announcement with the same object, actor
/// and id.
#[verifier::external_body]
fn write_announce07(
    actor: &str,
    object: &str,
    id: &str,
    to: &Vec<String>,
    cc: &Vec<String>,
) -> (json: Option<String>)
    ensures
        json is Some == (is_iri(actor@) && is_iri(object@) && is_iri(id@) && all_iris(texts(to@))
            && all_iris(texts(cc@))),
        json matches Some(text) ==> {
            &&& text@ == announce07_json(actor@, object@, id@, texts(to@), texts(cc@))
            &&& json_value(text@) == Some(
                JsonView::announce(actor@, object@, id@, texts(to@), texts(cc@)),
            )
            &&& is_announce07(text@)
            &&& object07_of(text@) == Some(object@)
            &&& actor07_of(text@) == Some(actor@)
            &&& id07_of(text@) == Some(id@)
        },
{
    let actor = actor.parse::<IriString>().ok()?;
    let object = object.parse::<IriString>().ok()?;
    let to = to.iter().map(|t| t.parse::<IriString>().ok()).collect::<Option<Vec<IriString>>>()?;
    let cc = cc.iter().map(|c| c.parse::<IriString>().ok()).collect::<Option<Vec<IriString>>>()?;
    let mut act = activitystreams::activity::Announce::new(actor, object);
    act.set_id(id.parse::<IriString>().ok()?);
    act.set_many_tos(to);
    act.set_many_ccs(cc);
    serde_json::to_string(&act).ok()
}

/// The id of an announcement's one object.
///
/// Stands for `activitystreams`' reading of the JSON, and its `object_field_ref` and
/// `as_single_id`.
#[verifier::external_body]
fn read_object07(json: &str) -> (object: Option<Option<String>>)
    ensures
        object is Some == is_announce07(json@),
        object matches Some(None) ==> object07_of(json@) is None,
        object matches Some(Some(iri)) ==> object07_of(json@) == Some(iri@),
{
    let act: activitystreams::activity::Announce = serde_json::from_str(json).ok()?;
    match act.object_field_ref().as_single_id() {
        Some(iri) => Some(Some(iri.as_str().to_owned())),
        None => Some(None),
    }
}

/// The id of an announcement's one actor.
///
/// Stands for `activitystreams`' reading of the JSON, and its `actor_field_ref` and
/// `as_single_id`.
#[verifier::external_body]
fn read_actor07(json: &str) -> (actor: Option<Option<String>>)
    ensures
        actor is Some == is_announce07(json@),
        actor matches Some(None) ==> actor07_of(json@) is None,
        actor matches Some(Some(iri)) ==> actor07_of(json@) == Some(iri@),
{
    let act: activitystreams::activity::Announce = serde_json::from_str(json).ok()?;
    match act.actor_field_ref().as_single_id() {
        Some(iri) => Some(Some(iri.as_str().to_owned())),
        None => Some(None),
    }
}

/// The id of an announcement.
///
/// Stands for `activitystreams`' reading of the JSON, and its `id_unchecked`.
#[verifier::external_body]
fn read_id07(json: &str) -> (id: Option<Option<String>>)
    ensures
        id is Some == is_announce07(json@),
        id matches Some(None) ==> id07_of(json@) is None,
        id matches Some(Some(iri)) ==> id07_of(json@) == Some(iri@),
{
    let act: activitystreams::activity::Announce = serde_json::from_str(json).ok()?;
    match act.id_unchecked() {
        Some(iri) => Some(Some(iri.as_str().to_owned())),
        None => Some(None),
    }
}

impl Received {
    /// What the announcement `json` says, as `activitypub` reads it.
    pub open spec fn spec_announce(json: Seq<char>) -> ReceivedView {
        ReceivedView { object: object_of(json), actor: actor_of(json), id: id_of(json) }
    }

    /// What the announcement `json` says, as `activitystreams` reads it.
    pub open spec fn spec_announce07(json: Seq<char>) -> ReceivedView {
        ReceivedView {
            object: Property::view_of_id(object07_of(json)),
            actor: Property::view_of_id(actor07_of(json)),
            id: Property::view_of_id(id07_of(json)),
        }
    }

    /// Reads an announcement with `activitypub`.
    pub fn announce(json: &str) -> (received: Result<Received, Error>)
        ensures
            match received {
                Ok(r) => is_announce(json@) && r@ == Received::spec_announce(json@),
                Err(e) => !is_announce(json@) && e == Error::SerDe,
            },
    {
        match (read_object(json), read_actor(json), read_id(json)) {
            (Some(object), Some(actor), Some(id)) => Ok(Received { object, actor, id }),
            _ => Err(Error::SerDe),
        }
    }

    /// Reads an announcement with `activitystreams`.
    pub fn announce07(json: &str) -> (received: Result<Received, Error>)
        ensures
            match received {
                Ok(r) => is_announce07(json@) && r@ == Received::spec_announce07(json@),
                Err(e) => !is_announce07(json@) && e == Error::SerDe,
            },
    {
        match (read_object07(json), read_actor07(json), read_id07(json)) {
            (Some(object), Some(actor), Some(id)) => Ok(
                Received {
                    object: Property::from_id(object),
                    actor: Property::from_id(actor),
                    id: Property::from_id(id),
                },
            ),
            _ => Err(Error::SerDe),
        }
    }
}

impl AnnounceView {
    /// The announcement in the JSON of `activitypub`.
    pub open spec fn json(self) -> Seq<char> {
        announce_json(self.actor, self.object, self.id, self.to, self.cc)
    }

    /// The announcement in the JSON of `activitystreams`.
    pub open spec fn json07(self) -> Seq<char> {
        announce07_json(self.actor, self.object, self.id, self.to, self.cc)
    }

    /// The JSON value that the announcement is in either format.
    pub open spec fn value(self) -> JsonView {
        JsonView::announce(self.actor, self.object, self.id, self.to, self.cc)
    }

    /// Whether each text of the announcement is an IRI.
    pub open spec fn in_iris(self) -> bool {
        &&& is_iri(self.actor)
        &&& is_iri(self.object)
        &&& is_iri(self.id)
        &&& all_iris(self.to)
        &&& all_iris(self.cc)
    }

    /// What a reader of the announcement finds in it.
    pub open spec fn received(self) -> ReceivedView {
        ReceivedView {
            object: PropertyView::Text(self.object),
            actor: PropertyView::Text(self.actor),
            id: PropertyView::Text(self.id),
        }
    }
}

impl Announce {
    /// The announcement as JSON; who reads it finds in it what was announced.
    pub fn to_json(&self) -> (json: Result<String, Error>)
        ensures
            match json {
                Ok(text) => {
                    &&& text@ == self@.json()
                    &&& json_value(text@) == Some(self@.value())
                    &&& is_announce(text@)
                    &&& Received::spec_announce(text@) == self@.received()
                },
                Err(_) => false,
            },
    {
        match write_announce(&self.actor, &self.object, &self.id, &self.to, &self.cc) {
            Some(json) => Ok(json),
            None => Err(Error::SerDe),
        }
    }
}

impl Announce07 {
    /// The announcement as JSON, where each of its texts is an IRI; who reads it finds in it what
    /// was announced.
    pub fn to_json(&self) -> (json: Result<String, Error>)
        ensures
            match json {
                Ok(text) => {
                    &&& self@.in_iris()
                    &&& text@ == self@.json07()
                    &&& json_value(text@) == Some(self@.value())
                    &&& is_announce07(text@)
                    &&& Received::spec_announce07(text@) == self@.received()
                },
                Err(e) => !self@.in_iris() && e == Error::Url,
            },
    {
        match write_announce07(&self.actor, &self.object, &self.id, &self.to, &self.cc) {
            Some(json) => Ok(json),
            None => Err(Error::Url),
        }
    }
}

impl UndoView {
    /// The withdrawal in the JSON of `activitypub`.
    pub open spec fn json(self) -> Seq<char> {
        undo_json(self.actor, self.object.json(), self.id, self.to, self.cc)
    }

    /// The JSON value that the withdrawal is.
    pub open spec fn value(self) -> JsonView {
        JsonView::activity(
            "Undo"@,
            self.actor,
            self.object.value(),
            self.id,
            self.to,
            self.cc,
        )
    }
}

impl Undo {
    /// The withdrawal as JSON.
    pub fn to_json(&self) -> (json: Result<String, Error>)
        ensures
            json matches Ok(text) && text@ == self@.json() && json_value(text@) == Some(
                self@.value(),
            ),
    {
        match self.object.to_json() {
            Ok(object) => match write_undo(&self.actor, &object, &self.id, &self.to, &self.cc) {
                Some(json) => Ok(json),
                None => Err(Error::SerDe),
            },
            Err(e) => Err(e),
        }
    }
}

/// The key that others check an actor's signatures with.
#[derive(Debug)]
pub struct PublicKey {
    pub id: String,
    pub owner: String,
    pub public_key_pem: String,
}

/// What is published of a key.
#[verifier::ext_equal]
pub struct PublicKeyView {
    pub id: Seq<char>,
    pub owner: Seq<char>,
    pub public_key_pem: Seq<char>,
}

impl View for PublicKey {
    type V = PublicKeyView;

    open spec fn view(&self) -> PublicKeyView {
        PublicKeyView {
            id: self.id@,
            owner: self.owner@,
            public_key_pem: self.public_key_pem@,
        }
    }
}

/// The actor that stands for an instance, with its key where it signs.
#[derive(Debug)]
pub struct CustomService {
    pub id: String,
    pub name: String,
    pub public_key: Option<PublicKey>,
}

/// What is published of an instance.
#[verifier::ext_equal]
pub struct CustomServiceView {
    pub id: Seq<char>,
    pub name: Seq<char>,
    pub public_key: Option<PublicKeyView>,
}

impl View for CustomService {
    type V = CustomServiceView;

    open spec fn view(&self) -> CustomServiceView {
        CustomServiceView {
            id: self.id@,
            name: self.name@,
            public_key: match self.public_key {
                Some(key) => Some(key@),
                None => None,
            },
        }
    }
}

impl CustomService {
    /// The actor as JSON, without its key.
    pub fn service_json(&self) -> (json: Result<String, Error>)
        ensures
            json matches Ok(text) && text@ == service_json(self.id@, self.name@) && json_value(
                text@,
            ) == Some(JsonView::service(self.id@, self.name@)),
    {
        match write_service(&self.id, &self.name) {
            Some(json) => Ok(json),
            None => Err(Error::SerDe),
        }
    }
}

} // verus!
