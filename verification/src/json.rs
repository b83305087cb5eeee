use crate::error::Error;
use vstd::prelude::*;

verus! {

/// A JSON value. The members of an object have no order.
pub enum JsonView {
    Null,
    Bool(bool),
    /// A number; which one is left open.
    Number,
    Text(Seq<char>),
    List(Seq<JsonView>),
    Object(Map<Seq<char>, JsonView>),
}

/// The value that `serde_json` reads from `text`, where it is JSON.
pub uninterp spec fn json_value(text: Seq<char>) -> Option<JsonView>;

impl JsonView {
    /// A list of texts.
    pub open spec fn texts(list: Seq<Seq<char>>) -> JsonView {
        JsonView::List(list.map_values(|text: Seq<char>| JsonView::Text(text)))
    }

    /// An activity of the given kind.
    pub open spec fn activity(
        kind: Seq<char>,
        actor: Seq<char>,
        object: JsonView,
        id: Seq<char>,
        to: Seq<Seq<char>>,
        cc: Seq<Seq<char>>,
    ) -> JsonView {
        JsonView::Object(
            map![
                "type"@ => JsonView::Text(kind),
                "actor"@ => JsonView::Text(actor),
                "object"@ => object,
                "id"@ => JsonView::Text(id),
                "to"@ => JsonView::texts(to),
                "cc"@ => JsonView::texts(cc),
            ],
        )
    }

    /// That `actor` shares `object`.
    pub open spec fn announce(
        actor: Seq<char>,
        object: Seq<char>,
        id: Seq<char>,
        to: Seq<Seq<char>>,
        cc: Seq<Seq<char>>,
    ) -> JsonView {
        JsonView::activity("Announce"@, actor, JsonView::Text(object), id, to, cc)
    }

    /// Whether the value says that an actor shares an object, and nothing else.
    pub open spec fn is_bare_announce(self) -> bool {
        exists|
            actor: Seq<char>,
            object: Seq<char>,
            id: Seq<char>,
            to: Seq<Seq<char>>,
            cc: Seq<Seq<char>>,
        | self == #[trigger] JsonView::announce(actor, object, id, to, cc)
    }

    /// An actor that is a service and of which only the id and the name are told.
    pub open spec fn service(id: Seq<char>, name: Seq<char>) -> JsonView {
        JsonView::Object(
            map![
                "type"@ => JsonView::Text("Service"@),
                "id"@ => JsonView::Text(id),
                "name"@ => JsonView::Text(name),
                "inbox"@ => JsonView::Null,
                "outbox"@ => JsonView::Null,
                "following"@ => JsonView::Null,
                "followers"@ => JsonView::Null,
                "liked"@ => JsonView::Null,
            ],
        )
    }
}

/// A JSON value whose parts, if it has any, are still in JSON.
#[derive(Debug, PartialEq, Eq)]
pub enum Json {
    Null,
    Bool(bool),
    /// A number; which one is left open.
    Number,
    Text(String),
    /// The items, each in JSON.
    List(Vec<String>),
    /// The members, each with its name and in JSON.
    Object(Vec<(String, String)>),
}

/// The members of an object, by name.
pub open spec fn by_name(members: Seq<(String, String)>) -> Map<Seq<char>, JsonView>
    decreases members.len(),
{
    if members.len() == 0 {
        Map::empty()
    } else {
        by_name(members.drop_last()).insert(
            members.last().0@,
            json_value(members.last().1@)->0,
        )
    }
}

impl Json {
    /// Whether each part is JSON, and no two members have the same name.
    pub open spec fn wf(self) -> bool {
        match self {
            Json::List(items) => forall|i: int|
                0 <= i < items@.len() ==> json_value((#[trigger] items@[i])@) is Some,
            Json::Object(members) => {
                &&& forall|i: int|
                    0 <= i < members@.len() ==> json_value((#[trigger] members@[i]).1@) is Some
                &&& forall|i: int, j: int|
                    0 <= i < j < members@.len() ==> (#[trigger] members@[i]).0@ != (
                    #[trigger] members@[j]).0@
            },
            _ => true,
        }
    }

    /// The value, with its parts.
    pub open spec fn value(self) -> JsonView {
        match self {
            Json::Null => JsonView::Null,
            Json::Bool(b) => JsonView::Bool(b),
            Json::Number => JsonView::Number,
            Json::Text(text) => JsonView::Text(text@),
            Json::List(items) => JsonView::List(
                items@.map_values(|item: String| json_value(item@)->0),
            ),
            Json::Object(members) => JsonView::Object(by_name(members@)),
        }
    }

    /// Reads `text`, where it is JSON.
    pub fn read(text: &str) -> (json: Result<Json, Error>)
        ensures
            match json {
                Ok(json) => json.wf() && json_value(text@) == Some(json.value()),
                Err(e) => json_value(text@) is None && e == Error::SerDe,
            },
    {
        match read_value(text) {
            Some(json) => Ok(json),
            None => Err(Error::SerDe),
        }
    }
}

/// Reads `text` one level deep.
///
/// Stands for `serde_json::from_str` into a `Value`. The parts of a list or an object are written
/// out again, which keeps their values: each is read back as the part that it was. The names of an
/// object's members are distinct.
#[verifier::external_body]
fn read_value(text: &str) -> (json: Option<Json>)
    ensures
        match json {
            Some(json) => json.wf() && json_value(text@) == Some(json.value()),
            None => json_value(text@) is None,
        },
{
    match serde_json::from_str::<serde_json::Value>(text).ok()? {
        serde_json::Value::Null => Some(Json::Null),
        serde_json::Value::Bool(b) => Some(Json::Bool(b)),
        serde_json::Value::Number(_) => Some(Json::Number),
        serde_json::Value::String(s) => Some(Json::Text(s)),
        serde_json::Value::Array(v) => Some(Json::List(v.iter().map(|i| i.to_string()).collect())),
        serde_json::Value::Object(m) => Some(
            Json::Object(m.iter().map(|(k, v)| (k.clone(), v.to_string())).collect()),
        ),
    }
}

} // verus!
