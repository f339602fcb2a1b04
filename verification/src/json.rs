//! JSON values: the library's own type, its mathematical model, and the calls into `serde_json`.

use vstd::prelude::*;

use crate::text::str_eq;

verus! {

/// A JSON value as a mathematical object.
///
/// An object is a map: its keys have no order and none occurs twice. A number that is not
/// an integer from 0 to `u64::MAX` is known by the text it prints as.
pub enum JsonView {
    Null,
    Bool(bool),
    Unsigned(u64),
    OtherNumber(Seq<char>),
    String(Seq<char>),
    Array(Seq<JsonView>),
    Object(Map<Seq<char>, JsonView>),
}

impl JsonView {
    /// The member of an object under `key`; nothing for any other value.
    pub open spec fn field(self, key: Seq<char>) -> Option<JsonView> {
        match self {
            JsonView::Object(members) => if members.dom().contains(key) {
                Some(members[key])
            } else {
                None
            },
            _ => None,
        }
    }

    /// The number, where the value is an integer from 0 to `u64::MAX`.
    pub open spec fn unsigned(self) -> Option<u64> {
        match self {
            JsonView::Unsigned(n) => Some(n),
            _ => None,
        }
    }

    /// The characters, where the value is a string.
    pub open spec fn string(self) -> Option<Seq<char>> {
        match self {
            JsonView::String(s) => Some(s),
            _ => None,
        }
    }

    /// The elements, where the value is an array.
    pub open spec fn array(self) -> Option<Seq<JsonView>> {
        match self {
            JsonView::Array(items) => Some(items),
            _ => None,
        }
    }

    /// The unsigned integer under `key`.
    pub open spec fn unsigned_field(self, key: Seq<char>) -> Option<u64> {
        match self.field(key) {
            Some(value) => value.unsigned(),
            None => None,
        }
    }

    /// The string under `key`.
    pub open spec fn string_field(self, key: Seq<char>) -> Option<Seq<char>> {
        match self.field(key) {
            Some(value) => value.string(),
            None => None,
        }
    }

    /// The elements of the array under `key`.
    pub open spec fn array_field(self, key: Seq<char>) -> Option<Seq<JsonView>> {
        match self.field(key) {
            Some(value) => value.array(),
            None => None,
        }
    }
}

/// The map that a list of entries makes when they are inserted one after the other:
/// of two entries with one key the later one stays.
pub open spec fn entries_map(entries: Seq<(Seq<char>, JsonView)>) -> Map<Seq<char>, JsonView>
    decreases entries.len(),
{
    if entries.len() == 0 {
        Map::empty()
    } else {
        entries_map(entries.drop_last()).insert(entries.last().0, entries.last().1)
    }
}

/// `serde_json::Value`, opaque.
#[verifier::external_type_specification]
#[verifier::external_body]
pub struct ExValue(serde_json::Value);

/// The JSON value that a `serde_json::Value` holds.
pub uninterp spec fn value_model(value: serde_json::Value) -> JsonView;

/// What `serde_json::from_str` makes of a text: the value, or the words of its error.
pub uninterp spec fn parsed_json(text: Seq<char>) -> Result<JsonView, Seq<char>>;

/// The text that `serde_json` prints for a value; the members of an object stand in the order of
/// their keys.
pub uninterp spec fn json_text(value: JsonView) -> Seq<char>;

/// `serde_json::Map`, opaque.
#[verifier::external_type_specification]
#[verifier::external_body]
#[verifier::reject_recursive_types(K)]
#[verifier::reject_recursive_types(V)]
pub struct ExMap<K, V>(serde_json::Map<K, V>);

/// The members that a `serde_json::Map` holds.
pub uninterp spec fn map_model(
    map: serde_json::Map<String, serde_json::Value>,
) -> Map<Seq<char>, JsonView>;

/// No members at all.
pub open spec fn no_members() -> Map<Seq<char>, JsonView> {
    Map::empty()
}

/// The outermost layer of a `serde_json::Value`.
enum Node {
    Null,
    Bool(bool),
    Number(serde_json::Value),
    String(String),
    Array(Vec<serde_json::Value>),
    Object(serde_json::Map<String, serde_json::Value>),
}

spec fn value_models(values: Seq<serde_json::Value>) -> Seq<JsonView> {
    Seq::new(values.len(), |i: int| value_model(values[i]))
}

spec fn entry_models(entries: Seq<(String, serde_json::Value)>) -> Seq<(Seq<char>, JsonView)> {
    Seq::new(entries.len(), |i: int| (entries[i].0@, value_model(entries[i].1)))
}

impl Node {
    spec fn model(self) -> JsonView {
        match self {
            Node::Null => JsonView::Null,
            Node::Bool(b) => JsonView::Bool(b),
            Node::Number(number) => value_model(number),
            Node::String(s) => JsonView::String(s@),
            Node::Array(values) => JsonView::Array(value_models(values@)),
            Node::Object(map) => JsonView::Object(map_model(map)),
        }
    }
}

/// Takes a `serde_json::Value` apart by its variants.
///
/// Trusted: the layer holds the JSON value that was taken apart; a number is an unsigned integer
/// or another number.
#[verifier::external_body]
fn open_value(value: serde_json::Value) -> (node: Node)
    ensures
        node.model() == value_model(value),
        node matches Node::Number(number) ==> value_model(number) is Unsigned || value_model(
            number,
        ) is OtherNumber,
{
    match value {
        serde_json::Value::Null => Node::Null,
        serde_json::Value::Bool(b) => Node::Bool(b),
        serde_json::Value::Number(number) => Node::Number(serde_json::Value::Number(number)),
        serde_json::Value::String(s) => Node::String(s),
        serde_json::Value::Array(values) => Node::Array(values),
        serde_json::Value::Object(map) => Node::Object(map),
    }
}

/// Makes a `serde_json::Value` of its outermost layer by the variants of `Value`.
///
/// Trusted: the value holds the JSON value of the layer.
#[verifier::external_body]
fn close_value(node: Node) -> (value: serde_json::Value)
    ensures
        value_model(value) == node.model(),
{
    match node {
        Node::Null => serde_json::Value::Null,
        Node::Bool(b) => serde_json::Value::Bool(b),
        Node::Number(number) => number,
        Node::String(s) => serde_json::Value::String(s),
        Node::Array(values) => serde_json::Value::Array(values),
        Node::Object(map) => serde_json::Value::Object(map),
    }
}

/// Calls `serde_json::Map::new`.
///
/// Trusted: the map has no members.
#[verifier::external_body]
fn new_map() -> (made: serde_json::Map<String, serde_json::Value>)
    ensures
        map_model(made) == no_members(),
{
    serde_json::Map::new()
}

/// Calls `serde_json::Map::insert`.
///
/// Trusted: the value is then under the key, in place of the one that was there; the other
/// members stay.
#[verifier::external_body]
fn insert_member(
    map: serde_json::Map<String, serde_json::Value>,
    key: String,
    value: serde_json::Value,
) -> (extended: serde_json::Map<String, serde_json::Value>)
    ensures
        map_model(extended) == map_model(map).insert(key@, value_model(value)),
{
    let mut extended = map;
    extended.insert(key, value);
    extended
}

/// Calls `serde_json::Map::is_empty`.
///
/// Trusted: it tells whether the map has no members.
#[verifier::external_body]
fn map_is_empty(map: &serde_json::Map<String, serde_json::Value>) -> (empty: bool)
    ensures
        empty == (map_model(*map) == no_members()),
{
    map.is_empty()
}

/// Walks a `serde_json::Map` by its `into_iter`.
///
/// Trusted: the entries are the members of the map, each key once.
#[verifier::external_body]
fn map_entries(map: serde_json::Map<String, serde_json::Value>) -> (entries: Vec<
    (String, serde_json::Value),
>)
    ensures
        entries_map(entry_models(entries@)) == map_model(map),
        distinct_keys(entry_models(entries@)),
{
    map.into_iter().collect()
}

/// Calls `serde_json::Value::as_u64`.
///
/// Trusted: it gives the number where the value is an integer from 0 to `u64::MAX`.
#[verifier::external_body]
fn value_as_u64(value: &serde_json::Value) -> (number: Option<u64>)
    ensures
        number == value_model(*value).unsigned(),
{
    value.as_u64()
}

/// Calls `serde_json::Value::from` for an unsigned integer.
///
/// Trusted: the value is that number.
#[verifier::external_body]
fn value_of_u64(number: u64) -> (value: serde_json::Value)
    ensures
        value_model(value) == JsonView::Unsigned(number),
{
    serde_json::Value::from(number)
}

/// `serde_json::Value::clone`: the copy holds the same JSON value.
pub assume_specification[ <serde_json::Value as Clone>::clone ](
    value: &serde_json::Value,
) -> (copy: serde_json::Value)
    ensures
        value_model(copy) == value_model(*value),
;

/// Calls `serde_json::from_str` for a `serde_json::Value`.
///
/// Trusted: the value, or the error's words, are those that `parsed_json` names.
#[verifier::external_body]
fn parse_value(text: &str) -> (parsed: Result<serde_json::Value, String>)
    ensures
        match parsed {
            Ok(value) => parsed_json(text@) == Ok::<JsonView, Seq<char>>(value_model(value)),
            Err(words) => parsed_json(text@) == Err::<JsonView, Seq<char>>(words@),
        },
{
    serde_json::from_str::<serde_json::Value>(text).map_err(|error| error.to_string())
}

/// Prints a `serde_json::Value` by its `Display`.
///
/// Trusted: the text is the one that `json_text` names for the JSON value.
#[verifier::external_body]
fn value_text(value: &serde_json::Value) -> (text: String)
    ensures
        text@ == json_text(value_model(*value)),
{
    value.to_string()
}

/// No key occurs twice.
pub open spec fn distinct_keys(entries: Seq<(Seq<char>, JsonView)>) -> bool {
    forall|i: int, j: int|
        0 <= i < j < entries.len() ==> (#[trigger] entries[i]).0 != (#[trigger] entries[j]).0
}

/// A number that is not an integer from 0 to `u64::MAX`.
#[derive(Debug, PartialEq, Eq)]
pub struct OtherNumber {
    number: serde_json::Value,
}

impl OtherNumber {
    #[verifier::type_invariant]
    spec fn is_other_number(self) -> bool {
        value_model(self.number) is OtherNumber
    }

    /// The mathematical value.
    pub closed spec fn model(self) -> JsonView {
        value_model(self.number)
    }
}

/// A JSON value.
///
/// Of two entries of an object with one key the later one counts.
#[derive(Debug, PartialEq, Eq)]
pub enum Json {
    Null,
    Bool(bool),
    Unsigned(u64),
    OtherNumber(OtherNumber),
    String(String),
    Array(Vec<Json>),
    Object(Vec<(String, Json)>),
}

impl Json {
    /// The mathematical value.
    pub open spec fn model(self) -> JsonView
        decreases self,
    {
        match self {
            Json::Null => JsonView::Null,
            Json::Bool(b) => JsonView::Bool(b),
            Json::Unsigned(n) => JsonView::Unsigned(n),
            Json::OtherNumber(number) => number.model(),
            Json::String(s) => JsonView::String(s@),
            Json::Array(items) => JsonView::Array(json_views(items@)),
            Json::Object(entries) => JsonView::Object(entries_map(entry_views(entries@))),
        }
    }
}

impl View for Json {
    type V = JsonView;

    open spec fn view(&self) -> JsonView {
        self.model()
    }
}

/// The elements of an array by their views.
pub open spec fn json_views(items: Seq<Json>) -> Seq<JsonView>
    decreases items,
{
    Seq::new(
        items.len(),
        |i: int|
            if 0 <= i < items.len() {
                items[i].model()
            } else {
                JsonView::Null
            },
    )
}

/// The entries of an object by their views.
pub open spec fn entry_views(entries: Seq<(String, Json)>) -> Seq<(Seq<char>, JsonView)>
    decreases entries,
{
    Seq::new(
        entries.len(),
        |i: int|
            if 0 <= i < entries.len() {
                (entries[i].0@, entries[i].1.model())
            } else {
                (Seq::empty(), JsonView::Null)
            },
    )
}

/// The value of the last entry with a key.
spec fn last_entry(entries: Seq<(Seq<char>, JsonView)>, key: Seq<char>) -> Option<JsonView>
    decreases entries.len(),
{
    if entries.len() == 0 {
        None
    } else if entries.last().0 == key {
        Some(entries.last().1)
    } else {
        last_entry(entries.drop_last(), key)
    }
}

/// The map of a list of entries holds under each key its last entry.
proof fn lemma_last_entry(entries: Seq<(Seq<char>, JsonView)>, key: Seq<char>)
    ensures
        entries_map(entries).dom().finite(),
        JsonView::Object(entries_map(entries)).field(key) == last_entry(entries, key),
    decreases entries.len(),
{
    if entries.len() > 0 {
        lemma_last_entry(entries.drop_last(), key);
    }
}

/// Where no key occurs twice, each entry is the last one with its key.
proof fn lemma_distinct_entry(entries: Seq<(Seq<char>, JsonView)>, i: int)
    requires
        distinct_keys(entries),
        0 <= i < entries.len(),
    ensures
        last_entry(entries, entries[i].0) == Some(entries[i].1),
    decreases entries.len(),
{
    if i < entries.len() - 1 {
        let front = entries.drop_last();
        assert forall|a: int, b: int| 0 <= a < b < front.len() implies (#[trigger] front[a]).0 != (
        #[trigger] front[b]).0 by {
            assert(entries[a].0 != entries[b].0);
        }
        assert(entries[i].0 != entries[entries.len() - 1].0);
        lemma_distinct_entry(front, i);
    }
}

impl Json {
    /// The member of an object under `key`.
    pub fn get(&self, key: &str) -> (member: Option<&Json>)
        ensures
            match member {
                Some(value) => self@.field(key@) == Some(value@),
                None => self@.field(key@) is None,
            },
    {
        match self {
            Json::Object(entries) => {
                let ghost views = entry_views(entries@);
                let mut i: usize = entries.len();
                assert(views.take(i as int) =~= views);
                while i > 0
                    invariant
                        self == Json::Object(*entries),
                        i <= entries@.len(),
                        views == entry_views(entries@),
                        last_entry(views, key@) == last_entry(views.take(i as int), key@),
                    decreases i,
                {
                    i = i - 1;
                    proof {
                        lemma_last_entry(views, key@);
                        assert(views.take(i + 1).drop_last() =~= views.take(i as int));
                        assert(views.take(i + 1).last() == views[i as int]);
                    }
                    if str_eq(entries[i].0.as_str(), key) {
                        return Some(&entries[i].1);
                    }
                }
                proof {
                    lemma_last_entry(views, key@);
                }
                None
            },
            Json::OtherNumber(number) => {
                proof {
                    use_type_invariant(number);
                }
                None
            },
            _ => None,
        }
    }

    /// The number, where the value is an integer from 0 to `u64::MAX`.
    pub fn as_u64(&self) -> (number: Option<u64>)
        ensures
            number == self@.unsigned(),
    {
        match self {
            Json::Unsigned(n) => Some(*n),
            Json::OtherNumber(number) => {
                proof {
                    use_type_invariant(number);
                }
                None
            },
            _ => None,
        }
    }

    /// The characters, where the value is a string.
    pub fn as_str(&self) -> (characters: Option<&str>)
        ensures
            match characters {
                Some(s) => self@.string() == Some(s@),
                None => self@.string() is None,
            },
    {
        match self {
            Json::String(s) => Some(s.as_str()),
            Json::OtherNumber(number) => {
                proof {
                    use_type_invariant(number);
                }
                None
            },
            _ => None,
        }
    }

    /// The elements, where the value is an array.
    pub fn as_array(&self) -> (elements: Option<&Vec<Json>>)
        ensures
            match elements {
                Some(items) => self@.array() == Some(json_views(items@)),
                None => self@.array() is None,
            },
    {
        match self {
            Json::Array(items) => Some(items),
            Json::OtherNumber(number) => {
                proof {
                    use_type_invariant(number);
                }
                None
            },
            _ => None,
        }
    }

    /// The unsigned integer under `key`.
    pub fn get_u64(&self, key: &str) -> (number: Option<u64>)
        ensures
            number == self@.unsigned_field(key@),
    {
        match self.get(key) {
            Some(value) => value.as_u64(),
            None => None,
        }
    }

    /// The string under `key`.
    pub fn get_str(&self, key: &str) -> (characters: Option<&str>)
        ensures
            match characters {
                Some(s) => self@.string_field(key@) == Some(s@),
                None => self@.string_field(key@) is None,
            },
    {
        match self.get(key) {
            Some(value) => value.as_str(),
            None => None,
        }
    }

    /// The elements of the array under `key`.
    pub fn get_array(&self, key: &str) -> (elements: Option<&Vec<Json>>)
        ensures
            match elements {
                Some(items) => self@.array_field(key@) == Some(json_views(items@)),
                None => self@.array_field(key@) is None,
            },
    {
        match self.get(key) {
            Some(value) => value.as_array(),
            None => None,
        }
    }

    /// The JSON value that a `serde_json::Value` holds.
    pub fn from_value(value: serde_json::Value) -> (json: Json)
        ensures
            json@ == value_model(value),
        decreases value_model(value),
    {
        match open_value(value) {
            Node::Null => Json::Null,
            Node::Bool(b) => Json::Bool(b),
            Node::Number(number) => match value_as_u64(&number) {
                Some(n) => Json::Unsigned(n),
                None => Json::OtherNumber(OtherNumber { number }),
            },
            Node::String(s) => Json::String(s),
            Node::Array(values) => {
                let ghost models = value_models(values@);
                let mut items: Vec<Json> = Vec::new();
                for element in walk: values
                    invariant
                        value_model(value) == JsonView::Array(models),
                        models == value_models(walk.seq()),
                        json_views(items@) == models.take(walk.index() as int),
                {
                    let ghost i = walk.index() as int;
                    let ghost before = items@;
                    assert(models[i] == value_model(element));
                    assert(decreases_to!(value_model(value) => value_model(value)->Array_0));
                    assert(decreases_to!(models => models[i]));
                    items.push(Json::from_value(element));
                    assert(json_views(items@) =~= json_views(before).push(models[i]));
                    assert(models.take(i + 1) =~= models.take(i).push(models[i]));
                }
                proof {
                    assert(models.take(models.len() as int) =~= models);
                }
                Json::Array(items)
            },
            Node::Object(map) => {
                let values = map_entries(map);
                let ghost models = entry_models(values@);
                let mut entries: Vec<(String, Json)> = Vec::new();
                for entry in walk: values
                    invariant
                        value_model(value) == JsonView::Object(entries_map(models)),
                        distinct_keys(models),
                        models == entry_models(walk.seq()),
                        entry_views(entries@) == models.take(walk.index() as int),
                {
                    let ghost i = walk.index() as int;
                    let ghost members = entries_map(models);
                    let ghost before = entries@;
                    proof {
                        lemma_last_entry(models, models[i].0);
                        lemma_distinct_entry(models, i);
                        assert(members[models[i].0] == models[i].1);
                    }
                    assert(decreases_to!(value_model(value) => value_model(value)->Object_0));
                    assert(decreases_to!(members => members[models[i].0]));
                    entries.push((entry.0, Json::from_value(entry.1)));
                    assert(entry_views(entries@) =~= entry_views(before).push(models[i]));
                    assert(models.take(i + 1) =~= models.take(i).push(models[i]));
                }
                proof {
                    assert(models.take(models.len() as int) =~= models);
                }
                Json::Object(entries)
            },
        }
    }

    /// A `serde_json::Value` that holds this JSON value.
    pub fn to_value(&self) -> (value: serde_json::Value)
        ensures
            value_model(value) == self@,
        decreases self,
    {
        match self {
            Json::Null => close_value(Node::Null),
            Json::Bool(b) => close_value(Node::Bool(*b)),
            Json::Unsigned(n) => value_of_u64(*n),
            Json::OtherNumber(number) => number.number.clone(),
            Json::String(s) => close_value(Node::String(s.clone())),
            Json::Array(items) => {
                let mut values: Vec<serde_json::Value> = Vec::new();
                let mut i: usize = 0;
                while i < items.len()
                    invariant
                        self == Json::Array(*items),
                        i <= items@.len(),
                        value_models(values@) == json_views(items@).take(i as int),
                    decreases items.len() - i,
                {
                    let ghost views = json_views(items@);
                    let ghost before = values@;
                    assert(decreases_to!(*self => self->Array_0));
                    assert(decreases_to!(items => items@[i as int]));
                    values.push(items[i].to_value());
                    assert(value_models(values@) =~= value_models(before).push(views[i as int]));
                    assert(views.take(i + 1) =~= views.take(i as int).push(views[i as int]));
                    i = i + 1;
                }
                proof {
                    assert(json_views(items@).take(i as int) =~= json_views(items@));
                }
                close_value(Node::Array(values))
            },
            Json::Object(entries) => {
                let ghost views = entry_views(entries@);
                let mut map = new_map();
                let mut i: usize = 0;
                assert(views.take(0).len() == 0);
                while i < entries.len()
                    invariant
                        self == Json::Object(*entries),
                        i <= entries@.len(),
                        views == entry_views(entries@),
                        map_model(map) == entries_map(views.take(i as int)),
                    decreases entries.len() - i,
                {
                    assert(decreases_to!(*self => self->Object_0));
                    assert(decreases_to!(entries => entries@[i as int]));
                    assert(decreases_to!(entries@[i as int] => entries@[i as int].1));
                    map = insert_member(map, entries[i].0.clone(), entries[i].1.to_value());
                    assert(views.take(i + 1).drop_last() =~= views.take(i as int));
                    assert(views.take(i + 1).last() == views[i as int]);
                    i = i + 1;
                }
                proof {
                    assert(views.take(i as int) =~= views);
                }
                close_value(Node::Object(map))
            },
        }
    }

    /// The value as compact text, as `serde_json` prints it.
    pub fn to_text(&self) -> (text: String)
        ensures
            text@ == json_text(self@),
    {
        value_text(&self.to_value())
    }

    /// Reads a JSON text. The error is the reader's own words.
    pub fn parse(text: &str) -> (parsed: Result<Json, String>)
        ensures
            match parsed {
                Ok(json) => parsed_json(text@) == Ok::<JsonView, Seq<char>>(json@),
                Err(words) => parsed_json(text@) == Err::<JsonView, Seq<char>>(words@),
            },
    {
        match parse_value(text) {
            Ok(value) => Ok(Json::from_value(value)),
            Err(words) => Err(words),
        }
    }
}

/// The members of a JSON object, each name once.
#[derive(Debug, PartialEq, Eq)]
pub struct JsonObject {
    map: serde_json::Map<String, serde_json::Value>,
}

impl View for JsonObject {
    type V = Map<Seq<char>, JsonView>;

    closed spec fn view(&self) -> Map<Seq<char>, JsonView> {
        map_model(self.map)
    }
}

impl JsonObject {
    /// No members.
    pub fn new() -> (object: JsonObject)
        ensures
            object@ == no_members(),
    {
        JsonObject { map: new_map() }
    }

    /// The object with a value under a name, in place of the one that was there.
    pub fn insert(self, name: &str, value: Json) -> (object: JsonObject)
        ensures
            object@ == self@.insert(name@, value@),
    {
        JsonObject { map: insert_member(self.map, name.to_owned(), value.to_value()) }
    }

    /// Whether there are no members.
    pub fn is_empty(&self) -> (empty: bool)
        ensures
            empty == (self@ == no_members()),
    {
        map_is_empty(&self.map)
    }

    /// The JSON value with these members.
    pub fn into_json(self) -> (json: Json)
        ensures
            json@ == JsonView::Object(self@),
    {
        Json::from_value(close_value(Node::Object(self.map)))
    }
}

} // verus!
