//! JSON documents as plain trees.
//!
//! The wire text is parsed by `serde_json`; everything after that works on
//! [`Json`], a tree of plain values whose mathematical model is [`JsonValue`].

use vstd::prelude::*;

verus! {

/// A JSON document held as a tree of plain values.
///
/// A number is kept as an unsigned integer where it is one, as a signed
/// integer where it is a negative one, and otherwise as its decimal text.
/// The members of an object are kept in the order in which they were given;
/// where a name occurs twice, the later member is the one that counts.
#[derive(Debug, PartialEq, Eq)]
pub enum Json {
    Null,
    Bool(bool),
    Uint(u64),
    Int(i64),
    Real(String),
    Text(String),
    Array(Vec<Json>),
    Object(Vec<(String, Json)>),
}

/// The mathematical model of a JSON document.
pub enum JsonValue {
    Null,
    Bool(bool),
    Integer(int),
    Real(Seq<char>),
    Text(Seq<char>),
    Array(Seq<JsonValue>),
    Object(Seq<(Seq<char>, JsonValue)>),
}

/// The model of a list of documents, element by element.
pub open spec fn items_view(items: Seq<Json>) -> Seq<JsonValue>
    decreases items, 0nat,
{
    Seq::new(
        items.len(),
        |i: int|
            if 0 <= i < items.len() {
                json_view(items[i])
            } else {
                JsonValue::Null
            },
    )
}

/// The model of the members of an object, member by member.
pub open spec fn members_view(members: Seq<(String, Json)>) -> Seq<(Seq<char>, JsonValue)>
    decreases members, 0nat,
{
    Seq::new(
        members.len(),
        |i: int|
            if 0 <= i < members.len() {
                (members[i].0@, json_view(members[i].1))
            } else {
                (Seq::empty(), JsonValue::Null)
            },
    )
}

/// The model of a document.
pub open spec fn json_view(j: Json) -> JsonValue
    decreases j, 1nat,
{
    match j {
        Json::Null => JsonValue::Null,
        Json::Bool(b) => JsonValue::Bool(b),
        Json::Uint(n) => JsonValue::Integer(n as int),
        Json::Int(n) => JsonValue::Integer(n as int),
        Json::Real(digits) => JsonValue::Real(digits@),
        Json::Text(text) => JsonValue::Text(text@),
        Json::Array(items) => JsonValue::Array(items_view(items@)),
        Json::Object(members) => JsonValue::Object(members_view(members@)),
    }
}

impl View for Json {
    type V = JsonValue;

    open spec fn view(&self) -> JsonValue {
        json_view(*self)
    }
}

/// `serde_json::Value`, the document that `serde_json` parses a text into.
/// Nothing of a value is visible here but through `value_tree`.
#[verifier::external_type_specification]
#[verifier::external_body]
pub struct ExValue(serde_json::Value);

/// What `serde_json::from_str` makes of a text: the document it holds, or
/// nothing where the text is not one JSON document.
pub uninterp spec fn json_parse(text: Seq<char>) -> Option<JsonValue>;

/// What a `serde_json::Value` holds.
pub uninterp spec fn value_tree(value: serde_json::Value) -> JsonValue;

/// How deep a `serde_json::Value` nests: more than anything inside it.
pub uninterp spec fn value_depth(value: serde_json::Value) -> nat;

/// `serde_json::from_str` at the type `serde_json::Value`. The parser is a
/// function of the text alone, so its outcome has a name: `json_parse`. An
/// error is handed on as `None`.
#[verifier::external_body]
fn parse_value(text: &str) -> (parsed: Option<serde_json::Value>)
    ensures
        match parsed {
            Some(value) => json_parse(text@) == Some(value_tree(value)),
            None => json_parse(text@) is None,
        },
{
    serde_json::from_str::<serde_json::Value>(text).ok()
}

/// The outermost level of a `serde_json::Value`: which variant it is, and
/// what that variant holds.
enum Shape<'a> {
    Null,
    Bool(bool),
    Uint(u64),
    Int(i64),
    Real(String),
    Text(&'a str),
    Array(&'a Vec<serde_json::Value>),
    Object(Vec<(&'a String, &'a serde_json::Value)>),
}

impl<'a> Shape<'a> {
    /// The document that has this outermost level.
    spec fn tree(self) -> JsonValue {
        match self {
            Shape::Null => JsonValue::Null,
            Shape::Bool(b) => JsonValue::Bool(b),
            Shape::Uint(n) => JsonValue::Integer(n as int),
            Shape::Int(n) => JsonValue::Integer(n as int),
            Shape::Real(digits) => JsonValue::Real(digits@),
            Shape::Text(text) => JsonValue::Text(text@),
            Shape::Array(items) => JsonValue::Array(
                Seq::new(items@.len(), |i: int| value_tree(items@[i])),
            ),
            Shape::Object(members) => JsonValue::Object(
                Seq::new(members@.len(), |i: int| (members@[i].0@, value_tree(*members@[i].1))),
            ),
        }
    }

    /// Whether everything inside nests less deep than `depth`.
    spec fn below(self, depth: nat) -> bool {
        match self {
            Shape::Array(items) => forall|i: int|
                0 <= i < items@.len() ==> value_depth(#[trigger] items@[i]) < depth,
            Shape::Object(members) => forall|i: int|
                0 <= i < members@.len() ==> value_depth(*(#[trigger] members@[i]).1) < depth,
            _ => true,
        }
    }
}

/// Tells the variants of a `serde_json::Value` apart and hands out what the
/// variant holds: the items of an array and the members of an object as they
/// are, in the map's order. A number goes through `Number::as_u64`, then
/// `Number::as_i64`, and is handed out as its printed text where it is no
/// integer of either kind. What is inside a value nests less deep than the
/// value.
#[verifier::external_body]
fn shape_of<'a>(value: &'a serde_json::Value) -> (shape: Shape<'a>)
    ensures
        shape.tree() == value_tree(*value),
        shape.below(value_depth(*value)),
{
    match value {
        serde_json::Value::Null => Shape::Null,
        serde_json::Value::Bool(b) => Shape::Bool(*b),
        serde_json::Value::Number(n) => match (n.as_u64(), n.as_i64()) {
            (Some(u), _) => Shape::Uint(u),
            (None, Some(i)) => Shape::Int(i),
            (None, None) => Shape::Real(n.to_string()),
        },
        serde_json::Value::String(text) => Shape::Text(text.as_str()),
        serde_json::Value::Array(items) => Shape::Array(items),
        serde_json::Value::Object(map) => Shape::Object(map.iter().collect()),
    }
}

/// The tree of plain values that a `serde_json::Value` holds.
fn tree_of(value: &serde_json::Value) -> (tree: Json)
    ensures
        tree@ == value_tree(*value),
    decreases value_depth(*value),
{
    match shape_of(value) {
        Shape::Null => Json::Null,
        Shape::Bool(b) => Json::Bool(b),
        Shape::Uint(n) => Json::Uint(n),
        Shape::Int(n) => Json::Int(n),
        Shape::Real(digits) => Json::Real(digits),
        Shape::Text(text) => Json::Text(String::from_str(text)),
        Shape::Array(items) => {
            let mut trees: Vec<Json> = Vec::new();
            let mut i: usize = 0;
            while i < items.len()
                invariant
                    i <= items.len(),
                    trees.len() == i,
                    forall|k: int|
                        0 <= k < items@.len() ==> value_depth(#[trigger] items@[k]) < value_depth(
                            *value,
                        ),
                    forall|k: int| 0 <= k < i ==> (#[trigger] trees@[k])@ == value_tree(items@[k]),
                decreases items.len() - i,
            {
                trees.push(tree_of(&items[i]));
                i = i + 1;
            }
            assert(items_view(trees@) =~= Seq::new(items@.len(), |i: int| value_tree(items@[i])));
            Json::Array(trees)
        },
        Shape::Object(members) => {
            let mut trees: Vec<(String, Json)> = Vec::new();
            let mut i: usize = 0;
            while i < members.len()
                invariant
                    i <= members.len(),
                    trees.len() == i,
                    forall|k: int|
                        0 <= k < members@.len() ==> value_depth(*(#[trigger] members@[k]).1)
                            < value_depth(*value),
                    forall|k: int|
                        0 <= k < i ==> (#[trigger] trees@[k]).0@ == members@[k].0@ && trees@[k].1@
                            == value_tree(*members@[k].1),
                decreases members.len() - i,
            {
                let name = members[i].0;
                let member = members[i].1;
                trees.push((name.clone(), tree_of(member)));
                i = i + 1;
            }
            assert(members_view(trees@) =~= Seq::new(
                members@.len(),
                |i: int| (members@[i].0@, value_tree(*members@[i].1)),
            ));
            Json::Object(trees)
        },
    }
}

impl Clone for Json {
    /// A copy with the same model.
    fn clone(&self) -> (copy: Json)
        ensures
            copy@ == self@,
        decreases self,
    {
        match self {
            Json::Null => Json::Null,
            Json::Bool(b) => Json::Bool(*b),
            Json::Uint(n) => Json::Uint(*n),
            Json::Int(n) => Json::Int(*n),
            Json::Real(digits) => Json::Real(digits.clone()),
            Json::Text(text) => Json::Text(text.clone()),
            Json::Array(items) => {
                let mut copies: Vec<Json> = Vec::new();
                let mut i: usize = 0;
                while i < items.len()
                    invariant
                        i <= items.len(),
                        copies.len() == i,
                        decreases_to!(*self => *items),
                        forall|k: int| 0 <= k < i ==> (#[trigger] copies@[k])@ == items@[k]@,
                    decreases items.len() - i,
                {
                    let item = &items[i];
                    proof {
                        assert(decreases_to!(*items => items@));
                        assert(decreases_to!(items@ => items@[i as int]));
                    }
                    copies.push(item.clone());
                    i = i + 1;
                }
                assert(items_view(copies@) =~= items_view(items@));
                Json::Array(copies)
            },
            Json::Object(members) => {
                let mut copies: Vec<(String, Json)> = Vec::new();
                let mut i: usize = 0;
                while i < members.len()
                    invariant
                        i <= members.len(),
                        copies.len() == i,
                        decreases_to!(*self => *members),
                        forall|k: int|
                            0 <= k < i ==> (#[trigger] copies@[k]).0@ == members@[k].0@ && copies@[k].1@
                                == members@[k].1@,
                    decreases members.len() - i,
                {
                    let member = &members[i];
                    proof {
                        assert(decreases_to!(*members => members@));
                        assert(decreases_to!(members@ => members@[i as int]));
                        assert(decreases_to!(members@[i as int] => members@[i as int].1));
                    }
                    copies.push((member.0.clone(), member.1.clone()));
                    i = i + 1;
                }
                assert(members_view(copies@) =~= members_view(members@));
                Json::Object(copies)
            },
        }
    }
}

impl DeepView for Json {
    type V = JsonValue;

    open spec fn deep_view(&self) -> JsonValue {
        json_view(*self)
    }
}

impl JsonValue {
    /// The member of an object that goes by `name`: the last one of that name.
    /// Anything but an object has no members.
    pub open spec fn member(self, name: Seq<char>) -> Option<JsonValue> {
        match self {
            JsonValue::Object(members) => find(members, name),
            _ => None,
        }
    }

    /// The document without the members that go by `name`.
    pub open spec fn omit(self, name: Seq<char>) -> JsonValue {
        match self {
            JsonValue::Object(members) => JsonValue::Object(without(members, name)),
            other => other,
        }
    }

    /// The member that goes by `name`, where it is there and not `null`.
    pub open spec fn present(self, name: Seq<char>) -> Option<JsonValue> {
        match self.member(name) {
            Some(JsonValue::Null) => None,
            other => other,
        }
    }

    /// The text of a string.
    pub open spec fn text(self) -> Option<Seq<char>> {
        match self {
            JsonValue::Text(text) => Some(text),
            _ => None,
        }
    }

    /// The number, where it is an integer that a `u64` holds.
    pub open spec fn unsigned(self) -> Option<u64> {
        match self {
            JsonValue::Integer(n) if 0 <= n <= u64::MAX => Some(n as u64),
            _ => None,
        }
    }
}

/// The last of `members` that goes by `name`: among named things, a later
/// one of the same name is the one that counts.
pub open spec fn find<V>(members: Seq<(Seq<char>, V)>, name: Seq<char>) -> Option<V>
    decreases members.len(),
{
    if members.len() == 0 {
        None
    } else if members.last().0 == name {
        Some(members.last().1)
    } else {
        find(members.drop_last(), name)
    }
}

/// The members without those that go by `name`.
pub open spec fn without<V>(members: Seq<(Seq<char>, V)>, name: Seq<char>) -> Seq<(Seq<char>, V)>
    decreases members.len(),
{
    if members.len() == 0 {
        members
    } else if members.last().0 == name {
        without(members.drop_last(), name)
    } else {
        without(members.drop_last(), name).push(members.last())
    }
}

/// Among the members without those that go by `name`, nothing goes by
/// `name`, and every other name finds what it found before.
pub proof fn lemma_find_without<V>(
    members: Seq<(Seq<char>, V)>,
    name: Seq<char>,
    wanted: Seq<char>,
)
    ensures
        find(without(members, name), wanted) == if wanted == name {
            None
        } else {
            find(members, wanted)
        },
    decreases members.len(),
{
    if members.len() > 0 {
        lemma_find_without(members.drop_last(), name, wanted);
        if members.last().0 != name {
            let rest = without(members.drop_last(), name);
            assert(rest.push(members.last()).drop_last() =~= rest);
        }
    }
}

/// The last of `entries` that goes by `name`.
pub fn get_named<'a, V: DeepView>(entries: &'a Vec<(String, V)>, name: &str) -> (found: Option<&'a V>)
    ensures
        match found {
            Some(value) => find(entries.deep_view(), name@) == Some(value.deep_view()),
            None => find(entries.deep_view(), name@) is None,
        },
{
    let wanted = String::from_str(name);
    let ghost model = entries.deep_view();
    let mut i: usize = entries.len();
    proof {
        assert(model.take(i as int) =~= model);
    }
    while i > 0
        invariant
            i <= entries.len(),
            wanted@ == name@,
            model == entries.deep_view(),
            find(model, name@) == find(model.take(i as int), name@),
        decreases i,
    {
        i = i - 1;
        proof {
            let upto = model.take(i + 1);
            assert(upto.last() == model[i as int]);
            assert(upto.drop_last() =~= model.take(i as int));
            assert(model[i as int] == (entries@[i as int].0@, entries@[i as int].1.deep_view()));
        }
        if entries[i].0 == wanted {
            return Some(&entries[i].1);
        }
    }
    None
}

impl Json {
    /// Reads one JSON document from its text.
    pub fn parse(text: &str) -> (parsed: Option<Json>)
        ensures
            match parsed {
                Some(document) => json_parse(text@) == Some(document@),
                None => json_parse(text@) is None,
            },
    {
        match parse_value(text) {
            Some(value) => Some(tree_of(&value)),
            None => None,
        }
    }

    /// The member of an object that goes by `name`.
    pub fn get(&self, name: &str) -> (found: Option<&Json>)
        ensures
            match found {
                Some(value) => self@.member(name@) == Some(value@),
                None => self@.member(name@) is None,
            },
    {
        match self {
            Json::Object(members) => {
                assert(members.deep_view() =~= members_view(members@));
                get_named(members, name)
            },
            _ => None,
        }
    }

    /// The member that goes by `name`, where it is there and not `null`.
    pub fn get_present(&self, name: &str) -> (found: Option<&Json>)
        ensures
            match found {
                Some(value) => self@.present(name@) == Some(value@),
                None => self@.present(name@) is None,
            },
    {
        match self.get(name) {
            Some(Json::Null) => None,
            other => other,
        }
    }

    /// The text of a string.
    pub fn as_text(&self) -> (text: Option<&str>)
        ensures
            match text {
                Some(t) => self@.text() == Some(t@),
                None => self@.text() is None,
            },
    {
        match self {
            Json::Text(text) => Some(text.as_str()),
            _ => None,
        }
    }

    /// The number, where it is an integer that a `u64` holds.
    pub fn as_u64(&self) -> (number: Option<u64>)
        ensures
            number == self@.unsigned(),
    {
        match self {
            Json::Uint(n) => Some(*n),
            Json::Int(n) => if *n >= 0 {
                Some(*n as u64)
            } else {
                None
            },
            _ => None,
        }
    }

    /// Whether the document is an object.
    pub fn is_object(&self) -> (object: bool)
        ensures
            object == (self@ is Object),
    {
        match self {
            Json::Object(_) => true,
            _ => false,
        }
    }

    /// Whether the document is `null`.
    pub fn is_null(&self) -> (null: bool)
        ensures
            null == (self@ is Null),
    {
        match self {
            Json::Null => true,
            _ => false,
        }
    }
}

} // verus!
