//! JSON texts: reading and printing with `serde_json`.

use crate::json::{Fields, Json, JsonObject, JsonView, NumberView};
use vstd::prelude::*;

verus! {

/// The value type of `serde_json`.
#[verifier::external_type_specification]
#[verifier::external_body]
pub struct ExValue(serde_json::Value);

/// The tree that a `serde_json` value holds.
pub uninterp spec fn value_tree(value: serde_json::Value) -> JsonView;

/// What `serde_json::from_str` reads in a text: a tree, or the message of the error.
pub uninterp spec fn parsed_json(text: Seq<char>) -> Result<JsonView, Seq<char>>;

/// The text that `serde_json::to_string` prints for a tree.
pub uninterp spec fn printed_json(tree: JsonView) -> Seq<char>;

// ---------------------------------------------------------------------------------------------
// One level of a value
// ---------------------------------------------------------------------------------------------

/// A `serde_json` value opened by one level.
pub enum ValueLevel {
    Null,
    Bool(bool),
    Number(serde_json::Number),
    Text(String),
    Array(Vec<serde_json::Value>),
    Object(Vec<(String, serde_json::Value)>),
}

/// The members of an object that is filled in the order of `entries`.
pub open spec fn filled(entries: Seq<(String, serde_json::Value)>) -> Fields
    decreases entries.len(),
{
    if entries.len() == 0 {
        Map::empty()
    } else {
        filled(entries.drop_last()).insert(entries.last().0@, value_tree(entries.last().1))
    }
}

/// The tree of a value opened by one level.
pub open spec fn level_tree(level: ValueLevel) -> JsonView {
    match level {
        ValueLevel::Null => JsonView::Null,
        ValueLevel::Bool(b) => JsonView::Bool(b),
        ValueLevel::Number(n) => JsonView::Number(crate::json::number_view(n)),
        ValueLevel::Text(s) => JsonView::Text(s@),
        ValueLevel::Array(items) => JsonView::Array(
            items@.map_values(|item: serde_json::Value| value_tree(item)),
        ),
        ValueLevel::Object(entries) => JsonView::Object(filled(entries@)),
    }
}

/// Takes a `serde_json::Value` apart by one level, with `serde_json::Map::into_iter` for its
/// objects, which gives out each member once.
#[verifier::external_body]
fn open_value(value: serde_json::Value) -> (r: ValueLevel)
    ensures
        level_tree(r) == value_tree(value),
        r matches ValueLevel::Object(entries) ==> forall|i: int, j: int|
            0 <= i < j < entries@.len() ==> #[trigger] entries@[i].0@ != #[trigger] entries@[j].0@,
{
    match value {
        serde_json::Value::Null => ValueLevel::Null,
        serde_json::Value::Bool(b) => ValueLevel::Bool(b),
        serde_json::Value::Number(n) => ValueLevel::Number(n),
        serde_json::Value::String(s) => ValueLevel::Text(s),
        serde_json::Value::Array(items) => ValueLevel::Array(items),
        serde_json::Value::Object(map) => ValueLevel::Object(map.into_iter().collect()),
    }
}

/// Makes a `serde_json::Value` of one level, with `serde_json::Map::from_iter` for its objects,
/// which inserts the members in order, so that the last of a key stays.
#[verifier::external_body]
fn close_value(level: ValueLevel) -> (r: serde_json::Value)
    ensures
        value_tree(r) == level_tree(level),
{
    match level {
        ValueLevel::Null => serde_json::Value::Null,
        ValueLevel::Bool(b) => serde_json::Value::Bool(b),
        ValueLevel::Number(n) => serde_json::Value::Number(n),
        ValueLevel::Text(s) => serde_json::Value::String(s),
        ValueLevel::Array(items) => serde_json::Value::Array(items),
        ValueLevel::Object(entries) => serde_json::Value::Object(entries.into_iter().collect()),
    }
}

// ---------------------------------------------------------------------------------------------
// Whole values
// ---------------------------------------------------------------------------------------------

/// The members of `filled` are the trees of its entries.
proof fn lemma_filled(entries: Seq<(String, serde_json::Value)>, i: int)
    requires
        0 <= i < entries.len(),
        forall|a: int, b: int|
            0 <= a < b < entries.len() ==> #[trigger] entries[a].0@ != #[trigger] entries[b].0@,
    ensures
        filled(entries).contains_key(entries[i].0@),
        filled(entries)[entries[i].0@] == value_tree(entries[i].1),
    decreases entries.len(),
{
    if i < entries.len() - 1 {
        let rest = entries.drop_last();
        assert(forall|j: int| 0 <= j < rest.len() ==> rest[j] == entries[j]);
        lemma_filled(rest, i);
        assert(entries[i].0@ != entries[entries.len() - 1].0@);
    }
}

/// Filling makes finitely many members.
proof fn lemma_filled_finite(entries: Seq<(String, serde_json::Value)>)
    ensures
        filled(entries).dom().finite(),
    decreases entries.len(),
{
    if entries.len() > 0 {
        lemma_filled_finite(entries.drop_last());
    }
}

impl Json {
    /// The value that a `serde_json` value holds.
    pub fn from_value(value: serde_json::Value) -> (r: Json)
        ensures
            r@ == value_tree(value),
        decreases value_tree(value),
    {
        let ghost tree = value_tree(value);
        match open_value(value) {
            ValueLevel::Null => Json::Null,
            ValueLevel::Bool(b) => Json::Bool(b),
            ValueLevel::Number(n) => Json::Number(n),
            ValueLevel::Text(s) => Json::Text(s),
            ValueLevel::Array(items) => {
                let mut out: Vec<Json> = Vec::new();
                let ghost source = items@;
                for item in it: items.into_iter()
                    invariant
                        it.seq() == source,
                        tree == value_tree(value),
                        tree == JsonView::Array(
                            source.map_values(|item: serde_json::Value| value_tree(item)),
                        ),
                        out@.len() == it.index(),
                        forall|j: int| 0 <= j < out@.len() ==> #[trigger] out@[j]@ == tree->Array_0[j],
                {
                    proof {
                        assert(tree->Array_0[it.index() as int] == value_tree(item));
                        assert(decreases_to!(tree => tree->Array_0[it.index() as int]));
                    }
                    out.push(Json::from_value(item));
                }
                let r = Json::Array(out);
                proof {
                    assert forall|j: int| 0 <= j < out@.len() implies r@->Array_0[j]
                        == tree->Array_0[j] by {
                        assert(out@[j]@ == tree->Array_0[j]);
                    }
                    assert(r@->Array_0 =~= tree->Array_0);
                }
                r
            },
            ValueLevel::Object(entries) => {
                let mut out = JsonObject::new();
                let ghost source = entries@;
                proof {
                    assert(source.take(0) =~= Seq::empty());
                }
                for entry in it: entries.into_iter()
                    invariant
                        it.seq() == source,
                        tree == value_tree(value),
                        tree == JsonView::Object(filled(source)),
                        forall|i: int, j: int|
                            0 <= i < j < source.len() ==> #[trigger] source[i].0@
                                != #[trigger] source[j].0@,
                        out@ == filled(source.take(it.index() as int)),
                {
                    let (key, member) = entry;
                    proof {
                        let at = it.index() as int;
                        lemma_filled(source, at);
                        lemma_filled_finite(source);
                        assert(tree->Object_0[key@] == value_tree(member));
                        assert(decreases_to!(tree => tree->Object_0));
                        assert(decreases_to!(tree->Object_0 => tree->Object_0[key@]));
                        assert(decreases_to!(tree => tree->Object_0[key@]));
                        assert(source.take(at + 1).drop_last() =~= source.take(at));
                        assert(source.take(at + 1).last() == entry);
                    }
                    out.insert(key, Json::from_value(member));
                }
                proof {
                    assert(source.take(source.len() as int) =~= source);
                }
                Json::Object(out)
            },
        }
    }
}

// ---------------------------------------------------------------------------------------------
// Values back to `serde_json`
// ---------------------------------------------------------------------------------------------

/// The `serde_json` values of the first items have the trees of the items.
spec fn same_trees(values: Seq<serde_json::Value>, items: Seq<Json>) -> bool {
    values.len() <= items.len() && forall|i: int|
        0 <= i < values.len() ==> value_tree(#[trigger] values[i]) == items[i]@
}

impl Json {
    /// The `serde_json` value that holds this value.
    pub fn to_value(&self) -> (r: serde_json::Value)
        ensures
            value_tree(r) == self@,
        decreases self,
    {
        let level = match self {
            Json::Null => ValueLevel::Null,
            Json::Bool(b) => ValueLevel::Bool(*b),
            Json::Number(n) => ValueLevel::Number(n.clone()),
            Json::Text(s) => ValueLevel::Text(s.clone()),
            Json::Array(items) => {
                let mut out: Vec<serde_json::Value> = Vec::new();
                let count: usize = items.len();
                for i in 0..count
                    invariant
                        count == items@.len(),
                        *self == Json::Array(*items),
                        out@.len() == i,
                        same_trees(out@, items@),
                {
                    proof {
                        assert(decreases_to!(self => self->Array_0@[i as int]));
                    }
                    out.push(items[i].to_value());
                }
                proof {
                    assert(out@.map_values(|item: serde_json::Value| value_tree(item))
                        =~= self@->Array_0);
                }
                ValueLevel::Array(out)
            },
            Json::Object(object) => {
                let mut out: Vec<(String, serde_json::Value)> = Vec::new();
                let count: usize = object.entries.len();
                let ghost source = object.entries@;
                proof {
                    assert(source.take(0) =~= Seq::empty());
                }
                for i in 0..count
                    invariant
                        count == source.len(),
                        source == object.entries@,
                        *self == Json::Object(*object),
                        filled(out@) == crate::json::entries_view(source.take(i as int)),
                {
                    let entry = &object.entries[i];
                    let ghost before = out@;
                    proof {
                        assert(decreases_to!(self => self->Object_0.entries@[i as int].1));
                        assert(source.take(i + 1).drop_last() =~= source.take(i as int));
                    }
                    out.push((entry.0.clone(), entry.1.to_value()));
                    proof {
                        assert(out@.drop_last() =~= before);
                    }
                }
                proof {
                    assert(source.take(source.len() as int) =~= source);
                    crate::json::lemma_object_fields(*object);
                }
                ValueLevel::Object(out)
            },
        };
        close_value(level)
    }
}

// ---------------------------------------------------------------------------------------------
// Texts
// ---------------------------------------------------------------------------------------------

/// `serde_json::from_str` into a `serde_json::Value`: the value that it reads, or the message
/// of its error. Both are functions of the text.
#[verifier::external_body]
fn read_value(text: &str) -> (r: Result<serde_json::Value, String>)
    ensures
        match r {
            Ok(value) => parsed_json(text@) == Ok::<JsonView, Seq<char>>(value_tree(value)),
            Err(message) => parsed_json(text@) == Err::<JsonView, Seq<char>>(message@),
        },
{
    serde_json::from_str(text).map_err(|error| error.to_string())
}

/// The keys that `serde_json` keeps for itself.
pub open spec fn reserved_key(key: Seq<char>) -> bool {
    key == "$serde_json::private::Number"@ || key == "$serde_json::private::RawValue"@
}

/// Whether reading the printed text of a tree gives the tree back: its numbers are integers, no
/// key is one that `serde_json` keeps for itself, and it is at most `depth` levels deep.
pub open spec fn reads_back(tree: JsonView, depth: nat) -> bool
    decreases depth,
{
    match tree {
        JsonView::Number(NumberView::Float(_)) => false,
        JsonView::Array(items) => depth > 0 && forall|i: int|
            0 <= i < items.len() ==> reads_back(#[trigger] items[i], (depth - 1) as nat),
        JsonView::Object(fields) => depth > 0 && forall|key: Seq<char>|
            #[trigger] fields.contains_key(key) ==> !reserved_key(key) && reads_back(
                fields[key],
                (depth - 1) as nat,
            ),
        _ => true,
    }
}

/// The levels of arrays and objects that `serde_json::from_str` reads.
pub const READABLE_DEPTH: u64 = 127;

/// Whether `serde_json` reads a tree back from what it prints for it.
pub open spec fn readable(tree: JsonView) -> bool {
    reads_back(tree, READABLE_DEPTH as nat)
}

/// `serde_json::to_string` of a `serde_json::Value`, which does not fail: its keys are texts.
/// The text is a function of the tree, since the members of an object are printed in the order
/// of their keys. `serde_json::from_str` reads the tree back from it where `readable` holds.
#[verifier::external_body]
fn print_value(value: &serde_json::Value) -> (r: Result<String, String>)
    ensures
        r matches Ok(text) ==> text@ == printed_json(value_tree(*value)),
        r is Ok,
        r matches Ok(text) ==> (readable(value_tree(*value))
            ==> parsed_json(text@) == Ok::<JsonView, Seq<char>>(value_tree(*value))),
{
    serde_json::to_string(value).map_err(|error| error.to_string())
}

/// Reads a JSON text.
pub fn parse_json(text: &str) -> (r: Result<Json, String>)
    ensures
        match r {
            Ok(value) => parsed_json(text@) == Ok::<JsonView, Seq<char>>(value@),
            Err(message) => parsed_json(text@) == Err::<JsonView, Seq<char>>(message@),
        },
{
    match read_value(text) {
        Ok(value) => Ok(Json::from_value(value)),
        Err(message) => Err(message),
    }
}

/// What a stored text holds: the tree that it reads as, or an object without members where it
/// is no JSON.
pub open spec fn stored_tree(text: Seq<char>) -> JsonView {
    match parsed_json(text) {
        Ok(tree) => tree,
        Err(_) => JsonView::Object(Map::empty()),
    }
}

/// Reads a stored text; one that is no JSON stands for an object without members.
pub fn parse_stored(text: &str) -> (r: Json)
    ensures
        r@ == stored_tree(text@),
{
    match parse_json(text) {
        Ok(value) => value,
        Err(_) => Json::empty_object(),
    }
}

/// Prints a value.
pub fn print_json(value: &Json) -> (r: String)
    ensures
        r@ == printed_json(value@),
        readable(value@) ==> stored_tree(r@) == value@,
{
    let outside = value.to_value();
    print_value(&outside).unwrap()
}

// ---------------------------------------------------------------------------------------------
// Laws
// ---------------------------------------------------------------------------------------------

/// What is stored is what it reads as, and a text that is no JSON stands for an object without
/// members.
pub proof fn stored_texts_are_what_they_read_as(text: Seq<char>, tree: JsonView)
    ensures
        parsed_json(text) == Ok::<JsonView, Seq<char>>(tree) ==> stored_tree(text) == tree,
        parsed_json(text) is Err ==> (stored_tree(text) matches JsonView::Object(fields)
            && fields.dom() == Set::<Seq<char>>::empty()),
{
}

} // verus!
