//! JSON values as plain data: a tree of values whose objects hold each key once.

use crate::text::same_text;
use vstd::prelude::*;

verus! {

/// The number type of `serde_json`.
#[verifier::external_type_specification]
#[verifier::external_body]
pub struct ExNumber(serde_json::Number);

/// `serde_json::Number::clone`: the same number.
pub assume_specification[ <serde_json::Number as Clone>::clone ](
    number: &serde_json::Number,
) -> (r: serde_json::Number)
    ensures
        r == *number,
;

/// The integer that a `serde_json` number holds, where it holds one.
pub uninterp spec fn number_integer(number: serde_json::Number) -> Option<int>;

/// `serde_json::Number::as_u64`: the integer of the number, where it is one and an `u64` holds
/// it.
#[verifier::external_body]
fn number_as_u64(number: &serde_json::Number) -> (r: Option<u64>)
    ensures
        r == (match number_integer(*number) {
            Some(n) => if 0 <= n <= u64::MAX {
                Some(n as u64)
            } else {
                None
            },
            None => None,
        }),
{
    number.as_u64()
}

/// `serde_json::Number::as_i64`: the integer of the number, where it is one and an `i64` holds
/// it.
#[verifier::external_body]
fn number_as_i64(number: &serde_json::Number) -> (r: Option<i64>)
    ensures
        r == (match number_integer(*number) {
            Some(n) => if i64::MIN <= n <= i64::MAX {
                Some(n as i64)
            } else {
                None
            },
            None => None,
        }),
{
    number.as_i64()
}

/// `serde_json::Number::from` of an `u64`: that integer.
#[verifier::external_body]
fn number_from_u64(n: u64) -> (r: serde_json::Number)
    ensures
        number_integer(r) == Some(n as int),
{
    serde_json::Number::from(n)
}

/// `serde_json::Number::from` of an `i64`: that integer.
#[verifier::external_body]
fn number_from_i64(n: i64) -> (r: serde_json::Number)
    ensures
        number_integer(r) == Some(n as int),
{
    serde_json::Number::from(n)
}

/// What a JSON number is: an integer, or a number with a fraction or an exponent.
pub enum NumberView {
    Integer(int),
    Float(serde_json::Number),
}

/// What a `serde_json` number is.
pub open spec fn number_view(number: serde_json::Number) -> NumberView {
    match number_integer(number) {
        Some(n) => NumberView::Integer(n),
        None => NumberView::Float(number),
    }
}

/// A JSON value.
#[derive(Debug)]
pub enum Json {
    Null,
    Bool(bool),
    Number(serde_json::Number),
    Text(String),
    Array(Vec<Json>),
    Object(JsonObject),
}

/// The members of a JSON object, in the order in which they came, each key once.
#[derive(Debug)]
pub struct JsonObject {
    pub(crate) entries: Vec<(String, Json)>,
}

/// A JSON value as a mathematical tree.
pub enum JsonView {
    Null,
    Bool(bool),
    Number(NumberView),
    Text(Seq<char>),
    Array(Seq<JsonView>),
    Object(Map<Seq<char>, JsonView>),
}

/// The members of an object by their keys.
pub type Fields = Map<Seq<char>, JsonView>;

/// The members of an object that is filled in the order of `entries`.
pub open spec fn entries_view(entries: Seq<(String, Json)>) -> Fields
    decreases entries,
{
    if entries.len() == 0 {
        Map::empty()
    } else {
        entries_view(entries.drop_last()).insert(
            entries.last().0@,
            json_tree(entries.last().1),
        )
    }
}

/// The members of an object by their keys.
pub closed spec fn object_fields(object: JsonObject) -> Fields
    decreases object,
{
    entries_view(object.entries@)
}

/// The members of an object are those of its entries.
pub(crate) proof fn lemma_object_fields(object: JsonObject)
    ensures
        object@ == entries_view(object.entries@),
{
}

/// The tree that a value is.
pub open spec fn json_tree(value: Json) -> JsonView
    decreases value,
{
    match value {
        Json::Null => JsonView::Null,
        Json::Bool(b) => JsonView::Bool(b),
        Json::Number(n) => JsonView::Number(number_view(n)),
        Json::Text(s) => JsonView::Text(s@),
        Json::Array(items) => JsonView::Array(
            Seq::new(
                items@.len(),
                |i: int|
                    if 0 <= i < items@.len() {
                        json_tree(items@[i])
                    } else {
                        JsonView::Null
                    },
            ),
        ),
        Json::Object(object) => JsonView::Object(object_fields(object)),
    }
}

impl View for JsonObject {
    type V = Fields;

    open spec fn view(&self) -> Fields {
        object_fields(*self)
    }
}

impl View for Json {
    type V = JsonView;

    open spec fn view(&self) -> JsonView {
        json_tree(*self)
    }
}

// ---------------------------------------------------------------------------------------------
// What a value holds
// ---------------------------------------------------------------------------------------------

impl JsonView {
    /// The members of an object; `None` of any other value.
    pub open spec fn fields(self) -> Option<Fields> {
        match self {
            JsonView::Object(fields) => Some(fields),
            _ => None,
        }
    }

    /// The members of an object; none of any other value.
    pub open spec fn fields_or_empty(self) -> Fields {
        match self {
            JsonView::Object(fields) => fields,
            _ => Map::empty(),
        }
    }

    /// The text of a text value.
    pub open spec fn text(self) -> Option<Seq<char>> {
        match self {
            JsonView::Text(s) => Some(s),
            _ => None,
        }
    }

    /// The truth value of a boolean.
    pub open spec fn boolean(self) -> Option<bool> {
        match self {
            JsonView::Bool(b) => Some(b),
            _ => None,
        }
    }

    /// The integer of a number that is one.
    pub open spec fn integer(self) -> Option<int> {
        match self {
            JsonView::Number(NumberView::Integer(n)) => Some(n),
            _ => None,
        }
    }

    /// The member under a key, where the value is an object that has it.
    pub open spec fn member(self, key: Seq<char>) -> Option<JsonView> {
        match self {
            JsonView::Object(fields) => if fields.contains_key(key) {
                Some(fields[key])
            } else {
                None
            },
            _ => None,
        }
    }

    /// The text under a key, where the value is an object that has one there.
    pub open spec fn text_at(self, key: Seq<char>) -> Option<Seq<char>> {
        match self.member(key) {
            Some(value) => value.text(),
            None => None,
        }
    }

    /// The truth value under a key, where the value is an object that has one there.
    pub open spec fn bool_at(self, key: Seq<char>) -> Option<bool> {
        match self.member(key) {
            Some(value) => value.boolean(),
            None => None,
        }
    }

    /// The integer under a key, where the value is an object that has one there.
    pub open spec fn integer_at(self, key: Seq<char>) -> Option<int> {
        match self.member(key) {
            Some(value) => value.integer(),
            None => None,
        }
    }
}

/// The text under a key of an object.
pub open spec fn field_text(fields: Fields, key: Seq<char>) -> Option<Seq<char>> {
    JsonView::Object(fields).text_at(key)
}

/// `Some` of the view of what is there.
pub open spec fn view_of(value: Option<&Json>) -> Option<JsonView> {
    match value {
        Some(inner) => Some(inner@),
        None => None,
    }
}

/// `Some` of the characters of a text that is there.
pub open spec fn chars_view(value: Option<&str>) -> Option<Seq<char>> {
    match value {
        Some(inner) => Some(inner@),
        None => None,
    }
}

/// `Some` of the characters of a text that is there.
pub open spec fn string_view(value: Option<String>) -> Option<Seq<char>> {
    match value {
        Some(inner) => Some(inner@),
        None => None,
    }
}

// ---------------------------------------------------------------------------------------------
// Objects
// ---------------------------------------------------------------------------------------------

spec fn keys_distinct(entries: Seq<(String, Json)>) -> bool {
    forall|i: int, j: int|
        0 <= i < j < entries.len() ==> #[trigger] entries[i].0@ != #[trigger] entries[j].0@
}

proof fn lemma_entry(entries: Seq<(String, Json)>, i: int)
    requires
        keys_distinct(entries),
        0 <= i < entries.len(),
    ensures
        entries_view(entries).contains_key(entries[i].0@),
        entries_view(entries)[entries[i].0@] == entries[i].1@,
    decreases entries.len(),
{
    if i < entries.len() - 1 {
        let rest = entries.drop_last();
        assert(forall|j: int| 0 <= j < rest.len() ==> rest[j] == entries[j]);
        lemma_entry(rest, i);
        assert(entries[i].0@ != entries.last().0@);
    }
}

proof fn lemma_no_entry(entries: Seq<(String, Json)>, key: Seq<char>)
    requires
        forall|i: int| 0 <= i < entries.len() ==> #[trigger] entries[i].0@ != key,
    ensures
        !entries_view(entries).contains_key(key),
    decreases entries.len(),
{
    if entries.len() > 0 {
        let rest = entries.drop_last();
        assert forall|i: int| 0 <= i < rest.len() implies #[trigger] rest[i].0@ != key by {
            assert(rest[i] == entries[i]);
        }
        lemma_no_entry(rest, key);
    }
}

/// Replacing the value of an entry replaces it in the view.
proof fn lemma_replace(entries: Seq<(String, Json)>, i: int, entry: (String, Json))
    requires
        keys_distinct(entries),
        0 <= i < entries.len(),
        entry.0@ == entries[i].0@,
    ensures
        entries_view(entries.update(i, entry)) == entries_view(entries).insert(
            entry.0@,
            entry.1@,
        ),
    decreases entries.len(),
{
    let changed = entries.update(i, entry);
    let rest = entries.drop_last();
    if i == entries.len() - 1 {
        assert(changed.drop_last() =~= rest);
        assert(entries_view(changed) =~= entries_view(entries).insert(entry.0@, entry.1@));
    } else {
        assert(forall|j: int| 0 <= j < rest.len() ==> rest[j] == entries[j]);
        lemma_replace(rest, i, entry);
        assert(changed.drop_last() =~= rest.update(i, entry));
        assert(entry.0@ != entries.last().0@);
        assert(entries_view(changed) =~= entries_view(entries).insert(entry.0@, entry.1@));
    }
}

impl JsonObject {
    #[verifier::type_invariant]
    spec fn each_key_once(self) -> bool {
        keys_distinct(self.entries@)
    }

    /// An object without members.
    pub fn new() -> (r: JsonObject)
        ensures
            r@ == Map::<Seq<char>, JsonView>::empty(),
    {
        JsonObject { entries: Vec::new() }
    }

    /// The position of a key, or the number of members where it is not there.
    fn position(&self, key: &str) -> (r: usize)
        ensures
            r <= self.entries@.len(),
            r < self.entries@.len() ==> self.entries@[r as int].0@ == key@,
            r == self.entries@.len() ==> forall|i: int|
                0 <= i < self.entries@.len() ==> #[trigger] self.entries@[i].0@ != key@,
    {
        for i in 0..self.entries.len()
            invariant
                forall|j: int| 0 <= j < i ==> #[trigger] self.entries@[j].0@ != key@,
        {
            if same_text(self.entries[i].0.as_str(), key) {
                return i;
            }
        }
        self.entries.len()
    }

    /// The member under a key.
    pub fn get(&self, key: &str) -> (r: Option<&Json>)
        ensures
            view_of(r) == JsonView::Object(self@).member(key@),
    {
        let at = self.position(key);
        proof {
            use_type_invariant(self);
        }
        if at < self.entries.len() {
            proof {
                lemma_entry(self.entries@, at as int);
            }
            Some(&self.entries[at].1)
        } else {
            proof {
                lemma_no_entry(self.entries@, key@);
            }
            None
        }
    }

    /// Whether there is a member under a key.
    pub fn contains_key(&self, key: &str) -> (r: bool)
        ensures
            r == self@.contains_key(key@),
    {
        self.get(key).is_some()
    }

    /// Puts a member under a key, in place of the one that is there.
    pub fn insert(&mut self, key: String, value: Json)
        ensures
            final(self)@ == old(self)@.insert(key@, value@),
    {
        let at = self.position(key.as_str());
        let mut entries: Vec<(String, Json)> = Vec::new();
        proof {
            use_type_invariant(&*self);
        }
        std::mem::swap(&mut entries, &mut self.entries);
        let ghost before = entries@;
        if at < entries.len() {
            proof {
                lemma_replace(before, at as int, (key, value));
            }
            entries.set(at, (key, value));
        } else {
            entries.push((key, value));
            proof {
                assert(entries@.drop_last() =~= before);
            }
        }
        self.entries = entries;
    }

    /// The object with a member under a key.
    pub fn with(self, key: &str, value: Json) -> (r: JsonObject)
        ensures
            r@ == self@.insert(key@, value@),
    {
        let mut object = self;
        object.insert(key.to_owned(), value);
        object
    }
}

// ---------------------------------------------------------------------------------------------
// Copies
// ---------------------------------------------------------------------------------------------

impl Clone for JsonObject {
    fn clone(&self) -> (r: Self)
        ensures
            r@ == self@,
        decreases self,
    {
        let mut entries: Vec<(String, Json)> = Vec::new();
        proof {
            use_type_invariant(self);
        }
        let count: usize = self.entries.len();
        for i in 0..count
            invariant
                count == self.entries@.len(),
                entries@.len() == i,
                forall|j: int|
                    0 <= j < i ==> #[trigger] same_entry(entries@[j], self.entries@[j]),
        {
            let entry = &self.entries[i];
            proof {
                assert(decreases_to!(self => self.entries@[i as int].1));
            }
            entries.push((entry.0.clone(), entry.1.clone()));
        }
        proof {
            lemma_same_entries(entries@, self.entries@);
            assert forall|j: int, k: int| 0 <= j < k < entries@.len() implies #[trigger] entries@[j].0@
                != #[trigger] entries@[k].0@ by {
                assert(same_entry(entries@[j], self.entries@[j]));
                assert(same_entry(entries@[k], self.entries@[k]));
            }
        }
        JsonObject { entries }
    }
}

impl Clone for Json {
    fn clone(&self) -> (r: Self)
        ensures
            r@ == self@,
        decreases self,
    {
        match self {
            Json::Null => Json::Null,
            Json::Bool(b) => Json::Bool(*b),
            Json::Number(n) => Json::Number(n.clone()),
            Json::Text(s) => Json::Text(s.clone()),
            Json::Array(items) => {
                let mut copies: Vec<Json> = Vec::new();
                let count: usize = items.len();
                for i in 0..count
                    invariant
                        count == items@.len(),
                        *self == Json::Array(*items),
                        copies@.len() == i,
                        forall|j: int| 0 <= j < i ==> #[trigger] copies@[j]@ == items@[j]@,
                {
                    proof {
                        assert(decreases_to!(self => self->Array_0@[i as int]));
                    }
                    copies.push(items[i].clone());
                }
                let r = Json::Array(copies);
                proof {
                    assert(r@->Array_0.len() == self@->Array_0.len());
                    assert forall|j: int| 0 <= j < r@->Array_0.len() implies r@->Array_0[j]
                        == self@->Array_0[j] by {
                        assert(copies@[j]@ == items@[j]@);
                    }
                    assert(r@->Array_0 =~= self@->Array_0);
                }
                r
            },
            Json::Object(object) => Json::Object(object.clone()),
        }
    }
}

spec fn same_entry(a: (String, Json), b: (String, Json)) -> bool {
    a.0@ == b.0@ && a.1@ == b.1@
}

/// Entries with the same keys and values make the same object.
proof fn lemma_same_entries(a: Seq<(String, Json)>, b: Seq<(String, Json)>)
    requires
        a.len() == b.len(),
        forall|j: int| 0 <= j < a.len() ==> #[trigger] same_entry(a[j], b[j]),
    ensures
        entries_view(a) == entries_view(b),
    decreases a.len(),
{
    if a.len() > 0 {
        assert forall|j: int| 0 <= j < a.len() - 1 implies #[trigger] same_entry(
            a.drop_last()[j],
            b.drop_last()[j],
        ) by {
            assert(same_entry(a[j], b[j]));
        }
        lemma_same_entries(a.drop_last(), b.drop_last());
        assert(same_entry(a[a.len() - 1], b[a.len() - 1]));
    }
}

// ---------------------------------------------------------------------------------------------
// Reading values
// ---------------------------------------------------------------------------------------------

impl Json {
    /// A text value.
    pub fn from_text(s: &str) -> (r: Json)
        ensures
            r@ == JsonView::Text(s@),
    {
        Json::Text(s.to_owned())
    }

    /// An integer.
    pub fn from_i64(n: i64) -> (r: Json)
        ensures
            r@ == JsonView::Number(NumberView::Integer(n as int)),
    {
        Json::Number(number_from_i64(n))
    }

    /// An integer from zero on.
    pub fn from_u64(n: u64) -> (r: Json)
        ensures
            r@ == JsonView::Number(NumberView::Integer(n as int)),
    {
        Json::Number(number_from_u64(n))
    }

    /// An array without items.
    pub fn empty_array() -> (r: Json)
        ensures
            r@ == JsonView::Array(Seq::empty()),
    {
        let r = Json::Array(Vec::new());
        proof {
            assert(r@->Array_0 =~= Seq::<JsonView>::empty());
        }
        r
    }

    /// An object without members.
    pub fn empty_object() -> (r: Json)
        ensures
            r@ == JsonView::Object(Map::empty()),
    {
        Json::Object(JsonObject::new())
    }

    /// The members of an object, or none.
    pub fn into_object(self) -> (r: JsonObject)
        ensures
            r@ == self@.fields_or_empty(),
    {
        match self {
            Json::Object(object) => object,
            _ => JsonObject::new(),
        }
    }

    /// The text of a text value.
    pub fn as_str(&self) -> (r: Option<&str>)
        ensures
            chars_view(r) == self@.text(),
    {
        match self {
            Json::Text(s) => Some(s.as_str()),
            _ => None,
        }
    }

    /// The truth value of a boolean.
    pub fn as_bool(&self) -> (r: Option<bool>)
        ensures
            r == self@.boolean(),
    {
        match self {
            Json::Bool(b) => Some(*b),
            _ => None,
        }
    }

    /// The integer of a number that is one and fits.
    pub fn as_i64(&self) -> (r: Option<i64>)
        ensures
            r == (match self@.integer() {
                Some(n) => if i64::MIN <= n <= i64::MAX {
                    Some(n as i64)
                } else {
                    None
                },
                None => None,
            }),
    {
        match self {
            Json::Number(n) => number_as_i64(n),
            _ => None,
        }
    }

    /// The integer of a number that is one and is not negative.
    pub fn as_u64(&self) -> (r: Option<u64>)
        ensures
            r == (match self@.integer() {
                Some(n) => if 0 <= n <= u64::MAX {
                    Some(n as u64)
                } else {
                    None
                },
                None => None,
            }),
    {
        match self {
            Json::Number(n) => number_as_u64(n),
            _ => None,
        }
    }

    /// The member under a key, where the value is an object that has it.
    pub fn get(&self, key: &str) -> (r: Option<&Json>)
        ensures
            view_of(r) == self@.member(key@),
    {
        match self {
            Json::Object(object) => object.get(key),
            _ => None,
        }
    }

    /// The text under a key, where the value is an object that has one there.
    pub fn text_at(&self, key: &str) -> (r: Option<&str>)
        ensures
            chars_view(r) == self@.text_at(key@),
    {
        match self.get(key) {
            Some(value) => value.as_str(),
            None => None,
        }
    }

    /// The truth value under a key, where the value is an object that has one there.
    pub fn bool_at(&self, key: &str) -> (r: Option<bool>)
        ensures
            r == self@.bool_at(key@),
    {
        match self.get(key) {
            Some(value) => value.as_bool(),
            None => None,
        }
    }
}

// ---------------------------------------------------------------------------------------------
// Laws
// ---------------------------------------------------------------------------------------------

/// What is found under a key is what an object holds there: the member itself, and its text, its
/// truth value or its integer just where it is one.
pub proof fn members_are_what_an_object_holds(
    fields: Fields,
    key: Seq<char>,
    text: Seq<char>,
    truth: bool,
    number: int,
)
    ensures
        fields.contains_key(key) ==> JsonView::Object(fields).member(key) == Some(fields[key]),
        !fields.contains_key(key) ==> JsonView::Object(fields).member(key) is None,
        JsonView::Object(fields).text_at(key) == Some(text) <==> fields.contains_key(key)
            && fields[key] == JsonView::Text(text),
        field_text(fields, key) == Some(text) <==> fields.contains_key(key) && fields[key]
            == JsonView::Text(text),
        JsonView::Object(fields).bool_at(key) == Some(truth) <==> fields.contains_key(key)
            && fields[key] == JsonView::Bool(truth),
        JsonView::Object(fields).integer_at(key) == Some(number) <==> fields.contains_key(key)
            && fields[key] == JsonView::Number(NumberView::Integer(number)),
{
}

/// A value that is no object has no members.
pub proof fn only_objects_have_members(value: JsonView, key: Seq<char>)
    requires
        !(value is Object),
    ensures
        value.member(key) is None,
        value.text_at(key) is None,
        value.bool_at(key) is None,
        value.integer_at(key) is None,
        value.fields_or_empty() == Map::<Seq<char>, JsonView>::empty(),
{
}

/// A value is the tree that it looks like, and a text that may be missing is there just where its
/// characters are.
pub proof fn values_are_their_trees(truth: bool, text: String, object: JsonObject, items: Vec<Json>)
    ensures
        Json::Null@ == JsonView::Null,
        Json::Bool(truth)@ == JsonView::Bool(truth),
        Json::Text(text)@ == JsonView::Text(text@),
        Json::Object(object)@ == JsonView::Object(object@),
        Json::Array(items)@ matches JsonView::Array(trees) && trees.len() == items@.len() && (
        forall|i: int| 0 <= i < items@.len() ==> #[trigger] trees[i] == items@[i]@),
        string_view(Some(text)) == Some(text@),
        string_view(None) is None,
{
}

/// What may be missing is seen where it is there, as it is.
pub proof fn optional_values_are_seen_whole(value: Json, text: &str)
    ensures
        view_of(Some(&value)) == Some(value@),
        view_of(None) is None,
        chars_view(Some(text)) == Some(text@),
        chars_view(None) is None,
{
}

} // verus!
