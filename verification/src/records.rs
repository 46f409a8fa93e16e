//! Stored records: how a stored document is completed when it is shown, and which of its
//! secrets an update keeps.

use crate::json::{Fields, Json, JsonObject, JsonView};
use crate::text::same_text;
use vstd::prelude::*;

verus! {

// ---------------------------------------------------------------------------------------------
// Defaults
// ---------------------------------------------------------------------------------------------

/// Members with a default: a key and the value that it gets where it is missing.
pub type Defaults = Seq<(Seq<char>, JsonView)>;

/// `fields` with a value under `key`, unless there is one.
pub open spec fn with_default(fields: Fields, key: Seq<char>, value: JsonView) -> Fields {
    if fields.contains_key(key) {
        fields
    } else {
        fields.insert(key, value)
    }
}

/// `fields` with every default, each put in where its key is still missing.
pub open spec fn with_defaults(fields: Fields, defaults: Defaults) -> Fields
    decreases defaults.len(),
{
    if defaults.len() == 0 {
        fields
    } else {
        with_default(
            with_defaults(fields, defaults.drop_last()),
            defaults.last().0,
            defaults.last().1,
        )
    }
}

/// The defaults that a list holds.
pub open spec fn defaults_view(list: Seq<(&'static str, Json)>) -> Defaults {
    list.map_values(|entry: (&'static str, Json)| (entry.0@, entry.1@))
}

/// Puts every default in where its key is missing.
pub fn apply_defaults(object: &mut JsonObject, defaults: Vec<(&'static str, Json)>)
    ensures
        final(object)@ == with_defaults(old(object)@, defaults_view(defaults@)),
{
    let ghost all = defaults_view(defaults@);
    let ghost list = defaults@;
    let ghost start = object@;
    proof {
        assert(all.take(0) =~= Seq::empty());
    }
    for entry in it: defaults.into_iter()
        invariant
            it.seq() == list,
            all == defaults_view(list),
            object@ == with_defaults(start, all.take(it.index() as int)),
    {
        let (key, value) = entry;
        proof {
            let at = it.index() as int;
            assert(all.take(at + 1).drop_last() =~= all.take(at));
            assert(all.take(at + 1).last() == (key@, value@));
        }
        if !object.contains_key(key) {
            object.insert(key.to_owned(), value);
        }
    }
    proof {
        assert(all.take(all.len() as int) =~= all);
    }
}

/// What is there stays as it is, whatever the defaults.
pub proof fn defaults_keep_what_is_there(fields: Fields, defaults: Defaults, key: Seq<char>)
    requires
        fields.contains_key(key),
    ensures
        with_defaults(fields, defaults).contains_key(key),
        with_defaults(fields, defaults)[key] == fields[key],
    decreases defaults.len(),
{
    if defaults.len() > 0 {
        defaults_keep_what_is_there(fields, defaults.drop_last(), key);
    }
}

/// Every key of the defaults is there afterwards.
pub proof fn defaults_fill_every_key(fields: Fields, defaults: Defaults, i: int)
    requires
        0 <= i < defaults.len(),
    ensures
        with_defaults(fields, defaults).contains_key(defaults[i].0),
    decreases defaults.len(),
{
    if i < defaults.len() - 1 {
        assert(defaults.drop_last()[i] == defaults[i]);
        defaults_fill_every_key(fields, defaults.drop_last(), i);
    }
}

/// The defaults put in nothing but their own keys.
pub proof fn defaults_add_only_their_keys(fields: Fields, defaults: Defaults, key: Seq<char>)
    requires
        !fields.contains_key(key),
        forall|i: int| 0 <= i < defaults.len() ==> #[trigger] defaults[i].0 != key,
    ensures
        !with_defaults(fields, defaults).contains_key(key),
    decreases defaults.len(),
{
    if defaults.len() > 0 {
        let rest = defaults.drop_last();
        assert forall|i: int| 0 <= i < rest.len() implies #[trigger] rest[i].0 != key by {
            assert(rest[i] == defaults[i]);
        }
        defaults_add_only_their_keys(fields, rest, key);
        assert(defaults[defaults.len() - 1].0 != key);
    }
}

/// Putting the defaults in twice is putting them in once.
pub proof fn defaults_settle(fields: Fields, defaults: Defaults)
    ensures
        with_defaults(with_defaults(fields, defaults), defaults) == with_defaults(fields, defaults),
{
    let filled = with_defaults(fields, defaults);
    assert forall|i: int| 0 <= i < defaults.len() implies filled.contains_key(
        #[trigger] defaults[i].0,
    ) by {
        defaults_fill_every_key(fields, defaults, i);
    }
    lemma_nothing_missing(filled, defaults);
}

proof fn lemma_nothing_missing(fields: Fields, defaults: Defaults)
    requires
        forall|i: int| 0 <= i < defaults.len() ==> fields.contains_key(#[trigger] defaults[i].0),
    ensures
        with_defaults(fields, defaults) == fields,
    decreases defaults.len(),
{
    if defaults.len() > 0 {
        let rest = defaults.drop_last();
        assert forall|i: int| 0 <= i < rest.len() implies fields.contains_key(
            #[trigger] rest[i].0,
        ) by {
            assert(rest[i] == defaults[i]);
        }
        lemma_nothing_missing(fields, rest);
        assert(fields.contains_key(defaults[defaults.len() - 1].0));
    }
}

// ---------------------------------------------------------------------------------------------
// Secrets
// ---------------------------------------------------------------------------------------------

/// Whether there is a text under `key` that is not empty.
pub open spec fn has_text(fields: Fields, key: Seq<char>) -> bool {
    crate::json::field_text(fields, key) matches Some(text) && text.len() > 0
}

/// Whether the object has a text under `key` that is not empty.
pub fn holds_text(object: &JsonObject, key: &str) -> (r: bool)
    ensures
        r == has_text(object@, key@),
{
    match object.get(key) {
        Some(value) => match value.as_str() {
            Some(text) => !text.is_empty(),
            None => false,
        },
        None => false,
    }
}

/// A text that stands for a secret which is not sent: empty, or one of the two placeholders.
pub open spec fn placeholder(text: Seq<char>) -> bool {
    text.len() == 0 || text == "existing_key"@ || text == "existing_password"@
}

/// Whether an update leaves a field out: there is no text there, or a placeholder.
pub open spec fn left_out(payload: Fields, field: Seq<char>) -> bool {
    match crate::json::field_text(payload, field) {
        Some(text) => placeholder(text),
        None => true,
    }
}

/// `payload` with the stored text of a field that it leaves out.
pub open spec fn preserved(payload: Fields, existing: Fields, field: Seq<char>) -> Fields {
    if left_out(payload, field) && has_text(existing, field) {
        payload.insert(field, existing[field])
    } else {
        payload
    }
}

/// Keeps the stored text of a field that the payload leaves out.
pub fn preserve_string_field(payload: &mut JsonObject, existing: &JsonObject, field: &str)
    ensures
        final(payload)@ == preserved(old(payload)@, existing@, field@),
{
    let missing_or_placeholder: bool = match payload.get(field) {
        Some(value) => match value.as_str() {
            Some(text) => text.is_empty() || same_text(text, "existing_key") || same_text(
                text,
                "existing_password",
            ),
            None => true,
        },
        None => true,
    };
    if missing_or_placeholder {
        if let Some(value) = existing.get(field) {
            if let Some(text) = value.as_str() {
                if !text.is_empty() {
                    payload.insert(field.to_owned(), Json::from_text(text));
                }
            }
        }
    }
}

/// `payload` with the stored texts of all the fields that it leaves out.
pub open spec fn preserved_all(payload: Fields, existing: Fields, fields: Seq<Seq<char>>) -> Fields
    decreases fields.len(),
{
    if fields.len() == 0 {
        payload
    } else {
        preserved(
            preserved_all(payload, existing, fields.drop_last()),
            existing,
            fields.last(),
        )
    }
}

/// The characters of a list of keys.
pub open spec fn keys_view(list: Seq<&'static str>) -> Seq<Seq<char>> {
    list.map_values(|key: &'static str| key@)
}

/// Keeps the stored texts of all the fields that the payload leaves out.
pub fn preserve_string_fields(
    payload: &mut JsonObject,
    existing: &JsonObject,
    fields: Vec<&'static str>,
)
    ensures
        final(payload)@ == preserved_all(old(payload)@, existing@, keys_view(fields@)),
{
    let ghost all = keys_view(fields@);
    let ghost start = payload@;
    proof {
        assert(all.take(0) =~= Seq::empty());
    }
    for i in 0..fields.len()
        invariant
            all == keys_view(fields@),
            payload@ == preserved_all(start, existing@, all.take(i as int)),
    {
        proof {
            assert(all.take(i + 1).drop_last() =~= all.take(i as int));
            assert(all.take(i + 1).last() == fields@[i as int]@);
        }
        preserve_string_field(payload, existing, fields[i]);
    }
    proof {
        assert(all.take(all.len() as int) =~= all);
    }
}

/// Keeping many fields keeps each of them as if it were the only one, and leaves every other
/// member alone.
pub proof fn preserving_works_field_by_field(
    payload: Fields,
    existing: Fields,
    fields: Seq<Seq<char>>,
    key: Seq<char>,
)
    ensures
        ({
            let all = preserved_all(payload, existing, fields);
            let one = if fields.contains(key) {
                preserved(payload, existing, key)
            } else {
                payload
            };
            all.contains_key(key) == one.contains_key(key) && (one.contains_key(key) ==> all[key]
                == one[key])
        }),
    decreases fields.len(),
{
    if fields.len() > 0 {
        let rest = fields.drop_last();
        preserving_works_field_by_field(payload, existing, rest, key);
        if rest.contains(key) {
            let i = choose|i: int| 0 <= i < rest.len() && rest[i] == key;
            assert(fields[i] == key);
        }
        if fields.contains(key) && fields.last() != key {
            let i = choose|i: int| 0 <= i < fields.len() && fields[i] == key;
            assert(rest[i] == key);
        }
        if fields.last() == key {
            assert(fields[fields.len() - 1] == key);
        }
    }
}

/// Keeping one field leaves every other member alone.
pub proof fn preserving_leaves_others(
    payload: Fields,
    existing: Fields,
    field: Seq<char>,
    key: Seq<char>,
)
    requires
        key != field,
    ensures
        preserved(payload, existing, field).contains_key(key) == payload.contains_key(key),
        payload.contains_key(key) ==> preserved(payload, existing, field)[key] == payload[key],
{
}

/// A text that is sent and is no placeholder is what is stored.
pub proof fn preserving_lets_new_text_win(payload: Fields, existing: Fields, field: Seq<char>)
    requires
        !left_out(payload, field),
    ensures
        preserved(payload, existing, field) == payload,
{
}

/// A field that is left out keeps its stored text.
pub proof fn preserving_keeps_stored_text(payload: Fields, existing: Fields, field: Seq<char>)
    requires
        left_out(payload, field),
        has_text(existing, field),
    ensures
        crate::json::field_text(preserved(payload, existing, field), field)
            == crate::json::field_text(existing, field),
{
}

/// Keeping a field twice is keeping it once.
pub proof fn preserving_settles(payload: Fields, existing: Fields, field: Seq<char>)
    ensures
        preserved(preserved(payload, existing, field), existing, field) == preserved(
            payload,
            existing,
            field,
        ),
{
    let once = preserved(payload, existing, field);
    if left_out(payload, field) && has_text(existing, field) {
        assert(once.insert(field, existing[field]) =~= once);
    }
}

/// Keeping a field of a document from itself changes nothing.
pub proof fn preserving_field_from_itself(document: Fields, field: Seq<char>)
    ensures
        preserved(document, document, field) == document,
{
    if has_text(document, field) {
        assert(document.insert(field, document[field]) =~= document);
    }
}

/// Keeping fields of a document from itself changes nothing.
pub proof fn preserving_from_itself_changes_nothing(document: Fields, fields: Seq<Seq<char>>)
    ensures
        preserved_all(document, document, fields) == document,
    decreases fields.len(),
{
    if fields.len() > 0 {
        preserving_from_itself_changes_nothing(document, fields.drop_last());
        preserving_field_from_itself(document, fields.last());
    }
}

/// A key that is missing gets the value of its own default.
pub proof fn defaults_give_their_values(fields: Fields, defaults: Defaults, i: int)
    requires
        0 <= i < defaults.len(),
        !fields.contains_key(defaults[i].0),
        forall|j: int| 0 <= j < i ==> #[trigger] defaults[j].0 != defaults[i].0,
    ensures
        with_defaults(fields, defaults).contains_key(defaults[i].0),
        with_defaults(fields, defaults)[defaults[i].0] == defaults[i].1,
    decreases defaults.len(),
{
    let rest = defaults.drop_last();
    if i < rest.len() {
        assert(rest[i] == defaults[i]);
        assert forall|j: int| 0 <= j < i implies #[trigger] rest[j].0 != rest[i].0 by {
            assert(rest[j] == defaults[j]);
        }
        defaults_give_their_values(fields, rest, i);
    } else {
        assert forall|j: int| 0 <= j < rest.len() implies #[trigger] rest[j].0 != defaults[i].0 by {
            assert(rest[j] == defaults[j]);
        }
        defaults_add_only_their_keys(fields, rest, defaults[i].0);
    }
}

/// An update leaves a field out unless it sends a text there that is not empty and is none of
/// the two words that stand for a secret which is not shown.
pub proof fn what_is_left_out(payload: Fields, field: Seq<char>, text: Seq<char>)
    ensures
        !payload.contains_key(field) ==> left_out(payload, field),
        payload.contains_key(field) && !(payload[field] is Text) ==> left_out(payload, field),
        payload.contains_key(field) && payload[field] == JsonView::Text(text) ==> (left_out(
            payload,
            field,
        ) <==> text.len() == 0 || text == "existing_key"@ || text == "existing_password"@),
{
}

/// A document has a text under a key just where it holds one there that is not empty.
pub proof fn what_text_is_there(document: Fields, key: Seq<char>)
    ensures
        has_text(document, key) <==> document.contains_key(key) && (document[key] matches
            JsonView::Text(text) && text.len() > 0),
{
}

} // verus!
