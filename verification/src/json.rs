//! JSON values as the library holds them, and their way to and from text.

use vstd::prelude::*;

verus! {

/// `serde_json::Number`, carried as it is: the library reads a number only
/// through `Number::as_i64`.
#[verifier::external_type_specification]
#[verifier::external_body]
pub struct ExNumber(serde_json::Number);

/// `serde_json::Value`, which the parser hands out and the printer takes.
#[verifier::external_type_specification]
#[verifier::external_body]
pub struct ExValue(serde_json::Value);

/// `Clone` for `serde_json::Number`: the copy is the number itself.
pub assume_specification[ <serde_json::Number as Clone>::clone ](
    number: &serde_json::Number,
) -> (copy: serde_json::Number)
    ensures
        copy == *number,
;

/// A JSON value. The fields of an object are held in a list; where a key
/// occurs twice, the later field counts.
#[derive(Debug, PartialEq)]
pub enum Json {
    Null,
    Bool(bool),
    Number(serde_json::Number),
    Text(String),
    Array(Vec<Json>),
    Object(Vec<(String, Json)>),
}

/// A JSON value as mathematics sees it: an object is a map from keys to values.
pub enum JsonView {
    Null,
    Bool(bool),
    Number(serde_json::Number),
    Text(Seq<char>),
    Array(Seq<JsonView>),
    Object(Map<Seq<char>, JsonView>),
}

impl Json {
    /// The value that this stands for.
    pub open spec fn model(self) -> JsonView
        decreases self,
    {
        match self {
            Json::Null => JsonView::Null,
            Json::Bool(b) => JsonView::Bool(b),
            Json::Number(n) => JsonView::Number(n),
            Json::Text(s) => JsonView::Text(s@),
            Json::Array(items) => JsonView::Array(Json::items_model(items@, items@.len())),
            Json::Object(entries) => JsonView::Object(Json::fields_model(entries@, entries@.len())),
        }
    }

    /// The values of the first `n` items, in order.
    pub open spec fn items_model(items: Seq<Json>, n: nat) -> Seq<JsonView>
        decreases items, n,
    {
        if n == 0 || n > items.len() {
            Seq::empty()
        } else {
            Json::items_model(items, (n - 1) as nat).push(items[n - 1].model())
        }
    }

    /// The map that the first `n` fields make up.
    pub open spec fn fields_model(entries: Seq<(String, Json)>, n: nat) -> Map<Seq<char>, JsonView>
        decreases entries, n,
    {
        if n == 0 || n > entries.len() {
            Map::empty()
        } else {
            Json::fields_model(entries, (n - 1) as nat).insert(
                entries[n - 1].0@,
                entries[n - 1].1.model(),
            )
        }
    }
}

impl View for Json {
    type V = JsonView;

    open spec fn view(&self) -> JsonView {
        self.model()
    }
}

impl JsonView {
    /// The value under `key`, where this is an object that has the key.
    pub open spec fn field(self, key: Seq<char>) -> Option<JsonView> {
        match self {
            JsonView::Object(fields) => if fields.contains_key(key) {
                Some(fields[key])
            } else {
                None
            },
            _ => None,
        }
    }

    /// Whether this is an object whose keys are all among `a`, `b` and `c`.
    pub open spec fn has_keys_among(self, a: Seq<char>, b: Seq<char>, c: Seq<char>) -> bool {
        match self {
            JsonView::Object(fields) => forall|k: Seq<char>| #[trigger]
                fields.contains_key(k) ==> k == a || k == b || k == c,
            _ => false,
        }
    }

    /// The characters, where this is a string.
    pub open spec fn text(self) -> Option<Seq<char>> {
        match self {
            JsonView::Text(s) => Some(s),
            _ => None,
        }
    }

    /// The number, where this is an integer that fits 64 bits with a sign.
    pub open spec fn integer(self) -> Option<i64> {
        match self {
            JsonView::Number(n) => number_integer(n),
            _ => None,
        }
    }
}

/// The value that a `serde_json::Value` stands for.
pub uninterp spec fn value_model(value: serde_json::Value) -> JsonView;

/// What `Number::as_i64` makes of a number: the integer that it is, where it
/// is one that fits.
pub uninterp spec fn number_integer(number: serde_json::Number) -> Option<i64>;

/// What the JSON parser makes of a text: the value, or its complaint.
pub uninterp spec fn json_parsed(text: Seq<u8>) -> Result<JsonView, Seq<char>>;

/// What the JSON printer makes of a value: the text, or its complaint.
pub uninterp spec fn json_printed(json: JsonView) -> Result<Seq<char>, Seq<char>>;

/// Turns a `serde_json::Value` into a value of the library, variant by
/// variant: an object's fields come in the order of its map.
#[verifier::external_body]
pub(crate) fn json_from_value(value: &serde_json::Value) -> (json: Json)
    ensures
        json@ == value_model(*value),
{
    match value {
        serde_json::Value::Null => Json::Null,
        serde_json::Value::Bool(b) => Json::Bool(*b),
        serde_json::Value::Number(n) => Json::Number(n.clone()),
        serde_json::Value::String(s) => Json::Text(s.clone()),
        serde_json::Value::Array(items) => Json::Array(items.iter().map(json_from_value).collect()),
        serde_json::Value::Object(fields) => Json::Object(
            fields.iter().map(|(k, v)| (k.clone(), json_from_value(v))).collect(),
        ),
    }
}

/// Turns a value of the library into a `serde_json::Value`, variant by
/// variant: an object's fields are put into its map with `Map::insert`, one
/// after the other, so that the later of two fields with one key stays.
#[verifier::external_body]
pub(crate) fn value_from_json(json: &Json) -> (value: serde_json::Value)
    ensures
        value_model(value) == json@,
{
    match json {
        Json::Null => serde_json::Value::Null,
        Json::Bool(b) => serde_json::Value::Bool(*b),
        Json::Number(n) => serde_json::Value::Number(n.clone()),
        Json::Text(s) => serde_json::Value::String(s.clone()),
        Json::Array(items) => serde_json::Value::Array(items.iter().map(value_from_json).collect()),
        Json::Object(fields) => {
            let mut map = serde_json::Map::new();
            for (key, value) in fields {
                map.insert(key.clone(), value_from_json(value));
            }
            serde_json::Value::Object(map)
        },
    }
}

/// `serde_json::from_slice` at the type `Value`: the parsed value, or the
/// parser's error as text.
#[verifier::external_body]
pub(crate) fn parse_value(text: &[u8]) -> (parsed: Result<serde_json::Value, String>)
    ensures
        match parsed {
            Ok(value) => json_parsed(text@) == Ok::<JsonView, Seq<char>>(value_model(value)),
            Err(error) => json_parsed(text@) == Err::<JsonView, Seq<char>>(error@),
        },
{
    match serde_json::from_slice::<serde_json::Value>(text) {
        Ok(value) => Ok(value),
        Err(error) => Err(error.to_string()),
    }
}

/// `serde_json::to_string` of a `Value`: the printed text, or the printer's
/// error as text.
#[verifier::external_body]
pub(crate) fn print_value(value: &serde_json::Value) -> (printed: Result<String, String>)
    ensures
        match printed {
            Ok(text) => json_printed(value_model(*value)) == Ok::<Seq<char>, Seq<char>>(text@),
            Err(error) => json_printed(value_model(*value)) == Err::<Seq<char>, Seq<char>>(
                error@,
            ),
        },
{
    match serde_json::to_string(value) {
        Ok(text) => Ok(text),
        Err(error) => Err(error.to_string()),
    }
}

/// `Number::from` an `i64`: the number that is this integer.
#[verifier::external_body]
pub(crate) fn number_from_i64(integer: i64) -> (number: serde_json::Number)
    ensures
        number_integer(number) == Some(integer),
{
    serde_json::Number::from(integer)
}

/// `Number::as_i64`.
#[verifier::external_body]
pub(crate) fn number_as_i64(number: &serde_json::Number) -> (integer: Option<i64>)
    ensures
        integer == number_integer(*number),
{
    number.as_i64()
}

/// Lists of items with the same values, item by item, have the same values.
pub proof fn lemma_items_model_same(a: Seq<Json>, b: Seq<Json>, n: nat)
    requires
        n <= a.len(),
        n <= b.len(),
        forall|k: int| 0 <= k < n ==> a[k]@ == b[k]@,
    ensures
        Json::items_model(a, n) == Json::items_model(b, n),
    decreases n,
{
    if n > 0 {
        lemma_items_model_same(a, b, (n - 1) as nat);
    }
}

/// Field lists with the same keys and values, field by field, make up the
/// same map.
pub proof fn lemma_fields_model_same(a: Seq<(String, Json)>, b: Seq<(String, Json)>, n: nat)
    requires
        n <= a.len(),
        n <= b.len(),
        forall|k: int| 0 <= k < n ==> a[k].0@ == b[k].0@ && a[k].1@ == b[k].1@,
    ensures
        Json::fields_model(a, n) == Json::fields_model(b, n),
    decreases n,
{
    if n > 0 {
        lemma_fields_model_same(a, b, (n - 1) as nat);
    }
}

/// A key that none of the first `n` fields has is not in their map.
pub proof fn lemma_fields_model_absent(entries: Seq<(String, Json)>, n: nat, key: Seq<char>)
    requires
        n <= entries.len(),
        forall|k: int| 0 <= k < n ==> entries[k].0@ != key,
    ensures
        !Json::fields_model(entries, n).contains_key(key),
    decreases n,
{
    if n > 0 {
        lemma_fields_model_absent(entries, (n - 1) as nat, key);
    }
}

/// The last field with a key gives the key its value in the map.
pub proof fn lemma_fields_model_last(entries: Seq<(String, Json)>, n: nat, i: int, key: Seq<char>)
    requires
        0 <= i < n <= entries.len(),
        entries[i].0@ == key,
        forall|k: int| i < k < n ==> entries[k].0@ != key,
    ensures
        Json::fields_model(entries, n).contains_key(key),
        Json::fields_model(entries, n)[key] == entries[i].1@,
    decreases n,
{
    if n > i + 1 {
        lemma_fields_model_last(entries, (n - 1) as nat, i, key);
    }
}

/// The keys of the map are the keys of the fields.
pub proof fn lemma_fields_model_keys(entries: Seq<(String, Json)>, n: nat, key: Seq<char>)
    requires
        n <= entries.len(),
    ensures
        Json::fields_model(entries, n).contains_key(key) <==> exists|k: int|
            0 <= k < n && #[trigger] entries[k].0@ == key,
    decreases n,
{
    if n > 0 {
        lemma_fields_model_keys(entries, (n - 1) as nat, key);
        if Json::fields_model(entries, n).contains_key(key) {
            if entries[n - 1].0@ == key {
            } else {
                let k = choose|k: int| 0 <= k < n - 1 && #[trigger] entries[k].0@ == key;
            }
        }
    }
}

impl Json {
    /// A copy with the same value.
    pub fn duplicate(&self) -> (copy: Json)
        ensures
            copy@ == self@,
        decreases self,
    {
        match self {
            Json::Null => Json::Null,
            Json::Bool(b) => Json::Bool(*b),
            Json::Number(n) => Json::Number(n.clone()),
            Json::Text(s) => Json::Text(s.clone()),
            Json::Array(items) => {
                let mut out: Vec<Json> = Vec::new();
                let mut i: usize = 0;
                while i < items.len()
                    invariant
                        decreases_to!(*self => *items),
                        i <= items@.len(),
                        out@.len() == i,
                        *self == Json::Array(*items),
                        forall|k: int| 0 <= k < i ==> out@[k]@ == items@[k]@,
                    decreases items@.len() - i,
                {
                    let item = items[i].duplicate();
                    out.push(item);
                    i += 1;
                }
                proof {
                    lemma_items_model_same(out@, items@, items@.len());
                }
                Json::Array(out)
            },
            Json::Object(entries) => {
                let mut out: Vec<(String, Json)> = Vec::new();
                let mut i: usize = 0;
                while i < entries.len()
                    invariant
                        decreases_to!(*self => *entries),
                        i <= entries@.len(),
                        out@.len() == i,
                        *self == Json::Object(*entries),
                        forall|k: int|
                            0 <= k < i ==> out@[k].0@ == entries@[k].0@ && out@[k].1@
                                == entries@[k].1@,
                    decreases entries@.len() - i,
                {
                    let key = entries[i].0.clone();
                    let value = entries[i].1.duplicate();
                    out.push((key, value));
                    i += 1;
                }
                proof {
                    lemma_fields_model_same(out@, entries@, entries@.len());
                }
                Json::Object(out)
            },
        }
    }

    /// Parses a JSON text.
    pub fn parse(text: &[u8]) -> (parsed: Result<Json, String>)
        ensures
            match parsed {
                Ok(json) => json_parsed(text@) == Ok::<JsonView, Seq<char>>(json@),
                Err(error) => json_parsed(text@) == Err::<JsonView, Seq<char>>(error@),
            },
    {
        match parse_value(text) {
            Ok(value) => Ok(json_from_value(&value)),
            Err(error) => Err(error),
        }
    }

    /// Prints this value as JSON text.
    pub fn print(&self) -> (printed: Result<String, String>)
        ensures
            match printed {
                Ok(text) => json_printed(self@) == Ok::<Seq<char>, Seq<char>>(text@),
                Err(error) => json_printed(self@) == Err::<Seq<char>, Seq<char>>(error@),
            },
    {
        let value = value_from_json(self);
        print_value(&value)
    }

    /// The number that is the integer `integer`.
    pub fn integer(integer: i64) -> (json: Json)
        ensures
            json@.integer() == Some(integer),
            json@ is Number,
    {
        Json::Number(number_from_i64(integer))
    }

    /// The string with the characters of `text`.
    pub fn text(text: &str) -> (json: Json)
        ensures
            json@ == JsonView::Text(text@),
    {
        Json::Text(text.to_owned())
    }

    /// The object without fields.
    pub fn empty_object() -> (json: Json)
        ensures
            json@ == JsonView::Object(Map::empty()),
    {
        Json::Object(Vec::new())
    }

    /// This object with one more field, which replaces an earlier one of the
    /// same key. Anything but an object is handed back as it is.
    pub fn with_field(self, key: &str, value: Json) -> (json: Json)
        ensures
            json@ == match self@ {
                JsonView::Object(fields) => JsonView::Object(fields.insert(key@, value@)),
                other => other,
            },
    {
        match self {
            Json::Object(mut entries) => {
                let ghost before = entries@;
                entries.push((key.to_owned(), value));
                proof {
                    lemma_fields_model_same(before, entries@, before.len());
                }
                Json::Object(entries)
            },
            other => other,
        }
    }

    /// The integer that this is, where it is one that fits 64 bits with a sign.
    pub fn as_integer(&self) -> (integer: Option<i64>)
        ensures
            integer == self@.integer(),
    {
        match self {
            Json::Number(n) => number_as_i64(n),
            _ => None,
        }
    }

    /// The characters of this, where it is a string.
    pub fn as_text(&self) -> (text: Option<&String>)
        ensures
            match text {
                Some(s) => self@.text() == Some(s@),
                None => self@.text().is_none(),
            },
    {
        match self {
            Json::Text(s) => Some(s),
            _ => None,
        }
    }

    /// Whether this is `null`.
    pub fn is_null(&self) -> (null: bool)
        ensures
            null == (self@ is Null),
    {
        match self {
            Json::Null => true,
            _ => false,
        }
    }

    /// Whether this is an object.
    pub fn is_object(&self) -> (object: bool)
        ensures
            object == (self@ is Object),
    {
        match self {
            Json::Object(_) => true,
            _ => false,
        }
    }

    /// Whether this is an object whose keys are all among `a`, `b` and `c`.
    pub fn has_keys_among(&self, a: &str, b: &str, c: &str) -> (only: bool)
        ensures
            only == self@.has_keys_among(a@, b@, c@),
    {
        match self {
            Json::Object(entries) => {
                let mut i: usize = 0;
                while i < entries.len()
                    invariant
                        i <= entries@.len(),
                        *self == Json::Object(*entries),
                        forall|j: int|
                            0 <= j < i ==> {
                                let k = #[trigger] entries@[j].0@;
                                k == a@ || k == b@ || k == c@
                            },
                    decreases entries@.len() - i,
                {
                    let key = entries[i].0.as_str();
                    if !(crate::text::text_eq(key, a) || crate::text::text_eq(key, b)
                        || crate::text::text_eq(key, c)) {
                        proof {
                            let fields = Json::fields_model(entries@, entries@.len());
                            lemma_fields_model_keys(entries@, entries@.len(), key@);
                            if self@.has_keys_among(a@, b@, c@) {
                                assert(self@->Object_0.contains_key(key@));
                            }
                        }
                        return false;
                    }
                    i += 1;
                }
                proof {
                    let fields = Json::fields_model(entries@, entries@.len());
                    assert forall|k: Seq<char>| fields.contains_key(k) implies k == a@ || k == b@
                        || k == c@ by {
                        lemma_fields_model_keys(entries@, entries@.len(), k);
                    }
                }
                true
            },
            _ => false,
        }
    }

    /// The value under `key`, where this is an object that has the key.
    pub fn field(&self, key: &str) -> (found: Option<&Json>)
        ensures
            match found {
                Some(json) => self@.field(key@) == Some(json@),
                None => self@.field(key@).is_none(),
            },
    {
        match self {
            Json::Object(entries) => {
                let mut i: usize = entries.len();
                while i > 0
                    invariant
                        i <= entries@.len(),
                        *self == Json::Object(*entries),
                        forall|k: int| i <= k < entries@.len() ==> entries@[k].0@ != key@,
                    decreases i,
                {
                    i -= 1;
                    if crate::text::text_eq(entries[i].0.as_str(), key) {
                        proof {
                            lemma_fields_model_last(entries@, entries@.len(), i as int, key@);
                        }
                        return Some(&entries[i].1);
                    }
                }
                proof {
                    lemma_fields_model_absent(entries@, entries@.len(), key@);
                }
                None
            },
            _ => None,
        }
    }
}

} // verus!
