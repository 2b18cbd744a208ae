//! JSON values: a plain tree, its mathematical model, and the texts that
//! stand for it.
use crate::table::Duplicate;
use crate::text::same_text;
use serde_json::Value;
use vstd::prelude::*;
use vstd::string::*;

verus! {

/// What a JSON value means: numbers are integers or decimal texts, an array is
/// a sequence and an object a map.
#[verifier::ext_equal]
pub enum JsonModel {
    Null,
    Bool(bool),
    Integer(int),
    Decimal(Seq<char>),
    String(Seq<char>),
    Array(Seq<JsonModel>),
    Object(Map<Seq<char>, JsonModel>),
}

/// A number that is no 64-bit integer, kept as the text that JSON gives it.
/// Only a parsed value holds one, so the text is always one that the JSON
/// writer chose.
#[derive(Debug)]
pub struct Decimal {
    text: String,
}

impl Decimal {
    /// The text of the number.
    pub closed spec fn shown(&self) -> Seq<char> {
        self.text@
    }

    /// The text of the number.
    pub fn as_text(&self) -> (text: &str)
        ensures
            text@ == self.shown(),
    {
        self.text.as_str()
    }
}

/// A JSON value. An object lists its entries; of two entries with one key the
/// later one counts.
#[derive(Debug)]
pub enum Json {
    Null,
    Bool(bool),
    Unsigned(u64),
    Signed(i64),
    Decimal(Decimal),
    String(String),
    Array(Vec<Json>),
    Object(Vec<(String, Json)>),
}

/// The model of a value.
pub open spec fn json_model(json: Json) -> JsonModel
    decreases json,
{
    match json {
        Json::Null => JsonModel::Null,
        Json::Bool(value) => JsonModel::Bool(value),
        Json::Unsigned(value) => JsonModel::Integer(value as int),
        Json::Signed(value) => JsonModel::Integer(value as int),
        Json::Decimal(value) => JsonModel::Decimal(value.shown()),
        Json::String(value) => JsonModel::String(value@),
        Json::Array(items) => JsonModel::Array(items_model(items@)),
        Json::Object(entries) => JsonModel::Object(entries_model(entries@)),
    }
}

/// The models of a list of values.
pub open spec fn items_model(items: Seq<Json>) -> Seq<JsonModel>
    decreases items,
{
    Seq::new(
        items.len(),
        |i: int|
            if 0 <= i < items.len() {
                json_model(items[i])
            } else {
                JsonModel::Null
            },
    )
}

/// The map that a list of entries stands for: each entry is inserted in turn.
pub open spec fn entries_model(entries: Seq<(String, Json)>) -> Map<Seq<char>, JsonModel>
    decreases entries,
{
    if entries.len() == 0 {
        Map::empty()
    } else {
        entries_model(entries.drop_last()).insert(
            entries.last().0@,
            json_model(entries.last().1),
        )
    }
}

impl View for Json {
    type V = JsonModel;

    open spec fn view(&self) -> JsonModel {
        json_model(*self)
    }
}

impl JsonModel {
    /// The value under a key of an object.
    pub open spec fn get(self, key: Seq<char>) -> Option<JsonModel> {
        match self {
            JsonModel::Object(fields) => if fields.contains_key(key) {
                Some(fields[key])
            } else {
                None
            },
            _ => None,
        }
    }

    /// The text of a string.
    pub open spec fn as_str(self) -> Option<Seq<char>> {
        match self {
            JsonModel::String(text) => Some(text),
            _ => None,
        }
    }

    /// The items of an array.
    pub open spec fn as_array(self) -> Option<Seq<JsonModel>> {
        match self {
            JsonModel::Array(items) => Some(items),
            _ => None,
        }
    }

    /// The fields of an object.
    pub open spec fn as_object(self) -> Option<Map<Seq<char>, JsonModel>> {
        match self {
            JsonModel::Object(fields) => Some(fields),
            _ => None,
        }
    }

    /// The truth value of a boolean.
    pub open spec fn as_bool(self) -> Option<bool> {
        match self {
            JsonModel::Bool(value) => Some(value),
            _ => None,
        }
    }

    /// The number of an integer that fits 64 bits unsigned.
    pub open spec fn as_u64(self) -> Option<u64> {
        match self {
            JsonModel::Integer(value) => if 0 <= value <= u64::MAX {
                Some(value as u64)
            } else {
                None
            },
            _ => None,
        }
    }

    /// Whether the value is a number.
    pub open spec fn is_number(self) -> bool {
        self is Integer || self is Decimal
    }

    /// Whether the value is a number that is zero or greater. A decimal text is
    /// negative when it starts with a minus sign, unless it is the negative
    /// zero.
    pub open spec fn is_non_negative(self) -> bool {
        match self {
            JsonModel::Integer(value) => value >= 0,
            JsonModel::Decimal(text) => text == "-0.0"@ || !(text.len() > 0 && text[0] == '-'),
            _ => false,
        }
    }

    /// The text under a key of an object.
    pub open spec fn text_at(self, key: Seq<char>) -> Option<Seq<char>> {
        match self.get(key) {
            Some(value) => value.as_str(),
            None => None,
        }
    }

    /// The items of the array under a key of an object.
    pub open spec fn array_at(self, key: Seq<char>) -> Option<Seq<JsonModel>> {
        match self.get(key) {
            Some(value) => value.as_array(),
            None => None,
        }
    }

    /// The value under a key of an object, if it is not null.
    pub open spec fn some_at(self, key: Seq<char>) -> Option<JsonModel> {
        match self.get(key) {
            Some(value) => if value is Null {
                None
            } else {
                Some(value)
            },
            None => None,
        }
    }

    /// Whether a key of an object holds `true`.
    pub open spec fn true_at(self, key: Seq<char>) -> bool {
        self.get(key) == Some(JsonModel::Bool(true))
    }
}

/// The model of an optional value.
pub open spec fn shown(value: Option<&Json>) -> Option<JsonModel> {
    match value {
        Some(json) => Some(json@),
        None => None,
    }
}

/// The model of an optional text.
pub open spec fn shown_text(value: Option<&str>) -> Option<Seq<char>> {
    match value {
        Some(text) => Some(text@),
        None => None,
    }
}

/// A key is in the map of a list of entries when one of the entries has it,
/// and the last such entry gives its value.
proof fn lemma_last_entry(entries: Seq<(String, Json)>, at: int)
    requires
        0 <= at < entries.len(),
        forall|j: int| at < j < entries.len() ==> entries[j].0@ != entries[at].0@,
    ensures
        entries_model(entries).contains_key(entries[at].0@),
        entries_model(entries)[entries[at].0@] == json_model(entries[at].1),
    decreases entries.len(),
{
    if at < entries.len() - 1 {
        let rest = entries.drop_last();
        assert(forall|j: int| at < j < rest.len() ==> rest[j].0@ != rest[at].0@);
        lemma_last_entry(rest, at);
    }
}

proof fn lemma_no_entry(entries: Seq<(String, Json)>, key: Seq<char>)
    requires
        forall|j: int| 0 <= j < entries.len() ==> entries[j].0@ != key,
    ensures
        !entries_model(entries).contains_key(key),
    decreases entries.len(),
{
    if entries.len() > 0 {
        lemma_no_entry(entries.drop_last(), key);
    }
}

/// Replacing the value of the last entry with a key inserts the value.
proof fn lemma_replaced_entry(entries: Seq<(String, Json)>, at: int, entry: (String, Json))
    requires
        0 <= at < entries.len(),
        entry.0@ == entries[at].0@,
        forall|j: int| at < j < entries.len() ==> entries[j].0@ != entries[at].0@,
    ensures
        entries_model(entries.update(at, entry)) == entries_model(entries).insert(
            entry.0@,
            json_model(entry.1),
        ),
    decreases entries.len(),
{
    let changed = entries.update(at, entry);
    if at == entries.len() - 1 {
        assert(changed.drop_last() =~= entries.drop_last());
        assert(entries_model(changed) =~= entries_model(entries).insert(
            entry.0@,
            json_model(entry.1),
        ));
    } else {
        let rest = entries.drop_last();
        assert(changed.drop_last() =~= rest.update(at, entry));
        assert(forall|j: int| at < j < rest.len() ==> rest[j].0@ != rest[at].0@);
        lemma_replaced_entry(rest, at, entry);
        assert(entries_model(changed) =~= entries_model(entries).insert(
            entry.0@,
            json_model(entry.1),
        ));
    }
}

/// The position of the entry that counts for a key.
fn find_entry(entries: &Vec<(String, Json)>, key: &str) -> (at: Option<usize>)
    ensures
        match at {
            Some(i) => i < entries@.len() && entries@[i as int].0@ == key@ && (forall|j: int|
                i < j < entries@.len() ==> entries@[j].0@ != key@) && entries_model(
                entries@,
            ).contains_key(key@) && entries_model(entries@)[key@] == entries@[i as int].1@,
            None => !entries_model(entries@).contains_key(key@),
        },
{
    let mut i: usize = entries.len();
    while i > 0
        invariant
            i <= entries@.len(),
            forall|j: int| i <= j < entries@.len() ==> entries@[j].0@ != key@,
        decreases i,
    {
        i -= 1;
        if same_text(entries[i].0.as_str(), key) {
            proof {
                lemma_last_entry(entries@, i as int);
            }
            return Some(i);
        }
    }
    proof {
        lemma_no_entry(entries@, key@);
    }
    None
}

/// Puts a value under a key of a list of entries.
pub fn put_entry(entries: &mut Vec<(String, Json)>, key: &str, value: Json)
    ensures
        entries_model(final(entries)@) == entries_model(old(entries)@).insert(key@, value@),
{
    match find_entry(entries, key) {
        Some(i) => {
            let ghost before = entries@;
            let entry: (String, Json) = (key.to_string(), value);
            proof {
                lemma_replaced_entry(before, i as int, entry);
            }
            entries[i] = entry;
        },
        None => {
            let ghost before = entries@;
            entries.push((key.to_string(), value));
            assert(entries@.drop_last() =~= before);
        },
    }
}

impl Json {
    /// A string value.
    pub fn text(value: &str) -> (json: Json)
        ensures
            json@ == JsonModel::String(value@),
    {
        Json::String(value.to_string())
    }

    /// The object without fields.
    pub fn object() -> (json: Json)
        ensures
            json@ == JsonModel::Object(Map::empty()),
    {
        Json::Object(Vec::new())
    }

    /// The value under a key, if this is an object that has the key.
    pub fn get(&self, key: &str) -> (value: Option<&Json>)
        ensures
            shown(value) == self@.get(key@),
    {
        match self {
            Json::Object(entries) => match find_entry(entries, key) {
                Some(i) => Some(&entries[i].1),
                None => None,
            },
            _ => None,
        }
    }

    /// The text of a string.
    pub fn as_str(&self) -> (text: Option<&str>)
        ensures
            shown_text(text) == self@.as_str(),
    {
        match self {
            Json::String(text) => Some(text.as_str()),
            _ => None,
        }
    }

    /// The items of an array.
    pub fn as_array(&self) -> (items: Option<&Vec<Json>>)
        ensures
            match items {
                Some(items) => self@.as_array() == Some(items_model(items@)),
                None => self@.as_array() is None,
            },
    {
        match self {
            Json::Array(items) => Some(items),
            _ => None,
        }
    }

    /// The entries of an object.
    pub fn as_object(&self) -> (entries: Option<&Vec<(String, Json)>>)
        ensures
            match entries {
                Some(entries) => self@.as_object() == Some(entries_model(entries@)),
                None => self@.as_object() is None,
            },
    {
        match self {
            Json::Object(entries) => Some(entries),
            _ => None,
        }
    }

    /// The truth value of a boolean.
    pub fn as_bool(&self) -> (value: Option<bool>)
        ensures
            value == self@.as_bool(),
    {
        match self {
            Json::Bool(value) => Some(*value),
            _ => None,
        }
    }

    /// The number of an integer that fits 64 bits unsigned.
    pub fn as_u64(&self) -> (value: Option<u64>)
        ensures
            value == self@.as_u64(),
    {
        match self {
            Json::Unsigned(value) => Some(*value),
            Json::Signed(value) => if *value >= 0 {
                Some(*value as u64)
            } else {
                None
            },
            _ => None,
        }
    }

    /// Whether the value is null.
    pub fn is_null(&self) -> (null: bool)
        ensures
            null == (self@ is Null),
    {
        matches!(self, Json::Null)
    }

    /// Whether the value is a string.
    pub fn is_string(&self) -> (string: bool)
        ensures
            string == (self@ is String),
    {
        matches!(self, Json::String(_))
    }

    /// Whether the value is an array.
    pub fn is_array(&self) -> (array: bool)
        ensures
            array == (self@ is Array),
    {
        matches!(self, Json::Array(_))
    }

    /// Whether the value is a number.
    pub fn is_number(&self) -> (number: bool)
        ensures
            number == self@.is_number(),
    {
        matches!(self, Json::Unsigned(_) | Json::Signed(_) | Json::Decimal(_))
    }

    /// Whether the value is a number that is zero or greater.
    pub fn is_non_negative(&self) -> (non_negative: bool)
        ensures
            non_negative == self@.is_non_negative(),
    {
        match self {
            Json::Unsigned(_) => true,
            Json::Signed(value) => *value >= 0,
            Json::Decimal(value) => {
                let text = value.as_text();
                same_text(text, "-0.0") || !(text.unicode_len() > 0 && text.get_char(0) == '-')
            },
            _ => false,
        }
    }

    /// The text under a key of an object.
    pub fn text_at(&self, key: &str) -> (text: Option<&str>)
        ensures
            shown_text(text) == self@.text_at(key@),
    {
        match self.get(key) {
            Some(value) => value.as_str(),
            None => None,
        }
    }

    /// The items of the array under a key of an object.
    pub fn array_at(&self, key: &str) -> (items: Option<&Vec<Json>>)
        ensures
            match items {
                Some(items) => self@.array_at(key@) == Some(items_model(items@)),
                None => self@.array_at(key@) is None,
            },
    {
        match self.get(key) {
            Some(value) => value.as_array(),
            None => None,
        }
    }

    /// The value under a key of an object, if it is not null.
    pub fn some_at(&self, key: &str) -> (value: Option<&Json>)
        ensures
            shown(value) == self@.some_at(key@),
    {
        match self.get(key) {
            Some(value) => if value.is_null() {
                None
            } else {
                Some(value)
            },
            None => None,
        }
    }

    /// Whether a key of an object holds `true`.
    pub fn true_at(&self, key: &str) -> (is_true: bool)
        ensures
            is_true == self@.true_at(key@),
    {
        match self.get(key) {
            Some(value) => match value.as_bool() {
                Some(value) => value,
                None => false,
            },
            None => false,
        }
    }
}

impl Clone for Decimal {
    fn clone(&self) -> (copy: Self)
        ensures
            copy == *self,
    {
        Decimal { text: self.text.clone() }
    }
}

/// Copies a list of values.
pub fn copy_items(items: &Vec<Json>) -> (copy: Vec<Json>)
    ensures
        items_model(copy@) == items_model(items@),
    decreases items,
{
    let mut copy: Vec<Json> = Vec::new();
    let mut i: usize = 0;
    while i < items.len()
        invariant
            i <= items@.len(),
            copy@.len() == i,
            forall|j: int| 0 <= j < i ==> json_model(copy@[j]) == json_model(items@[j]),
        decreases items.len() - i,
    {
        proof {
            assert(decreases_to!(items => items@[i as int]));
        }
        copy.push(copy_json(&items[i]));
        i += 1;
    }
    assert(items_model(copy@) =~= items_model(items@));
    copy
}

proof fn lemma_entries_model_agrees(a: Seq<(String, Json)>, b: Seq<(String, Json)>)
    requires
        a.len() == b.len(),
        forall|j: int|
            0 <= j < a.len() ==> a[j].0@ == b[j].0@ && json_model(a[j].1) == json_model(b[j].1),
    ensures
        entries_model(a) == entries_model(b),
    decreases a.len(),
{
    if a.len() > 0 {
        lemma_entries_model_agrees(a.drop_last(), b.drop_last());
    }
}

fn copy_entries(entries: &Vec<(String, Json)>) -> (copy: Vec<(String, Json)>)
    ensures
        entries_model(copy@) == entries_model(entries@),
    decreases entries,
{
    let mut copy: Vec<(String, Json)> = Vec::new();
    let mut i: usize = 0;
    while i < entries.len()
        invariant
            i <= entries@.len(),
            copy@.len() == i,
            forall|j: int|
                0 <= j < i ==> copy@[j].0@ == entries@[j].0@ && json_model(copy@[j].1)
                    == json_model(entries@[j].1),
        decreases entries.len() - i,
    {
        proof {
            assert(decreases_to!(entries => entries@[i as int]));
        }
        copy.push((entries[i].0.clone(), copy_json(&entries[i].1)));
        i += 1;
    }
    proof {
        lemma_entries_model_agrees(copy@, entries@);
    }
    copy
}

fn copy_json(json: &Json) -> (copy: Json)
    ensures
        copy@ == json@,
    decreases json,
{
    match json {
        Json::Null => Json::Null,
        Json::Bool(value) => Json::Bool(*value),
        Json::Unsigned(value) => Json::Unsigned(*value),
        Json::Signed(value) => Json::Signed(*value),
        Json::Decimal(value) => Json::Decimal(value.clone()),
        Json::String(value) => Json::String(value.clone()),
        Json::Array(items) => Json::Array(copy_items(items)),
        Json::Object(entries) => Json::Object(copy_entries(entries)),
    }
}

impl Clone for Json {
    fn clone(&self) -> (copy: Self)
        ensures
            copy@ == self@,
    {
        copy_json(self)
    }
}

/// Whether two decimal texts stand for equal numbers. Only zero has two texts.
pub open spec fn decimal_equal(a: Seq<char>, b: Seq<char>) -> bool {
    a == b || (is_decimal_zero(a) && is_decimal_zero(b))
}

/// Whether a decimal text is one of the zeros.
pub open spec fn is_decimal_zero(text: Seq<char>) -> bool {
    text == "0.0"@ || text == "-0.0"@
}

/// Whether two values are equal: item by item, field by field, and numbers as
/// numbers of one kind.
pub open spec fn json_equal(a: JsonModel, b: JsonModel) -> bool
    decreases a,
{
    match (a, b) {
        (JsonModel::Decimal(x), JsonModel::Decimal(y)) => decimal_equal(x, y),
        (JsonModel::Array(x), JsonModel::Array(y)) => x.len() == y.len() && forall|i: int|
            0 <= i < x.len() ==> json_equal(#[trigger] x[i], y[i]),
        (JsonModel::Object(x), JsonModel::Object(y)) => x.dom() == y.dom() && forall|key: Seq<char>|
            x.contains_key(key) ==> json_equal(#[trigger] x[key], y[key]),
        _ => a == b,
    }
}

fn same_items(a: &Vec<Json>, b: &Vec<Json>) -> (same: bool)
    ensures
        same == json_equal(
            JsonModel::Array(items_model(a@)),
            JsonModel::Array(items_model(b@)),
        ),
    decreases a,
{
    let ghost left = items_model(a@);
    let ghost right = items_model(b@);
    if a.len() != b.len() {
        return false;
    }
    let mut i: usize = 0;
    while i < a.len()
        invariant
            i <= a@.len(),
            a@.len() == b@.len(),
            left == items_model(a@),
            right == items_model(b@),
            forall|j: int| 0 <= j < i ==> json_equal(#[trigger] left[j], right[j]),
        decreases a.len() - i,
    {
        proof {
            assert(decreases_to!(a => a@[i as int]));
            assert(left[i as int] == json_model(a@[i as int]));
            assert(right[i as int] == json_model(b@[i as int]));
        }
        if !same_json(&a[i], &b[i]) {
            return false;
        }
        i += 1;
    }
    true
}

proof fn lemma_keys_have_entries(entries: Seq<(String, Json)>, key: Seq<char>)
    requires
        entries_model(entries).contains_key(key),
    ensures
        exists|j: int| 0 <= j < entries.len() && (#[trigger] entries[j]).0@ == key,
    decreases entries.len(),
{
    if entries.last().0@ == key {
        assert(entries[entries.len() - 1].0@ == key);
    } else {
        lemma_keys_have_entries(entries.drop_last(), key);
        let j = choose|j: int|
            0 <= j < entries.drop_last().len() && (#[trigger] entries.drop_last()[j]).0@ == key;
        assert(entries[j].0@ == key);
    }
}

fn same_entries(a: &Vec<(String, Json)>, b: &Vec<(String, Json)>) -> (same: bool)
    ensures
        same == json_equal(
            JsonModel::Object(entries_model(a@)),
            JsonModel::Object(entries_model(b@)),
        ),
    decreases a,
{
    let ghost left = entries_model(a@);
    let ghost right = entries_model(b@);
    let mut k: usize = 0;
    while k < b.len()
        invariant
            k <= b@.len(),
            left == entries_model(a@),
            right == entries_model(b@),
            forall|j: int| 0 <= j < k ==> left.contains_key((#[trigger] b@[j]).0@),
        decreases b.len() - k,
    {
        match find_entry(b, b[k].0.as_str()) {
            Some(_) => {},
            None => {
                proof {
                    lemma_entry_counts(b@, k as int);
                }
                return false;
            },
        }
        if find_entry(a, b[k].0.as_str()).is_none() {
            return false;
        }
        k += 1;
    }
    let mut i: usize = 0;
    while i < a.len()
        invariant
            i <= a@.len(),
            left == entries_model(a@),
            right == entries_model(b@),
            forall|j: int|
                0 <= j < i ==> right.contains_key((#[trigger] a@[j]).0@) && json_equal(
                    left[a@[j].0@],
                    right[a@[j].0@],
                ),
        decreases a.len() - i,
    {
        let key = a[i].0.as_str();
        let mine = find_entry(a, key);
        let theirs = find_entry(b, key);
        match (mine, theirs) {
            (Some(m), Some(t)) => {
                proof {
                    assert(decreases_to!(a => a@[m as int]));
                    assert(left[key@] == json_model(a@[m as int].1));
                    assert(right[key@] == json_model(b@[t as int].1));
                }
                if !same_json(&a[m].1, &b[t].1) {
                    return false;
                }
            },
            _ => {
                proof {
                    lemma_entry_counts(a@, i as int);
                }
                return false;
            },
        }
        i += 1;
    }
    proof {
        assert forall|key: Seq<char>|
            #![trigger left.dom().contains(key)]
            #![trigger left[key]]
            left.contains_key(key) implies right.contains_key(key) && json_equal(
            left[key],
            right[key],
        ) by {
            lemma_keys_have_entries(a@, key);
            let j = choose|j: int| 0 <= j < a@.len() && (#[trigger] a@[j]).0@ == key;
            assert(right.contains_key(a@[j].0@));
        }
        assert forall|key: Seq<char>| #[trigger] right.dom().contains(key) implies left.dom().contains(
            key,
        ) by {
            lemma_keys_have_entries(b@, key);
            let j = choose|j: int| 0 <= j < b@.len() && (#[trigger] b@[j]).0@ == key;
            assert(left.contains_key(b@[j].0@));
        }
        assert(left.dom() =~= right.dom());
    }
    true
}

proof fn lemma_entry_counts(entries: Seq<(String, Json)>, at: int)
    requires
        0 <= at < entries.len(),
    ensures
        entries_model(entries).contains_key(entries[at].0@),
    decreases entries.len(),
{
    if at < entries.len() - 1 {
        lemma_entry_counts(entries.drop_last(), at);
    }
}

/// Whether two values are equal.
pub fn same_json(a: &Json, b: &Json) -> (same: bool)
    ensures
        same == json_equal(a@, b@),
    decreases a,
{
    match (a, b) {
        (Json::Null, Json::Null) => true,
        (Json::Bool(x), Json::Bool(y)) => *x == *y,
        (Json::Unsigned(x), Json::Unsigned(y)) => *x == *y,
        (Json::Signed(x), Json::Signed(y)) => *x == *y,
        (Json::Unsigned(x), Json::Signed(y)) => *y >= 0 && *x == *y as u64,
        (Json::Signed(x), Json::Unsigned(y)) => *x >= 0 && *x as u64 == *y,
        (Json::Decimal(x), Json::Decimal(y)) => {
            let left = x.as_text();
            let right = y.as_text();
            same_text(left, right) || ((same_text(left, "0.0") || same_text(left, "-0.0")) && (
            same_text(right, "0.0") || same_text(right, "-0.0")))
        },
        (Json::String(x), Json::String(y)) => same_text(x.as_str(), y.as_str()),
        (Json::Array(x), Json::Array(y)) => same_items(x, y),
        (Json::Object(x), Json::Object(y)) => same_entries(x, y),
        _ => false,
    }
}

impl Json {
    /// Puts a value under a key. Null becomes an object first.
    pub fn put(&mut self, key: &str, value: Json)
        requires
            old(self)@ is Object || old(self)@ is Null,
        ensures
            final(self)@ == old(self)@.with_field(key@, value@),
    {
        let mut own = Json::Null;
        std::mem::swap(self, &mut own);
        let mut entries = match own {
            Json::Object(entries) => entries,
            _ => Vec::new(),
        };
        put_entry(&mut entries, key, value);
        *self = Json::Object(entries);
    }

    /// Takes a key out of an object; any other value stays as it is.
    pub fn without(self, key: &str) -> (rest: Json)
        ensures
            rest@ == self@.without_field(key@),
    {
        match self {
            Json::Object(entries) => {
                let mut rest: Vec<(String, Json)> = Vec::new();
                let ghost all = entries@;
                let mut i: usize = 0;
                assert(entries_model(rest@) =~= entries_model(all.take(0)).remove(key@));
                while i < entries.len()
                    invariant
                        i <= entries@.len(),
                        entries@ == all,
                        entries_model(rest@) == entries_model(all.take(i as int)).remove(key@),
                    decreases entries.len() - i,
                {
                    assert(all.take(i + 1).drop_last() =~= all.take(i as int));
                    if !same_text(entries[i].0.as_str(), key) {
                        let ghost before = rest@;
                        rest.push((entries[i].0.clone(), entries[i].1.clone()));
                        assert(rest@.drop_last() =~= before);
                    }
                    assert(entries_model(rest@) =~= entries_model(all.take(i + 1)).remove(key@));
                    i += 1;
                }
                assert(all.take(i as int) =~= all);
                Json::Object(rest)
            },
            other => other,
        }
    }
}

impl JsonModel {
    /// The object with a value under a key. Null counts as the empty object.
    pub open spec fn with_field(self, key: Seq<char>, value: JsonModel) -> JsonModel {
        match self {
            JsonModel::Object(fields) => JsonModel::Object(fields.insert(key, value)),
            _ => JsonModel::Object(Map::empty().insert(key, value)),
        }
    }

    /// The object without a key.
    pub open spec fn without_field(self, key: Seq<char>) -> JsonModel {
        match self {
            JsonModel::Object(fields) => JsonModel::Object(fields.remove(key)),
            _ => self,
        }
    }
}

/// Which fields a merge takes over.
pub enum MergeRule {
    /// All but those that are null.
    SkipNull,
    /// All.
    TakeAll,
    /// All but a null under the key `cost`.
    SkipNullCost,
}

impl MergeRule {
    /// Whether a merge takes a field over.
    pub open spec fn takes(self, key: Seq<char>, value: JsonModel) -> bool {
        match self {
            MergeRule::SkipNull => !(value is Null),
            MergeRule::TakeAll => true,
            MergeRule::SkipNullCost => !(key == "cost"@ && value is Null),
        }
    }
}

/// The fields of an object with those of a patch put over them.
pub open spec fn merged_fields(
    base: Map<Seq<char>, JsonModel>,
    patch: Map<Seq<char>, JsonModel>,
    rule: MergeRule,
) -> Map<Seq<char>, JsonModel> {
    Map::new(
        |key: Seq<char>|
            base.contains_key(key) || (patch.contains_key(key) && rule.takes(key, patch[key])),
        |key: Seq<char>|
            if patch.contains_key(key) && rule.takes(key, patch[key]) {
                patch[key]
            } else {
                base[key]
            },
    )
}

/// Whether one of the first entries has a key.
spec fn key_among(entries: Seq<(String, Json)>, count: int, key: Seq<char>) -> bool {
    exists|j: int| 0 <= j < count && (#[trigger] entries[j]).0@ == key
}

/// Puts the fields of a patch over the fields of an object.
pub fn merge_entries(base: &mut Vec<(String, Json)>, patch: &Vec<(String, Json)>, rule: MergeRule)
    ensures
        entries_model(final(base)@) == merged_fields(
            entries_model(old(base)@),
            entries_model(patch@),
            rule,
        ),
{
    let ghost before = entries_model(base@);
    let ghost fields = entries_model(patch@);
    let mut i: usize = 0;
    while i < patch.len()
        invariant
            i <= patch@.len(),
            fields == entries_model(patch@),
            forall|key: Seq<char>| #[trigger]
                entries_model(base@).dom().contains(key) <==> (before.contains_key(key) || (
                key_among(patch@, i as int, key) && fields.contains_key(key) && rule.takes(
                    key,
                    fields[key],
                ))),
            forall|key: Seq<char>| #[trigger]
                entries_model(base@).dom().contains(key) ==> entries_model(base@)[key] == if key_among(
                    patch@,
                    i as int,
                    key,
                ) && rule.takes(key, fields[key]) {
                    fields[key]
                } else {
                    before[key]
                },
        decreases patch.len() - i,
    {
        let key = patch[i].0.as_str();
        let ghost here = entries_model(base@);
        proof {
            lemma_entry_counts(patch@, i as int);
            assert forall|k: Seq<char>| #[trigger]
                key_among(patch@, i + 1, k) == (key_among(patch@, i as int, k) || k == key@) by {
                if key_among(patch@, i + 1, k) && !key_among(patch@, i as int, k) {
                    let j = choose|j: int| 0 <= j < i + 1 && (#[trigger] patch@[j]).0@ == k;
                    assert(j == i);
                }
                if key_among(patch@, i as int, k) {
                    let j = choose|j: int| 0 <= j < i && (#[trigger] patch@[j]).0@ == k;
                    assert(patch@[j].0@ == k);
                }
                assert(patch@[i as int].0@ == key@);
            }
        }
        match find_entry(patch, key) {
            Some(at) => {
                let value = &patch[at].1;
                let take = match rule {
                    MergeRule::SkipNull => !value.is_null(),
                    MergeRule::TakeAll => true,
                    MergeRule::SkipNullCost => !(same_text(key, "cost") && value.is_null()),
                };
                if take {
                    put_entry(base, key, value.clone());
                }
            },
            None => {},
        }
        i += 1;
    }
    proof {
        let merged = merged_fields(before, fields, rule);
        assert forall|key: Seq<char>| fields.contains_key(key) == key_among(
            patch@,
            patch@.len() as int,
            key,
        ) by {
            if fields.contains_key(key) {
                lemma_keys_have_entries(patch@, key);
                let j = choose|j: int| 0 <= j < patch@.len() && (#[trigger] patch@[j]).0@ == key;
                assert(patch@[j].0@ == key);
            }
            if key_among(patch@, patch@.len() as int, key) {
                let j = choose|j: int| 0 <= j < patch@.len() && (#[trigger] patch@[j]).0@ == key;
                lemma_entry_counts(patch@, j);
            }
        }
        assert(entries_model(base@) =~= merged);
    }
}

impl Duplicate for Json {
    fn duplicate(&self) -> (copy: Self) {
        copy_json(self)
    }
}

/// A value of `serde_json`.
#[verifier::external_type_specification]
#[verifier::external_body]
pub struct ExternalValue(serde_json::Value);

/// What a `serde_json` value holds: null, a boolean, a number, a string, and
/// arrays and objects of such values.
pub uninterp spec fn value_model(value: serde_json::Value) -> JsonModel;

/// What `serde_json::from_str` reads from a text, or nothing where the text is
/// no JSON.
pub uninterp spec fn json_of_text(text: Seq<char>) -> Option<JsonModel>;

/// The text that `serde_json::to_string` writes for a value.
pub uninterp spec fn text_of_json(json: JsonModel) -> Seq<char>;

/// Reads a text with `serde_json::from_str`. Whether the text is accepted and
/// what comes out depend on the text alone; which texts are accepted is not
/// stated.
#[verifier::external_body]
fn read_value(text: &str) -> (value: Option<serde_json::Value>)
    ensures
        match value {
            Some(value) => json_of_text(text@) == Some(value_model(value)),
            None => json_of_text(text@) is None,
        },
{
    serde_json::from_str(text).ok()
}

/// How deep a text may nest arrays and objects for `serde_json::from_str` to
/// read it.
pub const MAX_NESTING: u8 = 127;

/// Whether a value is free of decimals, nests arrays and objects at most so
/// deep, and has no object with the key by which `serde_json` marks a text that
/// it passes through: an object that begins with that key is not read as an
/// object.
pub open spec fn is_plain(json: JsonModel, levels: int) -> bool
    decreases json,
{
    match json {
        JsonModel::Decimal(_) => false,
        JsonModel::Array(items) => levels > 0 && forall|i: int|
            0 <= i < items.len() ==> is_plain(#[trigger] items[i], levels - 1),
        JsonModel::Object(fields) => levels > 0 && !fields.contains_key(
            "$serde_json::private::RawValue"@,
        ) && forall|key: Seq<char>|
            fields.contains_key(key) ==> is_plain(#[trigger] fields[key], levels - 1),
        _ => true,
    }
}

/// Whether a text stands for a value when it is read, as far as that is owed:
/// a value with decimals may come back with their neighbours, one that is nested
/// too deep does not come back, and one with the marking key of `serde_json` may
/// come back as another.
pub open spec fn reads_back(text: Seq<char>, json: JsonModel) -> bool {
    is_plain(json, MAX_NESTING as int) ==> json_of_text(text) == Some(json)
}

/// Writes a value with `serde_json::to_string`, which does not fail on a value
/// and sorts the fields of an object by key, so that the text depends on what
/// the value holds alone. `serde_json::from_str` reads the text back to the
/// value, but for decimals, which it may miss by a last digit, for values that
/// are nested deeper than it reads, and for objects with the key that marks a
/// raw value, which it reads as what the text under that key says. How the text
/// looks is not stated.
#[verifier::external_body]
fn write_value(value: &serde_json::Value) -> (text: String)
    ensures
        text@ == text_of_json(value_model(*value)),
        reads_back(text@, value_model(*value)),
{
    serde_json::to_string(value).unwrap()
}

/// Takes a `serde_json::Value` apart, variant by variant. Its numbers are
/// 64-bit integers or floating-point numbers; of the latter the text that
/// `serde_json::Number` prints is kept.
#[verifier::external_body]
fn value_to_json(value: &serde_json::Value) -> (json: Json)
    ensures
        json@ == value_model(*value),
{
    match value {
        Value::Null => Json::Null,
        Value::Bool(value) => Json::Bool(*value),
        Value::Number(n) if n.is_u64() => Json::Unsigned(n.as_u64().unwrap()),
        Value::Number(n) if n.is_i64() => Json::Signed(n.as_i64().unwrap()),
        Value::Number(n) => Json::Decimal(Decimal { text: n.to_string() }),
        Value::String(text) => Json::String(text.clone()),
        Value::Array(items) => Json::Array(items.iter().map(value_to_json).collect()),
        Value::Object(fields) => Json::Object(
            fields.iter().map(|field| (field.0.clone(), value_to_json(field.1))).collect(),
        ),
    }
}

/// Builds a `serde_json::Value`, variant by variant. The entries of an object go
/// in one by one with `serde_json::Map::insert`, which replaces the value of a
/// key that is there. A decimal text was printed by `serde_json::Number` and
/// reads back as the number that it was printed for.
#[verifier::external_body]
fn json_to_value(json: &Json) -> (value: serde_json::Value)
    ensures
        value_model(value) == json@,
{
    match json {
        Json::Null => Value::Null,
        Json::Bool(value) => Value::Bool(*value),
        Json::Unsigned(value) => Value::from(*value),
        Json::Signed(value) => Value::from(*value),
        Json::Decimal(value) => serde_json::Number::from_f64(value.text.parse().unwrap()).into(),
        Json::String(value) => Value::String(value.clone()),
        Json::Array(items) => items.iter().map(json_to_value).collect(),
        Json::Object(entries) => {
            let mut fields = serde_json::Map::new();
            for e in entries { fields.insert(e.0.clone(), json_to_value(&e.1)); }
            Value::Object(fields)
        },
    }
}

impl Json {
    /// Reads a JSON text.
    pub fn parse(text: &str) -> (json: Option<Json>)
        ensures
            match json {
                Some(json) => json_of_text(text@) == Some(json@),
                None => json_of_text(text@) is None,
            },
    {
        match read_value(text) {
            Some(value) => Some(value_to_json(&value)),
            None => None,
        }
    }

    /// The value that a `serde_json` value holds.
    pub fn from_value(value: &serde_json::Value) -> (json: Json)
        ensures
            json@ == value_model(*value),
    {
        value_to_json(value)
    }

    /// The `serde_json` value that holds the value.
    pub fn to_value(&self) -> (value: serde_json::Value)
        ensures
            value_model(value) == self@,
    {
        json_to_value(self)
    }

    /// Writes the value as JSON text, which reads back as the value where it is
    /// plain.
    pub fn to_text(&self) -> (text: String)
        ensures
            text@ == text_of_json(self@),
            reads_back(text@, self@),
    {
        write_value(&json_to_value(self))
    }
}

} // verus!
