use crate::assoc::{
    distinct_keys, lemma_position, lemma_position_is, lemma_position_none, lookup, merged,
    position, upsert, without,
};
use crate::text::str_eq;
use vstd::prelude::*;

pub mod codec;

verus! {

/// A JSON number as a mathematical value: an integer of any size, or the
/// literal text of a number that is not an integer.
pub enum JsonNum {
    Integer(int),
    Decimal(Seq<char>),
}

/// A JSON document as a mathematical value. An object is the sequence of its
/// members in the order in which they were added.
pub enum Json {
    Null,
    Bool(bool),
    Number(JsonNum),
    Text(Seq<char>),
    Array(Seq<Json>),
    Object(Seq<(Seq<char>, Json)>),
}

/// The members of a document that is an object; any other document has none.
pub open spec fn members_of(document: Json) -> Seq<(Seq<char>, Json)> {
    match document {
        Json::Object(members) => members,
        _ => Seq::empty(),
    }
}

/// `members` with `key` set to `value`, where there is a value.
pub open spec fn set_optional(
    members: Seq<(Seq<char>, Json)>,
    key: Seq<char>,
    value: Option<Json>,
) -> Seq<(Seq<char>, Json)> {
    match value {
        Some(v) => upsert(members, key, v),
        None => members,
    }
}

/// The view of a document that may be missing.
pub open spec fn optional_json(value: Option<JsonValue>) -> Option<Json> {
    match value {
        Some(document) => Some(document@),
        None => None,
    }
}

impl Json {
    /// The value of the member `key`, where this is an object that has it.
    pub open spec fn field(self, key: Seq<char>) -> Option<Json> {
        match self {
            Json::Object(members) => lookup(members, key),
            _ => None,
        }
    }

    /// The value of the member `key`, and `Null` where there is none.
    pub open spec fn member(self, key: Seq<char>) -> Json {
        match self.field(key) {
            Some(value) => value,
            None => Json::Null,
        }
    }

    /// The text of the member `key`, where this is an object whose member
    /// `key` is a string.
    pub open spec fn text_field(self, key: Seq<char>) -> Option<Seq<char>> {
        match self.field(key) {
            Some(Json::Text(text)) => Some(text),
            _ => None,
        }
    }
}

/// A JSON number: an unsigned or a signed integer, or the literal text of a
/// number that is not an integer.
#[derive(Debug)]
pub enum JsonNumber {
    Unsigned(u64),
    Signed(i64),
    Decimal(String),
}

/// A JSON document.
#[derive(Debug)]
pub enum JsonValue {
    Null,
    Bool(bool),
    Number(JsonNumber),
    Text(String),
    Array(Vec<JsonValue>),
    Object(JsonObject),
}

/// A JSON object: members in the order in which they were added, no key
/// twice. The order counts: two objects are equal when they hold the same
/// members in the same order.
#[derive(Debug)]
pub struct JsonObject {
    entries: Vec<(String, JsonValue)>,
}

impl View for JsonNumber {
    type V = JsonNum;

    open spec fn view(&self) -> JsonNum {
        match self {
            JsonNumber::Unsigned(n) => JsonNum::Integer(*n as int),
            JsonNumber::Signed(n) => JsonNum::Integer(*n as int),
            JsonNumber::Decimal(text) => JsonNum::Decimal(text@),
        }
    }
}

impl JsonValue {
    /// The mathematical value of this document.
    pub open spec fn model(self) -> Json
        decreases self,
    {
        match self {
            JsonValue::Null => Json::Null,
            JsonValue::Bool(b) => Json::Bool(b),
            JsonValue::Number(n) => Json::Number(n@),
            JsonValue::Text(s) => Json::Text(s@),
            JsonValue::Array(items) => Json::Array(
                Seq::new(
                    items@.len(),
                    |i: int|
                        if 0 <= i < items@.len() {
                            items@[i].model()
                        } else {
                            Json::Null
                        },
                ),
            ),
            JsonValue::Object(object) => Json::Object(object.members()),
        }
    }
}

impl View for JsonValue {
    type V = Json;

    open spec fn view(&self) -> Json {
        self.model()
    }
}

impl JsonObject {
    /// The members of this object as mathematical values.
    pub closed spec fn members(self) -> Seq<(Seq<char>, Json)>
        decreases self,
    {
        Seq::new(
            self.entries@.len(),
            |i: int|
                if 0 <= i < self.entries@.len() {
                    (self.entries@[i].0@, self.entries@[i].1.model())
                } else {
                    (Seq::empty(), Json::Null)
                },
        )
    }

    #[verifier::type_invariant]
    spec fn keys_differ(self) -> bool {
        forall|i: int, j: int|
            0 <= i < j < self.entries@.len() ==> self.entries@[i].0@ != self.entries@[j].0@
    }
}

impl View for JsonObject {
    type V = Seq<(Seq<char>, Json)>;

    open spec fn view(&self) -> Seq<(Seq<char>, Json)> {
        self.members()
    }
}

impl JsonObject {
    /// An object without members.
    pub fn new() -> (object: JsonObject)
        ensures
            object@ == Seq::<(Seq<char>, Json)>::empty(),
    {
        let object = JsonObject { entries: Vec::new() };
        assert(object@ =~= Seq::<(Seq<char>, Json)>::empty());
        object
    }

    /// The number of members.
    pub fn len(&self) -> (n: usize)
        ensures
            n == self@.len(),
            distinct_keys(self@),
    {
        proof {
            use_type_invariant(self);
        }
        self.entries.len()
    }

    fn find(&self, key: &str) -> (at: Option<usize>)
        ensures
            match at {
                Some(i) => position(self@, key@) == Some(i as int) && i < self@.len(),
                None => position(self@, key@) is None,
            },
            self@.len() == self.entries@.len(),
    {
        let mut i: usize = 0;
        while i < self.entries.len()
            invariant
                i <= self.entries@.len(),
                forall|j: int| 0 <= j < i ==> (#[trigger] self@[j]).0 != key@,
            decreases self.entries@.len() - i,
        {
            if str_eq(self.entries[i].0.as_str(), key) {
                proof {
                    lemma_position_is(self@, key@, i as int);
                }
                return Some(i);
            }
            i += 1;
        }
        proof {
            lemma_position_none(self@, key@);
        }
        None
    }

    /// The value of the member with the key `key`.
    pub fn get(&self, key: &str) -> (value: Option<&JsonValue>)
        ensures
            match lookup(self@, key@) {
                Some(v) => value is Some && value->0@ == v,
                None => value is None,
            },
    {
        match self.find(key) {
            Some(i) => Some(&self.entries[i].1),
            None => None,
        }
    }

    /// Sets the member `key` to `value`: in its place where the object has
    /// the key, at the end where it has not.
    pub fn insert(&mut self, key: String, value: JsonValue)
        ensures
            final(self)@ == upsert(old(self)@, key@, value@),
    {
        proof {
            use_type_invariant(&*self);
            lemma_position(self@, key@);
        }
        let found = self.find(key.as_str());
        let mut taken = JsonObject::new();
        core::mem::swap(self, &mut taken);
        let JsonObject { entries } = taken;
        let mut entries = entries;
        assert(forall|j: int|
            0 <= j < entries@.len() ==> (#[trigger] old(self)@[j]).0 == entries@[j].0@);
        let ghost before = entries@;
        match found {
            Some(i) => {
                entries.set(i, (key, value));
            },
            None => {
                entries.push((key, value));
            },
        }
        assert forall|i: int, j: int| 0 <= i < j < entries@.len() implies entries@[i].0@
            != entries@[j].0@ by {
            if i < before.len() {
                assert(old(self)@[i].0 == before[i].0@);
            }
            if j < before.len() {
                assert(old(self)@[j].0 == before[j].0@);
            }
        }
        *self = JsonObject { entries };
        assert(self@ =~= upsert(old(self)@, key@, value@));
    }
}

impl JsonObject {
    /// True for an object without members.
    pub fn is_empty(&self) -> (empty: bool)
        ensures
            empty == (self@.len() == 0),
    {
        self.entries.len() == 0
    }

    /// True when the object has a member with the key `key`.
    pub fn contains_key(&self, key: &str) -> (has: bool)
        ensures
            has == (lookup(self@, key@) is Some),
    {
        self.find(key).is_some()
    }

    /// The key of the member at place `i`.
    pub fn key_at(&self, i: usize) -> (key: &str)
        requires
            i < self@.len(),
        ensures
            key@ == self@[i as int].0,
    {
        self.entries[i].0.as_str()
    }

    /// The value of the member at place `i`.
    pub fn value_at(&self, i: usize) -> (value: &JsonValue)
        requires
            i < self@.len(),
        ensures
            value@ == self@[i as int].1,
    {
        &self.entries[i].1
    }

    /// Takes the member `key` out of the object and returns its value.
    pub fn remove(&mut self, key: &str) -> (removed: Option<JsonValue>)
        ensures
            final(self)@ == without(old(self)@, key@),
            match lookup(old(self)@, key@) {
                Some(v) => removed is Some && removed->0@ == v,
                None => removed is None,
            },
    {
        proof {
            use_type_invariant(&*self);
        }
        let found = self.find(key);
        let mut taken = JsonObject::new();
        core::mem::swap(self, &mut taken);
        let JsonObject { entries } = taken;
        let mut entries = entries;
        let ghost before = entries@;
        let removed = match found {
            Some(i) => {
                let (_, value) = entries.remove(i);
                Some(value)
            },
            None => None,
        };
        assert forall|i: int, j: int| 0 <= i < j < entries@.len() implies entries@[i].0@
            != entries@[j].0@ by {
            assert(exists|a: int, b: int|
                0 <= a < b < before.len() && entries@[i] == before[a] && entries@[j]
                    == before[b]) by {
                match found {
                    Some(at) => {
                        let a = if i < at { i } else { i + 1 };
                        let b = if j < at { j } else { j + 1 };
                        assert(entries@[i] == before[a] && entries@[j] == before[b]);
                    },
                    None => {
                        assert(entries@[i] == before[i] && entries@[j] == before[j]);
                    },
                }
            }
        }
        *self = JsonObject { entries };
        assert(self@ =~= without(old(self)@, key@));
        removed
    }

    /// Sets the member `key` to `value`, where there is a value.
    pub fn set(&mut self, key: &str, value: Option<JsonValue>)
        ensures
            final(self)@ == set_optional(old(self)@, key@, optional_json(value)),
    {
        match value {
            Some(v) => {
                self.insert(String::from_str(key), v);
            },
            None => {},
        }
    }

    /// Sets every member of `document` in this object, first to last, where
    /// the document is an object.
    pub fn merge(&mut self, document: &JsonValue)
        ensures
            final(self)@ == merged(old(self)@, members_of(document@)),
    {
        match document {
            JsonValue::Object(extra) => {
                self.extend(extra);
            },
            _ => {},
        }
    }

    /// Sets every member of `extra` in this object, first to last.
    pub fn extend(&mut self, extra: &JsonObject)
        ensures
            final(self)@ == merged(old(self)@, extra@),
    {
        let mut i: usize = 0;
        while i < extra.len()
            invariant
                i <= extra@.len(),
                self@ == merged(old(self)@, extra@.take(i as int)),
            decreases extra@.len() - i,
        {
            proof {
                assert(extra@.take(i + 1).drop_last() =~= extra@.take(i as int));
            }
            self.insert(String::from_str(extra.key_at(i)), extra.value_at(i).clone());
            i += 1;
        }
        proof {
            assert(extra@.take(extra@.len() as int) =~= extra@);
        }
    }
}

impl JsonValue {
    /// An object with one member.
    pub fn object1(key: &str, value: JsonValue) -> (document: JsonValue)
        ensures
            document@ == Json::Object(seq![(key@, value@)]),
    {
        let mut object = JsonObject::new();
        object.insert(String::from_str(key), value);
        assert(object@ =~= seq![(key@, value@)]);
        JsonValue::Object(object)
    }

    /// An object with two members.
    pub fn object2(k1: &str, v1: JsonValue, k2: &str, v2: JsonValue) -> (document: JsonValue)
        requires
            k1@ != k2@,
        ensures
            document@ == Json::Object(seq![(k1@, v1@), (k2@, v2@)]),
    {
        let mut object = JsonObject::new();
        object.insert(String::from_str(k1), v1);
        assert(object@ =~= seq![(k1@, v1@)]);
        proof {
            lemma_position_none(object@, k2@);
        }
        object.insert(String::from_str(k2), v2);
        assert(object@ =~= seq![(k1@, v1@), (k2@, v2@)]);
        JsonValue::Object(object)
    }

    /// An object with three members.
    pub fn object3(
        k1: &str,
        v1: JsonValue,
        k2: &str,
        v2: JsonValue,
        k3: &str,
        v3: JsonValue,
    ) -> (document: JsonValue)
        requires
            k1@ != k2@,
            k1@ != k3@,
            k2@ != k3@,
        ensures
            document@ == Json::Object(seq![(k1@, v1@), (k2@, v2@), (k3@, v3@)]),
    {
        let mut object = JsonObject::new();
        object.insert(String::from_str(k1), v1);
        assert(object@ =~= seq![(k1@, v1@)]);
        proof {
            lemma_position_none(object@, k2@);
        }
        object.insert(String::from_str(k2), v2);
        assert(object@ =~= seq![(k1@, v1@), (k2@, v2@)]);
        proof {
            lemma_position_none(object@, k3@);
        }
        object.insert(String::from_str(k3), v3);
        assert(object@ =~= seq![(k1@, v1@), (k2@, v2@), (k3@, v3@)]);
        JsonValue::Object(object)
    }
}

impl Json {
    /// The text of an optional member: `Some(None)` where the member is
    /// missing or `null`, `Some(Some(..))` where it is a string, and `None`
    /// where it is anything else.
    pub open spec fn optional_text(self, key: Seq<char>) -> Option<Option<Seq<char>>> {
        match self.field(key) {
            None => Some(None),
            Some(Json::Null) => Some(None),
            Some(Json::Text(text)) => Some(Some(text)),
            Some(_) => None,
        }
    }

    /// The value of an optional member that holds an integer from 0 to
    /// `max`: `Some(None)` where the member is missing or `null`,
    /// `Some(Some(..))` where it is such an integer, and `None` where it is
    /// anything else.
    pub open spec fn optional_count(self, key: Seq<char>, max: int) -> Option<Option<int>> {
        match self.field(key) {
            None => Some(None),
            Some(Json::Null) => Some(None),
            Some(Json::Number(JsonNum::Integer(n))) => if 0 <= n <= max {
                Some(Some(n))
            } else {
                None
            },
            Some(_) => None,
        }
    }

    /// The value of a member that must hold an integer from 0 to `max`.
    pub open spec fn count_field(self, key: Seq<char>, max: int) -> Option<int> {
        match self.field(key) {
            Some(Json::Number(JsonNum::Integer(n))) => if 0 <= n <= max {
                Some(n)
            } else {
                None
            },
            _ => None,
        }
    }

    /// The texts of a document that is an array of strings.
    pub open spec fn texts(self) -> Option<Seq<Seq<char>>> {
        match self {
            Json::Array(items) => if forall|i: int| 0 <= i < items.len() ==> items[i] is Text {
                Some(Seq::new(items.len(), |i: int| items[i]->Text_0))
            } else {
                None
            },
            _ => None,
        }
    }
}

impl JsonValue {
    /// Reads an optional member that holds a string.
    pub fn get_optional_str(&self, key: &str) -> (text: Option<Option<String>>)
        ensures
            match self@.optional_text(key@) {
                Some(Some(t)) => text matches Some(Some(found)) && found@ == t,
                Some(None) => text == Some(None::<String>),
                None => text is None,
            },
    {
        match self.get(key) {
            None => Some(None),
            Some(JsonValue::Null) => Some(None),
            Some(JsonValue::Text(text)) => Some(Some(text.clone())),
            Some(_) => None,
        }
    }

    /// Reads an optional member that holds an integer from 0 to `u64::MAX`.
    pub fn get_optional_u64(&self, key: &str) -> (number: Option<Option<u64>>)
        ensures
            match self@.optional_count(key@, u64::MAX as int) {
                Some(Some(n)) => number == Some(Some(n as u64)),
                Some(None) => number == Some(None::<u64>),
                None => number is None,
            },
    {
        match self.get(key) {
            None => Some(None),
            Some(JsonValue::Null) => Some(None),
            Some(value) => match value.as_u64() {
                Some(n) => Some(Some(n)),
                None => None,
            },
        }
    }

    /// Reads an optional member that holds an integer from 0 to `u32::MAX`.
    pub fn get_optional_u32(&self, key: &str) -> (number: Option<Option<u32>>)
        ensures
            match self@.optional_count(key@, u32::MAX as int) {
                Some(Some(n)) => number == Some(Some(n as u32)),
                Some(None) => number == Some(None::<u32>),
                None => number is None,
            },
    {
        match self.get(key) {
            None => Some(None),
            Some(JsonValue::Null) => Some(None),
            Some(value) => match value.as_u64() {
                Some(n) => if n <= 0xffff_ffff {
                    Some(Some(n as u32))
                } else {
                    None
                },
                None => None,
            },
        }
    }

    /// Reads a member that must hold an integer from 0 to `u32::MAX`.
    pub fn get_u32(&self, key: &str) -> (number: Option<u32>)
        ensures
            match self@.count_field(key@, u32::MAX as int) {
                Some(n) => number == Some(n as u32),
                None => number is None,
            },
    {
        match self.get(key) {
            Some(value) => match value.as_u64() {
                Some(n) => if n <= 0xffff_ffff {
                    Some(n as u32)
                } else {
                    None
                },
                None => None,
            },
            None => None,
        }
    }

    /// Reads a document that must be an array of strings.
    pub fn as_texts(&self) -> (texts: Option<Vec<String>>)
        ensures
            match self@.texts() {
                Some(found) => texts is Some && texts->0.deep_view() == found,
                None => texts is None,
            },
    {
        let items = match self {
            JsonValue::Array(items) => items,
            _ => {
                return None;
            },
        };
        let mut texts: Vec<String> = Vec::new();
        let mut i: usize = 0;
        while i < items.len()
            invariant
                self@ is Array,
                self@->Array_0.len() == items@.len(),
                forall|k: int| 0 <= k < items@.len() ==> (#[trigger] items@[k])@ == self@->Array_0[k],
                i <= items@.len(),
                texts@.len() == i,
                forall|k: int| 0 <= k < i ==> self@->Array_0[k] is Text,
                forall|k: int| 0 <= k < i ==> (#[trigger] texts@[k])@ == self@->Array_0[k]->Text_0,
            decreases items@.len() - i,
        {
            match &items[i] {
                JsonValue::Text(text) => {
                    texts.push(text.clone());
                },
                _ => {
                    assert(!(self@->Array_0[i as int] is Text));
                    return None;
                },
            }
            i += 1;
        }
        assert(texts.deep_view() =~= self@.texts()->0);
        Some(texts)
    }
}

impl Clone for JsonNumber {
    fn clone(&self) -> (copy: Self)
        ensures
            copy@ == self@,
    {
        match self {
            JsonNumber::Unsigned(n) => JsonNumber::Unsigned(*n),
            JsonNumber::Signed(n) => JsonNumber::Signed(*n),
            JsonNumber::Decimal(text) => JsonNumber::Decimal(text.clone()),
        }
    }
}

impl Clone for JsonValue {
    #[verifier::loop_isolation(false)]
    fn clone(&self) -> (copy: Self)
        ensures
            copy@ == self@,
        decreases self,
    {
        match self {
            JsonValue::Null => JsonValue::Null,
            JsonValue::Bool(b) => JsonValue::Bool(*b),
            JsonValue::Number(n) => JsonValue::Number(n.clone()),
            JsonValue::Text(text) => JsonValue::Text(text.clone()),
            JsonValue::Array(items) => {
                let mut copies: Vec<JsonValue> = Vec::new();
                let mut i: usize = 0;
                while i < items.len()
                    invariant
                        i <= items@.len(),
                        copies@.len() == i,
                        forall|k: int| 0 <= k < i ==> (#[trigger] copies@[k])@ == items@[k]@,
                    decreases items@.len() - i,
                {
                    copies.push(items[i].clone());
                    i += 1;
                }
                let copy = JsonValue::Array(copies);
                assert(copy@ =~= self@) by {
                    assert(copy@->Array_0 =~= self@->Array_0);
                }
                copy
            },
            JsonValue::Object(object) => JsonValue::Object(object.clone()),
        }
    }
}

impl Clone for JsonObject {
    #[verifier::loop_isolation(false)]
    fn clone(&self) -> (copy: Self)
        ensures
            copy@ == self@,
        decreases self,
    {
        proof {
            use_type_invariant(self);
        }
        let mut entries: Vec<(String, JsonValue)> = Vec::new();
        let mut i: usize = 0;
        while i < self.entries.len()
            invariant
                i <= self.entries@.len(),
                entries@.len() == i,
                forall|k: int|
                    0 <= k < i ==> (#[trigger] entries@[k]).0@ == self.entries@[k].0@
                        && entries@[k].1@ == self.entries@[k].1@,
            decreases self.entries@.len() - i,
        {
            entries.push((self.entries[i].0.clone(), self.entries[i].1.clone()));
            i += 1;
        }
        let copy = JsonObject { entries };
        assert(copy@ =~= self@);
        copy
    }
}

impl JsonValue {
    /// A JSON string with the characters of `text`.
    pub fn text(text: &str) -> (value: JsonValue)
        ensures
            value@ == Json::Text(text@),
    {
        JsonValue::Text(String::from_str(text))
    }

    /// A JSON number with the value of `n`.
    pub fn unsigned(n: u64) -> (value: JsonValue)
        ensures
            value@ == Json::Number(JsonNum::Integer(n as int)),
    {
        JsonValue::Number(JsonNumber::Unsigned(n))
    }

    /// A JSON number with the value of `n`.
    pub fn signed(n: i64) -> (value: JsonValue)
        ensures
            value@ == Json::Number(JsonNum::Integer(n as int)),
    {
        JsonValue::Number(JsonNumber::Signed(n))
    }

    /// An object without members.
    pub fn empty_object() -> (value: JsonValue)
        ensures
            value@ == Json::Object(Seq::empty()),
    {
        JsonValue::Object(JsonObject::new())
    }

    /// True for `null`.
    pub fn is_null(&self) -> (null: bool)
        ensures
            null == (self@ is Null),
    {
        match self {
            JsonValue::Null => true,
            _ => false,
        }
    }

    /// True for an object.
    pub fn is_object(&self) -> (object: bool)
        ensures
            object == (self@ is Object),
    {
        match self {
            JsonValue::Object(_) => true,
            _ => false,
        }
    }

    /// The characters of a JSON string.
    pub fn as_str(&self) -> (text: Option<&str>)
        ensures
            match self@ {
                Json::Text(t) => text is Some && text->0@ == t,
                _ => text is None,
            },
    {
        match self {
            JsonValue::Text(text) => Some(text.as_str()),
            _ => None,
        }
    }

    /// The value of a JSON boolean.
    pub fn as_bool(&self) -> (flag: Option<bool>)
        ensures
            match self@ {
                Json::Bool(b) => flag == Some(b),
                _ => flag is None,
            },
    {
        match self {
            JsonValue::Bool(b) => Some(*b),
            _ => None,
        }
    }

    /// The value of a JSON number that is an integer from 0 to `u64::MAX`.
    pub fn as_u64(&self) -> (number: Option<u64>)
        ensures
            match self@ {
                Json::Number(JsonNum::Integer(n)) if 0 <= n <= u64::MAX => number == Some(
                    n as u64,
                ),
                _ => number is None,
            },
    {
        match self {
            JsonValue::Number(JsonNumber::Unsigned(n)) => Some(*n),
            JsonValue::Number(JsonNumber::Signed(n)) => if *n >= 0 {
                Some(*n as u64)
            } else {
                None
            },
            _ => None,
        }
    }

    /// The members of a JSON object.
    pub fn as_object(&self) -> (object: Option<&JsonObject>)
        ensures
            match self@ {
                Json::Object(members) => object is Some && object->0@ == members,
                _ => object is None,
            },
    {
        match self {
            JsonValue::Object(object) => Some(object),
            _ => None,
        }
    }

    /// The items of a JSON array.
    pub fn as_array(&self) -> (items: Option<&Vec<JsonValue>>)
        ensures
            match self@ {
                Json::Array(values) => items is Some && items->0@.len() == values.len()
                    && forall|i: int|
                    0 <= i < values.len() ==> (#[trigger] items->0@[i])@ == values[i],
                _ => items is None,
            },
    {
        match self {
            JsonValue::Array(items) => Some(items),
            _ => None,
        }
    }

    /// The value of the member `key` of an object.
    pub fn get(&self, key: &str) -> (value: Option<&JsonValue>)
        ensures
            match self@.field(key@) {
                Some(v) => value is Some && value->0@ == v,
                None => value is None,
            },
    {
        match self {
            JsonValue::Object(object) => object.get(key),
            _ => None,
        }
    }

    /// The text of the member `key` of an object, where that member is a
    /// string.
    pub fn get_str(&self, key: &str) -> (text: Option<&str>)
        ensures
            match self@.text_field(key@) {
                Some(t) => text is Some && text->0@ == t,
                None => text is None,
            },
    {
        match self.get(key) {
            Some(value) => value.as_str(),
            None => None,
        }
    }

    /// A copy of the member `key` of an object, and `null` where this is no
    /// object or has no such member.
    pub fn member(&self, key: &str) -> (value: JsonValue)
        ensures
            value@ == self@.member(key@),
    {
        match self.get(key) {
            Some(value) => value.clone(),
            None => JsonValue::Null,
        }
    }

    /// An array of JSON strings, one for each string of `texts`.
    pub fn text_array(texts: &Vec<String>) -> (value: JsonValue)
        ensures
            value@ == Json::Array(texts.deep_view().map_values(|t: Seq<char>| Json::Text(t))),
    {
        let mut items: Vec<JsonValue> = Vec::new();
        let mut i: usize = 0;
        while i < texts.len()
            invariant
                i <= texts@.len(),
                items@.len() == i,
                forall|k: int| 0 <= k < i ==> (#[trigger] items@[k])@ == Json::Text(texts@[k]@),
            decreases texts@.len() - i,
        {
            items.push(JsonValue::Text(texts[i].clone()));
            i += 1;
        }
        let value = JsonValue::Array(items);
        assert(value@->Array_0 =~= texts.deep_view().map_values(|t: Seq<char>| Json::Text(t)));
        value
    }
}

impl JsonNumber {
    /// Tells whether two numbers have the same value.
    pub fn same(&self, other: &JsonNumber) -> (same: bool)
        ensures
            same == (self@ == other@),
    {
        match (self, other) {
            (JsonNumber::Unsigned(a), JsonNumber::Unsigned(b)) => *a == *b,
            (JsonNumber::Signed(a), JsonNumber::Signed(b)) => *a == *b,
            (JsonNumber::Unsigned(a), JsonNumber::Signed(b)) => *b >= 0 && *a == *b as u64,
            (JsonNumber::Signed(a), JsonNumber::Unsigned(b)) => *a >= 0 && *a as u64 == *b,
            (JsonNumber::Decimal(a), JsonNumber::Decimal(b)) => str_eq(a.as_str(), b.as_str()),
            _ => false,
        }
    }
}

impl JsonObject {
    /// Tells whether two objects have the same members in the same order.
    /// Objects that hold the same members in another order are not the same.
    #[verifier::loop_isolation(false)]
    pub fn same(&self, other: &JsonObject) -> (same: bool)
        ensures
            same == (self@ == other@),
        decreases self,
    {
        if self.entries.len() != other.entries.len() {
            assert(self@.len() != other@.len());
            return false;
        }
        let mut i: usize = 0;
        while i < self.entries.len()
            invariant
                i <= self.entries@.len(),
                self.entries@.len() == other.entries@.len(),
                forall|k: int| 0 <= k < i ==> #[trigger] self@[k] == other@[k],
            decreases self.entries@.len() - i,
        {
            if !str_eq(self.entries[i].0.as_str(), other.entries[i].0.as_str()) {
                assert(self@[i as int] != other@[i as int]);
                return false;
            }
            if !self.entries[i].1.same(&other.entries[i].1) {
                assert(self@[i as int] != other@[i as int]);
                return false;
            }
            i += 1;
        }
        assert(self@ =~= other@);
        true
    }
}

impl JsonValue {
    /// Tells whether two documents are the same: the same values, the items
    /// of arrays and the members of objects in the same order.
    #[verifier::loop_isolation(false)]
    pub fn same(&self, other: &JsonValue) -> (same: bool)
        ensures
            same == (self@ == other@),
        decreases self,
    {
        match (self, other) {
            (JsonValue::Null, JsonValue::Null) => true,
            (JsonValue::Bool(a), JsonValue::Bool(b)) => *a == *b,
            (JsonValue::Number(a), JsonValue::Number(b)) => a.same(b),
            (JsonValue::Text(a), JsonValue::Text(b)) => str_eq(a.as_str(), b.as_str()),
            (JsonValue::Array(a), JsonValue::Array(b)) => {
                if a.len() != b.len() {
                    assert(self@->Array_0.len() != other@->Array_0.len());
                    return false;
                }
                let mut i: usize = 0;
                while i < a.len()
                    invariant
                        i <= a@.len(),
                        a@.len() == b@.len(),
                        forall|k: int| 0 <= k < i ==> (#[trigger] a@[k])@ == b@[k]@,
                    decreases a@.len() - i,
                {
                    if !a[i].same(&b[i]) {
                        assert(self@->Array_0[i as int] != other@->Array_0[i as int]);
                        return false;
                    }
                    i += 1;
                }
                assert(self@->Array_0 =~= other@->Array_0);
                true
            },
            (JsonValue::Object(a), JsonValue::Object(b)) => a.same(b),
            _ => false,
        }
    }
}

impl PartialEq for JsonNumber {
    fn eq(&self, other: &JsonNumber) -> (same: bool) {
        self.same(other)
    }
}

impl vstd::std_specs::cmp::PartialEqSpecImpl for JsonNumber {
    open spec fn obeys_eq_spec() -> bool {
        true
    }

    open spec fn eq_spec(&self, other: &JsonNumber) -> bool {
        self@ == other@
    }
}

impl PartialEq for JsonObject {
    fn eq(&self, other: &JsonObject) -> (same: bool) {
        self.same(other)
    }
}

impl vstd::std_specs::cmp::PartialEqSpecImpl for JsonObject {
    open spec fn obeys_eq_spec() -> bool {
        true
    }

    open spec fn eq_spec(&self, other: &JsonObject) -> bool {
        self@ == other@
    }
}

impl PartialEq for JsonValue {
    fn eq(&self, other: &JsonValue) -> (same: bool) {
        self.same(other)
    }
}

impl vstd::std_specs::cmp::PartialEqSpecImpl for JsonValue {
    open spec fn obeys_eq_spec() -> bool {
        true
    }

    open spec fn eq_spec(&self, other: &JsonValue) -> bool {
        self@ == other@
    }
}

} // verus!
