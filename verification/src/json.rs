//! JSON values as the library reads and builds them.
//!
//! An object is a list of entries kept in key order, so two objects with the same entries
//! have the same view.

use crate::text;
use vstd::prelude::*;

verus! {

broadcast use vstd::string::group_string_axioms;

/// A JSON number: an integer where it is one, else the text that writes it.
#[derive(Debug, PartialEq, Eq)]
pub enum Number {
    Unsigned(u64),
    Negative(i64),
    Other(String),
}

/// A JSON value.
#[derive(Debug, PartialEq, Eq)]
pub enum Json {
    Null,
    Bool(bool),
    Number(Number),
    Str(String),
    Array(Vec<Json>),
    Object(JsonMap),
}

/// The entries of a JSON object.
#[derive(Debug, PartialEq, Eq)]
pub struct JsonMap {
    pub entries: Vec<(String, Json)>,
}

/// The view of a number.
pub enum NumberView {
    Unsigned(u64),
    Negative(i64),
    Other(Seq<char>),
}

/// The view of a JSON value.
pub enum JsonView {
    Null,
    Bool(bool),
    Number(NumberView),
    Str(Seq<char>),
    Array(Seq<JsonView>),
    Object(Seq<(Seq<char>, JsonView)>),
}

impl View for Number {
    type V = NumberView;

    open spec fn view(&self) -> NumberView {
        match self {
            Number::Unsigned(n) => NumberView::Unsigned(*n),
            Number::Negative(n) => NumberView::Negative(*n),
            Number::Other(text) => NumberView::Other(text@),
        }
    }
}

impl View for Json {
    type V = JsonView;

    open spec fn view(&self) -> JsonView {
        json_view(*self)
    }
}

/// The view of a JSON value, by its parts.
pub open spec fn json_view(value: Json) -> JsonView
    decreases value,
{
    match value {
        Json::Null => JsonView::Null,
        Json::Bool(b) => JsonView::Bool(b),
        Json::Number(n) => JsonView::Number(n@),
        Json::Str(s) => JsonView::Str(s@),
        Json::Array(items) => JsonView::Array(
            Seq::new(
                items@.len(),
                |i: int|
                    if 0 <= i < items@.len() {
                        json_view(items@[i])
                    } else {
                        JsonView::Null
                    },
            ),
        ),
        Json::Object(map) => JsonView::Object(
            Seq::new(
                map.entries@.len(),
                |i: int|
                    if 0 <= i < map.entries@.len() {
                        (map.entries@[i].0@, json_view(map.entries@[i].1))
                    } else {
                        (Seq::empty(), JsonView::Null)
                    },
            ),
        ),
    }
}

impl View for JsonMap {
    type V = Seq<(Seq<char>, JsonView)>;

    open spec fn view(&self) -> Seq<(Seq<char>, JsonView)> {
        entry_views(self.entries@)
    }
}

/// The views of entries, in order.
pub open spec fn entry_views(entries: Seq<(String, Json)>) -> Seq<(Seq<char>, JsonView)> {
    Seq::new(entries.len(), |i: int| (entries[i].0@, entries[i].1@))
}

/// The views of values, in order.
pub open spec fn json_views(items: Seq<Json>) -> Seq<JsonView> {
    Seq::new(items.len(), |i: int| items[i]@)
}

pub broadcast proof fn json_views_push(items: Seq<Json>, item: Json)
    ensures
        #[trigger] json_views(items.push(item)) == json_views(items).push(item@),
{
    assert(json_views(items.push(item)) =~= json_views(items).push(item@));
}

pub broadcast proof fn entry_views_push(entries: Seq<(String, Json)>, entry: (String, Json))
    ensures
        #[trigger] entry_views(entries.push(entry)) == entry_views(entries).push(
            (entry.0@, entry.1@),
        ),
{
    assert(entry_views(entries.push(entry)) =~= entry_views(entries).push((entry.0@, entry.1@)));
}

/// What an array or object looks like from outside.
pub broadcast proof fn json_view_parts(value: Json)
    ensures
        value matches Json::Array(items) ==> #[trigger] value@ == JsonView::Array(
            json_views(items@),
        ),
        value matches Json::Object(map) ==> value@ == JsonView::Object(map@),
{
    reveal_with_fuel(json_view, 2);
    match value {
        Json::Array(items) => {
            assert(value@->Array_0 =~= json_views(items@));
        },
        Json::Object(map) => {
            assert(value@->Object_0 =~= map@);
        },
        _ => {},
    }
}

/// Whether `a` comes before `b` in the order of their characters.
pub open spec fn text_before(a: Seq<char>, b: Seq<char>) -> bool
    decreases a.len(),
{
    if b.len() == 0 {
        false
    } else if a.len() == 0 {
        true
    } else if a[0] != b[0] {
        a[0] < b[0]
    } else {
        text_before(a.drop_first(), b.drop_first())
    }
}

/// Whether `a` comes before `b` in the order of their characters.
pub fn before(a: &str, b: &str) -> (result: bool)
    ensures
        result == text_before(a@, b@),
{
    let x = text::chars_of(a);
    let y = text::chars_of(b);
    let mut i: usize = 0;
    assert(a@.skip(0) == a@ && b@.skip(0) == b@);
    while i < x.len() && i < y.len()
        invariant
            x@ == a@,
            y@ == b@,
            i <= x@.len(),
            i <= y@.len(),
            text_before(a@, b@) == text_before(a@.skip(i as int), b@.skip(i as int)),
        decreases x@.len() - i,
    {
        if x[i] != y[i] {
            return x[i] < y[i];
        }
        assert(a@.skip(i as int).drop_first() == a@.skip(i + 1));
        assert(b@.skip(i as int).drop_first() == b@.skip(i + 1));
        i += 1;
    }
    i < y.len()
}

/// The value under `key`, where there is one.
pub open spec fn get_entry(entries: Seq<(Seq<char>, JsonView)>, key: Seq<char>) -> Option<JsonView>
    decreases entries.len(),
{
    if entries.len() == 0 {
        None
    } else if entries[0].0 == key {
        Some(entries[0].1)
    } else {
        get_entry(entries.drop_first(), key)
    }
}

/// The entries with `key` set to `value`, in key order.
pub open spec fn put_entry(
    entries: Seq<(Seq<char>, JsonView)>,
    key: Seq<char>,
    value: JsonView,
) -> Seq<(Seq<char>, JsonView)>
    decreases entries.len(),
{
    if entries.len() == 0 {
        seq![(key, value)]
    } else if entries[0].0 == key {
        seq![(key, value)] + entries.drop_first()
    } else if text_before(entries[0].0, key) {
        seq![entries[0]] + put_entry(entries.drop_first(), key, value)
    } else {
        seq![(key, value)] + entries
    }
}

/// The entries without the first one under `key`.
pub open spec fn drop_entry(
    entries: Seq<(Seq<char>, JsonView)>,
    key: Seq<char>,
) -> Seq<(Seq<char>, JsonView)>
    decreases entries.len(),
{
    if entries.len() == 0 {
        entries
    } else if entries[0].0 == key {
        entries.drop_first()
    } else {
        seq![entries[0]] + drop_entry(entries.drop_first(), key)
    }
}

/// A key reads back what was last put under it, and no other key is touched.
pub proof fn get_after_put(
    entries: Seq<(Seq<char>, JsonView)>,
    key: Seq<char>,
    value: JsonView,
    other: Seq<char>,
)
    ensures
        get_entry(put_entry(entries, key, value), key) == Some(value),
        other != key ==> get_entry(put_entry(entries, key, value), other) == get_entry(
            entries,
            other,
        ),
    decreases entries.len(),
{
    let put = put_entry(entries, key, value);
    if entries.len() == 0 {
        assert(put.drop_first() == entries);
    } else if entries[0].0 == key {
        assert(put.drop_first() == entries.drop_first());
    } else if text_before(entries[0].0, key) {
        get_after_put(entries.drop_first(), key, value, other);
        assert(put.drop_first() == put_entry(entries.drop_first(), key, value));
    } else {
        assert(put.drop_first() == entries);
    }
}

impl JsonMap {
    /// An object without entries.
    pub fn new() -> (result: JsonMap)
        ensures
            result@ == Seq::<(Seq<char>, JsonView)>::empty(),
    {
        let result = JsonMap { entries: Vec::new() };
        assert(result@ == Seq::<(Seq<char>, JsonView)>::empty());
        result
    }

    /// The number of entries.
    pub fn len(&self) -> (result: usize)
        ensures
            result == self@.len(),
    {
        self.entries.len()
    }

    /// Whether there is no entry.
    pub fn is_empty(&self) -> (result: bool)
        ensures
            result == (self@.len() == 0),
    {
        self.entries.len() == 0
    }

    /// The position of the first entry under `key`, or the number of entries.
    fn position(&self, key: &str) -> (result: usize)
        ensures
            result <= self@.len(),
            forall|j: int| 0 <= j < result ==> (#[trigger] self@[j]).0 != key@,
            result < self@.len() ==> self@[result as int].0 == key@,
    {
        let mut i: usize = 0;
        while i < self.entries.len()
            invariant
                i <= self.entries@.len(),
                forall|j: int| 0 <= j < i ==> (#[trigger] self@[j]).0 != key@,
            decreases self.entries@.len() - i,
        {
            if text::same(self.entries[i].0.as_str(), key) {
                return i;
            }
            i += 1;
        }
        i
    }

    /// The value under `key`, where there is one.
    pub fn get(&self, key: &str) -> (result: Option<&Json>)
        ensures
            result is Some <==> get_entry(self@, key@) is Some,
            result matches Some(value) ==> get_entry(self@, key@) == Some(value@),
    {
        let i = self.position(key);
        proof {
            lemma_get_entry(self@, key@, i as int);
        }
        if i < self.entries.len() {
            Some(&self.entries[i].1)
        } else {
            None
        }
    }

    /// Sets `key` to `value`.
    pub fn put(&mut self, key: &str, value: Json)
        ensures
            final(self)@ == put_entry(old(self)@, key@, value@),
    {
        let ghost start = self@;
        let mut i: usize = 0;
        while i < self.entries.len() && before(self.entries[i].0.as_str(), key)
            invariant
                i <= self.entries@.len(),
                self@ == start,
                forall|j: int|
                    0 <= j < i ==> text_before((#[trigger] self@[j]).0, key@) && self@[j].0 != key@,
            decreases self.entries@.len() - i,
        {
            proof {
                lemma_before_differs(self@[i as int].0, key@);
            }
            i += 1;
        }
        proof {
            lemma_put_entry(start, key@, value@, i as int);
        }
        if i < self.entries.len() && text::same(self.entries[i].0.as_str(), key) {
            self.entries.set(i, (key.to_owned(), value));
            assert(self@ == start.update(i as int, (key@, value@)));
        } else {
            self.entries.insert(i, (key.to_owned(), value));
            assert(self@ == start.insert(i as int, (key@, value@)));
        }
    }

    /// Takes the entry under `key` away, and tells whether there was one.
    pub fn remove(&mut self, key: &str) -> (result: bool)
        ensures
            final(self)@ == drop_entry(old(self)@, key@),
            result == (get_entry(old(self)@, key@) is Some),
    {
        let i = self.position(key);
        let ghost start = self@;
        proof {
            lemma_get_entry(start, key@, i as int);
            lemma_drop_entry(start, key@, i as int);
        }
        if i < self.entries.len() {
            let _ = self.entries.remove(i);
            assert(self@ == start.remove(i as int));
            true
        } else {
            false
        }
    }

    /// An equal object of its own.
    pub fn copy(&self) -> (result: JsonMap)
        ensures
            result@ == self@,
        decreases self,
    {
        broadcast use entry_views_push;

        let mut entries: Vec<(String, Json)> = Vec::new();
        let mut i: usize = 0;
        while i < self.entries.len()
            invariant
                i <= self.entries@.len(),
                entry_views(entries@) == self@.take(i as int),
            decreases self.entries@.len() - i,
        {
            let entry = &self.entries[i];
            assert(decreases_to!(self => self.entries@[i as int].1));
            let value = entry.1.copy();
            assert(self@[i as int] == (entry.0@, value@));
            entries.push((entry.0.clone(), value));
            proof {
                text::take_next(self@, i as int);
            }
            i += 1;
        }
        let result = JsonMap { entries };
        assert(result@ == self@);
        result
    }
}

/// A text does not come before itself.
pub proof fn lemma_before_differs(a: Seq<char>, b: Seq<char>)
    requires
        text_before(a, b),
    ensures
        a != b,
    decreases a.len(),
{
    if a.len() > 0 && b.len() > 0 && a[0] == b[0] {
        lemma_before_differs(a.drop_first(), b.drop_first());
    }
}

/// The value under a key stands at the first position that has the key.
pub proof fn lemma_get_entry(entries: Seq<(Seq<char>, JsonView)>, key: Seq<char>, i: int)
    requires
        0 <= i <= entries.len(),
        forall|j: int| 0 <= j < i ==> (#[trigger] entries[j]).0 != key,
        i < entries.len() ==> entries[i].0 == key,
    ensures
        get_entry(entries, key) == (if i < entries.len() {
            Some(entries[i].1)
        } else {
            None
        }),
    decreases entries.len(),
{
    if entries.len() > 0 && entries[0].0 != key {
        lemma_get_entry(entries.drop_first(), key, i - 1);
    }
}

/// Dropping a key takes the entry at its first position away.
pub proof fn lemma_drop_entry(entries: Seq<(Seq<char>, JsonView)>, key: Seq<char>, i: int)
    requires
        0 <= i <= entries.len(),
        forall|j: int| 0 <= j < i ==> (#[trigger] entries[j]).0 != key,
        i < entries.len() ==> entries[i].0 == key,
    ensures
        drop_entry(entries, key) == (if i < entries.len() {
            entries.remove(i)
        } else {
            entries
        }),
    decreases entries.len(),
{
    if entries.len() > 0 && entries[0].0 != key {
        let rest = entries.drop_first();
        lemma_drop_entry(rest, key, i - 1);
        if i < entries.len() {
            assert(seq![entries[0]] + rest.remove(i - 1) == entries.remove(i));
        } else {
            assert(seq![entries[0]] + rest == entries);
        }
    } else if entries.len() > 0 {
        assert(entries.drop_first() == entries.remove(0));
    }
}

/// Putting a key changes the position that has it, or else the one where it belongs.
pub proof fn lemma_put_entry(
    entries: Seq<(Seq<char>, JsonView)>,
    key: Seq<char>,
    value: JsonView,
    i: int,
)
    requires
        0 <= i <= entries.len(),
        forall|j: int|
            0 <= j < i ==> text_before((#[trigger] entries[j]).0, key) && entries[j].0 != key,
        i < entries.len() ==> !text_before(entries[i].0, key),
    ensures
        put_entry(entries, key, value) == (if i < entries.len() && entries[i].0 == key {
            entries.update(i, (key, value))
        } else {
            entries.insert(i, (key, value))
        }),
    decreases entries.len(),
{
    let put = put_entry(entries, key, value);
    if entries.len() == 0 {
        assert(put == entries.insert(i, (key, value)));
    } else if i == 0 {
        if entries[0].0 == key {
            assert(put == entries.update(0, (key, value)));
        } else {
            assert(put == entries.insert(0, (key, value)));
        }
    } else {
        let rest = entries.drop_first();
        assert(entries[0].0 != key && text_before(entries[0].0, key));
        lemma_put_entry(rest, key, value, i - 1);
        if i < entries.len() && entries[i].0 == key {
            assert(seq![entries[0]] + rest.update(i - 1, (key, value)) == entries.update(
                i,
                (key, value),
            ));
        } else {
            assert(seq![entries[0]] + rest.insert(i - 1, (key, value)) == entries.insert(
                i,
                (key, value),
            ));
        }
    }
}

impl Json {
    /// An equal value of its own.
    pub fn copy(&self) -> (result: Json)
        ensures
            result@ == self@,
        decreases self,
    {
        broadcast use {json_view_parts, json_views_push};

        match self {
            Json::Null => Json::Null,
            Json::Bool(b) => Json::Bool(*b),
            Json::Number(n) => Json::Number(
                match n {
                    Number::Unsigned(n) => Number::Unsigned(*n),
                    Number::Negative(n) => Number::Negative(*n),
                    Number::Other(text) => Number::Other(text.clone()),
                },
            ),
            Json::Str(s) => Json::Str(s.clone()),
            Json::Array(items) => {
                let mut copies: Vec<Json> = Vec::new();
                let mut i: usize = 0;
                while i < items.len()
                    invariant
                        i <= items@.len(),
                        *self == Json::Array(*items),
                        json_views(copies@) == json_views(items@).take(i as int),
                    decreases items@.len() - i,
                {
                    assert(decreases_to!(self => self->Array_0@[i as int]));
                    let item = items[i].copy();
                    assert(json_views(items@)[i as int] == item@);
                    copies.push(item);
                    proof {
                        text::take_next(json_views(items@), i as int);
                    }
                    i += 1;
                }
                assert(json_views(items@).take(i as int) == json_views(items@));
                Json::Array(copies)
            },
            Json::Object(map) => Json::Object(map.copy()),
        }
    }
}

/// The entries that pairs make, the first pair under a key deciding.
pub open spec fn put_all(pairs: Seq<(Seq<char>, JsonView)>) -> Seq<(Seq<char>, JsonView)>
    decreases pairs.len(),
{
    if pairs.len() == 0 {
        pairs
    } else {
        put_entry(put_all(pairs.drop_first()), pairs[0].0, pairs[0].1)
    }
}

/// The object that pairs make.
pub open spec fn object_of(pairs: Seq<(Seq<char>, JsonView)>) -> JsonView {
    JsonView::Object(put_all(pairs))
}

/// A member of an object made from pairs is the value of the first pair under its key.
pub proof fn object_field(pairs: Seq<(Seq<char>, JsonView)>, i: int)
    requires
        0 <= i < pairs.len(),
        forall|j: int| 0 <= j < i ==> (#[trigger] pairs[j]).0 != pairs[i].0,
    ensures
        object_of(pairs).field(pairs[i].0) == pairs[i].1,
        get_entry(put_all(pairs), pairs[i].0) == Some(pairs[i].1),
    decreases pairs.len(),
{
    let rest = pairs.drop_first();
    get_after_put(put_all(rest), pairs[0].0, pairs[0].1, pairs[i].0);
    if i > 0 {
        assert forall|j: int| 0 <= j < i - 1 implies (#[trigger] rest[j]).0 != rest[i - 1].0 by {
            assert(pairs[j + 1].0 != pairs[i].0);
        }
        object_field(rest, i - 1);
        assert(pairs[0].0 != pairs[i].0);
    }
}

/// An object made from pairs has no member under a key that no pair has.
pub proof fn object_without_field(pairs: Seq<(Seq<char>, JsonView)>, key: Seq<char>)
    requires
        forall|j: int| 0 <= j < pairs.len() ==> (#[trigger] pairs[j]).0 != key,
    ensures
        object_of(pairs).field(key) == JsonView::Null,
        get_entry(put_all(pairs), key) is None,
    decreases pairs.len(),
{
    if pairs.len() > 0 {
        let rest = pairs.drop_first();
        assert forall|j: int| 0 <= j < rest.len() implies (#[trigger] rest[j]).0 != key by {
            assert(pairs[j + 1].0 != key);
        }
        object_without_field(rest, key);
        get_after_put(put_all(rest), pairs[0].0, pairs[0].1, key);
        assert(pairs[0].0 != key);
    }
}

/// The views of pairs, in order.
pub open spec fn pair_views(pairs: Seq<(&str, Json)>) -> Seq<(Seq<char>, JsonView)> {
    Seq::new(pairs.len(), |i: int| (pairs[i].0@, pairs[i].1@))
}

/// A text, or null where there is none.
pub open spec fn str_or_null(value: Option<Seq<char>>) -> JsonView {
    match value {
        Some(s) => JsonView::Str(s),
        None => JsonView::Null,
    }
}

/// The view of an optional text.
pub open spec fn opt_view(value: Option<String>) -> Option<Seq<char>> {
    match value {
        Some(s) => Some(s@),
        None => None,
    }
}

/// The view of an optional borrowed text.
pub open spec fn opt_str_view(value: Option<&str>) -> Option<Seq<char>> {
    match value {
        Some(s) => Some(s@),
        None => None,
    }
}

/// An array of texts.
pub open spec fn str_array(items: Seq<Seq<char>>) -> JsonView {
    JsonView::Array(items.map_values(|s: Seq<char>| JsonView::Str(s)))
}

impl JsonView {
    /// The member under `key`: null where this is no object or has no such member.
    pub open spec fn field(self, key: Seq<char>) -> JsonView {
        match self {
            JsonView::Object(entries) => match get_entry(entries, key) {
                Some(value) => value,
                None => JsonView::Null,
            },
            _ => JsonView::Null,
        }
    }

    /// The text, where this is one.
    pub open spec fn str(self) -> Option<Seq<char>> {
        match self {
            JsonView::Str(s) => Some(s),
            _ => None,
        }
    }

    /// The unsigned integer, where this is one.
    pub open spec fn u64(self) -> Option<u64> {
        match self {
            JsonView::Number(NumberView::Unsigned(n)) => Some(n),
            _ => None,
        }
    }

    /// The truth value, where this is one.
    pub open spec fn bool(self) -> Option<bool> {
        match self {
            JsonView::Bool(b) => Some(b),
            _ => None,
        }
    }

    /// The items, where this is an array.
    pub open spec fn array(self) -> Option<Seq<JsonView>> {
        match self {
            JsonView::Array(items) => Some(items),
            _ => None,
        }
    }
}

impl Json {
    /// The object that pairs make.
    pub fn object(pairs: Vec<(&str, Json)>) -> (result: Json)
        ensures
            result@ == object_of(pair_views(pairs@)),
    {
        broadcast use json_view_parts;

        let ghost all = pair_views(pairs@);
        let mut rest = pairs;
        let mut map = JsonMap::new();
        assert(all.skip(rest@.len() as int) == Seq::<(Seq<char>, JsonView)>::empty());
        while rest.len() > 0
            invariant
                rest@.len() <= all.len(),
                pair_views(rest@) == all.take(rest@.len() as int),
                map@ == put_all(all.skip(rest@.len() as int)),
            decreases rest@.len(),
        {
            let ghost n = rest@.len() as int;
            let ghost before = rest@;
            let pair = rest.pop().unwrap();
            assert(pair_views(before)[n - 1] == (pair.0@, pair.1@));
            assert(all[n - 1] == (pair.0@, pair.1@));
            assert(all.skip(n - 1).drop_first() == all.skip(n));
            assert(pair_views(rest@) == all.take(n - 1));
            map.put(pair.0, pair.1);
        }
        assert(all.skip(0) == all);
        Json::Object(map)
    }

    /// An object with one member.
    pub fn object1(key: &str, value: Json) -> (result: Json)
        ensures
            result@ == object_of(seq![(key@, value@)]),
    {
        let ghost wanted = seq![(key@, value@)];
        let pairs = vec![(key, value)];
        assert(pair_views(pairs@) =~= wanted);
        Json::object(pairs)
    }

    /// An object with two members.
    pub fn object2(key1: &str, value1: Json, key2: &str, value2: Json) -> (result: Json)
        ensures
            result@ == object_of(seq![(key1@, value1@), (key2@, value2@)]),
    {
        let ghost wanted = seq![(key1@, value1@), (key2@, value2@)];
        let pairs = vec![(key1, value1), (key2, value2)];
        assert(pair_views(pairs@) =~= wanted);
        Json::object(pairs)
    }

    /// An object with three members.
    pub fn object3(key1: &str, value1: Json, key2: &str, value2: Json, key3: &str, value3: Json) -> (result: Json)
        ensures
            result@ == object_of(seq![(key1@, value1@), (key2@, value2@), (key3@, value3@)]),
    {
        let ghost wanted = seq![(key1@, value1@), (key2@, value2@), (key3@, value3@)];
        let pairs = vec![(key1, value1), (key2, value2), (key3, value3)];
        assert(pair_views(pairs@) =~= wanted);
        Json::object(pairs)
    }

    /// An object with four members.
    pub fn object4(key1: &str, value1: Json, key2: &str, value2: Json, key3: &str, value3: Json, key4: &str, value4: Json) -> (result: Json)
        ensures
            result@ == object_of(seq![(key1@, value1@), (key2@, value2@), (key3@, value3@), (key4@, value4@)]),
    {
        let ghost wanted = seq![(key1@, value1@), (key2@, value2@), (key3@, value3@), (key4@, value4@)];
        let pairs = vec![(key1, value1), (key2, value2), (key3, value3), (key4, value4)];
        assert(pair_views(pairs@) =~= wanted);
        Json::object(pairs)
    }

    /// An object with five members.
    pub fn object5(key1: &str, value1: Json, key2: &str, value2: Json, key3: &str, value3: Json, key4: &str, value4: Json, key5: &str, value5: Json) -> (result: Json)
        ensures
            result@ == object_of(seq![(key1@, value1@), (key2@, value2@), (key3@, value3@), (key4@, value4@), (key5@, value5@)]),
    {
        let ghost wanted = seq![(key1@, value1@), (key2@, value2@), (key3@, value3@), (key4@, value4@), (key5@, value5@)];
        let pairs = vec![(key1, value1), (key2, value2), (key3, value3), (key4, value4), (key5, value5)];
        assert(pair_views(pairs@) =~= wanted);
        Json::object(pairs)
    }

    /// A text value.
    pub fn text(value: &str) -> (result: Json)
        ensures
            result@ == JsonView::Str(value@),
    {
        Json::Str(value.to_owned())
    }

    /// A text value, or null where there is no text.
    pub fn text_or_null(value: &Option<String>) -> (result: Json)
        ensures
            result@ == str_or_null(opt_view(*value)),
    {
        match value {
            Some(s) => Json::Str(s.clone()),
            None => Json::Null,
        }
    }

    /// A text value, or null where there is no text.
    pub fn str_or_null(value: Option<&str>) -> (result: Json)
        ensures
            result@ == str_or_null(opt_str_view(value)),
    {
        match value {
            Some(s) => Json::Str(s.to_owned()),
            None => Json::Null,
        }
    }

    /// A truth value.
    pub fn flag(value: bool) -> (result: Json)
        ensures
            result@ == JsonView::Bool(value),
    {
        Json::Bool(value)
    }

    /// The null value.
    pub fn null() -> (result: Json)
        ensures
            result@ == JsonView::Null,
    {
        Json::Null
    }

    /// An array of values.
    pub fn array(items: Vec<Json>) -> (result: Json)
        ensures
            result@ == JsonView::Array(json_views(items@)),
    {
        broadcast use json_view_parts;

        Json::Array(items)
    }

    /// An array of one value.
    pub fn array1(value: Json) -> (result: Json)
        ensures
            result@ == JsonView::Array(seq![value@]),
    {
        broadcast use json_view_parts;

        let ghost wanted = seq![value@];
        let items = vec![value];
        assert(json_views(items@) =~= wanted);
        Json::Array(items)
    }

    /// An integer value.
    pub fn uint(value: u64) -> (result: Json)
        ensures
            result@ == JsonView::Number(NumberView::Unsigned(value)),
    {
        Json::Number(Number::Unsigned(value))
    }

    /// An array of texts.
    pub fn texts(items: &Vec<String>) -> (result: Json)
        ensures
            result@ == str_array(text::views(items@)),
    {
        broadcast use {json_view_parts, json_views_push};

        let ghost all = text::views(items@).map_values(|s: Seq<char>| JsonView::Str(s));
        let mut values: Vec<Json> = Vec::new();
        let mut i: usize = 0;
        assert(json_views(values@) == all.take(0));
        while i < items.len()
            invariant
                i <= items@.len(),
                all == text::views(items@).map_values(|s: Seq<char>| JsonView::Str(s)),
                json_views(values@) == all.take(i as int),
            decreases items@.len() - i,
        {
            values.push(Json::Str(items[i].clone()));
            proof {
                text::take_next(all, i as int);
            }
            i += 1;
        }
        assert(all.take(i as int) == all);
        Json::Array(values)
    }

    /// The member under `key`, where this is an object that has one.
    pub fn get(&self, key: &str) -> (result: Option<&Json>)
        ensures
            result matches Some(value) ==> value@ == self@.field(key@) && *self is Object,
            result is None ==> self@.field(key@) == JsonView::Null,
            result is Some <==> (self@ is Object && get_entry(self@->Object_0, key@) is Some),
    {
        broadcast use json_view_parts;

        match self {
            Json::Object(map) => map.get(key),
            _ => None,
        }
    }

    /// The text, where this is one.
    pub fn as_str(&self) -> (result: Option<&str>)
        ensures
            opt_str_view(result) == self@.str(),
    {
        match self {
            Json::Str(s) => Some(s.as_str()),
            _ => None,
        }
    }

    /// The unsigned integer, where this is one.
    pub fn as_u64(&self) -> (result: Option<u64>)
        ensures
            result == self@.u64(),
    {
        match self {
            Json::Number(Number::Unsigned(n)) => Some(*n),
            _ => None,
        }
    }

    /// The truth value, where this is one.
    pub fn as_bool(&self) -> (result: Option<bool>)
        ensures
            result == self@.bool(),
    {
        match self {
            Json::Bool(b) => Some(*b),
            _ => None,
        }
    }

    /// The items, where this is an array.
    pub fn as_array(&self) -> (result: Option<&Vec<Json>>)
        ensures
            result matches Some(items) ==> self@ == JsonView::Array(json_views(items@)) && *self
                == Json::Array(*items),
            result is None ==> self@.array() is None,
    {
        broadcast use json_view_parts;

        match self {
            Json::Array(items) => Some(items),
            _ => None,
        }
    }

    /// The entries, where this is an object.
    pub fn as_object(&self) -> (result: Option<&JsonMap>)
        ensures
            result matches Some(map) ==> self@ == JsonView::Object(map@) && *self == Json::Object(
                *map,
            ),
            result is None ==> !(self@ is Object),
    {
        broadcast use json_view_parts;

        match self {
            Json::Object(map) => Some(map),
            _ => None,
        }
    }

    /// Whether this is null.
    pub fn is_null(&self) -> (result: bool)
        ensures
            result == (self@ == JsonView::Null),
    {
        match self {
            Json::Null => true,
            _ => false,
        }
    }

    /// The text of the member under `key`, where there is one.
    pub fn str_at(&self, key: &str) -> (result: Option<&str>)
        ensures
            opt_str_view(result) == self@.field(key@).str(),
    {
        match self.get(key) {
            Some(value) => value.as_str(),
            None => None,
        }
    }

    /// Whether the member under `key` is the truth value `true`.
    pub fn true_at(&self, key: &str) -> (result: bool)
        ensures
            result == (self@.field(key@) == JsonView::Bool(true)),
    {
        match self.get(key) {
            Some(Json::Bool(b)) => *b,
            _ => false,
        }
    }
}

/// The value under a key is the value of some entry.
proof fn lemma_member(entries: Seq<(Seq<char>, JsonView)>, key: Seq<char>)
    ensures
        get_entry(entries, key) matches Some(value) ==> exists|i: int|
            0 <= i < entries.len() && #[trigger] entries[i].1 == value,
    decreases entries.len(),
{
    if entries.len() > 0 && entries[0].0 != key {
        let rest = entries.drop_first();
        lemma_member(rest, key);
        if let Some(value) = get_entry(rest, key) {
            let i = choose|i: int| 0 <= i < rest.len() && #[trigger] rest[i].1 == value;
            assert(entries[i + 1].1 == value);
        }
    }
}

/// A member is smaller than the object that holds it, and so are its items.
pub proof fn member_is_smaller(value: JsonView, key: Seq<char>)
    ensures
        value.field(key) is Object ==> decreases_to!(value => value.field(key)),
        value.field(key) matches JsonView::Array(items) ==> decreases_to!(value => items),
{
    if let JsonView::Object(entries) = value {
        lemma_member(entries, key);
        if let Some(member) = get_entry(entries, key) {
            let i = choose|i: int| 0 <= i < entries.len() && #[trigger] entries[i].1 == member;
            assert(decreases_to!(value => value->Object_0[i].1));
            if let JsonView::Array(items) = member {
                assert(decreases_to!(member => member->Array_0));
            }
        }
    }
}

/// Of two different texts, one comes before the other.
pub proof fn before_is_total(a: Seq<char>, b: Seq<char>)
    ensures
        a != b ==> text_before(a, b) || text_before(b, a),
    decreases a.len(),
{
    if a.len() == 0 {
        if b.len() == 0 {
            assert(a =~= b);
        }
    } else if b.len() > 0 && a[0] == b[0] {
        before_is_total(a.drop_first(), b.drop_first());
        if a.drop_first() == b.drop_first() {
            assert(seq![a[0]] + a.drop_first() =~= a);
            assert(seq![b[0]] + b.drop_first() =~= b);
        }
    }
}

/// What comes before a text comes before everything behind it.
pub proof fn before_is_transitive(a: Seq<char>, b: Seq<char>, c: Seq<char>)
    requires
        text_before(a, b),
        text_before(b, c),
    ensures
        text_before(a, c),
    decreases a.len(),
{
    if a.len() > 0 && a[0] == b[0] && b[0] == c[0] {
        before_is_transitive(a.drop_first(), b.drop_first(), c.drop_first());
    }
}

/// Whether entries stand in the order of their keys, each key once.
pub open spec fn keys_ordered(entries: Seq<(Seq<char>, JsonView)>) -> bool {
    forall|i: int, j: int|
        0 <= i < j < entries.len() ==> text_before(
            (#[trigger] entries[i]).0,
            (#[trigger] entries[j]).0,
        )
}

/// Putting a key keeps the order of the keys.
pub proof fn put_keeps_order(entries: Seq<(Seq<char>, JsonView)>, key: Seq<char>, value: JsonView)
    requires
        keys_ordered(entries),
    ensures
        keys_ordered(put_entry(entries, key, value)),
        forall|i: int|
            0 <= i < put_entry(entries, key, value).len() ==> (#[trigger] put_entry(
                entries,
                key,
                value,
            )[i]).0 == key || exists|k: int|
                0 <= k < entries.len() && (#[trigger] entries[k]).0 == put_entry(
                    entries,
                    key,
                    value,
                )[i].0,
    decreases entries.len(),
{
    let put = put_entry(entries, key, value);
    if entries.len() == 0 {
    } else if entries[0].0 == key {
        assert forall|i: int| 0 <= i < put.len() implies (#[trigger] put[i]).0 == key || exists|
            k: int,
        |
            0 <= k < entries.len() && (#[trigger] entries[k]).0 == put[i].0 by {
            assert(entries[i].0 == put[i].0);
        }
        assert forall|i: int, j: int| 0 <= i < j < put.len() implies text_before(
            (#[trigger] put[i]).0,
            (#[trigger] put[j]).0,
        ) by {
            assert(text_before(entries[i].0, entries[j].0));
        }
    } else if text_before(entries[0].0, key) {
        let rest = entries.drop_first();
        let inner = put_entry(rest, key, value);
        put_keeps_order(rest, key, value);
        assert forall|i: int| 0 <= i < inner.len() implies text_before(
            entries[0].0,
            (#[trigger] inner[i]).0,
        ) by {
            if inner[i].0 != key {
                let k = choose|k: int| 0 <= k < rest.len() && (#[trigger] rest[k]).0 == inner[i].0;
                assert(text_before(entries[0].0, entries[k + 1].0));
            }
        }
        assert forall|i: int, j: int| 0 <= i < j < put.len() implies text_before(
            (#[trigger] put[i]).0,
            (#[trigger] put[j]).0,
        ) by {
            if i == 0 {
                assert(put[j] == inner[j - 1]);
            } else {
                assert(text_before(inner[i - 1].0, inner[j - 1].0));
            }
        }
        assert forall|i: int| 0 <= i < put.len() implies (#[trigger] put[i]).0 == key || exists|
            k: int,
        |
            0 <= k < entries.len() && (#[trigger] entries[k]).0 == put[i].0 by {
            if i == 0 {
                assert(entries[0].0 == put[0].0);
            } else {
                assert(put[i] == inner[i - 1]);
                if inner[i - 1].0 != key {
                    let k = choose|k: int|
                        0 <= k < rest.len() && (#[trigger] rest[k]).0 == inner[i - 1].0;
                    assert(entries[k + 1].0 == put[i].0);
                }
            }
        }
    } else {
        before_is_total(entries[0].0, key);
        assert forall|i: int, j: int| 0 <= i < j < put.len() implies text_before(
            (#[trigger] put[i]).0,
            (#[trigger] put[j]).0,
        ) by {
            if i == 0 {
                if j > 1 {
                    assert(text_before(entries[0].0, entries[j - 1].0));
                    before_is_transitive(key, entries[0].0, entries[j - 1].0);
                }
            } else {
                assert(text_before(entries[i - 1].0, entries[j - 1].0));
            }
        }
        assert forall|i: int| 0 <= i < put.len() implies (#[trigger] put[i]).0 == key || exists|
            k: int,
        |
            0 <= k < entries.len() && (#[trigger] entries[k]).0 == put[i].0 by {
            if i > 0 {
                assert(entries[i - 1].0 == put[i].0);
            }
        }
    }
}

/// Dropping a key keeps the order of the keys, and leaves no entry under it.
pub proof fn drop_keeps_order(entries: Seq<(Seq<char>, JsonView)>, key: Seq<char>)
    requires
        keys_ordered(entries),
    ensures
        keys_ordered(drop_entry(entries, key)),
        get_entry(drop_entry(entries, key), key) is None,
        forall|other: Seq<char>|
            other != key ==> #[trigger] get_entry(drop_entry(entries, key), other) == get_entry(
                entries,
                other,
            ),
        forall|i: int|
            0 <= i < drop_entry(entries, key).len() ==> exists|k: int|
                0 <= k < entries.len() && (#[trigger] entries[k]) == #[trigger] drop_entry(
                    entries,
                    key,
                )[i],
    decreases entries.len(),
{
    let left = drop_entry(entries, key);
    if entries.len() > 0 {
        let rest = entries.drop_first();
        if entries[0].0 == key {
            assert forall|k: int| 0 <= k < rest.len() implies (#[trigger] rest[k]).0 != key by {
                assert(rest[k] == entries[k + 1]);
                lemma_before_differs(entries[0].0, entries[k + 1].0);
            }
            lemma_get_entry(rest, key, rest.len() as int);
            assert(left == rest);
            assert forall|other: Seq<char>| other != key implies #[trigger] get_entry(left, other)
                == get_entry(entries, other) by {
                assert(entries.drop_first() == rest);
            }
            assert forall|i: int| 0 <= i < left.len() implies exists|k: int|
                0 <= k < entries.len() && (#[trigger] entries[k]) == #[trigger] left[i] by {
                assert(entries[i + 1] == left[i]);
            }
        } else {
            drop_keeps_order(rest, key);
            let inner = drop_entry(rest, key);
            assert(left.drop_first() =~= inner);
            assert(left[0] == entries[0]);
            assert forall|other: Seq<char>| other != key implies #[trigger] get_entry(left, other)
                == get_entry(entries, other) by {
                assert(get_entry(inner, other) == get_entry(rest, other));
            }
            assert forall|i: int| 0 <= i < left.len() implies exists|k: int|
                0 <= k < entries.len() && (#[trigger] entries[k]) == #[trigger] left[i] by {
                if i == 0 {
                    assert(entries[0] == left[0]);
                } else {
                    assert(left[i] == inner[i - 1]);
                    let k = choose|k: int| 0 <= k < rest.len() && (#[trigger] rest[k]) == inner[i - 1];
                    assert(entries[k + 1] == left[i]);
                }
            }
            assert forall|i: int, j: int| 0 <= i < j < left.len() implies text_before(
                (#[trigger] left[i]).0,
                (#[trigger] left[j]).0,
            ) by {
                assert(left[j] == inner[j - 1]);
                if i == 0 {
                    let k = choose|k: int| 0 <= k < rest.len() && (#[trigger] rest[k]) == inner[j - 1];
                    assert(text_before(entries[0].0, entries[k + 1].0));
                } else {
                    assert(left[i] == inner[i - 1]);
                    assert(text_before(inner[i - 1].0, inner[j - 1].0));
                }
            }
        }
    }
}

} // verus!
