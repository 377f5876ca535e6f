//! JSON values as the protocol carries them, and their passage to and from
//! text, which is left to `serde_json`.

use vstd::prelude::*;

verus! {

/// `serde_json::Value`, a JSON value as `serde_json` holds it.  What is
/// inside one is seen here only through `value_model`.
#[verifier::external_type_specification]
#[verifier::external_body]
pub struct ExValue(serde_json::Value);

/// `serde_json::Number`, a JSON number.  Nothing here looks into one.
#[verifier::external_type_specification]
#[verifier::external_body]
pub struct ExNumber(serde_json::Number);

/// `serde_json::Error`, which tells why a text is no JSON.  Nothing here
/// looks into one.
#[verifier::external_type_specification]
#[verifier::external_body]
pub struct ExError(serde_json::Error);

/// A JSON value.  A number is kept as `serde_json` read it: nothing here
/// looks into one.  An object is a list of members; where a key stands twice,
/// the later member counts.
#[derive(Debug, PartialEq)]
pub enum Json {
    Null,
    Bool(bool),
    Number(serde_json::Number),
    Str(String),
    Array(Vec<Json>),
    Object(Vec<(String, Json)>),
}

/// What a `Json` stands for: texts are sequences of characters, an array is
/// a sequence, an object a map from keys to values.
pub enum JsonView {
    Null,
    Bool(bool),
    Number(serde_json::Number),
    Str(Seq<char>),
    Array(Seq<JsonView>),
    Object(Map<Seq<char>, JsonView>),
}

/// What `j` stands for.
pub open spec fn json_view(j: Json) -> JsonView
    decreases j, 0nat,
{
    match j {
        Json::Null => JsonView::Null,
        Json::Bool(b) => JsonView::Bool(b),
        Json::Number(n) => JsonView::Number(n),
        Json::Str(s) => JsonView::Str(s@),
        Json::Array(items) => JsonView::Array(items_view(items@)),
        Json::Object(members) => JsonView::Object(members_view(members@)),
    }
}

/// What the items of an array stand for, one by one.
pub open spec fn items_view(items: Seq<Json>) -> Seq<JsonView>
    decreases items, 1nat,
{
    Seq::new(
        items.len(),
        |i: int|
            if 0 <= i < items.len() {
                json_view(items[i])
            } else {
                JsonView::Null
            },
    )
}

/// The map that the members of an object make up: each member in turn is
/// entered under its key, so a later member replaces an earlier one.
pub open spec fn members_view(members: Seq<(String, Json)>) -> Map<Seq<char>, JsonView>
    decreases members, members.len(),
{
    if members.len() == 0 {
        Map::empty()
    } else {
        members_view(members.drop_last()).insert(members.last().0@, json_view(members.last().1))
    }
}

impl View for Json {
    type V = JsonView;

    open spec fn view(&self) -> JsonView {
        json_view(*self)
    }
}

impl JsonView {
    /// The value under `key`, where this is an object that has the key.
    pub open spec fn member(self, key: Seq<char>) -> Option<JsonView> {
        match self {
            JsonView::Object(members) => if members.contains_key(key) {
                Some(members[key])
            } else {
                None
            },
            _ => None,
        }
    }

    /// The text, where this is a string.
    pub open spec fn text(self) -> Option<Seq<char>> {
        match self {
            JsonView::Str(s) => Some(s),
            _ => None,
        }
    }

    /// The items, where this is an array.
    pub open spec fn items(self) -> Option<Seq<JsonView>> {
        match self {
            JsonView::Array(items) => Some(items),
            _ => None,
        }
    }

    /// The truth value, where this is one.
    pub open spec fn truth(self) -> Option<bool> {
        match self {
            JsonView::Bool(b) => Some(b),
            _ => None,
        }
    }

    /// The text under `key`, where this is an object that holds a string
    /// there.
    pub open spec fn text_at(self, key: Seq<char>) -> Option<Seq<char>> {
        match self.member(key) {
            Some(value) => value.text(),
            None => None,
        }
    }

    /// The object without members.
    pub open spec fn object() -> JsonView {
        JsonView::Object(Map::empty())
    }

    /// This object with `value` under `key`.  Anything but an object is left
    /// as it is.
    pub open spec fn with(self, key: Seq<char>, value: JsonView) -> JsonView {
        match self {
            JsonView::Object(members) => JsonView::Object(members.insert(key, value)),
            other => other,
        }
    }

    /// The array of the strings `texts`.
    pub open spec fn strings(texts: Seq<Seq<char>>) -> JsonView {
        JsonView::Array(Seq::new(texts.len(), |i: int| JsonView::Str(texts[i])))
    }
}

/// The texts of those of `items` that are strings, in their order.
pub open spec fn string_items(items: Seq<JsonView>) -> Seq<Seq<char>>
    decreases items.len(),
{
    if items.len() == 0 {
        Seq::empty()
    } else {
        match items.last().text() {
            Some(text) => string_items(items.drop_last()).push(text),
            None => string_items(items.drop_last()),
        }
    }
}

/// What a value of `serde_json` stands for.
pub uninterp spec fn value_model(v: serde_json::Value) -> JsonView;

/// What `serde_json::from_str` reads `text` as, where it reads it as a value
/// at all.
pub uninterp spec fn parsed_json(text: Seq<char>) -> Option<JsonView>;

/// The text that `serde_json` writes for a value.
pub uninterp spec fn json_text(model: JsonView) -> Seq<char>;

/// `serde_json::from_str`, for a `serde_json::Value`: the value that it reads
/// from `text` is the one that `parsed_json` names, and it fails exactly
/// where that is none.
#[verifier::external_body]
fn parse_value(text: &str) -> (r: Result<serde_json::Value, serde_json::Error>)
    ensures
        match r {
            Ok(v) => parsed_json(text@) == Some(value_model(v)),
            Err(_) => parsed_json(text@) is None,
        },
{
    serde_json::from_str::<serde_json::Value>(text)
}

/// Takes a `serde_json::Value` apart, variant by variant: the `Json` that
/// comes out stands for what the value stands for.  The members of an object
/// come in the order in which its map hands them out.
#[verifier::external_body]
fn json_of_value(v: &serde_json::Value) -> (j: Json)
    ensures
        j@ == value_model(*v),
{
    match v {
        serde_json::Value::Null => Json::Null,
        serde_json::Value::Bool(b) => Json::Bool(*b),
        serde_json::Value::Number(n) => Json::Number(n.clone()),
        serde_json::Value::String(s) => Json::Str(s.clone()),
        serde_json::Value::Array(a) => Json::Array(a.iter().map(json_of_value).collect()),
        serde_json::Value::Object(m) => Json::Object(
            m.iter().map(|(k, x)| (k.clone(), json_of_value(x))).collect(),
        ),
    }
}

/// Puts a `serde_json::Value` together, variant by variant: it stands for
/// what `j` stands for.  The members of an object are entered into the map
/// of `serde_json` one by one with `Map::insert`, which puts a value in the
/// place of an earlier one of the same key.
#[verifier::external_body]
fn value_of_json(j: &Json) -> (v: serde_json::Value)
    ensures
        value_model(v) == j@,
{
    match j {
        Json::Null => serde_json::Value::Null,
        Json::Bool(b) => serde_json::Value::Bool(*b),
        Json::Number(n) => serde_json::Value::Number(n.clone()),
        Json::Str(s) => serde_json::Value::String(s.clone()),
        Json::Array(a) => serde_json::Value::Array(a.iter().map(value_of_json).collect()),
        Json::Object(m) => {
            let mut map = serde_json::Map::new();
            for (k, x) in m {
                map.insert(k.clone(), value_of_json(x));
            }
            serde_json::Value::Object(map)
        },
    }
}

/// The `to_string` that `serde_json::Value` has from its `Display`: the
/// compact text of the value, which `json_text` names.
#[verifier::external_body]
fn value_text(v: &serde_json::Value) -> (s: String)
    ensures
        s@ == json_text(value_model(*v)),
{
    v.to_string()
}

/// `Clone` of `serde_json::Number`: the copy is the number.
pub assume_specification[ <serde_json::Number as Clone>::clone ](
    n: &serde_json::Number,
) -> (copy: serde_json::Number)
    ensures
        copy == *n,
;

/// Reads `text` as JSON.  Gives nothing where `text` is no JSON value.
pub fn parse_json(text: &str) -> (r: Option<Json>)
    ensures
        match r {
            Some(j) => parsed_json(text@) == Some(j@),
            None => parsed_json(text@) is None,
        },
{
    match parse_value(text) {
        Ok(v) => Some(json_of_value(&v)),
        Err(_) => None,
    }
}

/// Writes `j` as compact JSON text.
pub fn render_json(j: &Json) -> (s: String)
    ensures
        s@ == json_text(j@),
{
    let v = value_of_json(j);
    value_text(&v)
}

/// Entering a member at the end of a list of members enters it into the map.
pub proof fn lemma_members_push(members: Seq<(String, Json)>, member: (String, Json))
    ensures
        members_view(members.push(member)) == members_view(members).insert(
            member.0@,
            json_view(member.1),
        ),
{
    assert(members.push(member).drop_last() =~= members);
}

impl Json {
    /// A string that holds `text`.
    pub fn text(text: &str) -> (j: Json)
        ensures
            j@ == JsonView::Str(text@),
    {
        Json::Str(text.to_owned())
    }

    /// The object without members.
    pub fn object() -> (j: Json)
        ensures
            j@ == JsonView::object(),
    {
        Json::Object(Vec::new())
    }

    /// This object with `value` under `key`.  Anything but an object is left
    /// as it is.
    pub fn with(self, key: &str, value: Json) -> (j: Json)
        ensures
            j@ == self@.with(key@, value@),
    {
        match self {
            Json::Object(mut members) => {
                let member = (key.to_owned(), value);
                proof {
                    lemma_members_push(members@, member);
                }
                members.push(member);
                Json::Object(members)
            },
            other => other,
        }
    }

    /// The array of the strings `texts`.
    pub fn strings(texts: &Vec<String>) -> (j: Json)
        ensures
            j@ == JsonView::strings(texts.deep_view()),
    {
        let mut items: Vec<Json> = Vec::new();
        let mut i: usize = 0;
        while i < texts.len()
            invariant
                i <= texts.len(),
                items.len() == i,
                forall|k: int| 0 <= k < i ==> (#[trigger] items@[k])@ == JsonView::Str(texts@[k]@),
            decreases texts.len() - i,
        {
            items.push(Json::Str(texts[i].clone()));
            i += 1;
        }
        assert(items_view(items@) =~= JsonView::strings(texts.deep_view())->Array_0);
        Json::Array(items)
    }

    /// The texts of those items of this array that are strings.  Gives
    /// nothing where this is no array.
    pub fn string_items(&self) -> (r: Option<Vec<String>>)
        ensures
            match r {
                Some(texts) => self@.items() is Some && texts.deep_view() == string_items(
                    self@.items()->0,
                ),
                None => self@.items() is None,
            },
    {
        match self.as_array() {
            None => None,
            Some(items) => {
                let mut texts: Vec<String> = Vec::new();
                let mut i: usize = 0;
                while i < items.len()
                    invariant
                        i <= items.len(),
                        texts.deep_view() == string_items(items_view(items@).take(i as int)),
                    decreases items.len() - i,
                {
                    let ghost seen = items_view(items@).take(i + 1);
                    assert(seen.drop_last() =~= items_view(items@).take(i as int));
                    match items[i].as_str() {
                        Some(text) => {
                            texts.push(text.to_owned());
                        },
                        None => {},
                    }
                    i += 1;
                }
                assert(items_view(items@).take(items.len() as int) =~= items_view(items@));
                Some(texts)
            },
        }
    }

    /// The value under `key`, where this is an object that has the key.
    pub fn get(&self, key: &str) -> (r: Option<&Json>)
        ensures
            match r {
                Some(value) => self@.member(key@) == Some(value@),
                None => self@.member(key@) is None,
            },
    {
        match self {
            Json::Object(members) => {
                let wanted = key.to_owned();
                let mut i: usize = members.len();
                assert(members@.take(i as int) =~= members@);
                while i > 0
                    invariant
                        i <= members.len(),
                        wanted@ == key@,
                        self@ == JsonView::Object(members_view(members@)),
                        members_view(members@).contains_key(key@) == members_view(
                            members@.take(i as int),
                        ).contains_key(key@),
                        members_view(members@).contains_key(key@) ==> members_view(members@)[key@]
                            == members_view(members@.take(i as int))[key@],
                    decreases i,
                {
                    let ghost here = members@.take(i as int);
                    assert(here.drop_last() =~= members@.take(i - 1));
                    i -= 1;
                    if members[i].0 == wanted {
                        return Some(&members[i].1);
                    }
                }
                None
            },
            _ => None,
        }
    }

    /// The text, where this is a string.
    pub fn as_str(&self) -> (r: Option<&str>)
        ensures
            match r {
                Some(s) => self@.text() == Some(s@),
                None => self@.text() is None,
            },
    {
        match self {
            Json::Str(s) => Some(s.as_str()),
            _ => None,
        }
    }

    /// The items, where this is an array.
    pub fn as_array(&self) -> (r: Option<&Vec<Json>>)
        ensures
            match r {
                Some(items) => self@.items() == Some(items_view(items@)),
                None => self@.items() is None,
            },
    {
        match self {
            Json::Array(items) => Some(items),
            _ => None,
        }
    }

    /// The truth value, where this is one.
    pub fn as_bool(&self) -> (r: Option<bool>)
        ensures
            r == self@.truth(),
    {
        match self {
            Json::Bool(b) => Some(*b),
            _ => None,
        }
    }

    /// Tells whether this is `null`.
    pub fn is_null(&self) -> (b: bool)
        ensures
            b == (self@ is Null),
    {
        match self {
            Json::Null => true,
            _ => false,
        }
    }
}

/// A copy of `j`.
fn copy_of(j: &Json) -> (copy: Json)
    ensures
        copy@ == j@,
    decreases j,
{
    match j {
        Json::Null => Json::Null,
        Json::Bool(b) => Json::Bool(*b),
        Json::Number(n) => Json::Number(n.clone()),
        Json::Str(s) => Json::Str(s.clone()),
        Json::Array(items) => {
            let mut copies: Vec<Json> = Vec::new();
            let mut i: usize = 0;
            while i < items.len()
                invariant
                    i <= items.len(),
                    copies.len() == i,
                    forall|k: int| 0 <= k < i ==> (#[trigger] copies@[k])@ == items@[k]@,
                    *j == Json::Array(*items),
                decreases items.len() - i,
            {
                proof {
                    broadcast use vstd::std_specs::vec::axiom_vec_index_decreases;

                    assert(decreases_to!(*j => j->Array_0));
                }
                copies.push(copy_of(&items[i]));
                i += 1;
            }
            assert(items_view(copies@) =~= items_view(items@));
            Json::Array(copies)
        },
        Json::Object(members) => {
            let mut copies: Vec<(String, Json)> = Vec::new();
            let mut i: usize = 0;
            while i < members.len()
                invariant
                    i <= members.len(),
                    members_view(copies@) == members_view(members@.take(i as int)),
                    *j == Json::Object(*members),
                decreases members.len() - i,
            {
                proof {
                    broadcast use vstd::std_specs::vec::axiom_vec_index_decreases;

                    assert(decreases_to!(*j => j->Object_0));
                }
                let key = members[i].0.clone();
                let value = copy_of(&members[i].1);
                proof {
                    lemma_members_push(copies@, (key, value));
                    lemma_members_push(members@.take(i as int), members@[i as int]);
                    assert(members@.take(i as int).push(members@[i as int]) =~= members@.take(
                        i + 1,
                    ));
                }
                copies.push((key, value));
                i += 1;
            }
            assert(members@.take(members.len() as int) =~= members@);
            Json::Object(copies)
        },
    }
}

impl Clone for Json {
    fn clone(&self) -> (copy: Self)
        ensures
            copy@ == self@,
    {
        copy_of(self)
    }
}

} // verus!
