//! JSON documents as plain data, with the object operations the request bodies and the
//! response envelope need.

use crate::error::BlindPayError;
use vstd::prelude::*;
use vstd::string::*;

verus! {

/// A JSON document. A number is kept as the decimal text that stands for it; an object
/// keeps its fields in order.
#[derive(Debug, PartialEq, Eq)]
pub enum Json {
    Null,
    Bool(bool),
    Number(String),
    Str(String),
    Array(Vec<Json>),
    Object(Vec<Member>),
}

/// One named field of an object.
#[derive(Debug, PartialEq, Eq)]
pub struct Member {
    pub name: String,
    pub value: Json,
}

/// The mathematical value of a [`Json`] document.
pub enum JsonView {
    Null,
    Bool(bool),
    Number(Seq<char>),
    Str(Seq<char>),
    Array(Seq<JsonView>),
    Object(Seq<MemberView>),
}

/// The mathematical value of a [`Member`].
pub struct MemberView {
    pub name: Seq<char>,
    pub value: JsonView,
}

/// The fields of an object, in order.
pub type Fields = Seq<MemberView>;

impl View for Json {
    type V = JsonView;

    open spec fn view(&self) -> JsonView
        decreases self,
    {
        match self {
            Json::Null => JsonView::Null,
            Json::Bool(b) => JsonView::Bool(*b),
            Json::Number(n) => JsonView::Number(n@),
            Json::Str(s) => JsonView::Str(s@),
            Json::Array(items) => JsonView::Array(
                Seq::new(
                    items@.len(),
                    |i: int|
                        if 0 <= i < items@.len() {
                            items@[i].view()
                        } else {
                            JsonView::Null
                        },
                ),
            ),
            Json::Object(fields) => JsonView::Object(
                Seq::new(
                    fields@.len(),
                    |i: int|
                        if 0 <= i < fields@.len() {
                            MemberView { name: fields@[i].name@, value: fields@[i].value.view() }
                        } else {
                            MemberView { name: Seq::empty(), value: JsonView::Null }
                        },
                ),
            ),
        }
    }
}

/// How a vector of named documents reads as the fields of an object.
pub open spec fn fields_view(fields: Seq<Member>) -> Fields {
    Seq::new(fields.len(), |i: int| MemberView { name: fields[i].name@, value: fields[i].value@ })
}

/// How a vector of documents reads as the items of an array.
pub open spec fn items_view(items: Seq<Json>) -> Seq<JsonView> {
    Seq::new(items.len(), |i: int| items[i]@)
}

/// The position of the first field named `key` at or after `start`; the number of
/// fields where there is none.
pub open spec fn position_from(fields: Fields, key: Seq<char>, start: int) -> int
    decreases fields.len() - start,
{
    if start >= fields.len() {
        fields.len() as int
    } else if start >= 0 && fields[start].name == key {
        start
    } else {
        position_from(fields, key, start + 1)
    }
}

/// The position of the first field named `key`; the number of fields where there is none.
pub open spec fn position(fields: Fields, key: Seq<char>) -> int {
    position_from(fields, key, 0)
}

/// The value of the first field named `key`, if there is one.
pub open spec fn lookup(fields: Fields, key: Seq<char>) -> Option<JsonView> {
    let at = position(fields, key);
    if at < fields.len() {
        Some(fields[at].value)
    } else {
        None
    }
}

/// The fields with `key` set to `value`: the first field of that name is replaced where
/// it stands, and where there is none the field is added at the end.
pub open spec fn put(fields: Fields, key: Seq<char>, value: JsonView) -> Fields {
    let at = position(fields, key);
    if at < fields.len() {
        fields.update(at, MemberView { name: key, value })
    } else {
        fields.push(MemberView { name: key, value })
    }
}

/// Whether `at` is where the first field named `key` stands, or the number of fields
/// where no field has that name.
pub open spec fn is_first(fields: Fields, key: Seq<char>, at: int) -> bool {
    &&& 0 <= at <= fields.len()
    &&& at < fields.len() ==> fields[at].name == key
    &&& forall|j: int| 0 <= j < at ==> (#[trigger] fields[j]).name != key
}

impl JsonView {
    /// The value of the object's first field named `key`; `None` where the document is
    /// no object or has no such field.
    pub open spec fn field(self, key: Seq<char>) -> Option<JsonView> {
        match self {
            JsonView::Object(fields) => lookup(fields, key),
            _ => None,
        }
    }

    /// The object with `key` set to `value`. Null counts as an object without fields;
    /// any other document is left as it is.
    pub open spec fn with_field(self, key: Seq<char>, value: JsonView) -> JsonView {
        match self {
            JsonView::Object(fields) => JsonView::Object(put(fields, key, value)),
            JsonView::Null => JsonView::Object(put(Seq::empty(), key, value)),
            other => other,
        }
    }
}

proof fn lemma_position_from(fields: Fields, key: Seq<char>, start: int)
    requires
        0 <= start <= fields.len(),
    ensures
        start <= position_from(fields, key, start) <= fields.len(),
        position_from(fields, key, start) < fields.len() ==> fields[position_from(
            fields,
            key,
            start,
        )].name == key,
        forall|j: int|
            start <= j < position_from(fields, key, start) ==> (#[trigger] fields[j]).name != key,
    decreases fields.len() - start,
{
    if start < fields.len() && fields[start].name != key {
        lemma_position_from(fields, key, start + 1);
    }
}

/// The position that [`position`] gives is the first field of that name, and no other
/// position is.
pub proof fn lemma_position_is_first(fields: Fields, key: Seq<char>, at: int)
    ensures
        is_first(fields, key, position(fields, key)),
        is_first(fields, key, at) ==> at == position(fields, key),
{
    lemma_position_from(fields, key, 0);
    let found = position(fields, key);
    if is_first(fields, key, at) {
        if at < found {
            assert(fields[at].name != key);
        } else if found < at {
            assert(fields[found].name != key);
        }
    }
}

/// After a field is set, looking it up gives the value that was set.
pub proof fn lemma_put_then_lookup(fields: Fields, key: Seq<char>, value: JsonView)
    ensures
        lookup(put(fields, key, value), key) == Some(value),
{
    let at = position(fields, key);
    let after = put(fields, key, value);
    lemma_position_is_first(fields, key, at);
    assert(is_first(after, key, at)) by {
        assert forall|j: int| 0 <= j < at implies (#[trigger] after[j]).name != key by {
            assert(after[j] == fields[j]);
        }
    }
    lemma_position_is_first(after, key, at);
}

/// Setting one field leaves what a lookup of every other name gives unchanged.
pub proof fn lemma_put_keeps_others(
    fields: Fields,
    key: Seq<char>,
    value: JsonView,
    other: Seq<char>,
)
    requires
        other != key,
    ensures
        lookup(put(fields, key, value), other) == lookup(fields, other),
{
    let at = position(fields, key);
    let after = put(fields, key, value);
    let there = position(fields, other);
    lemma_position_is_first(fields, key, at);
    lemma_position_is_first(fields, other, there);
    if there < fields.len() {
        assert(there != at);
        assert(after[there] == fields[there]);
        assert(is_first(after, other, there)) by {
            assert forall|j: int| 0 <= j < there implies (#[trigger] after[j]).name != other by {
                assert(fields[j].name != other);
            }
        }
        lemma_position_is_first(after, other, there);
    } else {
        assert(is_first(after, other, after.len() as int)) by {
            assert forall|j: int| 0 <= j < after.len() implies (#[trigger] after[j]).name
                != other by {
                if j < fields.len() {
                    assert(fields[j].name != other);
                }
            }
        }
        lemma_position_is_first(after, other, after.len() as int);
    }
}

/// Setting a field changes the number of fields by one where the name is new, and not
/// at all where it replaces a field.
pub proof fn lemma_put_len(fields: Fields, key: Seq<char>, value: JsonView)
    ensures
        put(fields, key, value).len() == if lookup(fields, key) is Some {
            fields.len()
        } else {
            fields.len() + 1
        },
{
    lemma_position_is_first(fields, key, 0);
}

/// An object, or null, reads a field back as it was set, and reads every other name as
/// before.
pub proof fn lemma_with_field(doc: JsonView, key: Seq<char>, value: JsonView, other: Seq<char>)
    requires
        doc is Object || doc is Null,
    ensures
        doc.with_field(key, value) is Object,
        doc.with_field(key, value).field(key) == Some(value),
        other != key ==> doc.with_field(key, value).field(other) == doc.field(other),
{
    let fields = if doc is Object {
        doc->Object_0
    } else {
        Seq::empty()
    };
    lemma_put_then_lookup(fields, key, value);
    if other != key {
        lemma_put_keeps_others(fields, key, value, other);
    }
}

/// The text of one decimal digit.
pub open spec fn digit(d: nat) -> char {
    if d == 0 {
        '0'
    } else if d == 1 {
        '1'
    } else if d == 2 {
        '2'
    } else if d == 3 {
        '3'
    } else if d == 4 {
        '4'
    } else if d == 5 {
        '5'
    } else if d == 6 {
        '6'
    } else if d == 7 {
        '7'
    } else if d == 8 {
        '8'
    } else {
        '9'
    }
}

/// A natural number in decimal, without leading zeros.
pub open spec fn decimal(n: nat) -> Seq<char>
    decreases n,
{
    if n < 10 {
        seq![digit(n)]
    } else {
        decimal(n / 10).push(digit(n % 10))
    }
}

fn digit_text(d: u64) -> (text: &'static str)
    requires
        d < 10,
    ensures
        text@ == seq![digit(d as nat)],
{
    proof {
        reveal_strlit("0");
        reveal_strlit("1");
        reveal_strlit("2");
        reveal_strlit("3");
        reveal_strlit("4");
        reveal_strlit("5");
        reveal_strlit("6");
        reveal_strlit("7");
        reveal_strlit("8");
        reveal_strlit("9");
    }
    let text = if d == 0 {
        "0"
    } else if d == 1 {
        "1"
    } else if d == 2 {
        "2"
    } else if d == 3 {
        "3"
    } else if d == 4 {
        "4"
    } else if d == 5 {
        "5"
    } else if d == 6 {
        "6"
    } else if d == 7 {
        "7"
    } else if d == 8 {
        "8"
    } else {
        "9"
    };
    assert(text@ =~= seq![digit(d as nat)]);
    text
}

/// Writes a number in decimal.
pub fn decimal_text(n: u64) -> (text: String)
    ensures
        text@ == decimal(n as nat),
    decreases n,
{
    if n < 10 {
        String::from_str(digit_text(n))
    } else {
        let head = decimal_text(n / 10);
        let last = digit_text(n % 10);
        let text = head.concat(last);
        assert(text@ =~= decimal(n as nat));
        text
    }
}

fn find_key(fields: &Vec<Member>, key: &str) -> (at: usize)
    ensures
        at as int == position(fields_view(fields@), key@),
{
    let name = String::from_str(key);
    let mut i: usize = 0;
    while i < fields.len()
        invariant
            i <= fields.len(),
            name@ == key@,
            position(fields_view(fields@), key@) == position_from(
                fields_view(fields@),
                key@,
                i as int,
            ),
        decreases fields.len() - i,
    {
        if fields[i].name == name {
            return i;
        }
        i += 1;
    }
    i
}

impl Json {
    /// A JSON string holding `text`.
    pub fn string(text: &str) -> (doc: Json)
        ensures
            doc@ == JsonView::Str(text@),
    {
        Json::Str(String::from_str(text))
    }

    /// A JSON number holding `n`.
    pub fn unsigned(n: u64) -> (doc: Json)
        ensures
            doc@ == JsonView::Number(decimal(n as nat)),
    {
        Json::Number(decimal_text(n))
    }

    /// A JSON object with the given fields, in their order.
    pub fn object(fields: Vec<Member>) -> (doc: Json)
        ensures
            doc@ == JsonView::Object(fields_view(fields@)),
    {
        let doc = Json::Object(fields);
        assert(doc@->Object_0 =~= fields_view(fields@));
        doc
    }

    /// A JSON array with the given items, in their order.
    pub fn array(items: Vec<Json>) -> (doc: Json)
        ensures
            doc@ == JsonView::Array(items_view(items@)),
    {
        let doc = Json::Array(items);
        assert(doc@->Array_0 =~= items_view(items@));
        doc
    }

    /// The value of the first field named `key`, where the document is an object that
    /// has one.
    pub fn get(&self, key: &str) -> (found: Option<&Json>)
        ensures
            match found {
                Some(value) => self@.field(key@) == Some(value@),
                None => self@.field(key@) is None,
            },
    {
        match self {
            Json::Object(fields) => {
                assert(self@->Object_0 =~= fields_view(fields@));
                let at = find_key(fields, key);
                if at < fields.len() {
                    Some(&fields[at].value)
                } else {
                    None
                }
            },
            _ => None,
        }
    }

    /// Sets the field `key` of an object to `value`, replacing the first field of that
    /// name or adding one at the end. Null becomes an object with that one field.
    pub fn with_field(self, key: &str, value: Json) -> (doc: Json)
        requires
            self@ is Object || self@ is Null,
        ensures
            doc@ == self@.with_field(key@, value@),
    {
        match self {
            Json::Null => {
                let mut fields: Vec<Member> = Vec::new();
                fields.push(Member { name: String::from_str(key), value });
                assert(fields_view(fields@) =~= put(Seq::empty(), key@, value@));
                Json::object(fields)
            },
            Json::Object(mut fields) => {
                assert(self@->Object_0 =~= fields_view(fields@));
                let ghost before = fields_view(fields@);
                let at = find_key(&fields, key);
                if at < fields.len() {
                    let _ = fields.remove(at);
                    fields.insert(at, Member { name: String::from_str(key), value });
                } else {
                    fields.push(Member { name: String::from_str(key), value });
                }
                assert(fields_view(fields@) =~= put(before, key@, value@));
                Json::object(fields)
            },
            other => other,
        }
    }

    /// Splits the first field named `key` off an object: its value, where there is such
    /// a field.
    pub fn into_field(self, key: &str) -> (found: Option<Json>)
        ensures
            found.is_some() == self@.field(key@).is_some(),
            found matches Some(value) ==> self@.field(key@) == Some(value@),
    {
        match self {
            Json::Object(mut fields) => {
                assert(self@->Object_0 =~= fields_view(fields@));
                let at = find_key(&fields, key);
                if at < fields.len() {
                    let entry = fields.remove(at);
                    Some(entry.value)
                } else {
                    None
                }
            },
            _ => None,
        }
    }
}

/// The document that `serde_json::from_str::<serde_json::Value>` reads from a text, as
/// [`document_of`] hands it on; `None` where it rejects the text.
pub uninterp spec fn parsed_document(text: Seq<char>) -> Option<JsonView>;

/// `serde_json::Error`, the reason why a text was rejected.
#[verifier::external_type_specification]
#[verifier::external_body]
pub struct ExJsonError(serde_json::Error);

/// `serde_json::Value`, a document as the parser builds it.
#[verifier::external_type_specification]
#[verifier::external_body]
pub struct ExJsonValue(serde_json::Value);

/// Moves a `serde_json::Value` into a [`Json`], variant by variant: a number by its
/// `Display` text, an object's fields in the order in which `serde_json::Map` hands them
/// out. Nothing is claimed of the result.
#[verifier::external_body]
fn document_of(value: serde_json::Value) -> Json {
    match value {
        serde_json::Value::Null => Json::Null,
        serde_json::Value::Bool(flag) => Json::Bool(flag),
        serde_json::Value::Number(number) => Json::Number(number.to_string()),
        serde_json::Value::String(text) => Json::Str(text),
        serde_json::Value::Array(items) => {
            Json::Array(items.into_iter().map(document_of).collect())
        },
        serde_json::Value::Object(fields) => {
            let convert = |(name, value)| Member { name, value: document_of(value) };
            Json::Object(fields.into_iter().map(convert).collect())
        },
    }
}

/// Calls `serde_json::from_str::<serde_json::Value>`. The contract claims only that the
/// outcome is a function of the text: the same text gives the same document, or is
/// rejected every time.
#[verifier::external_body]
fn read_value(text: &str) -> (outcome: Result<Json, serde_json::Error>)
    ensures
        match outcome {
            Ok(doc) => parsed_document(text@) == Some(doc@),
            Err(_) => parsed_document(text@) is None,
        },
{
    serde_json::from_str::<serde_json::Value>(text).map(document_of)
}

impl Json {
    /// Reads a JSON text. A text that is no JSON document is a `SerializationError` that
    /// carries the parser's words.
    pub fn parse(text: &str) -> (outcome: Result<Json, BlindPayError>)
        ensures
            match outcome {
                Ok(doc) => parsed_document(text@) == Some(doc@),
                Err(error) => parsed_document(text@) is None && error@ is SerializationError,
            },
    {
        match read_value(text) {
            Ok(doc) => Ok(doc),
            Err(error) => Err(BlindPayError::SerializationError(error.to_string())),
        }
    }

    /// A copy of the document.
    fn duplicate(&self) -> (copy: Json)
        ensures
            copy@ == self@,
        decreases self,
    {
        match self {
            Json::Null => Json::Null,
            Json::Bool(flag) => Json::Bool(*flag),
            Json::Number(text) => Json::Number(text.clone()),
            Json::Str(text) => Json::Str(text.clone()),
            Json::Array(items) => {
                let mut copies: Vec<Json> = Vec::new();
                let mut i: usize = 0;
                while i < items.len()
                    invariant
                        i <= items.len(),
                        copies@.len() == i,
                        self is Array && self->Array_0 == items,
                        forall|j: int| 0 <= j < i ==> (#[trigger] copies@[j])@ == items@[j]@,
                    decreases items.len() - i,
                {
                    assert(decreases_to!(items => items[i as int]));
                    copies.push(items[i].duplicate());
                    i += 1;
                }
                assert(items_view(copies@) =~= items_view(items@));
                assert(self@->Array_0 =~= items_view(items@));
                Json::array(copies)
            },
            Json::Object(fields) => {
                let mut copies: Vec<Member> = Vec::new();
                let mut i: usize = 0;
                while i < fields.len()
                    invariant
                        i <= fields.len(),
                        copies@.len() == i,
                        self is Object && self->Object_0 == fields,
                        forall|j: int|
                            0 <= j < i ==> (#[trigger] copies@[j]).name@ == fields@[j].name@
                                && copies@[j].value@ == fields@[j].value@,
                    decreases fields.len() - i,
                {
                    assert(decreases_to!(fields => fields[i as int]));
                    let entry = &fields[i];
                    let name = entry.name.clone();
                    copies.push(Member { name, value: entry.value.duplicate() });
                    i += 1;
                }
                assert(fields_view(copies@) =~= fields_view(fields@));
                assert(self@->Object_0 =~= fields_view(fields@));
                Json::object(copies)
            },
        }
    }
}

impl Clone for Json {
    fn clone(&self) -> (copy: Self)
        ensures
            copy@ == self@,
    {
        self.duplicate()
    }
}

impl Clone for Member {
    fn clone(&self) -> (copy: Self)
        ensures
            copy.name@ == self.name@,
            copy.value@ == self.value@,
    {
        Member { name: self.name.clone(), value: self.value.clone() }
    }
}

/// An object under construction: fields are added one after another.
#[derive(Debug)]
pub struct ObjectBuilder {
    fields: Vec<Member>,
}

impl View for ObjectBuilder {
    type V = Fields;

    closed spec fn view(&self) -> Fields {
        fields_view(self.fields@)
    }
}

impl ObjectBuilder {
    /// An object without fields.
    pub fn new() -> (builder: ObjectBuilder)
        ensures
            builder@ == Seq::<MemberView>::empty(),
    {
        let builder = ObjectBuilder { fields: Vec::new() };
        assert(builder@ =~= Seq::<MemberView>::empty());
        builder
    }

    /// Adds a field at the end.
    pub fn field(self, name: &str, value: Json) -> (builder: ObjectBuilder)
        ensures
            builder@ == self@.push(MemberView { name: name@, value: value@ }),
    {
        let mut fields = self.fields;
        fields.push(Member { name: String::from_str(name), value });
        let builder = ObjectBuilder { fields };
        assert(builder@ =~= self@.push(MemberView { name: name@, value: value@ }));
        builder
    }

    /// The finished object.
    pub fn build(self) -> (doc: Json)
        ensures
            doc@ == JsonView::Object(self@),
    {
        Json::object(self.fields)
    }
}

/// A value that has a JSON form.
pub trait ToJson {
    /// The JSON form of the value.
    spec fn json(&self) -> JsonView;

    /// Writes the value as a JSON document.
    fn to_json(&self) -> (doc: Json)
        ensures
            doc@ == self.json(),
    ;
}

impl ToJson for String {
    open spec fn json(&self) -> JsonView {
        JsonView::Str(self@)
    }

    fn to_json(&self) -> (doc: Json) {
        Json::Str(self.clone())
    }
}

impl ToJson for bool {
    open spec fn json(&self) -> JsonView {
        JsonView::Bool(*self)
    }

    fn to_json(&self) -> (doc: Json) {
        Json::Bool(*self)
    }
}

impl ToJson for u64 {
    open spec fn json(&self) -> JsonView {
        JsonView::Number(decimal(*self as nat))
    }

    fn to_json(&self) -> (doc: Json) {
        Json::unsigned(*self)
    }
}

impl<T: ToJson> ToJson for Option<T> {
    open spec fn json(&self) -> JsonView {
        match self {
            Some(value) => value.json(),
            None => JsonView::Null,
        }
    }

    fn to_json(&self) -> (doc: Json) {
        match self {
            Some(value) => value.to_json(),
            None => Json::Null,
        }
    }
}

impl<T: ToJson> ToJson for Vec<T> {
    open spec fn json(&self) -> JsonView {
        JsonView::Array(Seq::new(self@.len(), |i: int| self@[i].json()))
    }

    fn to_json(&self) -> (doc: Json) {
        let mut items: Vec<Json> = Vec::new();
        let mut i: usize = 0;
        while i < self.len()
            invariant
                i <= self.len(),
                items@.len() == i,
                forall|j: int| 0 <= j < i ==> (#[trigger] items@[j])@ == self@[j].json(),
            decreases self.len() - i,
        {
            items.push(self[i].to_json());
            i += 1;
        }
        assert(items_view(items@) =~= Seq::new(self@.len(), |i: int| self@[i].json()));
        Json::array(items)
    }
}

} // verus!
