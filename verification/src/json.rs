//! JSON documents as a tree.

use vstd::prelude::*;

use serde_json::Value;

use crate::text;

verus! {

/// One member of a JSON object: its name, its value, and the compact text of
/// the value.
pub struct JsonField {
    pub name: String,
    pub value: Json,
    pub text: String,
}

/// A JSON value. Numbers that are not integers carry nothing.
pub enum Json {
    Null,
    Bool(bool),
    Integer(i128),
    Float,
    Text(String),
    Array(Vec<Json>),
    Object(Vec<JsonField>),
}

/// A [`JsonField`] with its texts as character sequences.
pub struct FieldView {
    pub name: Seq<char>,
    pub value: JsonView,
    pub text: Seq<char>,
}

/// A [`Json`] with its texts as character sequences.
pub enum JsonView {
    Null,
    Bool(bool),
    Integer(i128),
    Float,
    Text(Seq<char>),
    Array(Seq<JsonView>),
    Object(Seq<FieldView>),
}

/// A tree by its view.
pub open spec fn tree(j: Json) -> JsonView
    decreases j,
{
    match j {
        Json::Null => JsonView::Null,
        Json::Bool(b) => JsonView::Bool(b),
        Json::Integer(n) => JsonView::Integer(n),
        Json::Float => JsonView::Float,
        Json::Text(s) => JsonView::Text(s@),
        Json::Array(v) => JsonView::Array(
            Seq::new(
                v@.len(),
                |i: int|
                    if 0 <= i < v@.len() {
                        tree(v@[i])
                    } else {
                        JsonView::Null
                    },
            ),
        ),
        Json::Object(v) => JsonView::Object(
            Seq::new(
                v@.len(),
                |i: int|
                    if 0 <= i < v@.len() {
                        FieldView { name: v@[i].name@, value: tree(v@[i].value), text: v@[i].text@ }
                    } else {
                        FieldView { name: Seq::empty(), value: JsonView::Null, text: Seq::empty() }
                    },
            ),
        ),
    }
}

impl View for Json {
    type V = JsonView;

    open spec fn view(&self) -> JsonView {
        tree(*self)
    }
}

/// A parse result by its views.
pub open spec fn parsed(r: Result<Json, String>) -> Result<JsonView, Seq<char>> {
    match r {
        Ok(j) => Ok(j@),
        Err(e) => Err(e@),
    }
}

/// The outermost value of a document: what is in it stands as compact text.
pub enum JsonLevel {
    Null,
    Bool(bool),
    Integer(i128),
    Float,
    Text(String),
    Array(Vec<String>),
    Object(Vec<(String, String)>),
}

/// A [`JsonLevel`] with its texts as character sequences.
pub enum LevelView {
    Null,
    Bool(bool),
    Integer(i128),
    Float,
    Text(Seq<char>),
    Array(Seq<Seq<char>>),
    Object(Seq<(Seq<char>, Seq<char>)>),
}

impl View for JsonLevel {
    type V = LevelView;

    open spec fn view(&self) -> LevelView {
        match *self {
            JsonLevel::Null => LevelView::Null,
            JsonLevel::Bool(b) => LevelView::Bool(b),
            JsonLevel::Integer(n) => LevelView::Integer(n),
            JsonLevel::Float => LevelView::Float,
            JsonLevel::Text(s) => LevelView::Text(s@),
            JsonLevel::Array(v) => LevelView::Array(text::texts(v@)),
            JsonLevel::Object(v) => LevelView::Object(
                v@.map_values(|m: (String, String)| (m.0@, m.1@)),
            ),
        }
    }
}

/// An outermost value or an error by its view.
pub open spec fn level_seen(r: Result<JsonLevel, String>) -> Result<LevelView, Seq<char>> {
    match r {
        Ok(l) => Ok(l@),
        Err(e) => Err(e@),
    }
}

/// The outermost value of a text, as `serde_json::from_str` reads it, or the
/// text of the error.
pub uninterp spec fn level(input: Seq<char>) -> Result<LevelView, Seq<char>>;

/// `serde_json::from_str` into `serde_json::Value`, of which the outermost value
/// is taken over; what is in it becomes the text that `Value::to_string` writes.
/// The result is a function of the text alone.
#[verifier::external_body]
pub(crate) fn parse_level(input: &str) -> (r: Result<JsonLevel, String>)
    ensures
        level_seen(r) == level(input@),
{
    match serde_json::from_str(input) {
        Ok(Value::Null) => Ok(JsonLevel::Null),
        Ok(Value::Bool(b)) => Ok(JsonLevel::Bool(b)),
        Ok(Value::Number(n)) => Ok(n.as_i128().map_or(JsonLevel::Float, JsonLevel::Integer)),
        Ok(Value::String(s)) => Ok(JsonLevel::Text(s)),
        Ok(Value::Array(a)) => Ok(JsonLevel::Array(a.iter().map(|v| v.to_string()).collect())),
        Ok(Value::Object(m)) => Ok(JsonLevel::Object(m.into_iter().map(|(k, v)| (k, v.to_string())).collect())),
        Err(e) => Err(e.to_string()),
    }
}

/// How deep values may nest: the decoder refuses deeper ones.
pub const MAX_DEPTH: u32 = 128;

/// The value that a text holds, as far as `depth` levels down, and null where it
/// holds none.
pub open spec fn value_at(input: Seq<char>, depth: nat) -> JsonView
    decreases depth, 1nat,
{
    match level(input) {
        Ok(l) => grown(l, depth),
        Err(_) => JsonView::Null,
    }
}

/// A value with what is in it, as far as `depth` levels down.
pub open spec fn grown(l: LevelView, depth: nat) -> JsonView
    decreases depth, 0nat,
{
    match l {
        LevelView::Null => JsonView::Null,
        LevelView::Bool(b) => JsonView::Bool(b),
        LevelView::Integer(n) => JsonView::Integer(n),
        LevelView::Float => JsonView::Float,
        LevelView::Text(s) => JsonView::Text(s),
        LevelView::Array(items) => JsonView::Array(
            Seq::new(
                items.len(),
                |i: int|
                    if depth > 0 {
                        value_at(items[i], (depth - 1) as nat)
                    } else {
                        JsonView::Null
                    },
            ),
        ),
        LevelView::Object(fields) => JsonView::Object(
            Seq::new(
                fields.len(),
                |i: int|
                    FieldView {
                        name: fields[i].0,
                        value: if depth > 0 {
                            value_at(fields[i].1, (depth - 1) as nat)
                        } else {
                            JsonView::Null
                        },
                        text: fields[i].1,
                    },
            ),
        ),
    }
}

/// The document that a text holds, or the text of the decoder's error.
pub open spec fn document(input: Seq<char>) -> Result<JsonView, Seq<char>> {
    match level(input) {
        Ok(l) => Ok(grown(l, MAX_DEPTH as nat)),
        Err(e) => Err(e),
    }
}

fn parse_value(input: &str, depth: u32) -> (r: Json)
    ensures
        r@ == value_at(input@, depth as nat),
    decreases depth, 1nat,
{
    match parse_level(input) {
        Ok(l) => grow(l, depth),
        Err(_) => Json::Null,
    }
}

fn grow(l: JsonLevel, depth: u32) -> (r: Json)
    ensures
        r@ == grown(l@, depth as nat),
    decreases depth, 0nat,
{
    let ghost expected = grown(l@, depth as nat);
    match l {
        JsonLevel::Null => Json::Null,
        JsonLevel::Bool(b) => Json::Bool(b),
        JsonLevel::Integer(n) => Json::Integer(n),
        JsonLevel::Float => Json::Float,
        JsonLevel::Text(s) => Json::Text(s),
        JsonLevel::Array(items) => {
            let ghost views = text::texts(items@);
            let mut out: Vec<Json> = Vec::new();
            let mut i: usize = 0;
            while i < items.len()
                invariant
                    views == text::texts(items@),
                    i <= items.len(),
                    out.len() == i,
                    forall|j: int|
                        0 <= j < i ==> (#[trigger] out@[j])@ == if depth > 0 {
                            value_at(views[j], (depth - 1) as nat)
                        } else {
                            JsonView::Null
                        },
                decreases items.len() - i,
            {
                proof {
                    assert(views[i as int] == items@[i as int]@);
                }
                let value = if depth > 0 {
                    parse_value(items[i].as_str(), depth - 1)
                } else {
                    Json::Null
                };
                out.push(value);
                i += 1;
            }
            let r = Json::Array(out);
            proof {
                assert(r@->Array_0 =~= expected->Array_0);
            }
            r
        },
        JsonLevel::Object(fields) => {
            let ghost views = fields@.map_values(|m: (String, String)| (m.0@, m.1@));
            let mut out: Vec<JsonField> = Vec::new();
            let mut i: usize = 0;
            while i < fields.len()
                invariant
                    views == fields@.map_values(|m: (String, String)| (m.0@, m.1@)),
                    i <= fields.len(),
                    out.len() == i,
                    forall|j: int|
                        0 <= j < i ==> (#[trigger] out@[j])@ == (FieldView {
                            name: views[j].0,
                            value: if depth > 0 {
                                value_at(views[j].1, (depth - 1) as nat)
                            } else {
                                JsonView::Null
                            },
                            text: views[j].1,
                        }),
                decreases fields.len() - i,
            {
                proof {
                    assert(views[i as int] == (fields@[i as int].0@, fields@[i as int].1@));
                }
                let value = if depth > 0 {
                    parse_value(fields[i].1.as_str(), depth - 1)
                } else {
                    Json::Null
                };
                out.push(
                    JsonField { name: fields[i].0.clone(), value, text: fields[i].1.clone() },
                );
                i += 1;
            }
            let r = Json::Object(out);
            proof {
                let got = r@->Object_0;
                let want = expected->Object_0;
                assert(got.len() == want.len());
                assert forall|j: int| 0 <= j < got.len() implies got[j] == want[j] by {
                    assert(got[j] == out@[j]@);
                }
                assert(got =~= want);
            }
            r
        },
    }
}

/// The document that a text holds, or the text of the decoder's error.
pub fn parse_json(input: &str) -> (r: Result<Json, String>)
    ensures
        parsed(r) == document(input@),
{
    match parse_level(input) {
        Ok(l) => Ok(grow(l, MAX_DEPTH)),
        Err(e) => Err(e),
    }
}

impl View for JsonField {
    type V = FieldView;

    open spec fn view(&self) -> FieldView {
        FieldView { name: self.name@, value: self.value@, text: self.text@ }
    }
}

/// Members by their views.
pub open spec fn field_views(fields: Seq<JsonField>) -> Seq<FieldView> {
    fields.map_values(|f: JsonField| f@)
}

/// The compact text of the document that bytes hold, as `serde_json::from_slice`
/// reads it, or the text of the error.
pub uninterp spec fn text_in(input: Seq<u8>) -> Result<Seq<char>, Seq<char>>;

/// A text or an error by its view.
pub open spec fn text_seen(r: Result<String, String>) -> Result<Seq<char>, Seq<char>> {
    match r {
        Ok(s) => Ok(s@),
        Err(e) => Err(e@),
    }
}

/// `serde_json::from_slice` into `serde_json::Value`, written by
/// `Value::to_string`. The result is a function of the bytes alone.
#[verifier::external_body]
pub(crate) fn json_text(input: &Vec<u8>) -> (r: Result<String, String>)
    ensures
        text_seen(r) == text_in(input@),
{
    match serde_json::from_slice::<Value>(input) {
        Ok(v) => Ok(v.to_string()),
        Err(e) => Err(e.to_string()),
    }
}

/// The document that bytes hold, or the text of the decoder's error.
pub open spec fn document_in(input: Seq<u8>) -> Result<JsonView, Seq<char>> {
    match text_in(input) {
        Ok(s) => document(s),
        Err(e) => Err(e),
    }
}

/// The document that bytes hold, or the text of the decoder's error.
pub fn parse_json_bytes(input: &Vec<u8>) -> (r: Result<Json, String>)
    ensures
        parsed(r) == document_in(input@),
{
    match json_text(input) {
        Ok(s) => parse_json(s.as_str()),
        Err(e) => Err(e),
    }
}

impl JsonView {
    /// Position of the member `name` among the members of an object.
    pub open spec fn field_index(fields: Seq<FieldView>, name: Seq<char>, i: int) -> Option<int>
        decreases fields.len() - i,
    {
        if i < 0 || i >= fields.len() {
            None
        } else if fields[i].name == name {
            Some(i)
        } else {
            JsonView::field_index(fields, name, i + 1)
        }
    }

    /// The member `name` of an object.
    pub open spec fn field(self, name: Seq<char>) -> Option<FieldView> {
        match self {
            JsonView::Object(fields) => match JsonView::field_index(fields, name, 0) {
                Some(i) => Some(fields[i]),
                None => None,
            },
            _ => None,
        }
    }

    /// The value as text.
    pub open spec fn as_text(self) -> Option<Seq<char>> {
        match self {
            JsonView::Text(s) => Some(s),
            _ => None,
        }
    }

    /// The value as an unsigned integer.
    pub open spec fn as_unsigned(self) -> Option<u64> {
        match self {
            JsonView::Integer(n) => if 0 <= n <= u64::MAX {
                Some(n as u64)
            } else {
                None
            },
            _ => None,
        }
    }

    /// The value as a signed integer.
    pub open spec fn as_signed(self) -> Option<i64> {
        match self {
            JsonView::Integer(n) => if i64::MIN <= n <= i64::MAX {
                Some(n as i64)
            } else {
                None
            },
            _ => None,
        }
    }

    /// The text of the member `name`, when it is a text.
    pub open spec fn field_text(self, name: Seq<char>) -> Option<Seq<char>> {
        match self.field(name) {
            Some(f) => f.value.as_text(),
            None => None,
        }
    }
}

/// The members of an object, and none of any other value.
pub open spec fn members(j: JsonView) -> Seq<FieldView> {
    match j {
        JsonView::Object(fields) => fields,
        _ => Seq::empty(),
    }
}

impl Json {
    /// The member `name` of an object.
    pub fn get(&self, name: &str) -> (r: Option<&JsonField>)
        ensures
            match r {
                Some(f) => self@.field(name@) == Some(
                    FieldView { name: f.name@, value: f.value@, text: f.text@ },
                ) && decreases_to!(self => f.value),
                None => self@.field(name@) is None,
            },
    {
        match self {
            Json::Object(fields) => {
                let ghost all = members(self@);
                let mut i: usize = 0;
                while i < fields.len()
                    invariant
                        i <= fields.len(),
                        *self == Json::Object(*fields),
                        self@ == JsonView::Object(all),
                        all.len() == fields.len(),
                        forall|j: int|
                            0 <= j < fields.len() ==> #[trigger] all[j] == (FieldView {
                                name: fields@[j].name@,
                                value: fields@[j].value@,
                                text: fields@[j].text@,
                            }),
                        JsonView::field_index(all, name@, 0) == JsonView::field_index(
                            all,
                            name@,
                            i as int,
                        ),
                    decreases fields.len() - i,
                {
                    proof {
                        assert(all[i as int].name == fields@[i as int].name@);
                    }
                    if text::same(fields[i].name.as_str(), name) {
                        return Some(&fields[i]);
                    }
                    i += 1;
                }
                None
            },
            _ => None,
        }
    }

    /// The members of an object; none where the value is no object.
    pub fn fields(&self) -> (r: Option<&Vec<JsonField>>)
        ensures
            match r {
                Some(v) => members(self@) == field_views(v@),
                None => members(self@) == Seq::<FieldView>::empty(),
            },
    {
        match self {
            Json::Object(v) => {
                proof {
                    assert(members(self@) =~= field_views(v@));
                }
                Some(v)
            },
            _ => None,
        }
    }

    /// The value as text.
    pub fn as_str(&self) -> (r: Option<&str>)
        ensures
            text::opt_str(r) == self@.as_text(),
    {
        match self {
            Json::Text(s) => Some(s.as_str()),
            _ => None,
        }
    }

    /// The value as an unsigned integer.
    pub fn as_u64(&self) -> (r: Option<u64>)
        ensures
            r == self@.as_unsigned(),
    {
        match self {
            Json::Integer(n) => if 0 <= *n && *n <= u64::MAX as i128 {
                Some(*n as u64)
            } else {
                None
            },
            _ => None,
        }
    }

    /// The value as a signed integer.
    pub fn as_i64(&self) -> (r: Option<i64>)
        ensures
            r == self@.as_signed(),
    {
        match self {
            Json::Integer(n) => if i64::MIN as i128 <= *n && *n <= i64::MAX as i128 {
                Some(*n as i64)
            } else {
                None
            },
            _ => None,
        }
    }

    /// The text of the member `name`, when it is a text.
    pub fn get_text(&self, name: &str) -> (r: Option<String>)
        ensures
            text::opt(r) == self@.field_text(name@),
    {
        match self.get(name) {
            Some(f) => match f.value.as_str() {
                Some(s) => Some(s.to_owned()),
                None => None,
            },
            None => None,
        }
    }
}

// ---------------------------------------------------------------------------
// Laws
// ---------------------------------------------------------------------------

proof fn lemma_field_index(fields: Seq<FieldView>, name: Seq<char>, i: int)
    requires
        0 <= i,
    ensures
        match JsonView::field_index(fields, name, i) {
            Some(k) => i <= k < fields.len() && fields[k].name == name && forall|j: int|
                i <= j < k ==> (#[trigger] fields[j]).name != name,
            None => forall|j: int| i <= j < fields.len() ==> (#[trigger] fields[j]).name != name,
        },
    decreases fields.len() - i,
{
    if i < fields.len() && fields[i].name != name {
        lemma_field_index(fields, name, i + 1);
    }
}

/// A field is found by its name in an object, the first one that has it, and in
/// nothing else.
pub proof fn law_a_field_is_found_by_its_name(
    j: JsonView,
    fields: Seq<FieldView>,
    name: Seq<char>,
    k: int,
)
    ensures
        0 <= k < fields.len() && fields[k].name == name && (forall|i: int|
            0 <= i < k ==> (#[trigger] fields[i]).name != name) ==> JsonView::Object(fields).field(
            name,
        ) == Some(fields[k]),
        (forall|i: int| 0 <= i < fields.len() ==> (#[trigger] fields[i]).name != name)
            ==> JsonView::Object(fields).field(name) is None,
        !(j is Object) ==> j.field(name) is None,
{
    lemma_field_index(fields, name, 0);
    match JsonView::field_index(fields, name, 0) {
        Some(p) => {
            if 0 <= k < fields.len() && fields[k].name == name {
                if k < p {
                    assert(fields[k].name != name);
                }
                if p < k {
                    assert(fields[p].name == name);
                }
            }
        },
        None => {},
    }
}

/// Values are what they are and nothing else: a text is a text, and a number is one
/// within the range that is asked for.
pub proof fn law_values_are_read_by_kind(s: Seq<char>, n: i128, b: bool, fields: Seq<FieldView>)
    ensures
        JsonView::Text(s).as_text() == Some(s),
        JsonView::Integer(n).as_text() is None,
        JsonView::Null.as_text() is None,
        0 <= n <= u64::MAX ==> JsonView::Integer(n).as_unsigned() == Some(n as u64),
        n < 0 || n > u64::MAX ==> JsonView::Integer(n).as_unsigned() is None,
        i64::MIN <= n <= i64::MAX ==> JsonView::Integer(n).as_signed() == Some(n as i64),
        n < i64::MIN || n > i64::MAX ==> JsonView::Integer(n).as_signed() is None,
        JsonView::Text(s).as_unsigned() is None,
        JsonView::Text(s).as_signed() is None,
        JsonView::Float.as_signed() is None,
        members(JsonView::Object(fields)) == fields,
        members(JsonView::Text(s)).len() == 0,
        members(JsonView::Bool(b)).len() == 0,
{
}

/// The text of a field is there exactly when the field is there and is a text.
pub proof fn law_the_text_of_a_field(j: JsonView, name: Seq<char>)
    ensures
        j.field_text(name) matches Some(s) ==> j.field(name) is Some && j.field(name)->0.value
            == JsonView::Text(s),
        j.field(name) matches Some(f) ==> (f.value matches JsonView::Text(s) ==> j.field_text(name)
            == Some(s)),
        j.field(name) is None ==> j.field_text(name) is None,
{
}

/// A document is read exactly when its outermost level is; an object keeps the names
/// and texts of its members, in their order.
pub proof fn law_a_document_keeps_its_members(input: Seq<char>, i: int)
    ensures
        document(input) is Ok <==> level(input) is Ok,
        level(input) matches Ok(LevelView::Object(m)) ==> document(input)->Ok_0 is Object
            && document(input)->Ok_0->Object_0.len() == m.len() && (0 <= i < m.len() ==> document(
            input,
        )->Ok_0->Object_0[i].name == m[i].0 && document(input)->Ok_0->Object_0[i].text == m[i].1),
        level(input) matches Ok(LevelView::Object(m)) ==> (0 <= i < m.len() && level(m[i].1)
            is Ok && level(m[i].1)->Ok_0 is Text ==> document(input)->Ok_0->Object_0[i].value
            == JsonView::Text(level(m[i].1)->Ok_0->Text_0)),
        level(input) matches Ok(LevelView::Text(s)) ==> document(input)->Ok_0 == JsonView::Text(s),
        level(input) matches Ok(LevelView::Integer(n)) ==> document(input)->Ok_0
            == JsonView::Integer(n),
        level(input) matches Ok(LevelView::Bool(b)) ==> document(input)->Ok_0 == JsonView::Bool(b),
        level(input) matches Ok(LevelView::Array(v)) ==> document(input)->Ok_0 is Array && document(
            input,
        )->Ok_0->Array_0.len() == v.len(),
{
    match level(input) {
        Ok(LevelView::Object(m)) => {
            if 0 <= i < m.len() && level(m[i].1) is Ok && level(m[i].1)->Ok_0 is Text {
                assert(value_at(m[i].1, 127) == grown(level(m[i].1)->Ok_0, 127));
                assert(document(input)->Ok_0->Object_0[i].value == value_at(m[i].1, 127));
            }
        },
        _ => {},
    }
}

} // verus!
