//! A JSON document tree, read from and written to text by `serde_json`.
use vstd::prelude::*;

verus! {

broadcast use vstd::std_specs::vec::axiom_vec_index_decreases;

/// A JSON value as a mathematical value. Numbers keep what the schema reads
/// of them: an unsigned integer, a negative integer, or neither.
pub enum JsonValue {
    Null,
    Bool(bool),
    UInt(u64),
    NegInt(i64),
    NonInteger,
    Str(Seq<char>),
    Array(Seq<JsonValue>),
    Object(Seq<(Seq<char>, JsonValue)>),
}

/// A JSON value. An object keeps its fields in document order.
#[derive(Debug, PartialEq, Eq)]
pub enum Json {
    Null,
    Bool(bool),
    UInt(u64),
    NegInt(i64),
    /// A number that is not an integer. Its value is not kept, and it is
    /// written back as `null`.
    NonInteger,
    Str(String),
    Array(Vec<Json>),
    Object(Vec<(String, Json)>),
}

pub type Fields = Seq<(Seq<char>, JsonValue)>;

/// The mathematical value of a JSON tree.
pub open spec fn json_view(j: Json) -> JsonValue
    decreases j,
{
    match j {
        Json::Null => JsonValue::Null,
        Json::Bool(b) => JsonValue::Bool(b),
        Json::UInt(n) => JsonValue::UInt(n),
        Json::NegInt(n) => JsonValue::NegInt(n),
        Json::NonInteger => JsonValue::NonInteger,
        Json::Str(s) => JsonValue::Str(s@),
        Json::Array(v) => JsonValue::Array(
            Seq::new(
                v.len() as nat,
                |i: int|
                    if 0 <= i < v.len() {
                        json_view(v[i])
                    } else {
                        JsonValue::Null
                    },
            ),
        ),
        Json::Object(v) => JsonValue::Object(
            Seq::new(
                v.len() as nat,
                |i: int|
                    if 0 <= i < v.len() {
                        (v[i].0@, json_view(v[i].1))
                    } else {
                        (Seq::empty(), JsonValue::Null)
                    },
            ),
        ),
    }
    }

impl View for Json {
    type V = JsonValue;

    open spec fn view(&self) -> JsonValue {
        json_view(*self)
    }
}

pub open spec fn fields_view(v: Vec<(String, Json)>) -> Fields {
    Seq::new(v.len() as nat, |i: int| (v@[i].0@, v@[i].1@))
}

pub open spec fn items_view(v: Vec<Json>) -> Seq<JsonValue> {
    Seq::new(v.len() as nat, |i: int| v@[i]@)
}

pub proof fn lemma_object_view(v: Vec<(String, Json)>)
    ensures
        Json::Object(v)@ == JsonValue::Object(fields_view(v)),
{
    let w = Json::Object(v)@;
    assert(w is Object);
    assert forall|i: int| 0 <= i < v.len() implies #[trigger] w->Object_0[i] == fields_view(v)[i] by {
        assert(v[i] == v@[i]);
    }
    assert(w->Object_0 =~= fields_view(v));
}

pub proof fn lemma_array_view(v: Vec<Json>)
    ensures
        Json::Array(v)@ == JsonValue::Array(items_view(v)),
{
    let w = Json::Array(v)@;
    assert(w is Array);
    assert forall|i: int| 0 <= i < v.len() implies #[trigger] w->Array_0[i] == items_view(v)[i] by {
        assert(v[i] == v@[i]);
    }
    assert(w->Array_0 =~= items_view(v));
}

/// The index of the first field named `k` at or after `i`, or -1.
pub open spec fn find_from(fs: Fields, k: Seq<char>, i: int) -> int
    decreases fs.len() - i,
{
    if i < 0 || i >= fs.len() {
        -1
    } else if fs[i].0 == k {
        i
    } else {
        find_from(fs, k, i + 1)
    }
}

/// The index of the first field named `k`, or -1.
pub open spec fn field_index(fs: Fields, k: Seq<char>) -> int {
    find_from(fs, k, 0)
}

/// The value of the first field named `k`.
pub open spec fn field(fs: Fields, k: Seq<char>) -> Option<JsonValue> {
    let i = field_index(fs, k);
    if 0 <= i < fs.len() {
        Some(fs[i].1)
    } else {
        None
    }
}

/// The first field named `k` is the one at `i`.
pub proof fn lemma_field_at(fs: Fields, k: Seq<char>, i: int)
    requires
        0 <= i < fs.len(),
        fs[i].0 == k,
        forall|j: int| 0 <= j < i ==> fs[j].0 != k,
    ensures
        field_index(fs, k) == i,
        field(fs, k) == Some(fs[i].1),
{
    lemma_find_prefix(fs, k, i, 0);
}

proof fn lemma_find_prefix(fs: Fields, k: Seq<char>, i: int, j: int)
    requires
        0 <= j <= i < fs.len(),
        fs[i].0 == k,
        forall|m: int| j <= m < i ==> fs[m].0 != k,
    ensures
        find_from(fs, k, j) == i,
    decreases i - j,
{
    if j < i {
        lemma_find_prefix(fs, k, i, j + 1);
    }
}

/// No field is named `k`.
pub proof fn lemma_field_absent(fs: Fields, k: Seq<char>)
    requires
        forall|j: int| 0 <= j < fs.len() ==> fs[j].0 != k,
    ensures
        field_index(fs, k) == -1,
        field(fs, k) is None,
{
    lemma_absent_from(fs, k, 0);
}

proof fn lemma_absent_from(fs: Fields, k: Seq<char>, j: int)
    requires
        0 <= j,
        forall|m: int| 0 <= m < fs.len() ==> fs[m].0 != k,
    ensures
        find_from(fs, k, j) == -1,
    decreases fs.len() - j,
{
    if j < fs.len() {
        lemma_absent_from(fs, k, j + 1);
    }
}

/// Every field is named by one of `allowed`.
pub open spec fn keys_within(fs: Fields, allowed: Seq<Seq<char>>) -> bool {
    forall|i: int| 0 <= i < fs.len() ==> allowed.contains(#[trigger] fs[i].0)
}

/// Whether two strings hold the same characters.
pub fn str_eq(a: &str, b: &str) -> (r: bool)
    ensures
        r == (a@ == b@),
{
    let n = a.unicode_len();
    if n != b.unicode_len() {
        return false;
    }
    let mut i: usize = 0;
    while i < n
        invariant
            n == a@.len() == b@.len(),
            i <= n,
            a@.subrange(0, i as int) == b@.subrange(0, i as int),
        decreases n - i,
    {
        if a.get_char(i) != b.get_char(i) {
            return false;
        }
        proof {
            assert(a@.subrange(0, i + 1) =~= a@.subrange(0, i as int).push(a@[i as int]));
            assert(b@.subrange(0, i + 1) =~= b@.subrange(0, i as int).push(b@[i as int]));
        }
        i = i + 1;
    }
    proof {
        assert(a@ =~= a@.subrange(0, n as int));
        assert(b@ =~= b@.subrange(0, n as int));
    }
    true
}

/// The index of the first field named `k`, as `field_index` gives it.
pub fn find_field(fs: &Vec<(String, Json)>, k: &str) -> (r: Option<usize>)
    ensures
        match r {
            Some(i) => field_index(fields_view(*fs), k@) == i && i < fs.len(),
            None => field_index(fields_view(*fs), k@) == -1,
        },
{
    let ghost v = fields_view(*fs);
    let mut i: usize = 0;
    while i < fs.len()
        invariant
            i <= fs.len(),
            v == fields_view(*fs),
            find_from(v, k@, 0) == find_from(v, k@, i as int),
        decreases fs.len() - i,
    {
        if str_eq(fs[i].0.as_str(), k) {
            return Some(i);
        }
        i = i + 1;
    }
    None
}

/// Whether every field is named by one of `allowed`.
pub fn check_keys(fs: &Vec<(String, Json)>, allowed: &Vec<&str>) -> (r: bool)
    ensures
        r == keys_within(fields_view(*fs), Seq::new(allowed.len() as nat, |j: int| allowed@[j]@)),
{
    let ghost al = Seq::new(allowed.len() as nat, |j: int| allowed@[j]@);
    let mut i: usize = 0;
    while i < fs.len()
        invariant
            i <= fs.len(),
            al == Seq::new(allowed.len() as nat, |j: int| allowed@[j]@),
            forall|m: int| 0 <= m < i ==> al.contains(#[trigger] fields_view(*fs)[m].0),
        decreases fs.len() - i,
    {
        let mut j: usize = 0;
        let mut found = false;
        while j < allowed.len()
            invariant
                j <= allowed.len(),
                i < fs.len(),
                al == Seq::new(allowed.len() as nat, |j: int| allowed@[j]@),
                found ==> al.contains(fs@[i as int].0@),
                !found ==> forall|m: int| 0 <= m < j ==> al[m] != fs@[i as int].0@,
            decreases allowed.len() - j,
        {
            if !found && str_eq(fs[i].0.as_str(), allowed[j]) {
                found = true;
                proof {
                    assert(al[j as int] == fs@[i as int].0@);
                }
            }
            j = j + 1;
        }
        if !found {
            proof {
                assert(!al.contains(fields_view(*fs)[i as int].0));
            }
            return false;
        }
        i = i + 1;
    }
    true
}

/// What `serde_json` reads from a text: `None` where the text is not JSON.
pub uninterp spec fn parsed_json(text: Seq<char>) -> Option<JsonValue>;

/// The one-based line at which `serde_json` finds a text not to be JSON.
pub uninterp spec fn syntax_error_line(text: Seq<char>) -> usize;

/// The column at which `serde_json` finds a text not to be JSON.
pub uninterp spec fn syntax_error_column(text: Seq<char>) -> usize;

/// The compact text that `serde_json` writes for a value.
pub uninterp spec fn rendered_json(j: JsonValue) -> Seq<char>;

/// `serde_json::Value`, carried opaquely between the two conversions below.
#[verifier::external_type_specification]
#[verifier::external_body]
pub struct ExValue(serde_json::Value);

/// Relies on the public variants of `serde_json::Value` and on
/// `serde_json::Number::as_u64` / `as_i64`: moves a parsed value into the
/// library's tree, variant for variant, keeping object fields in order.
#[verifier::external_body]
fn json_of_value(v: serde_json::Value) -> Json {
    match v {
        serde_json::Value::Null => Json::Null,
        serde_json::Value::Bool(b) => Json::Bool(b),
        serde_json::Value::Number(n) => match (n.as_u64(), n.as_i64()) {
            (Some(u), _) => Json::UInt(u),
            (None, Some(i)) => Json::NegInt(i),
            _ => Json::NonInteger,
        },
        serde_json::Value::String(s) => Json::Str(s),
        serde_json::Value::Array(a) => Json::Array(a.into_iter().map(json_of_value).collect()),
        serde_json::Value::Object(m) => Json::Object(m.into_iter().map(|(k, x)| (k, json_of_value(x))).collect()),
    }
}

/// Relies on the public variants of `serde_json::Value`, on
/// `serde_json::Value::from` for integers, and on collecting into
/// `serde_json::Map`: moves the library's tree into a value for writing,
/// variant for variant, keeping object fields in order.
#[verifier::external_body]
fn value_of_json(j: &Json) -> serde_json::Value {
    match j {
        Json::Null | Json::NonInteger => serde_json::Value::Null,
        Json::Bool(b) => serde_json::Value::Bool(*b),
        Json::UInt(n) => serde_json::Value::from(*n),
        Json::NegInt(n) => serde_json::Value::from(*n),
        Json::Str(s) => serde_json::Value::String(s.clone()),
        Json::Array(a) => serde_json::Value::Array(a.iter().map(value_of_json).collect()),
        Json::Object(fs) => serde_json::Value::Object(fs.iter().map(|(k, x)| (k.clone(), value_of_json(x))).collect()),
    }
}

/// Relies on `serde_json::from_str` into a `serde_json::Value` (with the
/// `preserve_order` feature, so object fields keep document order), and on
/// `serde_json::Error::line` / `column` where the text is not JSON: the result
/// depends on the text alone.
#[verifier::external_body]
pub(crate) fn parse_json(text: &str) -> (r: Result<Json, (usize, usize)>)
    ensures
        match r {
            Ok(j) => parsed_json(text@) == Some(j@),
            Err((line, column)) => parsed_json(text@) is None && line == syntax_error_line(text@) && column
                == syntax_error_column(text@),
        },
{
    match serde_json::from_str::<serde_json::Value>(text) {
        Ok(v) => Ok(json_of_value(v)),
        Err(e) => Err((e.line(), e.column())),
    }
}

/// Relies on `Display` of `serde_json::Value`, which writes compact JSON:
/// the result depends on the value alone.
#[verifier::external_body]
pub(crate) fn render_json(j: &Json) -> (r: String)
    ensures
        r@ == rendered_json(j@),
{
    value_of_json(j).to_string()
}

} // verus!
