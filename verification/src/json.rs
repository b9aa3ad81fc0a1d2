//! JSON values, and the parser that yields them.
use vstd::prelude::*;

use crate::text::{int_text, nat_text};

verus! {

/// A JSON number, as the parser tells them apart: an integer from zero up to
/// `u64::MAX`, a negative integer, or anything else, by its text.
#[derive(Debug, PartialEq, Eq)]
pub enum JsonNumber {
    PosInt(u64),
    NegInt(i64),
    Float(String),
}

/// A JSON value.
#[derive(Debug, PartialEq, Eq)]
pub enum Json {
    Null,
    Bool(bool),
    Number(JsonNumber),
    String(String),
    Array(Vec<Json>),
    Object(Vec<(String, Json)>),
}

#[verifier::ext_equal]
pub enum NumberView {
    PosInt(u64),
    NegInt(i64),
    Float(Seq<char>),
}

#[verifier::ext_equal]
pub enum JsonView {
    Null,
    Bool(bool),
    Number(NumberView),
    String(Seq<char>),
    Array(Seq<JsonView>),
    Object(Seq<(Seq<char>, JsonView)>),
}

impl View for JsonNumber {
    type V = NumberView;

    open spec fn view(&self) -> NumberView {
        match self {
            JsonNumber::PosInt(n) => NumberView::PosInt(*n),
            JsonNumber::NegInt(n) => NumberView::NegInt(*n),
            JsonNumber::Float(s) => NumberView::Float(s@),
        }
    }
}

pub open spec fn values_view(s: Seq<Json>) -> Seq<JsonView>
    decreases s,
{
    Seq::new(
        s.len(),
        |i: int|
            if 0 <= i < s.len() {
                s[i].view()
            } else {
                arbitrary()
            },
    )
}

pub open spec fn fields_view(s: Seq<(String, Json)>) -> Seq<(Seq<char>, JsonView)>
    decreases s,
{
    Seq::new(
        s.len(),
        |i: int|
            if 0 <= i < s.len() {
                (s[i].0@, s[i].1.view())
            } else {
                arbitrary()
            },
    )
}

impl View for Json {
    type V = JsonView;

    open spec fn view(&self) -> JsonView
        decreases self,
    {
        match self {
            Json::Null => JsonView::Null,
            Json::Bool(b) => JsonView::Bool(*b),
            Json::Number(n) => JsonView::Number(n@),
            Json::String(s) => JsonView::String(s@),
            Json::Array(vs) => JsonView::Array(values_view(vs@)),
            Json::Object(fs) => JsonView::Object(fields_view(fs@)),
        }
    }
}

/// The number's text.
pub open spec fn number_text(n: NumberView) -> Seq<char> {
    match n {
        NumberView::PosInt(u) => nat_text(u as nat),
        NumberView::NegInt(i) => int_text(i as int),
        NumberView::Float(s) => s,
    }
}

pub open spec fn distinct_keys(fs: Seq<(Seq<char>, JsonView)>) -> bool {
    forall|i: int, j: int| 0 <= i < j < fs.len() ==> (#[trigger] fs[i]).0 != (#[trigger] fs[j]).0
}

/// A value as the parser yields them: a negative integer is below zero, and no
/// object has a key twice.
pub open spec fn well_formed(j: JsonView) -> bool
    decreases j,
{
    match j {
        JsonView::Number(NumberView::NegInt(i)) => i < 0,
        JsonView::Array(vs) => forall|i: int| 0 <= i < vs.len() ==> well_formed(#[trigger] vs[i]),
        JsonView::Object(fs) => distinct_keys(fs) && forall|i: int|
            0 <= i < fs.len() ==> well_formed((#[trigger] fs[i]).1),
        _ => true,
    }
}

#[verifier::external_type_specification]
#[verifier::external_body]
pub struct ExValue(serde_json::Value);

#[verifier::external_type_specification]
#[verifier::external_body]
pub struct ExNumber(serde_json::Number);

/// What a `serde_json::Value` holds.
pub uninterp spec fn json_of(v: serde_json::Value) -> JsonView;

/// What a `serde_json::Number` holds.
pub uninterp spec fn number_of(n: serde_json::Number) -> NumberView;

/// What `serde_json` makes of a text: a value, or the text of an error.
pub uninterp spec fn json_parse(text: Seq<char>) -> Result<JsonView, Seq<char>>;

/// Calls `serde_json::from_str`, at `serde_json::Value`. The result is named;
/// an error is told by what it displays.
#[verifier::external_body]
fn parse_value(text: &str) -> (r: Result<serde_json::Value, String>)
    ensures
        match r {
            Ok(v) => json_parse(text@) == Ok::<JsonView, Seq<char>>(json_of(v)),
            Err(e) => json_parse(text@) == Err::<JsonView, Seq<char>>(e@),
        },
{
    serde_json::from_str::<serde_json::Value>(text).map_err(|e| e.to_string())
}

/// The outermost layer of a `serde_json::Value`.
enum Node<'a> {
    Null,
    Bool(bool),
    Number(&'a serde_json::Number),
    String(&'a String),
    Array(&'a Vec<serde_json::Value>),
    Object(Vec<(&'a String, &'a serde_json::Value)>),
}

spec fn node_view(n: Node<'_>) -> JsonView {
    match n {
        Node::Null => JsonView::Null,
        Node::Bool(b) => JsonView::Bool(b),
        Node::Number(x) => JsonView::Number(number_of(*x)),
        Node::String(s) => JsonView::String(s@),
        Node::Array(a) => JsonView::Array(Seq::new(a@.len(), |i: int| json_of(a@[i]))),
        Node::Object(m) => JsonView::Object(
            Seq::new(m@.len(), |i: int| (m@[i].0@, json_of(*m@[i].1))),
        ),
    }
}

/// Takes the variants of `serde_json::Value` apart. An object's entries come
/// out of `serde_json::Map::iter`, which yields each key once.
#[verifier::external_body]
fn open_value<'a>(v: &'a serde_json::Value) -> (r: Node<'a>)
    ensures
        json_of(*v) == node_view(r),
        r matches Node::Object(m) ==> forall|i: int, j: int|
            0 <= i < j < m@.len() ==> (#[trigger] m@[i]).0@ != (#[trigger] m@[j]).0@,
{
    match v {
        serde_json::Value::Null => Node::Null,
        serde_json::Value::Bool(b) => Node::Bool(*b),
        serde_json::Value::Number(n) => Node::Number(n),
        serde_json::Value::String(s) => Node::String(s),
        serde_json::Value::Array(a) => Node::Array(a),
        serde_json::Value::Object(m) => Node::Object(m.iter().collect()),
    }
}

/// `serde_json::Number::as_u64`: the number, where it is an integer from zero up
/// to `u64::MAX`.
pub assume_specification[ serde_json::Number::as_u64 ](n: &serde_json::Number) -> (r: Option<u64>)
    ensures
        r == match number_of(*n) {
            NumberView::PosInt(u) => Some(u),
            _ => None,
        },
;

/// `serde_json::Number::as_i64`: the number, where it is an integer that fits.
/// One that is held as negative is below zero.
pub assume_specification[ serde_json::Number::as_i64 ](n: &serde_json::Number) -> (r: Option<i64>)
    ensures
        match number_of(*n) {
            NumberView::PosInt(u) => r == (if u <= i64::MAX {
                Some(u as i64)
            } else {
                None
            }),
            NumberView::NegInt(i) => r == Some(i) && i < 0,
            NumberView::Float(_) => r is None,
        },
;

/// Calls `serde_json::Number`'s `to_string`: decimal for an integer, and the
/// text that names it for any other number.
#[verifier::external_body]
fn number_to_string(n: &serde_json::Number) -> (r: String)
    ensures
        r@ == number_text(number_of(*n)),
{
    n.to_string()
}

fn read_number(n: &serde_json::Number) -> (r: JsonNumber)
    ensures
        r@ == number_of(*n),
        well_formed(JsonView::Number(r@)),
{
    match n.as_u64() {
        Some(u) => JsonNumber::PosInt(u),
        None => match n.as_i64() {
            Some(i) => JsonNumber::NegInt(i),
            None => JsonNumber::Float(number_to_string(n)),
        },
    }
}

/// The value that a `serde_json::Value` holds.
pub fn read_json(v: &serde_json::Value) -> (r: Json)
    ensures
        r@ == json_of(*v),
        well_formed(r@),
    decreases json_of(*v),
{
    match open_value(v) {
        Node::Null => Json::Null,
        Node::Bool(b) => Json::Bool(b),
        Node::Number(n) => Json::Number(read_number(n)),
        Node::String(s) => Json::String(s.clone()),
        Node::Array(a) => {
            let ghost model = json_of(*v)->Array_0;
            let mut vs: Vec<Json> = Vec::new();
            let n: usize = a.len();
            for i in 0..n
                invariant
                    n == a.len(),
                    json_of(*v) == JsonView::Array(model),
                    model.len() == n,
                    forall|j: int| 0 <= j < n ==> model[j] == json_of(#[trigger] a@[j]),
                    vs.len() == i,
                    forall|j: int|
                        0 <= j < i ==> (#[trigger] vs@[j])@ == model[j] && well_formed(vs@[j]@),
            {
                proof {
                    assert(model[i as int] == json_of(a@[i as int]));
                    assert(decreases_to!(json_of(*v) => json_of(*v)->Array_0));
                    assert(decreases_to!(json_of(*v)->Array_0 => json_of(*v)->Array_0[i as int]));
                }
                vs.push(read_json(&a[i]));
            }
            assert(values_view(vs@) =~= model);
            Json::Array(vs)
        },
        Node::Object(m) => {
            let ghost model = json_of(*v)->Object_0;
            let mut fs: Vec<(String, Json)> = Vec::new();
            let n: usize = m.len();
            for i in 0..n
                invariant
                    n == m.len(),
                    json_of(*v) == JsonView::Object(model),
                    model.len() == n,
                    forall|j: int|
                        0 <= j < n ==> model[j] == ((#[trigger] m@[j]).0@, json_of(*m@[j].1)),
                    fs.len() == i,
                    forall|j: int|
                        0 <= j < i ==> ((#[trigger] fs@[j]).0@, fs@[j].1@) == model[j]
                            && well_formed(fs@[j].1@),
            {
                proof {
                    assert(model[i as int].1 == json_of(*m@[i as int].1));
                    assert(decreases_to!(json_of(*v) => json_of(*v)->Object_0));
                    assert(decreases_to!(json_of(*v)->Object_0 => json_of(*v)->Object_0[i as int]));
                    assert(decreases_to!(model[i as int] => model[i as int].1));
                }
                let value = read_json(m[i].1);
                fs.push((m[i].0.clone(), value));
            }
            proof {
                assert(fields_view(fs@) =~= model);
                assert forall|i: int, j: int| 0 <= i < j < model.len() implies (
                #[trigger] model[i]).0 != (#[trigger] model[j]).0 by {
                    assert(m@[i].0@ != m@[j].0@);
                }
                assert forall|i: int| 0 <= i < model.len() implies well_formed(
                    (#[trigger] model[i]).1,
                ) by {
                    assert(well_formed(fs@[i].1@));
                }
            }
            Json::Object(fs)
        },
    }
}

/// Reads a JSON text. An error is told by its text.
pub fn parse_json(text: &str) -> (r: Result<Json, String>)
    ensures
        match r {
            Ok(j) => json_parse(text@) == Ok::<JsonView, Seq<char>>(j@) && well_formed(j@),
            Err(e) => json_parse(text@) == Err::<JsonView, Seq<char>>(e@),
        },
{
    match parse_value(text) {
        Ok(v) => Ok(read_json(&v)),
        Err(e) => Err(e),
    }
}

} // verus!
