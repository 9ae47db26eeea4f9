use vstd::prelude::*;
use crate::json::Json;

verus! {

#[verifier::external_type_specification]
#[verifier::external_body]
pub struct ExValue(serde_json::Value);

/// What a `serde_json::Value` holds, as the library's JSON type. A number
/// reads as `Some(n)` exactly where `Number::as_u64` gives `Some(n)`.
pub uninterp spec fn value_tree(v: serde_json::Value) -> Json;

/// The document that serde_json reads from some bytes, if they hold one.
pub uninterp spec fn parsed(b: Seq<u8>) -> Option<Json>;

/// The bytes that serde_json writes for a string.
pub uninterp spec fn quoted(s: Seq<char>) -> Seq<u8>;

/// The bytes that serde_json writes for an unsigned integer.
pub uninterp spec fn decimal(n: u64) -> Seq<u8>;

/// One level of a `serde_json::Value`, with its children still in serde_json's
/// form.
pub enum ValueParts {
    Null,
    Bool(bool),
    Number(Option<u64>),
    Str(String),
    Array(Vec<serde_json::Value>),
    Object(Vec<(String, serde_json::Value)>),
}

/// `p` is the top level of the tree `j`.
pub open spec fn parts_of(p: ValueParts, j: Json) -> bool {
    match j {
        Json::Null => p is Null,
        Json::Bool(b) => p == ValueParts::Bool(b),
        Json::Number(n) => p == ValueParts::Number(n),
        Json::Str(s) => p is Str && p->Str_0@ == s@,
        Json::Array(items) => {
            &&& p is Array
            &&& p->Array_0@.len() == items@.len()
            &&& forall|i: int|
                0 <= i < items@.len() ==> value_tree(#[trigger] p->Array_0@[i]) == items@[i]
        },
        Json::Object(es) => {
            &&& p is Object
            &&& p->Object_0@.len() == es@.len()
            &&& forall|i: int|
                0 <= i < es@.len() ==> (#[trigger] p->Object_0@[i]).0@ == es@[i].0@ && value_tree(
                    p->Object_0@[i].1,
                ) == es@[i].1
        },
    }
}

/// `a` and `b` are the same JSON value: same shape, same characters, same
/// entries in the same order.
pub open spec fn same_json(a: Json, b: Json) -> bool
    decreases a,
{
    match a {
        Json::Array(x) => {
            &&& b is Array
            &&& x@.len() == b->Array_0@.len()
            &&& forall|i: int| 0 <= i < x@.len() ==> same_json(#[trigger] x@[i], b->Array_0@[i])
        },
        Json::Object(x) => {
            &&& b is Object
            &&& x@.len() == b->Object_0@.len()
            &&& forall|i: int|
                0 <= i < x@.len() ==> (#[trigger] x@[i]).0@ == b->Object_0@[i].0@ && same_json(
                    x@[i].1,
                    b->Object_0@[i].1,
                )
        },
        Json::Str(s) => b is Str && s@ == b->Str_0@,
        _ => a == b,
    }
}

/// Relies on `serde_json::from_slice`: it reads one JSON document from the
/// bytes, or fails.
#[verifier::external_body]
pub(crate) fn parse_value(b: &[u8]) -> (r: Option<serde_json::Value>)
    ensures
        match r {
            Some(v) => parsed(b@) == Some(value_tree(v)),
            None => parsed(b@) is None,
        },
{
    serde_json::from_slice::<serde_json::Value>(b).ok()
}

/// Relies on the variants of `serde_json::Value`, on `Number::as_u64`, and on
/// the map of an object handing out its entries in order.
#[verifier::external_body]
fn value_parts(v: serde_json::Value) -> (r: ValueParts)
    ensures
        parts_of(r, value_tree(v)),
{
    match v {
        serde_json::Value::Null => ValueParts::Null,
        serde_json::Value::Bool(b) => ValueParts::Bool(b),
        serde_json::Value::Number(n) => ValueParts::Number(n.as_u64()),
        serde_json::Value::String(s) => ValueParts::Str(s),
        serde_json::Value::Array(a) => ValueParts::Array(a),
        serde_json::Value::Object(m) => ValueParts::Object(m.into_iter().collect()),
    }
}

/// Relies on `serde_json::to_vec` on a string: the quoted, escaped text.
#[verifier::external_body]
fn write_quoted(s: &str) -> (r: Vec<u8>)
    ensures
        r@ == quoted(s@),
{
    serde_json::to_vec(s).unwrap_or_default()
}

/// Relies on `serde_json::to_vec` on a `u64`: its decimal digits.
#[verifier::external_body]
fn write_decimal(n: u64) -> (r: Vec<u8>)
    ensures
        r@ == decimal(n),
{
    serde_json::to_vec(&n).unwrap_or_default()
}

/// Rebuilds the library's JSON value from serde_json's.
pub fn json_of_value(v: serde_json::Value) -> (r: Json)
    ensures
        same_json(r, value_tree(v)),
    decreases value_tree(v),
{
    let ghost tree = value_tree(v);
    match value_parts(v) {
        ValueParts::Null => Json::Null,
        ValueParts::Bool(b) => Json::Bool(b),
        ValueParts::Number(n) => Json::Number(n),
        ValueParts::Str(s) => Json::Str(s),
        ValueParts::Array(items) => {
            let ghost children = items@;
            let mut items = items;
            let mut out: Vec<Json> = Vec::new();
            while items.len() > 0
                invariant
                    tree == value_tree(v),
                    tree is Array,
                    children.len() == tree->Array_0@.len(),
                    forall|i: int|
                        0 <= i < children.len() ==> value_tree(#[trigger] children[i]) == tree->Array_0@[i],
                    out@.len() <= children.len(),
                    items@ == children.subrange(out@.len() as int, children.len() as int),
                    forall|i: int| 0 <= i < out@.len() ==> same_json(#[trigger] out@[i], tree->Array_0@[i]),
                decreases items@.len(),
            {
                let ghost k = out@.len() as int;
                let x = items.remove(0);
                assert(x == children[k]);
                proof {
                    assert(decreases_to!(tree => value_tree(x)));
                }
                let jx = json_of_value(x);
                out.push(jx);
                assert(items@ =~= children.subrange(out@.len() as int, children.len() as int));
            }
            Json::Array(out)
        },
        ValueParts::Object(es) => {
            let ghost children = es@;
            let mut es = es;
            let mut out: Vec<(String, Json)> = Vec::new();
            while es.len() > 0
                invariant
                    tree == value_tree(v),
                    tree is Object,
                    children.len() == tree->Object_0@.len(),
                    forall|i: int|
                        0 <= i < children.len() ==> (#[trigger] children[i]).0@ == tree->Object_0@[i].0@
                            && value_tree(children[i].1) == tree->Object_0@[i].1,
                    out@.len() <= children.len(),
                    es@ == children.subrange(out@.len() as int, children.len() as int),
                    forall|i: int|
                        0 <= i < out@.len() ==> (#[trigger] out@[i]).0@ == tree->Object_0@[i].0@ && same_json(
                            out@[i].1,
                            tree->Object_0@[i].1,
                        ),
                decreases es@.len(),
            {
                let ghost k = out@.len() as int;
                let (key, x) = es.remove(0);
                assert(value_tree(x) == tree->Object_0@[k].1);
                proof {
                    assert(decreases_to!(tree => tree->Object_0));
                    assert(decreases_to!(tree->Object_0 => tree->Object_0@[k]));
                    assert(decreases_to!(tree => value_tree(x)));
                }
                let jx = json_of_value(x);
                out.push((key, jx));
                assert(es@ =~= children.subrange(out@.len() as int, children.len() as int));
            }
            Json::Object(out)
        },
    }
}


pub open spec fn null_text() -> Seq<u8> {
    seq![110u8, 117u8, 108u8, 108u8]
}

pub open spec fn bool_text(b: bool) -> Seq<u8> {
    if b {
        seq![116u8, 114u8, 117u8, 101u8]
    } else {
        seq![102u8, 97u8, 108u8, 115u8, 101u8]
    }
}

/// The compact JSON text of a value. A number outside the model's range is
/// written as `null`.
pub open spec fn json_text(j: Json) -> Seq<u8>
    decreases j,
{
    match j {
        Json::Null => null_text(),
        Json::Bool(b) => bool_text(b),
        Json::Number(Some(n)) => decimal(n),
        Json::Number(None) => null_text(),
        Json::Str(s) => quoted(s@),
        Json::Array(v) => seq![91u8] + items_text(v@) + seq![93u8],
        Json::Object(e) => seq![123u8] + entries_text(e@) + seq![125u8],
    }
}

/// The items of an array, separated by commas.
pub open spec fn items_text(s: Seq<Json>) -> Seq<u8>
    decreases s,
{
    if s.len() == 0 {
        Seq::empty()
    } else if s.len() == 1 {
        json_text(s[0])
    } else {
        items_text(s.drop_last()) + seq![44u8] + json_text(s.last())
    }
}

/// The entries of an object, each as `key:value`, separated by commas.
pub open spec fn entries_text(s: Seq<(String, Json)>) -> Seq<u8>
    decreases s,
{
    if s.len() == 0 {
        Seq::empty()
    } else if s.len() == 1 {
        quoted(s[0].0@) + seq![58u8] + json_text(s[0].1)
    } else {
        entries_text(s.drop_last()) + seq![44u8] + quoted(s.last().0@) + seq![58u8] + json_text(
            s.last().1,
        )
    }
}

fn append(out: &mut Vec<u8>, bytes: Vec<u8>)
    ensures
        final(out)@ == old(out)@ + bytes@,
{
    let mut bytes = bytes;
    out.append(&mut bytes);
}

/// Appends the compact JSON text of `j` to `out`.
pub fn write_json(j: &Json, out: &mut Vec<u8>)
    ensures
        final(out)@ == old(out)@ + json_text(*j),
    decreases j,
{
    match j {
        Json::Null => {
            append(out, vec![110u8, 117u8, 108u8, 108u8]);
            assert(out@ =~= old(out)@ + json_text(*j));
        },
        Json::Bool(b) => {
            if *b {
                append(out, vec![116u8, 114u8, 117u8, 101u8]);
            } else {
                append(out, vec![102u8, 97u8, 108u8, 115u8, 101u8]);
            }
            assert(out@ =~= old(out)@ + json_text(*j));
        },
        Json::Number(Some(n)) => append(out, write_decimal(*n)),
        Json::Number(None) => {
            append(out, vec![110u8, 117u8, 108u8, 108u8]);
            assert(out@ =~= old(out)@ + json_text(*j));
        },
        Json::Str(s) => append(out, write_quoted(s.as_str())),
        Json::Array(v) => {
            out.push(91u8);
            let ghost start = out@;
            let mut i: usize = 0;
            while i < v.len()
                invariant
                    *j == Json::Array(*v),
                    i <= v@.len(),
                    out@ == start + items_text(v@.subrange(0, i as int)),
                decreases v@.len() - i,
            {
                let ghost before = out@;
                if i > 0 {
                    out.push(44u8);
                }
                proof {
                    assert(decreases_to!(*j => j->Array_0));
                    assert(decreases_to!(j->Array_0 => j->Array_0@[i as int]));
                }
                write_json(&v[i], out);
                proof {
                    let sub = v@.subrange(0, i as int + 1);
                    assert(sub.drop_last() =~= v@.subrange(0, i as int));
                    assert(sub.last() == v@[i as int]);
                    if i == 0 {
                        assert(v@.subrange(0, 0) =~= Seq::<Json>::empty());
                        assert(out@ =~= start + items_text(sub));
                    } else {
                        assert(out@ =~= start + items_text(sub));
                    }
                }
                i = i + 1;
            }
            assert(v@.subrange(0, v@.len() as int) =~= v@);
            out.push(93u8);
            assert(out@ =~= old(out)@ + json_text(*j));
        },
        Json::Object(e) => {
            out.push(123u8);
            let ghost start = out@;
            let mut i: usize = 0;
            while i < e.len()
                invariant
                    *j == Json::Object(*e),
                    i <= e@.len(),
                    out@ == start + entries_text(e@.subrange(0, i as int)),
                decreases e@.len() - i,
            {
                if i > 0 {
                    out.push(44u8);
                }
                append(out, write_quoted(e[i].0.as_str()));
                out.push(58u8);
                proof {
                    assert(decreases_to!(*j => j->Object_0));
                    assert(decreases_to!(j->Object_0 => j->Object_0@[i as int]));
                    assert(decreases_to!(j->Object_0@[i as int] => j->Object_0@[i as int].1));
                }
                write_json(&e[i].1, out);
                proof {
                    let sub = e@.subrange(0, i as int + 1);
                    assert(sub.drop_last() =~= e@.subrange(0, i as int));
                    assert(sub.last() == e@[i as int]);
                    if i == 0 {
                        assert(e@.subrange(0, 0) =~= Seq::<(String, Json)>::empty());
                        assert(out@ =~= start + entries_text(sub));
                    } else {
                        assert(out@ =~= start + entries_text(sub));
                    }
                }
                i = i + 1;
            }
            assert(e@.subrange(0, e@.len() as int) =~= e@);
            out.push(125u8);
            assert(out@ =~= old(out)@ + json_text(*j));
        },
    }
}

} // verus!
