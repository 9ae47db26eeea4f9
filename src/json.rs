use vstd::prelude::*;

verus! {

/// A JSON value as the document codec reads and writes it.
///
/// A number is kept as `Some(n)` when it is a non-negative integer that fits
/// in `u64`, and as `None` for every other number (negative, fractional or
/// too large): the document schema only ever accepts the former.
#[derive(Debug)]
pub enum Json {
    Null,
    Bool(bool),
    Number(Option<u64>),
    Str(String),
    Array(Vec<Json>),
    Object(Vec<(String, Json)>),
}

/// One step of the path from the root of a document to a failing value.
#[derive(Debug, Clone)]
pub enum PathStep {
    Field(String),
    Index(usize),
}

/// `k` is the key of some entry of `e`.
pub open spec fn has_key(e: Seq<(String, Json)>, k: Seq<char>) -> bool {
    exists|i: int| 0 <= i < e.len() && #[trigger] e[i].0@ == k
}

/// The value stored under `k` (meaningful when `has_key(e, k)` holds).
pub open spec fn get(e: Seq<(String, Json)>, k: Seq<char>) -> Json {
    e[choose|i: int| 0 <= i < e.len() && #[trigger] e[i].0@ == k].1
}

/// No two entries of `e` share a key.
pub open spec fn distinct_keys(e: Seq<(String, Json)>) -> bool {
    forall|i: int, j: int|
        0 <= i < e.len() && 0 <= j < e.len() && i != j ==> #[trigger] e[i].0@ != #[trigger] e[j].0@
}

/// `k` is one of the names in `names`.
pub open spec fn listed(names: Seq<&str>, k: Seq<char>) -> bool {
    exists|i: int| 0 <= i < names.len() && #[trigger] names[i]@ == k
}

/// The entries of `e` have distinct keys, each of them one of `names`.
pub open spec fn shape_ok(e: Seq<(String, Json)>, names: Seq<&str>) -> bool {
    &&& distinct_keys(e)
    &&& forall|i: int| 0 <= i < e.len() ==> listed(names, #[trigger] e[i].0@)
}

pub proof fn lemma_get(e: Seq<(String, Json)>, k: Seq<char>, i: int)
    requires
        distinct_keys(e),
        0 <= i < e.len(),
        e[i].0@ == k,
    ensures
        has_key(e, k),
        get(e, k) == e[i].1,
{
}

/// Whether `a` and `b` hold the same characters.
pub fn text_equals(a: &String, b: &str) -> (r: bool)
    ensures
        r == (a@ == b@),
{
    let owned: String = b.to_owned();
    *a == owned
}

/// The index of the first entry of `e` whose key is `k`.
pub fn find_key(e: &Vec<(String, Json)>, k: &str) -> (r: Option<usize>)
    ensures
        match r {
            Some(i) => i < e@.len() && e@[i as int].0@ == k@ && forall|j: int|
                0 <= j < i ==> #[trigger] e@[j].0@ != k@,
            None => !has_key(e@, k@),
        },
{
    let mut i: usize = 0;
    while i < e.len()
        invariant
            i <= e@.len(),
            forall|j: int| 0 <= j < i ==> #[trigger] e@[j].0@ != k@,
        decreases e@.len() - i,
    {
        if text_equals(&e[i].0, k) {
            return Some(i);
        }
        i = i + 1;
    }
    None
}

/// Whether `k` is one of `names`.
pub fn is_listed(names: &Vec<&str>, k: &String) -> (r: bool)
    ensures
        r == listed(names@, k@),
{
    let mut i: usize = 0;
    while i < names.len()
        invariant
            i <= names@.len(),
            forall|j: int| 0 <= j < i ==> #[trigger] names@[j]@ != k@,
        decreases names@.len() - i,
    {
        if text_equals(k, names[i]) {
            return true;
        }
        i = i + 1;
    }
    false
}

/// Checks that the entries of `e` have distinct keys taken from `names`.
/// On failure it returns the first entry that is unknown or repeated.
pub fn check_shape(e: &Vec<(String, Json)>, names: &Vec<&str>) -> (r: Result<(), usize>)
    ensures
        r is Ok <==> shape_ok(e@, names@),
        r matches Err(i) ==> i < e@.len(),
{
    let mut i: usize = 0;
    while i < e.len()
        invariant
            i <= e@.len(),
            forall|a: int| 0 <= a < i ==> listed(names@, #[trigger] e@[a].0@),
            forall|a: int, b: int|
                0 <= a < i && 0 <= b < i && a != b ==> #[trigger] e@[a].0@ != #[trigger] e@[b].0@,
        decreases e@.len() - i,
    {
        if !is_listed(names, &e[i].0) {
            return Err(i);
        }
        let first = find_key(e, e[i].0.as_str());
        match first {
            Some(f) => {
                if f != i {
                    return Err(i);
                }
            },
            None => {
                return Err(i);
            },
        }
        i = i + 1;
    }
    Ok(())
}

} // verus!
