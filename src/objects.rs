use vstd::prelude::*;
use crate::json::{distinct_keys, get, has_key, lemma_get, listed, shape_ok, Json};

verus! {

/// No name occurs twice in `names`.
pub open spec fn names_distinct(names: Seq<&str>) -> bool {
    forall|i: int, j: int|
        0 <= i < names.len() && 0 <= j < names.len() && i != j ==> #[trigger] names[i]@ != #[trigger] names[j]@
}

/// Pairs each name with its value, in order.
pub fn make_object(names: Vec<&'static str>, values: Vec<Json>) -> (r: Vec<(String, Json)>)
    requires
        names@.len() == values@.len(),
        names_distinct(names@),
    ensures
        r@.len() == names@.len(),
        distinct_keys(r@),
        shape_ok(r@, names@),
        forall|i: int|
            0 <= i < names@.len() ==> has_key(r@, #[trigger] names@[i]@) && get(r@, names@[i]@) == values@[i],
{
    let ghost vals = values@;
    let mut values = values;
    let mut out: Vec<(String, Json)> = Vec::new();
    let mut n: usize = names.len();
    while n > 0
        invariant
            n <= names@.len(),
            names@.len() == vals.len(),
            values@ == vals.subrange(0, n as int),
            out@.len() == names@.len() - n,
            forall|k: int|
                0 <= k < out@.len() ==> (#[trigger] out@[k]).0@ == names@[n + k]@ && out@[k].1 == vals[n + k],
        decreases n,
    {
        let v = match values.pop() {
            Some(v) => v,
            None => {
                return out;
            },
        };
        n = n - 1;
        let ghost before = out@;
        out.insert(0, (names[n].to_owned(), v));
        assert forall|k: int| 0 <= k < out@.len() implies (#[trigger] out@[k]).0@ == names@[n + k]@ && out@[k].1
            == vals[n + k] by {
            if k > 0 {
                assert(out@[k] == before[k - 1]);
            }
        }
        assert(values@ =~= vals.subrange(0, n as int));
    }
    assert forall|i: int, j: int| 0 <= i < out@.len() && 0 <= j < out@.len() && i != j implies #[trigger] out@[i].0@
        != #[trigger] out@[j].0@ by {
        assert(out@[i].0@ == names@[i]@);
        assert(out@[j].0@ == names@[j]@);
    }
    assert forall|i: int| 0 <= i < out@.len() implies listed(names@, #[trigger] out@[i].0@) by {
        assert(out@[i].0@ == names@[i]@);
    }
    assert forall|i: int| 0 <= i < names@.len() implies has_key(out@, #[trigger] names@[i]@) && get(out@, names@[i]@)
        == vals[i] by {
        assert(out@[i].0@ == names@[i]@);
        lemma_get(out@, names@[i]@, i);
    }
    out
}

pub proof fn lemma_plugin_names_distinct()
    ensures
        names_distinct(seq!["plugin", "state"]),
{
    reveal_strlit("plugin");
    reveal_strlit("state");
    assert("state"@.len() != "plugin"@.len());
    let s = seq!["plugin", "state"];
    assert forall|i: int, j: int| 0 <= i < s.len() && 0 <= j < s.len() && i != j implies #[trigger] s[i]@ != #[trigger] s[j]@ by {
    }
}

pub proof fn lemma_article_names_distinct()
    ensures
        names_distinct(seq!["introduction", "content", "exercises", "exerciseFolder", "relatedContent", "sources"]),
{
    reveal_strlit("introduction");
    reveal_strlit("content");
    reveal_strlit("exercises");
    reveal_strlit("exerciseFolder");
    reveal_strlit("relatedContent");
    reveal_strlit("sources");
    assert("content"@.len() != "introduction"@.len());
    assert("exercises"@.len() != "introduction"@.len());
    assert("exercises"@.len() != "content"@.len());
    assert("exerciseFolder"@.len() != "introduction"@.len());
    assert("exerciseFolder"@.len() != "content"@.len());
    assert("exerciseFolder"@.len() != "exercises"@.len());
    assert("relatedContent"@.len() != "introduction"@.len());
    assert("relatedContent"@.len() != "content"@.len());
    assert("relatedContent"@.len() != "exercises"@.len());
    assert("relatedContent"@[0] != "exerciseFolder"@[0]);
    assert("sources"@.len() != "introduction"@.len());
    assert("sources"@[0] != "content"@[0]);
    assert("sources"@.len() != "exercises"@.len());
    assert("sources"@.len() != "exerciseFolder"@.len());
    assert("sources"@.len() != "relatedContent"@.len());
    let s = seq!["introduction", "content", "exercises", "exerciseFolder", "relatedContent", "sources"];
    assert forall|i: int, j: int| 0 <= i < s.len() && 0 <= j < s.len() && i != j implies #[trigger] s[i]@ != #[trigger] s[j]@ by {
    }
}

pub proof fn lemma_intro_names_distinct()
    ensures
        names_distinct(seq!["explanation", "multimedia", "illustrating", "width"]),
{
    reveal_strlit("explanation");
    reveal_strlit("multimedia");
    reveal_strlit("illustrating");
    reveal_strlit("width");
    assert("multimedia"@.len() != "explanation"@.len());
    assert("illustrating"@.len() != "explanation"@.len());
    assert("illustrating"@.len() != "multimedia"@.len());
    assert("width"@.len() != "explanation"@.len());
    assert("width"@.len() != "multimedia"@.len());
    assert("width"@.len() != "illustrating"@.len());
    let s = seq!["explanation", "multimedia", "illustrating", "width"];
    assert forall|i: int, j: int| 0 <= i < s.len() && 0 <= j < s.len() && i != j implies #[trigger] s[i]@ != #[trigger] s[j]@ by {
    }
}

pub proof fn lemma_image_names_distinct()
    ensures
        names_distinct(seq!["src", "alt", "caption"]),
{
    reveal_strlit("src");
    reveal_strlit("alt");
    reveal_strlit("caption");
    assert("alt"@[0] != "src"@[0]);
    assert("caption"@.len() != "src"@.len());
    assert("caption"@.len() != "alt"@.len());
    let s = seq!["src", "alt", "caption"];
    assert forall|i: int, j: int| 0 <= i < s.len() && 0 <= j < s.len() && i != j implies #[trigger] s[i]@ != #[trigger] s[j]@ by {
    }
}

pub proof fn lemma_spoiler_names_distinct()
    ensures
        names_distinct(seq!["title", "content"]),
{
    reveal_strlit("title");
    reveal_strlit("content");
    assert("content"@.len() != "title"@.len());
    let s = seq!["title", "content"];
    assert forall|i: int, j: int| 0 <= i < s.len() && 0 <= j < s.len() && i != j implies #[trigger] s[i]@ != #[trigger] s[j]@ by {
    }
}

pub proof fn lemma_box_names_distinct()
    ensures
        names_distinct(seq!["boxType", "title", "anchorId", "content"]),
{
    reveal_strlit("boxType");
    reveal_strlit("title");
    reveal_strlit("anchorId");
    reveal_strlit("content");
    assert("title"@.len() != "boxType"@.len());
    assert("anchorId"@.len() != "boxType"@.len());
    assert("anchorId"@.len() != "title"@.len());
    assert("content"@[0] != "boxType"@[0]);
    assert("content"@.len() != "title"@.len());
    assert("content"@.len() != "anchorId"@.len());
    let s = seq!["boxType", "title", "anchorId", "content"];
    assert forall|i: int, j: int| 0 <= i < s.len() && 0 <= j < s.len() && i != j implies #[trigger] s[i]@ != #[trigger] s[j]@ by {
    }
}

pub proof fn lemma_reference_names_distinct()
    ensures
        names_distinct(seq!["id", "title"]),
{
    reveal_strlit("id");
    reveal_strlit("title");
    assert("title"@.len() != "id"@.len());
    let s = seq!["id", "title"];
    assert forall|i: int, j: int| 0 <= i < s.len() && 0 <= j < s.len() && i != j implies #[trigger] s[i]@ != #[trigger] s[j]@ by {
    }
}

pub proof fn lemma_source_names_distinct()
    ensures
        names_distinct(seq!["href", "title"]),
{
    reveal_strlit("href");
    reveal_strlit("title");
    assert("title"@.len() != "href"@.len());
    let s = seq!["href", "title"];
    assert forall|i: int, j: int| 0 <= i < s.len() && 0 <= j < s.len() && i != j implies #[trigger] s[i]@ != #[trigger] s[j]@ by {
    }
}

pub proof fn lemma_related_names_distinct()
    ensures
        names_distinct(seq!["articles", "courses", "videos"]),
{
    reveal_strlit("articles");
    reveal_strlit("courses");
    reveal_strlit("videos");
    assert("courses"@.len() != "articles"@.len());
    assert("videos"@.len() != "articles"@.len());
    assert("videos"@.len() != "courses"@.len());
    let s = seq!["articles", "courses", "videos"];
    assert forall|i: int, j: int| 0 <= i < s.len() && 0 <= j < s.len() && i != j implies #[trigger] s[i]@ != #[trigger] s[j]@ by {
    }
}

pub proof fn lemma_link_names_distinct()
    ensures
        names_distinct(seq!["type", "href", "children"]),
{
    reveal_strlit("type");
    reveal_strlit("href");
    reveal_strlit("children");
    assert("href"@[0] != "type"@[0]);
    assert("children"@.len() != "type"@.len());
    assert("children"@.len() != "href"@.len());
    let s = seq!["type", "href", "children"];
    assert forall|i: int, j: int| 0 <= i < s.len() && 0 <= j < s.len() && i != j implies #[trigger] s[i]@ != #[trigger] s[j]@ by {
    }
}

pub proof fn lemma_heading_names_distinct()
    ensures
        names_distinct(seq!["type", "level", "children"]),
{
    reveal_strlit("type");
    reveal_strlit("level");
    reveal_strlit("children");
    assert("level"@.len() != "type"@.len());
    assert("children"@.len() != "type"@.len());
    assert("children"@.len() != "level"@.len());
    let s = seq!["type", "level", "children"];
    assert forall|i: int, j: int| 0 <= i < s.len() && 0 <= j < s.len() && i != j implies #[trigger] s[i]@ != #[trigger] s[j]@ by {
    }
}

pub proof fn lemma_math_names_distinct()
    ensures
        names_distinct(seq!["type", "src", "inline", "children"]),
{
    reveal_strlit("type");
    reveal_strlit("src");
    reveal_strlit("inline");
    reveal_strlit("children");
    assert("src"@.len() != "type"@.len());
    assert("inline"@.len() != "type"@.len());
    assert("inline"@.len() != "src"@.len());
    assert("children"@.len() != "type"@.len());
    assert("children"@.len() != "src"@.len());
    assert("children"@.len() != "inline"@.len());
    let s = seq!["type", "src", "inline", "children"];
    assert forall|i: int, j: int| 0 <= i < s.len() && 0 <= j < s.len() && i != j implies #[trigger] s[i]@ != #[trigger] s[j]@ by {
    }
}

pub proof fn lemma_para_names_distinct()
    ensures
        names_distinct(seq!["type", "children"]),
{
    reveal_strlit("type");
    reveal_strlit("children");
    assert("children"@.len() != "type"@.len());
    let s = seq!["type", "children"];
    assert forall|i: int, j: int| 0 <= i < s.len() && 0 <= j < s.len() && i != j implies #[trigger] s[i]@ != #[trigger] s[j]@ by {
    }
}

} // verus!
