use vstd::prelude::*;
use crate::document::SchemaRevision;
use crate::schema::{
    any_markup_keys, article_keys, box_keys, image_keys, intro_keys, markup_keys, plugin_keys,
    reference_keys, related_keys, run_keys, source_keys, spoiler_keys,
};
use crate::tags::MarkupKind;

verus! {

// The field names of each wire object, as lists that the decoder checks
// objects against.

pub fn reference_names() -> (r: Vec<&'static str>)
    ensures
        r@ == reference_keys(),
{
    let r = vec!["id", "title"];
    assert(r@ =~= reference_keys());
    r
}

pub fn source_names() -> (r: Vec<&'static str>)
    ensures
        r@ == source_keys(),
{
    let r = vec!["href", "title"];
    assert(r@ =~= source_keys());
    r
}

pub fn related_names() -> (r: Vec<&'static str>)
    ensures
        r@ == related_keys(),
{
    let r = vec!["articles", "courses", "videos"];
    assert(r@ =~= related_keys());
    r
}

pub fn article_names() -> (r: Vec<&'static str>)
    ensures
        r@ == article_keys(),
{
    let r = vec!["introduction", "content", "exercises", "exerciseFolder", "relatedContent", "sources"];
    assert(r@ =~= article_keys());
    r
}

pub fn intro_names() -> (r: Vec<&'static str>)
    ensures
        r@ == intro_keys(),
{
    let r = vec!["explanation", "multimedia", "illustrating", "width"];
    assert(r@ =~= intro_keys());
    r
}

pub fn image_names() -> (r: Vec<&'static str>)
    ensures
        r@ == image_keys(),
{
    let r = vec!["src", "alt", "caption"];
    assert(r@ =~= image_keys());
    r
}

pub fn spoiler_names() -> (r: Vec<&'static str>)
    ensures
        r@ == spoiler_keys(),
{
    let r = vec!["title", "content"];
    assert(r@ =~= spoiler_keys());
    r
}

pub fn box_names() -> (r: Vec<&'static str>)
    ensures
        r@ == box_keys(),
{
    let r = vec!["boxType", "title", "anchorId", "content"];
    assert(r@ =~= box_keys());
    r
}

pub fn plugin_names() -> (r: Vec<&'static str>)
    ensures
        r@ == plugin_keys(),
{
    let r = vec!["plugin", "state"];
    assert(r@ =~= plugin_keys());
    r
}

pub fn any_markup_names() -> (r: Vec<&'static str>)
    ensures
        r@ == any_markup_keys(),
{
    let r = vec!["type", "href", "level", "src", "inline", "children"];
    assert(r@ =~= any_markup_keys());
    r
}

pub fn run_names(rev: SchemaRevision) -> (r: Vec<&'static str>)
    ensures
        r@ == run_keys(rev),
{
    if rev == SchemaRevision::V2 {
        let r = vec!["text", "strong", "em", "code"];
        assert(r@ =~= run_keys(rev));
        r
    } else {
        let r = vec!["text", "strong", "em"];
        assert(r@ =~= run_keys(rev));
        r
    }
}

pub fn markup_names(k: MarkupKind) -> (r: Vec<&'static str>)
    ensures
        r@ == markup_keys(k),
{
    let r = match k {
        MarkupKind::Hyperlink => vec!["type", "href", "children"],
        MarkupKind::Heading => vec!["type", "level", "children"],
        MarkupKind::Math => vec!["type", "src", "inline", "children"],
        _ => vec!["type", "children"],
    };
    assert(r@ =~= markup_keys(k));
    r
}

} // verus!
