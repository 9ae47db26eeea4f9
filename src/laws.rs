use vstd::prelude::*;
use crate::codec::{decode_outcome, decoded_from};
use crate::decode::DecodeError;
use crate::document::{
    DecodeConfig, EdtrArticle, EdtrArticleIntroduction, EdtrArticleReference,
    EdtrArticleRelatedContent, EdtrArticleSource, EdtrBox, EdtrImage, EdtrMarkupText,
    EdtrMultimedia, EdtrPlugin, EdtrSpoiler, EdtrText, SchemaRevision,
};
use crate::equality::{
    same_article, same_box, same_image, same_intro, same_markup, same_multimedia, same_plugin,
    same_plugins, same_reference, same_references, same_related, same_source, same_sources,
    same_spoiler, same_text, same_texts,
};
use crate::json::{get, has_key, listed, Json};
use crate::schema::{
    article_accepts, box_accepts, image_accepts, intro_accepts, markup_accepts,
    multimedia_accepts, plugin_accepts, plugin_fits, plugins_accept, reference_accepts,
    references_accept, related_accepts, source_accepts, sources_accept, spoiler_accepts,
    text_accepts, texts_accept, envelope_unknown, field_of, markup_written, plugin_written,
    plugins_written, run_keys, text_written, texts_written,
};
use crate::document::ErrorKind;
use crate::tags::{kind_of, markup_kind_of, MarkupKind, PluginKind};

verus! {

pub proof fn lemma_references_unique(a: Vec<EdtrArticleReference>, b: Vec<EdtrArticleReference>, j: Json)
    requires
        references_accept(a, j),
        references_accept(b, j),
    ensures
        same_references(a, b),
{
    assert forall|i: int| 0 <= i < a@.len() implies same_reference(#[trigger] a@[i], b@[i]) by {
        assert(reference_accepts(a@[i], j->Array_0@[i]));
        assert(reference_accepts(b@[i], j->Array_0@[i]));
    }
}

pub proof fn lemma_sources_unique(a: Vec<EdtrArticleSource>, b: Vec<EdtrArticleSource>, j: Json)
    requires
        sources_accept(a, j),
        sources_accept(b, j),
    ensures
        same_sources(a, b),
{
    assert forall|i: int| 0 <= i < a@.len() implies same_source(#[trigger] a@[i], b@[i]) by {
        assert(source_accepts(a@[i], j->Array_0@[i]));
        assert(source_accepts(b@[i], j->Array_0@[i]));
    }
}

pub proof fn lemma_related_unique(a: EdtrArticleRelatedContent, b: EdtrArticleRelatedContent, j: Json)
    requires
        related_accepts(a, j),
        related_accepts(b, j),
    ensures
        same_related(a, b),
{
    let e = j->Object_0@;
    lemma_references_unique(a.articles, b.articles, get(e, "articles"@));
    lemma_references_unique(a.courses, b.courses, get(e, "courses"@));
    lemma_references_unique(a.videos, b.videos, get(e, "videos"@));
}

pub proof fn lemma_text_unique(a: EdtrText, b: EdtrText, j: Json, rev: SchemaRevision)
    requires
        text_accepts(a, j, rev),
        text_accepts(b, j, rev),
    ensures
        same_text(a, b),
    decreases a,
{
    let e = j->Object_0@;
    match a {
        EdtrText::NestedText(m) => match b {
            EdtrText::NestedText(n) => lemma_markup_unique(m, n, e, rev),
            _ => {},
        },
        _ => match b {
            EdtrText::NestedText(n) => {
                assert(markup_accepts(n, e, rev));
            },
            _ => {},
        },
    }
}

pub proof fn lemma_texts_unique(a: Vec<EdtrText>, b: Vec<EdtrText>, j: Json, rev: SchemaRevision)
    requires
        texts_accept(a, j, rev),
        texts_accept(b, j, rev),
    ensures
        same_texts(a, b),
    decreases a,
{
    assert forall|i: int| 0 <= i < a@.len() implies same_text(#[trigger] a@[i], b@[i]) by {
        lemma_text_unique(a@[i], b@[i], j->Array_0@[i], rev);
    }
}

pub proof fn lemma_markup_unique(a: EdtrMarkupText, b: EdtrMarkupText, e: Seq<(String, Json)>, rev: SchemaRevision)
    requires
        markup_accepts(a, e, rev),
        markup_accepts(b, e, rev),
    ensures
        same_markup(a, b),
    decreases a,
{
    let c = get(e, "children"@);
    match a {
        EdtrMarkupText::Paragraph { children } => lemma_texts_unique(children, b->Paragraph_children, c, rev),
        EdtrMarkupText::Hyperlink { children, .. } => lemma_texts_unique(children, b->Hyperlink_children, c, rev),
        EdtrMarkupText::UnorderedList { children } => {
            lemma_texts_unique(children, b->UnorderedList_children, c, rev)
        },
        EdtrMarkupText::OrderedList { children } => lemma_texts_unique(children, b->OrderedList_children, c, rev),
        EdtrMarkupText::ListItem { children } => lemma_texts_unique(children, b->ListItem_children, c, rev),
        EdtrMarkupText::ListItemChild { children } => {
            lemma_texts_unique(children, b->ListItemChild_children, c, rev)
        },
        EdtrMarkupText::Heading { children, .. } => lemma_texts_unique(children, b->Heading_children, c, rev),
        EdtrMarkupText::Math { children, .. } => lemma_texts_unique(children, b->Math_children, c, rev),
    }
}

pub proof fn lemma_plugin_unique(a: EdtrPlugin, b: EdtrPlugin, j: Json, rev: SchemaRevision)
    requires
        plugin_accepts(a, j, rev),
        plugin_accepts(b, j, rev),
    ensures
        same_plugin(a, b),
    decreases a,
{
    let s = get(j->Object_0@, "state"@);
    match a {
        EdtrPlugin::Article(x) => lemma_article_unique(x, b->Article_0, s, rev),
        EdtrPlugin::ArticleIntroduction(x) => lemma_intro_unique(x, b->ArticleIntroduction_0, s, rev),
        EdtrPlugin::Text(v) => lemma_texts_unique(v, b->Text_0, s, rev),
        EdtrPlugin::Image(x) => lemma_image_unique(x, b->Image_0, s, rev),
        EdtrPlugin::Rows(v) => lemma_plugins_unique(v, b->Rows_0, s, rev),
        EdtrPlugin::Multimedia(x) => lemma_multimedia_unique(x, b->Multimedia_0, s, rev),
        EdtrPlugin::Spoiler(x) => lemma_spoiler_unique(x, b->Spoiler_0, s, rev),
        EdtrPlugin::Box(x) => lemma_box_unique(x, b->Box_0, s, rev),
        _ => {},
    }
}

pub proof fn lemma_plugins_unique(a: Vec<EdtrPlugin>, b: Vec<EdtrPlugin>, j: Json, rev: SchemaRevision)
    requires
        plugins_accept(a, j, rev),
        plugins_accept(b, j, rev),
    ensures
        same_plugins(a, b),
    decreases a,
{
    assert forall|i: int| 0 <= i < a@.len() implies same_plugin(#[trigger] a@[i], b@[i]) by {
        lemma_plugin_unique(a@[i], b@[i], j->Array_0@[i], rev);
    }
}

pub proof fn lemma_article_unique(a: EdtrArticle, b: EdtrArticle, j: Json, rev: SchemaRevision)
    requires
        article_accepts(a, j, rev),
        article_accepts(b, j, rev),
    ensures
        same_article(a, b),
    decreases a,
{
    let e = j->Object_0@;
    lemma_plugin_unique(*a.introduction, *b.introduction, get(e, "introduction"@), rev);
    lemma_plugin_unique(*a.content, *b.content, get(e, "content"@), rev);
    lemma_plugins_unique(a.exercises, b.exercises, get(e, "exercises"@), rev);
    lemma_related_unique(a.related_content, b.related_content, get(e, "relatedContent"@));
    lemma_sources_unique(a.sources, b.sources, get(e, "sources"@));
}

pub proof fn lemma_intro_unique(a: EdtrArticleIntroduction, b: EdtrArticleIntroduction, j: Json, rev: SchemaRevision)
    requires
        intro_accepts(a, j, rev),
        intro_accepts(b, j, rev),
    ensures
        same_intro(a, b),
    decreases a,
{
    let e = j->Object_0@;
    lemma_plugin_unique(*a.explanation, *b.explanation, get(e, "explanation"@), rev);
    lemma_plugin_unique(*a.multimedia, *b.multimedia, get(e, "multimedia"@), rev);
}

pub proof fn lemma_multimedia_unique(a: EdtrMultimedia, b: EdtrMultimedia, j: Json, rev: SchemaRevision)
    requires
        multimedia_accepts(a, j, rev),
        multimedia_accepts(b, j, rev),
    ensures
        same_multimedia(a, b),
    decreases a,
{
    let e = j->Object_0@;
    lemma_plugin_unique(*a.explanation, *b.explanation, get(e, "explanation"@), rev);
    lemma_plugin_unique(*a.multimedia, *b.multimedia, get(e, "multimedia"@), rev);
}

pub proof fn lemma_image_unique(a: EdtrImage, b: EdtrImage, j: Json, rev: SchemaRevision)
    requires
        image_accepts(a, j, rev),
        image_accepts(b, j, rev),
    ensures
        same_image(a, b),
    decreases a,
{
    lemma_plugin_unique(*a.caption, *b.caption, get(j->Object_0@, "caption"@), rev);
}

pub proof fn lemma_spoiler_unique(a: EdtrSpoiler, b: EdtrSpoiler, j: Json, rev: SchemaRevision)
    requires
        spoiler_accepts(a, j, rev),
        spoiler_accepts(b, j, rev),
    ensures
        same_spoiler(a, b),
    decreases a,
{
    lemma_plugin_unique(*a.content, *b.content, get(j->Object_0@, "content"@), rev);
}

pub proof fn lemma_box_unique(a: EdtrBox, b: EdtrBox, j: Json, rev: SchemaRevision)
    requires
        box_accepts(a, j, rev),
        box_accepts(b, j, rev),
    ensures
        same_box(a, b),
    decreases a,
{
    let e = j->Object_0@;
    lemma_plugin_unique(*a.title, *b.title, get(e, "title"@), rev);
    lemma_plugin_unique(*a.content, *b.content, get(e, "content"@), rev);
}

/// Round trip: decoding the JSON value that `encode_json` produced for a tree
/// succeeds and gives back a tree structurally equal to it, whenever the
/// tree's nesting fits the decoder's depth bound.
pub proof fn round_trip(t: EdtrPlugin, j: Json, config: DecodeConfig, r: Result<EdtrPlugin, DecodeError>)
    requires
        plugin_accepts(t, j, SchemaRevision::V2),
        config.revision == SchemaRevision::V2,
        plugin_fits(t, config.max_depth as nat),
        decoded_from(r, j, config),
    ensures
        r matches Ok(u) && same_plugin(u, t),
{
    if let Ok(u) = r {
        lemma_plugin_unique(u, t, j, SchemaRevision::V2);
    }
}

/// Revision gating: a document whose root is a `box` decodes under the
/// second revision, and the first revision rejects it as naming an unknown
/// plugin.
pub proof fn revision_gating(
    t: EdtrPlugin,
    j: Json,
    depth: usize,
    first: Result<EdtrPlugin, DecodeError>,
    second: Result<EdtrPlugin, DecodeError>,
)
    requires
        plugin_accepts(t, j, SchemaRevision::V2),
        kind_of(t) == PluginKind::Box,
        plugin_fits(t, depth as nat),
        decode_outcome(first, j, DecodeConfig { revision: SchemaRevision::V1, max_depth: depth }),
        decode_outcome(second, j, DecodeConfig { revision: SchemaRevision::V2, max_depth: depth }),
    ensures
        first matches Err(x) && x.kind == ErrorKind::UnknownDiscriminant,
        second matches Ok(u) && same_plugin(u, t),
{
    assert(envelope_unknown(j, SchemaRevision::V1));
    round_trip(t, j, DecodeConfig { revision: SchemaRevision::V2, max_depth: depth }, second);
}


// Trees that use nothing of the second revision: no `box`, no
// `ordered-list`, no `code` flag.

pub open spec fn text_in_v1(f: EdtrText) -> bool
    decreases f,
{
    match f {
        EdtrText::SimpleText { code, .. } => !code,
        EdtrText::NestedText(m) => markup_in_v1(m),
        EdtrText::Empty {  } => true,
    }
}

pub open spec fn texts_in_v1(v: Vec<EdtrText>) -> bool
    decreases v,
{
    forall|i: int| 0 <= i < v@.len() ==> text_in_v1(#[trigger] v@[i])
}

pub open spec fn markup_in_v1(m: EdtrMarkupText) -> bool
    decreases m,
{
    markup_kind_of(m) != MarkupKind::OrderedList && match m {
        EdtrMarkupText::Paragraph { children } => texts_in_v1(children),
        EdtrMarkupText::Hyperlink { children, .. } => texts_in_v1(children),
        EdtrMarkupText::UnorderedList { children } => texts_in_v1(children),
        EdtrMarkupText::OrderedList { children } => texts_in_v1(children),
        EdtrMarkupText::ListItem { children } => texts_in_v1(children),
        EdtrMarkupText::ListItemChild { children } => texts_in_v1(children),
        EdtrMarkupText::Heading { children, .. } => texts_in_v1(children),
        EdtrMarkupText::Math { children, .. } => texts_in_v1(children),
    }
}

pub open spec fn plugin_in_v1(t: EdtrPlugin) -> bool
    decreases t,
{
    kind_of(t) != PluginKind::Box && match t {
        EdtrPlugin::Article(a) => {
            plugin_in_v1(*a.introduction) && plugin_in_v1(*a.content) && plugins_in_v1(a.exercises)
        },
        EdtrPlugin::ArticleIntroduction(x) => plugin_in_v1(*x.explanation) && plugin_in_v1(*x.multimedia),
        EdtrPlugin::Text(v) => texts_in_v1(v),
        EdtrPlugin::Image(x) => plugin_in_v1(*x.caption),
        EdtrPlugin::Rows(v) => plugins_in_v1(v),
        EdtrPlugin::Multimedia(x) => plugin_in_v1(*x.explanation) && plugin_in_v1(*x.multimedia),
        EdtrPlugin::Spoiler(x) => plugin_in_v1(*x.content),
        _ => true,
    }
}

pub open spec fn plugins_in_v1(v: Vec<EdtrPlugin>) -> bool
    decreases v,
{
    forall|i: int| 0 <= i < v@.len() ==> plugin_in_v1(#[trigger] v@[i])
}

pub proof fn lemma_text_v1(f: EdtrText, j: Json)
    requires
        text_accepts(f, j, SchemaRevision::V2),
        text_written(f, j),
        text_in_v1(f),
    ensures
        text_accepts(f, j, SchemaRevision::V1),
    decreases f,
{
    let e = j->Object_0@;
    match f {
        EdtrText::NestedText(m) => lemma_markup_v1(m, e),
        EdtrText::SimpleText { .. } => {
            assert forall|i: int| 0 <= i < e.len() implies listed(run_keys(SchemaRevision::V1), #[trigger] e[i].0@) by {
                assert(listed(run_keys(SchemaRevision::V2), e[i].0@));
                let k = choose|k: int| 0 <= k < 4 && #[trigger] run_keys(SchemaRevision::V2)[k]@ == e[i].0@;
                if k == 3 {
                    assert(has_key(e, "code"@));
                } else {
                    assert(run_keys(SchemaRevision::V1)[k] == run_keys(SchemaRevision::V2)[k]);
                }
            }
        },
        _ => {},
    }
}

pub proof fn lemma_texts_v1(v: Vec<EdtrText>, j: Json)
    requires
        texts_accept(v, j, SchemaRevision::V2),
        texts_written(v, j),
        texts_in_v1(v),
    ensures
        texts_accept(v, j, SchemaRevision::V1),
    decreases v,
{
    assert forall|i: int| 0 <= i < v@.len() implies text_accepts(#[trigger] v@[i], j->Array_0@[i], SchemaRevision::V1) by {
        lemma_text_v1(v@[i], j->Array_0@[i]);
    }
}

pub proof fn lemma_markup_v1(m: EdtrMarkupText, e: Seq<(String, Json)>)
    requires
        markup_accepts(m, e, SchemaRevision::V2),
        markup_written(m, get(e, "children"@)),
        markup_in_v1(m),
    ensures
        markup_accepts(m, e, SchemaRevision::V1),
    decreases m,
{
    match m {
        EdtrMarkupText::Paragraph { children } => lemma_texts_v1(children, get(e, "children"@)),
        EdtrMarkupText::Hyperlink { children, .. } => lemma_texts_v1(children, get(e, "children"@)),
        EdtrMarkupText::UnorderedList { children } => lemma_texts_v1(children, get(e, "children"@)),
        EdtrMarkupText::OrderedList { children } => lemma_texts_v1(children, get(e, "children"@)),
        EdtrMarkupText::ListItem { children } => lemma_texts_v1(children, get(e, "children"@)),
        EdtrMarkupText::ListItemChild { children } => lemma_texts_v1(children, get(e, "children"@)),
        EdtrMarkupText::Heading { children, .. } => lemma_texts_v1(children, get(e, "children"@)),
        EdtrMarkupText::Math { children, .. } => lemma_texts_v1(children, get(e, "children"@)),
    }
}

pub proof fn lemma_plugin_v1(t: EdtrPlugin, j: Json)
    requires
        plugin_accepts(t, j, SchemaRevision::V2),
        plugin_written(t, j),
        plugin_in_v1(t),
    ensures
        plugin_accepts(t, j, SchemaRevision::V1),
    decreases t,
{
    let s = field_of(j, "state"@);
    match t {
        EdtrPlugin::Article(a) => {
            lemma_plugin_v1(*a.introduction, field_of(s, "introduction"@));
            lemma_plugin_v1(*a.content, field_of(s, "content"@));
            lemma_plugins_v1(a.exercises, field_of(s, "exercises"@));
        },
        EdtrPlugin::ArticleIntroduction(x) => {
            lemma_plugin_v1(*x.explanation, field_of(s, "explanation"@));
            lemma_plugin_v1(*x.multimedia, field_of(s, "multimedia"@));
        },
        EdtrPlugin::Text(v) => lemma_texts_v1(v, s),
        EdtrPlugin::Image(x) => lemma_plugin_v1(*x.caption, field_of(s, "caption"@)),
        EdtrPlugin::Rows(v) => lemma_plugins_v1(v, s),
        EdtrPlugin::Multimedia(x) => {
            lemma_plugin_v1(*x.explanation, field_of(s, "explanation"@));
            lemma_plugin_v1(*x.multimedia, field_of(s, "multimedia"@));
        },
        EdtrPlugin::Spoiler(x) => lemma_plugin_v1(*x.content, field_of(s, "content"@)),
        _ => {},
    }
}

pub proof fn lemma_plugins_v1(v: Vec<EdtrPlugin>, j: Json)
    requires
        plugins_accept(v, j, SchemaRevision::V2),
        plugins_written(v, j),
        plugins_in_v1(v),
    ensures
        plugins_accept(v, j, SchemaRevision::V1),
    decreases v,
{
    assert forall|i: int| 0 <= i < v@.len() implies plugin_accepts(#[trigger] v@[i], j->Array_0@[i], SchemaRevision::V1) by {
        lemma_plugin_v1(v@[i], j->Array_0@[i]);
    }
}

/// Round trip under the first revision: a tree that uses nothing of the
/// second revision, encoded by `encode_json`, decodes under the first
/// revision to a tree structurally equal to it, whenever its nesting fits.
pub proof fn round_trip_v1(t: EdtrPlugin, j: Json, config: DecodeConfig, r: Result<EdtrPlugin, DecodeError>)
    requires
        plugin_accepts(t, j, SchemaRevision::V2),
        plugin_written(t, j),
        plugin_in_v1(t),
        config.revision == SchemaRevision::V1,
        plugin_fits(t, config.max_depth as nat),
        decoded_from(r, j, config),
    ensures
        r matches Ok(u) && same_plugin(u, t),
{
    lemma_plugin_v1(t, j);
    if let Ok(u) = r {
        lemma_plugin_unique(u, t, j, SchemaRevision::V1);
    }
}

} // verus!
