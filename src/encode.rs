use vstd::prelude::*;
use crate::document::{
    EdtrArticle, EdtrArticleIntroduction, EdtrArticleReference, EdtrArticleRelatedContent,
    EdtrArticleSource, EdtrBox, EdtrImage, EdtrMarkupText, EdtrMultimedia, EdtrPlugin,
    EdtrSpoiler, EdtrText, SchemaRevision,
};
use crate::json::{get, has_key, listed, Json};
use crate::keys::{
    article_names, box_names, image_names, intro_names, markup_names, plugin_names,
    reference_names, related_names, source_names, spoiler_names,
};
use crate::objects::{
    lemma_article_names_distinct, lemma_box_names_distinct, lemma_heading_names_distinct,
    lemma_image_names_distinct, lemma_intro_names_distinct, lemma_link_names_distinct,
    lemma_math_names_distinct, lemma_para_names_distinct, lemma_plugin_names_distinct,
    lemma_reference_names_distinct, lemma_related_names_distinct,
    lemma_source_names_distinct, lemma_spoiler_names_distinct, make_object, names_distinct,
};
use crate::schema::{
    field_of, markup_written, plugin_written, plugins_written, text_written, texts_written,
    article_accepts, box_accepts, image_accepts, intro_accepts, markup_accepts,
    multimedia_accepts, plugin_accepts, plugins_accept, reference_accepts, references_accept,
    related_accepts, source_accepts, sources_accept, spoiler_accepts, text_accepts, texts_accept,
};
use crate::tags::{
    box_type_wire_name, kind_of, lemma_box_type_name_inverts, lemma_markup_name_inverts,
    lemma_plugin_name_inverts, markup_kind_of, markup_wire_name, plugin_wire_name, MarkupKind,
    PluginKind,
};

verus! {

pub fn plugin_kind(t: &EdtrPlugin) -> (k: PluginKind)
    ensures
        k == kind_of(*t),
{
    match t {
        EdtrPlugin::Article(_) => PluginKind::Article,
        EdtrPlugin::ArticleIntroduction(_) => PluginKind::ArticleIntroduction,
        EdtrPlugin::Text(_) => PluginKind::Text,
        EdtrPlugin::Image(_) => PluginKind::Image,
        EdtrPlugin::Rows(_) => PluginKind::Rows,
        EdtrPlugin::Table(_) => PluginKind::Table,
        EdtrPlugin::Multimedia(_) => PluginKind::Multimedia,
        EdtrPlugin::Spoiler(_) => PluginKind::Spoiler,
        EdtrPlugin::Injection(_) => PluginKind::Injection,
        EdtrPlugin::Box(_) => PluginKind::Box,
    }
}

pub fn markup_kind(m: &EdtrMarkupText) -> (k: MarkupKind)
    ensures
        k == markup_kind_of(*m),
{
    match m {
        EdtrMarkupText::Paragraph { .. } => MarkupKind::Paragraph,
        EdtrMarkupText::Hyperlink { .. } => MarkupKind::Hyperlink,
        EdtrMarkupText::UnorderedList { .. } => MarkupKind::UnorderedList,
        EdtrMarkupText::OrderedList { .. } => MarkupKind::OrderedList,
        EdtrMarkupText::ListItem { .. } => MarkupKind::ListItem,
        EdtrMarkupText::ListItemChild { .. } => MarkupKind::ListItemChild,
        EdtrMarkupText::Heading { .. } => MarkupKind::Heading,
        EdtrMarkupText::Math { .. } => MarkupKind::Math,
    }
}

pub fn encode_reference(r: &EdtrArticleReference) -> (j: Json)
    ensures
        reference_accepts(*r, j),
{
    let names = reference_names();
    let vals = vec![Json::Str(r.id.clone()), Json::Str(r.title.clone())];
    proof {
        lemma_reference_names_distinct();
    }
    let e = make_object(names, vals);
    proof {
        assert(names@[0]@ == "id"@);
        assert(names@[1]@ == "title"@);
    }
    Json::Object(e)
}

pub fn encode_source(s: &EdtrArticleSource) -> (j: Json)
    ensures
        source_accepts(*s, j),
{
    let names = source_names();
    let vals = vec![Json::Str(s.href.clone()), Json::Str(s.title.clone())];
    proof {
        lemma_source_names_distinct();
    }
    let e = make_object(names, vals);
    proof {
        assert(names@[0]@ == "href"@);
        assert(names@[1]@ == "title"@);
    }
    Json::Object(e)
}

pub fn encode_references(v: &Vec<EdtrArticleReference>) -> (j: Json)
    ensures
        references_accept(*v, j),
{
    let mut out: Vec<Json> = Vec::new();
    let mut i: usize = 0;
    while i < v.len()
        invariant
            i <= v@.len(),
            out@.len() == i,
            forall|k: int| 0 <= k < i ==> reference_accepts(#[trigger] v@[k], out@[k]),
        decreases v@.len() - i,
    {
        out.push(encode_reference(&v[i]));
        i = i + 1;
    }
    Json::Array(out)
}

pub fn encode_sources(v: &Vec<EdtrArticleSource>) -> (j: Json)
    ensures
        sources_accept(*v, j),
{
    let mut out: Vec<Json> = Vec::new();
    let mut i: usize = 0;
    while i < v.len()
        invariant
            i <= v@.len(),
            out@.len() == i,
            forall|k: int| 0 <= k < i ==> source_accepts(#[trigger] v@[k], out@[k]),
        decreases v@.len() - i,
    {
        out.push(encode_source(&v[i]));
        i = i + 1;
    }
    Json::Array(out)
}

pub fn encode_related(r: &EdtrArticleRelatedContent) -> (j: Json)
    ensures
        related_accepts(*r, j),
{
    let names = related_names();
    let vals = vec![encode_references(&r.articles), encode_references(&r.courses), encode_references(&r.videos)];
    proof {
        lemma_related_names_distinct();
    }
    let e = make_object(names, vals);
    proof {
        assert(names@[0]@ == "articles"@);
        assert(names@[1]@ == "courses"@);
        assert(names@[2]@ == "videos"@);
    }
    Json::Object(e)
}

/// Encodes a text fragment. A plain run carries only the flags that are set.
pub fn encode_text(f: &EdtrText) -> (j: Json)
    ensures
        text_written(*f, j),
        text_accepts(*f, j, SchemaRevision::V2),
        *f matches EdtrText::SimpleText { strong, em, code, .. } ==> {
            &&& j is Object
            &&& j->Object_0@.len() == 1 + (if strong { 1int } else { 0 }) + (if em { 1int } else { 0 }) + (
            if code {
                1int
            } else {
                0
            })
            &&& has_key(j->Object_0@, "strong"@) == strong
            &&& has_key(j->Object_0@, "em"@) == em
            &&& has_key(j->Object_0@, "code"@) == code
        },
    decreases f,
{
    match f {
        EdtrText::SimpleText { text, strong, em, code } => {
            proof {
                lemma_run_literals();
            }
            if !*strong && !*em && !*code {
                let names: Vec<&'static str> = vec!["text"];
                let vals = vec![Json::Str(text.clone())];
                proof {
                    assert(names_distinct(names@));
                }
                let e = make_object(names, vals);
                proof {
                    assert(names@[0]@ == "text"@);
                    assert forall|i: int| 0 <= i < e@.len() implies e@[i].0@ != "type"@ by {
                        assert(listed(names@, e@[i].0@));
                    }
                    assert forall|i: int| 0 <= i < e@.len() implies e@[i].0@ != "strong"@ by {
                        assert(listed(names@, e@[i].0@));
                    }
                    assert forall|i: int| 0 <= i < e@.len() implies e@[i].0@ != "em"@ by {
                        assert(listed(names@, e@[i].0@));
                    }
                    assert forall|i: int| 0 <= i < e@.len() implies e@[i].0@ != "code"@ by {
                        assert(listed(names@, e@[i].0@));
                    }
                }
                Json::Object(e)
            } else if !*strong && !*em && *code {
                let names: Vec<&'static str> = vec!["text", "code"];
                let vals = vec![Json::Str(text.clone()), Json::Bool(true)];
                proof {
                    assert(names_distinct(names@));
                }
                let e = make_object(names, vals);
                proof {
                    assert(names@[0]@ == "text"@);
                    assert(names@[1]@ == "code"@);
                    assert forall|i: int| 0 <= i < e@.len() implies e@[i].0@ != "type"@ by {
                        assert(listed(names@, e@[i].0@));
                    }
                    assert forall|i: int| 0 <= i < e@.len() implies e@[i].0@ != "strong"@ by {
                        assert(listed(names@, e@[i].0@));
                    }
                    assert forall|i: int| 0 <= i < e@.len() implies e@[i].0@ != "em"@ by {
                        assert(listed(names@, e@[i].0@));
                    }
                }
                Json::Object(e)
            } else if !*strong && *em && !*code {
                let names: Vec<&'static str> = vec!["text", "em"];
                let vals = vec![Json::Str(text.clone()), Json::Bool(true)];
                proof {
                    assert(names_distinct(names@));
                }
                let e = make_object(names, vals);
                proof {
                    assert(names@[0]@ == "text"@);
                    assert(names@[1]@ == "em"@);
                    assert forall|i: int| 0 <= i < e@.len() implies e@[i].0@ != "type"@ by {
                        assert(listed(names@, e@[i].0@));
                    }
                    assert forall|i: int| 0 <= i < e@.len() implies e@[i].0@ != "strong"@ by {
                        assert(listed(names@, e@[i].0@));
                    }
                    assert forall|i: int| 0 <= i < e@.len() implies e@[i].0@ != "code"@ by {
                        assert(listed(names@, e@[i].0@));
                    }
                }
                Json::Object(e)
            } else if !*strong && *em && *code {
                let names: Vec<&'static str> = vec!["text", "em", "code"];
                let vals = vec![Json::Str(text.clone()), Json::Bool(true), Json::Bool(true)];
                proof {
                    assert(names_distinct(names@));
                }
                let e = make_object(names, vals);
                proof {
                    assert(names@[0]@ == "text"@);
                    assert(names@[1]@ == "em"@);
                    assert(names@[2]@ == "code"@);
                    assert forall|i: int| 0 <= i < e@.len() implies e@[i].0@ != "type"@ by {
                        assert(listed(names@, e@[i].0@));
                    }
                    assert forall|i: int| 0 <= i < e@.len() implies e@[i].0@ != "strong"@ by {
                        assert(listed(names@, e@[i].0@));
                    }
                }
                Json::Object(e)
            } else if *strong && !*em && !*code {
                let names: Vec<&'static str> = vec!["text", "strong"];
                let vals = vec![Json::Str(text.clone()), Json::Bool(true)];
                proof {
                    assert(names_distinct(names@));
                }
                let e = make_object(names, vals);
                proof {
                    assert(names@[0]@ == "text"@);
                    assert(names@[1]@ == "strong"@);
                    assert forall|i: int| 0 <= i < e@.len() implies e@[i].0@ != "type"@ by {
                        assert(listed(names@, e@[i].0@));
                    }
                    assert forall|i: int| 0 <= i < e@.len() implies e@[i].0@ != "em"@ by {
                        assert(listed(names@, e@[i].0@));
                    }
                    assert forall|i: int| 0 <= i < e@.len() implies e@[i].0@ != "code"@ by {
                        assert(listed(names@, e@[i].0@));
                    }
                }
                Json::Object(e)
            } else if *strong && !*em && *code {
                let names: Vec<&'static str> = vec!["text", "strong", "code"];
                let vals = vec![Json::Str(text.clone()), Json::Bool(true), Json::Bool(true)];
                proof {
                    assert(names_distinct(names@));
                }
                let e = make_object(names, vals);
                proof {
                    assert(names@[0]@ == "text"@);
                    assert(names@[1]@ == "strong"@);
                    assert(names@[2]@ == "code"@);
                    assert forall|i: int| 0 <= i < e@.len() implies e@[i].0@ != "type"@ by {
                        assert(listed(names@, e@[i].0@));
                    }
                    assert forall|i: int| 0 <= i < e@.len() implies e@[i].0@ != "em"@ by {
                        assert(listed(names@, e@[i].0@));
                    }
                }
                Json::Object(e)
            } else if *strong && *em && !*code {
                let names: Vec<&'static str> = vec!["text", "strong", "em"];
                let vals = vec![Json::Str(text.clone()), Json::Bool(true), Json::Bool(true)];
                proof {
                    assert(names_distinct(names@));
                }
                let e = make_object(names, vals);
                proof {
                    assert(names@[0]@ == "text"@);
                    assert(names@[1]@ == "strong"@);
                    assert(names@[2]@ == "em"@);
                    assert forall|i: int| 0 <= i < e@.len() implies e@[i].0@ != "type"@ by {
                        assert(listed(names@, e@[i].0@));
                    }
                    assert forall|i: int| 0 <= i < e@.len() implies e@[i].0@ != "code"@ by {
                        assert(listed(names@, e@[i].0@));
                    }
                }
                Json::Object(e)
            } else {
                let names: Vec<&'static str> = vec!["text", "strong", "em", "code"];
                let vals = vec![Json::Str(text.clone()), Json::Bool(true), Json::Bool(true), Json::Bool(true)];
                proof {
                    assert(names_distinct(names@));
                }
                let e = make_object(names, vals);
                proof {
                    assert(names@[0]@ == "text"@);
                    assert(names@[1]@ == "strong"@);
                    assert(names@[2]@ == "em"@);
                    assert(names@[3]@ == "code"@);
                    assert forall|i: int| 0 <= i < e@.len() implies e@[i].0@ != "type"@ by {
                        assert(listed(names@, e@[i].0@));
                    }
                }
                Json::Object(e)
            }
        },
        EdtrText::NestedText(m) => Json::Object(encode_markup(m)),
        EdtrText::Empty {  } => Json::Object(Vec::new()),
    }
}

pub fn encode_texts(v: &Vec<EdtrText>) -> (j: Json)
    ensures
        texts_written(*v, j),
        texts_accept(*v, j, SchemaRevision::V2),
    decreases v,
{
    let mut out: Vec<Json> = Vec::new();
    let mut i: usize = 0;
    while i < v.len()
        invariant
            i <= v@.len(),
            out@.len() == i,
            forall|k: int| 0 <= k < i ==> text_accepts(#[trigger] v@[k], out@[k], SchemaRevision::V2) && text_written(v@[k], out@[k]),
        decreases v@.len() - i,
    {
        out.push(encode_text(&v[i]));
        i = i + 1;
    }
    Json::Array(out)
}

/// The entries of the object that encodes a markup element.
pub fn encode_markup(m: &EdtrMarkupText) -> (e: Vec<(String, Json)>)
    ensures
        markup_written(*m, get(e@, "children"@)),
        markup_accepts(*m, e@, SchemaRevision::V2),
    decreases m,
{
    let kind = markup_kind(m);
    proof {
        lemma_markup_name_inverts(kind);
    }
    let tag = Json::Str(markup_wire_name(kind).to_owned());
    let names = markup_names(kind);
    match m {
        EdtrMarkupText::Hyperlink { href, children } => {
            let vals = vec![tag, Json::Str(href.clone()), encode_texts(children)];
            proof {
                lemma_link_names_distinct();
            }
            let e = make_object(names, vals);
            proof {
                assert(names@[0]@ == "type"@);
                assert(names@[1]@ == "href"@);
                assert(names@[2]@ == "children"@);
            }
            e
        },
        EdtrMarkupText::Heading { level, children } => {
            let vals = vec![tag, Json::Number(Some(*level as u64)), encode_texts(children)];
            proof {
                lemma_heading_names_distinct();
            }
            let e = make_object(names, vals);
            proof {
                assert(names@[0]@ == "type"@);
                assert(names@[1]@ == "level"@);
                assert(names@[2]@ == "children"@);
            }
            e
        },
        EdtrMarkupText::Math { src, inline, children } => {
            let vals = vec![tag, Json::Str(src.clone()), Json::Bool(*inline), encode_texts(children)];
            proof {
                lemma_math_names_distinct();
            }
            let e = make_object(names, vals);
            proof {
                assert(names@[0]@ == "type"@);
                assert(names@[1]@ == "src"@);
                assert(names@[2]@ == "inline"@);
                assert(names@[3]@ == "children"@);
            }
            e
        },
        EdtrMarkupText::Paragraph { children }
        | EdtrMarkupText::UnorderedList { children }
        | EdtrMarkupText::OrderedList { children }
        | EdtrMarkupText::ListItem { children }
        | EdtrMarkupText::ListItemChild { children } => {
            let vals = vec![tag, encode_texts(children)];
            proof {
                lemma_para_names_distinct();
            }
            let e = make_object(names, vals);
            proof {
                assert(names@[0]@ == "type"@);
                assert(names@[1]@ == "children"@);
            }
            e
        },
    }
}

/// Encodes a plugin as an object with its name under `plugin` and its
/// payload under `state`.
pub fn encode_plugin(t: &EdtrPlugin) -> (j: Json)
    ensures
        plugin_written(*t, j),
        plugin_accepts(*t, j, SchemaRevision::V2),
    decreases t,
{
    let kind = plugin_kind(t);
    proof {
        lemma_plugin_name_inverts(kind);
    }
    let state = match t {
        EdtrPlugin::Article(a) => encode_article(a),
        EdtrPlugin::ArticleIntroduction(x) => encode_intro(x),
        EdtrPlugin::Text(v) => encode_texts(v),
        EdtrPlugin::Image(x) => encode_image(x),
        EdtrPlugin::Rows(v) => encode_plugins(v),
        EdtrPlugin::Table(s) => Json::Str(s.clone()),
        EdtrPlugin::Multimedia(x) => encode_multimedia(x),
        EdtrPlugin::Spoiler(x) => encode_spoiler(x),
        EdtrPlugin::Injection(s) => Json::Str(s.clone()),
        EdtrPlugin::Box(x) => encode_box(x),
    };
    let names = plugin_names();
    let vals = vec![Json::Str(plugin_wire_name(kind).to_owned()), state];
    proof {
        lemma_plugin_names_distinct();
    }
    let e = make_object(names, vals);
    proof {
        assert(names@[0]@ == "plugin"@);
        assert(names@[1]@ == "state"@);
    }
    Json::Object(e)
}

pub fn encode_plugins(v: &Vec<EdtrPlugin>) -> (j: Json)
    ensures
        plugins_written(*v, j),
        plugins_accept(*v, j, SchemaRevision::V2),
    decreases v,
{
    let mut out: Vec<Json> = Vec::new();
    let mut i: usize = 0;
    while i < v.len()
        invariant
            i <= v@.len(),
            out@.len() == i,
            forall|k: int| 0 <= k < i ==> plugin_accepts(#[trigger] v@[k], out@[k], SchemaRevision::V2) && plugin_written(v@[k], out@[k]),
        decreases v@.len() - i,
    {
        out.push(encode_plugin(&v[i]));
        i = i + 1;
    }
    Json::Array(out)
}

pub fn encode_article(a: &EdtrArticle) -> (j: Json)
    ensures
        j is Object && plugin_written(*a.introduction, field_of(j, "introduction"@)) && plugin_written(*a.content, field_of(j, "content"@)) && plugins_written(a.exercises, field_of(j, "exercises"@)),
        article_accepts(*a, j, SchemaRevision::V2),
    decreases a,
{
    let names = article_names();
    let vals = vec![encode_plugin(&a.introduction), encode_plugin(&a.content), encode_plugins(&a.exercises), encode_reference(&a.exercise_folder), encode_related(&a.related_content), encode_sources(&a.sources)];
    proof {
        lemma_article_names_distinct();
    }
    let e = make_object(names, vals);
    proof {
        assert(names@[0]@ == "introduction"@);
        assert(names@[1]@ == "content"@);
        assert(names@[2]@ == "exercises"@);
        assert(names@[3]@ == "exerciseFolder"@);
        assert(names@[4]@ == "relatedContent"@);
        assert(names@[5]@ == "sources"@);
    }
    Json::Object(e)
}

pub fn encode_intro(x: &EdtrArticleIntroduction) -> (j: Json)
    ensures
        j is Object && plugin_written(*x.explanation, field_of(j, "explanation"@)) && plugin_written(*x.multimedia, field_of(j, "multimedia"@)),
        intro_accepts(*x, j, SchemaRevision::V2),
    decreases x,
{
    let names = intro_names();
    let vals = vec![encode_plugin(&x.explanation), encode_plugin(&x.multimedia), Json::Bool(x.illustrating), Json::Number(Some(x.width as u64))];
    proof {
        lemma_intro_names_distinct();
    }
    let e = make_object(names, vals);
    proof {
        assert(names@[0]@ == "explanation"@);
        assert(names@[1]@ == "multimedia"@);
        assert(names@[2]@ == "illustrating"@);
        assert(names@[3]@ == "width"@);
    }
    Json::Object(e)
}

pub fn encode_multimedia(x: &EdtrMultimedia) -> (j: Json)
    ensures
        j is Object && plugin_written(*x.explanation, field_of(j, "explanation"@)) && plugin_written(*x.multimedia, field_of(j, "multimedia"@)),
        multimedia_accepts(*x, j, SchemaRevision::V2),
    decreases x,
{
    let names = intro_names();
    let vals = vec![encode_plugin(&x.explanation), encode_plugin(&x.multimedia), Json::Bool(x.illustrating), Json::Number(Some(x.width as u64))];
    proof {
        lemma_intro_names_distinct();
    }
    let e = make_object(names, vals);
    proof {
        assert(names@[0]@ == "explanation"@);
        assert(names@[1]@ == "multimedia"@);
        assert(names@[2]@ == "illustrating"@);
        assert(names@[3]@ == "width"@);
    }
    Json::Object(e)
}

/// A missing `alt` text is written as `null`.
pub fn encode_image(x: &EdtrImage) -> (j: Json)
    ensures
        j is Object && has_key(j->Object_0@, "alt"@) && plugin_written(*x.caption, field_of(j, "caption"@)),
        image_accepts(*x, j, SchemaRevision::V2),
    decreases x,
{
    let alt = match &x.alt {
        Some(s) => Json::Str(s.clone()),
        None => Json::Null,
    };
    let names = image_names();
    let vals = vec![Json::Str(x.src.clone()), alt, encode_plugin(&x.caption)];
    proof {
        lemma_image_names_distinct();
    }
    let e = make_object(names, vals);
    proof {
        assert(names@[0]@ == "src"@);
        assert(names@[1]@ == "alt"@);
        assert(names@[2]@ == "caption"@);
    }
    Json::Object(e)
}

pub fn encode_spoiler(x: &EdtrSpoiler) -> (j: Json)
    ensures
        j is Object && plugin_written(*x.content, field_of(j, "content"@)),
        spoiler_accepts(*x, j, SchemaRevision::V2),
    decreases x,
{
    let names = spoiler_names();
    let vals = vec![Json::Str(x.title.clone()), encode_plugin(&x.content)];
    proof {
        lemma_spoiler_names_distinct();
    }
    let e = make_object(names, vals);
    proof {
        assert(names@[0]@ == "title"@);
        assert(names@[1]@ == "content"@);
    }
    Json::Object(e)
}

pub fn encode_box(x: &EdtrBox) -> (j: Json)
    ensures
        j is Object && plugin_written(*x.title, field_of(j, "title"@)) && plugin_written(*x.content, field_of(j, "content"@)),
        box_accepts(*x, j, SchemaRevision::V2),
    decreases x,
{
    proof {
        lemma_box_type_name_inverts(x.box_type);
    }
    let names = box_names();
    let vals = vec![Json::Str(box_type_wire_name(x.box_type).to_owned()), encode_plugin(&x.title), Json::Str(x.anchor_id.clone()), encode_plugin(&x.content)];
    proof {
        lemma_box_names_distinct();
    }
    let e = make_object(names, vals);
    proof {
        assert(names@[0]@ == "boxType"@);
        assert(names@[1]@ == "title"@);
        assert(names@[2]@ == "anchorId"@);
        assert(names@[3]@ == "content"@);
    }
    Json::Object(e)
}

pub proof fn lemma_run_literals()
    ensures
        "text"@ != "type"@,
        "strong"@ != "type"@,
        "strong"@ != "text"@,
        "em"@ != "type"@,
        "em"@ != "text"@,
        "em"@ != "strong"@,
        "code"@ != "type"@,
        "code"@ != "text"@,
        "code"@ != "strong"@,
        "code"@ != "em"@,
{
    reveal_strlit("type");
    reveal_strlit("text");
    reveal_strlit("strong");
    reveal_strlit("em");
    reveal_strlit("code");
    assert("text"@[1] != "type"@[1]);
    assert("strong"@.len() != "type"@.len());
    assert("strong"@.len() != "text"@.len());
    assert("em"@.len() != "type"@.len());
    assert("em"@.len() != "text"@.len());
    assert("em"@.len() != "strong"@.len());
    assert("code"@[0] != "type"@[0]);
    assert("code"@[0] != "text"@[0]);
    assert("code"@.len() != "strong"@.len());
    assert("code"@.len() != "em"@.len());
}

} // verus!
