use vstd::prelude::*;
use crate::document::{
    EdtrArticle, EdtrArticleIntroduction, EdtrArticleReference, EdtrArticleRelatedContent,
    EdtrArticleSource, EdtrBox, EdtrImage, EdtrMarkupText, EdtrMultimedia, EdtrPlugin,
    EdtrSpoiler, EdtrText, SchemaRevision,
};
use crate::json::{get, has_key, shape_ok, Json};
use crate::tags::{
    box_type_named, kind_of, MarkupKind, markup_kind_of, markup_known, markup_named, plugin_known,
    plugin_named, PluginKind,
};

verus! {

// What it means for a JSON value to be an acceptable wire form of a document
// value. Objects must hold exactly the declared fields (optional ones may be
// missing), each key once, in any order.

pub open spec fn str_is(j: Json, s: String) -> bool {
    j is Str && j->Str_0@ == s@
}

pub open spec fn field_is_str(e: Seq<(String, Json)>, k: Seq<char>, s: String) -> bool {
    has_key(e, k) && str_is(get(e, k), s)
}

pub open spec fn field_is_bool(e: Seq<(String, Json)>, k: Seq<char>, b: bool) -> bool {
    has_key(e, k) && get(e, k) == Json::Bool(b)
}

pub open spec fn field_is_size(e: Seq<(String, Json)>, k: Seq<char>, n: usize) -> bool {
    has_key(e, k) && get(e, k) == Json::Number(Some(n as u64))
}

/// A flag that may be left out when it is `false`.
pub open spec fn flag_accepts(e: Seq<(String, Json)>, k: Seq<char>, b: bool) -> bool {
    if has_key(e, k) {
        get(e, k) == Json::Bool(b)
    } else {
        !b
    }
}

pub open spec fn reference_keys() -> Seq<&'static str> {
    seq!["id", "title"]
}

pub open spec fn source_keys() -> Seq<&'static str> {
    seq!["href", "title"]
}

pub open spec fn related_keys() -> Seq<&'static str> {
    seq!["articles", "courses", "videos"]
}

pub open spec fn article_keys() -> Seq<&'static str> {
    seq!["introduction", "content", "exercises", "exerciseFolder", "relatedContent", "sources"]
}

pub open spec fn intro_keys() -> Seq<&'static str> {
    seq!["explanation", "multimedia", "illustrating", "width"]
}

pub open spec fn image_keys() -> Seq<&'static str> {
    seq!["src", "alt", "caption"]
}

pub open spec fn spoiler_keys() -> Seq<&'static str> {
    seq!["title", "content"]
}

pub open spec fn box_keys() -> Seq<&'static str> {
    seq!["boxType", "title", "anchorId", "content"]
}

pub open spec fn plugin_keys() -> Seq<&'static str> {
    seq!["plugin", "state"]
}

/// The fields of a plain run: the `code` flag exists from the second
/// revision on.
pub open spec fn run_keys(rev: SchemaRevision) -> Seq<&'static str> {
    if rev == SchemaRevision::V2 {
        seq!["text", "strong", "em", "code"]
    } else {
        seq!["text", "strong", "em"]
    }
}

pub open spec fn markup_keys(k: MarkupKind) -> Seq<&'static str> {
    match k {
        MarkupKind::Hyperlink => seq!["type", "href", "children"],
        MarkupKind::Heading => seq!["type", "level", "children"],
        MarkupKind::Math => seq!["type", "src", "inline", "children"],
        _ => seq!["type", "children"],
    }
}

/// Every field that some markup element has.
pub open spec fn any_markup_keys() -> Seq<&'static str> {
    seq!["type", "href", "level", "src", "inline", "children"]
}

pub open spec fn reference_accepts(r: EdtrArticleReference, j: Json) -> bool {
    match j {
        Json::Object(e) => {
            &&& shape_ok(e@, reference_keys())
            &&& field_is_str(e@, "id"@, r.id)
            &&& field_is_str(e@, "title"@, r.title)
        },
        _ => false,
    }
}

pub open spec fn source_accepts(s: EdtrArticleSource, j: Json) -> bool {
    match j {
        Json::Object(e) => {
            &&& shape_ok(e@, source_keys())
            &&& field_is_str(e@, "href"@, s.href)
            &&& field_is_str(e@, "title"@, s.title)
        },
        _ => false,
    }
}

pub open spec fn references_accept(v: Vec<EdtrArticleReference>, j: Json) -> bool {
    &&& j is Array
    &&& j->Array_0@.len() == v@.len()
    &&& forall|i: int| 0 <= i < v@.len() ==> reference_accepts(#[trigger] v@[i], j->Array_0@[i])
}

pub open spec fn sources_accept(v: Vec<EdtrArticleSource>, j: Json) -> bool {
    &&& j is Array
    &&& j->Array_0@.len() == v@.len()
    &&& forall|i: int| 0 <= i < v@.len() ==> source_accepts(#[trigger] v@[i], j->Array_0@[i])
}

pub open spec fn related_accepts(r: EdtrArticleRelatedContent, j: Json) -> bool {
    match j {
        Json::Object(e) => {
            &&& shape_ok(e@, related_keys())
            &&& has_key(e@, "articles"@) && references_accept(r.articles, get(e@, "articles"@))
            &&& has_key(e@, "courses"@) && references_accept(r.courses, get(e@, "courses"@))
            &&& has_key(e@, "videos"@) && references_accept(r.videos, get(e@, "videos"@))
        },
        _ => false,
    }
}

/// `j` is an acceptable wire form of the text fragment `f`. A fragment with a
/// `type` field is markup; one without it but with `text` is a plain run; an
/// object with no fields is the empty marker.
pub open spec fn text_accepts(f: EdtrText, j: Json, rev: SchemaRevision) -> bool
    decreases f,
{
    match j {
        Json::Object(e) => match f {
            EdtrText::SimpleText { text, strong, em, code } => {
                &&& !has_key(e@, "type"@)
                &&& shape_ok(e@, run_keys(rev))
                &&& field_is_str(e@, "text"@, text)
                &&& flag_accepts(e@, "strong"@, strong)
                &&& flag_accepts(e@, "em"@, em)
                &&& if rev == SchemaRevision::V2 {
                    flag_accepts(e@, "code"@, code)
                } else {
                    !code
                }
            },
            EdtrText::NestedText(m) => markup_accepts(m, e@, rev),
            EdtrText::Empty {  } => e@.len() == 0,
        },
        _ => false,
    }
}

pub open spec fn texts_accept(v: Vec<EdtrText>, j: Json, rev: SchemaRevision) -> bool
    decreases v,
{
    &&& j is Array
    &&& j->Array_0@.len() == v@.len()
    &&& forall|i: int| 0 <= i < v@.len() ==> text_accepts(#[trigger] v@[i], j->Array_0@[i], rev)
}

/// The entries `e` of an object are an acceptable wire form of the markup
/// element `m`.
pub open spec fn markup_accepts(m: EdtrMarkupText, e: Seq<(String, Json)>, rev: SchemaRevision) -> bool
    decreases m,
{
    &&& has_key(e, "type"@)
    &&& get(e, "type"@) is Str
    &&& markup_named(get(e, "type"@)->Str_0@) == Some(markup_kind_of(m))
    &&& markup_known(markup_kind_of(m), rev)
    &&& shape_ok(e, markup_keys(markup_kind_of(m)))
    &&& has_key(e, "children"@)
    &&& match m {
        EdtrMarkupText::Paragraph { children } => texts_accept(children, get(e, "children"@), rev),
        EdtrMarkupText::Hyperlink { href, children } => {
            &&& field_is_str(e, "href"@, href)
            &&& texts_accept(children, get(e, "children"@), rev)
        },
        EdtrMarkupText::UnorderedList { children } => texts_accept(children, get(e, "children"@), rev),
        EdtrMarkupText::OrderedList { children } => texts_accept(children, get(e, "children"@), rev),
        EdtrMarkupText::ListItem { children } => texts_accept(children, get(e, "children"@), rev),
        EdtrMarkupText::ListItemChild { children } => texts_accept(children, get(e, "children"@), rev),
        EdtrMarkupText::Heading { level, children } => {
            &&& field_is_size(e, "level"@, level)
            &&& texts_accept(children, get(e, "children"@), rev)
        },
        EdtrMarkupText::Math { src, inline, children } => {
            &&& field_is_str(e, "src"@, src)
            &&& field_is_bool(e, "inline"@, inline)
            &&& texts_accept(children, get(e, "children"@), rev)
        },
    }
}

/// `j` is an acceptable wire form of the plugin `t`: an object holding the
/// plugin's name under `plugin` and its payload under `state`.
pub open spec fn plugin_accepts(t: EdtrPlugin, j: Json, rev: SchemaRevision) -> bool
    decreases t,
{
    match j {
        Json::Object(e) => {
            &&& shape_ok(e@, plugin_keys())
            &&& has_key(e@, "plugin"@)
            &&& has_key(e@, "state"@)
            &&& get(e@, "plugin"@) is Str
            &&& plugin_named(get(e@, "plugin"@)->Str_0@) == Some(kind_of(t))
            &&& plugin_known(kind_of(t), rev)
            &&& match t {
                EdtrPlugin::Article(a) => article_accepts(a, get(e@, "state"@), rev),
                EdtrPlugin::ArticleIntroduction(x) => intro_accepts(x, get(e@, "state"@), rev),
                EdtrPlugin::Text(v) => texts_accept(v, get(e@, "state"@), rev),
                EdtrPlugin::Image(x) => image_accepts(x, get(e@, "state"@), rev),
                EdtrPlugin::Rows(v) => plugins_accept(v, get(e@, "state"@), rev),
                EdtrPlugin::Table(s) => str_is(get(e@, "state"@), s),
                EdtrPlugin::Multimedia(x) => multimedia_accepts(x, get(e@, "state"@), rev),
                EdtrPlugin::Spoiler(x) => spoiler_accepts(x, get(e@, "state"@), rev),
                EdtrPlugin::Injection(s) => str_is(get(e@, "state"@), s),
                EdtrPlugin::Box(x) => box_accepts(x, get(e@, "state"@), rev),
            }
        },
        _ => false,
    }
}

pub open spec fn plugins_accept(v: Vec<EdtrPlugin>, j: Json, rev: SchemaRevision) -> bool
    decreases v,
{
    &&& j is Array
    &&& j->Array_0@.len() == v@.len()
    &&& forall|i: int| 0 <= i < v@.len() ==> plugin_accepts(#[trigger] v@[i], j->Array_0@[i], rev)
}

pub open spec fn article_accepts(a: EdtrArticle, j: Json, rev: SchemaRevision) -> bool
    decreases a,
{
    match j {
        Json::Object(e) => {
            &&& shape_ok(e@, article_keys())
            &&& has_key(e@, "introduction"@) && plugin_accepts(*a.introduction, get(e@, "introduction"@), rev)
            &&& has_key(e@, "content"@) && plugin_accepts(*a.content, get(e@, "content"@), rev)
            &&& has_key(e@, "exercises"@) && plugins_accept(a.exercises, get(e@, "exercises"@), rev)
            &&& has_key(e@, "exerciseFolder"@) && reference_accepts(a.exercise_folder, get(e@, "exerciseFolder"@))
            &&& has_key(e@, "relatedContent"@) && related_accepts(a.related_content, get(e@, "relatedContent"@))
            &&& has_key(e@, "sources"@) && sources_accept(a.sources, get(e@, "sources"@))
        },
        _ => false,
    }
}

pub open spec fn intro_accepts(x: EdtrArticleIntroduction, j: Json, rev: SchemaRevision) -> bool
    decreases x,
{
    match j {
        Json::Object(e) => {
            &&& shape_ok(e@, intro_keys())
            &&& has_key(e@, "explanation"@) && plugin_accepts(*x.explanation, get(e@, "explanation"@), rev)
            &&& has_key(e@, "multimedia"@) && plugin_accepts(*x.multimedia, get(e@, "multimedia"@), rev)
            &&& field_is_bool(e@, "illustrating"@, x.illustrating)
            &&& field_is_size(e@, "width"@, x.width)
        },
        _ => false,
    }
}

pub open spec fn multimedia_accepts(x: EdtrMultimedia, j: Json, rev: SchemaRevision) -> bool
    decreases x,
{
    match j {
        Json::Object(e) => {
            &&& shape_ok(e@, intro_keys())
            &&& has_key(e@, "explanation"@) && plugin_accepts(*x.explanation, get(e@, "explanation"@), rev)
            &&& has_key(e@, "multimedia"@) && plugin_accepts(*x.multimedia, get(e@, "multimedia"@), rev)
            &&& field_is_bool(e@, "illustrating"@, x.illustrating)
            &&& field_is_size(e@, "width"@, x.width)
        },
        _ => false,
    }
}

/// The optional `alt` text may be missing or `null` when absent.
pub open spec fn image_accepts(x: EdtrImage, j: Json, rev: SchemaRevision) -> bool
    decreases x,
{
    match j {
        Json::Object(e) => {
            &&& shape_ok(e@, image_keys())
            &&& field_is_str(e@, "src"@, x.src)
            &&& match x.alt {
                Some(s) => field_is_str(e@, "alt"@, s),
                None => !has_key(e@, "alt"@) || get(e@, "alt"@) == Json::Null,
            }
            &&& has_key(e@, "caption"@) && plugin_accepts(*x.caption, get(e@, "caption"@), rev)
        },
        _ => false,
    }
}

pub open spec fn spoiler_accepts(x: EdtrSpoiler, j: Json, rev: SchemaRevision) -> bool
    decreases x,
{
    match j {
        Json::Object(e) => {
            &&& shape_ok(e@, spoiler_keys())
            &&& field_is_str(e@, "title"@, x.title)
            &&& has_key(e@, "content"@) && plugin_accepts(*x.content, get(e@, "content"@), rev)
        },
        _ => false,
    }
}

pub open spec fn box_accepts(x: EdtrBox, j: Json, rev: SchemaRevision) -> bool
    decreases x,
{
    match j {
        Json::Object(e) => {
            &&& shape_ok(e@, box_keys())
            &&& has_key(e@, "boxType"@) && get(e@, "boxType"@) is Str
            &&& box_type_named(get(e@, "boxType"@)->Str_0@) == Some(x.box_type)
            &&& has_key(e@, "title"@) && plugin_accepts(*x.title, get(e@, "title"@), rev)
            &&& field_is_str(e@, "anchorId"@, x.anchor_id)
            &&& has_key(e@, "content"@) && plugin_accepts(*x.content, get(e@, "content"@), rev)
        },
        _ => false,
    }
}

/// The fields of a plugin's payload, for the plugins whose payload is an
/// object.
pub open spec fn payload_keys(k: PluginKind) -> Option<Seq<&'static str>> {
    match k {
        PluginKind::Article => Some(article_keys()),
        PluginKind::ArticleIntroduction => Some(intro_keys()),
        PluginKind::Image => Some(image_keys()),
        PluginKind::Multimedia => Some(intro_keys()),
        PluginKind::Spoiler => Some(spoiler_keys()),
        PluginKind::Box => Some(box_keys()),
        _ => None,
    }
}

/// `j` is a plugin envelope with exactly the fields `plugin` and `state`,
/// whose name is a string.
pub open spec fn envelope_ok(j: Json) -> bool {
    &&& j is Object
    &&& shape_ok(j->Object_0@, plugin_keys())
    &&& has_key(j->Object_0@, "plugin"@)
    &&& has_key(j->Object_0@, "state"@)
    &&& get(j->Object_0@, "plugin"@) is Str
}

/// The plugin that an envelope names, if the name is known at all.
pub open spec fn envelope_kind(j: Json) -> Option<PluginKind> {
    plugin_named(get(j->Object_0@, "plugin"@)->Str_0@)
}

/// `j` is an object whose fields are not exactly those of a plugin envelope.
pub open spec fn envelope_has_extra_field(j: Json) -> bool {
    j is Object && !shape_ok(j->Object_0@, plugin_keys())
}

/// `j` is an envelope whose name `rev` does not know.
pub open spec fn envelope_unknown(j: Json, rev: SchemaRevision) -> bool {
    &&& envelope_ok(j)
    &&& match envelope_kind(j) {
        None => true,
        Some(k) => !plugin_known(k, rev),
    }
}

/// `j` is an envelope that names a known plugin, whose payload is an object
/// with a field that the plugin does not declare, or a repeated one.
pub open spec fn payload_has_extra_field(j: Json, rev: SchemaRevision) -> bool {
    &&& envelope_ok(j)
    &&& envelope_kind(j) matches Some(k)
    &&& plugin_known(k, rev)
    &&& payload_keys(k) matches Some(names)
    &&& get(j->Object_0@, "state"@) is Object
    &&& !shape_ok(get(j->Object_0@, "state"@)->Object_0@, names)
}


// How the encoder writes a tree, beyond what decoding accepts: a plain run
// carries a flag exactly when it is set, and an image always carries `alt`.

pub open spec fn text_written(f: EdtrText, j: Json) -> bool
    decreases f,
{
    match f {
        EdtrText::SimpleText { strong, em, code, .. } => {
            &&& j is Object
            &&& has_key(j->Object_0@, "strong"@) == strong
            &&& has_key(j->Object_0@, "em"@) == em
            &&& has_key(j->Object_0@, "code"@) == code
        },
        EdtrText::NestedText(m) => j is Object && markup_written(m, get(j->Object_0@, "children"@)),
        EdtrText::Empty {  } => true,
    }
}

pub open spec fn texts_written(v: Vec<EdtrText>, j: Json) -> bool
    decreases v,
{
    j is Array && forall|i: int| 0 <= i < v@.len() ==> text_written(#[trigger] v@[i], j->Array_0@[i])
}

/// `c` is the `children` value of the markup element `m`.
pub open spec fn markup_written(m: EdtrMarkupText, c: Json) -> bool
    decreases m,
{
    match m {
        EdtrMarkupText::Paragraph { children } => texts_written(children, c),
        EdtrMarkupText::Hyperlink { children, .. } => texts_written(children, c),
        EdtrMarkupText::UnorderedList { children } => texts_written(children, c),
        EdtrMarkupText::OrderedList { children } => texts_written(children, c),
        EdtrMarkupText::ListItem { children } => texts_written(children, c),
        EdtrMarkupText::ListItemChild { children } => texts_written(children, c),
        EdtrMarkupText::Heading { children, .. } => texts_written(children, c),
        EdtrMarkupText::Math { children, .. } => texts_written(children, c),
    }
}

pub open spec fn field_of(j: Json, k: Seq<char>) -> Json {
    get(j->Object_0@, k)
}

pub open spec fn plugin_written(t: EdtrPlugin, j: Json) -> bool
    decreases t,
{
    j is Object && {
        let s = field_of(j, "state"@);
        match t {
            EdtrPlugin::Article(a) => {
                &&& s is Object
                &&& plugin_written(*a.introduction, field_of(s, "introduction"@))
                &&& plugin_written(*a.content, field_of(s, "content"@))
                &&& plugins_written(a.exercises, field_of(s, "exercises"@))
            },
            EdtrPlugin::ArticleIntroduction(x) => {
                &&& s is Object
                &&& plugin_written(*x.explanation, field_of(s, "explanation"@))
                &&& plugin_written(*x.multimedia, field_of(s, "multimedia"@))
            },
            EdtrPlugin::Text(v) => texts_written(v, s),
            EdtrPlugin::Image(x) => {
                &&& s is Object
                &&& has_key(s->Object_0@, "alt"@)
                &&& plugin_written(*x.caption, field_of(s, "caption"@))
            },
            EdtrPlugin::Rows(v) => plugins_written(v, s),
            EdtrPlugin::Multimedia(x) => {
                &&& s is Object
                &&& plugin_written(*x.explanation, field_of(s, "explanation"@))
                &&& plugin_written(*x.multimedia, field_of(s, "multimedia"@))
            },
            EdtrPlugin::Spoiler(x) => s is Object && plugin_written(*x.content, field_of(s, "content"@)),
            EdtrPlugin::Box(x) => {
                &&& s is Object
                &&& plugin_written(*x.title, field_of(s, "title"@))
                &&& plugin_written(*x.content, field_of(s, "content"@))
            },
            _ => true,
        }
    }
}

pub open spec fn plugins_written(v: Vec<EdtrPlugin>, j: Json) -> bool
    decreases v,
{
    j is Array && forall|i: int| 0 <= i < v@.len() ==> plugin_written(#[trigger] v@[i], j->Array_0@[i])
}

// Nesting depth: every plugin and every text fragment takes one level.

pub open spec fn text_fits(f: EdtrText, d: nat) -> bool
    decreases f,
{
    d > 0 && match f {
        EdtrText::NestedText(m) => markup_fits(m, (d - 1) as nat),
        _ => true,
    }
}

pub open spec fn texts_fit(v: Vec<EdtrText>, d: nat) -> bool
    decreases v,
{
    forall|i: int| 0 <= i < v@.len() ==> text_fits(#[trigger] v@[i], d)
}

pub open spec fn markup_fits(m: EdtrMarkupText, d: nat) -> bool
    decreases m,
{
    match m {
        EdtrMarkupText::Paragraph { children } => texts_fit(children, d),
        EdtrMarkupText::Hyperlink { children, .. } => texts_fit(children, d),
        EdtrMarkupText::UnorderedList { children } => texts_fit(children, d),
        EdtrMarkupText::OrderedList { children } => texts_fit(children, d),
        EdtrMarkupText::ListItem { children } => texts_fit(children, d),
        EdtrMarkupText::ListItemChild { children } => texts_fit(children, d),
        EdtrMarkupText::Heading { children, .. } => texts_fit(children, d),
        EdtrMarkupText::Math { children, .. } => texts_fit(children, d),
    }
}

pub open spec fn plugin_fits(t: EdtrPlugin, d: nat) -> bool
    decreases t,
{
    d > 0 && match t {
        EdtrPlugin::Article(a) => article_fits(a, (d - 1) as nat),
        EdtrPlugin::ArticleIntroduction(x) => {
            plugin_fits(*x.explanation, (d - 1) as nat) && plugin_fits(*x.multimedia, (d - 1) as nat)
        },
        EdtrPlugin::Text(v) => texts_fit(v, (d - 1) as nat),
        EdtrPlugin::Image(x) => plugin_fits(*x.caption, (d - 1) as nat),
        EdtrPlugin::Rows(v) => plugins_fit(v, (d - 1) as nat),
        EdtrPlugin::Multimedia(x) => {
            plugin_fits(*x.explanation, (d - 1) as nat) && plugin_fits(*x.multimedia, (d - 1) as nat)
        },
        EdtrPlugin::Spoiler(x) => plugin_fits(*x.content, (d - 1) as nat),
        EdtrPlugin::Box(x) => plugin_fits(*x.title, (d - 1) as nat) && plugin_fits(*x.content, (d - 1) as nat),
        _ => true,
    }
}

pub open spec fn plugins_fit(v: Vec<EdtrPlugin>, d: nat) -> bool
    decreases v,
{
    forall|i: int| 0 <= i < v@.len() ==> plugin_fits(#[trigger] v@[i], d)
}

pub open spec fn article_fits(a: EdtrArticle, d: nat) -> bool
    decreases a,
{
    &&& plugin_fits(*a.introduction, d)
    &&& plugin_fits(*a.content, d)
    &&& plugins_fit(a.exercises, d)
}

} // verus!
