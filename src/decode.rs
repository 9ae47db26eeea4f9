use vstd::prelude::*;
use crate::document::{
    EdtrArticle, EdtrArticleIntroduction, EdtrBox, EdtrImage, EdtrMultimedia, EdtrPlugin,
    EdtrSpoiler, EdtrArticleReference, EdtrArticleRelatedContent, EdtrArticleSource, EdtrMarkupText, EdtrText,
    ErrorKind, SchemaRevision,
};
use crate::json::{check_shape, distinct_keys, find_key, get, has_key, lemma_get, shape_ok, Json, PathStep};
use crate::keys::{
    article_names, box_names, image_names, intro_names, plugin_names, spoiler_names, any_markup_names, markup_names, reference_names, related_names, run_names, source_names};
use crate::schema::{
    article_keys, box_keys, envelope_has_extra_field, envelope_unknown, image_keys, intro_keys,
    payload_has_extra_field, spoiler_keys,
    article_accepts, article_fits, box_accepts, image_accepts, intro_accepts, multimedia_accepts,
    plugin_accepts, plugin_fits, plugins_accept, plugins_fit, spoiler_accepts,
    field_is_bool, field_is_size, field_is_str, flag_accepts, markup_accepts, markup_fits,
    reference_accepts, references_accept, related_accepts, source_accepts, sources_accept,
    str_is, text_accepts, text_fits, texts_accept, texts_fit,
};
use crate::tags::{plugin_named, box_type_of_name, plugin_kind_named, PluginKind, markup_kind_named, MarkupKind};

verus! {

/// Why a decode failed, and where: the path leads from the root of the
/// document to the offending value.
#[derive(Debug)]
pub struct DecodeError {
    pub kind: ErrorKind,
    pub path: Vec<PathStep>,
}

pub fn fail(kind: ErrorKind) -> (r: DecodeError)
    ensures
        r.kind == kind,
        r.path@.len() == 0,
{
    DecodeError { kind, path: Vec::new() }
}

/// The same error, seen from the object that holds field `k`.
pub fn in_field(err: DecodeError, k: &str) -> (r: DecodeError)
    ensures
        r.kind == err.kind,
        r.path@.len() == err.path@.len() + 1,
        r.path@[0] is Field && r.path@[0]->Field_0@ == k@,
        forall|i: int| 0 <= i < err.path@.len() ==> r.path@[i + 1] == #[trigger] err.path@[i],
{
    let mut path = err.path;
    path.insert(0, PathStep::Field(k.to_owned()));
    DecodeError { kind: err.kind, path }
}

/// The same error, seen from the array that holds item `i`.
pub fn at_index(err: DecodeError, i: usize) -> (r: DecodeError)
    ensures
        r.kind == err.kind,
        r.path@.len() == err.path@.len() + 1,
        r.path@[0] == PathStep::Index(i),
        forall|k: int| 0 <= k < err.path@.len() ==> r.path@[k + 1] == #[trigger] err.path@[k],
{
    let mut path = err.path;
    path.insert(0, PathStep::Index(i));
    DecodeError { kind: err.kind, path }
}

/// The entries of an object whose keys are distinct and among `names`.
pub fn object_with<'a>(j: &'a Json, names: &Vec<&str>) -> (r: Result<&'a Vec<(String, Json)>, DecodeError>)
    ensures
        r matches Ok(e) ==> *j == Json::Object(*e) && shape_ok(e@, names@),
        r is Err ==> !(j is Object) || !shape_ok(j->Object_0@, names@),
        (j is Object && !shape_ok(j->Object_0@, names@)) ==> (r matches Err(x) && x.kind
            == ErrorKind::UnexpectedField),
{
    match j {
        Json::Object(e) => match check_shape(e, names) {
            Ok(()) => Ok(e),
            Err(i) => Err(in_field(fail(ErrorKind::UnexpectedField), e[i].0.as_str())),
        },
        _ => Err(fail(ErrorKind::TypeMismatch)),
    }
}

/// The value under key `k`.
pub fn field<'a>(e: &'a Vec<(String, Json)>, k: &str) -> (r: Result<&'a Json, DecodeError>)
    requires
        distinct_keys(e@),
    ensures
        r matches Ok(v) ==> has_key(e@, k@) && *v == get(e@, k@),
        r is Err ==> !has_key(e@, k@),
{
    match find_key(e, k) {
        Some(i) => {
            proof {
                lemma_get(e@, k@, i as int);
            }
            Ok(&e[i].1)
        },
        None => Err(in_field(fail(ErrorKind::MissingField), k)),
    }
}

pub fn read_str(j: &Json) -> (r: Result<String, DecodeError>)
    ensures
        r matches Ok(s) ==> str_is(*j, s),
        r is Err ==> !(j is Str),
{
    match j {
        Json::Str(s) => Ok(s.clone()),
        _ => Err(fail(ErrorKind::TypeMismatch)),
    }
}

pub fn read_bool(j: &Json) -> (r: Result<bool, DecodeError>)
    ensures
        r matches Ok(b) ==> *j == Json::Bool(b),
        r is Err ==> !(j is Bool),
{
    match j {
        Json::Bool(b) => Ok(*b),
        _ => Err(fail(ErrorKind::TypeMismatch)),
    }
}

/// A non-negative integer that fits in `usize`.
pub fn read_size(j: &Json) -> (r: Result<usize, DecodeError>)
    ensures
        r matches Ok(n) ==> *j == Json::Number(Some(n as u64)),
        r is Err ==> !(*j matches Json::Number(Some(u)) && u <= usize::MAX),
{
    match j {
        Json::Number(Some(n)) => {
            if *n <= usize::MAX as u64 {
                Ok(*n as usize)
            } else {
                Err(fail(ErrorKind::InvalidValue))
            }
        },
        Json::Number(None) => Err(fail(ErrorKind::InvalidValue)),
        _ => Err(fail(ErrorKind::TypeMismatch)),
    }
}

pub fn str_field(e: &Vec<(String, Json)>, k: &str) -> (r: Result<String, DecodeError>)
    requires
        distinct_keys(e@),
    ensures
        r matches Ok(s) ==> field_is_str(e@, k@, s),
        r is Err ==> !(has_key(e@, k@) && get(e@, k@) is Str),
{
    let v = field(e, k)?;
    match read_str(v) {
        Ok(s) => Ok(s),
        Err(err) => Err(in_field(err, k)),
    }
}

pub fn bool_field(e: &Vec<(String, Json)>, k: &str) -> (r: Result<bool, DecodeError>)
    requires
        distinct_keys(e@),
    ensures
        r matches Ok(b) ==> field_is_bool(e@, k@, b),
        r is Err ==> !(has_key(e@, k@) && get(e@, k@) is Bool),
{
    let v = field(e, k)?;
    match read_bool(v) {
        Ok(b) => Ok(b),
        Err(err) => Err(in_field(err, k)),
    }
}

pub fn size_field(e: &Vec<(String, Json)>, k: &str) -> (r: Result<usize, DecodeError>)
    requires
        distinct_keys(e@),
    ensures
        r matches Ok(n) ==> field_is_size(e@, k@, n),
        r is Err ==> !(has_key(e@, k@) && (get(e@, k@) matches Json::Number(Some(u)) && u <= usize::MAX)),
{
    let v = field(e, k)?;
    match read_size(v) {
        Ok(n) => Ok(n),
        Err(err) => Err(in_field(err, k)),
    }
}

/// A flag that reads as `false` when it is missing.
pub fn flag_field(e: &Vec<(String, Json)>, k: &str) -> (r: Result<bool, DecodeError>)
    requires
        distinct_keys(e@),
    ensures
        r matches Ok(b) ==> flag_accepts(e@, k@, b),
        r is Err ==> forall|b: bool| !flag_accepts(e@, k@, b),
{
    match find_key(e, k) {
        Some(i) => {
            proof {
                lemma_get(e@, k@, i as int);
            }
            match read_bool(&e[i].1) {
                Ok(b) => Ok(b),
                Err(err) => Err(in_field(err, k)),
            }
        },
        None => Ok(false),
    }
}

pub fn decode_reference(j: &Json) -> (r: Result<EdtrArticleReference, DecodeError>)
    ensures
        r matches Ok(x) ==> reference_accepts(x, *j),
        r is Err ==> forall|x: EdtrArticleReference| !reference_accepts(x, *j),
{
    let e = object_with(j, &reference_names())?;
    let id = str_field(e, "id")?;
    let title = str_field(e, "title")?;
    Ok(EdtrArticleReference { id, title })
}

pub fn decode_source(j: &Json) -> (r: Result<EdtrArticleSource, DecodeError>)
    ensures
        r matches Ok(x) ==> source_accepts(x, *j),
        r is Err ==> forall|x: EdtrArticleSource| !source_accepts(x, *j),
{
    let e = object_with(j, &source_names())?;
    let href = str_field(e, "href")?;
    let title = str_field(e, "title")?;
    Ok(EdtrArticleSource { href, title })
}

pub fn decode_references(j: &Json) -> (r: Result<Vec<EdtrArticleReference>, DecodeError>)
    ensures
        r matches Ok(v) ==> references_accept(v, *j),
        r is Err ==> forall|v: Vec<EdtrArticleReference>| !references_accept(v, *j),
{
    match j {
        Json::Array(items) => {
            let mut out: Vec<EdtrArticleReference> = Vec::new();
            let mut i: usize = 0;
            while i < items.len()
                invariant
                    *j == Json::Array(*items),
                    i <= items@.len(),
                    out@.len() == i,
                    forall|k: int| 0 <= k < i ==> reference_accepts(#[trigger] out@[k], items@[k]),
                decreases items@.len() - i,
            {
                match decode_reference(&items[i]) {
                    Ok(x) => out.push(x),
                    Err(err) => {
                        assert forall|v: Vec<EdtrArticleReference>| !references_accept(v, *j) by {
                            if references_accept(v, *j) {
                                        assert(reference_accepts(v@[i as int], items@[i as int]));
                            }
                        }
                        return Err(at_index(err, i));
                    },
                }
                i = i + 1;
            }
            Ok(out)
        },
        _ => Err(fail(ErrorKind::TypeMismatch)),
    }
}

pub fn decode_sources(j: &Json) -> (r: Result<Vec<EdtrArticleSource>, DecodeError>)
    ensures
        r matches Ok(v) ==> sources_accept(v, *j),
        r is Err ==> forall|v: Vec<EdtrArticleSource>| !sources_accept(v, *j),
{
    match j {
        Json::Array(items) => {
            let mut out: Vec<EdtrArticleSource> = Vec::new();
            let mut i: usize = 0;
            while i < items.len()
                invariant
                    *j == Json::Array(*items),
                    i <= items@.len(),
                    out@.len() == i,
                    forall|k: int| 0 <= k < i ==> source_accepts(#[trigger] out@[k], items@[k]),
                decreases items@.len() - i,
            {
                match decode_source(&items[i]) {
                    Ok(x) => out.push(x),
                    Err(err) => {
                        assert forall|v: Vec<EdtrArticleSource>| !sources_accept(v, *j) by {
                            if sources_accept(v, *j) {
                                        assert(source_accepts(v@[i as int], items@[i as int]));
                            }
                        }
                        return Err(at_index(err, i));
                    },
                }
                i = i + 1;
            }
            Ok(out)
        },
        _ => Err(fail(ErrorKind::TypeMismatch)),
    }
}

pub fn decode_related(j: &Json) -> (r: Result<EdtrArticleRelatedContent, DecodeError>)
    ensures
        r matches Ok(x) ==> related_accepts(x, *j),
        r is Err ==> forall|x: EdtrArticleRelatedContent| !related_accepts(x, *j),
{
    let e = object_with(j, &related_names())?;
    let articles = match decode_references(field(e, "articles")?) {
        Ok(v) => v,
        Err(err) => {
            return Err(in_field(err, "articles"));
        },
    };
    let courses = match decode_references(field(e, "courses")?) {
        Ok(v) => v,
        Err(err) => {
            return Err(in_field(err, "courses"));
        },
    };
    let videos = match decode_references(field(e, "videos")?) {
        Ok(v) => v,
        Err(err) => {
            return Err(in_field(err, "videos"));
        },
    };
    Ok(EdtrArticleRelatedContent { articles, courses, videos })
}


/// Decodes one text fragment. Its shape is chosen by its fields: with `type`
/// it is markup, else with `text` a plain run, else with no field at all the
/// empty marker; anything else is ambiguous.
pub fn decode_text(j: &Json, rev: SchemaRevision, depth: usize) -> (r: Result<EdtrText, DecodeError>)
    ensures
        (r matches Err(x) && x.kind != ErrorKind::DepthExceeded) ==> forall|t: EdtrText| !text_accepts(t, *j, rev),
        r matches Ok(f) ==> text_accepts(f, *j, rev) && text_fits(f, depth as nat),
        r is Err ==> forall|f: EdtrText| text_accepts(f, *j, rev) ==> !text_fits(f, depth as nat),
    decreases depth, 0nat,
{
    if depth == 0 {
        return Err(fail(ErrorKind::DepthExceeded));
    }
    match j {
        Json::Object(e) => {
            match find_key(e, "type") {
                Some(ti) => match decode_markup(e, rev, depth - 1) {
                    Ok(m) => Ok(EdtrText::NestedText(m)),
                    Err(err) => {
                        assert forall|f: EdtrText| text_accepts(f, *j, rev) implies !text_fits(
                            f,
                            depth as nat,
                        ) by {
                            assert(e@[ti as int].0@ == "type"@);
                            match f {
                                EdtrText::NestedText(m) => {
                                    assert(text_fits(f, depth as nat) == markup_fits(m, (depth - 1) as nat));
                                    assert(markup_accepts(m, e@, rev));
                                },
                                _ => {},
                            }
                        }
                        if err.kind != ErrorKind::DepthExceeded {
                            assert forall|f: EdtrText| !text_accepts(f, *j, rev) by {
                                if text_accepts(f, *j, rev) {
                                assert(e@[ti as int].0@ == "type"@);
                                match f {
                                    EdtrText::NestedText(m) => {
                                        assert(text_fits(f, depth as nat) == markup_fits(m, (depth - 1) as nat));
                                        assert(markup_accepts(m, e@, rev));
                                    },
                                    _ => {},
                                }
                                }
                            }
                        }
                        Err(err)
                    },
                },
                None => match find_key(e, "text") {
                    Some(_) => {
                        let names = run_names(rev);
                        match check_shape(e, &names) {
                            Ok(()) => {},
                            Err(i) => {
                                return Err(in_field(fail(ErrorKind::UnexpectedField), e[i].0.as_str()));
                            },
                        }
                        let text = str_field(e, "text")?;
                        let strong = flag_field(e, "strong")?;
                        let em = flag_field(e, "em")?;
                        let code = if rev == SchemaRevision::V2 {
                            flag_field(e, "code")?
                        } else {
                            false
                        };
                        Ok(EdtrText::SimpleText { text, strong, em, code })
                    },
                    None => {
                        if e.len() == 0 {
                            Ok(EdtrText::Empty {  })
                        } else {
                            Err(fail(ErrorKind::AmbiguousTextFragment))
                        }
                    },
                },
            }
        },
        _ => Err(fail(ErrorKind::TypeMismatch)),
    }
}

pub fn decode_texts(j: &Json, rev: SchemaRevision, depth: usize) -> (r: Result<Vec<EdtrText>, DecodeError>)
    ensures
        (r matches Err(x) && x.kind != ErrorKind::DepthExceeded) ==> forall|t: Vec<EdtrText>| !texts_accept(t, *j, rev),
        r matches Ok(v) ==> texts_accept(v, *j, rev) && texts_fit(v, depth as nat),
        r is Err ==> forall|v: Vec<EdtrText>| texts_accept(v, *j, rev) ==> !texts_fit(v, depth as nat),
    decreases depth, 1nat,
{
    match j {
        Json::Array(items) => {
            let mut out: Vec<EdtrText> = Vec::new();
            let mut i: usize = 0;
            while i < items.len()
                invariant
                    *j == Json::Array(*items),
                    i <= items@.len(),
                    out@.len() == i,
                    forall|k: int|
                        0 <= k < i ==> text_accepts(#[trigger] out@[k], items@[k], rev) && text_fits(
                            out@[k],
                            depth as nat,
                        ),
                decreases items@.len() - i,
            {
                match decode_text(&items[i], rev, depth) {
                    Ok(x) => out.push(x),
                    Err(err) => {
                        assert forall|v: Vec<EdtrText>|
                            texts_accept(v, *j, rev) implies !texts_fit(v, depth as nat) by {
                            assert(text_accepts(v@[i as int], items@[i as int], rev));
                            if texts_fit(v, depth as nat) {
                                assert(text_fits(v@[i as int], depth as nat));
                            }
                        }
                        if err.kind != ErrorKind::DepthExceeded {
                            assert forall|v: Vec<EdtrText>| !texts_accept(v, *j, rev) by {
                                if texts_accept(v, *j, rev) {
                                    assert(text_accepts(v@[i as int], items@[i as int], rev));
                                }
                            }
                        }
                        return Err(at_index(err, i));
                    },
                }
                i = i + 1;
            }
            Ok(out)
        },
        _ => Err(fail(ErrorKind::TypeMismatch)),
    }
}

/// When the `children` value `c` of `e` holds no children that fit depth
/// `d`, no markup element that `e` encodes fits it.
pub proof fn lemma_children_reject(e: Seq<(String, Json)>, rev: SchemaRevision, d: nat)
    requires
        forall|v: Vec<EdtrText>| texts_accept(v, get(e, "children"@), rev) ==> !texts_fit(v, d),
    ensures
        forall|m: EdtrMarkupText| markup_accepts(m, e, rev) ==> !markup_fits(m, d),
{
    let c = get(e, "children"@);
    assert forall|m: EdtrMarkupText| markup_accepts(m, e, rev) implies !markup_fits(m, d) by {
        if markup_fits(m, d) {
            match m {
                EdtrMarkupText::Paragraph { children } => {
                    assert(markup_fits(m, d) == texts_fit(children, d));
                    assert(texts_accept(children, c, rev));
                },
                EdtrMarkupText::Hyperlink { children, .. } => {
                    assert(markup_fits(m, d) == texts_fit(children, d));
                    assert(texts_accept(children, c, rev));
                },
                EdtrMarkupText::UnorderedList { children } => {
                    assert(markup_fits(m, d) == texts_fit(children, d));
                    assert(texts_accept(children, c, rev));
                },
                EdtrMarkupText::OrderedList { children } => {
                    assert(markup_fits(m, d) == texts_fit(children, d));
                    assert(texts_accept(children, c, rev));
                },
                EdtrMarkupText::ListItem { children } => {
                    assert(markup_fits(m, d) == texts_fit(children, d));
                    assert(texts_accept(children, c, rev));
                },
                EdtrMarkupText::ListItemChild { children } => {
                    assert(markup_fits(m, d) == texts_fit(children, d));
                    assert(texts_accept(children, c, rev));
                },
                EdtrMarkupText::Heading { children, .. } => {
                    assert(markup_fits(m, d) == texts_fit(children, d));
                    assert(texts_accept(children, c, rev));
                },
                EdtrMarkupText::Math { children, .. } => {
                    assert(markup_fits(m, d) == texts_fit(children, d));
                    assert(texts_accept(children, c, rev));
                },
            }
        }
    }
}

/// When the `children` value of `e` encodes no children, `e` encodes no
/// markup element.
pub proof fn lemma_children_refused(e: Seq<(String, Json)>, rev: SchemaRevision)
    requires
        forall|v: Vec<EdtrText>| !texts_accept(v, get(e, "children"@), rev),
    ensures
        forall|m: EdtrMarkupText| !markup_accepts(m, e, rev),
{
    let c = get(e, "children"@);
    assert forall|m: EdtrMarkupText| !markup_accepts(m, e, rev) by {
        if markup_accepts(m, e, rev) {
            match m {
                EdtrMarkupText::Paragraph { children } => assert(texts_accept(children, c, rev)),
                EdtrMarkupText::Hyperlink { children, .. } => assert(texts_accept(children, c, rev)),
                EdtrMarkupText::UnorderedList { children } => assert(texts_accept(children, c, rev)),
                EdtrMarkupText::OrderedList { children } => assert(texts_accept(children, c, rev)),
                EdtrMarkupText::ListItem { children } => assert(texts_accept(children, c, rev)),
                EdtrMarkupText::ListItemChild { children } => assert(texts_accept(children, c, rev)),
                EdtrMarkupText::Heading { children, .. } => assert(texts_accept(children, c, rev)),
                EdtrMarkupText::Math { children, .. } => assert(texts_accept(children, c, rev)),
            }
        }
    }
}

/// Decodes the entries of an object that carries a `type` field as a markup
/// element.
pub fn decode_markup(e: &Vec<(String, Json)>, rev: SchemaRevision, depth: usize) -> (r: Result<
    EdtrMarkupText,
    DecodeError,
>)
    ensures
        (r matches Err(x) && x.kind != ErrorKind::DepthExceeded) ==> forall|t: EdtrMarkupText| !markup_accepts(t, e@, rev),
        r matches Ok(m) ==> markup_accepts(m, e@, rev) && markup_fits(m, depth as nat),
        r is Err ==> forall|m: EdtrMarkupText|
            markup_accepts(m, e@, rev) ==> !markup_fits(m, depth as nat),
    decreases depth, 2nat,
{
    // Distinct keys first, so that looking up `type` is well defined; the
    // exact field set depends on the tag.
    match check_shape(e, &any_markup_names()) {
        Ok(()) => {},
        Err(i) => {
            return Err(in_field(fail(ErrorKind::UnexpectedField), e[i].0.as_str()));
        },
    }
    let tag = str_field(e, "type")?;
    let kind = match markup_kind_named(&tag) {
        Some(k) => k,
        None => {
            return Err(in_field(fail(ErrorKind::UnknownDiscriminant), "type"));
        },
    };
    if kind == MarkupKind::OrderedList && rev == SchemaRevision::V1 {
        return Err(in_field(fail(ErrorKind::UnknownDiscriminant), "type"));
    }
    match check_shape(e, &markup_names(kind)) {
        Ok(()) => {},
        Err(i) => {
            return Err(in_field(fail(ErrorKind::UnexpectedField), e[i].0.as_str()));
        },
    }
    let cj = field(e, "children")?;
    let children = match decode_texts(cj, rev, depth) {
        Ok(v) => v,
        Err(err) => {
            proof {
                lemma_children_reject(e@, rev, depth as nat);
                if err.kind != ErrorKind::DepthExceeded {
                    lemma_children_refused(e@, rev);
                }
            }
            return Err(in_field(err, "children"));
        },
    };
    match kind {
        MarkupKind::Paragraph => Ok(EdtrMarkupText::Paragraph { children }),
        MarkupKind::Hyperlink => {
            let href = str_field(e, "href")?;
            Ok(EdtrMarkupText::Hyperlink { href, children })
        },
        MarkupKind::UnorderedList => Ok(EdtrMarkupText::UnorderedList { children }),
        MarkupKind::OrderedList => Ok(EdtrMarkupText::OrderedList { children }),
        MarkupKind::ListItem => Ok(EdtrMarkupText::ListItem { children }),
        MarkupKind::ListItemChild => Ok(EdtrMarkupText::ListItemChild { children }),
        MarkupKind::Heading => {
            let level = size_field(e, "level")?;
            Ok(EdtrMarkupText::Heading { level, children })
        },
        MarkupKind::Math => {
            let src = str_field(e, "src")?;
            let inline = bool_field(e, "inline")?;
            Ok(EdtrMarkupText::Math { src, inline, children })
        },
    }
}


/// No payload that `s` encodes for a plugin of kind `k` fits depth `d`. For
/// the plugins whose payload is a string, `s` is no string.
pub open spec fn payload_rejects(k: PluginKind, s: Json, rev: SchemaRevision, d: nat) -> bool {
    match k {
        PluginKind::Article => forall|x: EdtrArticle| article_accepts(x, s, rev) ==> !article_fits(x, d),
        PluginKind::ArticleIntroduction => forall|x: EdtrArticleIntroduction| intro_accepts(x, s, rev) ==> !(plugin_fits(*x.explanation, d) && plugin_fits(*x.multimedia, d)),
        PluginKind::Text => forall|x: Vec<EdtrText>| texts_accept(x, s, rev) ==> !texts_fit(x, d),
        PluginKind::Image => forall|x: EdtrImage| image_accepts(x, s, rev) ==> !plugin_fits(*x.caption, d),
        PluginKind::Rows => forall|x: Vec<EdtrPlugin>| plugins_accept(x, s, rev) ==> !plugins_fit(x, d),
        PluginKind::Multimedia => forall|x: EdtrMultimedia| multimedia_accepts(x, s, rev) ==> !(plugin_fits(*x.explanation, d) && plugin_fits(*x.multimedia, d)),
        PluginKind::Spoiler => forall|x: EdtrSpoiler| spoiler_accepts(x, s, rev) ==> !plugin_fits(*x.content, d),
        PluginKind::Box => forall|x: EdtrBox| box_accepts(x, s, rev) ==> !(plugin_fits(*x.title, d) && plugin_fits(*x.content, d)),
        _ => !(s is Str),
    }
}

/// `s` encodes no payload for a plugin of kind `k`.
pub open spec fn payload_refused(k: PluginKind, s: Json, rev: SchemaRevision) -> bool {
    match k {
        PluginKind::Article => forall|x: EdtrArticle| !article_accepts(x, s, rev),
        PluginKind::ArticleIntroduction => forall|x: EdtrArticleIntroduction| !intro_accepts(x, s, rev),
        PluginKind::Text => forall|x: Vec<EdtrText>| !texts_accept(x, s, rev),
        PluginKind::Image => forall|x: EdtrImage| !image_accepts(x, s, rev),
        PluginKind::Rows => forall|x: Vec<EdtrPlugin>| !plugins_accept(x, s, rev),
        PluginKind::Multimedia => forall|x: EdtrMultimedia| !multimedia_accepts(x, s, rev),
        PluginKind::Spoiler => forall|x: EdtrSpoiler| !spoiler_accepts(x, s, rev),
        PluginKind::Box => forall|x: EdtrBox| !box_accepts(x, s, rev),
        _ => !(s is Str),
    }
}

/// An envelope naming `k` whose payload fits no tree rejects every plugin.
pub proof fn lemma_payload_rejects(j: Json, rev: SchemaRevision, d: nat, k: PluginKind)
    requires
        j is Object,
        get(j->Object_0@, "plugin"@) is Str,
        plugin_named(get(j->Object_0@, "plugin"@)->Str_0@) == Some(k),
        d > 0,
        payload_rejects(k, get(j->Object_0@, "state"@), rev, (d - 1) as nat),
    ensures
        forall|t: EdtrPlugin| plugin_accepts(t, j, rev) ==> !plugin_fits(t, d),
{
    let s = get(j->Object_0@, "state"@);
    assert forall|t: EdtrPlugin| plugin_accepts(t, j, rev) implies !plugin_fits(t, d) by {
        match t {
            EdtrPlugin::Article(x) => {
                assert(article_accepts(x, s, rev));
                assert(plugin_fits(t, d) == (d > 0 && article_fits(x, (d - 1) as nat)));
            },
            EdtrPlugin::ArticleIntroduction(x) => {
                assert(intro_accepts(x, s, rev));
                assert(plugin_fits(t, d) == (d > 0 && plugin_fits(*x.explanation, (d - 1) as nat) && plugin_fits(*x.multimedia, (d - 1) as nat)));
            },
            EdtrPlugin::Text(x) => {
                assert(texts_accept(x, s, rev));
                assert(plugin_fits(t, d) == (d > 0 && texts_fit(x, (d - 1) as nat)));
            },
            EdtrPlugin::Image(x) => {
                assert(image_accepts(x, s, rev));
                assert(plugin_fits(t, d) == (d > 0 && plugin_fits(*x.caption, (d - 1) as nat)));
            },
            EdtrPlugin::Rows(x) => {
                assert(plugins_accept(x, s, rev));
                assert(plugin_fits(t, d) == (d > 0 && plugins_fit(x, (d - 1) as nat)));
            },
            EdtrPlugin::Multimedia(x) => {
                assert(multimedia_accepts(x, s, rev));
                assert(plugin_fits(t, d) == (d > 0 && plugin_fits(*x.explanation, (d - 1) as nat) && plugin_fits(*x.multimedia, (d - 1) as nat)));
            },
            EdtrPlugin::Spoiler(x) => {
                assert(spoiler_accepts(x, s, rev));
                assert(plugin_fits(t, d) == (d > 0 && plugin_fits(*x.content, (d - 1) as nat)));
            },
            EdtrPlugin::Box(x) => {
                assert(box_accepts(x, s, rev));
                assert(plugin_fits(t, d) == (d > 0 && plugin_fits(*x.title, (d - 1) as nat) && plugin_fits(*x.content, (d - 1) as nat)));
            },
            _ => {},
        }
    }
}

/// An envelope naming `k` whose payload encodes nothing encodes no plugin.
pub proof fn lemma_payload_refused(j: Json, rev: SchemaRevision, k: PluginKind)
    requires
        j is Object,
        get(j->Object_0@, "plugin"@) is Str,
        plugin_named(get(j->Object_0@, "plugin"@)->Str_0@) == Some(k),
        payload_refused(k, get(j->Object_0@, "state"@), rev),
    ensures
        forall|t: EdtrPlugin| !plugin_accepts(t, j, rev),
{
    let s = get(j->Object_0@, "state"@);
    assert forall|t: EdtrPlugin| !plugin_accepts(t, j, rev) by {
        if plugin_accepts(t, j, rev) {
            match t {
                EdtrPlugin::Article(x) => assert(article_accepts(x, s, rev)),
                EdtrPlugin::ArticleIntroduction(x) => assert(intro_accepts(x, s, rev)),
                EdtrPlugin::Text(x) => assert(texts_accept(x, s, rev)),
                EdtrPlugin::Image(x) => assert(image_accepts(x, s, rev)),
                EdtrPlugin::Rows(x) => assert(plugins_accept(x, s, rev)),
                EdtrPlugin::Multimedia(x) => assert(multimedia_accepts(x, s, rev)),
                EdtrPlugin::Spoiler(x) => assert(spoiler_accepts(x, s, rev)),
                EdtrPlugin::Box(x) => assert(box_accepts(x, s, rev)),
                _ => {},
            }
        }
    }
}

/// Decodes one plugin: an object with the plugin's name under `plugin` and
/// its payload under `state`.
#[verifier::rlimit(60)]
pub fn decode_plugin(j: &Json, rev: SchemaRevision, depth: usize) -> (r: Result<EdtrPlugin, DecodeError>)
    ensures
        (r matches Err(x) && x.kind != ErrorKind::DepthExceeded) ==> forall|t: EdtrPlugin| !plugin_accepts(t, *j, rev),
        r matches Ok(t) ==> plugin_accepts(t, *j, rev) && plugin_fits(t, depth as nat),
        r is Err ==> forall|t: EdtrPlugin| plugin_accepts(t, *j, rev) ==> !plugin_fits(t, depth as nat),
        depth > 0 && envelope_has_extra_field(*j) ==> (r matches Err(x) && x.kind
            == ErrorKind::UnexpectedField),
        depth > 0 && envelope_unknown(*j, rev) ==> (r matches Err(x) && x.kind
            == ErrorKind::UnknownDiscriminant),
        depth > 0 && payload_has_extra_field(*j, rev) ==> (r matches Err(x) && x.kind
            == ErrorKind::UnexpectedField),
        depth == 0 ==> (r matches Err(x) && x.kind == ErrorKind::DepthExceeded),
    decreases depth, 0nat,
{
    if depth == 0 {
        return Err(fail(ErrorKind::DepthExceeded));
    }
    let e = object_with(j, &plugin_names())?;
    let name = str_field(e, "plugin")?;
    let kind = match plugin_kind_named(&name) {
        Some(k) => k,
        None => {
            return Err(in_field(fail(ErrorKind::UnknownDiscriminant), "plugin"));
        },
    };
    if kind == PluginKind::Box && rev == SchemaRevision::V1 {
        return Err(in_field(fail(ErrorKind::UnknownDiscriminant), "plugin"));
    }
    let state = field(e, "state")?;
    match kind {
        PluginKind::Article => match decode_article(state, rev, depth - 1) {
            Ok(x) => Ok(EdtrPlugin::Article(x)),
            Err(err) => {
                proof {
                    lemma_payload_rejects(*j, rev, depth as nat, kind);
                    if err.kind != ErrorKind::DepthExceeded {
                        lemma_payload_refused(*j, rev, kind);
                    }
                }
                Err(in_field(err, "state"))
            },
        },
        PluginKind::ArticleIntroduction => match decode_intro(state, rev, depth - 1) {
            Ok(x) => Ok(EdtrPlugin::ArticleIntroduction(x)),
            Err(err) => {
                proof {
                    lemma_payload_rejects(*j, rev, depth as nat, kind);
                    if err.kind != ErrorKind::DepthExceeded {
                        lemma_payload_refused(*j, rev, kind);
                    }
                }
                Err(in_field(err, "state"))
            },
        },
        PluginKind::Text => match decode_texts(state, rev, depth - 1) {
            Ok(x) => Ok(EdtrPlugin::Text(x)),
            Err(err) => {
                proof {
                    lemma_payload_rejects(*j, rev, depth as nat, kind);
                    if err.kind != ErrorKind::DepthExceeded {
                        lemma_payload_refused(*j, rev, kind);
                    }
                }
                Err(in_field(err, "state"))
            },
        },
        PluginKind::Image => match decode_image(state, rev, depth - 1) {
            Ok(x) => Ok(EdtrPlugin::Image(x)),
            Err(err) => {
                proof {
                    lemma_payload_rejects(*j, rev, depth as nat, kind);
                    if err.kind != ErrorKind::DepthExceeded {
                        lemma_payload_refused(*j, rev, kind);
                    }
                }
                Err(in_field(err, "state"))
            },
        },
        PluginKind::Rows => match decode_plugins(state, rev, depth - 1) {
            Ok(x) => Ok(EdtrPlugin::Rows(x)),
            Err(err) => {
                proof {
                    lemma_payload_rejects(*j, rev, depth as nat, kind);
                    if err.kind != ErrorKind::DepthExceeded {
                        lemma_payload_refused(*j, rev, kind);
                    }
                }
                Err(in_field(err, "state"))
            },
        },
        PluginKind::Multimedia => match decode_multimedia(state, rev, depth - 1) {
            Ok(x) => Ok(EdtrPlugin::Multimedia(x)),
            Err(err) => {
                proof {
                    lemma_payload_rejects(*j, rev, depth as nat, kind);
                    if err.kind != ErrorKind::DepthExceeded {
                        lemma_payload_refused(*j, rev, kind);
                    }
                }
                Err(in_field(err, "state"))
            },
        },
        PluginKind::Spoiler => match decode_spoiler(state, rev, depth - 1) {
            Ok(x) => Ok(EdtrPlugin::Spoiler(x)),
            Err(err) => {
                proof {
                    lemma_payload_rejects(*j, rev, depth as nat, kind);
                    if err.kind != ErrorKind::DepthExceeded {
                        lemma_payload_refused(*j, rev, kind);
                    }
                }
                Err(in_field(err, "state"))
            },
        },
        PluginKind::Box => match decode_box(state, rev, depth - 1) {
            Ok(x) => Ok(EdtrPlugin::Box(x)),
            Err(err) => {
                proof {
                    lemma_payload_rejects(*j, rev, depth as nat, kind);
                    if err.kind != ErrorKind::DepthExceeded {
                        lemma_payload_refused(*j, rev, kind);
                    }
                }
                Err(in_field(err, "state"))
            },
        },
        PluginKind::Table => match read_str(state) {
            Ok(x) => Ok(EdtrPlugin::Table(x)),
            Err(err) => {
                proof {
                    lemma_payload_rejects(*j, rev, depth as nat, kind);
                    if err.kind != ErrorKind::DepthExceeded {
                        lemma_payload_refused(*j, rev, kind);
                    }
                }
                Err(in_field(err, "state"))
            },
        },
        PluginKind::Injection => match read_str(state) {
            Ok(x) => Ok(EdtrPlugin::Injection(x)),
            Err(err) => {
                proof {
                    lemma_payload_rejects(*j, rev, depth as nat, kind);
                    if err.kind != ErrorKind::DepthExceeded {
                        lemma_payload_refused(*j, rev, kind);
                    }
                }
                Err(in_field(err, "state"))
            },
        },
    }
}

pub fn decode_plugins(j: &Json, rev: SchemaRevision, depth: usize) -> (r: Result<Vec<EdtrPlugin>, DecodeError>)
    ensures
        (r matches Err(x) && x.kind != ErrorKind::DepthExceeded) ==> forall|t: Vec<EdtrPlugin>| !plugins_accept(t, *j, rev),
        r matches Ok(v) ==> plugins_accept(v, *j, rev) && plugins_fit(v, depth as nat),
        r is Err ==> forall|v: Vec<EdtrPlugin>| plugins_accept(v, *j, rev) ==> !plugins_fit(v, depth as nat),
    decreases depth, 1nat,
{
    match j {
        Json::Array(items) => {
            let mut out: Vec<EdtrPlugin> = Vec::new();
            let mut i: usize = 0;
            while i < items.len()
                invariant
                    *j == Json::Array(*items),
                    i <= items@.len(),
                    out@.len() == i,
                    forall|k: int|
                        0 <= k < i ==> plugin_accepts(#[trigger] out@[k], items@[k], rev) && plugin_fits(
                            out@[k],
                            depth as nat,
                        ),
                decreases items@.len() - i,
            {
                match decode_plugin(&items[i], rev, depth) {
                    Ok(x) => out.push(x),
                    Err(err) => {
                        assert forall|v: Vec<EdtrPlugin>|
                            plugins_accept(v, *j, rev) implies !plugins_fit(v, depth as nat) by {
                            assert(plugin_accepts(v@[i as int], items@[i as int], rev));
                            if plugins_fit(v, depth as nat) {
                                assert(plugin_fits(v@[i as int], depth as nat));
                            }
                        }
                        if err.kind != ErrorKind::DepthExceeded {
                            assert forall|v: Vec<EdtrPlugin>| !plugins_accept(v, *j, rev) by {
                                if plugins_accept(v, *j, rev) {
                                    assert(plugin_accepts(v@[i as int], items@[i as int], rev));
                                }
                            }
                        }
                        return Err(at_index(err, i));
                    },
                }
                i = i + 1;
            }
            Ok(out)
        },
        _ => Err(fail(ErrorKind::TypeMismatch)),
    }
}

pub fn decode_article(j: &Json, rev: SchemaRevision, depth: usize) -> (r: Result<EdtrArticle, DecodeError>)
    ensures
        (r matches Err(x) && x.kind != ErrorKind::DepthExceeded) ==> forall|t: EdtrArticle| !article_accepts(t, *j, rev),
        r matches Ok(a) ==> article_accepts(a, *j, rev) && article_fits(a, depth as nat),
        r is Err ==> forall|a: EdtrArticle| article_accepts(a, *j, rev) ==> !article_fits(a, depth as nat),
        (j is Object && !shape_ok(j->Object_0@, article_keys())) ==> (r matches Err(x) && x.kind
            == ErrorKind::UnexpectedField),
    decreases depth, 2nat,
{
    let e = object_with(j, &article_names())?;
    let introduction = match decode_plugin(field(e, "introduction")?, rev, depth) {
        Ok(x) => x,
        Err(err) => {
            assert forall|x: EdtrArticle| article_accepts(x, *j, rev) implies !article_fits(x, depth as nat) by {
                assert(article_fits(x, depth as nat) == (plugin_fits(*x.introduction, depth as nat)
                    && plugin_fits(*x.content, depth as nat) && plugins_fit(x.exercises, depth as nat)));
                assert(plugin_accepts(*x.introduction, get(e@, "introduction"@), rev));
            }
            if err.kind != ErrorKind::DepthExceeded {
                assert forall|x: EdtrArticle| !article_accepts(x, *j, rev) by {
                    if article_accepts(x, *j, rev) {
                    assert(article_fits(x, depth as nat) == (plugin_fits(*x.introduction, depth as nat)
                        && plugin_fits(*x.content, depth as nat) && plugins_fit(x.exercises, depth as nat)));
                    assert(plugin_accepts(*x.introduction, get(e@, "introduction"@), rev));
                    }
                }
            }
            return Err(in_field(err, "introduction"));
        },
    };
    let content = match decode_plugin(field(e, "content")?, rev, depth) {
        Ok(x) => x,
        Err(err) => {
            assert forall|x: EdtrArticle| article_accepts(x, *j, rev) implies !article_fits(x, depth as nat) by {
                assert(article_fits(x, depth as nat) == (plugin_fits(*x.introduction, depth as nat)
                    && plugin_fits(*x.content, depth as nat) && plugins_fit(x.exercises, depth as nat)));
                assert(plugin_accepts(*x.content, get(e@, "content"@), rev));
            }
            if err.kind != ErrorKind::DepthExceeded {
                assert forall|x: EdtrArticle| !article_accepts(x, *j, rev) by {
                    if article_accepts(x, *j, rev) {
                    assert(article_fits(x, depth as nat) == (plugin_fits(*x.introduction, depth as nat)
                        && plugin_fits(*x.content, depth as nat) && plugins_fit(x.exercises, depth as nat)));
                    assert(plugin_accepts(*x.content, get(e@, "content"@), rev));
                    }
                }
            }
            return Err(in_field(err, "content"));
        },
    };
    let exercises = match decode_plugins(field(e, "exercises")?, rev, depth) {
        Ok(x) => x,
        Err(err) => {
            assert forall|x: EdtrArticle| article_accepts(x, *j, rev) implies !article_fits(x, depth as nat) by {
                assert(article_fits(x, depth as nat) == (plugin_fits(*x.introduction, depth as nat)
                    && plugin_fits(*x.content, depth as nat) && plugins_fit(x.exercises, depth as nat)));
                assert(plugins_accept(x.exercises, get(e@, "exercises"@), rev));
            }
            if err.kind != ErrorKind::DepthExceeded {
                assert forall|x: EdtrArticle| !article_accepts(x, *j, rev) by {
                    if article_accepts(x, *j, rev) {
                    assert(article_fits(x, depth as nat) == (plugin_fits(*x.introduction, depth as nat)
                        && plugin_fits(*x.content, depth as nat) && plugins_fit(x.exercises, depth as nat)));
                    assert(plugins_accept(x.exercises, get(e@, "exercises"@), rev));
                    }
                }
            }
            return Err(in_field(err, "exercises"));
        },
    };
    let exercise_folder = match decode_reference(field(e, "exerciseFolder")?) {
        Ok(x) => x,
        Err(err) => {
            return Err(in_field(err, "exerciseFolder"));
        },
    };
    let related_content = match decode_related(field(e, "relatedContent")?) {
        Ok(x) => x,
        Err(err) => {
            return Err(in_field(err, "relatedContent"));
        },
    };
    let sources = match decode_sources(field(e, "sources")?) {
        Ok(x) => x,
        Err(err) => {
            return Err(in_field(err, "sources"));
        },
    };
    Ok(
        EdtrArticle {
            introduction: Box::new(introduction),
            content: Box::new(content),
            exercises,
            exercise_folder,
            related_content,
            sources,
        },
    )
}

pub fn decode_intro(j: &Json, rev: SchemaRevision, depth: usize) -> (r: Result<EdtrArticleIntroduction, DecodeError>)
    ensures
        (r matches Err(x) && x.kind != ErrorKind::DepthExceeded) ==> forall|t: EdtrArticleIntroduction| !intro_accepts(t, *j, rev),
        r matches Ok(x) ==> intro_accepts(x, *j, rev) && plugin_fits(*x.explanation, depth as nat)
            && plugin_fits(*x.multimedia, depth as nat),
        r is Err ==> forall|x: EdtrArticleIntroduction| intro_accepts(x, *j, rev) ==> !(plugin_fits(
            *x.explanation,
            depth as nat,
        ) && plugin_fits(*x.multimedia, depth as nat)),
        (j is Object && !shape_ok(j->Object_0@, intro_keys())) ==> (r matches Err(x) && x.kind
            == ErrorKind::UnexpectedField),
    decreases depth, 2nat,
{
    let e = object_with(j, &intro_names())?;
    let explanation = match decode_plugin(field(e, "explanation")?, rev, depth) {
        Ok(x) => x,
        Err(err) => {
            assert forall|x: EdtrArticleIntroduction| intro_accepts(x, *j, rev) implies !(plugin_fits(*x.explanation, depth as nat) && plugin_fits(*x.multimedia, depth as nat)) by {
                assert(plugin_accepts(*x.explanation, get(e@, "explanation"@), rev));
            }
            if err.kind != ErrorKind::DepthExceeded {
                assert forall|x: EdtrArticleIntroduction| !intro_accepts(x, *j, rev) by {
                    if intro_accepts(x, *j, rev) {
                    assert(plugin_accepts(*x.explanation, get(e@, "explanation"@), rev));
                    }
                }
            }
            return Err(in_field(err, "explanation"));
        },
    };
    let multimedia = match decode_plugin(field(e, "multimedia")?, rev, depth) {
        Ok(x) => x,
        Err(err) => {
            assert forall|x: EdtrArticleIntroduction| intro_accepts(x, *j, rev) implies !(plugin_fits(*x.explanation, depth as nat) && plugin_fits(*x.multimedia, depth as nat)) by {
                assert(plugin_accepts(*x.multimedia, get(e@, "multimedia"@), rev));
            }
            if err.kind != ErrorKind::DepthExceeded {
                assert forall|x: EdtrArticleIntroduction| !intro_accepts(x, *j, rev) by {
                    if intro_accepts(x, *j, rev) {
                    assert(plugin_accepts(*x.multimedia, get(e@, "multimedia"@), rev));
                    }
                }
            }
            return Err(in_field(err, "multimedia"));
        },
    };
    let illustrating = bool_field(e, "illustrating")?;
    let width = size_field(e, "width")?;
    Ok(
        EdtrArticleIntroduction {
            explanation: Box::new(explanation),
            multimedia: Box::new(multimedia),
            illustrating,
            width,
        },
    )
}

pub fn decode_multimedia(j: &Json, rev: SchemaRevision, depth: usize) -> (r: Result<EdtrMultimedia, DecodeError>)
    ensures
        (r matches Err(x) && x.kind != ErrorKind::DepthExceeded) ==> forall|t: EdtrMultimedia| !multimedia_accepts(t, *j, rev),
        r matches Ok(x) ==> multimedia_accepts(x, *j, rev) && plugin_fits(*x.explanation, depth as nat)
            && plugin_fits(*x.multimedia, depth as nat),
        r is Err ==> forall|x: EdtrMultimedia| multimedia_accepts(x, *j, rev) ==> !(plugin_fits(
            *x.explanation,
            depth as nat,
        ) && plugin_fits(*x.multimedia, depth as nat)),
        (j is Object && !shape_ok(j->Object_0@, intro_keys())) ==> (r matches Err(x) && x.kind
            == ErrorKind::UnexpectedField),
    decreases depth, 2nat,
{
    let e = object_with(j, &intro_names())?;
    let explanation = match decode_plugin(field(e, "explanation")?, rev, depth) {
        Ok(x) => x,
        Err(err) => {
            assert forall|x: EdtrMultimedia| multimedia_accepts(x, *j, rev) implies !(plugin_fits(*x.explanation, depth as nat) && plugin_fits(*x.multimedia, depth as nat)) by {
                assert(plugin_accepts(*x.explanation, get(e@, "explanation"@), rev));
            }
            if err.kind != ErrorKind::DepthExceeded {
                assert forall|x: EdtrMultimedia| !multimedia_accepts(x, *j, rev) by {
                    if multimedia_accepts(x, *j, rev) {
                    assert(plugin_accepts(*x.explanation, get(e@, "explanation"@), rev));
                    }
                }
            }
            return Err(in_field(err, "explanation"));
        },
    };
    let multimedia = match decode_plugin(field(e, "multimedia")?, rev, depth) {
        Ok(x) => x,
        Err(err) => {
            assert forall|x: EdtrMultimedia| multimedia_accepts(x, *j, rev) implies !(plugin_fits(*x.explanation, depth as nat) && plugin_fits(*x.multimedia, depth as nat)) by {
                assert(plugin_accepts(*x.multimedia, get(e@, "multimedia"@), rev));
            }
            if err.kind != ErrorKind::DepthExceeded {
                assert forall|x: EdtrMultimedia| !multimedia_accepts(x, *j, rev) by {
                    if multimedia_accepts(x, *j, rev) {
                    assert(plugin_accepts(*x.multimedia, get(e@, "multimedia"@), rev));
                    }
                }
            }
            return Err(in_field(err, "multimedia"));
        },
    };
    let illustrating = bool_field(e, "illustrating")?;
    let width = size_field(e, "width")?;
    Ok(
        EdtrMultimedia {
            explanation: Box::new(explanation),
            multimedia: Box::new(multimedia),
            illustrating,
            width,
        },
    )
}

pub fn decode_image(j: &Json, rev: SchemaRevision, depth: usize) -> (r: Result<EdtrImage, DecodeError>)
    ensures
        (r matches Err(x) && x.kind != ErrorKind::DepthExceeded) ==> forall|t: EdtrImage| !image_accepts(t, *j, rev),
        r matches Ok(x) ==> image_accepts(x, *j, rev) && plugin_fits(*x.caption, depth as nat),
        r is Err ==> forall|x: EdtrImage| image_accepts(x, *j, rev) ==> !plugin_fits(*x.caption, depth as nat),
        (j is Object && !shape_ok(j->Object_0@, image_keys())) ==> (r matches Err(x) && x.kind
            == ErrorKind::UnexpectedField),
    decreases depth, 2nat,
{
    let e = object_with(j, &image_names())?;
    let src = str_field(e, "src")?;
    let alt = match find_key(e, "alt") {
        Some(i) => {
            proof {
                lemma_get(e@, "alt"@, i as int);
            }
            match &e[i].1 {
                Json::Null => None,
                Json::Str(s) => Some(s.clone()),
                _ => {
                    return Err(in_field(fail(ErrorKind::TypeMismatch), "alt"));
                },
            }
        },
        None => None,
    };
    let caption = match decode_plugin(field(e, "caption")?, rev, depth) {
        Ok(x) => x,
        Err(err) => {
            assert forall|x: EdtrImage| image_accepts(x, *j, rev) implies !plugin_fits(*x.caption, depth as nat) by {
                assert(plugin_accepts(*x.caption, get(e@, "caption"@), rev));
            }
            if err.kind != ErrorKind::DepthExceeded {
                assert forall|x: EdtrImage| !image_accepts(x, *j, rev) by {
                    if image_accepts(x, *j, rev) {
                    assert(plugin_accepts(*x.caption, get(e@, "caption"@), rev));
                    }
                }
            }
            return Err(in_field(err, "caption"));
        },
    };
    Ok(EdtrImage { src, alt, caption: Box::new(caption) })
}

pub fn decode_spoiler(j: &Json, rev: SchemaRevision, depth: usize) -> (r: Result<EdtrSpoiler, DecodeError>)
    ensures
        (r matches Err(x) && x.kind != ErrorKind::DepthExceeded) ==> forall|t: EdtrSpoiler| !spoiler_accepts(t, *j, rev),
        r matches Ok(x) ==> spoiler_accepts(x, *j, rev) && plugin_fits(*x.content, depth as nat),
        r is Err ==> forall|x: EdtrSpoiler| spoiler_accepts(x, *j, rev) ==> !plugin_fits(*x.content, depth as nat),
        (j is Object && !shape_ok(j->Object_0@, spoiler_keys())) ==> (r matches Err(x) && x.kind
            == ErrorKind::UnexpectedField),
    decreases depth, 2nat,
{
    let e = object_with(j, &spoiler_names())?;
    let title = str_field(e, "title")?;
    let content = match decode_plugin(field(e, "content")?, rev, depth) {
        Ok(x) => x,
        Err(err) => {
            assert forall|x: EdtrSpoiler| spoiler_accepts(x, *j, rev) implies !plugin_fits(*x.content, depth as nat) by {
                assert(plugin_accepts(*x.content, get(e@, "content"@), rev));
            }
            if err.kind != ErrorKind::DepthExceeded {
                assert forall|x: EdtrSpoiler| !spoiler_accepts(x, *j, rev) by {
                    if spoiler_accepts(x, *j, rev) {
                    assert(plugin_accepts(*x.content, get(e@, "content"@), rev));
                    }
                }
            }
            return Err(in_field(err, "content"));
        },
    };
    Ok(EdtrSpoiler { title, content: Box::new(content) })
}

pub fn decode_box(j: &Json, rev: SchemaRevision, depth: usize) -> (r: Result<EdtrBox, DecodeError>)
    ensures
        (r matches Err(x) && x.kind != ErrorKind::DepthExceeded) ==> forall|t: EdtrBox| !box_accepts(t, *j, rev),
        r matches Ok(x) ==> box_accepts(x, *j, rev) && plugin_fits(*x.title, depth as nat)
            && plugin_fits(*x.content, depth as nat),
        r is Err ==> forall|x: EdtrBox| box_accepts(x, *j, rev) ==> !(plugin_fits(*x.title, depth as nat)
            && plugin_fits(*x.content, depth as nat)),
        (j is Object && !shape_ok(j->Object_0@, box_keys())) ==> (r matches Err(x) && x.kind
            == ErrorKind::UnexpectedField),
    decreases depth, 2nat,
{
    let e = object_with(j, &box_names())?;
    let kind_name = str_field(e, "boxType")?;
    let box_type = match box_type_of_name(&kind_name) {
        Some(b) => b,
        None => {
            return Err(in_field(fail(ErrorKind::InvalidValue), "boxType"));
        },
    };
    let title = match decode_plugin(field(e, "title")?, rev, depth) {
        Ok(x) => x,
        Err(err) => {
            assert forall|x: EdtrBox| box_accepts(x, *j, rev) implies !(plugin_fits(*x.title, depth as nat) && plugin_fits(*x.content, depth as nat)) by {
                assert(plugin_accepts(*x.title, get(e@, "title"@), rev));
            }
            if err.kind != ErrorKind::DepthExceeded {
                assert forall|x: EdtrBox| !box_accepts(x, *j, rev) by {
                    if box_accepts(x, *j, rev) {
                    assert(plugin_accepts(*x.title, get(e@, "title"@), rev));
                    }
                }
            }
            return Err(in_field(err, "title"));
        },
    };
    let anchor_id = str_field(e, "anchorId")?;
    let content = match decode_plugin(field(e, "content")?, rev, depth) {
        Ok(x) => x,
        Err(err) => {
            assert forall|x: EdtrBox| box_accepts(x, *j, rev) implies !(plugin_fits(*x.title, depth as nat) && plugin_fits(*x.content, depth as nat)) by {
                assert(plugin_accepts(*x.content, get(e@, "content"@), rev));
            }
            if err.kind != ErrorKind::DepthExceeded {
                assert forall|x: EdtrBox| !box_accepts(x, *j, rev) by {
                    if box_accepts(x, *j, rev) {
                    assert(plugin_accepts(*x.content, get(e@, "content"@), rev));
                    }
                }
            }
            return Err(in_field(err, "content"));
        },
    };
    Ok(EdtrBox { box_type, title: Box::new(title), anchor_id, content: Box::new(content) })
}

} // verus!
