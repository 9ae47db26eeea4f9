use vstd::prelude::*;
use crate::document::{
    EdtrArticle, EdtrArticleIntroduction, EdtrArticleReference, EdtrArticleRelatedContent,
    EdtrArticleSource, EdtrBox, EdtrImage, EdtrMarkupText, EdtrMultimedia, EdtrPlugin,
    EdtrSpoiler, EdtrText,
};
use crate::tags::{kind_of, markup_kind_of};

verus! {

// Structural equality of document values: the same variants, the same
// characters in every string, the same flags and numbers, and sequences of
// equal length that agree item by item.

pub open spec fn same_reference(a: EdtrArticleReference, b: EdtrArticleReference) -> bool {
    a.id@ == b.id@ && a.title@ == b.title@
}

pub open spec fn same_source(a: EdtrArticleSource, b: EdtrArticleSource) -> bool {
    a.href@ == b.href@ && a.title@ == b.title@
}

pub open spec fn same_references(a: Vec<EdtrArticleReference>, b: Vec<EdtrArticleReference>) -> bool {
    a@.len() == b@.len() && forall|i: int| 0 <= i < a@.len() ==> same_reference(#[trigger] a@[i], b@[i])
}

pub open spec fn same_sources(a: Vec<EdtrArticleSource>, b: Vec<EdtrArticleSource>) -> bool {
    a@.len() == b@.len() && forall|i: int| 0 <= i < a@.len() ==> same_source(#[trigger] a@[i], b@[i])
}

pub open spec fn same_related(a: EdtrArticleRelatedContent, b: EdtrArticleRelatedContent) -> bool {
    &&& same_references(a.articles, b.articles)
    &&& same_references(a.courses, b.courses)
    &&& same_references(a.videos, b.videos)
}

pub open spec fn same_text(a: EdtrText, b: EdtrText) -> bool
    decreases a,
{
    match a {
        EdtrText::SimpleText { text, strong, em, code } => {
            &&& b is SimpleText
            &&& text@ == b->text@
            &&& strong == b->strong
            &&& em == b->em
            &&& code == b->code
        },
        EdtrText::NestedText(m) => b is NestedText && same_markup(m, b->NestedText_0),
        EdtrText::Empty {  } => b is Empty,
    }
}

pub open spec fn same_texts(a: Vec<EdtrText>, b: Vec<EdtrText>) -> bool
    decreases a,
{
    a@.len() == b@.len() && forall|i: int| 0 <= i < a@.len() ==> same_text(#[trigger] a@[i], b@[i])
}

pub open spec fn same_markup(a: EdtrMarkupText, b: EdtrMarkupText) -> bool
    decreases a,
{
    markup_kind_of(a) == markup_kind_of(b) && match a {
        EdtrMarkupText::Paragraph { children } => same_texts(children, b->Paragraph_children),
        EdtrMarkupText::Hyperlink { href, children } => {
            href@ == b->href@ && same_texts(children, b->Hyperlink_children)
        },
        EdtrMarkupText::UnorderedList { children } => same_texts(children, b->UnorderedList_children),
        EdtrMarkupText::OrderedList { children } => same_texts(children, b->OrderedList_children),
        EdtrMarkupText::ListItem { children } => same_texts(children, b->ListItem_children),
        EdtrMarkupText::ListItemChild { children } => same_texts(children, b->ListItemChild_children),
        EdtrMarkupText::Heading { level, children } => {
            level == b->level && same_texts(children, b->Heading_children)
        },
        EdtrMarkupText::Math { src, inline, children } => {
            src@ == b->src@ && inline == b->inline && same_texts(children, b->Math_children)
        },
    }
}

pub open spec fn same_plugin(a: EdtrPlugin, b: EdtrPlugin) -> bool
    decreases a,
{
    kind_of(a) == kind_of(b) && match a {
        EdtrPlugin::Article(x) => same_article(x, b->Article_0),
        EdtrPlugin::ArticleIntroduction(x) => same_intro(x, b->ArticleIntroduction_0),
        EdtrPlugin::Text(v) => same_texts(v, b->Text_0),
        EdtrPlugin::Image(x) => same_image(x, b->Image_0),
        EdtrPlugin::Rows(v) => same_plugins(v, b->Rows_0),
        EdtrPlugin::Table(s) => s@ == b->Table_0@,
        EdtrPlugin::Multimedia(x) => same_multimedia(x, b->Multimedia_0),
        EdtrPlugin::Spoiler(x) => same_spoiler(x, b->Spoiler_0),
        EdtrPlugin::Injection(s) => s@ == b->Injection_0@,
        EdtrPlugin::Box(x) => same_box(x, b->Box_0),
    }
}

pub open spec fn same_plugins(a: Vec<EdtrPlugin>, b: Vec<EdtrPlugin>) -> bool
    decreases a,
{
    a@.len() == b@.len() && forall|i: int| 0 <= i < a@.len() ==> same_plugin(#[trigger] a@[i], b@[i])
}

pub open spec fn same_article(a: EdtrArticle, b: EdtrArticle) -> bool
    decreases a,
{
    &&& same_plugin(*a.introduction, *b.introduction)
    &&& same_plugin(*a.content, *b.content)
    &&& same_plugins(a.exercises, b.exercises)
    &&& same_reference(a.exercise_folder, b.exercise_folder)
    &&& same_related(a.related_content, b.related_content)
    &&& same_sources(a.sources, b.sources)
}

pub open spec fn same_intro(a: EdtrArticleIntroduction, b: EdtrArticleIntroduction) -> bool
    decreases a,
{
    &&& same_plugin(*a.explanation, *b.explanation)
    &&& same_plugin(*a.multimedia, *b.multimedia)
    &&& a.illustrating == b.illustrating
    &&& a.width == b.width
}

pub open spec fn same_multimedia(a: EdtrMultimedia, b: EdtrMultimedia) -> bool
    decreases a,
{
    &&& same_plugin(*a.explanation, *b.explanation)
    &&& same_plugin(*a.multimedia, *b.multimedia)
    &&& a.illustrating == b.illustrating
    &&& a.width == b.width
}

pub open spec fn same_image(a: EdtrImage, b: EdtrImage) -> bool
    decreases a,
{
    &&& a.src@ == b.src@
    &&& match a.alt {
        Some(s) => b.alt is Some && s@ == b.alt->Some_0@,
        None => b.alt is None,
    }
    &&& same_plugin(*a.caption, *b.caption)
}

pub open spec fn same_spoiler(a: EdtrSpoiler, b: EdtrSpoiler) -> bool
    decreases a,
{
    a.title@ == b.title@ && same_plugin(*a.content, *b.content)
}

pub open spec fn same_box(a: EdtrBox, b: EdtrBox) -> bool
    decreases a,
{
    &&& a.box_type == b.box_type
    &&& same_plugin(*a.title, *b.title)
    &&& a.anchor_id@ == b.anchor_id@
    &&& same_plugin(*a.content, *b.content)
}

} // verus!
