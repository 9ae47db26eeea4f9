use vstd::prelude::*;
use crate::json::text_equals;
use crate::document::{EdtrBoxType, EdtrMarkupText, EdtrPlugin, SchemaRevision};

verus! {

/// The variant of a plugin, without its payload.
#[derive(Debug, Clone, Copy, PartialEq, Eq, Structural)]
pub enum PluginKind {
    Article,
    ArticleIntroduction,
    Text,
    Image,
    Rows,
    Table,
    Multimedia,
    Spoiler,
    Injection,
    Box,
}

/// The variant of a markup element, without its fields.
#[derive(Debug, Clone, Copy, PartialEq, Eq, Structural)]
pub enum MarkupKind {
    Paragraph,
    Hyperlink,
    UnorderedList,
    OrderedList,
    ListItem,
    ListItemChild,
    Heading,
    Math,
}

pub open spec fn kind_of(t: EdtrPlugin) -> PluginKind {
    match t {
        EdtrPlugin::Article(_) => PluginKind::Article,
        EdtrPlugin::ArticleIntroduction(_) => PluginKind::ArticleIntroduction,
        EdtrPlugin::Text(_) => PluginKind::Text,
        EdtrPlugin::Image(_) => PluginKind::Image,
        EdtrPlugin::Rows(_) => PluginKind::Rows,
        EdtrPlugin::Table(_) => PluginKind::Table,
        EdtrPlugin::Multimedia(_) => PluginKind::Multimedia,
        EdtrPlugin::Spoiler(_) => PluginKind::Spoiler,
        EdtrPlugin::Injection(_) => PluginKind::Injection,
        EdtrPlugin::Box(_) => PluginKind::Box,
    }
}

pub open spec fn markup_kind_of(m: EdtrMarkupText) -> MarkupKind {
    match m {
        EdtrMarkupText::Paragraph { .. } => MarkupKind::Paragraph,
        EdtrMarkupText::Hyperlink { .. } => MarkupKind::Hyperlink,
        EdtrMarkupText::UnorderedList { .. } => MarkupKind::UnorderedList,
        EdtrMarkupText::OrderedList { .. } => MarkupKind::OrderedList,
        EdtrMarkupText::ListItem { .. } => MarkupKind::ListItem,
        EdtrMarkupText::ListItemChild { .. } => MarkupKind::ListItemChild,
        EdtrMarkupText::Heading { .. } => MarkupKind::Heading,
        EdtrMarkupText::Math { .. } => MarkupKind::Math,
    }
}

/// The wire name of each plugin.
pub open spec fn plugin_name(k: PluginKind) -> Seq<char> {
    match k {
        PluginKind::Article => "article"@,
        PluginKind::ArticleIntroduction => "articleIntroduction"@,
        PluginKind::Text => "text"@,
        PluginKind::Image => "image"@,
        PluginKind::Rows => "rows"@,
        PluginKind::Table => "table"@,
        PluginKind::Multimedia => "multimedia"@,
        PluginKind::Spoiler => "spoiler"@,
        PluginKind::Injection => "injection"@,
        PluginKind::Box => "box"@,
    }
}

/// The plugin that a wire name denotes, if any.
pub open spec fn plugin_named(s: Seq<char>) -> Option<PluginKind> {
    if s == "article"@ {
        Some(PluginKind::Article)
    } else if s == "articleIntroduction"@ {
        Some(PluginKind::ArticleIntroduction)
    } else if s == "text"@ {
        Some(PluginKind::Text)
    } else if s == "image"@ {
        Some(PluginKind::Image)
    } else if s == "rows"@ {
        Some(PluginKind::Rows)
    } else if s == "table"@ {
        Some(PluginKind::Table)
    } else if s == "multimedia"@ {
        Some(PluginKind::Multimedia)
    } else if s == "spoiler"@ {
        Some(PluginKind::Spoiler)
    } else if s == "injection"@ {
        Some(PluginKind::Injection)
    } else if s == "box"@ {
        Some(PluginKind::Box)
    } else {
        None
    }
}

/// The wire tag of each markup element.
pub open spec fn markup_name(k: MarkupKind) -> Seq<char> {
    match k {
        MarkupKind::Paragraph => "p"@,
        MarkupKind::Hyperlink => "a"@,
        MarkupKind::UnorderedList => "unordered-list"@,
        MarkupKind::OrderedList => "ordered-list"@,
        MarkupKind::ListItem => "list-item"@,
        MarkupKind::ListItemChild => "list-item-child"@,
        MarkupKind::Heading => "h"@,
        MarkupKind::Math => "math"@,
    }
}

pub open spec fn markup_named(s: Seq<char>) -> Option<MarkupKind> {
    if s == "p"@ {
        Some(MarkupKind::Paragraph)
    } else if s == "a"@ {
        Some(MarkupKind::Hyperlink)
    } else if s == "unordered-list"@ {
        Some(MarkupKind::UnorderedList)
    } else if s == "ordered-list"@ {
        Some(MarkupKind::OrderedList)
    } else if s == "list-item"@ {
        Some(MarkupKind::ListItem)
    } else if s == "list-item-child"@ {
        Some(MarkupKind::ListItemChild)
    } else if s == "h"@ {
        Some(MarkupKind::Heading)
    } else if s == "math"@ {
        Some(MarkupKind::Math)
    } else {
        None
    }
}

pub open spec fn box_type_name(b: EdtrBoxType) -> Seq<char> {
    match b {
        EdtrBoxType::Blank => "blank"@,
        EdtrBoxType::Example => "example"@,
        EdtrBoxType::Quote => "quote"@,
        EdtrBoxType::Approach => "approach"@,
        EdtrBoxType::Remember => "remember"@,
        EdtrBoxType::Attention => "attention"@,
        EdtrBoxType::Note => "note"@,
        EdtrBoxType::Definition => "definition"@,
        EdtrBoxType::Theorem => "theorem"@,
        EdtrBoxType::Proof => "proof"@,
    }
}

pub open spec fn box_type_named(s: Seq<char>) -> Option<EdtrBoxType> {
    if s == "blank"@ {
        Some(EdtrBoxType::Blank)
    } else if s == "example"@ {
        Some(EdtrBoxType::Example)
    } else if s == "quote"@ {
        Some(EdtrBoxType::Quote)
    } else if s == "approach"@ {
        Some(EdtrBoxType::Approach)
    } else if s == "remember"@ {
        Some(EdtrBoxType::Remember)
    } else if s == "attention"@ {
        Some(EdtrBoxType::Attention)
    } else if s == "note"@ {
        Some(EdtrBoxType::Note)
    } else if s == "definition"@ {
        Some(EdtrBoxType::Definition)
    } else if s == "theorem"@ {
        Some(EdtrBoxType::Theorem)
    } else if s == "proof"@ {
        Some(EdtrBoxType::Proof)
    } else {
        None
    }
}

/// Whether a revision knows a plugin: `box` came with the second one.
pub open spec fn plugin_known(k: PluginKind, rev: SchemaRevision) -> bool {
    k != PluginKind::Box || rev == SchemaRevision::V2
}

/// Whether a revision knows a markup element: `ordered-list` came with the
/// second one.
pub open spec fn markup_known(k: MarkupKind, rev: SchemaRevision) -> bool {
    k != MarkupKind::OrderedList || rev == SchemaRevision::V2
}

pub proof fn lemma_plugin_name_inverts(k: PluginKind)
    ensures
        plugin_named(plugin_name(k)) == Some(k),
{
    match k {
        PluginKind::Article => {
            reveal_strlit("article");
        },
        PluginKind::ArticleIntroduction => {
            reveal_strlit("articleIntroduction");
            reveal_strlit("article");
            assert("articleIntroduction"@.len() != "article"@.len());
        },
        PluginKind::Text => {
            reveal_strlit("text");
            reveal_strlit("article");
            assert("text"@.len() != "article"@.len());
            reveal_strlit("articleIntroduction");
            assert("text"@.len() != "articleIntroduction"@.len());
        },
        PluginKind::Image => {
            reveal_strlit("image");
            reveal_strlit("article");
            assert("image"@.len() != "article"@.len());
            reveal_strlit("articleIntroduction");
            assert("image"@.len() != "articleIntroduction"@.len());
            reveal_strlit("text");
            assert("image"@.len() != "text"@.len());
        },
        PluginKind::Rows => {
            reveal_strlit("rows");
            reveal_strlit("article");
            assert("rows"@.len() != "article"@.len());
            reveal_strlit("articleIntroduction");
            assert("rows"@.len() != "articleIntroduction"@.len());
            reveal_strlit("text");
            assert("rows"@[0] != "text"@[0]);
            reveal_strlit("image");
            assert("rows"@.len() != "image"@.len());
        },
        PluginKind::Table => {
            reveal_strlit("table");
            reveal_strlit("article");
            assert("table"@.len() != "article"@.len());
            reveal_strlit("articleIntroduction");
            assert("table"@.len() != "articleIntroduction"@.len());
            reveal_strlit("text");
            assert("table"@.len() != "text"@.len());
            reveal_strlit("image");
            assert("table"@[0] != "image"@[0]);
            reveal_strlit("rows");
            assert("table"@.len() != "rows"@.len());
        },
        PluginKind::Multimedia => {
            reveal_strlit("multimedia");
            reveal_strlit("article");
            assert("multimedia"@.len() != "article"@.len());
            reveal_strlit("articleIntroduction");
            assert("multimedia"@.len() != "articleIntroduction"@.len());
            reveal_strlit("text");
            assert("multimedia"@.len() != "text"@.len());
            reveal_strlit("image");
            assert("multimedia"@.len() != "image"@.len());
            reveal_strlit("rows");
            assert("multimedia"@.len() != "rows"@.len());
            reveal_strlit("table");
            assert("multimedia"@.len() != "table"@.len());
        },
        PluginKind::Spoiler => {
            reveal_strlit("spoiler");
            reveal_strlit("article");
            assert("spoiler"@[0] != "article"@[0]);
            reveal_strlit("articleIntroduction");
            assert("spoiler"@.len() != "articleIntroduction"@.len());
            reveal_strlit("text");
            assert("spoiler"@.len() != "text"@.len());
            reveal_strlit("image");
            assert("spoiler"@.len() != "image"@.len());
            reveal_strlit("rows");
            assert("spoiler"@.len() != "rows"@.len());
            reveal_strlit("table");
            assert("spoiler"@.len() != "table"@.len());
            reveal_strlit("multimedia");
            assert("spoiler"@.len() != "multimedia"@.len());
        },
        PluginKind::Injection => {
            reveal_strlit("injection");
            reveal_strlit("article");
            assert("injection"@.len() != "article"@.len());
            reveal_strlit("articleIntroduction");
            assert("injection"@.len() != "articleIntroduction"@.len());
            reveal_strlit("text");
            assert("injection"@.len() != "text"@.len());
            reveal_strlit("image");
            assert("injection"@.len() != "image"@.len());
            reveal_strlit("rows");
            assert("injection"@.len() != "rows"@.len());
            reveal_strlit("table");
            assert("injection"@.len() != "table"@.len());
            reveal_strlit("multimedia");
            assert("injection"@.len() != "multimedia"@.len());
            reveal_strlit("spoiler");
            assert("injection"@.len() != "spoiler"@.len());
        },
        PluginKind::Box => {
            reveal_strlit("box");
            reveal_strlit("article");
            assert("box"@.len() != "article"@.len());
            reveal_strlit("articleIntroduction");
            assert("box"@.len() != "articleIntroduction"@.len());
            reveal_strlit("text");
            assert("box"@.len() != "text"@.len());
            reveal_strlit("image");
            assert("box"@.len() != "image"@.len());
            reveal_strlit("rows");
            assert("box"@.len() != "rows"@.len());
            reveal_strlit("table");
            assert("box"@.len() != "table"@.len());
            reveal_strlit("multimedia");
            assert("box"@.len() != "multimedia"@.len());
            reveal_strlit("spoiler");
            assert("box"@.len() != "spoiler"@.len());
            reveal_strlit("injection");
            assert("box"@.len() != "injection"@.len());
        },
    }
}

pub proof fn lemma_markup_name_inverts(k: MarkupKind)
    ensures
        markup_named(markup_name(k)) == Some(k),
{
    match k {
        MarkupKind::Paragraph => {
            reveal_strlit("p");
        },
        MarkupKind::Hyperlink => {
            reveal_strlit("a");
            reveal_strlit("p");
            assert("a"@[0] != "p"@[0]);
        },
        MarkupKind::UnorderedList => {
            reveal_strlit("unordered-list");
            reveal_strlit("p");
            assert("unordered-list"@.len() != "p"@.len());
            reveal_strlit("a");
            assert("unordered-list"@.len() != "a"@.len());
        },
        MarkupKind::OrderedList => {
            reveal_strlit("ordered-list");
            reveal_strlit("p");
            assert("ordered-list"@.len() != "p"@.len());
            reveal_strlit("a");
            assert("ordered-list"@.len() != "a"@.len());
            reveal_strlit("unordered-list");
            assert("ordered-list"@.len() != "unordered-list"@.len());
        },
        MarkupKind::ListItem => {
            reveal_strlit("list-item");
            reveal_strlit("p");
            assert("list-item"@.len() != "p"@.len());
            reveal_strlit("a");
            assert("list-item"@.len() != "a"@.len());
            reveal_strlit("unordered-list");
            assert("list-item"@.len() != "unordered-list"@.len());
            reveal_strlit("ordered-list");
            assert("list-item"@.len() != "ordered-list"@.len());
        },
        MarkupKind::ListItemChild => {
            reveal_strlit("list-item-child");
            reveal_strlit("p");
            assert("list-item-child"@.len() != "p"@.len());
            reveal_strlit("a");
            assert("list-item-child"@.len() != "a"@.len());
            reveal_strlit("unordered-list");
            assert("list-item-child"@.len() != "unordered-list"@.len());
            reveal_strlit("ordered-list");
            assert("list-item-child"@.len() != "ordered-list"@.len());
            reveal_strlit("list-item");
            assert("list-item-child"@.len() != "list-item"@.len());
        },
        MarkupKind::Heading => {
            reveal_strlit("h");
            reveal_strlit("p");
            assert("h"@[0] != "p"@[0]);
            reveal_strlit("a");
            assert("h"@[0] != "a"@[0]);
            reveal_strlit("unordered-list");
            assert("h"@.len() != "unordered-list"@.len());
            reveal_strlit("ordered-list");
            assert("h"@.len() != "ordered-list"@.len());
            reveal_strlit("list-item");
            assert("h"@.len() != "list-item"@.len());
            reveal_strlit("list-item-child");
            assert("h"@.len() != "list-item-child"@.len());
        },
        MarkupKind::Math => {
            reveal_strlit("math");
            reveal_strlit("p");
            assert("math"@.len() != "p"@.len());
            reveal_strlit("a");
            assert("math"@.len() != "a"@.len());
            reveal_strlit("unordered-list");
            assert("math"@.len() != "unordered-list"@.len());
            reveal_strlit("ordered-list");
            assert("math"@.len() != "ordered-list"@.len());
            reveal_strlit("list-item");
            assert("math"@.len() != "list-item"@.len());
            reveal_strlit("list-item-child");
            assert("math"@.len() != "list-item-child"@.len());
            reveal_strlit("h");
            assert("math"@.len() != "h"@.len());
        },
    }
}

pub proof fn lemma_box_type_name_inverts(k: EdtrBoxType)
    ensures
        box_type_named(box_type_name(k)) == Some(k),
{
    match k {
        EdtrBoxType::Blank => {
            reveal_strlit("blank");
        },
        EdtrBoxType::Example => {
            reveal_strlit("example");
            reveal_strlit("blank");
            assert("example"@.len() != "blank"@.len());
        },
        EdtrBoxType::Quote => {
            reveal_strlit("quote");
            reveal_strlit("blank");
            assert("quote"@[0] != "blank"@[0]);
            reveal_strlit("example");
            assert("quote"@.len() != "example"@.len());
        },
        EdtrBoxType::Approach => {
            reveal_strlit("approach");
            reveal_strlit("blank");
            assert("approach"@.len() != "blank"@.len());
            reveal_strlit("example");
            assert("approach"@.len() != "example"@.len());
            reveal_strlit("quote");
            assert("approach"@.len() != "quote"@.len());
        },
        EdtrBoxType::Remember => {
            reveal_strlit("remember");
            reveal_strlit("blank");
            assert("remember"@.len() != "blank"@.len());
            reveal_strlit("example");
            assert("remember"@.len() != "example"@.len());
            reveal_strlit("quote");
            assert("remember"@.len() != "quote"@.len());
            reveal_strlit("approach");
            assert("remember"@[0] != "approach"@[0]);
        },
        EdtrBoxType::Attention => {
            reveal_strlit("attention");
            reveal_strlit("blank");
            assert("attention"@.len() != "blank"@.len());
            reveal_strlit("example");
            assert("attention"@.len() != "example"@.len());
            reveal_strlit("quote");
            assert("attention"@.len() != "quote"@.len());
            reveal_strlit("approach");
            assert("attention"@.len() != "approach"@.len());
            reveal_strlit("remember");
            assert("attention"@.len() != "remember"@.len());
        },
        EdtrBoxType::Note => {
            reveal_strlit("note");
            reveal_strlit("blank");
            assert("note"@.len() != "blank"@.len());
            reveal_strlit("example");
            assert("note"@.len() != "example"@.len());
            reveal_strlit("quote");
            assert("note"@.len() != "quote"@.len());
            reveal_strlit("approach");
            assert("note"@.len() != "approach"@.len());
            reveal_strlit("remember");
            assert("note"@.len() != "remember"@.len());
            reveal_strlit("attention");
            assert("note"@.len() != "attention"@.len());
        },
        EdtrBoxType::Definition => {
            reveal_strlit("definition");
            reveal_strlit("blank");
            assert("definition"@.len() != "blank"@.len());
            reveal_strlit("example");
            assert("definition"@.len() != "example"@.len());
            reveal_strlit("quote");
            assert("definition"@.len() != "quote"@.len());
            reveal_strlit("approach");
            assert("definition"@.len() != "approach"@.len());
            reveal_strlit("remember");
            assert("definition"@.len() != "remember"@.len());
            reveal_strlit("attention");
            assert("definition"@.len() != "attention"@.len());
            reveal_strlit("note");
            assert("definition"@.len() != "note"@.len());
        },
        EdtrBoxType::Theorem => {
            reveal_strlit("theorem");
            reveal_strlit("blank");
            assert("theorem"@.len() != "blank"@.len());
            reveal_strlit("example");
            assert("theorem"@[0] != "example"@[0]);
            reveal_strlit("quote");
            assert("theorem"@.len() != "quote"@.len());
            reveal_strlit("approach");
            assert("theorem"@.len() != "approach"@.len());
            reveal_strlit("remember");
            assert("theorem"@.len() != "remember"@.len());
            reveal_strlit("attention");
            assert("theorem"@.len() != "attention"@.len());
            reveal_strlit("note");
            assert("theorem"@.len() != "note"@.len());
            reveal_strlit("definition");
            assert("theorem"@.len() != "definition"@.len());
        },
        EdtrBoxType::Proof => {
            reveal_strlit("proof");
            reveal_strlit("blank");
            assert("proof"@[0] != "blank"@[0]);
            reveal_strlit("example");
            assert("proof"@.len() != "example"@.len());
            reveal_strlit("quote");
            assert("proof"@[0] != "quote"@[0]);
            reveal_strlit("approach");
            assert("proof"@.len() != "approach"@.len());
            reveal_strlit("remember");
            assert("proof"@.len() != "remember"@.len());
            reveal_strlit("attention");
            assert("proof"@.len() != "attention"@.len());
            reveal_strlit("note");
            assert("proof"@.len() != "note"@.len());
            reveal_strlit("definition");
            assert("proof"@.len() != "definition"@.len());
            reveal_strlit("theorem");
            assert("proof"@.len() != "theorem"@.len());
        },
    }
}

pub fn plugin_kind_named(s: &String) -> (r: Option<PluginKind>)
    ensures
        r == plugin_named(s@),
{
    if text_equals(s, "article") {
        Some(PluginKind::Article)
    } else if text_equals(s, "articleIntroduction") {
        Some(PluginKind::ArticleIntroduction)
    } else if text_equals(s, "text") {
        Some(PluginKind::Text)
    } else if text_equals(s, "image") {
        Some(PluginKind::Image)
    } else if text_equals(s, "rows") {
        Some(PluginKind::Rows)
    } else if text_equals(s, "table") {
        Some(PluginKind::Table)
    } else if text_equals(s, "multimedia") {
        Some(PluginKind::Multimedia)
    } else if text_equals(s, "spoiler") {
        Some(PluginKind::Spoiler)
    } else if text_equals(s, "injection") {
        Some(PluginKind::Injection)
    } else if text_equals(s, "box") {
        Some(PluginKind::Box)
    } else {
        None
    }
}

pub fn plugin_wire_name(k: PluginKind) -> (r: &'static str)
    ensures
        r@ == plugin_name(k),
{
    match k {
        PluginKind::Article => "article",
        PluginKind::ArticleIntroduction => "articleIntroduction",
        PluginKind::Text => "text",
        PluginKind::Image => "image",
        PluginKind::Rows => "rows",
        PluginKind::Table => "table",
        PluginKind::Multimedia => "multimedia",
        PluginKind::Spoiler => "spoiler",
        PluginKind::Injection => "injection",
        PluginKind::Box => "box",
    }
}

pub fn markup_kind_named(s: &String) -> (r: Option<MarkupKind>)
    ensures
        r == markup_named(s@),
{
    if text_equals(s, "p") {
        Some(MarkupKind::Paragraph)
    } else if text_equals(s, "a") {
        Some(MarkupKind::Hyperlink)
    } else if text_equals(s, "unordered-list") {
        Some(MarkupKind::UnorderedList)
    } else if text_equals(s, "ordered-list") {
        Some(MarkupKind::OrderedList)
    } else if text_equals(s, "list-item") {
        Some(MarkupKind::ListItem)
    } else if text_equals(s, "list-item-child") {
        Some(MarkupKind::ListItemChild)
    } else if text_equals(s, "h") {
        Some(MarkupKind::Heading)
    } else if text_equals(s, "math") {
        Some(MarkupKind::Math)
    } else {
        None
    }
}

pub fn markup_wire_name(k: MarkupKind) -> (r: &'static str)
    ensures
        r@ == markup_name(k),
{
    match k {
        MarkupKind::Paragraph => "p",
        MarkupKind::Hyperlink => "a",
        MarkupKind::UnorderedList => "unordered-list",
        MarkupKind::OrderedList => "ordered-list",
        MarkupKind::ListItem => "list-item",
        MarkupKind::ListItemChild => "list-item-child",
        MarkupKind::Heading => "h",
        MarkupKind::Math => "math",
    }
}

pub fn box_type_of_name(s: &String) -> (r: Option<EdtrBoxType>)
    ensures
        r == box_type_named(s@),
{
    if text_equals(s, "blank") {
        Some(EdtrBoxType::Blank)
    } else if text_equals(s, "example") {
        Some(EdtrBoxType::Example)
    } else if text_equals(s, "quote") {
        Some(EdtrBoxType::Quote)
    } else if text_equals(s, "approach") {
        Some(EdtrBoxType::Approach)
    } else if text_equals(s, "remember") {
        Some(EdtrBoxType::Remember)
    } else if text_equals(s, "attention") {
        Some(EdtrBoxType::Attention)
    } else if text_equals(s, "note") {
        Some(EdtrBoxType::Note)
    } else if text_equals(s, "definition") {
        Some(EdtrBoxType::Definition)
    } else if text_equals(s, "theorem") {
        Some(EdtrBoxType::Theorem)
    } else if text_equals(s, "proof") {
        Some(EdtrBoxType::Proof)
    } else {
        None
    }
}

pub fn box_type_wire_name(k: EdtrBoxType) -> (r: &'static str)
    ensures
        r@ == box_type_name(k),
{
    match k {
        EdtrBoxType::Blank => "blank",
        EdtrBoxType::Example => "example",
        EdtrBoxType::Quote => "quote",
        EdtrBoxType::Approach => "approach",
        EdtrBoxType::Remember => "remember",
        EdtrBoxType::Attention => "attention",
        EdtrBoxType::Note => "note",
        EdtrBoxType::Definition => "definition",
        EdtrBoxType::Theorem => "theorem",
        EdtrBoxType::Proof => "proof",
    }
}

} // verus!
