use vstd::prelude::*;

verus! {

#[derive(Debug, Clone, PartialEq)]
pub struct EdtrArticleReference {
    pub id: String,
    pub title: String,
}

#[derive(Debug, Clone, PartialEq)]
pub struct EdtrArticleSource {
    pub href: String,
    pub title: String,
}

#[derive(Debug, Clone)]
pub struct EdtrArticleRelatedContent {
    pub articles: Vec<EdtrArticleReference>,
    pub courses: Vec<EdtrArticleReference>,
    pub videos: Vec<EdtrArticleReference>,
}

#[derive(Debug)]
pub struct EdtrArticle {
    pub introduction: Box<EdtrPlugin>,
    pub content: Box<EdtrPlugin>,
    pub exercises: Vec<EdtrPlugin>,
    pub exercise_folder: EdtrArticleReference,
    pub related_content: EdtrArticleRelatedContent,
    pub sources: Vec<EdtrArticleSource>,
}

#[derive(Debug)]
pub struct EdtrArticleIntroduction {
    pub explanation: Box<EdtrPlugin>,
    pub multimedia: Box<EdtrPlugin>,
    pub illustrating: bool,
    pub width: usize,
}

/// One piece of inline rich text: a plain run, a markup element, or an empty
/// marker. On the wire the three are told apart by their fields alone.
#[derive(Debug)]
pub enum EdtrText {
    SimpleText { text: String, strong: bool, em: bool, code: bool },
    NestedText(EdtrMarkupText),
    Empty {},
}

#[derive(Debug)]
pub enum EdtrMarkupText {
    Paragraph { children: Vec<EdtrText> },
    Hyperlink { href: String, children: Vec<EdtrText> },
    UnorderedList { children: Vec<EdtrText> },
    OrderedList { children: Vec<EdtrText> },
    ListItem { children: Vec<EdtrText> },
    ListItemChild { children: Vec<EdtrText> },
    Heading { level: usize, children: Vec<EdtrText> },
    Math { src: String, inline: bool, children: Vec<EdtrText> },
}

#[derive(Debug)]
pub struct EdtrImage {
    pub src: String,
    pub alt: Option<String>,
    pub caption: Box<EdtrPlugin>,
}

#[derive(Debug)]
pub struct EdtrMultimedia {
    pub explanation: Box<EdtrPlugin>,
    pub multimedia: Box<EdtrPlugin>,
    pub illustrating: bool,
    pub width: usize,
}

#[derive(Debug)]
pub struct EdtrSpoiler {
    pub title: String,
    pub content: Box<EdtrPlugin>,
}

#[derive(Debug, Clone, Copy, PartialEq, Eq, Structural)]
pub enum EdtrBoxType {
    Blank,
    Example,
    Quote,
    Approach,
    Remember,
    Attention,
    Note,
    Definition,
    Theorem,
    Proof,
}

#[derive(Debug)]
pub struct EdtrBox {
    pub box_type: EdtrBoxType,
    pub title: Box<EdtrPlugin>,
    pub anchor_id: String,
    pub content: Box<EdtrPlugin>,
}

/// A node of the document tree: a tag together with the payload that the tag
/// selects.
#[derive(Debug)]
pub enum EdtrPlugin {
    Article(EdtrArticle),
    ArticleIntroduction(EdtrArticleIntroduction),
    Text(Vec<EdtrText>),
    Image(EdtrImage),
    Rows(Vec<EdtrPlugin>),
    /// Kept as the raw string of an older encoding; whether it should become
    /// a structured payload is an open question of the format.
    Table(String),
    Multimedia(EdtrMultimedia),
    Spoiler(EdtrSpoiler),
    Injection(String),
    Box(EdtrBox),
}

/// The schema revision that a decoder recognizes.
#[derive(Debug, Clone, Copy, PartialEq, Eq, Structural)]
pub enum SchemaRevision {
    /// No `box` plugin, no `ordered-list` markup, no `code` flag.
    V1,
    /// Adds the `box` plugin, `ordered-list` markup and the `code` flag.
    V2,
}

/// Settings of a decode: the schema revision and the deepest nesting of
/// plugins and text fragments that is accepted.
#[derive(Debug, Clone, Copy, PartialEq, Eq, Structural)]
pub struct DecodeConfig {
    pub revision: SchemaRevision,
    pub max_depth: usize,
}

#[derive(Debug, Clone, Copy, PartialEq, Eq, Structural)]
pub enum ErrorKind {
    MalformedJson,
    UnknownDiscriminant,
    MissingField,
    UnexpectedField,
    TypeMismatch,
    InvalidValue,
    DepthExceeded,
    AmbiguousTextFragment,
}

/// Whether a flag has its default value, `false`.
pub fn is_default(t: &bool) -> (r: bool)
    ensures
        r == !*t,
{
    !*t
}

impl From<String> for EdtrText {
    /// A plain run with no formatting.
    fn from(flat_str: String) -> (r: Self)
        ensures
            r == (EdtrText::SimpleText { text: flat_str, strong: false, em: false, code: false }),
    {
        EdtrText::SimpleText { text: flat_str, strong: false, em: false, code: false }
    }
}

impl vstd::std_specs::convert::FromSpecImpl<String> for EdtrText {
    open spec fn obeys_from_spec() -> bool {
        true
    }

    open spec fn from_spec(flat_str: String) -> EdtrText {
        EdtrText::SimpleText { text: flat_str, strong: false, em: false, code: false }
    }
}

impl From<EdtrArticle> for EdtrPlugin {
    fn from(article: EdtrArticle) -> (r: Self)
        ensures
            r == EdtrPlugin::Article(article),
    {
        EdtrPlugin::Article(article)
    }
}

impl vstd::std_specs::convert::FromSpecImpl<EdtrArticle> for EdtrPlugin {
    open spec fn obeys_from_spec() -> bool {
        true
    }

    open spec fn from_spec(article: EdtrArticle) -> EdtrPlugin {
        EdtrPlugin::Article(article)
    }
}

impl From<EdtrArticleIntroduction> for EdtrPlugin {
    fn from(introduction: EdtrArticleIntroduction) -> (r: Self)
        ensures
            r == EdtrPlugin::ArticleIntroduction(introduction),
    {
        EdtrPlugin::ArticleIntroduction(introduction)
    }
}

impl vstd::std_specs::convert::FromSpecImpl<EdtrArticleIntroduction> for EdtrPlugin {
    open spec fn obeys_from_spec() -> bool {
        true
    }

    open spec fn from_spec(introduction: EdtrArticleIntroduction) -> EdtrPlugin {
        EdtrPlugin::ArticleIntroduction(introduction)
    }
}

impl From<Vec<EdtrText>> for EdtrPlugin {
    fn from(fragments: Vec<EdtrText>) -> (r: Self)
        ensures
            r == EdtrPlugin::Text(fragments),
    {
        EdtrPlugin::Text(fragments)
    }
}

impl vstd::std_specs::convert::FromSpecImpl<Vec<EdtrText>> for EdtrPlugin {
    open spec fn obeys_from_spec() -> bool {
        true
    }

    open spec fn from_spec(fragments: Vec<EdtrText>) -> EdtrPlugin {
        EdtrPlugin::Text(fragments)
    }
}

impl From<EdtrImage> for EdtrPlugin {
    fn from(image: EdtrImage) -> (r: Self)
        ensures
            r == EdtrPlugin::Image(image),
    {
        EdtrPlugin::Image(image)
    }
}

impl vstd::std_specs::convert::FromSpecImpl<EdtrImage> for EdtrPlugin {
    open spec fn obeys_from_spec() -> bool {
        true
    }

    open spec fn from_spec(image: EdtrImage) -> EdtrPlugin {
        EdtrPlugin::Image(image)
    }
}

impl From<Vec<EdtrPlugin>> for EdtrPlugin {
    fn from(rows: Vec<EdtrPlugin>) -> (r: Self)
        ensures
            r == EdtrPlugin::Rows(rows),
    {
        EdtrPlugin::Rows(rows)
    }
}

impl vstd::std_specs::convert::FromSpecImpl<Vec<EdtrPlugin>> for EdtrPlugin {
    open spec fn obeys_from_spec() -> bool {
        true
    }

    open spec fn from_spec(rows: Vec<EdtrPlugin>) -> EdtrPlugin {
        EdtrPlugin::Rows(rows)
    }
}

impl From<String> for EdtrPlugin {
    fn from(table: String) -> (r: Self)
        ensures
            r == EdtrPlugin::Table(table),
    {
        EdtrPlugin::Table(table)
    }
}

impl vstd::std_specs::convert::FromSpecImpl<String> for EdtrPlugin {
    open spec fn obeys_from_spec() -> bool {
        true
    }

    open spec fn from_spec(table: String) -> EdtrPlugin {
        EdtrPlugin::Table(table)
    }
}

impl From<EdtrMultimedia> for EdtrPlugin {
    fn from(multimedia: EdtrMultimedia) -> (r: Self)
        ensures
            r == EdtrPlugin::Multimedia(multimedia),
    {
        EdtrPlugin::Multimedia(multimedia)
    }
}

impl vstd::std_specs::convert::FromSpecImpl<EdtrMultimedia> for EdtrPlugin {
    open spec fn obeys_from_spec() -> bool {
        true
    }

    open spec fn from_spec(multimedia: EdtrMultimedia) -> EdtrPlugin {
        EdtrPlugin::Multimedia(multimedia)
    }
}

impl From<EdtrSpoiler> for EdtrPlugin {
    fn from(spoiler: EdtrSpoiler) -> (r: Self)
        ensures
            r == EdtrPlugin::Spoiler(spoiler),
    {
        EdtrPlugin::Spoiler(spoiler)
    }
}

impl vstd::std_specs::convert::FromSpecImpl<EdtrSpoiler> for EdtrPlugin {
    open spec fn obeys_from_spec() -> bool {
        true
    }

    open spec fn from_spec(spoiler: EdtrSpoiler) -> EdtrPlugin {
        EdtrPlugin::Spoiler(spoiler)
    }
}

impl From<EdtrBox> for EdtrPlugin {
    fn from(boxed: EdtrBox) -> (r: Self)
        ensures
            r == EdtrPlugin::Box(boxed),
    {
        EdtrPlugin::Box(boxed)
    }
}

impl vstd::std_specs::convert::FromSpecImpl<EdtrBox> for EdtrPlugin {
    open spec fn obeys_from_spec() -> bool {
        true
    }

    open spec fn from_spec(boxed: EdtrBox) -> EdtrPlugin {
        EdtrPlugin::Box(boxed)
    }
}

} // verus!
