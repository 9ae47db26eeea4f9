//! A document model for structured educational content (nested rich text,
//! media, exercises and layout blocks) and its JSON wire format, with a
//! verified decoder and encoder.

pub mod codec;
pub mod decode;
pub mod document;
pub mod encode;
pub mod equality;
pub mod json;
pub mod keys;
pub mod laws;
pub mod objects;
pub mod schema;
pub mod tags;
pub mod wire;

pub use codec::{decode, decode_json, encode, encode_json, DEFAULT_MAX_DEPTH};
pub use decode::DecodeError;
pub use document::{
    is_default, DecodeConfig, EdtrArticle, EdtrArticleIntroduction, EdtrArticleReference,
    EdtrArticleRelatedContent, EdtrArticleSource, EdtrBox, EdtrBoxType, EdtrImage,
    EdtrMarkupText, EdtrMultimedia, EdtrPlugin, EdtrSpoiler, EdtrText, ErrorKind, SchemaRevision,
};
pub use json::{Json, PathStep};
