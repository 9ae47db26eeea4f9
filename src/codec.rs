use vstd::prelude::*;
use crate::decode::{decode_plugin, fail, DecodeError};
use crate::document::{DecodeConfig, EdtrPlugin, ErrorKind, SchemaRevision};
use crate::encode::encode_plugin;
use crate::json::Json;
use crate::schema::{
    envelope_has_extra_field, envelope_unknown, payload_has_extra_field, plugin_accepts, plugin_fits,
    plugin_written,
};
use crate::wire::{json_of_value, json_text, parse_value, parsed, same_json, write_json};

verus! {

/// The nesting depth that `DecodeConfig::new` allows.
///
/// serde_json itself stops at 128 nested arrays and objects, and each level
/// of plugins takes two of them, so the bound is kept below 64 for `decode`
/// to report `DepthExceeded` rather than `MalformedJson`.
pub const DEFAULT_MAX_DEPTH: usize = 60;

impl DecodeConfig {
    /// A configuration for `revision` with the default depth bound.
    pub fn new(revision: SchemaRevision) -> (r: DecodeConfig)
        ensures
            r.revision == revision,
            r.max_depth == DEFAULT_MAX_DEPTH,
    {
        DecodeConfig { revision, max_depth: DEFAULT_MAX_DEPTH }
    }
}

/// What decoding `j` under `config` yields: a tree that `j` encodes and
/// whose nesting fits the bound, or an error exactly when no such tree
/// exists. The error is `DepthExceeded` whenever `j` encodes some tree, none
/// of which fits.
pub open spec fn decoded_from(r: Result<EdtrPlugin, DecodeError>, j: Json, config: DecodeConfig) -> bool {
    match r {
        Ok(t) => plugin_accepts(t, j, config.revision) && plugin_fits(t, config.max_depth as nat),
        Err(x) => {
            &&& forall|t: EdtrPlugin|
                plugin_accepts(t, j, config.revision) ==> !plugin_fits(t, config.max_depth as nat)
            &&& x.kind != ErrorKind::DepthExceeded ==> forall|t: EdtrPlugin|
                !plugin_accepts(t, j, config.revision)
        },
    }
}

/// Everything that decoding `j` under `config` promises: the outcome of
/// `decoded_from`, and the kind of error for a depth bound of zero, for an
/// envelope or a payload with a field it does not declare, and for a plugin
/// name that the revision does not know.
pub open spec fn decode_outcome(r: Result<EdtrPlugin, DecodeError>, j: Json, config: DecodeConfig) -> bool {
    &&& decoded_from(r, j, config)
    &&& config.max_depth == 0 ==> (r matches Err(x) && x.kind == ErrorKind::DepthExceeded)
    &&& config.max_depth > 0 && envelope_has_extra_field(j) ==> (r matches Err(x) && x.kind
        == ErrorKind::UnexpectedField)
    &&& config.max_depth > 0 && envelope_unknown(j, config.revision) ==> (r matches Err(x) && x.kind
        == ErrorKind::UnknownDiscriminant)
    &&& config.max_depth > 0 && payload_has_extra_field(j, config.revision) ==> (r matches Err(x)
        && x.kind == ErrorKind::UnexpectedField)
}

/// Decodes a document from its JSON value.
pub fn decode_json(j: &Json, config: &DecodeConfig) -> (r: Result<EdtrPlugin, DecodeError>)
    ensures
        decode_outcome(r, *j, *config),
{
    decode_plugin(j, config.revision, config.max_depth)
}

/// Encodes a document as a JSON value, in the second schema revision. A
/// plain run carries only the flags that are set, and an image always
/// carries `alt`, as `null` when it has none.
pub fn encode_json(t: &EdtrPlugin) -> (j: Json)
    ensures
        plugin_accepts(*t, j, SchemaRevision::V2),
        plugin_written(*t, j),
{
    encode_plugin(t)
}

/// Decodes a document from JSON text.
///
/// serde_json keeps only the last value of a key that an object repeats, so
/// at this level a repeated key is not reported; `decode_json` rejects one
/// as `UnexpectedField`.
pub fn decode(bytes: &[u8], config: &DecodeConfig) -> (r: Result<EdtrPlugin, DecodeError>)
    ensures
        parsed(bytes@) is None ==> (r matches Err(e) && e.kind == ErrorKind::MalformedJson),
        parsed(bytes@) matches Some(p) ==> exists|j: Json| same_json(j, p) && decode_outcome(r, j, *config),
{
    match parse_value(bytes) {
        Some(v) => {
            let j = json_of_value(v);
            let r = decode_json(&j, config);
            assert(same_json(j, parsed(bytes@)->Some_0) && decode_outcome(r, j, *config));
            r
        },
        None => Err(fail(ErrorKind::MalformedJson)),
    }
}

/// Encodes a document as compact JSON text.
pub fn encode(t: &EdtrPlugin) -> (r: Vec<u8>)
    ensures
        exists|j: Json| plugin_accepts(*t, j, SchemaRevision::V2) && r@ == json_text(j),
{
    let j = encode_json(t);
    let mut out: Vec<u8> = Vec::new();
    write_json(&j, &mut out);
    assert(out@ =~= json_text(j));
    out
}

} // verus!
