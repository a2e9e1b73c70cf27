//! Message ID generation.
//!
//! `defineMessages` entries are named by their key; `FormattedMessage` and
//! `formatMessage` descriptors by a hash of their default message (and
//! description). The path part of the file comes first, and with `hash_id` the
//! whole ID is hashed.

use vstd::prelude::*;
use crate::gen_path::{add_prefix, spec_add_prefix};
use crate::hashing::{encodable, hashable, murmur_base64, murmur_base64_exec, murmur_decimal, murmur_decimal_exec};
use crate::id_generator::{can_hash, is_base64_name, spec_hash_string};
use crate::text::{chars_of, concat, push_all, string_of};
use crate::types::CoreState;

verus! {

/// The murmur3 hash (seed 0) of a string, as Base64 of the big-endian hash.
pub fn murmur32_hash(input: &str) -> (r: String)
    requires
        hashable(input@),
    ensures
        r@ == murmur_base64(input@),
{
    murmur_base64_exec(input)
}

/// Hashes a string with murmur3 (seed 0), as Base64 of the big-endian hash.
/// The algorithm name is kept for API extensibility and not read.
pub fn hash_string(input: &str, _algorithm: &str) -> (r: String)
    requires
        hashable(input@),
    ensures
        r@ == murmur_base64(input@),
{
    murmur32_hash(input)
}

/// Payload to generate an ID from a message descriptor: the default message
/// and, when present, the description.
#[derive(Debug, Clone)]
pub struct GenIdFromDescriptorPayload<'a> {
    pub default_message: &'a String,
    pub description: &'a Option<String>,
}

/// Payload to generate an ID from a `defineMessages` key and, when present,
/// the description.
#[derive(Debug, Clone)]
pub struct GenIdFromKeyPayload<'a> {
    pub key: &'a String,
    pub description: &'a Option<String>,
}

#[derive(Debug, Clone)]
pub enum GenIdPayload<'a> {
    Key(GenIdFromKeyPayload<'a>),
    Descriptor(GenIdFromDescriptorPayload<'a>),
}

/// How the message hashes of an ID are written.
#[derive(Debug, Clone, Copy, PartialEq, Eq)]
pub enum HashScheme {
    /// Base64 of the big-endian murmur3 hash; `hash_id` hashes the same way.
    Base64,
    /// Decimal murmur3 hash; `hash_id` hashes with `hash_algorithm`.
    Decimal,
}

/// The message hash of `s` in the given scheme.
pub open spec fn scheme_hash(scheme: HashScheme, s: Seq<char>) -> Seq<char> {
    match scheme {
        HashScheme::Base64 => murmur_base64(s),
        HashScheme::Decimal => murmur_decimal(s),
    }
}

/// `a`, the separator and `b`; just `a` when `b` is absent.
pub open spec fn join_parts(a: Seq<char>, b: Option<Seq<char>>, separator: Seq<char>) -> Seq<char> {
    match b {
        Some(b) => a + separator + b,
        None => a,
    }
}

/// What an ID is generated from, as plain text.
pub enum IdSource {
    /// A `defineMessages` key and the description.
    Key(Seq<char>, Option<Seq<char>>),
    /// A default message and the description.
    Descriptor(Seq<char>, Option<Seq<char>>),
}

/// The view of an optional string behind a reference.
pub open spec fn opt_text(o: Option<String>) -> Option<Seq<char>> {
    match o {
        Some(d) => Some(d@),
        None => None,
    }
}

/// What a payload generates its ID from.
pub open spec fn payload_source(payload: GenIdPayload) -> IdSource {
    match payload {
        GenIdPayload::Key(k) => IdSource::Key(k.key@, opt_text(*k.description)),
        GenIdPayload::Descriptor(d) => IdSource::Descriptor(d.default_message@, opt_text(*d.description)),
    }
}

/// The ID before the path part: the key (and the hashed description), or the
/// hash of the default message (and description).
pub open spec fn raw_id(src: IdSource, separator: Seq<char>, scheme: HashScheme) -> Seq<char> {
    match src {
        IdSource::Key(key, description) => join_parts(
            key,
            match description {
                Some(d) => Some(scheme_hash(scheme, d)),
                None => None,
            },
            separator,
        ),
        IdSource::Descriptor(dm, description) => scheme_hash(scheme, join_parts(dm, description, separator)),
    }
}

/// The ID before the path part, for a payload.
pub open spec fn raw_message_id(payload: GenIdPayload, separator: Seq<char>, scheme: HashScheme) -> Seq<
    char,
> {
    raw_id(payload_source(payload), separator, scheme)
}

/// The hash of a whole ID under `hash_id`.
pub open spec fn whole_id_hash(scheme: HashScheme, algorithm: Seq<char>, s: Seq<char>) -> Seq<char> {
    match scheme {
        HashScheme::Base64 => murmur_base64(s),
        HashScheme::Decimal => spec_hash_string(s, algorithm),
    }
}

/// The ID generated from `src`.
pub open spec fn id_of(state: CoreState, src: IdSource, scheme: HashScheme) -> Seq<char> {
    let path_id = spec_add_prefix(state, raw_id(src, state.opts.separator@, scheme));
    if state.opts.hash_id {
        whole_id_hash(scheme, state.opts.hash_algorithm@, path_id)
    } else {
        path_id
    }
}

/// The ID of a message.
pub open spec fn spec_message_id(state: CoreState, payload: GenIdPayload, scheme: HashScheme) -> Seq<
    char,
> {
    id_of(state, payload_source(payload), scheme)
}

/// Every text that the ID of `src` hashes is short enough to hash.
pub open spec fn id_hashable(state: CoreState, src: IdSource, scheme: HashScheme) -> bool {
    let sep = state.opts.separator@;
    &&& match src {
        IdSource::Key(_, description) => match description {
            Some(d) => hashable(d),
            None => true,
        },
        IdSource::Descriptor(dm, description) => hashable(join_parts(dm, description, sep)),
    }
    &&& state.opts.hash_id ==> {
        let path_id = spec_add_prefix(state, raw_id(src, sep, scheme));
        match scheme {
            HashScheme::Base64 => hashable(path_id),
            HashScheme::Decimal => can_hash(path_id, state.opts.hash_algorithm@),
        }
    }
}

/// Every text that the ID of `payload` hashes is short enough to hash.
pub open spec fn message_id_hashable(state: CoreState, payload: GenIdPayload, scheme: HashScheme) -> bool {
    id_hashable(state, payload_source(payload), scheme)
}

/// The message hash of `s` in the given scheme.
fn scheme_hash_exec(scheme: HashScheme, s: &str) -> (r: Vec<char>)
    requires
        hashable(s@),
    ensures
        r@ == scheme_hash(scheme, s@),
{
    match scheme {
        HashScheme::Base64 => chars_of(murmur_base64_exec(s).as_str()),
        HashScheme::Decimal => murmur_decimal_exec(s),
    }
}

/// `a`, the separator and `b`.
fn join_with(a: &[char], separator: &[char], b: &[char]) -> (r: Vec<char>)
    ensures
        r@ == a@ + separator@ + b@,
{
    let mut r = concat(a, separator);
    push_all(&mut r, b);
    r
}

/// Generates the ID of a message in the given hash scheme.
pub fn generate_message_id_with(state: &CoreState, payload: &GenIdPayload, scheme: HashScheme) -> (r:
    String)
    requires
        message_id_hashable(*state, *payload, scheme),
    ensures
        r@ == spec_message_id(*state, *payload, scheme),
{
    let sep = chars_of(state.opts.separator.as_str());
    let raw: Vec<char> = match payload {
        GenIdPayload::Key(k) => {
            let key = chars_of(k.key.as_str());
            match k.description {
                Some(d) => {
                    let h = scheme_hash_exec(scheme, d.as_str());
                    join_with(&key, &sep, &h)
                },
                None => key,
            }
        },
        GenIdPayload::Descriptor(d) => {
            let dm = chars_of(d.default_message.as_str());
            let text = match d.description {
                Some(x) => join_with(&dm, &sep, &chars_of(x.as_str())),
                None => dm,
            };
            scheme_hash_exec(scheme, string_of(&text).as_str())
        },
    };
    assert(raw@ == raw_message_id(*payload, sep@, scheme));
    let path_id = add_prefix(state, string_of(&raw).as_str());
    if state.opts.hash_id {
        match scheme {
            HashScheme::Base64 => hash_string(path_id.as_str(), state.opts.hash_algorithm.as_str()),
            HashScheme::Decimal => crate::id_generator::hash_string(
                path_id.as_str(),
                state.opts.hash_algorithm.as_str(),
            ),
        }
    } else {
        path_id
    }
}

/// Generates an ID for a message based on the configuration.
pub fn generate_message_id(state: &CoreState, payload: &GenIdPayload) -> (r: String)
    requires
        message_id_hashable(*state, *payload, HashScheme::Base64),
    ensures
        r@ == spec_message_id(*state, *payload, HashScheme::Base64),
        !state.opts.hash_id ==> r@ == spec_add_prefix(
            *state,
            raw_message_id(*payload, state.opts.separator@, HashScheme::Base64),
        ),
{
    generate_message_id_with(state, payload, HashScheme::Base64)
}

/// Whether `s` is short enough to hash.
pub fn fits_hash(s: &str) -> (r: bool)
    ensures
        r == hashable(s@),
{
    let n = s.as_bytes().len();
    n <= 0xFFFF_FFFF
}

/// Whether the UTF-8 bytes of `s` fit in a slice.
fn fits_slice(s: &str) -> (r: bool)
    ensures
        r == encodable(s@),
{
    let n = s.as_bytes().len();
    n <= isize::MAX as usize
}

/// Whether `s` can be hashed with the named algorithm.
fn can_hash_exec(s: &str, algorithm: &str) -> (r: bool)
    ensures
        r == can_hash(s@, algorithm@),
{
    if is_base64_name(algorithm) {
        fits_slice(s)
    } else {
        fits_hash(s)
    }
}

/// Whether every text that the ID of `payload` hashes is short enough to hash.
pub fn message_id_hashable_exec(state: &CoreState, payload: &GenIdPayload, scheme: HashScheme) -> (r: bool)
    ensures
        r == message_id_hashable(*state, *payload, scheme),
{
    let sep = chars_of(state.opts.separator.as_str());
    let raw: Vec<char> = match payload {
        GenIdPayload::Key(k) => {
            let key = chars_of(k.key.as_str());
            match k.description {
                Some(d) => {
                    if !fits_hash(d.as_str()) {
                        return false;
                    }
                    let h = scheme_hash_exec(scheme, d.as_str());
                    join_with(&key, &sep, &h)
                },
                None => key,
            }
        },
        GenIdPayload::Descriptor(d) => {
            let dm = chars_of(d.default_message.as_str());
            let text = match d.description {
                Some(x) => join_with(&dm, &sep, &chars_of(x.as_str())),
                None => dm,
            };
            let text = string_of(&text);
            if !fits_hash(text.as_str()) {
                return false;
            }
            scheme_hash_exec(scheme, text.as_str())
        },
    };
    if !state.opts.hash_id {
        return true;
    }
    assert(raw@ == raw_message_id(*payload, sep@, scheme));
    let path_id = add_prefix(state, string_of(&raw).as_str());
    match scheme {
        HashScheme::Base64 => fits_hash(path_id.as_str()),
        HashScheme::Decimal => can_hash_exec(path_id.as_str(), state.opts.hash_algorithm.as_str()),
    }
}

/// Generates the ID of a message when every text it hashes is short enough to
/// hash; `None` otherwise.
pub fn try_generate_message_id_with(state: &CoreState, payload: &GenIdPayload, scheme: HashScheme) -> (r:
    Option<String>)
    ensures
        r is Some <==> message_id_hashable(*state, *payload, scheme),
        r matches Some(id) ==> id@ == spec_message_id(*state, *payload, scheme),
{
    if message_id_hashable_exec(state, payload, scheme) {
        Some(generate_message_id_with(state, payload, scheme))
    } else {
        None
    }
}

/// Generates the ID of a message (Base64 hashes) when every text it hashes is
/// short enough to hash; `None` otherwise.
pub fn try_generate_message_id(state: &CoreState, payload: &GenIdPayload) -> (r: Option<String>)
    ensures
        r is Some <==> message_id_hashable(*state, *payload, HashScheme::Base64),
        r matches Some(id) ==> id@ == spec_message_id(*state, *payload, HashScheme::Base64),
{
    try_generate_message_id_with(state, payload, HashScheme::Base64)
}

/// Law (the ID table): without `hash_id`, a `defineMessages` key gets the path
/// part with the key, followed by the separator and the hash of the
/// description when there is one; a descriptor gets the path part with the
/// hash of its default message, or of the default message, the separator and
/// the description.
pub proof fn law_id_table(state: CoreState, key: Seq<char>, dm: Seq<char>, d: Seq<char>, scheme: HashScheme)
    requires
        !state.opts.hash_id,
    ensures
        id_of(state, IdSource::Key(key, None), scheme) == spec_add_prefix(state, key),
        id_of(state, IdSource::Key(key, Some(d)), scheme) == spec_add_prefix(
            state,
            key + state.opts.separator@ + scheme_hash(scheme, d),
        ),
        id_of(state, IdSource::Descriptor(dm, None), scheme) == spec_add_prefix(state, scheme_hash(scheme, dm)),
        id_of(state, IdSource::Descriptor(dm, Some(d)), scheme) == spec_add_prefix(
            state,
            scheme_hash(scheme, dm + state.opts.separator@ + d),
        ),
{
}

/// Law: with `hash_id` the whole ID, path part included, is hashed: the ID is
/// the hash of the ID that the same options without `hash_id` give.
pub proof fn law_hash_id_hashes_whole_id(state: CoreState, plain: CoreState, src: IdSource, scheme: HashScheme)
    requires
        state.opts.hash_id,
        !plain.opts.hash_id,
        plain.filename == state.filename,
        plain.env == state.env,
        plain.opts.remove_prefix == state.opts.remove_prefix,
        plain.opts.module_source_name == state.opts.module_source_name,
        plain.opts.separator == state.opts.separator,
        plain.opts.relative_to == state.opts.relative_to,
        plain.opts.hash_algorithm == state.opts.hash_algorithm,
        plain.opts.extract_source_location == state.opts.extract_source_location,
        plain.opts.output_mode == state.opts.output_mode,
    ensures
        id_of(state, src, scheme) == whole_id_hash(scheme, state.opts.hash_algorithm@, id_of(plain, src, scheme)),
{
    let raw = raw_id(src, state.opts.separator@, scheme);
    crate::gen_path::lemma_add_prefix_ignores_hash_id(state, plain, raw);
}

} // verus!

