//! Message analysis with decimal message hashes.
//!
//! The same analysis as `ast_call` and `ast_jsx`, for the extractor
//! interface whose IDs carry the murmur3 hash in decimal and hash whole IDs
//! with the configured `hash_algorithm`.

use vstd::prelude::*;
use crate::ast_call::{
    analyze_define_messages_with, analyze_format_message_with, define_messages_hashable, first_object,
    keyed_messages, message_object_hashable, opt_message, spec_define_messages, spec_message_object,
};
use crate::ast_jsx::{analyze_jsx_element_with, jsx_message_hashable, spec_jsx_message};
use crate::ast_utils::{opt_string, prop_name};
use crate::gen_id::HashScheme;
use crate::syntax::{JsCallExpr, JsxElement, JsPropName};
use crate::types::{CoreState, TransformedMessageData};

verus! {

/// Analyzes a JSX element: its message, and whether its ID is to be inserted.
pub fn analyze_jsx_element(element: &JsxElement, state: &CoreState) -> (r: Option<(TransformedMessageData, bool)>)
    requires
        jsx_message_hashable(*element, *state, HashScheme::Decimal),
    ensures
        opt_message(r) == spec_jsx_message(*element, *state, HashScheme::Decimal),
{
    analyze_jsx_element_with(element, state, HashScheme::Decimal)
}

/// Analyzes a `defineMessages` call: the message of each property of its
/// object argument that holds one, in order, with its key and whether its ID is
/// to be inserted.
pub fn analyze_define_messages(call: &JsCallExpr, state: &CoreState) -> (r: Vec<(String, TransformedMessageData, bool)>)
    requires
        define_messages_hashable(*call, *state, HashScheme::Decimal),
    ensures
        keyed_messages(r@) == spec_define_messages(*call, *state, HashScheme::Decimal),
{
    analyze_define_messages_with(call, state, HashScheme::Decimal)
}

/// Analyzes a `formatMessage` call: the message of its descriptor object
/// argument, and whether its ID is to be inserted.
pub fn analyze_format_message(call: &JsCallExpr, state: &CoreState) -> (r: Option<(TransformedMessageData, bool)>)
    requires
        first_object(*call) matches Some(o) ==> message_object_hashable(o, *state, None, HashScheme::Decimal),
    ensures
        opt_message(r) == match first_object(*call) {
            Some(o) => spec_message_object(o, *state, None, HashScheme::Decimal),
            None => None,
        },
{
    analyze_format_message_with(call, state, HashScheme::Decimal)
}

/// Extracts the property name from a key.
pub fn extract_prop_name(key: &JsPropName) -> (r: Option<String>)
    ensures
        opt_string(r) == prop_name(*key),
{
    crate::ast_utils::extract_prop_name(key)
}

} // verus!
