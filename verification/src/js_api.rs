//! The options and results handed across the JavaScript interface.

use vstd::prelude::*;
use crate::extractor::ExtractedMessage;
use crate::text::{owned, str_eq};
use crate::types::{
    default_hash_algorithm, default_module_source_name, default_separator, opt_seq, remove_prefix_view,
    CoreOptions, OutputMode, RemovePrefix, RemovePrefixSpec,
};

verus! {

/// Extraction options as JavaScript passes them.
#[derive(Debug, Clone)]
pub struct JsExtractOptions {
    pub remove_prefix: Option<String>,
    pub module_source_name: Option<String>,
    pub separator: Option<String>,
    pub relative_to: Option<String>,
    pub hash_id: Option<bool>,
    pub hash_algorithm: Option<String>,
    pub extract_source_location: Option<bool>,
    pub output_mode: Option<String>,
}

/// The `remove_prefix` option that a JavaScript string stands for: `"true"`
/// and `"false"` are the booleans, the empty string is no option.
pub open spec fn js_remove_prefix(o: Option<Seq<char>>) -> Option<RemovePrefixSpec> {
    match o {
        None => None,
        Some(s) => if s == "true"@ {
            Some(RemovePrefixSpec::Boolean(true))
        } else if s == "false"@ {
            Some(RemovePrefixSpec::Boolean(false))
        } else if s.len() == 0 {
            None
        } else {
            Some(RemovePrefixSpec::String(s))
        },
    }
}

/// The text of an optional string, or `default`.
pub open spec fn text_or(o: Option<String>, default: Seq<char>) -> Seq<char> {
    match o {
        Some(s) => s@,
        None => default,
    }
}

/// The flag, or `false`.
pub open spec fn flag_or_false(o: Option<bool>) -> bool {
    match o {
        Some(b) => b,
        None => false,
    }
}

/// A copy of an optional string.
fn copy_opt(o: &Option<String>) -> (r: Option<String>)
    ensures
        opt_seq(r) == opt_seq(*o),
{
    match o {
        Some(s) => Some(owned(s.as_str())),
        None => None,
    }
}

/// The string, or a copy of `default`.
fn text_or_exec(o: &Option<String>, default: &str) -> (r: String)
    ensures
        r@ == text_or(*o, default@),
{
    match o {
        Some(s) => owned(s.as_str()),
        None => owned(default),
    }
}

impl JsExtractOptions {
    /// The options as the extractor takes them; what is not given takes its
    /// default.
    pub fn to_core_options(&self) -> (r: CoreOptions)
        ensures
            remove_prefix_view(r.remove_prefix) == js_remove_prefix(opt_seq(self.remove_prefix)),
            r.module_source_name@ == text_or(self.module_source_name, "react-intl"@),
            r.separator@ == text_or(self.separator, "."@),
            opt_seq(r.relative_to) == opt_seq(self.relative_to),
            r.hash_id == flag_or_false(self.hash_id),
            r.hash_algorithm@ == text_or(self.hash_algorithm, "murmur3"@),
            r.extract_source_location == flag_or_false(self.extract_source_location),
            r.output_mode == (if opt_seq(self.output_mode) == Some("perfile"@) {
                OutputMode::PerFile
            } else {
                OutputMode::Aggregated
            }),
    {
        let remove_prefix = match &self.remove_prefix {
            None => None,
            Some(s) => {
                if str_eq(s.as_str(), "true") {
                    Some(RemovePrefix::Boolean(true))
                } else if str_eq(s.as_str(), "false") {
                    Some(RemovePrefix::Boolean(false))
                } else if s.as_str().is_empty() {
                    None
                } else {
                    Some(RemovePrefix::String(owned(s.as_str())))
                }
            },
        };
        let output_mode = match &self.output_mode {
            Some(s) => if str_eq(s.as_str(), "perfile") {
                OutputMode::PerFile
            } else {
                OutputMode::Aggregated
            },
            None => OutputMode::Aggregated,
        };
        let module_source_name = match &self.module_source_name {
            Some(s) => owned(s.as_str()),
            None => default_module_source_name(),
        };
        let separator = match &self.separator {
            Some(s) => owned(s.as_str()),
            None => default_separator(),
        };
        let hash_algorithm = match &self.hash_algorithm {
            Some(s) => owned(s.as_str()),
            None => default_hash_algorithm(),
        };
        CoreOptions {
            remove_prefix,
            module_source_name,
            separator,
            relative_to: copy_opt(&self.relative_to),
            hash_id: match self.hash_id {
                Some(b) => b,
                None => false,
            },
            hash_algorithm,
            extract_source_location: match self.extract_source_location {
                Some(b) => b,
                None => false,
            },
            output_mode,
        }
    }
}

/// An extracted message as JavaScript receives it.
#[derive(Debug, Clone, PartialEq, Eq)]
pub struct JsExtractedMessage {
    pub id: String,
    pub default_message: String,
    pub description: Option<String>,
    pub file: Option<String>,
}

impl JsExtractedMessage {
    /// An extracted message for JavaScript: a missing default message becomes
    /// the empty string.
    pub fn from_message(msg: ExtractedMessage) -> (r: Self)
        ensures
            r.id == msg.id,
            r.default_message@ == text_or(msg.default_message, Seq::empty()),
            r.description == msg.description,
            r.file == msg.file,
    {
        JsExtractedMessage {
            id: msg.id,
            default_message: match msg.default_message {
                Some(d) => d,
                None => String::new(),
            },
            description: msg.description,
            file: msg.file,
        }
    }
}

/// The result of an extraction for JavaScript.
#[derive(Debug, Clone)]
pub struct JsExtractResult {
    pub messages: Vec<JsExtractedMessage>,
    pub files_processed: u32,
}

} // verus!
