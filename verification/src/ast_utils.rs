//! Reading string values and property names from syntax nodes.

use vstd::prelude::*;
use crate::syntax::{JsExpr, JsLit, JsPropName, JsTpl};
use crate::text::{chars_of, concat, owned, push_all, string_of};

verus! {

/// A field of a message descriptor whose value is not a string.
#[derive(Debug, Clone, PartialEq, Eq)]
pub struct FieldExtractionError {
    pub field_name: String,
    pub message: String,
}

impl FieldExtractionError {
    /// The error as text (its message).
    pub fn to_string(&self) -> (r: String)
        ensures
            r@ == self.message@,
    {
        owned(self.message.as_str())
    }
}

/// The string a template literal denotes when it has no embedded expression
/// and a non-empty text.
pub open spec fn tpl_string(tpl: JsTpl) -> Option<Seq<char>> {
    if tpl.exprs.len() == 0 && tpl.quasis.len() == 1 {
        let raw = tpl.quasis[0].raw@;
        if raw.len() == 0 {
            None
        } else {
            Some(raw)
        }
    } else {
        None
    }
}

/// The string an expression denotes statically: a string literal, or a
/// template literal without expressions.
pub open spec fn expr_string(expr: JsExpr) -> Option<Seq<char>> {
    match expr {
        JsExpr::Lit(JsLit::Str(s)) => Some(s.value@),
        JsExpr::Tpl(tpl) => tpl_string(tpl),
        _ => None,
    }
}

/// The view of an optional string.
pub open spec fn opt_string(o: Option<String>) -> Option<Seq<char>> {
    match o {
        Some(s) => Some(s@),
        None => None,
    }
}

/// Tries to extract a string value from an expression: a string literal, or a
/// template literal without expressions (`` `hello world` ``, not
/// `` `hello ${world}` ``).
pub fn extract_expr_string(expr: &JsExpr) -> (r: Option<String>)
    ensures
        opt_string(r) == expr_string(*expr),
{
    match expr {
        JsExpr::Lit(JsLit::Str(s)) => Some(owned(s.value.as_str())),
        JsExpr::Tpl(tpl) => {
            if tpl.exprs.len() == 0 && tpl.quasis.len() == 1 {
                let raw = &tpl.quasis[0].raw;
                if raw.as_str().is_empty() {
                    None
                } else {
                    Some(owned(raw.as_str()))
                }
            } else {
                None
            }
        },
        _ => None,
    }
}

/// What an expression that is not a string is called in an error message.
pub open spec fn expr_kind_text(expr: JsExpr) -> Seq<char> {
    match expr {
        JsExpr::Ident(ident) => "variable '"@ + ident.sym@ + "'"@,
        JsExpr::Member(_) => "member expression"@,
        JsExpr::Call(_) => "function call"@,
        JsExpr::Bin(_) => "binary expression"@,
        JsExpr::Tpl(tpl) => if tpl.exprs.len() != 0 {
            "template literal with expressions"@
        } else {
            "non-string expression"@
        },
        _ => "non-string expression"@,
    }
}

/// The message for a field that must be a string literal.
pub open spec fn field_error_message(field_name: Seq<char>, expr: JsExpr) -> Seq<char> {
    "Field '"@ + field_name + "' must be a string literal, but got "@ + expr_kind_text(expr)
}

/// What an expression that is not a string is called in an error message.
fn expr_kind_exec(expr: &JsExpr) -> (r: Vec<char>)
    ensures
        r@ == expr_kind_text(*expr),
{
    match expr {
        JsExpr::Ident(ident) => {
            let mut r = chars_of("variable '");
            push_all(&mut r, &chars_of(ident.sym.as_str()));
            push_all(&mut r, &chars_of("'"));
            r
        },
        JsExpr::Member(_) => chars_of("member expression"),
        JsExpr::Call(_) => chars_of("function call"),
        JsExpr::Bin(_) => chars_of("binary expression"),
        JsExpr::Tpl(tpl) => if tpl.exprs.len() != 0 {
            chars_of("template literal with expressions")
        } else {
            chars_of("non-string expression")
        },
        _ => chars_of("non-string expression"),
    }
}

/// The string value of a descriptor field, or an error naming what the field
/// holds instead.
pub fn validate_string_field(expr: &JsExpr, field_name: &str) -> (r: Result<
    Option<String>,
    FieldExtractionError,
>)
    ensures
        expr_string(*expr) is Some ==> (r matches Ok(Some(v)) && Some(v@) == expr_string(*expr)),
        expr_string(*expr) is None ==> (r matches Err(e) && e.field_name@ == field_name@
            && e.message@ == field_error_message(field_name@, *expr)),
{
    match extract_expr_string(expr) {
        Some(value) => Ok(Some(value)),
        None => {
            let mut message = chars_of("Field '");
            push_all(&mut message, &chars_of(field_name));
            push_all(&mut message, &chars_of("' must be a string literal, but got "));
            push_all(&mut message, &expr_kind_exec(expr));
            Err(FieldExtractionError { field_name: owned(field_name), message: string_of(&message) })
        },
    }
}

/// The name of a property key: an identifier, a string, or the text of a number.
pub open spec fn prop_name(key: JsPropName) -> Option<Seq<char>> {
    match key {
        JsPropName::Ident(ident) => Some(ident.sym@),
        JsPropName::Str(s) => Some(s.value@),
        JsPropName::Num(n) => Some(n@),
        JsPropName::Other(_) => None,
    }
}

/// Extracts the property name from a key.
pub fn extract_prop_name(key: &JsPropName) -> (r: Option<String>)
    ensures
        opt_string(r) == prop_name(*key),
{
    match key {
        JsPropName::Ident(ident) => Some(owned(ident.sym.as_str())),
        JsPropName::Str(s) => Some(owned(s.value.as_str())),
        JsPropName::Num(n) => Some(owned(n.as_str())),
        JsPropName::Other(_) => None,
    }
}

} // verus!
