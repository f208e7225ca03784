//! Schema descriptions of binary data formats: property lists, structs and
//! enums, read from and written to JSON text with strict validation.
pub mod bridge;
pub mod decode;
pub mod encode;
pub mod hex;
pub mod json;
pub mod laws;
pub mod model;
pub mod ordered;
pub mod schema;

pub use bridge::{
    FromRepr, IntoRepr, PropertyTemplateTypeDiscriminants, TypeTemplateTypeDiscriminants,
};
pub use hex::{HexError, HexU32};
pub use model::{
    EnumElement, EnumProperty, EnumTemplate, ListProperty, PropertyListTemplate, PropertyTemplate,
    PropertyTemplateType, StructProperty, StructTemplate, TemplateRoot, TypeTemplate, TypeTemplateType,
    TypedefProperty,
};
pub use schema::SchemaError;

use crate::decode::{decode_template_root, decode_type_template};
use crate::encode::{encode_template_root, encode_type_template};
use crate::json::{
    parse_json, parsed_json, render_json, rendered_json, syntax_error_column, syntax_error_line,
};
use crate::schema::{dec_root, dec_template, enc_root, enc_template};
use vstd::prelude::*;

verus! {

/// Why a schema text could not be loaded.
#[derive(Clone, Copy, Debug, PartialEq, Eq, Structural)]
pub enum LoadError {
    /// The text is not JSON; `serde_json` stopped at this line and column.
    Syntax { line: usize, column: usize },
    /// The JSON is not a valid schema document.
    Schema(SchemaError),
}

/// Loads a schema document from its text.
pub fn load_type_template(contents: &str) -> (r: Result<TypeTemplate, LoadError>)
    ensures
        match parsed_json(contents@) {
            None => r == Err::<TypeTemplate, _>(
                LoadError::Syntax {
                    line: syntax_error_line(contents@),
                    column: syntax_error_column(contents@),
                },
            ),
            Some(j) => match dec_template(j) {
                Ok(m) => r matches Ok(t) && t@ == m,
                Err(e) => r == Err::<TypeTemplate, _>(LoadError::Schema(e)),
            },
        },
{
    match parse_json(contents) {
        Err((line, column)) => Err(LoadError::Syntax { line, column }),
        Ok(j) => match decode_type_template(&j) {
            Ok(t) => Ok(t),
            Err(e) => Err(LoadError::Schema(e)),
        },
    }
}

/// Writes a schema document as compact JSON text.
pub fn render_type_template(t: &TypeTemplate) -> (r: String)
    ensures
        r@ == rendered_json(enc_template(t@)),
{
    render_json(&encode_type_template(t))
}

/// Loads a manifest root from its text.
pub fn load_template_root(contents: &str) -> (r: Result<TemplateRoot, LoadError>)
    ensures
        match parsed_json(contents@) {
            None => r == Err::<TemplateRoot, _>(
                LoadError::Syntax {
                    line: syntax_error_line(contents@),
                    column: syntax_error_column(contents@),
                },
            ),
            Some(j) => match dec_root(j) {
                Ok(m) => r matches Ok(t) && t@ == m,
                Err(e) => r == Err::<TemplateRoot, _>(LoadError::Schema(e)),
            },
        },
{
    match parse_json(contents) {
        Err((line, column)) => Err(LoadError::Syntax { line, column }),
        Ok(j) => match decode_template_root(&j) {
            Ok(t) => Ok(t),
            Err(e) => Err(LoadError::Schema(e)),
        },
    }
}

/// Writes a manifest root as compact JSON text.
pub fn render_template_root(t: &TemplateRoot) -> (r: String)
    ensures
        r@ == rendered_json(enc_root(t@)),
{
    render_json(&encode_template_root(t))
}

} // verus!
