//! Schema documents as JSON trees, stated as mathematical functions: strict
//! reading, where every record admits exactly its declared fields and
//! anything else rejects the whole document, and writing.
use crate::hex::{spec_decode_int, spec_decode_str, spec_encode_human, HexError};
use crate::json::{field, field_index, keys_within, Fields, JsonValue};
use crate::model::{
    EnumElementModel, PropertyKind, PropertyModel, TemplateKind, TemplateRootModel,
    TypeTemplateModel,
};
use vstd::prelude::*;

verus! {

/// Why a JSON tree is not a valid schema document.
#[derive(Clone, Copy, Debug, PartialEq, Eq, Structural)]
pub enum SchemaError {
    /// A record is not a JSON object.
    NotAnObject,
    /// A required field, or the `type` tag, is absent.
    MissingField,
    /// A field holds a value of the wrong JSON type.
    WrongType,
    /// The `type` tag names no known kind.
    UnknownTag,
    /// A record holds a field that its kind does not declare.
    UnknownField,
    /// Two entries of a hex-keyed map have the same key.
    DuplicateKey,
    /// A hex value could not be read.
    BadHex(HexError),
}

/// A result with its success value seen through its view.
pub open spec fn res_view<T: View>(r: Result<T, SchemaError>) -> Result<T::V, SchemaError> {
    match r {
        Ok(t) => Ok(t@),
        Err(e) => Err(e),
    }
}

pub open spec fn strs_view(v: Vec<&str>) -> Seq<Seq<char>> {
    Seq::new(v.len() as nat, |i: int| v@[i]@)
}

pub open spec fn dec_str(j: JsonValue) -> Result<Seq<char>, SchemaError> {
    match j {
        JsonValue::Str(s) => Ok(s),
        _ => Err(SchemaError::WrongType),
    }
}

/// A required string field.
pub open spec fn dec_req_str(fs: Fields, k: Seq<char>) -> Result<Seq<char>, SchemaError> {
    match field(fs, k) {
        None => Err(SchemaError::MissingField),
        Some(j) => dec_str(j),
    }
}

/// An optional string field; `null` counts as absent.
pub open spec fn dec_opt_str(fs: Fields, k: Seq<char>) -> Result<Option<Seq<char>>, SchemaError> {
    match field(fs, k) {
        None => Ok(None),
        Some(JsonValue::Null) => Ok(None),
        Some(JsonValue::Str(s)) => Ok(Some(s)),
        Some(_) => Err(SchemaError::WrongType),
    }
}

/// A hex value: a `0x` string or an unsigned integer.
pub open spec fn dec_hex(j: JsonValue) -> Result<u32, SchemaError> {
    match j {
        JsonValue::Str(s) => match spec_decode_str(s) {
            Ok(v) => Ok(v),
            Err(e) => Err(SchemaError::BadHex(e)),
        },
        JsonValue::UInt(n) => match spec_decode_int(n as nat) {
            Ok(v) => Ok(v),
            Err(e) => Err(SchemaError::BadHex(e)),
        },
        _ => Err(SchemaError::WrongType),
    }
}

/// A map key, which is always text.
pub open spec fn dec_hex_key(s: Seq<char>) -> Result<u32, SchemaError> {
    match spec_decode_str(s) {
        Ok(v) => Ok(v),
        Err(e) => Err(SchemaError::BadHex(e)),
    }
}

/// An array of strings.
pub open spec fn dec_str_list(j: JsonValue) -> Result<Seq<Seq<char>>, SchemaError> {
    match j {
        JsonValue::Array(xs) => if forall|i: int| 0 <= i < xs.len() ==> (#[trigger] xs[i]) is Str {
            Ok(Seq::new(xs.len(), |i: int| xs[i]->Str_0))
        } else {
            Err(SchemaError::WrongType)
        },
        _ => Err(SchemaError::WrongType),
    }
}

/// An optional array of strings; absent means empty.
pub open spec fn dec_opt_str_list(fs: Fields, k: Seq<char>) -> Result<Seq<Seq<char>>, SchemaError> {
    match field(fs, k) {
        None => Ok(Seq::empty()),
        Some(j) => dec_str_list(j),
    }
}

/// The payload-free property kinds, by tag.
pub open spec fn scalar_kind(t: Seq<char>) -> Option<PropertyKind> {
    if t == "unknown"@ {
        Some(PropertyKind::Unknown)
    } else if t == "id"@ {
        Some(PropertyKind::Id)
    } else if t == "color"@ {
        Some(PropertyKind::Color)
    } else if t == "vector"@ {
        Some(PropertyKind::Vector)
    } else if t == "bool"@ {
        Some(PropertyKind::Bool)
    } else if t == "i8"@ {
        Some(PropertyKind::I8)
    } else if t == "i16"@ {
        Some(PropertyKind::I16)
    } else if t == "i32"@ {
        Some(PropertyKind::I32)
    } else if t == "i64"@ {
        Some(PropertyKind::I64)
    } else if t == "u8"@ {
        Some(PropertyKind::U8)
    } else if t == "u16"@ {
        Some(PropertyKind::U16)
    } else if t == "u32"@ {
        Some(PropertyKind::U32)
    } else if t == "u64"@ {
        Some(PropertyKind::U64)
    } else if t == "f32"@ {
        Some(PropertyKind::F32)
    } else if t == "f64"@ {
        Some(PropertyKind::F64)
    } else {
        None
    }
}

pub open spec fn known_property_tag(t: Seq<char>) -> bool {
    scalar_kind(t) is Some || t == "enum"@ || t == "struct"@ || t == "typedef"@ || t == "list"@
}

/// The payload fields that a property kind declares.
pub open spec fn payload_keys(t: Seq<char>) -> Seq<Seq<char>> {
    if t == "enum"@ {
        seq!["enum"@]
    } else if t == "struct"@ {
        seq!["struct"@]
    } else if t == "typedef"@ {
        seq!["supported_types"@]
    } else if t == "list"@ {
        seq!["element"@]
    } else {
        seq![]
    }
}

/// The fields that a property record may hold: its name and description where
/// it is a property rather than a list element, the tag, and the payload.
pub open spec fn property_keys(with_names: bool, t: Seq<char>) -> Seq<Seq<char>> {
    (if with_names {
        seq!["name"@, "description"@]
    } else {
        seq![]
    }) + seq!["type"@] + payload_keys(t)
}

/// Reads the kind of a property from its record's fields.
pub open spec fn dec_prop_type(fs: Fields, with_names: bool) -> Result<PropertyKind, SchemaError>
    decreases fs,
{
    let i = field_index(fs, "type"@);
    if !(0 <= i < fs.len()) {
        Err(SchemaError::MissingField)
    } else {
        match fs[i].1 {
            JsonValue::Str(t) => if !known_property_tag(t) {
                Err(SchemaError::UnknownTag)
            } else if !keys_within(fs, property_keys(with_names, t)) {
                Err(SchemaError::UnknownField)
            } else if t == "enum"@ {
                match dec_req_str(fs, "enum"@) {
                    Ok(n) => Ok(PropertyKind::Enum(n)),
                    Err(e) => Err(e),
                }
            } else if t == "struct"@ {
                match dec_req_str(fs, "struct"@) {
                    Ok(n) => Ok(PropertyKind::Struct(n)),
                    Err(e) => Err(e),
                }
            } else if t == "typedef"@ {
                match dec_opt_str_list(fs, "supported_types"@) {
                    Ok(ts) => Ok(PropertyKind::Typedef(ts)),
                    Err(e) => Err(e),
                }
            } else if t == "list"@ {
                let e = field_index(fs, "element"@);
                if !(0 <= e < fs.len()) {
                    Err(SchemaError::MissingField)
                } else {
                    match fs[e].1 {
                        JsonValue::Object(efs) => match dec_prop_type(efs, false) {
                            Ok(k) => Ok(PropertyKind::List(Box::new(k))),
                            Err(x) => Err(x),
                        },
                        _ => Err(SchemaError::WrongType),
                    }
                }
            } else {
                Ok(scalar_kind(t)->0)
            },
            _ => Err(SchemaError::WrongType),
        }
    }
}

/// Reads a property: a record with an optional name and description and a kind.
pub open spec fn dec_property(j: JsonValue) -> Result<PropertyModel, SchemaError> {
    match j {
        JsonValue::Object(fs) => match dec_prop_type(fs, true) {
            Err(e) => Err(e),
            Ok(k) => match dec_opt_str(fs, "name"@) {
                Err(e) => Err(e),
                Ok(n) => match dec_opt_str(fs, "description"@) {
                    Err(e) => Err(e),
                    Ok(d) => Ok(PropertyModel { name: n, description: d, kind: k }),
                },
            },
        },
        _ => Err(SchemaError::NotAnObject),
    }
}

/// Reads the elements of a struct, in order; the first failure wins.
pub open spec fn dec_properties(xs: Seq<JsonValue>) -> Result<Seq<PropertyModel>, SchemaError>
    decreases xs.len(),
{
    if xs.len() == 0 {
        Ok(Seq::empty())
    } else {
        match dec_properties(xs.drop_last()) {
            Err(e) => Err(e),
            Ok(ps) => match dec_property(xs.last()) {
                Err(e) => Err(e),
                Ok(p) => Ok(ps.push(p)),
            },
        }
    }
}

pub open spec fn has_key<V>(s: Seq<(u32, V)>, k: u32) -> bool {
    exists|i: int| 0 <= i < s.len() && s[i].0 == k
}

/// Reads a property list's map, in document order: each key, then that it is
/// new, then its property.
pub open spec fn dec_property_map(fs: Fields) -> Result<Seq<(u32, PropertyModel)>, SchemaError>
    decreases fs.len(),
{
    if fs.len() == 0 {
        Ok(Seq::empty())
    } else {
        match dec_property_map(fs.drop_last()) {
            Err(e) => Err(e),
            Ok(ps) => match dec_hex_key(fs.last().0) {
                Err(e) => Err(e),
                Ok(k) => if has_key(ps, k) {
                    Err(SchemaError::DuplicateKey)
                } else {
                    match dec_property(fs.last().1) {
                        Err(e) => Err(e),
                        Ok(p) => Ok(ps.push((k, p))),
                    }
                },
            },
        }
    }
}

/// Reads a hex-keyed map of names, in document order.
pub open spec fn dec_hex_names(fs: Fields) -> Result<Seq<(u32, Seq<char>)>, SchemaError>
    decreases fs.len(),
{
    if fs.len() == 0 {
        Ok(Seq::empty())
    } else {
        match dec_hex_names(fs.drop_last()) {
            Err(e) => Err(e),
            Ok(ns) => match dec_hex_key(fs.last().0) {
                Err(e) => Err(e),
                Ok(k) => if has_key(ns, k) {
                    Err(SchemaError::DuplicateKey)
                } else {
                    match dec_str(fs.last().1) {
                        Err(e) => Err(e),
                        Ok(n) => Ok(ns.push((k, n))),
                    }
                },
            },
        }
    }
}

pub open spec fn enum_element_keys() -> Seq<Seq<char>> {
    seq!["name"@, "description"@, "value"@]
}

/// Reads one element of an enum.
pub open spec fn dec_enum_element(j: JsonValue) -> Result<EnumElementModel, SchemaError> {
    match j {
        JsonValue::Object(fs) => if !keys_within(fs, enum_element_keys()) {
            Err(SchemaError::UnknownField)
        } else {
            match dec_req_str(fs, "name"@) {
                Err(e) => Err(e),
                Ok(n) => match dec_opt_str(fs, "description"@) {
                    Err(e) => Err(e),
                    Ok(d) => match field(fs, "value"@) {
                        None => Err(SchemaError::MissingField),
                        Some(v) => match dec_hex(v) {
                            Err(e) => Err(e),
                            Ok(v) => Ok(EnumElementModel { name: n, description: d, value: v }),
                        },
                    },
                },
            }
        },
        _ => Err(SchemaError::NotAnObject),
    }
}

/// Reads the elements of an enum, in order; the first failure wins.
pub open spec fn dec_enum_elements(xs: Seq<JsonValue>) -> Result<Seq<EnumElementModel>, SchemaError>
    decreases xs.len(),
{
    if xs.len() == 0 {
        Ok(Seq::empty())
    } else {
        match dec_enum_elements(xs.drop_last()) {
            Err(e) => Err(e),
            Ok(es) => match dec_enum_element(xs.last()) {
                Err(e) => Err(e),
                Ok(x) => Ok(es.push(x)),
            },
        }
    }
}

pub open spec fn known_template_tag(t: Seq<char>) -> bool {
    t == "property_list"@ || t == "struct"@ || t == "enum"@
}

/// The payload field of a template kind.
pub open spec fn template_payload_key(t: Seq<char>) -> Seq<char> {
    if t == "property_list"@ {
        "properties"@
    } else if t == "struct"@ {
        "elements"@
    } else {
        "values"@
    }
}

pub open spec fn template_keys(t: Seq<char>) -> Seq<Seq<char>> {
    seq!["$schema"@, "name"@, "description"@, "type"@, template_payload_key(t)]
}

/// Reads a template's payload from the value of its payload field.
pub open spec fn dec_template_payload(t: Seq<char>, j: JsonValue) -> Result<TemplateKind, SchemaError> {
    if t == "property_list"@ {
        match j {
            JsonValue::Object(pfs) => match dec_property_map(pfs) {
                Ok(ps) => Ok(TemplateKind::PropertyList(ps)),
                Err(e) => Err(e),
            },
            _ => Err(SchemaError::WrongType),
        }
    } else if t == "struct"@ {
        match j {
            JsonValue::Array(xs) => match dec_properties(xs) {
                Ok(ps) => Ok(TemplateKind::Struct(ps)),
                Err(e) => Err(e),
            },
            _ => Err(SchemaError::WrongType),
        }
    } else {
        match j {
            JsonValue::Array(xs) => match dec_enum_elements(xs) {
                Ok(es) => Ok(TemplateKind::Enum(es)),
                Err(e) => Err(e),
            },
            _ => Err(SchemaError::WrongType),
        }
    }
}

/// Reads a schema document: the tag, then that no field is undeclared, then
/// `$schema`, `name`, `description` and the payload.
pub open spec fn dec_template(j: JsonValue) -> Result<TypeTemplateModel, SchemaError> {
    match j {
        JsonValue::Object(fs) => match field(fs, "type"@) {
            None => Err(SchemaError::MissingField),
            Some(JsonValue::Str(t)) => if !known_template_tag(t) {
                Err(SchemaError::UnknownTag)
            } else if !keys_within(fs, template_keys(t)) {
                Err(SchemaError::UnknownField)
            } else {
                match dec_req_str(fs, "$schema"@) {
                    Err(e) => Err(e),
                    Ok(s) => match dec_req_str(fs, "name"@) {
                        Err(e) => Err(e),
                        Ok(n) => match dec_opt_str(fs, "description"@) {
                            Err(e) => Err(e),
                            Ok(d) => match field(fs, template_payload_key(t)) {
                                None => Err(SchemaError::MissingField),
                                Some(p) => match dec_template_payload(t, p) {
                                    Err(e) => Err(e),
                                    Ok(k) => Ok(
                                        TypeTemplateModel { schema: s, name: n, description: d, kind: k },
                                    ),
                                },
                            },
                        },
                    },
                }
            },
            Some(_) => Err(SchemaError::WrongType),
        },
        _ => Err(SchemaError::NotAnObject),
    }
}

pub open spec fn root_keys() -> Seq<Seq<char>> {
    seq!["$schema"@, "name"@, "description"@, "objects"@, "typedefs"@, "structs"@, "enums"@]
}

/// An optional hex-keyed map of names; absent means empty.
pub open spec fn dec_opt_hex_names(fs: Fields, k: Seq<char>) -> Result<Seq<(u32, Seq<char>)>, SchemaError> {
    match field(fs, k) {
        None => Ok(Seq::empty()),
        Some(JsonValue::Object(nfs)) => dec_hex_names(nfs),
        Some(_) => Err(SchemaError::WrongType),
    }
}

/// Reads a manifest root: no undeclared field, then each field in turn.
pub open spec fn dec_root(j: JsonValue) -> Result<TemplateRootModel, SchemaError> {
    match j {
        JsonValue::Object(fs) => if !keys_within(fs, root_keys()) {
            Err(SchemaError::UnknownField)
        } else {
            match dec_req_str(fs, "$schema"@) {
                Err(e) => Err(e),
                Ok(s) => match dec_req_str(fs, "name"@) {
                    Err(e) => Err(e),
                    Ok(n) => match dec_opt_str(fs, "description"@) {
                        Err(e) => Err(e),
                        Ok(d) => match dec_opt_hex_names(fs, "objects"@) {
                            Err(e) => Err(e),
                            Ok(o) => match dec_opt_hex_names(fs, "typedefs"@) {
                                Err(e) => Err(e),
                                Ok(t) => match dec_opt_str_list(fs, "structs"@) {
                                    Err(e) => Err(e),
                                    Ok(st) => match dec_opt_str_list(fs, "enums"@) {
                                        Err(e) => Err(e),
                                        Ok(en) => Ok(
                                            TemplateRootModel {
                                                schema: s,
                                                name: n,
                                                description: d,
                                                objects: o,
                                                typedefs: t,
                                                structs: st,
                                                enums: en,
                                            },
                                        ),
                                    },
                                },
                            },
                        },
                    },
                },
            }
        },
        _ => Err(SchemaError::NotAnObject),
    }
}

/// A failure on a prefix is the failure of the whole sequence.
pub proof fn lemma_dec_properties_err(xs: Seq<JsonValue>, i: int)
    requires
        0 <= i <= xs.len(),
        dec_properties(xs.subrange(0, i)) is Err,
    ensures
        dec_properties(xs) == dec_properties(xs.subrange(0, i)),
    decreases xs.len() - i,
{
    if i < xs.len() {
        assert(xs.subrange(0, i + 1).drop_last() =~= xs.subrange(0, i));
        lemma_dec_properties_err(xs, i + 1);
    } else {
        assert(xs.subrange(0, i) =~= xs);
    }
}

/// A failure on a prefix is the failure of the whole sequence.
pub proof fn lemma_dec_enum_elements_err(xs: Seq<JsonValue>, i: int)
    requires
        0 <= i <= xs.len(),
        dec_enum_elements(xs.subrange(0, i)) is Err,
    ensures
        dec_enum_elements(xs) == dec_enum_elements(xs.subrange(0, i)),
    decreases xs.len() - i,
{
    if i < xs.len() {
        assert(xs.subrange(0, i + 1).drop_last() =~= xs.subrange(0, i));
        lemma_dec_enum_elements_err(xs, i + 1);
    } else {
        assert(xs.subrange(0, i) =~= xs);
    }
}

/// A failure on a prefix is the failure of the whole sequence.
pub proof fn lemma_dec_property_map_err(xs: Seq<(Seq<char>, JsonValue)>, i: int)
    requires
        0 <= i <= xs.len(),
        dec_property_map(xs.subrange(0, i)) is Err,
    ensures
        dec_property_map(xs) == dec_property_map(xs.subrange(0, i)),
    decreases xs.len() - i,
{
    if i < xs.len() {
        assert(xs.subrange(0, i + 1).drop_last() =~= xs.subrange(0, i));
        lemma_dec_property_map_err(xs, i + 1);
    } else {
        assert(xs.subrange(0, i) =~= xs);
    }
}

/// A failure on a prefix is the failure of the whole sequence.
pub proof fn lemma_dec_hex_names_err(xs: Seq<(Seq<char>, JsonValue)>, i: int)
    requires
        0 <= i <= xs.len(),
        dec_hex_names(xs.subrange(0, i)) is Err,
    ensures
        dec_hex_names(xs) == dec_hex_names(xs.subrange(0, i)),
    decreases xs.len() - i,
{
    if i < xs.len() {
        assert(xs.subrange(0, i + 1).drop_last() =~= xs.subrange(0, i));
        lemma_dec_hex_names_err(xs, i + 1);
    } else {
        assert(xs.subrange(0, i) =~= xs);
    }
}

/// Writing: an optional string field is left out when absent.
pub open spec fn opt_field(k: Seq<char>, o: Option<Seq<char>>) -> Fields {
    match o {
        Some(s) => seq![(k, JsonValue::Str(s))],
        None => seq![],
    }
}

/// The tag that names a property kind.
pub open spec fn property_tag(k: PropertyKind) -> Seq<char> {
    match k {
        PropertyKind::Unknown => "unknown"@,
        PropertyKind::Enum(_) => "enum"@,
        PropertyKind::Struct(_) => "struct"@,
        PropertyKind::Typedef(_) => "typedef"@,
        PropertyKind::List(_) => "list"@,
        PropertyKind::Id => "id"@,
        PropertyKind::Color => "color"@,
        PropertyKind::Vector => "vector"@,
        PropertyKind::Bool => "bool"@,
        PropertyKind::I8 => "i8"@,
        PropertyKind::I16 => "i16"@,
        PropertyKind::I32 => "i32"@,
        PropertyKind::I64 => "i64"@,
        PropertyKind::U8 => "u8"@,
        PropertyKind::U16 => "u16"@,
        PropertyKind::U32 => "u32"@,
        PropertyKind::U64 => "u64"@,
        PropertyKind::F32 => "f32"@,
        PropertyKind::F64 => "f64"@,
    }
}

pub open spec fn enc_str_list(ss: Seq<Seq<char>>) -> JsonValue {
    JsonValue::Array(Seq::new(ss.len(), |i: int| JsonValue::Str(ss[i])))
}

/// The fields that write a property kind: the tag, then the payload.
pub open spec fn enc_prop_type(k: PropertyKind) -> Fields
    decreases k,
{
    seq![("type"@, JsonValue::Str(property_tag(k)))] + match k {
        PropertyKind::Enum(n) => seq![("enum"@, JsonValue::Str(n))],
        PropertyKind::Struct(n) => seq![("struct"@, JsonValue::Str(n))],
        PropertyKind::Typedef(ts) => seq![("supported_types"@, enc_str_list(ts))],
        PropertyKind::List(e) => seq![("element"@, JsonValue::Object(enc_prop_type(*e)))],
        _ => seq![],
    }
}

/// A property: name and description where present, then its kind.
pub open spec fn enc_property(p: PropertyModel) -> JsonValue {
    JsonValue::Object(
        opt_field("name"@, p.name) + opt_field("description"@, p.description) + enc_prop_type(p.kind),
    )
}

pub open spec fn enc_properties(ps: Seq<PropertyModel>) -> Seq<JsonValue> {
    Seq::new(ps.len(), |i: int| enc_property(ps[i]))
}

/// A property list's map: each key in its text form, in order.
pub open spec fn enc_property_map(ps: Seq<(u32, PropertyModel)>) -> Fields {
    Seq::new(ps.len(), |i: int| (spec_encode_human(ps[i].0), enc_property(ps[i].1)))
}

pub open spec fn enc_enum_element(e: EnumElementModel) -> JsonValue {
    JsonValue::Object(
        seq![("name"@, JsonValue::Str(e.name))] + opt_field("description"@, e.description) + seq![
            ("value"@, JsonValue::Str(spec_encode_human(e.value))),
        ],
    )
}

pub open spec fn enc_enum_elements(es: Seq<EnumElementModel>) -> Seq<JsonValue> {
    Seq::new(es.len(), |i: int| enc_enum_element(es[i]))
}

/// The tag that names a template kind.
pub open spec fn template_tag(k: TemplateKind) -> Seq<char> {
    match k {
        TemplateKind::PropertyList(_) => "property_list"@,
        TemplateKind::Struct(_) => "struct"@,
        TemplateKind::Enum(_) => "enum"@,
    }
}

pub open spec fn enc_template_payload(k: TemplateKind) -> JsonValue {
    match k {
        TemplateKind::PropertyList(ps) => JsonValue::Object(enc_property_map(ps)),
        TemplateKind::Struct(ps) => JsonValue::Array(enc_properties(ps)),
        TemplateKind::Enum(es) => JsonValue::Array(enc_enum_elements(es)),
    }
}

/// A schema document: `$schema`, `name`, `description` where present, the
/// tag, and the payload.
pub open spec fn enc_template(t: TypeTemplateModel) -> JsonValue {
    JsonValue::Object(
        seq![("$schema"@, JsonValue::Str(t.schema)), ("name"@, JsonValue::Str(t.name))] + opt_field(
            "description"@,
            t.description,
        ) + seq![
            ("type"@, JsonValue::Str(template_tag(t.kind))),
            (template_payload_key(template_tag(t.kind)), enc_template_payload(t.kind)),
        ],
    )
}

pub open spec fn enc_hex_names(ns: Seq<(u32, Seq<char>)>) -> Fields {
    Seq::new(ns.len(), |i: int| (spec_encode_human(ns[i].0), JsonValue::Str(ns[i].1)))
}

/// A manifest root; the four collections are always written.
pub open spec fn enc_root(r: TemplateRootModel) -> JsonValue {
    JsonValue::Object(
        seq![("$schema"@, JsonValue::Str(r.schema)), ("name"@, JsonValue::Str(r.name))] + opt_field(
            "description"@,
            r.description,
        ) + seq![
            ("objects"@, JsonValue::Object(enc_hex_names(r.objects))),
            ("typedefs"@, JsonValue::Object(enc_hex_names(r.typedefs))),
            ("structs"@, enc_str_list(r.structs)),
            ("enums"@, enc_str_list(r.enums)),
        ],
    )
}

} // verus!
