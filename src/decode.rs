//! Reading schema documents from a JSON tree, exactly as `crate::schema`
//! states it.
use crate::hex::{HexError, HexU32};
use crate::ordered::{
    name_entries, name_map_contains, name_map_insert, new_name_map, new_property_map,
    property_map_contains, property_map_insert,
};
use indexmap::IndexMap;
use crate::json::{
    check_keys, field, fields_view, find_field, items_view, lemma_array_view, lemma_object_view,
    str_eq, Json, JsonValue,
};
use crate::model::{
    EnumElementModel, PropertyModel, EnumTemplate, PropertyListTemplate, StructTemplate,
    TemplateRoot, TypeTemplate, TypeTemplateType, elements_view, opt_view, properties_view,
    strings_view, EnumElement, EnumProperty, ListProperty, PropertyTemplate, PropertyTemplateType,
    StructProperty, TypedefProperty,
};
use crate::schema::{
    lemma_dec_enum_elements_err, lemma_dec_hex_names_err, lemma_dec_properties_err,
    lemma_dec_property_map_err, dec_enum_element, dec_enum_elements, dec_hex, dec_hex_key,
    dec_hex_names, dec_opt_hex_names, dec_opt_str, dec_opt_str_list, dec_prop_type, dec_properties,
    dec_property, dec_property_map, dec_req_str, dec_root, dec_str, dec_str_list, dec_template,
    dec_template_payload, enum_element_keys, property_keys, res_view, root_keys, scalar_kind,
    strs_view, template_keys, template_payload_key, SchemaError,
};
use vstd::prelude::*;

verus! {

broadcast use vstd::std_specs::vec::axiom_vec_index_decreases;

fn get_field<'a>(fs: &'a Vec<(String, Json)>, k: &str) -> (r: Option<&'a Json>)
    ensures
        match r {
            Some(j) => field(fields_view(*fs), k@) == Some(j@),
            None => field(fields_view(*fs), k@) is None,
        },
{
    match find_field(fs, k) {
        Some(i) => Some(&fs[i].1),
        None => None,
    }
}

fn decode_str(j: &Json) -> (r: Result<String, SchemaError>)
    ensures
        res_view(r) == dec_str(j@),
{
    match j {
        Json::Str(s) => Ok(s.clone()),
        _ => Err(SchemaError::WrongType),
    }
}

fn decode_req_str(fs: &Vec<(String, Json)>, k: &str) -> (r: Result<String, SchemaError>)
    ensures
        res_view(r) == dec_req_str(fields_view(*fs), k@),
{
    match get_field(fs, k) {
        None => Err(SchemaError::MissingField),
        Some(j) => decode_str(j),
    }
}

fn decode_opt_str(fs: &Vec<(String, Json)>, k: &str) -> (r: Result<Option<String>, SchemaError>)
    ensures
        match r {
            Ok(o) => dec_opt_str(fields_view(*fs), k@) == Ok::<_, SchemaError>(opt_view(o)),
            Err(e) => dec_opt_str(fields_view(*fs), k@) == Err::<Option<Seq<char>>, _>(e),
        },
{
    match get_field(fs, k) {
        None => Ok(None),
        Some(Json::Null) => Ok(None),
        Some(Json::Str(s)) => Ok(Some(s.clone())),
        Some(_) => Err(SchemaError::WrongType),
    }
}

fn hex_error(r: Result<HexU32, HexError>) -> (o: Result<u32, SchemaError>)
    ensures
        match r {
            Ok(h) => o == Ok::<u32, SchemaError>(h.0),
            Err(e) => o == Err::<u32, _>(SchemaError::BadHex(e)),
        },
{
    match r {
        Ok(h) => Ok(h.0),
        Err(e) => Err(SchemaError::BadHex(e)),
    }
}

fn decode_hex(j: &Json) -> (r: Result<u32, SchemaError>)
    ensures
        r == dec_hex(j@),
{
    match j {
        Json::Str(s) => hex_error(HexU32::decode_str(s.as_str())),
        Json::UInt(n) => hex_error(HexU32::decode_u64(*n)),
        _ => Err(SchemaError::WrongType),
    }
}

fn decode_hex_key(s: &String) -> (r: Result<u32, SchemaError>)
    ensures
        r == dec_hex_key(s@),
{
    hex_error(HexU32::decode_str(s.as_str()))
}

fn decode_str_list(j: &Json) -> (r: Result<Vec<String>, SchemaError>)
    ensures
        match r {
            Ok(v) => dec_str_list(j@) == Ok::<_, SchemaError>(strings_view(v)),
            Err(e) => dec_str_list(j@) == Err::<Seq<Seq<char>>, _>(e),
        },
{
    match j {
        Json::Array(xs) => {
            proof {
                lemma_array_view(*xs);
            }
            decode_str_items(xs)
        },
        _ => Err(SchemaError::WrongType),
    }
}

fn decode_str_items(xs: &Vec<Json>) -> (r: Result<Vec<String>, SchemaError>)
    ensures
        match r {
            Ok(v) => dec_str_list(JsonValue::Array(items_view(*xs))) == Ok::<_, SchemaError>(
                strings_view(v),
            ),
            Err(e) => dec_str_list(JsonValue::Array(items_view(*xs))) == Err::<Seq<Seq<char>>, _>(e),
        },
{
    let ghost xv = items_view(*xs);
    let mut out: Vec<String> = Vec::new();
    let mut i: usize = 0;
    while i < xs.len()
        invariant
            i <= xs.len(),
            xv == items_view(*xs),
            out.len() == i,
            forall|m: int| 0 <= m < i ==> (#[trigger] xv[m]) is Str,
            forall|m: int| 0 <= m < i ==> (#[trigger] out@[m])@ == xv[m]->Str_0,
        decreases xs.len() - i,
    {
        match &xs[i] {
            Json::Str(s) => {
                out.push(s.clone());
            },
            _ => {
                proof {
                    assert(xv[i as int] == xs@[i as int]@);
                    assert(!(xv[i as int] is Str));
                    assert(!(forall|m: int| 0 <= m < xv.len() ==> (#[trigger] xv[m]) is Str));
                }
                return Err(SchemaError::WrongType);
            },
        }
        i = i + 1;
    }
    proof {
        assert(strings_view(out) =~= Seq::new(xv.len(), |m: int| xv[m]->Str_0));
    }
    Ok(out)
}

fn decode_opt_str_list(fs: &Vec<(String, Json)>, k: &str) -> (r: Result<Vec<String>, SchemaError>)
    ensures
        match r {
            Ok(v) => dec_opt_str_list(fields_view(*fs), k@) == Ok::<_, SchemaError>(strings_view(v)),
            Err(e) => dec_opt_str_list(fields_view(*fs), k@) == Err::<Seq<Seq<char>>, _>(e),
        },
{
    match get_field(fs, k) {
        None => {
            let v: Vec<String> = Vec::new();
            proof {
                assert(strings_view(v) =~= Seq::empty());
            }
            Ok(v)
        },
        Some(j) => decode_str_list(j),
    }
}

/// The payload-free property kind of a tag, as `scalar_kind` gives it.
fn scalar_kind_of(t: &str) -> (r: Option<PropertyTemplateType>)
    ensures
        r is Some <==> scalar_kind(t@) is Some,
        r matches Some(k) ==> scalar_kind(t@) == Some(k@),
{
    if str_eq(t, "unknown") {
        Some(PropertyTemplateType::Unknown)
    } else if str_eq(t, "id") {
        Some(PropertyTemplateType::Id)
    } else if str_eq(t, "color") {
        Some(PropertyTemplateType::Color)
    } else if str_eq(t, "vector") {
        Some(PropertyTemplateType::Vector)
    } else if str_eq(t, "bool") {
        Some(PropertyTemplateType::Bool)
    } else if str_eq(t, "i8") {
        Some(PropertyTemplateType::I8)
    } else if str_eq(t, "i16") {
        Some(PropertyTemplateType::I16)
    } else if str_eq(t, "i32") {
        Some(PropertyTemplateType::I32)
    } else if str_eq(t, "i64") {
        Some(PropertyTemplateType::I64)
    } else if str_eq(t, "u8") {
        Some(PropertyTemplateType::U8)
    } else if str_eq(t, "u16") {
        Some(PropertyTemplateType::U16)
    } else if str_eq(t, "u32") {
        Some(PropertyTemplateType::U32)
    } else if str_eq(t, "u64") {
        Some(PropertyTemplateType::U64)
    } else if str_eq(t, "f32") {
        Some(PropertyTemplateType::F32)
    } else if str_eq(t, "f64") {
        Some(PropertyTemplateType::F64)
    } else {
        None
    }
}

fn property_keys_of(with_names: bool, t: &str) -> (r: Vec<&'static str>)
    ensures
        strs_view(r) == property_keys(with_names, t@),
{
    let mut r: Vec<&'static str> = Vec::new();
    if with_names {
        r.push("name");
        r.push("description");
    }
    r.push("type");
    if str_eq(t, "enum") {
        r.push("enum");
    } else if str_eq(t, "struct") {
        r.push("struct");
    } else if str_eq(t, "typedef") {
        r.push("supported_types");
    } else if str_eq(t, "list") {
        r.push("element");
    }
    proof {
        assert(strs_view(r) =~= property_keys(with_names, t@));
    }
    r
}

/// Reads the kind of a property from its record's fields.
pub fn decode_property_type(fs: &Vec<(String, Json)>, with_names: bool) -> (r: Result<
    PropertyTemplateType,
    SchemaError,
>)
    ensures
        res_view(r) == dec_prop_type(fields_view(*fs), with_names),
    decreases fs,
{
    let ghost fv = fields_view(*fs);
    let i = match find_field(fs, "type") {
        None => return Err(SchemaError::MissingField),
        Some(i) => i,
    };
    let t = match &fs[i].1 {
        Json::Str(t) => t.as_str(),
        _ => return Err(SchemaError::WrongType),
    };
    let scalar = scalar_kind_of(t);
    let is_enum = str_eq(t, "enum");
    let is_struct = str_eq(t, "struct");
    let is_typedef = str_eq(t, "typedef");
    let is_list = str_eq(t, "list");
    if scalar.is_none() && !is_enum && !is_struct && !is_typedef && !is_list {
        return Err(SchemaError::UnknownTag);
    }
    let allowed = property_keys_of(with_names, t);
    if !check_keys(fs, &allowed) {
        return Err(SchemaError::UnknownField);
    }
    if is_enum {
        match decode_req_str(fs, "enum") {
            Ok(n) => Ok(PropertyTemplateType::Enum(EnumProperty { enum_name: n })),
            Err(e) => Err(e),
        }
    } else if is_struct {
        match decode_req_str(fs, "struct") {
            Ok(n) => Ok(PropertyTemplateType::Struct(StructProperty { struct_name: n })),
            Err(e) => Err(e),
        }
    } else if is_typedef {
        match decode_opt_str_list(fs, "supported_types") {
            Ok(ts) => Ok(PropertyTemplateType::Typedef(TypedefProperty { supported_types: ts })),
            Err(e) => Err(e),
        }
    } else if is_list {
        match find_field(fs, "element") {
            None => Err(SchemaError::MissingField),
            Some(e) => match &fs[e].1 {
                Json::Object(efs) => {
                    proof {
                        lemma_object_view(*efs);
                    }
                    match decode_property_type(efs, false) {
                        Ok(k) => Ok(PropertyTemplateType::List(ListProperty { element: Box::new(k) })),
                        Err(x) => Err(x),
                    }
                },
                _ => Err(SchemaError::WrongType),
            },
        }
    } else {
        match scalar {
            Some(k) => Ok(k),
            None => Err(SchemaError::UnknownTag),
        }
    }
}

/// Reads a property: a record with an optional name and description and a kind.
pub fn decode_property(j: &Json) -> (r: Result<PropertyTemplate, SchemaError>)
    ensures
        res_view(r) == dec_property(j@),
{
    match j {
        Json::Object(fs) => {
            proof {
                lemma_object_view(*fs);
            }
            let k = match decode_property_type(fs, true) {
                Ok(k) => k,
                Err(e) => return Err(e),
            };
            let n = match decode_opt_str(fs, "name") {
                Ok(n) => n,
                Err(e) => return Err(e),
            };
            let d = match decode_opt_str(fs, "description") {
                Ok(d) => d,
                Err(e) => return Err(e),
            };
            Ok(PropertyTemplate { name: n, description: d, template: k })
        },
        _ => Err(SchemaError::NotAnObject),
    }
}

/// Reads the elements of a struct, in order.
pub fn decode_properties(xs: &Vec<Json>) -> (r: Result<Vec<PropertyTemplate>, SchemaError>)
    ensures
        match r {
            Ok(v) => dec_properties(items_view(*xs)) == Ok::<_, SchemaError>(properties_view(v)),
            Err(e) => dec_properties(items_view(*xs)) == Err::<Seq<PropertyModel>, _>(e),
        },
{
    let ghost xv = items_view(*xs);
    let mut out: Vec<PropertyTemplate> = Vec::new();
    let mut i: usize = 0;
    proof {
        assert(xv.subrange(0, 0) =~= Seq::<JsonValue>::empty());
        assert(properties_view(out) =~= Seq::empty());
    }
    while i < xs.len()
        invariant
            i <= xs.len(),
            xv == items_view(*xs),
            dec_properties(xv.subrange(0, i as int)) == Ok::<_, SchemaError>(properties_view(out)),
        decreases xs.len() - i,
    {
        proof {
            assert(xv.subrange(0, i + 1).drop_last() =~= xv.subrange(0, i as int));
            assert(xv.subrange(0, i + 1).last() == xs@[i as int]@);
        }
        match decode_property(&xs[i]) {
            Ok(p) => {
                let ghost before = properties_view(out);
                out.push(p);
                proof {
                    assert(properties_view(out) =~= before.push(p@));
                }
            },
            Err(e) => {
                proof {
                    lemma_dec_properties_err(xv, i + 1);
                }
                return Err(e);
            },
        }
        i = i + 1;
    }
    proof {
        assert(xv.subrange(0, xs.len() as int) =~= xv);
    }
    Ok(out)
}

/// Reads a property list's map, in document order.
pub fn decode_property_map(fs: &Vec<(String, Json)>) -> (r: Result<PropertyListTemplate, SchemaError>)
    ensures
        res_view(r) == dec_property_map(fields_view(*fs)),
{
    let ghost fv = fields_view(*fs);
    let mut out = PropertyListTemplate { properties: new_property_map() };
    let mut i: usize = 0;
    proof {
        assert(fv.subrange(0, 0) =~= Seq::<(Seq<char>, JsonValue)>::empty());
        assert(out@ =~= Seq::empty());
    }
    while i < fs.len()
        invariant
            i <= fs.len(),
            fv == fields_view(*fs),
            dec_property_map(fv.subrange(0, i as int)) == Ok::<_, SchemaError>(out@),
        decreases fs.len() - i,
    {
        proof {
            assert(fv.subrange(0, i + 1).drop_last() =~= fv.subrange(0, i as int));
            assert(fv.subrange(0, i + 1).last() == (fs@[i as int].0@, fs@[i as int].1@));
        }
        let k = match decode_hex_key(&fs[i].0) {
            Ok(k) => k,
            Err(e) => {
                proof {
                    lemma_dec_property_map_err(fv, i + 1);
                }
                return Err(e);
            },
        };
        if property_map_contains(&out.properties, k) {
            proof {
                lemma_dec_property_map_err(fv, i + 1);
            }
            return Err(SchemaError::DuplicateKey);
        }
        match decode_property(&fs[i].1) {
            Ok(p) => {
                property_map_insert(&mut out.properties, k, p);
            },
            Err(e) => {
                proof {
                    lemma_dec_property_map_err(fv, i + 1);
                }
                return Err(e);
            },
        }
        i = i + 1;
    }
    proof {
        assert(fv.subrange(0, fs.len() as int) =~= fv);
    }
    Ok(out)
}

/// Reads a hex-keyed map of names, in document order.
pub fn decode_hex_names(fs: &Vec<(String, Json)>) -> (r: Result<IndexMap<u32, String>, SchemaError>)
    ensures
        match r {
            Ok(v) => dec_hex_names(fields_view(*fs)) == Ok::<_, SchemaError>(name_entries(v)),
            Err(e) => dec_hex_names(fields_view(*fs)) == Err::<Seq<(u32, Seq<char>)>, _>(e),
        },
{
    let ghost fv = fields_view(*fs);
    let mut out = new_name_map();
    let mut i: usize = 0;
    proof {
        assert(fv.subrange(0, 0) =~= Seq::<(Seq<char>, JsonValue)>::empty());
    }
    while i < fs.len()
        invariant
            i <= fs.len(),
            fv == fields_view(*fs),
            dec_hex_names(fv.subrange(0, i as int)) == Ok::<_, SchemaError>(name_entries(out)),
        decreases fs.len() - i,
    {
        proof {
            assert(fv.subrange(0, i + 1).drop_last() =~= fv.subrange(0, i as int));
            assert(fv.subrange(0, i + 1).last() == (fs@[i as int].0@, fs@[i as int].1@));
        }
        let k = match decode_hex_key(&fs[i].0) {
            Ok(k) => k,
            Err(e) => {
                proof {
                    lemma_dec_hex_names_err(fv, i + 1);
                }
                return Err(e);
            },
        };
        if name_map_contains(&out, k) {
            proof {
                lemma_dec_hex_names_err(fv, i + 1);
            }
            return Err(SchemaError::DuplicateKey);
        }
        match decode_str(&fs[i].1) {
            Ok(n) => {
                name_map_insert(&mut out, k, n);
            },
            Err(e) => {
                proof {
                    lemma_dec_hex_names_err(fv, i + 1);
                }
                return Err(e);
            },
        }
        i = i + 1;
    }
    proof {
        assert(fv.subrange(0, fs.len() as int) =~= fv);
    }
    Ok(out)
}

/// Reads one element of an enum.
pub fn decode_enum_element(j: &Json) -> (r: Result<EnumElement, SchemaError>)
    ensures
        res_view(r) == dec_enum_element(j@),
{
    match j {
        Json::Object(fs) => {
            proof {
                lemma_object_view(*fs);
            }
            let allowed: Vec<&str> = vec!["name", "description", "value"];
            proof {
                assert(strs_view(allowed) =~= enum_element_keys());
            }
            if !check_keys(fs, &allowed) {
                return Err(SchemaError::UnknownField);
            }
            let n = match decode_req_str(fs, "name") {
                Ok(n) => n,
                Err(e) => return Err(e),
            };
            let d = match decode_opt_str(fs, "description") {
                Ok(d) => d,
                Err(e) => return Err(e),
            };
            let v = match get_field(fs, "value") {
                None => return Err(SchemaError::MissingField),
                Some(v) => match decode_hex(v) {
                    Ok(v) => v,
                    Err(e) => return Err(e),
                },
            };
            Ok(EnumElement { name: n, description: d, value: HexU32(v) })
        },
        _ => Err(SchemaError::NotAnObject),
    }
}

/// Reads the elements of an enum, in order.
pub fn decode_enum_elements(xs: &Vec<Json>) -> (r: Result<Vec<EnumElement>, SchemaError>)
    ensures
        match r {
            Ok(v) => dec_enum_elements(items_view(*xs)) == Ok::<_, SchemaError>(elements_view(v)),
            Err(e) => dec_enum_elements(items_view(*xs)) == Err::<Seq<EnumElementModel>, _>(e),
        },
{
    let ghost xv = items_view(*xs);
    let mut out: Vec<EnumElement> = Vec::new();
    let mut i: usize = 0;
    proof {
        assert(xv.subrange(0, 0) =~= Seq::<JsonValue>::empty());
        assert(elements_view(out) =~= Seq::empty());
    }
    while i < xs.len()
        invariant
            i <= xs.len(),
            xv == items_view(*xs),
            dec_enum_elements(xv.subrange(0, i as int)) == Ok::<_, SchemaError>(elements_view(out)),
        decreases xs.len() - i,
    {
        proof {
            assert(xv.subrange(0, i + 1).drop_last() =~= xv.subrange(0, i as int));
            assert(xv.subrange(0, i + 1).last() == xs@[i as int]@);
        }
        match decode_enum_element(&xs[i]) {
            Ok(x) => {
                let ghost before = elements_view(out);
                out.push(x);
                proof {
                    assert(elements_view(out) =~= before.push(x@));
                }
            },
            Err(e) => {
                proof {
                    lemma_dec_enum_elements_err(xv, i + 1);
                }
                return Err(e);
            },
        }
        i = i + 1;
    }
    proof {
        assert(xv.subrange(0, xs.len() as int) =~= xv);
    }
    Ok(out)
}

fn template_keys_of(t: &str) -> (r: Vec<&'static str>)
    ensures
        strs_view(r) == template_keys(t@),
{
    let mut r: Vec<&'static str> = vec!["$schema", "name", "description", "type"];
    r.push(template_payload_key_of(t));
    proof {
        assert(strs_view(r) =~= template_keys(t@));
    }
    r
}

fn template_payload_key_of(t: &str) -> (r: &'static str)
    ensures
        r@ == template_payload_key(t@),
{
    if str_eq(t, "property_list") {
        "properties"
    } else if str_eq(t, "struct") {
        "elements"
    } else {
        "values"
    }
}

/// Reads a template's payload from the value of its payload field.
fn decode_template_payload(t: &str, j: &Json) -> (r: Result<TypeTemplateType, SchemaError>)
    ensures
        res_view(r) == dec_template_payload(t@, j@),
{
    if str_eq(t, "property_list") {
        match j {
            Json::Object(pfs) => {
                proof {
                    lemma_object_view(*pfs);
                }
                match decode_property_map(pfs) {
                    Ok(ps) => Ok(TypeTemplateType::PropertyList(ps)),
                    Err(e) => Err(e),
                }
            },
            _ => Err(SchemaError::WrongType),
        }
    } else if str_eq(t, "struct") {
        match j {
            Json::Array(xs) => {
                proof {
                    lemma_array_view(*xs);
                }
                match decode_properties(xs) {
                    Ok(ps) => Ok(TypeTemplateType::Struct(StructTemplate { elements: ps })),
                    Err(e) => Err(e),
                }
            },
            _ => Err(SchemaError::WrongType),
        }
    } else {
        match j {
            Json::Array(xs) => {
                proof {
                    lemma_array_view(*xs);
                }
                match decode_enum_elements(xs) {
                    Ok(es) => Ok(TypeTemplateType::Enum(EnumTemplate { values: es })),
                    Err(e) => Err(e),
                }
            },
            _ => Err(SchemaError::WrongType),
        }
    }
}

/// Reads a schema document from a JSON tree.
pub fn decode_type_template(j: &Json) -> (r: Result<TypeTemplate, SchemaError>)
    ensures
        res_view(r) == dec_template(j@),
{
    let fs = match j {
        Json::Object(fs) => fs,
        _ => return Err(SchemaError::NotAnObject),
    };
    proof {
        lemma_object_view(*fs);
        assert(j@ == JsonValue::Object(fields_view(*fs)));
    }
    let t = match get_field(fs, "type") {
        None => return Err(SchemaError::MissingField),
        Some(Json::Str(t)) => t.as_str(),
        Some(_) => return Err(SchemaError::WrongType),
    };
    if !str_eq(t, "property_list") && !str_eq(t, "struct") && !str_eq(t, "enum") {
        return Err(SchemaError::UnknownTag);
    }
    let allowed = template_keys_of(t);
    if !check_keys(fs, &allowed) {
        return Err(SchemaError::UnknownField);
    }
    let schema = match decode_req_str(fs, "$schema") {
        Ok(s) => s,
        Err(e) => return Err(e),
    };
    let name = match decode_req_str(fs, "name") {
        Ok(n) => n,
        Err(e) => return Err(e),
    };
    let description = match decode_opt_str(fs, "description") {
        Ok(d) => d,
        Err(e) => return Err(e),
    };
    let template = match get_field(fs, template_payload_key_of(t)) {
        None => return Err(SchemaError::MissingField),
        Some(p) => match decode_template_payload(t, p) {
            Ok(k) => k,
            Err(e) => return Err(e),
        },
    };
    Ok(TypeTemplate { schema, name, description, template })
}

fn decode_opt_hex_names(fs: &Vec<(String, Json)>, k: &str) -> (r: Result<IndexMap<u32, String>, SchemaError>)
    ensures
        match r {
            Ok(v) => dec_opt_hex_names(fields_view(*fs), k@) == Ok::<_, SchemaError>(name_entries(v)),
            Err(e) => dec_opt_hex_names(fields_view(*fs), k@) == Err::<Seq<(u32, Seq<char>)>, _>(e),
        },
{
    match get_field(fs, k) {
        None => {
            Ok(new_name_map())
        },
        Some(Json::Object(nfs)) => {
            proof {
                lemma_object_view(*nfs);
            }
            decode_hex_names(nfs)
        },
        Some(_) => Err(SchemaError::WrongType),
    }
}

/// Reads a manifest root from a JSON tree.
pub fn decode_template_root(j: &Json) -> (r: Result<TemplateRoot, SchemaError>)
    ensures
        res_view(r) == dec_root(j@),
{
    let fs = match j {
        Json::Object(fs) => fs,
        _ => return Err(SchemaError::NotAnObject),
    };
    proof {
        lemma_object_view(*fs);
        assert(j@ == JsonValue::Object(fields_view(*fs)));
    }
    let allowed: Vec<&str> = vec!["$schema", "name", "description", "objects", "typedefs", "structs", "enums"];
    proof {
        assert(strs_view(allowed) =~= root_keys());
    }
    if !check_keys(fs, &allowed) {
        return Err(SchemaError::UnknownField);
    }
    let schema = match decode_req_str(fs, "$schema") {
        Ok(s) => s,
        Err(e) => return Err(e),
    };
    let name = match decode_req_str(fs, "name") {
        Ok(n) => n,
        Err(e) => return Err(e),
    };
    let description = match decode_opt_str(fs, "description") {
        Ok(d) => d,
        Err(e) => return Err(e),
    };
    let objects = match decode_opt_hex_names(fs, "objects") {
        Ok(o) => o,
        Err(e) => return Err(e),
    };
    let typedefs = match decode_opt_hex_names(fs, "typedefs") {
        Ok(t) => t,
        Err(e) => return Err(e),
    };
    let structs = match decode_opt_str_list(fs, "structs") {
        Ok(v) => v,
        Err(e) => return Err(e),
    };
    let enums = match decode_opt_str_list(fs, "enums") {
        Ok(v) => v,
        Err(e) => return Err(e),
    };
    Ok(TemplateRoot { schema, name, description, objects, typedefs, structs, enums })
}

} // verus!
