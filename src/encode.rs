//! Writing schema documents as a JSON tree, exactly as `crate::schema`
//! states it.
use crate::json::{fields_view, items_view, lemma_array_view, lemma_object_view, Json, JsonValue};
use crate::model::{
    elements_view, opt_view, properties_view, strings_view, EnumElement, PropertyListTemplate,
    PropertyTemplate, PropertyTemplateType, TemplateRoot, TypeTemplate, TypeTemplateType,
};
use crate::schema::{
    enc_enum_element, enc_enum_elements, enc_hex_names, enc_prop_type, enc_properties,
    enc_property, enc_property_map, enc_root, enc_str_list, enc_template, opt_field, property_tag,
    template_payload_key, template_tag,
};
use crate::hex::HexU32;
use crate::ordered::{
    name_entries, name_map_entry, name_map_len, property_map_entry, property_map_len,
};
use indexmap::IndexMap;
use vstd::prelude::*;

verus! {

fn push_field(fs: &mut Vec<(String, Json)>, k: &str, v: Json)
    ensures
        fields_view(*final(fs)) == fields_view(*old(fs)).push((k@, v@)),
{
    let ghost before = fields_view(*fs);
    fs.push((String::from_str(k), v));
    proof {
        assert(fields_view(*fs) =~= before.push((k@, v@)));
    }
}

fn push_opt_field(fs: &mut Vec<(String, Json)>, k: &str, o: &Option<String>)
    ensures
        fields_view(*final(fs)) == fields_view(*old(fs)) + opt_field(k@, opt_view(*o)),
{
    match o {
        Some(s) => push_field(fs, k, Json::Str(s.clone())),
        None => {
            proof {
                assert(fields_view(*fs) =~= fields_view(*fs) + opt_field(k@, opt_view(*o)));
            }
        },
    }
}

fn object(fs: Vec<(String, Json)>) -> (r: Json)
    ensures
        r@ == JsonValue::Object(fields_view(fs)),
{
    proof {
        lemma_object_view(fs);
    }
    Json::Object(fs)
}

fn array(xs: Vec<Json>) -> (r: Json)
    ensures
        r@ == JsonValue::Array(items_view(xs)),
{
    proof {
        lemma_array_view(xs);
    }
    Json::Array(xs)
}

fn encode_str_list(v: &Vec<String>) -> (r: Json)
    ensures
        r@ == enc_str_list(strings_view(*v)),
{
    let mut out: Vec<Json> = Vec::new();
    let mut i: usize = 0;
    while i < v.len()
        invariant
            i <= v.len(),
            out.len() == i,
            forall|m: int| 0 <= m < i ==> (#[trigger] out@[m])@ == JsonValue::Str(v@[m]@),
        decreases v.len() - i,
    {
        out.push(Json::Str(v[i].clone()));
        i = i + 1;
    }
    let r = array(out);
    proof {
        assert(items_view(out) =~= enc_str_list(strings_view(*v))->Array_0);
    }
    r
}

/// The tag that names a property kind.
pub fn property_tag_of(t: &PropertyTemplateType) -> (r: &'static str)
    ensures
        r@ == property_tag(t@),
{
    match t {
        PropertyTemplateType::Unknown => "unknown",
        PropertyTemplateType::Enum(_) => "enum",
        PropertyTemplateType::Struct(_) => "struct",
        PropertyTemplateType::Typedef(_) => "typedef",
        PropertyTemplateType::List(_) => "list",
        PropertyTemplateType::Id => "id",
        PropertyTemplateType::Color => "color",
        PropertyTemplateType::Vector => "vector",
        PropertyTemplateType::Bool => "bool",
        PropertyTemplateType::I8 => "i8",
        PropertyTemplateType::I16 => "i16",
        PropertyTemplateType::I32 => "i32",
        PropertyTemplateType::I64 => "i64",
        PropertyTemplateType::U8 => "u8",
        PropertyTemplateType::U16 => "u16",
        PropertyTemplateType::U32 => "u32",
        PropertyTemplateType::U64 => "u64",
        PropertyTemplateType::F32 => "f32",
        PropertyTemplateType::F64 => "f64",
    }
}

/// Appends the fields that write a property kind: the tag, then the payload.
fn encode_property_type(t: &PropertyTemplateType, fs: &mut Vec<(String, Json)>)
    ensures
        fields_view(*final(fs)) == fields_view(*old(fs)) + enc_prop_type(t@),
    decreases t,
{
    let ghost before = fields_view(*fs);
    push_field(fs, "type", Json::Str(String::from_str(property_tag_of(t))));
    match t {
        PropertyTemplateType::Enum(p) => push_field(fs, "enum", Json::Str(p.enum_name.clone())),
        PropertyTemplateType::Struct(p) => push_field(fs, "struct", Json::Str(p.struct_name.clone())),
        PropertyTemplateType::Typedef(p) => push_field(fs, "supported_types", encode_str_list(&p.supported_types)),
        PropertyTemplateType::List(p) => {
            let mut inner: Vec<(String, Json)> = Vec::new();
            proof {
                assert(fields_view(inner) =~= Seq::empty());
            }
            encode_property_type(&p.element, &mut inner);
            proof {
                assert(fields_view(inner) =~= enc_prop_type((*p.element)@));
            }
            push_field(fs, "element", object(inner));
        },
        _ => {},
    }
    proof {
        assert(fields_view(*fs) =~= before + enc_prop_type(t@));
    }
}

/// Writes a property: name and description where present, then its kind.
pub fn encode_property(p: &PropertyTemplate) -> (r: Json)
    ensures
        r@ == enc_property(p@),
{
    let mut fs: Vec<(String, Json)> = Vec::new();
    proof {
        assert(fields_view(fs) =~= Seq::empty());
    }
    push_opt_field(&mut fs, "name", &p.name);
    push_opt_field(&mut fs, "description", &p.description);
    encode_property_type(&p.template, &mut fs);
    proof {
        assert(fields_view(fs) =~= opt_field("name"@, p@.name) + opt_field("description"@, p@.description)
            + enc_prop_type(p@.kind));
    }
    object(fs)
}

/// Writes the elements of a struct, in order.
fn encode_properties(ps: &Vec<PropertyTemplate>) -> (r: Json)
    ensures
        r@ == JsonValue::Array(enc_properties(properties_view(*ps))),
{
    let mut out: Vec<Json> = Vec::new();
    let mut i: usize = 0;
    while i < ps.len()
        invariant
            i <= ps.len(),
            out.len() == i,
            forall|m: int| 0 <= m < i ==> (#[trigger] out@[m])@ == enc_property(ps@[m]@),
        decreases ps.len() - i,
    {
        out.push(encode_property(&ps[i]));
        i = i + 1;
    }
    proof {
        assert(items_view(out) =~= enc_properties(properties_view(*ps)));
    }
    array(out)
}

/// Writes a property list's map, each key in its text form, in order.
fn encode_property_map(p: &PropertyListTemplate) -> (r: Json)
    ensures
        r@ == JsonValue::Object(enc_property_map(p@)),
{
    let mut out: Vec<(String, Json)> = Vec::new();
    let mut i: usize = 0;
    let n = property_map_len(&p.properties);
    while i < n
        invariant
            i <= n,
            n == p@.len(),
            out.len() == i,
            forall|m: int|
                0 <= m < i ==> (#[trigger] fields_view(out)[m]) == enc_property_map(p@)[m],
        decreases n - i,
    {
        let ghost prev = fields_view(out);
        let (k, prop) = property_map_entry(&p.properties, i);
        out.push((HexU32(k).encode_human(), encode_property(prop)));
        proof {
            assert(fields_view(out) =~= prev.push(enc_property_map(p@)[i as int]));
        }
        i = i + 1;
    }
    proof {
        assert(fields_view(out) =~= enc_property_map(p@));
    }
    object(out)
}

/// Writes one element of an enum.
pub fn encode_enum_element(e: &EnumElement) -> (r: Json)
    ensures
        r@ == enc_enum_element(e@),
{
    let mut fs: Vec<(String, Json)> = Vec::new();
    proof {
        assert(fields_view(fs) =~= Seq::empty());
    }
    push_field(&mut fs, "name", Json::Str(e.name.clone()));
    push_opt_field(&mut fs, "description", &e.description);
    push_field(&mut fs, "value", Json::Str(e.value.encode_human()));
    proof {
        assert(fields_view(fs) =~= enc_enum_element(e@)->Object_0);
    }
    object(fs)
}

fn encode_enum_elements(es: &Vec<EnumElement>) -> (r: Json)
    ensures
        r@ == JsonValue::Array(enc_enum_elements(elements_view(*es))),
{
    let mut out: Vec<Json> = Vec::new();
    let mut i: usize = 0;
    while i < es.len()
        invariant
            i <= es.len(),
            out.len() == i,
            forall|m: int| 0 <= m < i ==> (#[trigger] out@[m])@ == enc_enum_element(es@[m]@),
        decreases es.len() - i,
    {
        out.push(encode_enum_element(&es[i]));
        i = i + 1;
    }
    proof {
        assert(items_view(out) =~= enc_enum_elements(elements_view(*es)));
    }
    array(out)
}

/// The tag that names a template kind.
pub fn template_tag_of(t: &TypeTemplateType) -> (r: &'static str)
    ensures
        r@ == template_tag(t@),
{
    match t {
        TypeTemplateType::PropertyList(_) => "property_list",
        TypeTemplateType::Struct(_) => "struct",
        TypeTemplateType::Enum(_) => "enum",
    }
}

fn template_payload_key_for(t: &TypeTemplateType) -> (r: &'static str)
    ensures
        r@ == template_payload_key(template_tag(t@)),
{
    proof {
        reveal_strlit("property_list");
        reveal_strlit("struct");
        reveal_strlit("enum");
        assert("struct"@[0] != "property_list"@[0]);
        assert("enum"@.len() != "property_list"@.len());
        assert("enum"@.len() != "struct"@.len());
    }
    match t {
        TypeTemplateType::PropertyList(_) => "properties",
        TypeTemplateType::Struct(_) => "elements",
        TypeTemplateType::Enum(_) => "values",
    }
}

/// Writes a schema document as a JSON tree.
pub fn encode_type_template(t: &TypeTemplate) -> (r: Json)
    ensures
        r@ == enc_template(t@),
{
    let mut fs: Vec<(String, Json)> = Vec::new();
    proof {
        assert(fields_view(fs) =~= Seq::empty());
    }
    push_field(&mut fs, "$schema", Json::Str(t.schema.clone()));
    push_field(&mut fs, "name", Json::Str(t.name.clone()));
    push_opt_field(&mut fs, "description", &t.description);
    push_field(&mut fs, "type", Json::Str(String::from_str(template_tag_of(&t.template))));
    let payload = match &t.template {
        TypeTemplateType::PropertyList(p) => encode_property_map(p),
        TypeTemplateType::Struct(s) => encode_properties(&s.elements),
        TypeTemplateType::Enum(e) => encode_enum_elements(&e.values),
    };
    push_field(&mut fs, template_payload_key_for(&t.template), payload);
    proof {
        assert(fields_view(fs) =~= enc_template(t@)->Object_0);
    }
    object(fs)
}

fn encode_hex_names(ns: &IndexMap<u32, String>) -> (r: Json)
    ensures
        r@ == JsonValue::Object(enc_hex_names(name_entries(*ns))),
{
    let mut out: Vec<(String, Json)> = Vec::new();
    let mut i: usize = 0;
    let n = name_map_len(ns);
    while i < n
        invariant
            i <= n,
            n == name_entries(*ns).len(),
            out.len() == i,
            forall|m: int|
                0 <= m < i ==> (#[trigger] fields_view(out)[m]) == enc_hex_names(name_entries(*ns))[m],
        decreases n - i,
    {
        let ghost prev = fields_view(out);
        let (k, name) = name_map_entry(ns, i);
        out.push((HexU32(k).encode_human(), Json::Str(name.clone())));
        proof {
            assert(fields_view(out) =~= prev.push(enc_hex_names(name_entries(*ns))[i as int]));
        }
        i = i + 1;
    }
    proof {
        assert(fields_view(out) =~= enc_hex_names(name_entries(*ns)));
    }
    object(out)
}

/// Writes a manifest root as a JSON tree.
pub fn encode_template_root(r: &TemplateRoot) -> (j: Json)
    ensures
        j@ == enc_root(r@),
{
    let mut fs: Vec<(String, Json)> = Vec::new();
    proof {
        assert(fields_view(fs) =~= Seq::empty());
    }
    push_field(&mut fs, "$schema", Json::Str(r.schema.clone()));
    push_field(&mut fs, "name", Json::Str(r.name.clone()));
    push_opt_field(&mut fs, "description", &r.description);
    push_field(&mut fs, "objects", encode_hex_names(&r.objects));
    push_field(&mut fs, "typedefs", encode_hex_names(&r.typedefs));
    push_field(&mut fs, "structs", encode_str_list(&r.structs));
    push_field(&mut fs, "enums", encode_str_list(&r.enums));
    proof {
        assert(fields_view(fs) =~= enc_root(r@)->Object_0);
    }
    object(fs)
}

} // verus!
