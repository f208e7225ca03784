//! What holds across reading and writing schema documents.
use crate::hex::{lemma_human_round_trip, spec_encode_human};
use crate::json::{
    field, field_index, keys_within, lemma_field_absent, lemma_field_at, Fields, JsonValue,
};
use crate::model::{
    kind_wf, keys_unique, EnumElementModel, PropertyKind, PropertyModel, TemplateKind,
    TemplateRootModel, TypeTemplateModel,
};
use crate::schema::{
    dec_enum_element, dec_enum_elements, dec_hex, dec_hex_key, dec_hex_names, dec_prop_type,
    dec_properties, dec_property, dec_property_map, dec_root, dec_str_list, dec_template,
    enc_enum_element, enc_enum_elements, enc_hex_names, enc_prop_type, enc_properties,
    enc_property, enc_property_map, enc_root, enc_str_list, enc_template, has_key,
    known_property_tag, known_template_tag, opt_field, property_keys, property_tag, template_keys,
    template_payload_key, template_tag, enum_element_keys, root_keys,
};
use vstd::prelude::*;

verus! {

/// The length and first two characters of every key and tag; no two agree
/// on all three, which tells them apart.
proof fn lemma_literals()
    ensures
        "$schema"@.len() == 7 && "$schema"@[0] == '$' && "$schema"@[1] == 's',
        "name"@.len() == 4 && "name"@[0] == 'n' && "name"@[1] == 'a',
        "description"@.len() == 11 && "description"@[0] == 'd' && "description"@[1] == 'e',
        "type"@.len() == 4 && "type"@[0] == 't' && "type"@[1] == 'y',
        "enum"@.len() == 4 && "enum"@[0] == 'e' && "enum"@[1] == 'n',
        "struct"@.len() == 6 && "struct"@[0] == 's' && "struct"@[1] == 't',
        "typedef"@.len() == 7 && "typedef"@[0] == 't' && "typedef"@[1] == 'y',
        "list"@.len() == 4 && "list"@[0] == 'l' && "list"@[1] == 'i',
        "supported_types"@.len() == 15 && "supported_types"@[0] == 's' && "supported_types"@[1] == 'u',
        "element"@.len() == 7 && "element"@[0] == 'e' && "element"@[1] == 'l',
        "unknown"@.len() == 7 && "unknown"@[0] == 'u' && "unknown"@[1] == 'n',
        "id"@.len() == 2 && "id"@[0] == 'i' && "id"@[1] == 'd',
        "color"@.len() == 5 && "color"@[0] == 'c' && "color"@[1] == 'o',
        "vector"@.len() == 6 && "vector"@[0] == 'v' && "vector"@[1] == 'e',
        "bool"@.len() == 4 && "bool"@[0] == 'b' && "bool"@[1] == 'o',
        "i8"@.len() == 2 && "i8"@[0] == 'i' && "i8"@[1] == '8',
        "i16"@.len() == 3 && "i16"@[0] == 'i' && "i16"@[1] == '1',
        "i32"@.len() == 3 && "i32"@[0] == 'i' && "i32"@[1] == '3',
        "i64"@.len() == 3 && "i64"@[0] == 'i' && "i64"@[1] == '6',
        "u8"@.len() == 2 && "u8"@[0] == 'u' && "u8"@[1] == '8',
        "u16"@.len() == 3 && "u16"@[0] == 'u' && "u16"@[1] == '1',
        "u32"@.len() == 3 && "u32"@[0] == 'u' && "u32"@[1] == '3',
        "u64"@.len() == 3 && "u64"@[0] == 'u' && "u64"@[1] == '6',
        "f32"@.len() == 3 && "f32"@[0] == 'f' && "f32"@[1] == '3',
        "f64"@.len() == 3 && "f64"@[0] == 'f' && "f64"@[1] == '6',
        "value"@.len() == 5 && "value"@[0] == 'v' && "value"@[1] == 'a',
        "property_list"@.len() == 13 && "property_list"@[0] == 'p' && "property_list"@[1] == 'r',
        "properties"@.len() == 10 && "properties"@[0] == 'p' && "properties"@[1] == 'r',
        "elements"@.len() == 8 && "elements"@[0] == 'e' && "elements"@[1] == 'l',
        "values"@.len() == 6 && "values"@[0] == 'v' && "values"@[1] == 'a',
        "objects"@.len() == 7 && "objects"@[0] == 'o' && "objects"@[1] == 'b',
        "typedefs"@.len() == 8 && "typedefs"@[0] == 't' && "typedefs"@[1] == 'y',
        "structs"@.len() == 7 && "structs"@[0] == 's' && "structs"@[1] == 't',
        "enums"@.len() == 5 && "enums"@[0] == 'e' && "enums"@[1] == 'n',
{
        reveal_strlit("$schema");
        reveal_strlit("name");
        reveal_strlit("description");
        reveal_strlit("type");
        reveal_strlit("enum");
        reveal_strlit("struct");
        reveal_strlit("typedef");
        reveal_strlit("list");
        reveal_strlit("supported_types");
        reveal_strlit("element");
        reveal_strlit("unknown");
        reveal_strlit("id");
        reveal_strlit("color");
        reveal_strlit("vector");
        reveal_strlit("bool");
        reveal_strlit("i8");
        reveal_strlit("i16");
        reveal_strlit("i32");
        reveal_strlit("i64");
        reveal_strlit("u8");
        reveal_strlit("u16");
        reveal_strlit("u32");
        reveal_strlit("u64");
        reveal_strlit("f32");
        reveal_strlit("f64");
        reveal_strlit("value");
        reveal_strlit("property_list");
        reveal_strlit("properties");
        reveal_strlit("elements");
        reveal_strlit("values");
        reveal_strlit("objects");
        reveal_strlit("typedefs");
        reveal_strlit("structs");
        reveal_strlit("enums");
}

/// The keys of a record that come before its kind: a name or a description.
pub open spec fn name_keys_only(pre: Fields) -> bool {
    forall|i: int| 0 <= i < pre.len() ==> (#[trigger] pre[i].0 == "name"@ || pre[i].0 == "description"@)
}

proof fn lemma_str_list_round_trip(ts: Seq<Seq<char>>)
    ensures
        dec_str_list(enc_str_list(ts)) == Ok::<_, crate::schema::SchemaError>(ts),
{
    let xs = enc_str_list(ts)->Array_0;
    assert(forall|i: int| 0 <= i < xs.len() ==> (#[trigger] xs[i]) is Str);
    assert(Seq::new(xs.len(), |i: int| xs[i]->Str_0) =~= ts);
}

/// A property kind written after a name and a description reads back as itself.
proof fn lemma_prop_type_round_trip(k: PropertyKind, pre: Fields, with_names: bool)
    requires
        name_keys_only(pre),
        pre.len() > 0 ==> with_names,
    ensures
        dec_prop_type(pre + enc_prop_type(k), with_names) == Ok::<_, crate::schema::SchemaError>(k),
    decreases k,
{
    lemma_literals();
    let fs = pre + enc_prop_type(k);
    let n = pre.len() as int;
    let t = property_tag(k);
    assert(fs[n] == ("type"@, JsonValue::Str(t)));
    assert forall|j: int| 0 <= j < n implies fs[j].0 != "type"@ by {
        assert(fs[j] == pre[j]);
    }
    lemma_field_at(fs, "type"@, n);
    assert(known_property_tag(t));
    assert(keys_within(fs, property_keys(with_names, t))) by {
        assert forall|i: int| 0 <= i < fs.len() implies property_keys(with_names, t).contains(
            #[trigger] fs[i].0,
        ) by {
            let al = property_keys(with_names, t);
            if i < n {
                assert(fs[i] == pre[i]);
                if fs[i].0 == "name"@ {
                    assert(al[0] == "name"@);
                } else {
                    assert(al[1] == "description"@);
                }
            } else if i == n {
                if with_names {
                    assert(al[2] == "type"@);
                } else {
                    assert(al[0] == "type"@);
                }
            } else {
                if with_names {
                    assert(al[3] == fs[i].0);
                } else {
                    assert(al[1] == fs[i].0);
                }
            }
        }
    }
    assert forall|j: int| 0 <= j <= n implies fs[j].0 != "enum"@ && fs[j].0 != "struct"@ && fs[j].0
        != "supported_types"@ && fs[j].0 != "element"@ by {
        if j < n {
            assert(fs[j] == pre[j]);
        }
    }
    match k {
        PropertyKind::Enum(nm) => {
            lemma_field_at(fs, "enum"@, n + 1);
        },
        PropertyKind::Struct(nm) => {
            lemma_field_at(fs, "struct"@, n + 1);
        },
        PropertyKind::Typedef(ts) => {
            lemma_field_at(fs, "supported_types"@, n + 1);
            lemma_str_list_round_trip(ts);
        },
        PropertyKind::List(e) => {
            lemma_field_at(fs, "element"@, n + 1);
            lemma_prop_type_round_trip(*e, seq![], false);
            assert(seq![] + enc_prop_type(*e) =~= enc_prop_type(*e));
        },
        _ => {},
    }
}

/// Writing a property and reading it back gives the property again, at any
/// depth of nested lists.
pub proof fn lemma_property_round_trip(p: PropertyModel)
    ensures
        dec_property(enc_property(p)) == Ok::<_, crate::schema::SchemaError>(p),
{
    lemma_literals();
    let pre = opt_field("name"@, p.name) + opt_field("description"@, p.description);
    let fs = pre + enc_prop_type(p.kind);
    assert(enc_property(p)->Object_0 == fs);
    assert(name_keys_only(pre));
    lemma_prop_type_round_trip(p.kind, pre, true);
    let n = pre.len() as int;
    assert(fs[n].0 == "type"@);
    assert forall|j: int| n < j < fs.len() implies fs[j].0 != "name"@ && fs[j].0 != "description"@ by {
        assert(fs[j] == enc_prop_type(p.kind)[j - n]);
    }
    match p.name {
        Some(nm) => {
            lemma_field_at(fs, "name"@, 0);
        },
        None => {
            lemma_field_absent(fs, "name"@);
        },
    }
    let di = if p.name is Some { 1int } else { 0int };
    match p.description {
        Some(d) => {
            lemma_field_at(fs, "description"@, di);
        },
        None => {
            lemma_field_absent(fs, "description"@);
        },
    }
}

/// Writing the elements of a struct and reading them back gives them again, in order.
pub proof fn lemma_properties_round_trip(ps: Seq<PropertyModel>)
    ensures
        dec_properties(enc_properties(ps)) == Ok::<_, crate::schema::SchemaError>(ps),
    decreases ps.len(),
{
    if ps.len() > 0 {
        assert(enc_properties(ps).drop_last() =~= enc_properties(ps.drop_last()));
        lemma_properties_round_trip(ps.drop_last());
        lemma_property_round_trip(ps.last());
        assert(enc_properties(ps).last() == enc_property(ps.last()));
        assert(enc_properties(ps).len() != 0);
        assert(ps.drop_last().push(ps.last()) =~= ps);
    } else {
        assert(enc_properties(ps) =~= Seq::<JsonValue>::empty());
        assert(ps =~= Seq::<PropertyModel>::empty());
    }
}

proof fn lemma_hex_key_round_trip(v: u32)
    ensures
        dec_hex_key(spec_encode_human(v)) == Ok::<u32, crate::schema::SchemaError>(v),
        dec_hex(JsonValue::Str(spec_encode_human(v))) == Ok::<u32, crate::schema::SchemaError>(v),
{
    lemma_human_round_trip(v);
}

/// Writing a property list's map and reading it back gives the same entries
/// in the same order.
pub proof fn lemma_property_map_round_trip(ps: Seq<(u32, PropertyModel)>)
    requires
        keys_unique(ps),
    ensures
        dec_property_map(enc_property_map(ps)) == Ok::<_, crate::schema::SchemaError>(ps),
    decreases ps.len(),
{
    if ps.len() > 0 {
        let init = ps.drop_last();
        assert(enc_property_map(ps).drop_last() =~= enc_property_map(init));
        lemma_property_map_round_trip(init);
        lemma_hex_key_round_trip(ps.last().0);
        lemma_property_round_trip(ps.last().1);
        assert(!has_key(init, ps.last().0)) by {
            if has_key(init, ps.last().0) {
                let i = choose|i: int| 0 <= i < init.len() && init[i].0 == ps.last().0;
                assert(ps[i].0 == ps[ps.len() - 1].0);
            }
        }
        assert(enc_property_map(ps).last() == (spec_encode_human(ps.last().0), enc_property(ps.last().1)));
        assert(enc_property_map(ps).len() != 0);
        assert(init.push((ps.last().0, ps.last().1)) =~= ps);
    } else {
        assert(enc_property_map(ps) =~= Seq::<(Seq<char>, JsonValue)>::empty());
        assert(ps =~= Seq::<(u32, PropertyModel)>::empty());
    }
}

/// Writing an enum element and reading it back gives the element again.
pub proof fn lemma_enum_element_round_trip(e: EnumElementModel)
    ensures
        dec_enum_element(enc_enum_element(e)) == Ok::<_, crate::schema::SchemaError>(e),
{
    lemma_literals();
    lemma_hex_key_round_trip(e.value);
    let fs = enc_enum_element(e)->Object_0;
    let vi = if e.description is Some { 2int } else { 1int };
    assert(fs[0].0 == "name"@);
    assert(fs[vi].0 == "value"@);
    assert(keys_within(fs, enum_element_keys())) by {
        let al = enum_element_keys();
        assert(al[0] == "name"@ && al[1] == "description"@ && al[2] == "value"@);
        assert forall|i: int| 0 <= i < fs.len() implies al.contains(#[trigger] fs[i].0) by {
            if i == 0 {
            } else if i == vi {
            } else {
                assert(fs[i].0 == "description"@);
            }
        }
    }
    lemma_field_at(fs, "name"@, 0);
    match e.description {
        Some(d) => {
            lemma_field_at(fs, "description"@, 1);
        },
        None => {
            lemma_field_absent(fs, "description"@);
        },
    }
    lemma_field_at(fs, "value"@, vi);
}

/// Writing the elements of an enum and reading them back gives them again, in order.
pub proof fn lemma_enum_elements_round_trip(es: Seq<EnumElementModel>)
    ensures
        dec_enum_elements(enc_enum_elements(es)) == Ok::<_, crate::schema::SchemaError>(es),
    decreases es.len(),
{
    if es.len() > 0 {
        assert(enc_enum_elements(es).drop_last() =~= enc_enum_elements(es.drop_last()));
        lemma_enum_elements_round_trip(es.drop_last());
        lemma_enum_element_round_trip(es.last());
        assert(enc_enum_elements(es).last() == enc_enum_element(es.last()));
        assert(enc_enum_elements(es).len() != 0);
        assert(es.drop_last().push(es.last()) =~= es);
    } else {
        assert(enc_enum_elements(es) =~= Seq::<JsonValue>::empty());
        assert(es =~= Seq::<EnumElementModel>::empty());
    }
}

/// Writing a schema document and reading it back gives the document again,
/// wherever its property list has unique keys.
pub proof fn lemma_template_round_trip(t: TypeTemplateModel)
    requires
        kind_wf(t.kind),
    ensures
        dec_template(enc_template(t)) == Ok::<_, crate::schema::SchemaError>(t),
{
    lemma_literals();
    let fs = enc_template(t)->Object_0;
    let tag = template_tag(t.kind);
    let key = template_payload_key(tag);
    let ti = if t.description is Some { 3int } else { 2int };
    assert(fs[0].0 == "$schema"@ && fs[1].0 == "name"@);
    assert(fs[ti] == ("type"@, JsonValue::Str(tag)));
    assert(fs[ti + 1].0 == key);
    assert(fs.len() == ti + 2);
    lemma_field_at(fs, "type"@, ti);
    assert(known_template_tag(tag));
    assert(keys_within(fs, template_keys(tag))) by {
        let al = template_keys(tag);
        assert(al[0] == "$schema"@ && al[1] == "name"@ && al[2] == "description"@ && al[3] == "type"@
            && al[4] == key);
        assert forall|i: int| 0 <= i < fs.len() implies al.contains(#[trigger] fs[i].0) by {
            if 2 <= i < ti {
                assert(fs[i].0 == "description"@);
            }
        }
    }
    lemma_field_at(fs, "$schema"@, 0);
    lemma_field_at(fs, "name"@, 1);
    match t.description {
        Some(d) => {
            lemma_field_at(fs, "description"@, 2);
        },
        None => {
            lemma_field_absent(fs, "description"@);
        },
    }
    lemma_field_at(fs, key, ti + 1);
    match t.kind {
        TemplateKind::PropertyList(ps) => {
            lemma_property_map_round_trip(ps);
        },
        TemplateKind::Struct(ps) => {
            lemma_properties_round_trip(ps);
        },
        TemplateKind::Enum(es) => {
            lemma_enum_elements_round_trip(es);
        },
    }
}

/// Writing a hex-keyed map of names and reading it back gives the same
/// entries in the same order.
pub proof fn lemma_hex_names_round_trip(ns: Seq<(u32, Seq<char>)>)
    requires
        keys_unique(ns),
    ensures
        dec_hex_names(enc_hex_names(ns)) == Ok::<_, crate::schema::SchemaError>(ns),
    decreases ns.len(),
{
    if ns.len() > 0 {
        let init = ns.drop_last();
        assert(enc_hex_names(ns).drop_last() =~= enc_hex_names(init));
        lemma_hex_names_round_trip(init);
        lemma_hex_key_round_trip(ns.last().0);
        assert(!has_key(init, ns.last().0)) by {
            if has_key(init, ns.last().0) {
                let i = choose|i: int| 0 <= i < init.len() && init[i].0 == ns.last().0;
                assert(ns[i].0 == ns[ns.len() - 1].0);
            }
        }
        assert(enc_hex_names(ns).last() == (spec_encode_human(ns.last().0), JsonValue::Str(ns.last().1)));
        assert(enc_hex_names(ns).len() != 0);
        assert(init.push((ns.last().0, ns.last().1)) =~= ns);
    } else {
        assert(enc_hex_names(ns) =~= Seq::<(Seq<char>, JsonValue)>::empty());
        assert(ns =~= Seq::<(u32, Seq<char>)>::empty());
    }
}

/// Writing a manifest root and reading it back gives the root again, its
/// `objects` and `typedefs` in the same order, wherever their keys are unique.
pub proof fn lemma_root_round_trip(r: TemplateRootModel)
    requires
        keys_unique(r.objects),
        keys_unique(r.typedefs),
    ensures
        dec_root(enc_root(r)) == Ok::<_, crate::schema::SchemaError>(r),
{
    lemma_literals();
    let fs = enc_root(r)->Object_0;
    let oi = if r.description is Some { 3int } else { 2int };
    assert(fs[0].0 == "$schema"@ && fs[1].0 == "name"@);
    assert(fs[oi].0 == "objects"@ && fs[oi + 1].0 == "typedefs"@ && fs[oi + 2].0 == "structs"@ && fs[oi
        + 3].0 == "enums"@);
    assert(fs.len() == oi + 4);
    assert(keys_within(fs, root_keys())) by {
        let al = root_keys();
        assert(al[0] == "$schema"@ && al[1] == "name"@ && al[2] == "description"@ && al[3] == "objects"@
            && al[4] == "typedefs"@ && al[5] == "structs"@ && al[6] == "enums"@);
        assert forall|i: int| 0 <= i < fs.len() implies al.contains(#[trigger] fs[i].0) by {
            if 2 <= i < oi {
                assert(fs[i].0 == "description"@);
            }
        }
    }
    lemma_field_at(fs, "$schema"@, 0);
    lemma_field_at(fs, "name"@, 1);
    match r.description {
        Some(d) => {
            lemma_field_at(fs, "description"@, 2);
        },
        None => {
            lemma_field_absent(fs, "description"@);
        },
    }
    lemma_field_at(fs, "objects"@, oi);
    lemma_field_at(fs, "typedefs"@, oi + 1);
    lemma_field_at(fs, "structs"@, oi + 2);
    lemma_field_at(fs, "enums"@, oi + 3);
    lemma_hex_names_round_trip(r.objects);
    lemma_hex_names_round_trip(r.typedefs);
    lemma_str_list_round_trip(r.structs);
    lemma_str_list_round_trip(r.enums);
}

/// The tag that a read property kind carries is the tag it was read from.
proof fn lemma_prop_type_tag(fs: Fields, with_names: bool)
    ensures
        dec_prop_type(fs, with_names) matches Ok(k) ==> {
            let i = field_index(fs, "type"@);
            0 <= i < fs.len() && fs[i].1 == JsonValue::Str(property_tag(k))
        },
{
    lemma_literals();
}

/// A record that reads as a property kind holds no field but the name and the
/// description (where allowed), the tag, and the payload of that kind.
pub proof fn lemma_prop_type_fields_declared(fs: Fields, with_names: bool)
    ensures
        dec_prop_type(fs, with_names) matches Ok(k) ==> keys_within(fs, property_keys(with_names, property_tag(k))),
{
    lemma_prop_type_tag(fs, with_names);
}

/// A property that reads successfully holds only declared fields.
pub proof fn lemma_property_fields_declared(j: JsonValue)
    ensures
        dec_property(j) matches Ok(p) ==> (j matches JsonValue::Object(fs) && keys_within(
            fs,
            property_keys(true, property_tag(p.kind)),
        )),
{
    if let JsonValue::Object(fs) = j {
        lemma_prop_type_fields_declared(fs, true);
    }
}

/// An enum element that reads successfully holds only declared fields.
pub proof fn lemma_enum_element_fields_declared(j: JsonValue)
    ensures
        dec_enum_element(j) is Ok ==> (j matches JsonValue::Object(fs) && keys_within(fs, enum_element_keys())),
{
}

/// A schema document that reads successfully holds only declared fields at
/// its top level.
pub proof fn lemma_template_fields_declared(j: JsonValue)
    ensures
        dec_template(j) matches Ok(t) ==> (j matches JsonValue::Object(fs) && keys_within(
            fs,
            template_keys(template_tag(t.kind)),
        )),
{
    lemma_literals();
}

/// The elements of a struct read successfully only where every element does.
pub proof fn lemma_properties_each(xs: Seq<JsonValue>)
    ensures
        dec_properties(xs) is Ok ==> forall|i: int| 0 <= i < xs.len() ==> (#[trigger] dec_property(xs[i])) is Ok,
    decreases xs.len(),
{
    if xs.len() > 0 {
        lemma_properties_each(xs.drop_last());
        if dec_properties(xs) is Ok {
            assert forall|i: int| 0 <= i < xs.len() implies (#[trigger] dec_property(xs[i])) is Ok by {
                if i < xs.len() - 1 {
                    assert(xs.drop_last()[i] == xs[i]);
                }
            }
        }
    }
}

/// A property list's map reads successfully only where every property does.
pub proof fn lemma_property_map_each(fs: Fields)
    ensures
        dec_property_map(fs) is Ok ==> forall|i: int| 0 <= i < fs.len() ==> (#[trigger] dec_property(fs[i].1)) is Ok,
    decreases fs.len(),
{
    if fs.len() > 0 {
        lemma_property_map_each(fs.drop_last());
        if dec_property_map(fs) is Ok {
            assert forall|i: int| 0 <= i < fs.len() implies (#[trigger] dec_property(fs[i].1)) is Ok by {
                if i < fs.len() - 1 {
                    assert(fs.drop_last()[i] == fs[i]);
                }
            }
        }
    }
}

/// The elements of an enum read successfully only where every element does.
pub proof fn lemma_enum_elements_each(xs: Seq<JsonValue>)
    ensures
        dec_enum_elements(xs) is Ok ==> forall|i: int| 0 <= i < xs.len() ==> (#[trigger] dec_enum_element(xs[i])) is Ok,
    decreases xs.len(),
{
    if xs.len() > 0 {
        lemma_enum_elements_each(xs.drop_last());
        if dec_enum_elements(xs) is Ok {
            assert forall|i: int| 0 <= i < xs.len() implies (#[trigger] dec_enum_element(xs[i])) is Ok by {
                if i < xs.len() - 1 {
                    assert(xs.drop_last()[i] == xs[i]);
                }
            }
        }
    }
}

/// A property list's map that reads successfully has unique keys.
pub proof fn lemma_property_map_keys_unique(fs: Fields)
    ensures
        dec_property_map(fs) matches Ok(ps) ==> keys_unique(ps),
    decreases fs.len(),
{
    if fs.len() > 0 {
        lemma_property_map_keys_unique(fs.drop_last());
    }
}

/// A hex-keyed map of names that reads successfully has unique keys.
pub proof fn lemma_hex_names_keys_unique(fs: Fields)
    ensures
        dec_hex_names(fs) matches Ok(ns) ==> keys_unique(ns),
    decreases fs.len(),
{
    if fs.len() > 0 {
        lemma_hex_names_keys_unique(fs.drop_last());
    }
}

/// Reading a schema document, writing it, and reading the result gives the
/// same document: entries, and their order, survive the cycle.
pub proof fn lemma_template_reload(j: JsonValue)
    ensures
        dec_template(j) matches Ok(t) ==> dec_template(enc_template(t)) == Ok::<_, crate::schema::SchemaError>(t),
{
    if let Ok(t) = dec_template(j) {
        if let TemplateKind::PropertyList(ps) = t.kind {
            let fs = j->Object_0;
            let pj = field(fs, template_payload_key(template_tag(t.kind)))->0;
            lemma_property_map_keys_unique(pj->Object_0);
        }
        lemma_template_round_trip(t);
    }
}

/// Reading a manifest root, writing it, and reading the result gives the
/// same root: `objects` and `typedefs` keep their order.
pub proof fn lemma_root_reload(j: JsonValue)
    ensures
        dec_root(j) matches Ok(r) ==> dec_root(enc_root(r)) == Ok::<_, crate::schema::SchemaError>(r),
{
    if let Ok(r) = dec_root(j) {
        let fs = j->Object_0;
        if let Some(JsonValue::Object(ofs)) = field(fs, "objects"@) {
            lemma_hex_names_keys_unique(ofs);
        }
        if let Some(JsonValue::Object(tfs)) = field(fs, "typedefs"@) {
            lemma_hex_names_keys_unique(tfs);
        }
        lemma_root_round_trip(r);
    }
}

} // verus!
