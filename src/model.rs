//! The schema data model: what a property is, what a template is, and the
//! documents that bind them to a name.
use crate::ordered::{name_entries, property_entries};
use crate::hex::HexU32;
use indexmap::IndexMap;
use vstd::prelude::*;

verus! {

/// What one property is, as a mathematical value.
pub enum PropertyKind {
    Unknown,
    Enum(Seq<char>),
    Struct(Seq<char>),
    Typedef(Seq<Seq<char>>),
    List(Box<PropertyKind>),
    Id,
    Color,
    Vector,
    Bool,
    I8,
    I16,
    I32,
    I64,
    U8,
    U16,
    U32,
    U64,
    F32,
    F64,
}

/// A property: optional name and description, and its kind.
pub struct PropertyModel {
    pub name: Option<Seq<char>>,
    pub description: Option<Seq<char>>,
    pub kind: PropertyKind,
}

/// One named value of an enum template.
pub struct EnumElementModel {
    pub name: Seq<char>,
    pub description: Option<Seq<char>>,
    pub value: u32,
}

/// What a template describes.
pub enum TemplateKind {
    PropertyList(Seq<(u32, PropertyModel)>),
    Struct(Seq<PropertyModel>),
    Enum(Seq<EnumElementModel>),
}

/// A schema document: one named template.
pub struct TypeTemplateModel {
    pub schema: Seq<char>,
    pub name: Seq<char>,
    pub description: Option<Seq<char>>,
    pub kind: TemplateKind,
}

/// A manifest of the named entries of one domain.
pub struct TemplateRootModel {
    pub schema: Seq<char>,
    pub name: Seq<char>,
    pub description: Option<Seq<char>>,
    pub objects: Seq<(u32, Seq<char>)>,
    pub typedefs: Seq<(u32, Seq<char>)>,
    pub structs: Seq<Seq<char>>,
    pub enums: Seq<Seq<char>>,
}

pub open spec fn opt_view(o: Option<String>) -> Option<Seq<char>> {
    match o {
        Some(s) => Some(s@),
        None => None,
    }
}

pub open spec fn strings_view(v: Vec<String>) -> Seq<Seq<char>> {
    Seq::new(v.len() as nat, |i: int| v@[i]@)
}

/// The keys of an ordered map are pairwise distinct.
pub open spec fn keys_unique<V>(s: Seq<(u32, V)>) -> bool {
    forall|i: int, j: int| 0 <= i < j < s.len() ==> s[i].0 != s[j].0
}

/// A property list's keys are unique; structs and enums carry no constraint.
/// Every property list that the library reads satisfies it.
pub open spec fn kind_wf(k: TemplateKind) -> bool {
    match k {
        TemplateKind::PropertyList(ps) => keys_unique(ps),
        _ => true,
    }
}

/// The payload of an enum property: the enum it refers to.
#[derive(Debug, PartialEq, Eq)]
pub struct EnumProperty {
    pub enum_name: String,
}

/// The payload of a struct property: the struct it refers to.
#[derive(Debug, PartialEq, Eq)]
pub struct StructProperty {
    pub struct_name: String,
}

/// The payload of a typedef property: the types it may stand for, in order.
#[derive(Debug, PartialEq, Eq)]
pub struct TypedefProperty {
    pub supported_types: Vec<String>,
}

/// The payload of a list property: the kind of every element.
#[derive(Debug, PartialEq, Eq)]
pub struct ListProperty {
    pub element: Box<PropertyTemplateType>,
}

/// What one property is.
#[derive(Debug, PartialEq, Eq)]
pub enum PropertyTemplateType {
    Unknown,
    Enum(EnumProperty),
    Struct(StructProperty),
    Typedef(TypedefProperty),
    List(ListProperty),
    Id,
    Color,
    Vector,
    Bool,
    I8,
    I16,
    I32,
    I64,
    U8,
    U16,
    U32,
    U64,
    F32,
    F64,
}

impl View for PropertyTemplateType {
    type V = PropertyKind;

    open spec fn view(&self) -> PropertyKind
        decreases self,
    {
        match self {
            PropertyTemplateType::Unknown => PropertyKind::Unknown,
            PropertyTemplateType::Enum(p) => PropertyKind::Enum(p.enum_name@),
            PropertyTemplateType::Struct(p) => PropertyKind::Struct(p.struct_name@),
            PropertyTemplateType::Typedef(p) => PropertyKind::Typedef(strings_view(p.supported_types)),
            PropertyTemplateType::List(p) => PropertyKind::List(Box::new((*p.element).view())),
            PropertyTemplateType::Id => PropertyKind::Id,
            PropertyTemplateType::Color => PropertyKind::Color,
            PropertyTemplateType::Vector => PropertyKind::Vector,
            PropertyTemplateType::Bool => PropertyKind::Bool,
            PropertyTemplateType::I8 => PropertyKind::I8,
            PropertyTemplateType::I16 => PropertyKind::I16,
            PropertyTemplateType::I32 => PropertyKind::I32,
            PropertyTemplateType::I64 => PropertyKind::I64,
            PropertyTemplateType::U8 => PropertyKind::U8,
            PropertyTemplateType::U16 => PropertyKind::U16,
            PropertyTemplateType::U32 => PropertyKind::U32,
            PropertyTemplateType::U64 => PropertyKind::U64,
            PropertyTemplateType::F32 => PropertyKind::F32,
            PropertyTemplateType::F64 => PropertyKind::F64,
        }
    }
}

/// A property of a struct or a property list.
#[derive(Debug, PartialEq, Eq)]
pub struct PropertyTemplate {
    pub name: Option<String>,
    pub description: Option<String>,
    pub template: PropertyTemplateType,
}

impl View for PropertyTemplate {
    type V = PropertyModel;

    open spec fn view(&self) -> PropertyModel {
        PropertyModel {
            name: opt_view(self.name),
            description: opt_view(self.description),
            kind: self.template@,
        }
    }
}

pub open spec fn properties_view(v: Vec<PropertyTemplate>) -> Seq<PropertyModel> {
    Seq::new(v.len() as nat, |i: int| v@[i]@)
}

/// A property list: properties keyed by hex value, in insertion order.
#[derive(Debug, PartialEq, Eq)]
pub struct PropertyListTemplate {
    pub properties: IndexMap<u32, PropertyTemplate>,
}

impl View for PropertyListTemplate {
    type V = Seq<(u32, PropertyModel)>;

    open spec fn view(&self) -> Seq<(u32, PropertyModel)> {
        property_entries(self.properties)
    }
}

/// A struct: its elements in order.
#[derive(Debug, PartialEq, Eq)]
pub struct StructTemplate {
    pub elements: Vec<PropertyTemplate>,
}

/// One named value of an enum.
#[derive(Debug, PartialEq, Eq)]
pub struct EnumElement {
    pub name: String,
    pub description: Option<String>,
    pub value: HexU32,
}

impl View for EnumElement {
    type V = EnumElementModel;

    open spec fn view(&self) -> EnumElementModel {
        EnumElementModel { name: self.name@, description: opt_view(self.description), value: self.value.0 }
    }
}

/// An enum: its values in order; two elements may share a value.
#[derive(Debug, PartialEq, Eq)]
pub struct EnumTemplate {
    pub values: Vec<EnumElement>,
}

pub open spec fn elements_view(v: Vec<EnumElement>) -> Seq<EnumElementModel> {
    Seq::new(v.len() as nat, |i: int| v@[i]@)
}

/// What a template describes.
#[derive(Debug, PartialEq, Eq)]
pub enum TypeTemplateType {
    PropertyList(PropertyListTemplate),
    Struct(StructTemplate),
    Enum(EnumTemplate),
}

impl View for TypeTemplateType {
    type V = TemplateKind;

    open spec fn view(&self) -> TemplateKind {
        match self {
            TypeTemplateType::PropertyList(p) => TemplateKind::PropertyList(p@),
            TypeTemplateType::Struct(s) => TemplateKind::Struct(properties_view(s.elements)),
            TypeTemplateType::Enum(e) => TemplateKind::Enum(elements_view(e.values)),
        }
    }
}

/// A schema document: one named template.
#[derive(Debug, PartialEq, Eq)]
pub struct TypeTemplate {
    pub schema: String,
    pub name: String,
    pub description: Option<String>,
    pub template: TypeTemplateType,
}

impl View for TypeTemplate {
    type V = TypeTemplateModel;

    open spec fn view(&self) -> TypeTemplateModel {
        TypeTemplateModel {
            schema: self.schema@,
            name: self.name@,
            description: opt_view(self.description),
            kind: self.template@,
        }
    }
}

/// A manifest of the named entries of one domain.
#[derive(Debug, PartialEq, Eq)]
pub struct TemplateRoot {
    pub schema: String,
    pub name: String,
    pub description: Option<String>,
    pub objects: IndexMap<u32, String>,
    pub typedefs: IndexMap<u32, String>,
    pub structs: Vec<String>,
    pub enums: Vec<String>,
}

impl View for TemplateRoot {
    type V = TemplateRootModel;

    open spec fn view(&self) -> TemplateRootModel {
        TemplateRootModel {
            schema: self.schema@,
            name: self.name@,
            description: opt_view(self.description),
            objects: name_entries(self.objects),
            typedefs: name_entries(self.typedefs),
            structs: strings_view(self.structs),
            enums: strings_view(self.enums),
        }
    }
}

} // verus!
