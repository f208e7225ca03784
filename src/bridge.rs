//! Variant kinds of the two tagged unions, without payload: a stable index
//! for each, the way back from an index, and a label for tooling to show.
use crate::model::{
    elements_view, properties_view, strings_view, EnumProperty, EnumTemplate, ListProperty,
    PropertyKind, PropertyListTemplate, PropertyTemplateType, StructProperty, StructTemplate,
    TemplateKind, TypeTemplateType, TypedefProperty,
};
use crate::ordered::new_property_map;
use vstd::prelude::*;

verus! {

/// Looks up a variant kind by its index, building it with an empty payload.
pub trait FromRepr {
    fn from_repr(repr: usize) -> Option<Self> where Self: Sized;
}

/// The stable index of a variant kind.
pub trait IntoRepr {
    fn into_repr(self) -> usize;
}

/// The variant kinds of `PropertyTemplateType`, in declaration order.
#[derive(Clone, Copy, Debug, PartialEq, Eq, Structural, Hash)]
pub enum PropertyTemplateTypeDiscriminants {
    Unknown,
    Enum,
    Struct,
    Typedef,
    List,
    Id,
    Color,
    Vector,
    Bool,
    I8,
    I16,
    I32,
    I64,
    U8,
    U16,
    U32,
    U64,
    F32,
    F64,
}

/// The number of property kinds.
pub const PROPERTY_KIND_COUNT: usize = 19;

pub open spec fn property_kind_repr(d: PropertyTemplateTypeDiscriminants) -> nat {
    match d {
        PropertyTemplateTypeDiscriminants::Unknown => 0,
        PropertyTemplateTypeDiscriminants::Enum => 1,
        PropertyTemplateTypeDiscriminants::Struct => 2,
        PropertyTemplateTypeDiscriminants::Typedef => 3,
        PropertyTemplateTypeDiscriminants::List => 4,
        PropertyTemplateTypeDiscriminants::Id => 5,
        PropertyTemplateTypeDiscriminants::Color => 6,
        PropertyTemplateTypeDiscriminants::Vector => 7,
        PropertyTemplateTypeDiscriminants::Bool => 8,
        PropertyTemplateTypeDiscriminants::I8 => 9,
        PropertyTemplateTypeDiscriminants::I16 => 10,
        PropertyTemplateTypeDiscriminants::I32 => 11,
        PropertyTemplateTypeDiscriminants::I64 => 12,
        PropertyTemplateTypeDiscriminants::U8 => 13,
        PropertyTemplateTypeDiscriminants::U16 => 14,
        PropertyTemplateTypeDiscriminants::U32 => 15,
        PropertyTemplateTypeDiscriminants::U64 => 16,
        PropertyTemplateTypeDiscriminants::F32 => 17,
        PropertyTemplateTypeDiscriminants::F64 => 18,
    }
}

pub open spec fn property_kind_from_repr(r: nat) -> Option<PropertyTemplateTypeDiscriminants> {
    if r == 0 {
        Some(PropertyTemplateTypeDiscriminants::Unknown)
    } else if r == 1 {
        Some(PropertyTemplateTypeDiscriminants::Enum)
    } else if r == 2 {
        Some(PropertyTemplateTypeDiscriminants::Struct)
    } else if r == 3 {
        Some(PropertyTemplateTypeDiscriminants::Typedef)
    } else if r == 4 {
        Some(PropertyTemplateTypeDiscriminants::List)
    } else if r == 5 {
        Some(PropertyTemplateTypeDiscriminants::Id)
    } else if r == 6 {
        Some(PropertyTemplateTypeDiscriminants::Color)
    } else if r == 7 {
        Some(PropertyTemplateTypeDiscriminants::Vector)
    } else if r == 8 {
        Some(PropertyTemplateTypeDiscriminants::Bool)
    } else if r == 9 {
        Some(PropertyTemplateTypeDiscriminants::I8)
    } else if r == 10 {
        Some(PropertyTemplateTypeDiscriminants::I16)
    } else if r == 11 {
        Some(PropertyTemplateTypeDiscriminants::I32)
    } else if r == 12 {
        Some(PropertyTemplateTypeDiscriminants::I64)
    } else if r == 13 {
        Some(PropertyTemplateTypeDiscriminants::U8)
    } else if r == 14 {
        Some(PropertyTemplateTypeDiscriminants::U16)
    } else if r == 15 {
        Some(PropertyTemplateTypeDiscriminants::U32)
    } else if r == 16 {
        Some(PropertyTemplateTypeDiscriminants::U64)
    } else if r == 17 {
        Some(PropertyTemplateTypeDiscriminants::F32)
    } else if r == 18 {
        Some(PropertyTemplateTypeDiscriminants::F64)
    } else {
        None
    }
}

/// The label that tooling shows for a property kind.
pub open spec fn property_kind_label(d: PropertyTemplateTypeDiscriminants) -> Seq<char> {
    match d {
        PropertyTemplateTypeDiscriminants::Unknown => "Unknown"@,
        PropertyTemplateTypeDiscriminants::Enum => "Enum"@,
        PropertyTemplateTypeDiscriminants::Struct => "Struct"@,
        PropertyTemplateTypeDiscriminants::Typedef => "Typedef"@,
        PropertyTemplateTypeDiscriminants::List => "List"@,
        PropertyTemplateTypeDiscriminants::Id => "ID"@,
        PropertyTemplateTypeDiscriminants::Color => "Color"@,
        PropertyTemplateTypeDiscriminants::Vector => "Vector"@,
        PropertyTemplateTypeDiscriminants::Bool => "Bool"@,
        PropertyTemplateTypeDiscriminants::I8 => "I8"@,
        PropertyTemplateTypeDiscriminants::I16 => "I16"@,
        PropertyTemplateTypeDiscriminants::I32 => "I32"@,
        PropertyTemplateTypeDiscriminants::I64 => "I64"@,
        PropertyTemplateTypeDiscriminants::U8 => "U8"@,
        PropertyTemplateTypeDiscriminants::U16 => "U16"@,
        PropertyTemplateTypeDiscriminants::U32 => "U32"@,
        PropertyTemplateTypeDiscriminants::U64 => "U64"@,
        PropertyTemplateTypeDiscriminants::F32 => "F32"@,
        PropertyTemplateTypeDiscriminants::F64 => "F64"@,
    }
}

/// The kind of a property, without its payload.
pub open spec fn property_kind_of(k: PropertyKind) -> PropertyTemplateTypeDiscriminants {
    match k {
        PropertyKind::Unknown => PropertyTemplateTypeDiscriminants::Unknown,
        PropertyKind::Enum(_) => PropertyTemplateTypeDiscriminants::Enum,
        PropertyKind::Struct(_) => PropertyTemplateTypeDiscriminants::Struct,
        PropertyKind::Typedef(_) => PropertyTemplateTypeDiscriminants::Typedef,
        PropertyKind::List(_) => PropertyTemplateTypeDiscriminants::List,
        PropertyKind::Id => PropertyTemplateTypeDiscriminants::Id,
        PropertyKind::Color => PropertyTemplateTypeDiscriminants::Color,
        PropertyKind::Vector => PropertyTemplateTypeDiscriminants::Vector,
        PropertyKind::Bool => PropertyTemplateTypeDiscriminants::Bool,
        PropertyKind::I8 => PropertyTemplateTypeDiscriminants::I8,
        PropertyKind::I16 => PropertyTemplateTypeDiscriminants::I16,
        PropertyKind::I32 => PropertyTemplateTypeDiscriminants::I32,
        PropertyKind::I64 => PropertyTemplateTypeDiscriminants::I64,
        PropertyKind::U8 => PropertyTemplateTypeDiscriminants::U8,
        PropertyKind::U16 => PropertyTemplateTypeDiscriminants::U16,
        PropertyKind::U32 => PropertyTemplateTypeDiscriminants::U32,
        PropertyKind::U64 => PropertyTemplateTypeDiscriminants::U64,
        PropertyKind::F32 => PropertyTemplateTypeDiscriminants::F32,
        PropertyKind::F64 => PropertyTemplateTypeDiscriminants::F64,
    }
}

/// The value that `from_repr` builds for a kind: the payload left empty.
pub open spec fn property_kind_default(d: PropertyTemplateTypeDiscriminants) -> PropertyKind {
    match d {
        PropertyTemplateTypeDiscriminants::Unknown => PropertyKind::Unknown,
        PropertyTemplateTypeDiscriminants::Enum => PropertyKind::Enum(Seq::empty()),
        PropertyTemplateTypeDiscriminants::Struct => PropertyKind::Struct(Seq::empty()),
        PropertyTemplateTypeDiscriminants::Typedef => PropertyKind::Typedef(Seq::empty()),
        PropertyTemplateTypeDiscriminants::List => PropertyKind::List(Box::new(PropertyKind::Unknown)),
        PropertyTemplateTypeDiscriminants::Id => PropertyKind::Id,
        PropertyTemplateTypeDiscriminants::Color => PropertyKind::Color,
        PropertyTemplateTypeDiscriminants::Vector => PropertyKind::Vector,
        PropertyTemplateTypeDiscriminants::Bool => PropertyKind::Bool,
        PropertyTemplateTypeDiscriminants::I8 => PropertyKind::I8,
        PropertyTemplateTypeDiscriminants::I16 => PropertyKind::I16,
        PropertyTemplateTypeDiscriminants::I32 => PropertyKind::I32,
        PropertyTemplateTypeDiscriminants::I64 => PropertyKind::I64,
        PropertyTemplateTypeDiscriminants::U8 => PropertyKind::U8,
        PropertyTemplateTypeDiscriminants::U16 => PropertyKind::U16,
        PropertyTemplateTypeDiscriminants::U32 => PropertyKind::U32,
        PropertyTemplateTypeDiscriminants::U64 => PropertyKind::U64,
        PropertyTemplateTypeDiscriminants::F32 => PropertyKind::F32,
        PropertyTemplateTypeDiscriminants::F64 => PropertyKind::F64,
    }
}

impl PropertyTemplateTypeDiscriminants {
    pub fn into_repr(self) -> (r: usize)
        ensures
            r as nat == property_kind_repr(self),
    {
        match self {
            PropertyTemplateTypeDiscriminants::Unknown => 0,
            PropertyTemplateTypeDiscriminants::Enum => 1,
            PropertyTemplateTypeDiscriminants::Struct => 2,
            PropertyTemplateTypeDiscriminants::Typedef => 3,
            PropertyTemplateTypeDiscriminants::List => 4,
            PropertyTemplateTypeDiscriminants::Id => 5,
            PropertyTemplateTypeDiscriminants::Color => 6,
            PropertyTemplateTypeDiscriminants::Vector => 7,
            PropertyTemplateTypeDiscriminants::Bool => 8,
            PropertyTemplateTypeDiscriminants::I8 => 9,
            PropertyTemplateTypeDiscriminants::I16 => 10,
            PropertyTemplateTypeDiscriminants::I32 => 11,
            PropertyTemplateTypeDiscriminants::I64 => 12,
            PropertyTemplateTypeDiscriminants::U8 => 13,
            PropertyTemplateTypeDiscriminants::U16 => 14,
            PropertyTemplateTypeDiscriminants::U32 => 15,
            PropertyTemplateTypeDiscriminants::U64 => 16,
            PropertyTemplateTypeDiscriminants::F32 => 17,
            PropertyTemplateTypeDiscriminants::F64 => 18,
        }
    }

    pub fn from_repr(repr: usize) -> (r: Option<PropertyTemplateTypeDiscriminants>)
        ensures
            r == property_kind_from_repr(repr as nat),
    {
        match repr {
            0 => Some(PropertyTemplateTypeDiscriminants::Unknown),
            1 => Some(PropertyTemplateTypeDiscriminants::Enum),
            2 => Some(PropertyTemplateTypeDiscriminants::Struct),
            3 => Some(PropertyTemplateTypeDiscriminants::Typedef),
            4 => Some(PropertyTemplateTypeDiscriminants::List),
            5 => Some(PropertyTemplateTypeDiscriminants::Id),
            6 => Some(PropertyTemplateTypeDiscriminants::Color),
            7 => Some(PropertyTemplateTypeDiscriminants::Vector),
            8 => Some(PropertyTemplateTypeDiscriminants::Bool),
            9 => Some(PropertyTemplateTypeDiscriminants::I8),
            10 => Some(PropertyTemplateTypeDiscriminants::I16),
            11 => Some(PropertyTemplateTypeDiscriminants::I32),
            12 => Some(PropertyTemplateTypeDiscriminants::I64),
            13 => Some(PropertyTemplateTypeDiscriminants::U8),
            14 => Some(PropertyTemplateTypeDiscriminants::U16),
            15 => Some(PropertyTemplateTypeDiscriminants::U32),
            16 => Some(PropertyTemplateTypeDiscriminants::U64),
            17 => Some(PropertyTemplateTypeDiscriminants::F32),
            18 => Some(PropertyTemplateTypeDiscriminants::F64),
            _ => None,
        }
    }

    /// The label that tooling shows.
    pub fn message(&self) -> (r: &'static str)
        ensures
            r@ == property_kind_label(*self),
    {
        match self {
            PropertyTemplateTypeDiscriminants::Unknown => "Unknown",
            PropertyTemplateTypeDiscriminants::Enum => "Enum",
            PropertyTemplateTypeDiscriminants::Struct => "Struct",
            PropertyTemplateTypeDiscriminants::Typedef => "Typedef",
            PropertyTemplateTypeDiscriminants::List => "List",
            PropertyTemplateTypeDiscriminants::Id => "ID",
            PropertyTemplateTypeDiscriminants::Color => "Color",
            PropertyTemplateTypeDiscriminants::Vector => "Vector",
            PropertyTemplateTypeDiscriminants::Bool => "Bool",
            PropertyTemplateTypeDiscriminants::I8 => "I8",
            PropertyTemplateTypeDiscriminants::I16 => "I16",
            PropertyTemplateTypeDiscriminants::I32 => "I32",
            PropertyTemplateTypeDiscriminants::I64 => "I64",
            PropertyTemplateTypeDiscriminants::U8 => "U8",
            PropertyTemplateTypeDiscriminants::U16 => "U16",
            PropertyTemplateTypeDiscriminants::U32 => "U32",
            PropertyTemplateTypeDiscriminants::U64 => "U64",
            PropertyTemplateTypeDiscriminants::F32 => "F32",
            PropertyTemplateTypeDiscriminants::F64 => "F64",
        }
    }

    /// Every property kind, in declaration order.
    pub fn iter() -> (r: Vec<PropertyTemplateTypeDiscriminants>)
        ensures
            r@.len() == PROPERTY_KIND_COUNT,
            forall|i: int| 0 <= i < r@.len() ==> property_kind_repr(#[trigger] r@[i]) == i,
    {
        let mut r: Vec<PropertyTemplateTypeDiscriminants> = Vec::new();
        r.push(PropertyTemplateTypeDiscriminants::Unknown);
        r.push(PropertyTemplateTypeDiscriminants::Enum);
        r.push(PropertyTemplateTypeDiscriminants::Struct);
        r.push(PropertyTemplateTypeDiscriminants::Typedef);
        r.push(PropertyTemplateTypeDiscriminants::List);
        r.push(PropertyTemplateTypeDiscriminants::Id);
        r.push(PropertyTemplateTypeDiscriminants::Color);
        r.push(PropertyTemplateTypeDiscriminants::Vector);
        r.push(PropertyTemplateTypeDiscriminants::Bool);
        r.push(PropertyTemplateTypeDiscriminants::I8);
        r.push(PropertyTemplateTypeDiscriminants::I16);
        r.push(PropertyTemplateTypeDiscriminants::I32);
        r.push(PropertyTemplateTypeDiscriminants::I64);
        r.push(PropertyTemplateTypeDiscriminants::U8);
        r.push(PropertyTemplateTypeDiscriminants::U16);
        r.push(PropertyTemplateTypeDiscriminants::U32);
        r.push(PropertyTemplateTypeDiscriminants::U64);
        r.push(PropertyTemplateTypeDiscriminants::F32);
        r.push(PropertyTemplateTypeDiscriminants::F64);
        r
    }
}

impl IntoRepr for PropertyTemplateTypeDiscriminants {
    fn into_repr(self) -> usize {
        PropertyTemplateTypeDiscriminants::into_repr(self)
    }
}

impl PropertyTemplateType {
    /// The kind of this property, without its payload.
    pub fn discriminant(&self) -> (r: PropertyTemplateTypeDiscriminants)
        ensures
            r == property_kind_of(self@),
    {
        match self {
            PropertyTemplateType::Unknown => PropertyTemplateTypeDiscriminants::Unknown,
            PropertyTemplateType::Enum(_) => PropertyTemplateTypeDiscriminants::Enum,
            PropertyTemplateType::Struct(_) => PropertyTemplateTypeDiscriminants::Struct,
            PropertyTemplateType::Typedef(_) => PropertyTemplateTypeDiscriminants::Typedef,
            PropertyTemplateType::List(_) => PropertyTemplateTypeDiscriminants::List,
            PropertyTemplateType::Id => PropertyTemplateTypeDiscriminants::Id,
            PropertyTemplateType::Color => PropertyTemplateTypeDiscriminants::Color,
            PropertyTemplateType::Vector => PropertyTemplateTypeDiscriminants::Vector,
            PropertyTemplateType::Bool => PropertyTemplateTypeDiscriminants::Bool,
            PropertyTemplateType::I8 => PropertyTemplateTypeDiscriminants::I8,
            PropertyTemplateType::I16 => PropertyTemplateTypeDiscriminants::I16,
            PropertyTemplateType::I32 => PropertyTemplateTypeDiscriminants::I32,
            PropertyTemplateType::I64 => PropertyTemplateTypeDiscriminants::I64,
            PropertyTemplateType::U8 => PropertyTemplateTypeDiscriminants::U8,
            PropertyTemplateType::U16 => PropertyTemplateTypeDiscriminants::U16,
            PropertyTemplateType::U32 => PropertyTemplateTypeDiscriminants::U32,
            PropertyTemplateType::U64 => PropertyTemplateTypeDiscriminants::U64,
            PropertyTemplateType::F32 => PropertyTemplateTypeDiscriminants::F32,
            PropertyTemplateType::F64 => PropertyTemplateTypeDiscriminants::F64,
        }
    }

    /// The kind with the given index, with an empty payload; `None` past the last kind.
    pub fn from_repr(repr: usize) -> (r: Option<PropertyTemplateType>)
        ensures
            r is Some <==> property_kind_from_repr(repr as nat) is Some,
            r matches Some(t) ==> t@ == property_kind_default(property_kind_from_repr(repr as nat)->0),
    {
        let r = match repr {
            0 => Some(PropertyTemplateType::Unknown),
            1 => Some(PropertyTemplateType::Enum(EnumProperty { enum_name: String::new() })),
            2 => Some(PropertyTemplateType::Struct(StructProperty { struct_name: String::new() })),
            3 => Some(PropertyTemplateType::Typedef(TypedefProperty { supported_types: Vec::new() })),
            4 => Some(PropertyTemplateType::List(ListProperty { element: Box::new(PropertyTemplateType::Unknown) })),
            5 => Some(PropertyTemplateType::Id),
            6 => Some(PropertyTemplateType::Color),
            7 => Some(PropertyTemplateType::Vector),
            8 => Some(PropertyTemplateType::Bool),
            9 => Some(PropertyTemplateType::I8),
            10 => Some(PropertyTemplateType::I16),
            11 => Some(PropertyTemplateType::I32),
            12 => Some(PropertyTemplateType::I64),
            13 => Some(PropertyTemplateType::U8),
            14 => Some(PropertyTemplateType::U16),
            15 => Some(PropertyTemplateType::U32),
            16 => Some(PropertyTemplateType::U64),
            17 => Some(PropertyTemplateType::F32),
            18 => Some(PropertyTemplateType::F64),
            _ => None,
        };
        proof {
            if let Some(PropertyTemplateType::Typedef(p)) = &r {
                assert(strings_view(p.supported_types) =~= Seq::empty());
            }
            if let Some(PropertyTemplateType::List(p)) = &r {
                assert((*p.element)@ == PropertyKind::Unknown);
            }
        }
        r
    }
}

impl FromRepr for PropertyTemplateType {
    fn from_repr(repr: usize) -> Option<PropertyTemplateType> {
        PropertyTemplateType::from_repr(repr)
    }
}

/// The variant kinds of `TypeTemplateType`, in declaration order.
#[derive(Clone, Copy, Debug, PartialEq, Eq, Structural, Hash)]
pub enum TypeTemplateTypeDiscriminants {
    PropertyList,
    Struct,
    Enum,
}

/// The number of template kinds.
pub const TEMPLATE_KIND_COUNT: usize = 3;

pub open spec fn template_kind_repr(d: TypeTemplateTypeDiscriminants) -> nat {
    match d {
        TypeTemplateTypeDiscriminants::PropertyList => 0,
        TypeTemplateTypeDiscriminants::Struct => 1,
        TypeTemplateTypeDiscriminants::Enum => 2,
    }
}

pub open spec fn template_kind_from_repr(r: nat) -> Option<TypeTemplateTypeDiscriminants> {
    if r == 0 {
        Some(TypeTemplateTypeDiscriminants::PropertyList)
    } else if r == 1 {
        Some(TypeTemplateTypeDiscriminants::Struct)
    } else if r == 2 {
        Some(TypeTemplateTypeDiscriminants::Enum)
    } else {
        None
    }
}

/// The label that tooling shows for a template kind.
pub open spec fn template_kind_label(d: TypeTemplateTypeDiscriminants) -> Seq<char> {
    match d {
        TypeTemplateTypeDiscriminants::PropertyList => "Property List"@,
        TypeTemplateTypeDiscriminants::Struct => "Struct"@,
        TypeTemplateTypeDiscriminants::Enum => "Enum"@,
    }
}

/// The kind of a template, without its payload.
pub open spec fn template_kind_of(k: TemplateKind) -> TypeTemplateTypeDiscriminants {
    match k {
        TemplateKind::PropertyList(_) => TypeTemplateTypeDiscriminants::PropertyList,
        TemplateKind::Struct(_) => TypeTemplateTypeDiscriminants::Struct,
        TemplateKind::Enum(_) => TypeTemplateTypeDiscriminants::Enum,
    }
}

/// The value that `from_repr` builds for a kind: the payload left empty.
pub open spec fn template_kind_default(d: TypeTemplateTypeDiscriminants) -> TemplateKind {
    match d {
        TypeTemplateTypeDiscriminants::PropertyList => TemplateKind::PropertyList(Seq::empty()),
        TypeTemplateTypeDiscriminants::Struct => TemplateKind::Struct(Seq::empty()),
        TypeTemplateTypeDiscriminants::Enum => TemplateKind::Enum(Seq::empty()),
    }
}

impl TypeTemplateTypeDiscriminants {
    pub fn into_repr(self) -> (r: usize)
        ensures
            r as nat == template_kind_repr(self),
    {
        match self {
            TypeTemplateTypeDiscriminants::PropertyList => 0,
            TypeTemplateTypeDiscriminants::Struct => 1,
            TypeTemplateTypeDiscriminants::Enum => 2,
        }
    }

    pub fn from_repr(repr: usize) -> (r: Option<TypeTemplateTypeDiscriminants>)
        ensures
            r == template_kind_from_repr(repr as nat),
    {
        match repr {
            0 => Some(TypeTemplateTypeDiscriminants::PropertyList),
            1 => Some(TypeTemplateTypeDiscriminants::Struct),
            2 => Some(TypeTemplateTypeDiscriminants::Enum),
            _ => None,
        }
    }

    /// The label that tooling shows.
    pub fn message(&self) -> (r: &'static str)
        ensures
            r@ == template_kind_label(*self),
    {
        match self {
            TypeTemplateTypeDiscriminants::PropertyList => "Property List",
            TypeTemplateTypeDiscriminants::Struct => "Struct",
            TypeTemplateTypeDiscriminants::Enum => "Enum",
        }
    }

    /// Every template kind, in declaration order.
    pub fn iter() -> (r: Vec<TypeTemplateTypeDiscriminants>)
        ensures
            r@.len() == TEMPLATE_KIND_COUNT,
            forall|i: int| 0 <= i < r@.len() ==> template_kind_repr(#[trigger] r@[i]) == i,
    {
        let mut r: Vec<TypeTemplateTypeDiscriminants> = Vec::new();
        r.push(TypeTemplateTypeDiscriminants::PropertyList);
        r.push(TypeTemplateTypeDiscriminants::Struct);
        r.push(TypeTemplateTypeDiscriminants::Enum);
        r
    }
}

impl IntoRepr for TypeTemplateTypeDiscriminants {
    fn into_repr(self) -> usize {
        TypeTemplateTypeDiscriminants::into_repr(self)
    }
}

impl TypeTemplateType {
    /// The kind of this template, without its payload.
    pub fn discriminant(&self) -> (r: TypeTemplateTypeDiscriminants)
        ensures
            r == template_kind_of(self@),
    {
        match self {
            TypeTemplateType::PropertyList(_) => TypeTemplateTypeDiscriminants::PropertyList,
            TypeTemplateType::Struct(_) => TypeTemplateTypeDiscriminants::Struct,
            TypeTemplateType::Enum(_) => TypeTemplateTypeDiscriminants::Enum,
        }
    }

    /// The kind with the given index, with an empty payload; `None` past the last kind.
    pub fn from_repr(repr: usize) -> (r: Option<TypeTemplateType>)
        ensures
            r is Some <==> template_kind_from_repr(repr as nat) is Some,
            r matches Some(t) ==> t@ == template_kind_default(template_kind_from_repr(repr as nat)->0),
    {
        let r = match repr {
            0 => Some(TypeTemplateType::PropertyList(PropertyListTemplate { properties: new_property_map() })),
            1 => Some(TypeTemplateType::Struct(StructTemplate { elements: Vec::new() })),
            2 => Some(TypeTemplateType::Enum(EnumTemplate { values: Vec::new() })),
            _ => None,
        };
        proof {
            match &r {
                Some(TypeTemplateType::PropertyList(p)) => {
                    assert(p@ =~= Seq::empty());
                },
                Some(TypeTemplateType::Struct(t)) => {
                    assert(properties_view(t.elements) =~= Seq::empty());
                },
                Some(TypeTemplateType::Enum(e)) => {
                    assert(elements_view(e.values) =~= Seq::empty());
                },
                None => {},
            }
        }
        r
    }
}

impl FromRepr for TypeTemplateType {
    fn from_repr(repr: usize) -> Option<TypeTemplateType> {
        TypeTemplateType::from_repr(repr)
    }
}

/// An index taken from a property kind leads back to that kind, and the value
/// built for it is of that kind; the index just past the last kind leads nowhere.
pub proof fn lemma_property_repr_round_trip(d: PropertyTemplateTypeDiscriminants)
    ensures
        property_kind_from_repr(property_kind_repr(d)) == Some(d),
        property_kind_of(property_kind_default(d)) == d,
        property_kind_from_repr(PROPERTY_KIND_COUNT as nat) is None,
{
}

/// An index taken from a template kind leads back to that kind, and the value
/// built for it is of that kind; the index just past the last kind leads nowhere.
pub proof fn lemma_template_repr_round_trip(d: TypeTemplateTypeDiscriminants)
    ensures
        template_kind_from_repr(template_kind_repr(d)) == Some(d),
        template_kind_of(template_kind_default(d)) == d,
        template_kind_from_repr(TEMPLATE_KIND_COUNT as nat) is None,
{
}

} // verus!
