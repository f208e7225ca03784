use retro_templates::{
    FromRepr, IntoRepr, PropertyTemplateType, PropertyTemplateTypeDiscriminants, TypeTemplateType,
    TypeTemplateTypeDiscriminants,
};

#[test]
fn property_kind_indices_round_trip() {
    let all = PropertyTemplateTypeDiscriminants::iter();
    assert_eq!(all.len(), 19);
    for (i, d) in all.iter().enumerate() {
        assert_eq!(d.into_repr(), i);
        assert_eq!(PropertyTemplateTypeDiscriminants::from_repr(i), Some(*d));
        let built = <PropertyTemplateType as FromRepr>::from_repr(i).unwrap();
        assert_eq!(built.discriminant(), *d);
    }
    assert_eq!(PropertyTemplateTypeDiscriminants::from_repr(19), None);
    assert!(PropertyTemplateType::from_repr(19).is_none());
}

#[test]
fn template_kind_indices_round_trip() {
    let all = TypeTemplateTypeDiscriminants::iter();
    assert_eq!(all.len(), 3);
    for (i, d) in all.iter().enumerate() {
        assert_eq!(IntoRepr::into_repr(*d), i);
        let built = TypeTemplateType::from_repr(i).unwrap();
        assert_eq!(built.discriminant(), *d);
    }
    assert!(TypeTemplateType::from_repr(3).is_none());
    assert_eq!(TypeTemplateTypeDiscriminants::from_repr(3), None);
}

#[test]
fn kind_labels() {
    let labels: Vec<&str> = TypeTemplateTypeDiscriminants::iter().iter().map(|d| d.message()).collect();
    assert_eq!(labels, vec!["Property List", "Struct", "Enum"]);
    assert_eq!(PropertyTemplateTypeDiscriminants::Id.message(), "ID");
    assert_eq!(PropertyTemplateTypeDiscriminants::I64.message(), "I64");
    assert_eq!(PropertyTemplateTypeDiscriminants::Unknown.message(), "Unknown");
}

#[test]
fn built_values_have_empty_payloads() {
    assert_eq!(PropertyTemplateType::from_repr(0), Some(PropertyTemplateType::Unknown));
    match PropertyTemplateType::from_repr(4) {
        Some(PropertyTemplateType::List(l)) => assert_eq!(*l.element, PropertyTemplateType::Unknown),
        other => panic!("expected a list, got {:?}", other),
    }
    match TypeTemplateType::from_repr(0) {
        Some(TypeTemplateType::PropertyList(p)) => assert!(p.properties.is_empty()),
        other => panic!("expected a property list, got {:?}", other),
    }
}
