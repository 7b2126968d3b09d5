use fp_bindgen::types::{format_name_with_generics, GenericArgument, Primitive, Type};

#[test]
fn primitive_names_are_their_declared_names() {
    assert_eq!(Primitive::Bool.name(), "bool");
    assert_eq!(Primitive::I128.name(), "i128");
    assert_eq!(Primitive::U8.name(), "u8");
    assert_eq!(Primitive::F32.name(), "f32");
}

#[test]
fn type_names_render_generic_containers() {
    let ty = Type::Mapping(
        "BTreeMap".to_string(),
        Box::new(Type::Str),
        Box::new(Type::List(
            "Vec".to_string(),
            Box::new(Type::Primitive(Primitive::U8)),
        )),
    );
    assert_eq!(ty.name(), "BTreeMap<String, Vec<u8>>");
}

#[test]
fn tuple_names_join_their_items() {
    let ty = Type::Tuple(vec![
        Type::Primitive(Primitive::U32),
        Type::Str,
        Type::Unit,
    ]);
    assert_eq!(ty.name(), "(u32, String, ())");
}

#[test]
fn names_with_generics_list_the_declared_parameters() {
    assert_eq!(format_name_with_generics("Plain", &Vec::new()), "Plain");
    let args = vec![
        GenericArgument {
            name: "T".to_string(),
            ty: None,
        },
        GenericArgument {
            name: "U".to_string(),
            ty: None,
        },
    ];
    assert_eq!(format_name_with_generics("Pair", &args), "Pair<T, U>");
}

#[test]
fn only_primitives_cross_the_boundary_by_value() {
    assert!(Type::Primitive(Primitive::I64).is_primitive());
    assert!(!Type::Str.is_primitive());
    assert!(!Type::Unit.is_primitive());
}
