use fp_bindgen::casing::Casing;
use fp_bindgen::ts_runtime::{
    create_enum_definition, create_struct_definition, format_function_declarations,
    format_primitive, format_type, FunctionType,
};
use fp_bindgen::types::{
    CustomType, EnumOptions, Field, Function, FunctionArg, FunctionList, GenericArgument,
    Primitive, Type, Variant,
};
use fp_bindgen::BindingsError;

fn plain_enum_options(casing: Casing, tag: Option<&str>, content: Option<&str>, untagged: bool) -> EnumOptions {
    EnumOptions {
        variant_casing: casing,
        tag_prop_name: tag.map(|t| t.to_string()),
        content_prop_name: content.map(|c| c.to_string()),
        untagged,
    }
}

#[test]
fn primitives_map_to_their_ts_representations() {
    assert_eq!(format_primitive(Primitive::Bool), "boolean");
    assert_eq!(format_primitive(Primitive::F32), "number");
    assert_eq!(format_primitive(Primitive::F64), "number");
    assert_eq!(format_primitive(Primitive::I8), "number");
    assert_eq!(format_primitive(Primitive::I16), "number");
    assert_eq!(format_primitive(Primitive::I32), "number");
    assert_eq!(format_primitive(Primitive::I64), "bigint");
    assert_eq!(format_primitive(Primitive::I128), "bigint");
    assert_eq!(format_primitive(Primitive::U8), "number");
    assert_eq!(format_primitive(Primitive::U16), "number");
    assert_eq!(format_primitive(Primitive::U32), "number");
    assert_eq!(format_primitive(Primitive::U64), "bigint");
    assert_eq!(format_primitive(Primitive::U128), "bigint");
}

#[test]
fn option_container_becomes_nullable() {
    let ty = Type::Container("Option".to_string(), Box::new(Type::Str));
    assert_eq!(format_type(&ty), "string | null");
}

#[test]
fn non_option_container_is_transparent() {
    let ty = Type::Container("Box".to_string(), Box::new(Type::Str));
    assert_eq!(format_type(&ty), "string");
}

#[test]
fn byte_list_becomes_array_buffer() {
    let ty = Type::List("Vec".to_string(), Box::new(Type::Primitive(Primitive::U8)));
    assert_eq!(format_type(&ty), "ArrayBuffer");
}

#[test]
fn other_lists_become_arrays() {
    let ty = Type::List("Vec".to_string(), Box::new(Type::Primitive(Primitive::U32)));
    assert_eq!(format_type(&ty), "Array<number>");
}

#[test]
fn maps_become_records() {
    let ty = Type::Mapping(
        "BTreeMap".to_string(),
        Box::new(Type::Str),
        Box::new(Type::Primitive(Primitive::F64)),
    );
    assert_eq!(format_type(&ty), "Record<string, number>");
}

#[test]
fn custom_types_use_their_ts_name() {
    let ty = Type::Custom(CustomType {
        name: "Timestamp".to_string(),
        rs_ty: "time::OffsetDateTime".to_string(),
        ts_ty: "string".to_string(),
    });
    assert_eq!(format_type(&ty), "string");
}

#[test]
fn unit_becomes_void() {
    assert_eq!(format_type(&Type::Unit), "void");
}

#[test]
fn struct_definition_camel_cases_fields_and_marks_optionals() {
    let fields = vec![
        Field {
            name: "first_name".to_string(),
            ty: Type::Str,
        },
        Field {
            name: "age_years".to_string(),
            ty: Type::Container("Option".to_string(), Box::new(Type::Primitive(Primitive::U8))),
        },
    ];
    let def = create_struct_definition("Person", &Vec::new(), &fields);
    assert_eq!(
        def,
        "export type Person = {\n    firstName: string;\n    ageYears?: number;\n};"
    );
}

#[test]
fn struct_definition_renders_generic_parameters() {
    let args = vec![GenericArgument {
        name: "T".to_string(),
        ty: None,
    }];
    let fields = vec![Field {
        name: "value".to_string(),
        ty: Type::GenericArgument(Box::new(GenericArgument {
            name: "T".to_string(),
            ty: None,
        })),
    }];
    let def = create_struct_definition("Wrapper", &args, &fields);
    assert_eq!(def, "export type Wrapper<T> = {\n    value: T;\n};");
}

#[test]
fn tag_only_enum_encoding() {
    let variants = vec![
        Variant {
            name: "Ok".to_string(),
            ty: Type::Unit,
        },
        Variant {
            name: "NotReady".to_string(),
            ty: Type::Unit,
        },
    ];
    let opts = plain_enum_options(Casing::CamelCase, None, None, false);
    let def = create_enum_definition("Status", &Vec::new(), &variants, &opts).unwrap();
    assert_eq!(def, "export type Status =\n    | \"ok\"\n    | \"notReady\";");
}

#[test]
fn tagged_unit_enum_encoding() {
    let variants = vec![Variant {
        name: "Ok".to_string(),
        ty: Type::Unit,
    }];
    let opts = plain_enum_options(Casing::CamelCase, Some("type"), None, false);
    let def = create_enum_definition("Status", &Vec::new(), &variants, &opts).unwrap();
    assert_eq!(def, "export type Status =\n    | { type: \"ok\" };");
}

#[test]
fn tag_and_content_enum_encoding() {
    let variants = vec![Variant {
        name: "Num".to_string(),
        ty: Type::Tuple(vec![Type::Primitive(Primitive::U32)]),
    }];
    let opts = plain_enum_options(Casing::CamelCase, Some("type"), Some("payload"), false);
    let def = create_enum_definition("Value", &Vec::new(), &variants, &opts).unwrap();
    assert_eq!(
        def,
        "export type Value =\n    | { type: \"num\"; payload: number };"
    );
}

#[test]
fn tag_merged_with_payload_enum_encoding() {
    let variants = vec![
        Variant {
            name: "Point".to_string(),
            ty: Type::Struct(
                "PointPayload".to_string(),
                Vec::new(),
                vec![
                    Field {
                        name: "x".to_string(),
                        ty: Type::Primitive(Primitive::F64),
                    },
                    Field {
                        name: "y".to_string(),
                        ty: Type::Primitive(Primitive::F64),
                    },
                ],
            ),
        },
        Variant {
            name: "Label".to_string(),
            ty: Type::Tuple(vec![Type::Str]),
        },
    ];
    let opts = plain_enum_options(Casing::CamelCase, Some("type"), None, false);
    let def = create_enum_definition("Shape", &Vec::new(), &variants, &opts).unwrap();
    assert_eq!(
        def,
        "export type Shape =\n    | { type: \"point\"; x: number; y: number }\n    | { type: \"label\" } & string;"
    );
}

#[test]
fn untagged_enum_encoding() {
    let variants = vec![
        Variant {
            name: "Text".to_string(),
            ty: Type::Tuple(vec![Type::Str]),
        },
        Variant {
            name: "Pair".to_string(),
            ty: Type::Struct(
                "PairPayload".to_string(),
                Vec::new(),
                vec![Field {
                    name: "left_side".to_string(),
                    ty: Type::Primitive(Primitive::I32),
                }],
            ),
        },
    ];
    let opts = plain_enum_options(Casing::CamelCase, None, None, true);
    let def = create_enum_definition("Mixed", &Vec::new(), &variants, &opts).unwrap();
    assert_eq!(
        def,
        "export type Mixed =\n    | string\n    | { leftSide: number };"
    );
}

#[test]
fn multi_item_tuple_variant_is_an_unsupported_schema() {
    let variants = vec![Variant {
        name: "Oops".to_string(),
        ty: Type::Tuple(vec![Type::Str, Type::Str]),
    }];
    let opts = plain_enum_options(Casing::CamelCase, None, None, false);
    let err = create_enum_definition("Bad", &Vec::new(), &variants, &opts).unwrap_err();
    match err {
        BindingsError::UnsupportedEnumVariant(enum_name, variant_name) => {
            assert_eq!(enum_name, "Bad");
            assert_eq!(variant_name, "Oops");
        }
        other => panic!("unexpected error: {:?}", other),
    }
}

#[test]
fn wire_keys_agree_across_directions() {
    // The wire key of a field depends on its declared name alone: the side
    // that writes the key and the side that expects it render it the same,
    // whatever the field's payload type is on each side.
    let serializing_side = vec![Field {
        name: "user_id".to_string(),
        ty: Type::Primitive(Primitive::U64),
    }];
    let deserializing_side = vec![Field {
        name: "user_id".to_string(),
        ty: Type::Str,
    }];
    let written = fp_bindgen::ts_runtime::format_struct_fields(&serializing_side);
    let expected = fp_bindgen::ts_runtime::format_struct_fields(&deserializing_side);
    assert!(written[0].starts_with("userId: "));
    assert!(expected[0].starts_with("userId: "));
}

#[test]
fn declarations_mark_exports_optional_and_promise_async_results() {
    let add = Function {
        name: "add".to_string(),
        doc_lines: Vec::new(),
        is_async: false,
        args: vec![
            FunctionArg {
                name: "a".to_string(),
                ty: Type::Primitive(Primitive::I32),
            },
            FunctionArg {
                name: "b".to_string(),
                ty: Type::Primitive(Primitive::I32),
            },
        ],
        return_type: Some(Type::Primitive(Primitive::I32)),
    };
    let fetch = Function {
        name: "fetch".to_string(),
        doc_lines: Vec::new(),
        is_async: true,
        args: vec![FunctionArg {
            name: "url".to_string(),
            ty: Type::Str,
        }],
        return_type: Some(Type::List(
            "Vec".to_string(),
            Box::new(Type::Primitive(Primitive::U8)),
        )),
    };
    let list = FunctionList {
        functions: vec![add, fetch],
    };
    let imports = format_function_declarations(&list, FunctionType::Import);
    assert_eq!(imports[0], "add: (a: number, b: number) => number");
    assert_eq!(imports[1], "fetch: (url: string) => Promise<ArrayBuffer>");
    let exports = format_function_declarations(&list, FunctionType::Export);
    assert_eq!(exports[0], "add?: (a: number, b: number) => number");
}
