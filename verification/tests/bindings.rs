use fp_bindgen::casing::Casing;
use fp_bindgen::generate_bindings;
use fp_bindgen::types::{
    EnumOptions, Field, Function, FunctionArg, FunctionList, Primitive, Type, Variant,
};
use fp_bindgen::{BindingsError, BindingsType};

fn point_struct() -> Type {
    Type::Struct(
        "Point".to_string(),
        Vec::new(),
        vec![
            Field {
                name: "x".to_string(),
                ty: Type::Primitive(Primitive::F64),
            },
            Field {
                name: "y".to_string(),
                ty: Type::Primitive(Primitive::F64),
            },
        ],
    )
}

fn add_function() -> Function {
    Function {
        name: "add".to_string(),
        doc_lines: Vec::new(),
        is_async: false,
        args: vec![
            FunctionArg {
                name: "a".to_string(),
                ty: Type::Primitive(Primitive::I32),
            },
            FunctionArg {
                name: "b".to_string(),
                ty: Type::Primitive(Primitive::I32),
            },
        ],
        return_type: Some(Type::Primitive(Primitive::I32)),
    }
}

fn fetch_function() -> Function {
    Function {
        name: "fetch".to_string(),
        doc_lines: Vec::new(),
        is_async: true,
        args: vec![FunctionArg {
            name: "url".to_string(),
            ty: Type::Str,
        }],
        return_type: Some(Type::List(
            "Vec".to_string(),
            Box::new(Type::Primitive(Primitive::U8)),
        )),
    }
}

#[test]
fn bindings_type_parses_the_two_targets() {
    assert_eq!(
        BindingsType::from_str("rust-wasmer-runtime"),
        Ok(BindingsType::RustWasmerRuntime)
    );
    assert_eq!(BindingsType::from_str("ts-runtime"), Ok(BindingsType::TsRuntime));
}

#[test]
fn bindings_type_rejects_anything_else_by_name() {
    assert_eq!(
        BindingsType::from_str("java-runtime"),
        Err(
            "Bindings type must be one of `rust-wasmer-runtime`, `ts-runtime`, was: `java-runtime`"
                .to_string()
        )
    );
}

#[test]
fn unknown_bindings_type_aborts_generation() {
    let err = generate_bindings(
        FunctionList { functions: vec![] },
        FunctionList { functions: vec![] },
        Vec::new(),
        Vec::new(),
        "cobol-runtime",
    )
    .unwrap_err();
    match err {
        BindingsError::UnknownBindingsType(message) => {
            assert_eq!(
                message,
                "Bindings type must be one of `rust-wasmer-runtime`, `ts-runtime`, was: `cobol-runtime`"
            );
        }
        other => panic!("unexpected error: {:?}", other),
    }
}

#[test]
fn ts_runtime_target_produces_the_two_artifacts() {
    let bindings = generate_bindings(
        FunctionList {
            functions: vec![fetch_function()],
        },
        FunctionList {
            functions: vec![add_function()],
        },
        vec![point_struct()],
        vec![point_struct()],
        "ts-runtime",
    )
    .unwrap();
    assert_eq!(bindings.files.len(), 2);
    assert_eq!(bindings.files[0].0, "types.ts");
    assert_eq!(bindings.files[1].0, "index.ts");
    // A type present in both the serializable and the deserializable set is
    // defined once, and its single definition serves both directions.
    assert_eq!(
        bindings.files[0].1,
        "export type Point = {\n    x: number;\n    y: number;\n};\n"
    );
    let index = &bindings.files[1].1;
    assert!(index.starts_with("import { encode, decode } from \"@msgpack/msgpack\";"));
    assert!(index.contains("import type {\n    Point,\n} from \"./types\";"));
    assert!(index.contains("export type Imports = {\n    fetch: (url: string) => Promise<ArrayBuffer>;\n};"));
    assert!(index.contains("export type Exports = {\n    add?: (a: number, b: number) => number;\n};"));
    assert!(index.contains("            __fp_gen_fetch: (url_ptr: FatPtr): FatPtr => {"));
    assert!(index.contains("    const url = parseObject<string>(url_ptr);"));
    assert!(index.contains("    const _async_result_ptr = createAsyncValue();"));
    assert!(index.contains("    return _async_result_ptr;"));
    // The synchronous, serialization-free export is passed through directly.
    assert!(index.contains("        add: instance.exports.__fp_gen_add as any,"));
    assert!(index.ends_with(
        "function toFatPtr(ptr: number, len: number): FatPtr {\n    return (BigInt(ptr) << 32n) | BigInt(len);\n}\n"
    ));
}

#[test]
fn ts_runtime_export_wrapper_returns_a_promise_for_async_results() {
    let bindings = generate_bindings(
        FunctionList { functions: vec![] },
        FunctionList {
            functions: vec![fetch_function()],
        },
        Vec::new(),
        Vec::new(),
        "ts-runtime",
    )
    .unwrap();
    let index = &bindings.files[1].1;
    assert!(index.contains("        fetch: (() => {"));
    assert!(index.contains("            const export_fn = instance.exports.__fp_gen_fetch as any;"));
    assert!(index.contains("                const url_ptr = serializeObject(url);"));
    assert!(index.contains("                return promiseFromPtr<ArrayBuffer>(export_fn(url_ptr));"));
}

#[test]
fn inexpressible_enum_aborts_the_ts_target() {
    let bad_enum = Type::Enum(
        "Bad".to_string(),
        Vec::new(),
        vec![Variant {
            name: "Oops".to_string(),
            ty: Type::Mapping(
                "BTreeMap".to_string(),
                Box::new(Type::Str),
                Box::new(Type::Str),
            ),
        }],
        EnumOptions {
            variant_casing: Casing::CamelCase,
            tag_prop_name: None,
            content_prop_name: None,
            untagged: false,
        },
    );
    let err = generate_bindings(
        FunctionList { functions: vec![] },
        FunctionList { functions: vec![] },
        vec![bad_enum],
        Vec::new(),
        "ts-runtime",
    )
    .unwrap_err();
    match err {
        BindingsError::UnsupportedEnumVariant(enum_name, variant_name) => {
            assert_eq!(enum_name, "Bad");
            assert_eq!(variant_name, "Oops");
        }
        other => panic!("unexpected error: {:?}", other),
    }
}

#[test]
fn wasmer_target_formats_or_reports_the_formatting_pass() {
    // The native target hands its assembled module to the external rustfmt
    // pass, so the outcome depends on the machine: either a formatted module
    // comes back, or the formatter's refusal is reported as an error.
    let result = generate_bindings(
        FunctionList {
            functions: vec![fetch_function()],
        },
        FunctionList {
            functions: vec![add_function()],
        },
        Vec::new(),
        Vec::new(),
        "rust-wasmer-runtime",
    );
    match result {
        Ok(bindings) => {
            assert_eq!(bindings.files.len(), 1);
            assert_eq!(bindings.files[0].0, "bindings.rs");
            assert!(bindings.files[0].1.contains("pub struct Runtime"));
        }
        Err(BindingsError::Formatting(_)) => {}
        Err(other) => panic!("unexpected error: {:?}", other),
    }
}
