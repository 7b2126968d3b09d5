use fp_bindgen::generate_bindings;
use fp_bindgen::rust_wasmer_runtime::format_import_function;
use fp_bindgen::ts_runtime::{format_type, join_lines};
use fp_bindgen::types::{
    Function, FunctionArg, FunctionList, GenericArgument, Primitive, Type, TypeMap,
};

#[test]
fn empty_inputs_still_produce_the_full_boilerplate() {
    let bindings = generate_bindings(
        FunctionList { functions: vec![] },
        FunctionList { functions: vec![] },
        Vec::new(),
        Vec::new(),
        "ts-runtime",
    )
    .unwrap();
    assert_eq!(bindings.files[0].1, "\n");
    let index = &bindings.files[1].1;
    assert!(index.contains("export type Imports = {\n\n};"));
    assert!(index.contains("export type Exports = {\n\n};"));
    assert!(index.contains("__fp_host_resolve_async_value: resolvePromise,\n\n        },"));
}

#[test]
fn instantiated_generic_arguments_render_their_types() {
    let ty = Type::Struct(
        "Wrapper".to_string(),
        vec![GenericArgument {
            name: "T".to_string(),
            ty: Some(Type::Str),
        }],
        Vec::new(),
    );
    assert_eq!(format_type(&ty), "Wrapper<string>");
}

#[test]
fn join_lines_wraps_and_separates() {
    let lines = vec!["one".to_string(), "two".to_string()];
    assert_eq!(join_lines(&lines, "    ", ";"), "    one;\n    two;");
    assert_eq!(join_lines(&Vec::new(), "    ", ";"), "");
}

#[test]
fn documentation_lines_are_kept_above_the_generated_method() {
    let f = Function {
        name: "ping".to_string(),
        doc_lines: vec![" Sends a ping.".to_string(), " Returns nothing.".to_string()],
        is_async: false,
        args: Vec::new(),
        return_type: None,
    };
    let types = TypeMap { entries: Vec::new() };
    let rendered = format_import_function(&f, &types);
    assert!(rendered.starts_with(
        "/// Sends a ping.\n/// Returns nothing.\npub fn ping(&mut self) -> Result<(), InvocationError> {"
    ));
}

#[test]
fn unit_function_has_no_argument_or_result_machinery() {
    let f = Function {
        name: "ping".to_string(),
        doc_lines: Vec::new(),
        is_async: false,
        args: Vec::new(),
        return_type: None,
    };
    let types = TypeMap { entries: Vec::new() };
    let rendered = format_import_function(&f, &types);
    assert!(rendered.contains("pub fn ping_raw(&mut self) -> Result<(), InvocationError> {"));
    assert!(rendered.contains("get_typed_function::<(), ()>(&mut self.store, \"__fp_gen_ping\")"));
}

#[test]
fn boolean_argument_crosses_by_value() {
    let f = Function {
        name: "toggle".to_string(),
        doc_lines: Vec::new(),
        is_async: false,
        args: vec![FunctionArg {
            name: "on".to_string(),
            ty: Type::Primitive(Primitive::Bool),
        }],
        return_type: None,
    };
    let types = TypeMap { entries: Vec::new() };
    let rendered = format_import_function(&f, &types);
    assert!(rendered.contains("pub fn toggle(&mut self, on: bool) -> Result<(), InvocationError> {"));
    assert!(rendered.contains("get_typed_function::<<bool as WasmAbi>::AbiType, ()>"));
}
