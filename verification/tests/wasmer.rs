use fp_bindgen::rust_wasmer_runtime::{
    format_export_function, format_import_function, format_module_source, format_raw_ident,
    format_wasm_ident, generate_create_imports_func,
};
use fp_bindgen::types::{Function, FunctionArg, FunctionList, Primitive, Type, TypeMap};

fn empty_type_map() -> TypeMap {
    TypeMap { entries: Vec::new() }
}

fn add_function() -> Function {
    Function {
        name: "add".to_string(),
        doc_lines: Vec::new(),
        is_async: false,
        args: vec![
            FunctionArg {
                name: "a".to_string(),
                ty: Type::Primitive(Primitive::I32),
            },
            FunctionArg {
                name: "b".to_string(),
                ty: Type::Primitive(Primitive::I32),
            },
        ],
        return_type: Some(Type::Primitive(Primitive::I32)),
    }
}

fn fetch_function() -> Function {
    Function {
        name: "fetch".to_string(),
        doc_lines: Vec::new(),
        is_async: true,
        args: vec![FunctionArg {
            name: "url".to_string(),
            ty: Type::Str,
        }],
        return_type: Some(Type::List(
            "Vec".to_string(),
            Box::new(Type::Primitive(Primitive::U8)),
        )),
    }
}

#[test]
fn raw_idents_keep_primitives_and_box_everything_else() {
    let types = empty_type_map();
    assert_eq!(format_raw_ident(&Type::Primitive(Primitive::U64), &types), "u64");
    assert_eq!(format_raw_ident(&Type::Str, &types), "Vec<u8>");
}

#[test]
fn wasm_idents_use_abi_types_for_primitives_and_fat_ptr_otherwise() {
    assert_eq!(
        format_wasm_ident(&Type::Primitive(Primitive::I32)),
        "<i32 as WasmAbi>::AbiType"
    );
    assert_eq!(format_wasm_ident(&Type::Str), "FatPtr");
}

#[test]
fn synchronous_primitive_export_wrapper_has_no_allocation() {
    let types = empty_type_map();
    let rendered = format_export_function(&add_function(), &types);
    assert_eq!(
        rendered,
        "pub fn _add(mut env: FunctionEnvMut<Arc<RuntimeInstanceData>>, a: <i32 as WasmAbi>::AbiType, b: <i32 as WasmAbi>::AbiType) -> <i32 as WasmAbi>::AbiType {\n    let a = WasmAbi::from_abi(a);\nlet b = WasmAbi::from_abi(b);\n    let result = super::add(a, b);\n    result.to_abi()\n}"
    );
}

#[test]
fn asynchronous_export_wrapper_returns_the_handle_immediately() {
    let types = empty_type_map();
    let rendered = format_export_function(&fetch_function(), &types);
    assert!(rendered.starts_with(
        "pub fn _fetch(mut env: FunctionEnvMut<Arc<RuntimeInstanceData>>, url: FatPtr) -> FatPtr {"
    ));
    assert!(rendered.contains("let async_ptr = create_future_value(&mut env);"));
    assert!(rendered.contains("guest_resolve_async_value(&mut env.as_store_mut(), async_ptr, result_ptr);"));
    assert!(rendered.trim_end_matches('}').trim_end().ends_with("async_ptr"));
}

#[test]
fn synchronous_primitive_import_method_crosses_by_value() {
    let types = empty_type_map();
    let rendered = format_import_function(&add_function(), &types);
    assert_eq!(
        rendered,
        "pub fn add(&mut self, a: i32, b: i32) -> Result<i32, InvocationError> {\n    \n    let result = self.add_raw(a, b);\n    result\n}\npub fn add_raw(&mut self, a: i32, b: i32) -> Result<i32, InvocationError> {\n    let function = self.instance\n        .exports\n        .get_typed_function::<(<i32 as WasmAbi>::AbiType, <i32 as WasmAbi>::AbiType), <i32 as WasmAbi>::AbiType>(&mut self.store, \"__fp_gen_add\")\n        .map_err(|_| InvocationError::FunctionNotExported(\"__fp_gen_add\".to_owned()))?;\n    let result = function.call(&mut self.store, a.to_abi(), b.to_abi())?;\n    let result = WasmAbi::from_abi(result);Ok(result)\n}"
    );
}

#[test]
fn single_boundary_argument_is_not_parenthesized() {
    let types = empty_type_map();
    let rendered = format_import_function(&fetch_function(), &types);
    assert!(rendered.contains("get_typed_function::<FatPtr, FatPtr>(&mut self.store, \"__fp_gen_fetch\")"));
}

#[test]
fn asynchronous_import_method_awaits_the_module_future() {
    let types = empty_type_map();
    let rendered = format_import_function(&fetch_function(), &types);
    assert!(rendered.starts_with(
        "pub async fn fetch(&mut self, url: String) -> Result<Vec<u8>, InvocationError> {"
    ));
    assert!(rendered.contains("let url = serialize_to_vec(&url);"));
    assert!(rendered
        .contains("let result = ModuleRawFuture::new(self.function_env_mut(), result).await;"));
    assert!(rendered.contains(
        "let result = result.await;\nlet result = result.map(|ref data| deserialize_from_slice(data));"
    ));
}

#[test]
fn create_imports_installs_the_resolution_callback_and_every_import() {
    let list = FunctionList {
        functions: vec![add_function(), fetch_function()],
    };
    let rendered = generate_create_imports_func(&list);
    assert!(rendered.starts_with(
        "fn create_imports(store: &mut Store, env: &FunctionEnv<Arc<RuntimeInstanceData>>) -> Imports {"
    ));
    assert!(rendered.contains(
        "\"__fp_host_resolve_async_value\" => Function::new_typed_with_env(store, env, resolve_async_value),"
    ));
    assert!(rendered.contains(
        "\"__fp_gen_add\" => Function::new_typed_with_env(store, env, _add),\n            \"__fp_gen_fetch\" => Function::new_typed_with_env(store, env, _fetch),"
    ));
}

#[test]
fn module_source_splices_the_blocks_into_the_boilerplate() {
    let source = format_module_source(
        &"IMPORTS_BLOCK".to_string(),
        &"EXPORTS_BLOCK".to_string(),
        &"NEW_FUNC".to_string(),
        &"CREATE_IMPORTS".to_string(),
    );
    assert!(source.starts_with("use super::types::*;"));
    assert!(source.contains("pub struct Runtime {"));
    assert!(source.contains("impl Runtime {\n    NEW_FUNC"));
    assert!(source.contains("EXPORTS_BLOCK"));
    assert!(source.contains("}\n\nCREATE_IMPORTS\n\nIMPORTS_BLOCK\n"));
    assert!(source.contains("Store::new(Singlepass::default())"));
}
