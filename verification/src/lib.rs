//! Cross-language binding generation for WebAssembly plugins.
//!
//! Given a language-neutral description of data types and functions, the
//! library renders source artifacts for a native host runtime and for a
//! TypeScript host runtime that call into a guest plugin across the WASM
//! module boundary. All targets share one wire-level contract: pointer/length
//! packing, the asynchronous-result record, and serialization framing.

pub mod abi;
pub mod casing;
pub mod prelude;
pub mod rust_wasmer_runtime;
pub mod strutil;
pub mod ts_runtime;
pub mod types;

use vstd::prelude::*;

verus! {

/// The fatal generation-time errors: they abort the whole run, since partial
/// output is not usable.
#[derive(Debug, PartialEq)]
pub enum BindingsError {
    /// The requested bindings type is not one of the supported targets; the
    /// payload is the message naming what was asked for.
    UnknownBindingsType(String),
    /// An enum uses a variant payload shape the target's enum encoding
    /// cannot express; the payload names the enum and the variant.
    UnsupportedEnumVariant(String, String),
    /// The source-formatting pass refused the assembled module; the payload
    /// is its message.
    Formatting(String),
}

/// The message given for a bindings type the library cannot generate.
pub open spec fn spec_unknown_type_message(s: Seq<char>) -> Seq<char> {
    "Bindings type must be one of `rust-wasmer-runtime`, `ts-runtime`, was: `"@ + s + "`"@
}

/// The generation targets the library offers: the native host runtime and
/// the TypeScript host runtime.
#[derive(Clone, Copy, PartialEq, Eq, Structural, Debug)]
pub enum BindingsType {
    RustWasmerRuntime,
    TsRuntime,
}

impl BindingsType {
    /// Parses a target selector; any string but the two known selectors is
    /// rejected with a message naming it.
    pub fn from_str(bindings_type: &str) -> (r: Result<BindingsType, String>)
        ensures
            bindings_type@ == "rust-wasmer-runtime"@ ==> r == Result::<
                BindingsType,
                String,
            >::Ok(BindingsType::RustWasmerRuntime),
            bindings_type@ == "ts-runtime"@ ==> r == Result::<BindingsType, String>::Ok(
                BindingsType::TsRuntime,
            ),
            bindings_type@ != "rust-wasmer-runtime"@ && bindings_type@ != "ts-runtime"@ ==> (
            r is Err && r->Err_0@ == spec_unknown_type_message(bindings_type@)),
    {
        proof {
            reveal_strlit("rust-wasmer-runtime");
            reveal_strlit("ts-runtime");
            assert("rust-wasmer-runtime"@.len() == 19);
            assert("ts-runtime"@.len() == 10);
        }
        if strutil::str_eq(bindings_type, "rust-wasmer-runtime") {
            Ok(BindingsType::RustWasmerRuntime)
        } else if strutil::str_eq(bindings_type, "ts-runtime") {
            Ok(BindingsType::TsRuntime)
        } else {
            let mut message =
                "Bindings type must be one of `rust-wasmer-runtime`, `ts-runtime`, was: `".to_owned();
            message.append(bindings_type);
            message.append("`");
            Err(message)
        }
    }
}

/// The generated artifacts: one file name and its contents per artifact.
#[derive(Debug)]
pub struct Bindings {
    pub files: Vec<(String, String)>,
}

fn type_map_from(serializable_types: Vec<types::Type>, deserializable_types: Vec<types::Type>) -> (r:
    types::TypeMap)
    ensures
        r.entries@.len() == serializable_types@.len() + deserializable_types@.len(),
        forall|i: int|
            0 <= i < serializable_types@.len() ==> #[trigger] r.entries@[i].1
                == serializable_types@[i] && r.entries@[i].0@ == types::spec_type_name(
                serializable_types@[i],
            ),
        forall|i: int|
            0 <= i < deserializable_types@.len() ==> #[trigger] r.entries@[serializable_types@.len()
                + i].1 == deserializable_types@[i] && r.entries@[serializable_types@.len()
                + i].0@ == types::spec_type_name(deserializable_types@[i]),
{
    let mut entries: Vec<(String, types::Type)> = Vec::new();
    let ghost ser = serializable_types@;
    let ghost des = deserializable_types@;
    let mut rest = serializable_types;
    while rest.len() > 0
        invariant
            rest@.len() <= ser.len(),
            rest@ == ser.skip(ser.len() - rest@.len()),
            entries@.len() == ser.len() - rest@.len(),
            forall|i: int|
                0 <= i < entries@.len() ==> #[trigger] entries@[i].1 == ser[i]
                    && entries@[i].0@ == types::spec_type_name(ser[i]),
        decreases rest@.len(),
    {
        let ghost k = ser.len() - rest@.len();
        let t = rest.remove(0);
        proof {
            assert(t == ser[k as int]);
            assert(rest@ =~= ser.skip(k + 1));
        }
        let name = t.name();
        entries.push((name, t));
    }
    let mut rest = deserializable_types;
    while rest.len() > 0
        invariant
            rest@.len() <= des.len(),
            rest@ == des.skip(des.len() - rest@.len()),
            entries@.len() == ser.len() + des.len() - rest@.len(),
            forall|i: int|
                0 <= i < ser.len() ==> #[trigger] entries@[i].1 == ser[i] && entries@[i].0@
                    == types::spec_type_name(ser[i]),
            forall|i: int|
                0 <= i < des.len() - rest@.len() ==> #[trigger] entries@[ser.len() + i].1
                    == des[i] && entries@[ser.len() + i].0@ == types::spec_type_name(des[i]),
        decreases rest@.len(),
    {
        let ghost k = des.len() - rest@.len();
        let t = rest.remove(0);
        proof {
            assert(t == des[k as int]);
            assert(rest@ =~= des.skip(k + 1));
        }
        let name = t.name();
        entries.push((name, t));
    }
    types::TypeMap { entries }
}

/// Renders the artifacts of the selected target: the native host runtime's
/// function bindings, or the TypeScript runtime's type declarations and
/// runtime module. An unknown selector and an inexpressible enum are
/// rejected; writing the artifacts is the caller's concern.
pub fn generate_bindings(
    import_functions: types::FunctionList,
    export_functions: types::FunctionList,
    serializable_types: Vec<types::Type>,
    deserializable_types: Vec<types::Type>,
    bindings_type: &str,
) -> (r: Result<Bindings, BindingsError>)
    ensures
        bindings_type@ != "rust-wasmer-runtime"@ && bindings_type@ != "ts-runtime"@ ==> (
        r is Err && ({
            &&& r->Err_0 matches BindingsError::UnknownBindingsType(m)
            &&& m@ == spec_unknown_type_message(bindings_type@)
        })),
        bindings_type@ == "ts-runtime"@ ==> ({
            let all = ts_runtime::spec_merge_types(serializable_types@, deserializable_types@);
            &&& r is Ok <==> ts_runtime::spec_types_supported(all)
            &&& r is Ok ==> ({
                let files = r->Ok_0.files@;
                &&& files.len() == 2
                &&& files[0].0@ == "types.ts"@
                &&& files[0].1@ == ts_runtime::spec_type_bindings(all)
                &&& files[1].0@ == "index.ts"@
                &&& files[1].1@ == ts_runtime::spec_index_ts(
                    ts_runtime::spec_type_names(all),
                    ts_runtime::spec_fn_decls(
                        import_functions.functions@,
                        ts_runtime::FunctionType::Import,
                    ),
                    ts_runtime::spec_fn_decls(
                        export_functions.functions@,
                        ts_runtime::FunctionType::Export,
                    ),
                    ts_runtime::spec_import_wrappers(import_functions.functions@),
                    ts_runtime::spec_export_wrappers(export_functions.functions@),
                )
            })
            &&& r is Err ==> r->Err_0 matches BindingsError::UnsupportedEnumVariant(_, _)
        }),
        bindings_type@ == "rust-wasmer-runtime"@ ==> ({
            &&& r is Ok ==> ({
                let files = r->Ok_0.files@;
                &&& files.len() == 1
                &&& files[0].0@ == "bindings.rs"@
            })
            &&& r is Err ==> r->Err_0 matches BindingsError::Formatting(_)
        }),
{
    let parsed = match BindingsType::from_str(bindings_type) {
        Ok(t) => t,
        Err(message) => {
            return Err(BindingsError::UnknownBindingsType(message));
        },
    };
    match parsed {
        BindingsType::RustWasmerRuntime => {
            let types = type_map_from(serializable_types, deserializable_types);
            match rust_wasmer_runtime::generate_bindings(
                import_functions,
                export_functions,
                &types,
            ) {
                Ok(contents) => {
                    let mut files: Vec<(String, String)> = Vec::new();
                    files.push(("bindings.rs".to_owned(), contents));
                    Ok(Bindings { files })
                },
                Err(e) => Err(e),
            }
        },
        BindingsType::TsRuntime => {
            match ts_runtime::generate_bindings(
                import_functions,
                export_functions,
                serializable_types,
                deserializable_types,
            ) {
                Ok(ts) => {
                    let mut files: Vec<(String, String)> = Vec::new();
                    files.push(("types.ts".to_owned(), ts.types));
                    files.push(("index.ts".to_owned(), ts.index));
                    Ok(Bindings { files })
                },
                Err(e) => Err(e),
            }
        },
    }
}



} // verus!
