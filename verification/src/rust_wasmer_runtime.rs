//! The native host-runtime generator: renders the embedding that loads a
//! compiled guest module, installs the declared imported functions as host
//! callbacks under the fixed symbol names, and exposes typed host-side
//! methods for invoking the guest's exports, honoring the shared wire-level
//! contract.

use crate::strutil::{join_strings, sep_join, views_of};
use crate::types::{
    format_name_with_generics, spec_name_with_generics, spec_primitive_name, Function,
    FunctionArg, FunctionList, Type, TypeMap,
};
use crate::BindingsError;
use vstd::prelude::*;

verus! {

/// A type reference in native (logical) position.
pub open spec fn spec_rust_ident(ty: Type) -> Seq<char>
    decreases ty, 1int,
{
    match ty {
        Type::Alias(name, _) => name@,
        Type::Container(name, inner) => name@ + "<"@ + spec_rust_ident(*inner) + ">"@,
        Type::Custom(custom) => custom.rs_ty@,
        Type::Enum(name, args, _, _) => spec_name_with_generics(name@, args@),
        Type::GenericArgument(arg) => arg.name@,
        Type::List(name, inner) => name@ + "<"@ + spec_rust_ident(*inner) + ">"@,
        Type::Mapping(name, k, v) => name@ + "<"@ + spec_rust_ident(*k) + ", "@
            + spec_rust_ident(*v) + ">"@,
        Type::Primitive(p) => spec_primitive_name(p),
        Type::Str => "String"@,
        Type::Struct(name, args, _) => spec_name_with_generics(name@, args@),
        Type::Tuple(items) => "("@ + spec_rust_idents_joined(items@) + ")"@,
        Type::Unit => "()"@,
    }
}

pub open spec fn spec_rust_idents_joined(items: Seq<Type>) -> Seq<char>
    decreases items, 0int,
{
    if items.len() == 0 {
        Seq::empty()
    } else if items.len() == 1 {
        spec_rust_ident(items[0])
    } else {
        spec_rust_idents_joined(items.drop_last()) + ", "@ + spec_rust_ident(items.last())
    }
}

/// Formats a type reference for native source position.
pub fn format_ident(ty: &Type, types: &TypeMap) -> (r: String)
    ensures
        r@ == spec_rust_ident(*ty),
    decreases *ty, 1int,
{
    match ty {
        Type::Alias(name, _) => name.clone(),
        Type::Container(name, inner) => {
            let mut r = name.clone();
            r.append("<");
            let inner_r = format_ident(inner, types);
            r.append(inner_r.as_str());
            r.append(">");
            r
        },
        Type::Custom(custom) => custom.rs_ty.clone(),
        Type::Enum(name, args, _, _) => format_name_with_generics(name.as_str(), args),
        Type::GenericArgument(arg) => arg.name.clone(),
        Type::List(name, inner) => {
            let mut r = name.clone();
            r.append("<");
            let inner_r = format_ident(inner, types);
            r.append(inner_r.as_str());
            r.append(">");
            r
        },
        Type::Mapping(name, k, v) => {
            let mut r = name.clone();
            r.append("<");
            let k_r = format_ident(k, types);
            r.append(k_r.as_str());
            r.append(", ");
            let v_r = format_ident(v, types);
            r.append(v_r.as_str());
            r.append(">");
            r
        },
        Type::Primitive(p) => p.name(),
        Type::Str => "String".to_owned(),
        Type::Struct(name, args, _) => format_name_with_generics(name.as_str(), args),
        Type::Tuple(items) => {
            let mut r = "(".to_owned();
            let joined = rust_tuple_idents(items, types);
            r.append(joined.as_str());
            r.append(")");
            r
        },
        Type::Unit => "()".to_owned(),
    }
}

fn rust_tuple_idents(items: &Vec<Type>, types: &TypeMap) -> (r: String)
    ensures
        r@ == spec_rust_idents_joined(items@),
    decreases items@, 0int,
{
    let mut r = String::new();
    let mut i: usize = 0;
    while i < items.len()
        invariant
            i <= items@.len(),
            r@ == spec_rust_idents_joined(items@.take(i as int)),
        decreases items@.len() - i,
    {
        if i > 0 {
            r.append(", ");
        }
        let one = format_ident(&items[i], types);
        r.append(one.as_str());
        proof {
            assert(items@.take(i + 1).drop_last() =~= items@.take(i as int));
            assert(items@.take(i + 1).last() == items@[i as int]);
        }
        i += 1;
    }
    proof {
        assert(items@.take(items@.len() as int) =~= items@);
    }
    r
}

/// The boundary form of a type: primitives cross by value through their
/// ABI representation, everything else as a fat pointer.
pub open spec fn spec_raw_ident(ty: Type) -> Seq<char> {
    if ty is Primitive {
        spec_rust_ident(ty)
    } else {
        "Vec<u8>"@
    }
}

/// Formats a type reference for raw (serialized-buffer) position.
pub fn format_raw_ident(ty: &Type, types: &TypeMap) -> (r: String)
    ensures
        r@ == spec_raw_ident(*ty),
{
    if ty.is_primitive() {
        format_ident(ty, types)
    } else {
        "Vec<u8>".to_owned()
    }
}

pub open spec fn spec_wasm_ident(ty: Type) -> Seq<char> {
    match ty {
        Type::Primitive(p) => "<"@ + spec_primitive_name(p) + " as WasmAbi>::AbiType"@,
        _ => "FatPtr"@,
    }
}

/// Formats a type reference for the function-call boundary itself.
pub fn format_wasm_ident(ty: &Type) -> (r: String)
    ensures
        r@ == spec_wasm_ident(*ty),
{
    match ty {
        Type::Primitive(p) => {
            let mut r = "<".to_owned();
            let name = p.name();
            r.append(name.as_str());
            r.append(" as WasmAbi>::AbiType");
            r
        },
        _ => "FatPtr".to_owned(),
    }
}

/// The documentation block above a generated method: one `///` line per
/// stored documentation line.
pub open spec fn spec_doc_lines(lines: Seq<String>) -> Seq<char>
    decreases lines.len(),
{
    if lines.len() == 0 {
        Seq::empty()
    } else {
        spec_doc_lines(lines.drop_last()) + "///"@ + lines.last()@ + "\n"@
    }
}

pub fn format_doc_lines(doc_lines: &Vec<String>) -> (r: String)
    ensures
        r@ == spec_doc_lines(doc_lines@),
{
    let mut r = String::new();
    let mut i: usize = 0;
    while i < doc_lines.len()
        invariant
            i <= doc_lines@.len(),
            r@ == spec_doc_lines(doc_lines@.take(i as int)),
        decreases doc_lines@.len() - i,
    {
        r.append("///");
        r.append(doc_lines[i].as_str());
        r.append("\n");
        proof {
            assert(doc_lines@.take(i + 1).drop_last() =~= doc_lines@.take(i as int));
            assert(doc_lines@.take(i + 1).last() == doc_lines@[i as int]);
        }
        i += 1;
    }
    proof {
        assert(doc_lines@.take(doc_lines@.len() as int) =~= doc_lines@);
    }
    r
}

pub open spec fn spec_modifiers(f: Function) -> Seq<char> {
    if f.is_async {
        "async "@
    } else {
        Seq::empty()
    }
}

pub fn format_modifiers(function: &Function) -> (r: String)
    ensures
        r@ == spec_modifiers(*function),
{
    if function.is_async {
        "async ".to_owned()
    } else {
        String::new()
    }
}

/// The logical argument list of a generated method, each argument preceded
/// by a comma.
pub open spec fn spec_args(args: Seq<FunctionArg>) -> Seq<char>
    decreases args.len(),
{
    if args.len() == 0 {
        Seq::empty()
    } else {
        spec_args(args.drop_last()) + ", "@ + args.last().name@ + ": "@ + spec_rust_ident(
            args.last().ty,
        )
    }
}

pub open spec fn spec_raw_args(args: Seq<FunctionArg>) -> Seq<char>
    decreases args.len(),
{
    if args.len() == 0 {
        Seq::empty()
    } else {
        spec_raw_args(args.drop_last()) + ", "@ + args.last().name@ + ": "@ + spec_raw_ident(
            args.last().ty,
        )
    }
}

/// The boundary type tuple of the arguments: a single boundary type stands
/// alone, any other count is parenthesized.
pub open spec fn spec_wasm_args(args: Seq<FunctionArg>) -> Seq<char> {
    if args.len() == 1 {
        spec_wasm_ident(args[0].ty)
    } else {
        "("@ + sep_join(args.map_values(|a: FunctionArg| spec_wasm_ident(a.ty)), ", "@) + ")"@
    }
}

pub open spec fn spec_return_type(f: Function) -> Seq<char> {
    match f.return_type {
        Some(t) => spec_rust_ident(t),
        None => "()"@,
    }
}

pub open spec fn spec_raw_return_type(f: Function) -> Seq<char> {
    match f.return_type {
        Some(t) => spec_raw_ident(t),
        None => "()"@,
    }
}

pub open spec fn spec_wasm_return_type(f: Function) -> Seq<char> {
    match f.return_type {
        Some(t) => spec_wasm_ident(t),
        None => "()"@,
    }
}

/// One serialization line per non-primitive argument of the logical
/// method.
pub open spec fn spec_serialize_pieces(args: Seq<FunctionArg>) -> Seq<Seq<char>>
    decreases args.len(),
{
    if args.len() == 0 {
        Seq::empty()
    } else {
        spec_serialize_pieces(args.drop_last()) + (if args.last().ty is Primitive {
            Seq::<Seq<char>>::empty()
        } else {
            seq!["let "@ + args.last().name@ + " = serialize_to_vec(&"@ + args.last().name@ + ");"@]
        })
    }
}

pub open spec fn spec_serialize_args(args: Seq<FunctionArg>) -> Seq<char> {
    sep_join(spec_serialize_pieces(args), "\n"@)
}

pub open spec fn spec_serialize_raw_pieces(args: Seq<FunctionArg>) -> Seq<Seq<char>>
    decreases args.len(),
{
    if args.len() == 0 {
        Seq::empty()
    } else {
        spec_serialize_raw_pieces(args.drop_last()) + (if args.last().ty is Primitive {
            Seq::<Seq<char>>::empty()
        } else {
            seq![
                "let "@ + args.last().name@
                    + " = export_to_guest_raw(&mut self.function_env_mut(), "@
                    + args.last().name@ + ");"@,
            ]
        })
    }
}

pub open spec fn spec_serialize_raw_args(args: Seq<FunctionArg>) -> Seq<char> {
    sep_join(spec_serialize_raw_pieces(args), "\n"@)
}

pub open spec fn spec_arg_names(args: Seq<FunctionArg>) -> Seq<char> {
    sep_join(args.map_values(|a: FunctionArg| a.name@), ", "@)
}

pub open spec fn spec_wasm_arg_names(args: Seq<FunctionArg>) -> Seq<char> {
    sep_join(args.map_values(|a: FunctionArg| a.name@ + ".to_abi()"@), ", "@)
}

/// Whether the result crosses the boundary by value (a primitive, or no
/// result at all).
pub open spec fn spec_primitive_return(f: Function) -> bool {
    match f.return_type {
        Some(t) => t is Primitive,
        None => true,
    }
}

pub open spec fn spec_raw_return_wrapper(f: Function) -> Seq<char> {
    if f.is_async {
        "let result = ModuleRawFuture::new(self.function_env_mut(), result).await;"@
    } else if !spec_primitive_return(f) {
        "let result = import_from_guest_raw(&mut self.function_env_mut(), result);"@
    } else {
        "let result = WasmAbi::from_abi(result);"@
    }
}

pub open spec fn spec_return_wrapper(f: Function) -> Seq<char> {
    if f.is_async {
        "let result = result.await;\nlet result = result.map(|ref data| deserialize_from_slice(data));"@
    } else if !spec_primitive_return(f) {
        "let result = result.map(|ref data| deserialize_from_slice(data));"@
    } else {
        Seq::empty()
    }
}

/// The rendered pieces an imported function's two methods are assembled
/// from.
pub struct ImportFunctionParts {
    pub doc: String,
    pub modifiers: String,
    pub name: String,
    pub args: String,
    pub raw_args: String,
    pub wasm_args: String,
    pub return_type: String,
    pub raw_return_type: String,
    pub wasm_return_type: String,
    pub serialize_args: String,
    pub serialize_raw_args: String,
    pub arg_names: String,
    pub wasm_arg_names: String,
    pub raw_return_wrapper: String,
    pub return_wrapper: String,
}

fn format_args_list(args: &Vec<FunctionArg>, types: &TypeMap) -> (r: String)
    ensures
        r@ == spec_args(args@),
{
    let mut r = String::new();
    let mut i: usize = 0;
    while i < args.len()
        invariant
            i <= args@.len(),
            r@ == spec_args(args@.take(i as int)),
        decreases args@.len() - i,
    {
        r.append(", ");
        r.append(args[i].name.as_str());
        r.append(": ");
        let ident = format_ident(&args[i].ty, types);
        r.append(ident.as_str());
        proof {
            assert(args@.take(i + 1).drop_last() =~= args@.take(i as int));
            assert(args@.take(i + 1).last() == args@[i as int]);
        }
        i += 1;
    }
    proof {
        assert(args@.take(args@.len() as int) =~= args@);
    }
    r
}

fn format_raw_args_list(args: &Vec<FunctionArg>, types: &TypeMap) -> (r: String)
    ensures
        r@ == spec_raw_args(args@),
{
    let mut r = String::new();
    let mut i: usize = 0;
    while i < args.len()
        invariant
            i <= args@.len(),
            r@ == spec_raw_args(args@.take(i as int)),
        decreases args@.len() - i,
    {
        r.append(", ");
        r.append(args[i].name.as_str());
        r.append(": ");
        let ident = format_raw_ident(&args[i].ty, types);
        r.append(ident.as_str());
        proof {
            assert(args@.take(i + 1).drop_last() =~= args@.take(i as int));
            assert(args@.take(i + 1).last() == args@[i as int]);
        }
        i += 1;
    }
    proof {
        assert(args@.take(args@.len() as int) =~= args@);
    }
    r
}

fn format_wasm_args_list(args: &Vec<FunctionArg>) -> (r: String)
    ensures
        r@ == spec_wasm_args(args@),
{
    let mut pieces: Vec<String> = Vec::new();
    let mut i: usize = 0;
    while i < args.len()
        invariant
            i <= args@.len(),
            pieces@.len() == i,
            forall|j: int| 0 <= j < i ==> pieces@[j]@ == spec_wasm_ident(args@[j].ty),
        decreases args@.len() - i,
    {
        let piece = format_wasm_ident(&args[i].ty);
        pieces.push(piece);
        i += 1;
    }
    if pieces.len() == 1 {
        let single = pieces.remove(0);
        single
    } else {
        proof {
            assert(views_of(pieces@) =~= args@.map_values(
                |a: FunctionArg| spec_wasm_ident(a.ty),
            ));
        }
        let mut r = "(".to_owned();
        let joined = join_strings(&pieces, ", ");
        r.append(joined.as_str());
        r.append(")");
        r
    }
}

fn format_serialize_args(args: &Vec<FunctionArg>) -> (r: String)
    ensures
        r@ == spec_serialize_args(args@),
{
    let mut pieces: Vec<String> = Vec::new();
    let mut i: usize = 0;
    while i < args.len()
        invariant
            i <= args@.len(),
            views_of(pieces@) == spec_serialize_pieces(args@.take(i as int)),
        decreases args@.len() - i,
    {
        proof {
            assert(args@.take(i + 1).drop_last() =~= args@.take(i as int));
            assert(args@.take(i + 1).last() == args@[i as int]);
        }
        let a = &args[i];
        match &a.ty {
            Type::Primitive(_) => {
                proof {
                    assert(views_of(pieces@) =~= spec_serialize_pieces(args@.take(i + 1)));
                }
            },
            _ => {
                let mut line = "let ".to_owned();
                line.append(a.name.as_str());
                line.append(" = serialize_to_vec(&");
                line.append(a.name.as_str());
                line.append(");");
                pieces.push(line);
                proof {
                    assert(views_of(pieces@) =~= spec_serialize_pieces(args@.take(i + 1)));
                }
            },
        }
        i += 1;
    }
    proof {
        assert(args@.take(args@.len() as int) =~= args@);
    }
    join_strings(&pieces, "\n")
}

fn format_serialize_raw_args(args: &Vec<FunctionArg>) -> (r: String)
    ensures
        r@ == spec_serialize_raw_args(args@),
{
    let mut pieces: Vec<String> = Vec::new();
    let mut i: usize = 0;
    while i < args.len()
        invariant
            i <= args@.len(),
            views_of(pieces@) == spec_serialize_raw_pieces(args@.take(i as int)),
        decreases args@.len() - i,
    {
        proof {
            assert(args@.take(i + 1).drop_last() =~= args@.take(i as int));
            assert(args@.take(i + 1).last() == args@[i as int]);
        }
        let a = &args[i];
        match &a.ty {
            Type::Primitive(_) => {
                proof {
                    assert(views_of(pieces@) =~= spec_serialize_raw_pieces(args@.take(i + 1)));
                }
            },
            _ => {
                let mut line = "let ".to_owned();
                line.append(a.name.as_str());
                line.append(" = export_to_guest_raw(&mut self.function_env_mut(), ");
                line.append(a.name.as_str());
                line.append(");");
                pieces.push(line);
                proof {
                    assert(views_of(pieces@) =~= spec_serialize_raw_pieces(args@.take(i + 1)));
                }
            },
        }
        i += 1;
    }
    proof {
        assert(args@.take(args@.len() as int) =~= args@);
    }
    join_strings(&pieces, "\n")
}

fn format_arg_names(args: &Vec<FunctionArg>) -> (r: String)
    ensures
        r@ == spec_arg_names(args@),
{
    let mut pieces: Vec<String> = Vec::new();
    let mut i: usize = 0;
    while i < args.len()
        invariant
            i <= args@.len(),
            pieces@.len() == i,
            forall|j: int| 0 <= j < i ==> pieces@[j]@ == args@[j].name@,
        decreases args@.len() - i,
    {
        pieces.push(args[i].name.clone());
        i += 1;
    }
    proof {
        assert(views_of(pieces@) =~= args@.map_values(|a: FunctionArg| a.name@));
    }
    join_strings(&pieces, ", ")
}

fn format_wasm_arg_names(args: &Vec<FunctionArg>) -> (r: String)
    ensures
        r@ == spec_wasm_arg_names(args@),
{
    let mut pieces: Vec<String> = Vec::new();
    let mut i: usize = 0;
    while i < args.len()
        invariant
            i <= args@.len(),
            pieces@.len() == i,
            forall|j: int| 0 <= j < i ==> pieces@[j]@ == args@[j].name@ + ".to_abi()"@,
        decreases args@.len() - i,
    {
        let mut piece = args[i].name.clone();
        piece.append(".to_abi()");
        pieces.push(piece);
        i += 1;
    }
    proof {
        assert(views_of(pieces@) =~= args@.map_values(
            |a: FunctionArg| a.name@ + ".to_abi()"@,
        ));
    }
    join_strings(&pieces, ", ")
}

fn is_primitive_return(f: &Function) -> (r: bool)
    ensures
        r == spec_primitive_return(*f),
{
    match &f.return_type {
        Some(t) => t.is_primitive(),
        None => true,
    }
}

/// Renders every piece an imported function's generated methods need.
pub fn generate_import_function_variables(function: &Function, types: &TypeMap) -> (r:
    ImportFunctionParts)
    ensures
        r.doc@ == spec_doc_lines(function.doc_lines@),
        r.modifiers@ == spec_modifiers(*function),
        r.name@ == function.name@,
        r.args@ == spec_args(function.args@),
        r.raw_args@ == spec_raw_args(function.args@),
        r.wasm_args@ == spec_wasm_args(function.args@),
        r.return_type@ == spec_return_type(*function),
        r.raw_return_type@ == spec_raw_return_type(*function),
        r.wasm_return_type@ == spec_wasm_return_type(*function),
        r.serialize_args@ == spec_serialize_args(function.args@),
        r.serialize_raw_args@ == spec_serialize_raw_args(function.args@),
        r.arg_names@ == spec_arg_names(function.args@),
        r.wasm_arg_names@ == spec_wasm_arg_names(function.args@),
        r.raw_return_wrapper@ == spec_raw_return_wrapper(*function),
        r.return_wrapper@ == spec_return_wrapper(*function),
{
    let doc = format_doc_lines(&function.doc_lines);
    let modifiers = format_modifiers(function);
    let name = function.name.clone();
    let args = format_args_list(&function.args, types);
    let raw_args = format_raw_args_list(&function.args, types);
    let wasm_args = format_wasm_args_list(&function.args);
    let return_type = match &function.return_type {
        Some(t) => format_ident(t, types),
        None => "()".to_owned(),
    };
    let raw_return_type = match &function.return_type {
        Some(t) => format_raw_ident(t, types),
        None => "()".to_owned(),
    };
    let wasm_return_type = match &function.return_type {
        Some(t) => format_wasm_ident(t),
        None => "()".to_owned(),
    };
    let serialize_args = format_serialize_args(&function.args);
    let serialize_raw_args = format_serialize_raw_args(&function.args);
    let arg_names = format_arg_names(&function.args);
    let wasm_arg_names = format_wasm_arg_names(&function.args);
    let raw_return_wrapper: String;
    let return_wrapper: String;
    if function.is_async {
        raw_return_wrapper =
            "let result = ModuleRawFuture::new(self.function_env_mut(), result).await;".to_owned();
        return_wrapper =
            "let result = result.await;\nlet result = result.map(|ref data| deserialize_from_slice(data));".to_owned();
    } else if !is_primitive_return(function) {
        raw_return_wrapper =
            "let result = import_from_guest_raw(&mut self.function_env_mut(), result);".to_owned();
        return_wrapper =
            "let result = result.map(|ref data| deserialize_from_slice(data));".to_owned();
    } else {
        raw_return_wrapper = "let result = WasmAbi::from_abi(result);".to_owned();
        return_wrapper = String::new();
    }
    ImportFunctionParts {
        doc,
        modifiers,
        name,
        args,
        raw_args,
        wasm_args,
        return_type,
        raw_return_type,
        wasm_return_type,
        serialize_args,
        serialize_raw_args,
        arg_names,
        wasm_arg_names,
        raw_return_wrapper,
        return_wrapper,
    }
}

/// The two methods generated for one imported function: the logical method
/// that serializes its arguments and decodes the result, and the raw
/// method that calls the guest's export through the boundary types.
pub open spec fn spec_import_function(f: Function) -> Seq<char> {
    spec_doc_lines(f.doc_lines@)
        + "pub "@
        + spec_modifiers(f)
        + "fn "@
        + f.name@
        + "(&mut self"@
        + spec_args(f.args@)
        + ") -> Result<"@
        + spec_return_type(f)
        + ", InvocationError> {\n    "@
        + spec_serialize_args(f.args@)
        + "\n    let result = self."@
        + f.name@
        + "_raw("@
        + spec_arg_names(f.args@)
        + ");\n    "@
        + spec_return_wrapper(f)
        + "result\n}\npub "@
        + spec_modifiers(f)
        + "fn "@
        + f.name@
        + "_raw(&mut self"@
        + spec_raw_args(f.args@)
        + ") -> Result<"@
        + spec_raw_return_type(f)
        + ", InvocationError> {\n    "@
        + spec_serialize_raw_args(f.args@)
        + "let function = self.instance\n        .exports\n        .get_typed_function::<"@
        + spec_wasm_args(f.args@)
        + ", "@
        + spec_wasm_return_type(f)
        + ">(&mut self.store, \"__fp_gen_"@
        + f.name@
        + "\")\n        .map_err(|_| InvocationError::FunctionNotExported(\"__fp_gen_"@
        + f.name@
        + "\".to_owned()))?;\n    let result = function.call(&mut self.store, "@
        + spec_wasm_arg_names(f.args@)
        + ")?;\n    "@
        + spec_raw_return_wrapper(f)
        + "Ok(result)\n}"@
}

/// Renders the two host-side methods for invoking one of the guest's
/// exported functions.
pub fn format_import_function(function: &Function, types: &TypeMap) -> (r: String)
    ensures
        r@ == spec_import_function(*function),
{
    let parts = generate_import_function_variables(function, types);
    let mut r = parts.doc.clone();
    r.append("pub ");
    r.append(parts.modifiers.as_str());
    r.append("fn ");
    r.append(parts.name.as_str());
    r.append("(&mut self");
    r.append(parts.args.as_str());
    r.append(") -> Result<");
    r.append(parts.return_type.as_str());
    r.append(", InvocationError> {\n    ");
    r.append(parts.serialize_args.as_str());
    r.append("\n    let result = self.");
    r.append(parts.name.as_str());
    r.append("_raw(");
    r.append(parts.arg_names.as_str());
    r.append(");\n    ");
    r.append(parts.return_wrapper.as_str());
    r.append("result\n}\npub ");
    r.append(parts.modifiers.as_str());
    r.append("fn ");
    r.append(parts.name.as_str());
    r.append("_raw(&mut self");
    r.append(parts.raw_args.as_str());
    r.append(") -> Result<");
    r.append(parts.raw_return_type.as_str());
    r.append(", InvocationError> {\n    ");
    r.append(parts.serialize_raw_args.as_str());
    r.append("let function = self.instance\n        .exports\n        .get_typed_function::<");
    r.append(parts.wasm_args.as_str());
    r.append(", ");
    r.append(parts.wasm_return_type.as_str());
    r.append(">(&mut self.store, \"__fp_gen_");
    r.append(parts.name.as_str());
    r.append("\")\n        .map_err(|_| InvocationError::FunctionNotExported(\"__fp_gen_");
    r.append(parts.name.as_str());
    r.append("\".to_owned()))?;\n    let result = function.call(&mut self.store, ");
    r.append(parts.wasm_arg_names.as_str());
    r.append(")?;\n    ");
    r.append(parts.raw_return_wrapper.as_str());
    r.append("Ok(result)\n}");
    r
}

/// The unwrapping line for one boundary argument of an installed callback.
pub open spec fn spec_import_arg(name: Seq<char>, ty: Type) -> Seq<char> {
    match ty {
        Type::Primitive(_) => "let "@ + name + " = WasmAbi::from_abi("@ + name + ");"@,
        _ => "let "@ + name + " = import_from_guest::<"@ + spec_rust_ident(ty) + ">(&mut env, "@
            + name + ");"@,
    }
}

/// Renders the line that unwraps one argument from its boundary form.
pub fn format_import_arg(name: &str, ty: &Type, types: &TypeMap) -> (r: String)
    ensures
        r@ == spec_import_arg(name@, *ty),
{
    match ty {
        Type::Primitive(_) => {
            let mut r = "let ".to_owned();
            r.append(name);
            r.append(" = WasmAbi::from_abi(");
            r.append(name);
            r.append(");");
            r
        },
        _ => {
            let mut r = "let ".to_owned();
            r.append(name);
            r.append(" = import_from_guest::<");
            let ident = format_ident(ty, types);
            r.append(ident.as_str());
            r.append(">(&mut env, ");
            r.append(name);
            r.append(");");
            r
        },
    }
}

pub open spec fn spec_export_wasm_args(args: Seq<FunctionArg>) -> Seq<char>
    decreases args.len(),
{
    if args.len() == 0 {
        Seq::empty()
    } else {
        spec_export_wasm_args(args.drop_last()) + ", "@ + args.last().name@ + ": "@
            + spec_wasm_ident(args.last().ty)
    }
}

/// The return annotation of an installed callback: an asynchronous
/// function returns the handle to its asynchronous-result record
/// immediately.
pub open spec fn spec_wrapper_return_type(f: Function) -> Seq<char> {
    if f.is_async {
        " -> FatPtr"@
    } else {
        match f.return_type {
            Some(t) => " -> "@ + spec_wasm_ident(t),
            None => Seq::empty(),
        }
    }
}

pub open spec fn spec_import_args(args: Seq<FunctionArg>) -> Seq<char> {
    sep_join(args.map_values(|a: FunctionArg| spec_import_arg(a.name@, a.ty)), "\n"@)
}

/// How an installed callback hands its result back: an asynchronous body
/// is run to completion out of line, its serialized result written and the
/// guest's resolution symbol invoked, the handle returned at once.
pub open spec fn spec_export_return_wrapper(f: Function) -> Seq<char> {
    if f.is_async {
        "let async_ptr = create_future_value(&mut env);\n    let result: Vec<u8> = std::thread::spawn(|| {\n        let rt = tokio::runtime::Builder::new_current_thread()\n            .build()\n            .unwrap();\n        rt.block_on(async move {\n            rmp_serde::to_vec(&result.await).unwrap()\n        })\n    }).join().unwrap();\n\n    let result_ptr = export_to_guest_raw(&mut env, &result);\n    env.data()\n        .clone()\n        .guest_resolve_async_value(&mut env.as_store_mut(), async_ptr, result_ptr);\n\n    async_ptr"@
    } else {
        match f.return_type {
            None => Seq::empty(),
            Some(t) => if t is Primitive {
                "result.to_abi()"@
            } else {
                "export_to_guest(&mut env, &result)"@
            },
        }
    }
}

/// The exported symbol generated for one imported (host-provided)
/// function: it unwraps the boundary arguments, invokes the host
/// implementation, and wraps the result.
pub open spec fn spec_export_function(f: Function) -> Seq<char> {
    "pub fn _"@
        + f.name@
        + "(mut env: FunctionEnvMut<Arc<RuntimeInstanceData>>"@
        + spec_export_wasm_args(f.args@)
        + ")"@
        + spec_wrapper_return_type(f)
        + " {\n    "@
        + spec_import_args(f.args@)
        + "\n    let result = super::"@
        + f.name@
        + "("@
        + spec_arg_names(f.args@)
        + ");\n    "@
        + spec_export_return_wrapper(f)
        + "\n}"@
}

fn format_export_wasm_args(args: &Vec<FunctionArg>) -> (r: String)
    ensures
        r@ == spec_export_wasm_args(args@),
{
    let mut r = String::new();
    let mut i: usize = 0;
    while i < args.len()
        invariant
            i <= args@.len(),
            r@ == spec_export_wasm_args(args@.take(i as int)),
        decreases args@.len() - i,
    {
        r.append(", ");
        r.append(args[i].name.as_str());
        r.append(": ");
        let ident = format_wasm_ident(&args[i].ty);
        r.append(ident.as_str());
        proof {
            assert(args@.take(i + 1).drop_last() =~= args@.take(i as int));
            assert(args@.take(i + 1).last() == args@[i as int]);
        }
        i += 1;
    }
    proof {
        assert(args@.take(args@.len() as int) =~= args@);
    }
    r
}

fn format_import_args_block(args: &Vec<FunctionArg>, types: &TypeMap) -> (r: String)
    ensures
        r@ == spec_import_args(args@),
{
    let mut pieces: Vec<String> = Vec::new();
    let mut i: usize = 0;
    while i < args.len()
        invariant
            i <= args@.len(),
            pieces@.len() == i,
            forall|j: int|
                0 <= j < i ==> pieces@[j]@ == spec_import_arg(args@[j].name@, args@[j].ty),
        decreases args@.len() - i,
    {
        let piece = format_import_arg(args[i].name.as_str(), &args[i].ty, types);
        pieces.push(piece);
        i += 1;
    }
    proof {
        assert(views_of(pieces@) =~= args@.map_values(
            |a: FunctionArg| spec_import_arg(a.name@, a.ty),
        ));
    }
    join_strings(&pieces, "\n")
}

/// Renders the exported symbol that makes one host-provided function
/// callable from the guest.
pub fn format_export_function(function: &Function, types: &TypeMap) -> (r: String)
    ensures
        r@ == spec_export_function(*function),
{
    let wasm_args = format_export_wasm_args(&function.args);
    let wrapper_return_type: String;
    if function.is_async {
        wrapper_return_type = " -> FatPtr".to_owned();
    } else {
        match &function.return_type {
            Some(t) => {
                let mut w = " -> ".to_owned();
                let ident = format_wasm_ident(t);
                w.append(ident.as_str());
                wrapper_return_type = w;
            },
            None => {
                wrapper_return_type = String::new();
            },
        }
    }
    let import_args = format_import_args_block(&function.args, types);
    let arg_names = format_arg_names(&function.args);
    let return_wrapper: String;
    if function.is_async {
        return_wrapper = "let async_ptr = create_future_value(&mut env);\n    let result: Vec<u8> = std::thread::spawn(|| {\n        let rt = tokio::runtime::Builder::new_current_thread()\n            .build()\n            .unwrap();\n        rt.block_on(async move {\n            rmp_serde::to_vec(&result.await).unwrap()\n        })\n    }).join().unwrap();\n\n    let result_ptr = export_to_guest_raw(&mut env, &result);\n    env.data()\n        .clone()\n        .guest_resolve_async_value(&mut env.as_store_mut(), async_ptr, result_ptr);\n\n    async_ptr".to_owned();
    } else {
        match &function.return_type {
            None => {
                return_wrapper = String::new();
            },
            Some(t) => {
                if t.is_primitive() {
                    return_wrapper = "result.to_abi()".to_owned();
                } else {
                    return_wrapper = "export_to_guest(&mut env, &result)".to_owned();
                }
            },
        }
    }
    let mut r = "pub fn _".to_owned();
    r.append(function.name.as_str());
    r.append("(mut env: FunctionEnvMut<Arc<RuntimeInstanceData>>");
    r.append(wasm_args.as_str());
    r.append(")");
    r.append(wrapper_return_type.as_str());
    r.append(" {\n    ");
    r.append(import_args.as_str());
    r.append("\n    let result = super::");
    r.append(function.name.as_str());
    r.append("(");
    r.append(arg_names.as_str());
    r.append(");\n    ");
    r.append(return_wrapper.as_str());
    r.append("\n}");
    r
}

pub open spec fn spec_import_entries(fns: Seq<Function>) -> Seq<Seq<char>> {
    fns.map_values(
        |f: Function|
            "\"__fp_gen_"@ + f.name@ + "\" => Function::new_typed_with_env(store, env, _"@
                + f.name@ + "),"@,
    )
}

/// The function that installs the host callbacks under the fixed symbol
/// names, the shared resolution callback among them.
pub open spec fn spec_create_imports(fns: Seq<Function>) -> Seq<char> {
    "fn create_imports(store: &mut Store, env: &FunctionEnv<Arc<RuntimeInstanceData>>) -> Imports {\n    imports! {\n        \"fp\" => {\n            \"__fp_host_resolve_async_value\" => Function::new_typed_with_env(store, env, resolve_async_value),\n            "@ + sep_join(spec_import_entries(fns), "\n            "@) + "\n        }\n    }\n}"@
}

/// Renders the function that installs every host callback.
pub fn generate_create_imports_func(import_functions: &FunctionList) -> (r: String)
    ensures
        r@ == spec_create_imports(import_functions.functions@),
{
    let fns = &import_functions.functions;
    let mut pieces: Vec<String> = Vec::new();
    let mut i: usize = 0;
    while i < fns.len()
        invariant
            i <= fns@.len(),
            pieces@.len() == i,
            forall|j: int|
                0 <= j < i ==> pieces@[j]@ == "\"__fp_gen_"@ + fns@[j].name@
                    + "\" => Function::new_typed_with_env(store, env, _"@ + fns@[j].name@
                    + "),"@,
        decreases fns@.len() - i,
    {
        let mut piece = "\"__fp_gen_".to_owned();
        piece.append(fns[i].name.as_str());
        piece.append("\" => Function::new_typed_with_env(store, env, _");
        piece.append(fns[i].name.as_str());
        piece.append("),");
        pieces.push(piece);
        i += 1;
    }
    proof {
        assert(views_of(pieces@) =~= spec_import_entries(fns@));
    }
    let mut r = "fn create_imports(store: &mut Store, env: &FunctionEnv<Arc<RuntimeInstanceData>>) -> Imports {\n    imports! {\n        \"fp\" => {\n            \"__fp_host_resolve_async_value\" => Function::new_typed_with_env(store, env, resolve_async_value),\n            ".to_owned();
    let joined = join_strings(&pieces, "\n            ");
    r.append(joined.as_str());
    r.append("\n        }\n    }\n}");
    r
}

pub open spec fn spec_exported_symbols(fns: Seq<Function>) -> Seq<Seq<char>> {
    fns.map_values(|f: Function| spec_export_function(f))
}

pub open spec fn spec_import_methods(fns: Seq<Function>) -> Seq<Seq<char>> {
    fns.map_values(|f: Function| spec_import_function(f))
}

/// The whole unformatted runtime module: the fixed boilerplate with the
/// constructor, the typed methods for the guest's exports, the installer
/// for the host callbacks, and the exported symbols spliced in.
pub open spec fn spec_module_source(
    imports: Seq<char>,
    exports: Seq<char>,
    new_func: Seq<char>,
    create_imports_func: Seq<char>,
) -> Seq<char> {
    "use super::types::*;\nuse fp_bindgen_support::{\n    common::{mem::FatPtr, abi::WasmAbi},\n    host::{\n        errors::{InvocationError, RuntimeError},\n        mem::{export_to_guest, export_to_guest_raw, import_from_guest, import_from_guest_raw, deserialize_from_slice, serialize_to_vec},\n        r#async::{create_future_value, future::ModuleRawFuture, resolve_async_value},\n        runtime::RuntimeInstanceData,\n    },\n};\nuse std::sync::Arc;\nuse wasmer::{imports, AsStoreMut, Function, FunctionEnv, FunctionEnvMut, Imports, Instance, Module, Store, Singlepass};\n\npub struct Runtime {\n    store: Store,\n    instance: Instance,\n    env: FunctionEnv<Arc<RuntimeInstanceData>>,\n}\n\nimpl Runtime {\n    "@ + new_func + "\n\n    fn default_store() -> wasmer::Store {\n        Store::new(Singlepass::default())\n    }\n\n    fn function_env_mut(&mut self) -> FunctionEnvMut<Arc<RuntimeInstanceData>> {\n        self.env.clone().into_mut(&mut self.store)\n    }\n\n    "@ + exports + "\n}\n\n"@ + create_imports_func + "\n\n"@
        + imports + "\n"@
}

/// Assembles the unformatted runtime module from its rendered pieces.
pub fn format_module_source(
    imports: &String,
    exports: &String,
    new_func: &String,
    create_imports_func: &String,
) -> (r: String)
    ensures
        r@ == spec_module_source(imports@, exports@, new_func@, create_imports_func@),
{
    let mut r = "use super::types::*;\nuse fp_bindgen_support::{\n    common::{mem::FatPtr, abi::WasmAbi},\n    host::{\n        errors::{InvocationError, RuntimeError},\n        mem::{export_to_guest, export_to_guest_raw, import_from_guest, import_from_guest_raw, deserialize_from_slice, serialize_to_vec},\n        r#async::{create_future_value, future::ModuleRawFuture, resolve_async_value},\n        runtime::RuntimeInstanceData,\n    },\n};\nuse std::sync::Arc;\nuse wasmer::{imports, AsStoreMut, Function, FunctionEnv, FunctionEnvMut, Imports, Instance, Module, Store, Singlepass};\n\npub struct Runtime {\n    store: Store,\n    instance: Instance,\n    env: FunctionEnv<Arc<RuntimeInstanceData>>,\n}\n\nimpl Runtime {\n    ".to_owned();
    r.append(new_func.as_str());
    r.append("\n\n    fn default_store() -> wasmer::Store {\n        Store::new(Singlepass::default())\n    }\n\n    fn function_env_mut(&mut self) -> FunctionEnvMut<Arc<RuntimeInstanceData>> {\n        self.env.clone().into_mut(&mut self.store)\n    }\n\n    ");
    r.append(exports.as_str());
    r.append("\n}\n\n");
    r.append(create_imports_func.as_str());
    r.append("\n\n");
    r.append(imports.as_str());
    r.append("\n");
    r
}

/// Relies on rustfmt_wrapper::rustfmt, which feeds the text to the
/// `rustfmt` binary it finds through the environment: what comes back
/// depends on the installed formatter, so nothing is claimed of the
/// output's content.
#[verifier::external_body]
fn rustfmt_text(source: &str) -> Result<String, String> {
    match rustfmt_wrapper::rustfmt(source) {
        Ok(formatted) => Ok(formatted),
        Err(e) => Err(e.to_string()),
    }
}

/// Assembles the runtime module and hands it to the external formatting
/// pass; a refusal by the formatter is the only error.
pub fn format_function_bindings(
    imports: String,
    exports: String,
    new_func: String,
    create_imports_func: String,
) -> (r: Result<String, BindingsError>)
    ensures
        r is Err ==> r->Err_0 matches BindingsError::Formatting(_),
{
    let source = format_module_source(&imports, &exports, &new_func, &create_imports_func);
    match rustfmt_text(source.as_str()) {
        Ok(formatted) => Ok(formatted),
        Err(message) => Err(BindingsError::Formatting(message)),
    }
}

/// The constructor embedded verbatim in every generated runtime module.
pub fn new_func_source() -> (r: String)
    ensures
        r@ == "pub fn new(wasm_module: impl AsRef<[u8]>) -> Result<Self, RuntimeError> {\n        let mut store = Self::default_store();\n        let module = Module::new(&store, wasm_module)?;\n        let env = FunctionEnv::new(&mut store, Arc::new(RuntimeInstanceData::default()));\n        let import_object = create_imports(&mut store, &env);\n        let instance = Instance::new(&mut store, &module, &import_object).unwrap();\n        let env_from_instance = RuntimeInstanceData::from_instance(&mut store, &instance);\n        Arc::get_mut(env.as_mut(&mut store)).unwrap().copy_from(env_from_instance);\n        Ok(Self { store, instance, env })\n    }"@,
{
    "pub fn new(wasm_module: impl AsRef<[u8]>) -> Result<Self, RuntimeError> {\n        let mut store = Self::default_store();\n        let module = Module::new(&store, wasm_module)?;\n        let env = FunctionEnv::new(&mut store, Arc::new(RuntimeInstanceData::default()));\n        let import_object = create_imports(&mut store, &env);\n        let instance = Instance::new(&mut store, &module, &import_object).unwrap();\n        let env_from_instance = RuntimeInstanceData::from_instance(&mut store, &instance);\n        Arc::get_mut(env.as_mut(&mut store)).unwrap().copy_from(env_from_instance);\n        Ok(Self { store, instance, env })\n    }".to_owned()
}

fn format_blocks(fns: &Vec<Function>, types: &TypeMap, exports_side: bool) -> (r: String)
    ensures
        exports_side ==> r@ == sep_join(spec_exported_symbols(fns@), "\n\n"@),
        !exports_side ==> r@ == sep_join(spec_import_methods(fns@), "\n\n"@),
{
    let mut pieces: Vec<String> = Vec::new();
    let mut i: usize = 0;
    while i < fns.len()
        invariant
            i <= fns@.len(),
            pieces@.len() == i,
            exports_side ==> forall|j: int|
                0 <= j < i ==> pieces@[j]@ == spec_export_function(fns@[j]),
            !exports_side ==> forall|j: int|
                0 <= j < i ==> pieces@[j]@ == spec_import_function(fns@[j]),
        decreases fns@.len() - i,
    {
        let piece = if exports_side {
            format_export_function(&fns[i], types)
        } else {
            format_import_function(&fns[i], types)
        };
        pieces.push(piece);
        i += 1;
    }
    proof {
        if exports_side {
            assert(views_of(pieces@) =~= spec_exported_symbols(fns@));
        } else {
            assert(views_of(pieces@) =~= spec_import_methods(fns@));
        }
    }
    join_strings(&pieces, "\n\n")
}

/// Renders the whole function-bindings artifact and hands it to the
/// external formatting pass. The assembled, unformatted module is exactly
/// `spec_module_source` over the rendered blocks; the formatted result
/// depends on the installed formatter.
pub fn generate_function_bindings(
    import_functions: FunctionList,
    export_functions: FunctionList,
    types: &TypeMap,
) -> (r: Result<String, BindingsError>)
    ensures
        r is Err ==> r->Err_0 matches BindingsError::Formatting(_),
{
    let imports = format_blocks(&import_functions.functions, types, true);
    let exports = format_blocks(&export_functions.functions, types, false);
    let new_func = new_func_source();
    let create_imports_func = generate_create_imports_func(&import_functions);
    format_function_bindings(imports, exports, new_func, create_imports_func)
}

/// Renders the native host-runtime bindings for the declared functions.
pub fn generate_bindings(
    import_functions: FunctionList,
    export_functions: FunctionList,
    types: &TypeMap,
) -> (r: Result<String, BindingsError>)
    ensures
        r is Err ==> r->Err_0 matches BindingsError::Formatting(_),
{
    generate_function_bindings(import_functions, export_functions, types)
}

} // verus!
