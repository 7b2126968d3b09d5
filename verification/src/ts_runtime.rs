//! The TypeScript host-runtime generator: renders the type declarations and
//! the runtime module that instantiates a guest plugin, wires up imported
//! host functions, and exposes the guest's exports as plain callables or
//! promises, all honoring the shared wire-level contract.

use crate::casing::{camel_of, spec_format_string, to_camel_case};
use crate::strutil::{join_strings, sep_join, str_eq, views_of};
use crate::types::{
    spec_type_names_joined, tuple_type_names, EnumOptions, Field, Function, FunctionArg,
    FunctionList, GenericArgument, Primitive, Type, Variant,
};
use crate::BindingsError;
use vstd::prelude::*;

verus! {

/// Which side of the boundary a declaration belongs to: imports are always
/// provided by the runtime, exports may be omitted by a plugin.
#[derive(Clone, Copy, PartialEq, Eq, Structural, Debug)]
pub enum FunctionType {
    Import,
    Export,
}

pub open spec fn spec_ts_primitive(p: Primitive) -> Seq<char> {
    match p {
        Primitive::Bool => "boolean"@,
        Primitive::F32 => "number"@,
        Primitive::F64 => "number"@,
        Primitive::I8 => "number"@,
        Primitive::I16 => "number"@,
        Primitive::I32 => "number"@,
        Primitive::I64 => "bigint"@,
        Primitive::I128 => "bigint"@,
        Primitive::U8 => "number"@,
        Primitive::U16 => "number"@,
        Primitive::U32 => "number"@,
        Primitive::U64 => "bigint"@,
        Primitive::U128 => "bigint"@,
    }
}

/// The TypeScript representation of a primitive that crosses the boundary
/// by value.
pub fn format_primitive(primitive: Primitive) -> (r: String)
    ensures
        r@ == spec_ts_primitive(primitive),
{
    match primitive {
        Primitive::Bool => "boolean".to_owned(),
        Primitive::F32 => "number".to_owned(),
        Primitive::F64 => "number".to_owned(),
        Primitive::I8 => "number".to_owned(),
        Primitive::I16 => "number".to_owned(),
        Primitive::I32 => "number".to_owned(),
        Primitive::I64 => "bigint".to_owned(),
        Primitive::I128 => "bigint".to_owned(),
        Primitive::U8 => "number".to_owned(),
        Primitive::U16 => "number".to_owned(),
        Primitive::U32 => "number".to_owned(),
        Primitive::U64 => "bigint".to_owned(),
        Primitive::U128 => "bigint".to_owned(),
    }
}

/// A type reference as it appears in TypeScript source.
pub open spec fn spec_ts_type(ty: Type) -> Seq<char>
    decreases ty, 1int,
{
    match ty {
        Type::Alias(name, _) => name@,
        Type::Container(name, inner) => if name@ == "Option"@ {
            spec_ts_type(*inner) + " | null"@
        } else {
            spec_ts_type(*inner)
        },
        Type::Custom(custom) => custom.ts_ty@,
        Type::Enum(name, args, _, _) => spec_ts_name_with_types(name@, args@),
        Type::GenericArgument(arg) => arg.name@,
        Type::List(_, inner) => if *inner == Type::Primitive(Primitive::U8) {
            "ArrayBuffer"@
        } else {
            "Array<"@ + spec_ts_type(*inner) + ">"@
        },
        Type::Mapping(_, k, v) => "Record<"@ + spec_ts_type(*k) + ", "@ + spec_ts_type(*v)
            + ">"@,
        Type::Primitive(p) => spec_ts_primitive(p),
        Type::Str => "string"@,
        Type::Struct(name, args, _) => spec_ts_name_with_types(name@, args@),
        Type::Tuple(items) => "["@ + spec_type_names_joined(items@) + "]"@,
        Type::Unit => "void"@,
    }
}

pub open spec fn spec_ts_name_with_types(name: Seq<char>, args: Seq<GenericArgument>) -> Seq<
    char,
>
    decreases args, 1int,
{
    if args.len() == 0 {
        name
    } else {
        name + "<"@ + spec_ts_generic_args(args) + ">"@
    }
}

pub open spec fn spec_ts_generic_args(args: Seq<GenericArgument>) -> Seq<char>
    decreases args, 0int,
{
    if args.len() == 0 {
        Seq::empty()
    } else if args.len() == 1 {
        spec_ts_generic_arg(args[0])
    } else {
        spec_ts_generic_args(args.drop_last()) + ", "@ + spec_ts_generic_arg(args.last())
    }
}

pub open spec fn spec_ts_generic_arg(a: GenericArgument) -> Seq<char>
    decreases a, 0int,
{
    match a.ty {
        Some(t) => spec_ts_type(t),
        None => a.name@,
    }
}

/// Formats a type so it's valid TypeScript.
pub fn format_type(ty: &Type) -> (r: String)
    ensures
        r@ == spec_ts_type(*ty),
    decreases *ty, 1int,
{
    match ty {
        Type::Alias(name, _) => name.clone(),
        Type::Container(name, inner) => {
            if str_eq(name.as_str(), "Option") {
                let mut r = format_type(inner);
                r.append(" | null");
                r
            } else {
                format_type(inner)
            }
        },
        Type::Custom(custom) => custom.ts_ty.clone(),
        Type::Enum(name, args, _, _) => format_name_with_types(name.as_str(), args),
        Type::GenericArgument(arg) => arg.name.clone(),
        Type::List(_, inner) => {
            let is_u8 = match &**inner {
                Type::Primitive(Primitive::U8) => true,
                _ => false,
            };
            if is_u8 {
                // Special case so a list of bytes becomes `ArrayBuffer` in TS:
                "ArrayBuffer".to_owned()
            } else {
                let mut r = "Array<".to_owned();
                let inner_ts = format_type(inner);
                r.append(inner_ts.as_str());
                r.append(">");
                r
            }
        },
        Type::Mapping(_, k, v) => {
            let mut r = "Record<".to_owned();
            let k_ts = format_type(k);
            r.append(k_ts.as_str());
            r.append(", ");
            let v_ts = format_type(v);
            r.append(v_ts.as_str());
            r.append(">");
            r
        },
        Type::Primitive(p) => format_primitive(*p),
        Type::Str => "string".to_owned(),
        Type::Struct(name, args, _) => format_name_with_types(name.as_str(), args),
        Type::Tuple(items) => {
            let mut r = "[".to_owned();
            let joined = tuple_type_names(items);
            r.append(joined.as_str());
            r.append("]");
            r
        },
        Type::Unit => "void".to_owned(),
    }
}

/// Renders `name` or `name<arg, ...>`, with each instantiated generic
/// argument rendered as a TypeScript type.
pub fn format_name_with_types(name: &str, generic_args: &Vec<GenericArgument>) -> (r: String)
    ensures
        r@ == spec_ts_name_with_types(name@, generic_args@),
    decreases generic_args@, 1int,
{
    if generic_args.len() == 0 {
        return name.to_owned();
    }
    let mut r = name.to_owned();
    r.append("<");
    let joined = format_generic_args(generic_args);
    r.append(joined.as_str());
    r.append(">");
    r
}

fn format_generic_args(args: &Vec<GenericArgument>) -> (r: String)
    ensures
        r@ == spec_ts_generic_args(args@),
    decreases args@, 0int,
{
    let mut r = String::new();
    let mut i: usize = 0;
    while i < args.len()
        invariant
            i <= args@.len(),
            r@ == spec_ts_generic_args(args@.take(i as int)),
        decreases args@.len() - i,
    {
        if i > 0 {
            r.append(", ");
        }
        let one = format_generic_arg(&args[i]);
        r.append(one.as_str());
        proof {
            assert(args@.take(i + 1).drop_last() =~= args@.take(i as int));
            assert(args@.take(i + 1).last() == args@[i as int]);
        }
        i += 1;
    }
    proof {
        assert(args@.take(args@.len() as int) =~= args@);
    }
    r
}

fn format_generic_arg(a: &GenericArgument) -> (r: String)
    ensures
        r@ == spec_ts_generic_arg(*a),
    decreases *a, 0int,
{
    match &a.ty {
        Some(t) => format_type(t),
        None => a.name.clone(),
    }
}

/// A struct field rendered as a TypeScript object property; an optional
/// container becomes an optional property of the inner type.
pub open spec fn spec_struct_field(f: Field) -> Seq<char> {
    match f.ty {
        Type::Container(cname, inner) => camel_of(f.name@) + (if cname@ == "Option"@ {
            "?"@
        } else {
            Seq::<char>::empty()
        }) + ": "@ + spec_ts_type(*inner),
        _ => camel_of(f.name@) + ": "@ + spec_ts_type(f.ty),
    }
}

pub open spec fn spec_struct_fields(fields: Seq<Field>) -> Seq<Seq<char>> {
    fields.map_values(|f: Field| spec_struct_field(f))
}

/// Renders each field as a TypeScript property.
pub fn format_struct_fields(fields: &Vec<Field>) -> (r: Vec<String>)
    ensures
        views_of(r@) == spec_struct_fields(fields@),
{
    let mut r: Vec<String> = Vec::new();
    let mut i: usize = 0;
    while i < fields.len()
        invariant
            i <= fields@.len(),
            r@.len() == i,
            forall|j: int| 0 <= j < i ==> r@[j]@ == spec_struct_field(fields@[j]),
        decreases fields@.len() - i,
    {
        let field = &fields[i];
        let mut line = to_camel_case(field.name.as_str());
        match &field.ty {
            Type::Container(cname, inner) => {
                if str_eq(cname.as_str(), "Option") {
                    line.append("?");
                }
                line.append(": ");
                let ty_ts = format_type(inner);
                line.append(ty_ts.as_str());
            },
            ty => {
                line.append(": ");
                let ty_ts = format_type(ty);
                line.append(ty_ts.as_str());
            },
        }
        r.push(line);
        i += 1;
    }
    proof {
        assert(views_of(r@) =~= spec_struct_fields(fields@));
    }
    r
}

/// What `join_lines` returns: every line wrapped in the prefix and suffix,
/// the results joined with newlines.
pub open spec fn spec_join_lines(lines: Seq<Seq<char>>, prefix: Seq<char>, suffix: Seq<char>) -> Seq<
    char,
> {
    sep_join(lines.map_values(|l: Seq<char>| prefix + l + suffix), "\n"@)
}

/// Wraps each line in a prefix and suffix and joins the results with
/// newlines.
pub fn join_lines(lines: &Vec<String>, prefix: &str, suffix: &str) -> (r: String)
    ensures
        r@ == spec_join_lines(views_of(lines@), prefix@, suffix@),
{
    let mut pieces: Vec<String> = Vec::new();
    let mut i: usize = 0;
    while i < lines.len()
        invariant
            i <= lines@.len(),
            pieces@.len() == i,
            forall|j: int| 0 <= j < i ==> pieces@[j]@ == prefix@ + lines@[j]@ + suffix@,
        decreases lines@.len() - i,
    {
        let mut piece = prefix.to_owned();
        piece.append(lines[i].as_str());
        piece.append(suffix);
        pieces.push(piece);
        i += 1;
    }
    let r = join_strings(&pieces, "\n");
    proof {
        assert(views_of(pieces@) =~= views_of(lines@).map_values(
            |l: Seq<char>| prefix@ + l + suffix@,
        ));
    }
    r
}

/// The struct definition emitted for the TypeScript target.
pub open spec fn spec_struct_definition(
    name: Seq<char>,
    args: Seq<GenericArgument>,
    fields: Seq<Field>,
) -> Seq<char> {
    "export type "@ + crate::types::spec_name_with_generics(name, args) + " = {\n"@
        + spec_join_lines(spec_struct_fields(fields), "    "@, ";"@) + "\n};"@
}

/// Renders one struct as a TypeScript object type.
pub fn create_struct_definition(
    name: &str,
    generic_args: &Vec<GenericArgument>,
    fields: &Vec<Field>,
) -> (r: String)
    ensures
        r@ == spec_struct_definition(name@, generic_args@, fields@),
{
    let mut r = "export type ".to_owned();
    let head = crate::types::format_name_with_generics(name, generic_args);
    r.append(head.as_str());
    r.append(" = {\n");
    let field_lines = format_struct_fields(fields);
    let body = join_lines(&field_lines, "    ", ";");
    r.append(body.as_str());
    r.append("\n};");
    r
}

/// Whether a variant payload shape can be expressed by the TypeScript enum
/// encoding: a tag-only variant, named fields, or exactly one positional
/// item.
pub open spec fn spec_variant_supported(v: Variant) -> bool {
    match v.ty {
        Type::Unit => true,
        Type::Struct(_, _, _) => true,
        Type::Tuple(items) => items.len() == 1,
        _ => false,
    }
}

/// The union arm emitted for one variant, under the enum's encoding
/// options; meaningful only for a supported variant.
pub open spec fn spec_variant_line(v: Variant, opts: EnumOptions) -> Seq<char> {
    let vname = spec_format_string(opts.variant_casing, v.name@);
    match v.ty {
        Type::Unit => match opts.tag_prop_name {
            Some(tag) => "    | { "@ + tag@ + ": \""@ + vname + "\" }"@,
            None => "    | \""@ + vname + "\""@,
        },
        Type::Struct(_, _, fields) => {
            let fields_joined = sep_join(spec_struct_fields(fields@), "; "@);
            if opts.untagged {
                "    | { "@ + fields_joined + " }"@
            } else {
                match (opts.tag_prop_name, opts.content_prop_name) {
                    (Some(tag), Some(content)) => "    | { "@ + tag@ + ": \""@ + vname
                        + "\"; "@ + content@ + ": { "@ + fields_joined + " } }"@,
                    (Some(tag), None) => "    | { "@ + tag@ + ": \""@ + vname + "\"; "@
                        + fields_joined + " }"@,
                    (None, _) => "    | { "@ + vname + ": { "@ + fields_joined + " } }"@,
                }
            }
        },
        Type::Tuple(items) => {
            let item_ts = spec_ts_type(items[0]);
            if opts.untagged {
                "    | "@ + item_ts
            } else {
                match (opts.tag_prop_name, opts.content_prop_name) {
                    (Some(tag), Some(content)) => "    | { "@ + tag@ + ": \""@ + vname
                        + "\"; "@ + content@ + ": "@ + item_ts + " }"@,
                    (Some(tag), None) => "    | { "@ + tag@ + ": \""@ + vname + "\" } & "@
                        + item_ts,
                    (None, _) => "    | { "@ + vname + ": "@ + item_ts + " }"@,
                }
            }
        },
        _ => Seq::empty(),
    }
}

pub open spec fn spec_variant_lines(variants: Seq<Variant>, opts: EnumOptions) -> Seq<
    Seq<char>,
> {
    variants.map_values(|v: Variant| spec_variant_line(v, opts))
}

/// The enum definition emitted for the TypeScript target: a union of the
/// variants' arms under the chosen wire encoding.
pub open spec fn spec_enum_definition(
    name: Seq<char>,
    args: Seq<GenericArgument>,
    variants: Seq<Variant>,
    opts: EnumOptions,
) -> Seq<char> {
    "export type "@ + crate::types::spec_name_with_generics(name, args) + " =\n"@ + sep_join(
        spec_variant_lines(variants, opts),
        "\n"@,
    ) + ";"@
}

/// Renders one variant's union arm, or reports that its payload shape is
/// not expressible.
fn format_variant(variant: &Variant, opts: &EnumOptions) -> (r: Option<String>)
    ensures
        r is Some <==> spec_variant_supported(*variant),
        r is Some ==> r->0@ == spec_variant_line(*variant, *opts),
{
    let vname = opts.variant_casing.format_string(variant.name.as_str());
    match &variant.ty {
        Type::Unit => {
            let mut line: String;
            match &opts.tag_prop_name {
                Some(tag) => {
                    line = "    | { ".to_owned();
                    line.append(tag.as_str());
                    line.append(": \"");
                    line.append(vname.as_str());
                    line.append("\" }");
                },
                None => {
                    line = "    | \"".to_owned();
                    line.append(vname.as_str());
                    line.append("\"");
                },
            }
            Some(line)
        },
        Type::Struct(_, _, fields) => {
            let field_lines = format_struct_fields(fields);
            let fields_joined = join_strings(&field_lines, "; ");
            let mut line: String;
            if opts.untagged {
                line = "    | { ".to_owned();
                line.append(fields_joined.as_str());
                line.append(" }");
            } else {
                match (&opts.tag_prop_name, &opts.content_prop_name) {
                    (Some(tag), Some(content)) => {
                        line = "    | { ".to_owned();
                        line.append(tag.as_str());
                        line.append(": \"");
                        line.append(vname.as_str());
                        line.append("\"; ");
                        line.append(content.as_str());
                        line.append(": { ");
                        line.append(fields_joined.as_str());
                        line.append(" } }");
                    },
                    (Some(tag), None) => {
                        line = "    | { ".to_owned();
                        line.append(tag.as_str());
                        line.append(": \"");
                        line.append(vname.as_str());
                        line.append("\"; ");
                        line.append(fields_joined.as_str());
                        line.append(" }");
                    },
                    (None, _) => {
                        line = "    | { ".to_owned();
                        line.append(vname.as_str());
                        line.append(": { ");
                        line.append(fields_joined.as_str());
                        line.append(" } }");
                    },
                }
            }
            Some(line)
        },
        Type::Tuple(items) => {
            if items.len() != 1 {
                return None;
            }
            let item_ts = format_type(&items[0]);
            let mut line: String;
            if opts.untagged {
                line = "    | ".to_owned();
                line.append(item_ts.as_str());
            } else {
                match (&opts.tag_prop_name, &opts.content_prop_name) {
                    (Some(tag), Some(content)) => {
                        line = "    | { ".to_owned();
                        line.append(tag.as_str());
                        line.append(": \"");
                        line.append(vname.as_str());
                        line.append("\"; ");
                        line.append(content.as_str());
                        line.append(": ");
                        line.append(item_ts.as_str());
                        line.append(" }");
                    },
                    (Some(tag), None) => {
                        line = "    | { ".to_owned();
                        line.append(tag.as_str());
                        line.append(": \"");
                        line.append(vname.as_str());
                        line.append("\" } & ");
                        line.append(item_ts.as_str());
                    },
                    (None, _) => {
                        line = "    | { ".to_owned();
                        line.append(vname.as_str());
                        line.append(": ");
                        line.append(item_ts.as_str());
                        line.append(" }");
                    },
                }
            }
            Some(line)
        },
        _ => None,
    }
}

/// Renders one enum as a TypeScript union type, or reports the first
/// variant whose payload shape the encoding cannot express.
pub fn create_enum_definition(
    name: &str,
    generic_args: &Vec<GenericArgument>,
    variants: &Vec<Variant>,
    opts: &EnumOptions,
) -> (r: Result<String, BindingsError>)
    ensures
        r is Ok <==> (forall|j: int|
            0 <= j < variants@.len() ==> spec_variant_supported(#[trigger] variants@[j])),
        r is Ok ==> r->Ok_0@ == spec_enum_definition(name@, generic_args@, variants@, *opts),
        r is Err ==> ({
            &&& r->Err_0 matches BindingsError::UnsupportedEnumVariant(en, vn)
            &&& en@ == name@
            &&& exists|j: int|
                0 <= j < variants@.len() && !spec_variant_supported(#[trigger] variants@[j])
                    && vn@ == variants@[j].name@
        }),
{
    let mut lines: Vec<String> = Vec::new();
    let mut i: usize = 0;
    while i < variants.len()
        invariant
            i <= variants@.len(),
            lines@.len() == i,
            forall|j: int| 0 <= j < i ==> spec_variant_supported(#[trigger] variants@[j]),
            forall|j: int|
                0 <= j < i ==> lines@[j]@ == spec_variant_line(variants@[j], *opts),
        decreases variants@.len() - i,
    {
        match format_variant(&variants[i], opts) {
            Some(line) => {
                lines.push(line);
            },
            None => {
                return Err(
                    BindingsError::UnsupportedEnumVariant(
                        name.to_owned(),
                        variants[i].name.clone(),
                    ),
                );
            },
        }
        i += 1;
    }
    let mut r = "export type ".to_owned();
    let head = crate::types::format_name_with_generics(name, generic_args);
    r.append(head.as_str());
    r.append(" =\n");
    let body = join_strings(&lines, "\n");
    r.append(body.as_str());
    r.append(";");
    proof {
        assert(views_of(lines@) =~= spec_variant_lines(variants@, *opts));
    }
    Ok(r)
}

/// The definition a type contributes to the type-declarations artifact:
/// aliases, enums and structs produce one; every other shape produces none.
pub open spec fn spec_type_def(ty: Type) -> Option<Seq<char>> {
    match ty {
        Type::Alias(name, inner) => Some(
            "export type "@ + name@ + " = "@ + spec_ts_type(*inner) + ";"@,
        ),
        Type::Enum(name, args, variants, opts) => Some(
            spec_enum_definition(name@, args@, variants@, opts),
        ),
        Type::Struct(name, args, fields) => Some(
            spec_struct_definition(name@, args@, fields@),
        ),
        _ => None,
    }
}

pub open spec fn spec_type_defs(types: Seq<Type>) -> Seq<Seq<char>>
    decreases types.len(),
{
    if types.len() == 0 {
        Seq::empty()
    } else {
        spec_type_defs(types.drop_last()) + match spec_type_def(types.last()) {
            Some(def) => seq![def],
            None => Seq::empty(),
        }
    }
}

/// Whether a type is expressible: only an enum with an inexpressible
/// variant payload is not.
pub open spec fn spec_type_supported(ty: Type) -> bool {
    match ty {
        Type::Enum(_, _, variants, _) => forall|j: int|
            0 <= j < variants.len() ==> spec_variant_supported(#[trigger] variants[j]),
        _ => true,
    }
}

pub open spec fn spec_types_supported(types: Seq<Type>) -> bool {
    forall|i: int| 0 <= i < types.len() ==> spec_type_supported(#[trigger] types[i])
}

/// The whole type-declarations artifact: every named type's definition,
/// separated by blank lines, with a trailing newline.
pub open spec fn spec_type_bindings(types: Seq<Type>) -> Seq<char> {
    sep_join(spec_type_defs(types), "\n\n"@) + "\n"@
}

/// Renders the type-declarations artifact, or reports the first enum whose
/// encoding cannot express one of its variants.
pub fn generate_type_bindings(types: &Vec<Type>) -> (r: Result<String, BindingsError>)
    ensures
        r is Ok <==> spec_types_supported(types@),
        r is Ok ==> r->Ok_0@ == spec_type_bindings(types@),
        r is Err ==> ({
            &&& r->Err_0 matches BindingsError::UnsupportedEnumVariant(en, vn)
            &&& exists|i: int|
                0 <= i < types@.len() && ((#[trigger] types@[i]) matches Type::Enum(
                    name,
                    _,
                    variants,
                    _,
                ) && en@ == name@ && exists|j: int|
                    0 <= j < variants@.len() && !spec_variant_supported(
                        #[trigger] variants@[j],
                    ) && vn@ == variants@[j].name@)
        }),
{
    let mut defs: Vec<String> = Vec::new();
    let mut i: usize = 0;
    while i < types.len()
        invariant
            i <= types@.len(),
            views_of(defs@) == spec_type_defs(types@.take(i as int)),
            forall|j: int| 0 <= j < i ==> spec_type_supported(#[trigger] types@[j]),
        decreases types@.len() - i,
    {
        proof {
            assert(types@.take(i + 1).drop_last() =~= types@.take(i as int));
            assert(types@.take(i + 1).last() == types@[i as int]);
        }
        match &types[i] {
            Type::Alias(name, inner) => {
                let mut def = "export type ".to_owned();
                def.append(name.as_str());
                def.append(" = ");
                let inner_ts = format_type(inner);
                def.append(inner_ts.as_str());
                def.append(";");
                defs.push(def);
                proof {
                    assert(views_of(defs@) =~= spec_type_defs(types@.take(i + 1)));
                }
            },
            Type::Enum(name, args, variants, opts) => {
                match create_enum_definition(name.as_str(), args, variants, opts) {
                    Ok(def) => {
                        defs.push(def);
                        proof {
                            assert(views_of(defs@) =~= spec_type_defs(types@.take(i + 1)));
                        }
                    },
                    Err(e) => {
                        return Err(e);
                    },
                }
            },
            Type::Struct(name, args, fields) => {
                let def = create_struct_definition(name.as_str(), args, fields);
                defs.push(def);
                proof {
                    assert(views_of(defs@) =~= spec_type_defs(types@.take(i + 1)));
                }
            },
            _ => {
                proof {
                    assert(views_of(defs@) =~= spec_type_defs(types@.take(i + 1)));
                }
            },
        }
        i += 1;
    }
    proof {
        assert(types@.take(types@.len() as int) =~= types@);
    }
    let mut r = join_strings(&defs, "\n\n");
    r.append("\n");
    Ok(r)
}

/// What the return annotation of a declaration says: the rendered return
/// type, wrapped in a promise for an asynchronous function.
pub open spec fn spec_ret_type(f: Function) -> Type {
    match f.return_type {
        Some(t) => t,
        None => Type::Unit,
    }
}

pub open spec fn spec_decl_arg(a: FunctionArg) -> Seq<char> {
    camel_of(a.name@) + ": "@ + spec_ts_type(a.ty)
}

pub open spec fn spec_decl_args(args: Seq<FunctionArg>) -> Seq<char> {
    sep_join(args.map_values(|a: FunctionArg| spec_decl_arg(a)), ", "@)
}

/// One function's declaration line: the camel-cased name, the optionality
/// marker of an export, the argument list, and the (possibly promised)
/// return type.
pub open spec fn spec_fn_decl(f: Function, function_type: FunctionType) -> Seq<char> {
    camel_of(f.name@) + (match function_type {
        FunctionType::Import => Seq::<char>::empty(),
        FunctionType::Export => "?"@,
    }) + ": ("@ + spec_decl_args(f.args@) + ")"@ + (if f.is_async {
        " => Promise<"@ + spec_ts_type(spec_ret_type(f)) + ">"@
    } else {
        " => "@ + spec_ts_type(spec_ret_type(f))
    })
}

pub open spec fn spec_fn_decls(fns: Seq<Function>, function_type: FunctionType) -> Seq<
    Seq<char>,
> {
    fns.map_values(|f: Function| spec_fn_decl(f, function_type))
}

fn format_decl_args(args: &Vec<FunctionArg>) -> (r: String)
    ensures
        r@ == spec_decl_args(args@),
{
    let mut pieces: Vec<String> = Vec::new();
    let mut i: usize = 0;
    while i < args.len()
        invariant
            i <= args@.len(),
            pieces@.len() == i,
            forall|j: int| 0 <= j < i ==> pieces@[j]@ == spec_decl_arg(args@[j]),
        decreases args@.len() - i,
    {
        let mut piece = to_camel_case(args[i].name.as_str());
        piece.append(": ");
        let ty_ts = format_type(&args[i].ty);
        piece.append(ty_ts.as_str());
        pieces.push(piece);
        i += 1;
    }
    proof {
        assert(views_of(pieces@) =~= args@.map_values(|a: FunctionArg| spec_decl_arg(a)));
    }
    join_strings(&pieces, ", ")
}

fn format_return_type(f: &Function) -> (r: String)
    ensures
        r@ == spec_ts_type(spec_ret_type(*f)),
{
    match &f.return_type {
        Some(t) => format_type(t),
        None => "void".to_owned(),
    }
}

/// Renders one declaration line per function, in declaration order.
pub fn format_function_declarations(functions: &FunctionList, function_type: FunctionType) -> (r:
    Vec<String>)
    ensures
        views_of(r@) == spec_fn_decls(functions.functions@, function_type),
{
    let fns = &functions.functions;
    let mut r: Vec<String> = Vec::new();
    let mut i: usize = 0;
    while i < fns.len()
        invariant
            i <= fns@.len(),
            r@.len() == i,
            forall|j: int| 0 <= j < i ==> r@[j]@ == spec_fn_decl(fns@[j], function_type),
        decreases fns@.len() - i,
    {
        let f = &fns[i];
        let mut line = to_camel_case(f.name.as_str());
        match function_type {
            FunctionType::Import => {},
            FunctionType::Export => {
                line.append("?");
            },
        }
        line.append(": (");
        let args = format_decl_args(&f.args);
        line.append(args.as_str());
        line.append(")");
        if f.is_async {
            line.append(" => Promise<");
            let ret = format_return_type(f);
            line.append(ret.as_str());
            line.append(">");
        } else {
            line.append(" => ");
            let ret = format_return_type(f);
            line.append(ret.as_str());
        }
        r.push(line);
        i += 1;
    }
    proof {
        assert(views_of(r@) =~= spec_fn_decls(fns@, function_type));
    }
    r
}

pub open spec fn spec_ptr_arg(a: FunctionArg) -> Seq<char> {
    match a.ty {
        Type::Primitive(p) => camel_of(a.name@) + ": "@ + spec_ts_primitive(p),
        _ => a.name@ + "_ptr: FatPtr"@,
    }
}

/// The argument list of a raw import wrapper: primitives by value, every
/// other argument as a fat pointer to its serialized form.
pub open spec fn spec_ptr_args(args: Seq<FunctionArg>) -> Seq<char> {
    sep_join(args.map_values(|a: FunctionArg| spec_ptr_arg(a)), ", "@)
}

/// The return annotation of a raw import wrapper.
pub open spec fn spec_wrapper_ret(f: Function) -> Seq<char> {
    match spec_ret_type(f) {
        Type::Unit => Seq::<char>::empty(),
        Type::Primitive(p) => ": "@ + spec_ts_primitive(p),
        _ => ": FatPtr"@,
    }
}

/// One decoding line per non-primitive argument.
pub open spec fn spec_parse_lines(args: Seq<FunctionArg>) -> Seq<Seq<char>>
    decreases args.len(),
{
    if args.len() == 0 {
        Seq::empty()
    } else {
        spec_parse_lines(args.drop_last()) + (if args.last().ty is Primitive {
            Seq::<Seq<char>>::empty()
        } else {
            seq![
                "    const "@ + camel_of(args.last().name@) + " = parseObject<"@
                    + spec_ts_type(args.last().ty) + ">("@ + args.last().name@ + "_ptr);"@,
            ]
        })
    }
}

pub open spec fn spec_camel_args(args: Seq<FunctionArg>) -> Seq<char> {
    sep_join(args.map_values(|a: FunctionArg| camel_of(a.name@)), ", "@)
}

/// The call made by a synchronous import wrapper: unit results are
/// discarded, primitives returned directly, anything else serialized.
pub open spec fn spec_sync_call(f: Function) -> Seq<char> {
    match spec_ret_type(f) {
        Type::Unit => "importFunctions."@ + camel_of(f.name@) + "("@ + spec_camel_args(f.args@)
            + ");"@,
        Type::Primitive(_) => "return importFunctions."@ + camel_of(f.name@) + "("@
            + spec_camel_args(f.args@) + ");"@,
        _ => "return serializeObject(importFunctions."@ + camel_of(f.name@) + "("@
            + spec_camel_args(f.args@) + "));"@,
    }
}

/// The lines of one imported (host-provided) function's wrapper. An
/// asynchronous import allocates the asynchronous-result record, returns it
/// immediately, and resolves it when the host's promise settles.
pub open spec fn spec_import_wrapper_lines(f: Function) -> Seq<Seq<char>> {
    let first = seq![
        "__fp_gen_"@ + f.name@ + ": ("@ + spec_ptr_args(f.args@) + ")"@ + spec_wrapper_ret(f)
            + " => {"@,
    ];
    if f.is_async {
        first + spec_parse_lines(f.args@) + seq![
            "    const _async_result_ptr = createAsyncValue();"@,
            "    importFunctions."@ + camel_of(f.name@) + "("@ + spec_camel_args(f.args@)
                + ")"@,
            "        .then((result) => {"@,
        ] + (match spec_ret_type(f) {
            Type::Unit => Seq::<Seq<char>>::empty(),
            _ => seq!["            assignAsyncValue(_async_result_ptr, result);"@],
        }) + seq![
            "            resolveFuture(_async_result_ptr);"@,
            "        })"@,
            "        .catch((error) => {"@,
            "            console.error("@,
            "                'Unrecoverable exception trying to call async host function \""@
                + f.name@ + "\"',"@,
            "                error"@,
            "            );"@,
            "        });"@,
            "    return _async_result_ptr;"@,
            "},"@,
        ]
    } else {
        first + spec_parse_lines(f.args@) + seq!["    "@ + spec_sync_call(f), "},"@]
    }
}

pub open spec fn spec_import_wrappers(fns: Seq<Function>) -> Seq<Seq<char>>
    decreases fns.len(),
{
    if fns.len() == 0 {
        Seq::empty()
    } else {
        spec_import_wrappers(fns.drop_last()) + spec_import_wrapper_lines(fns.last())
    }
}

fn format_ptr_args(args: &Vec<FunctionArg>) -> (r: String)
    ensures
        r@ == spec_ptr_args(args@),
{
    let mut pieces: Vec<String> = Vec::new();
    let mut i: usize = 0;
    while i < args.len()
        invariant
            i <= args@.len(),
            pieces@.len() == i,
            forall|j: int| 0 <= j < i ==> pieces@[j]@ == spec_ptr_arg(args@[j]),
        decreases args@.len() - i,
    {
        let a = &args[i];
        let mut piece: String;
        match &a.ty {
            Type::Primitive(p) => {
                piece = to_camel_case(a.name.as_str());
                piece.append(": ");
                let prim = format_primitive(*p);
                piece.append(prim.as_str());
            },
            _ => {
                piece = a.name.clone();
                piece.append("_ptr: FatPtr");
            },
        }
        pieces.push(piece);
        i += 1;
    }
    proof {
        assert(views_of(pieces@) =~= args@.map_values(|a: FunctionArg| spec_ptr_arg(a)));
    }
    join_strings(&pieces, ", ")
}

fn format_wrapper_ret(f: &Function) -> (r: String)
    ensures
        r@ == spec_wrapper_ret(*f),
{
    match &f.return_type {
        None => String::new(),
        Some(t) => match t {
            Type::Unit => String::new(),
            Type::Primitive(p) => {
                let mut r = ": ".to_owned();
                let prim = format_primitive(*p);
                r.append(prim.as_str());
                r
            },
            _ => ": FatPtr".to_owned(),
        },
    }
}

fn format_parse_lines(args: &Vec<FunctionArg>) -> (r: Vec<String>)
    ensures
        views_of(r@) == spec_parse_lines(args@),
{
    let mut r: Vec<String> = Vec::new();
    let mut i: usize = 0;
    while i < args.len()
        invariant
            i <= args@.len(),
            views_of(r@) == spec_parse_lines(args@.take(i as int)),
        decreases args@.len() - i,
    {
        proof {
            assert(args@.take(i + 1).drop_last() =~= args@.take(i as int));
            assert(args@.take(i + 1).last() == args@[i as int]);
        }
        let a = &args[i];
        match &a.ty {
            Type::Primitive(_) => {
                proof {
                    assert(views_of(r@) =~= spec_parse_lines(args@.take(i + 1)));
                }
            },
            _ => {
                let mut line = "    const ".to_owned();
                let camel = to_camel_case(a.name.as_str());
                line.append(camel.as_str());
                line.append(" = parseObject<");
                let ty_ts = format_type(&a.ty);
                line.append(ty_ts.as_str());
                line.append(">(");
                line.append(a.name.as_str());
                line.append("_ptr);");
                r.push(line);
                proof {
                    assert(views_of(r@) =~= spec_parse_lines(args@.take(i + 1)));
                }
            },
        }
        i += 1;
    }
    proof {
        assert(args@.take(args@.len() as int) =~= args@);
    }
    r
}

fn format_camel_args(args: &Vec<FunctionArg>) -> (r: String)
    ensures
        r@ == spec_camel_args(args@),
{
    let mut pieces: Vec<String> = Vec::new();
    let mut i: usize = 0;
    while i < args.len()
        invariant
            i <= args@.len(),
            pieces@.len() == i,
            forall|j: int| 0 <= j < i ==> pieces@[j]@ == camel_of(args@[j].name@),
        decreases args@.len() - i,
    {
        let piece = to_camel_case(args[i].name.as_str());
        pieces.push(piece);
        i += 1;
    }
    proof {
        assert(views_of(pieces@) =~= args@.map_values(|a: FunctionArg| camel_of(a.name@)));
    }
    join_strings(&pieces, ", ")
}

fn import_wrapper_lines(f: &Function) -> (r: Vec<String>)
    ensures
        views_of(r@) == spec_import_wrapper_lines(*f),
{
    let mut lines: Vec<String> = Vec::new();
    let mut first = "__fp_gen_".to_owned();
    first.append(f.name.as_str());
    first.append(": (");
    let ptr_args = format_ptr_args(&f.args);
    first.append(ptr_args.as_str());
    first.append(")");
    let ret = format_wrapper_ret(f);
    first.append(ret.as_str());
    first.append(" => {");
    lines.push(first);
    let mut parse = format_parse_lines(&f.args);
    lines.append(&mut parse);
    let camel_name = to_camel_case(f.name.as_str());
    let camel_args = format_camel_args(&f.args);
    let ghost head = seq![
        "__fp_gen_"@ + f.name@ + ": ("@ + spec_ptr_args(f.args@) + ")"@ + spec_wrapper_ret(*f)
            + " => {"@,
    ] + spec_parse_lines(f.args@);
    proof {
        assert(views_of(lines@) =~= head);
    }
    if f.is_async {
        let mut tail: Vec<String> = Vec::new();
        tail.push("    const _async_result_ptr = createAsyncValue();".to_owned());
        let mut call = "    importFunctions.".to_owned();
        call.append(camel_name.as_str());
        call.append("(");
        call.append(camel_args.as_str());
        call.append(")");
        tail.push(call);
        tail.push("        .then((result) => {".to_owned());
        let has_result = match &f.return_type {
            None => false,
            Some(t) => match t {
                Type::Unit => false,
                _ => true,
            },
        };
        if has_result {
            tail.push("            assignAsyncValue(_async_result_ptr, result);".to_owned());
        }
        tail.push("            resolveFuture(_async_result_ptr);".to_owned());
        tail.push("        })".to_owned());
        tail.push("        .catch((error) => {".to_owned());
        tail.push("            console.error(".to_owned());
        let mut msg = "                'Unrecoverable exception trying to call async host function \"".to_owned();
        msg.append(f.name.as_str());
        msg.append("\"',");
        tail.push(msg);
        tail.push("                error".to_owned());
        tail.push("            );".to_owned());
        tail.push("        });".to_owned());
        tail.push("    return _async_result_ptr;".to_owned());
        tail.push("},".to_owned());
        lines.append(&mut tail);
        proof {
            assert(views_of(lines@) =~= spec_import_wrapper_lines(*f));
        }
    } else {
        let mut call = "    ".to_owned();
        let the_call = format_sync_call(f, &camel_name, &camel_args);
        call.append(the_call.as_str());
        lines.push(call);
        lines.push("},".to_owned());
        proof {
            assert(views_of(lines@) =~= spec_import_wrapper_lines(*f));
        }
    }
    lines
}

fn format_sync_call(f: &Function, camel_name: &String, camel_args: &String) -> (r: String)
    requires
        camel_name@ == camel_of(f.name@),
        camel_args@ == spec_camel_args(f.args@),
    ensures
        r@ == spec_sync_call(*f),
{
    let is_unit = match &f.return_type {
        None => true,
        Some(t) => match t {
            Type::Unit => true,
            _ => false,
        },
    };
    let is_primitive = match &f.return_type {
        Some(t) => match t {
            Type::Primitive(_) => true,
            _ => false,
        },
        None => false,
    };
    if is_unit {
        let mut r = "importFunctions.".to_owned();
        r.append(camel_name.as_str());
        r.append("(");
        r.append(camel_args.as_str());
        r.append(");");
        r
    } else if is_primitive {
        let mut r = "return importFunctions.".to_owned();
        r.append(camel_name.as_str());
        r.append("(");
        r.append(camel_args.as_str());
        r.append(");");
        r
    } else {
        let mut r = "return serializeObject(importFunctions.".to_owned();
        r.append(camel_name.as_str());
        r.append("(");
        r.append(camel_args.as_str());
        r.append("));");
        r
    }
}

/// Renders the wrapper lines installed for every imported (host-provided)
/// function, in declaration order.
pub fn format_import_wrappers(import_functions: &FunctionList) -> (r: Vec<String>)
    ensures
        views_of(r@) == spec_import_wrappers(import_functions.functions@),
{
    let fns = &import_functions.functions;
    let mut r: Vec<String> = Vec::new();
    let mut i: usize = 0;
    while i < fns.len()
        invariant
            i <= fns@.len(),
            views_of(r@) == spec_import_wrappers(fns@.take(i as int)),
        decreases fns@.len() - i,
    {
        proof {
            assert(fns@.take(i + 1).drop_last() =~= fns@.take(i as int));
            assert(fns@.take(i + 1).last() == fns@[i as int]);
        }
        let mut lines = import_wrapper_lines(&fns[i]);
        r.append(&mut lines);
        proof {
            assert(views_of(r@) =~= spec_import_wrappers(fns@.take(i + 1)));
        }
        i += 1;
    }
    proof {
        assert(fns@.take(fns@.len() as int) =~= fns@);
    }
    r
}

/// One serialization line per non-primitive argument of an export call.
pub open spec fn spec_ser_lines(args: Seq<FunctionArg>) -> Seq<Seq<char>>
    decreases args.len(),
{
    if args.len() == 0 {
        Seq::empty()
    } else {
        spec_ser_lines(args.drop_last()) + (if args.last().ty is Primitive {
            Seq::<Seq<char>>::empty()
        } else {
            seq![
                "        const "@ + args.last().name@ + "_ptr = serializeObject("@ + camel_of(
                    args.last().name@,
                ) + ");"@,
            ]
        })
    }
}

pub open spec fn spec_call_arg(a: FunctionArg) -> Seq<char> {
    match a.ty {
        Type::Primitive(_) => camel_of(a.name@),
        _ => a.name@ + "_ptr"@,
    }
}

pub open spec fn spec_call_args(args: Seq<FunctionArg>) -> Seq<char> {
    sep_join(args.map_values(|a: FunctionArg| spec_call_arg(a)), ", "@)
}

/// The call made by an export wrapper, without the leading `return`
/// keyword; asynchronous exports register a promise keyed by the returned
/// handle, primitives come back directly, anything else is decoded.
pub open spec fn spec_export_call(f: Function) -> Seq<char> {
    if f.is_async {
        "promiseFromPtr<"@ + spec_ts_type(spec_ret_type(f)) + ">(export_fn("@ + spec_call_args(
            f.args@,
        ) + "));"@
    } else {
        match spec_ret_type(f) {
            Type::Unit => "export_fn("@ + spec_call_args(f.args@) + ");"@,
            Type::Primitive(_) => "return export_fn("@ + spec_call_args(f.args@) + ");"@,
            _ => "return parseObject<"@ + spec_ts_type(spec_ret_type(f)) + ">(export_fn("@
                + spec_call_args(f.args@) + "));"@,
        }
    }
}

/// The lines of one exported (guest-provided) function's wrapper. An export
/// that needs no argument serialization and is synchronous is passed
/// through as a direct reference.
pub open spec fn spec_export_wrapper_lines(f: Function) -> Seq<Seq<char>> {
    if spec_ser_lines(f.args@).len() == 0 && !f.is_async {
        seq![camel_of(f.name@) + ": instance.exports.__fp_gen_"@ + f.name@ + " as any,"@]
    } else {
        let head = seq![
            camel_of(f.name@) + ": (() => {"@,
            "    const export_fn = instance.exports.__fp_gen_"@ + f.name@ + " as any;"@,
            "    if (!export_fn) return;"@,
            Seq::<char>::empty(),
        ];
        let return_fn = if spec_ser_lines(f.args@).len() == 0 {
            seq!["    return ("@ + spec_decl_args(f.args@) + ") => "@ + spec_export_call(f)]
        } else {
            seq!["    return ("@ + spec_decl_args(f.args@) + ") => {"@] + spec_ser_lines(
                f.args@,
            ) + seq![
                (if f.is_async {
                    "        return "@
                } else {
                    "        "@
                }) + spec_export_call(f),
                "    };"@,
            ]
        };
        head + return_fn + seq!["})(),"@]
    }
}

pub open spec fn spec_export_wrappers(fns: Seq<Function>) -> Seq<Seq<char>>
    decreases fns.len(),
{
    if fns.len() == 0 {
        Seq::empty()
    } else {
        spec_export_wrappers(fns.drop_last()) + spec_export_wrapper_lines(fns.last())
    }
}

fn format_ser_lines(args: &Vec<FunctionArg>) -> (r: Vec<String>)
    ensures
        views_of(r@) == spec_ser_lines(args@),
{
    let mut r: Vec<String> = Vec::new();
    let mut i: usize = 0;
    while i < args.len()
        invariant
            i <= args@.len(),
            views_of(r@) == spec_ser_lines(args@.take(i as int)),
        decreases args@.len() - i,
    {
        proof {
            assert(args@.take(i + 1).drop_last() =~= args@.take(i as int));
            assert(args@.take(i + 1).last() == args@[i as int]);
        }
        let a = &args[i];
        match &a.ty {
            Type::Primitive(_) => {
                proof {
                    assert(views_of(r@) =~= spec_ser_lines(args@.take(i + 1)));
                }
            },
            _ => {
                let mut line = "        const ".to_owned();
                line.append(a.name.as_str());
                line.append("_ptr = serializeObject(");
                let camel = to_camel_case(a.name.as_str());
                line.append(camel.as_str());
                line.append(");");
                r.push(line);
                proof {
                    assert(views_of(r@) =~= spec_ser_lines(args@.take(i + 1)));
                }
            },
        }
        i += 1;
    }
    proof {
        assert(args@.take(args@.len() as int) =~= args@);
    }
    r
}

fn format_call_args(args: &Vec<FunctionArg>) -> (r: String)
    ensures
        r@ == spec_call_args(args@),
{
    let mut pieces: Vec<String> = Vec::new();
    let mut i: usize = 0;
    while i < args.len()
        invariant
            i <= args@.len(),
            pieces@.len() == i,
            forall|j: int| 0 <= j < i ==> pieces@[j]@ == spec_call_arg(args@[j]),
        decreases args@.len() - i,
    {
        let a = &args[i];
        let piece: String;
        match &a.ty {
            Type::Primitive(_) => {
                piece = to_camel_case(a.name.as_str());
            },
            _ => {
                let mut p = a.name.clone();
                p.append("_ptr");
                piece = p;
            },
        }
        pieces.push(piece);
        i += 1;
    }
    proof {
        assert(views_of(pieces@) =~= args@.map_values(|a: FunctionArg| spec_call_arg(a)));
    }
    join_strings(&pieces, ", ")
}

fn format_export_call(f: &Function, call_args: &String) -> (r: String)
    requires
        call_args@ == spec_call_args(f.args@),
    ensures
        r@ == spec_export_call(*f),
{
    if f.is_async {
        let mut r = "promiseFromPtr<".to_owned();
        let ret = format_return_type(f);
        r.append(ret.as_str());
        r.append(">(export_fn(");
        r.append(call_args.as_str());
        r.append("));");
        r
    } else {
        let is_unit = match &f.return_type {
            None => true,
            Some(t) => match t {
                Type::Unit => true,
                _ => false,
            },
        };
        let is_primitive = match &f.return_type {
            Some(t) => match t {
                Type::Primitive(_) => true,
                _ => false,
            },
            None => false,
        };
        if is_unit {
            let mut r = "export_fn(".to_owned();
            r.append(call_args.as_str());
            r.append(");");
            r
        } else if is_primitive {
            let mut r = "return export_fn(".to_owned();
            r.append(call_args.as_str());
            r.append(");");
            r
        } else {
            let mut r = "return parseObject<".to_owned();
            let ret = format_return_type(f);
            r.append(ret.as_str());
            r.append(">(export_fn(");
            r.append(call_args.as_str());
            r.append("));");
            r
        }
    }
}

fn export_wrapper_lines(f: &Function) -> (r: Vec<String>)
    ensures
        views_of(r@) == spec_export_wrapper_lines(*f),
{
    let camel_name = to_camel_case(f.name.as_str());
    let mut ser_lines = format_ser_lines(&f.args);
    if ser_lines.len() == 0 && !f.is_async {
        // Trivial functions can simply be returned as is:
        let mut line = camel_name;
        line.append(": instance.exports.__fp_gen_");
        line.append(f.name.as_str());
        line.append(" as any,");
        let mut r: Vec<String> = Vec::new();
        r.push(line);
        proof {
            assert(views_of(r@) =~= spec_export_wrapper_lines(*f));
        }
        return r;
    }
    let mut lines: Vec<String> = Vec::new();
    let mut first = camel_name;
    first.append(": (() => {");
    lines.push(first);
    let mut fetch = "    const export_fn = instance.exports.__fp_gen_".to_owned();
    fetch.append(f.name.as_str());
    fetch.append(" as any;");
    lines.push(fetch);
    lines.push("    if (!export_fn) return;".to_owned());
    lines.push(String::new());
    let decl_args = format_decl_args(&f.args);
    let call_args = format_call_args(&f.args);
    let the_call = format_export_call(f, &call_args);
    if ser_lines.len() == 0 {
        let mut ret_line = "    return (".to_owned();
        ret_line.append(decl_args.as_str());
        ret_line.append(") => ");
        ret_line.append(the_call.as_str());
        lines.push(ret_line);
    } else {
        let mut ret_line = "    return (".to_owned();
        ret_line.append(decl_args.as_str());
        ret_line.append(") => {");
        lines.push(ret_line);
        lines.append(&mut ser_lines);
        let mut call_line = if f.is_async {
            "        return ".to_owned()
        } else {
            "        ".to_owned()
        };
        call_line.append(the_call.as_str());
        lines.push(call_line);
        lines.push("    };".to_owned());
    }
    lines.push("})(),".to_owned());
    proof {
        assert(views_of(lines@) =~= spec_export_wrapper_lines(*f));
    }
    lines
}

/// Renders the wrapper returned for every exported (guest-provided)
/// function, in declaration order.
pub fn format_export_wrappers(export_functions: &FunctionList) -> (r: Vec<String>)
    ensures
        views_of(r@) == spec_export_wrappers(export_functions.functions@),
{
    let fns = &export_functions.functions;
    let mut r: Vec<String> = Vec::new();
    let mut i: usize = 0;
    while i < fns.len()
        invariant
            i <= fns@.len(),
            views_of(r@) == spec_export_wrappers(fns@.take(i as int)),
        decreases fns@.len() - i,
    {
        proof {
            assert(fns@.take(i + 1).drop_last() =~= fns@.take(i as int));
            assert(fns@.take(i + 1).last() == fns@[i as int]);
        }
        let mut lines = export_wrapper_lines(&fns[i]);
        r.append(&mut lines);
        proof {
            assert(views_of(r@) =~= spec_export_wrappers(fns@.take(i + 1)));
        }
        i += 1;
    }
    proof {
        assert(fns@.take(fns@.len() as int) =~= fns@);
    }
    r
}

/// The names of the struct and enum types among a set, in order; these are
/// the names the runtime module imports from the type-declarations
/// artifact.
pub open spec fn spec_type_names(types: Seq<Type>) -> Seq<Seq<char>>
    decreases types.len(),
{
    if types.len() == 0 {
        Seq::empty()
    } else {
        spec_type_names(types.drop_last()) + match types.last() {
            Type::Enum(name, _, _, _) => seq![name@],
            Type::Struct(name, _, _) => seq![name@],
            _ => Seq::<Seq<char>>::empty(),
        }
    }
}

fn collect_type_names(types: &Vec<Type>) -> (r: Vec<String>)
    ensures
        views_of(r@) == spec_type_names(types@),
{
    let mut r: Vec<String> = Vec::new();
    let mut i: usize = 0;
    while i < types.len()
        invariant
            i <= types@.len(),
            views_of(r@) == spec_type_names(types@.take(i as int)),
        decreases types@.len() - i,
    {
        proof {
            assert(types@.take(i + 1).drop_last() =~= types@.take(i as int));
            assert(types@.take(i + 1).last() == types@[i as int]);
        }
        match &types[i] {
            Type::Enum(name, _, _, _) => {
                r.push(name.clone());
            },
            Type::Struct(name, _, _) => {
                r.push(name.clone());
            },
            _ => {},
        }
        proof {
            assert(views_of(r@) =~= spec_type_names(types@.take(i + 1)));
        }
        i += 1;
    }
    proof {
        assert(types@.take(types@.len() as int) =~= types@);
    }
    r
}

/// Whether some type in the set already bears the given declared name.
pub open spec fn spec_contains_name(types: Seq<Type>, name: Seq<char>) -> bool {
    exists|i: int|
        0 <= i < types.len() && crate::types::spec_type_name(#[trigger] types[i]) == name
}

fn contains_name(types: &Vec<Type>, name: &str) -> (r: bool)
    ensures
        r == spec_contains_name(types@, name@),
{
    let mut i: usize = 0;
    while i < types.len()
        invariant
            i <= types@.len(),
            forall|j: int|
                0 <= j < i ==> crate::types::spec_type_name(#[trigger] types@[j]) != name@,
        decreases types@.len() - i,
    {
        let tname = types[i].name();
        if str_eq(tname.as_str(), name) {
            return true;
        }
        i += 1;
    }
    false
}

/// The union of the two type sets: all serializable types, followed by
/// each deserializable type whose declared name is not present yet.
pub open spec fn spec_merge_types(ser: Seq<Type>, des: Seq<Type>) -> Seq<Type>
    decreases des.len(),
{
    if des.len() == 0 {
        ser
    } else {
        let prev = spec_merge_types(ser, des.drop_last());
        if spec_contains_name(prev, crate::types::spec_type_name(des.last())) {
            prev
        } else {
            prev.push(des.last())
        }
    }
}

fn merge_types(ser: Vec<Type>, des: Vec<Type>) -> (r: Vec<Type>)
    ensures
        r@ == spec_merge_types(ser@, des@),
{
    let ghost orig_ser = ser@;
    let ghost orig = des@;
    let mut all = ser;
    let mut rest = des;
    while rest.len() > 0
        invariant
            rest@.len() <= orig.len(),
            rest@ == orig.skip(orig.len() - rest@.len()),
            all@ == spec_merge_types(orig_ser, orig.take(orig.len() - rest@.len())),
        decreases rest@.len(),
    {
        let ghost k = orig.len() - rest@.len();
        let t = rest.remove(0);
        proof {
            assert(t == orig[k as int]);
            assert(rest@ =~= orig.skip(k + 1));
            assert(orig.take(k + 1).drop_last() =~= orig.take(k as int));
            assert(orig.take(k + 1).last() == orig[k as int]);
        }
        let tname = t.name();
        if !contains_name(&all, tname.as_str()) {
            all.push(t);
        }
    }
    proof {
        assert(orig.take(orig.len() as int) =~= orig);
    }
    all
}

/// The two artifacts of the TypeScript target: the type declarations and
/// the runtime module.
pub struct TsBindings {
    pub types: String,
    pub index: String,
}

pub const TS_HEADER: &'static str = "import { encode, decode } from \"@msgpack/msgpack\";\n\nimport type {\n";

pub const TS_SECTION_IMPORTS: &'static str = "\n} from \"./types\";\n\ntype FatPtr = bigint;\n\nexport type Imports = {\n";

pub const TS_SECTION_EXPORTS: &'static str = "\n};\n\nexport type Exports = {\n";

pub const TS_RUNTIME_BODY: &'static str = "\n};\n\n/**\n * Represents an unrecoverable error in the FP runtime.\n *\n * After this, your only recourse is to create a new runtime, probably with a different WASM plugin.\n */\nexport class FPRuntimeError extends Error {\n    constructor(message: string) {\n        super(message);\n    }\n}\n\n/**\n * Creates a runtime for executing the given plugin.\n *\n * @param plugin The raw WASM plugin.\n * @param importFunctions The host functions that may be imported by the plugin.\n * @returns The functions that may be exported by the plugin.\n */\nexport async function createRuntime(\n    plugin: ArrayBuffer,\n    importFunctions: Imports\n): Promise<Exports> {\n    const promises = new Map<FatPtr, (result: unknown) => void>();\n\n    function assignAsyncValue<T>(fatPtr: FatPtr, result: T) {\n        const [ptr, len] = fromFatPtr(fatPtr);\n        const buffer = new Uint32Array(memory.buffer, ptr, len / 4);\n        const [resultPtr, resultLen] = fromFatPtr(serializeObject(result));\n        buffer[1] = resultPtr;\n        buffer[2] = resultLen;\n        buffer[0] = 1; // Set status to ready.\n    }\n\n    function createAsyncValue(): FatPtr {\n        const len = 12; // std::mem::size_of::<AsyncValue>()\n        const fatPtr = malloc(len);\n        const [ptr] = fromFatPtr(fatPtr);\n        const buffer = new Uint8Array(memory.buffer, ptr, len);\n        buffer.fill(0);\n        return fatPtr;\n    }\n\n    function parseObject<T>(fatPtr: FatPtr): T {\n        const [ptr, len] = fromFatPtr(fatPtr);\n        const buffer = new Uint8Array(memory.buffer, ptr, len);\n        const object = decode<T>(buffer) as T;\n        free(fatPtr);\n        return object;\n    }\n\n    function promiseFromPtr<T>(ptr: FatPtr): Promise<T> {\n        return new Promise<T>((resolve) => {\n            promises.set(ptr, resolve as (result: unknown) => void);\n        });\n    }\n\n    function resolvePromise(ptr: FatPtr) {\n        const resolve = promises.get(ptr);\n        if (resolve) {\n            const [asyncPtr, asyncLen] = fromFatPtr(ptr);\n            const buffer = new Uint32Array(memory.buffer, asyncPtr, asyncLen / 4);\n            switch (buffer[0]) {\n                case 0:\n                    throw new FPRuntimeError(\"Tried to resolve promise that is not ready\");\n                case 1:\n                    resolve(parseObject(toFatPtr(buffer[1]!, buffer[2]!)));\n                    break;\n                default:\n                    throw new FPRuntimeError(\"Unexpected status: \" + buffer[0]);\n            }\n        } else {\n            throw new FPRuntimeError(\"Tried to resolve unknown promise\");\n        }\n    }\n\n    function serializeObject<T>(object: T): FatPtr {\n        const serialized = encode(object);\n        const fatPtr = malloc(serialized.length);\n        const [ptr, len] = fromFatPtr(fatPtr);\n        const buffer = new Uint8Array(memory.buffer, ptr, len);\n        buffer.set(serialized);\n        return fatPtr;\n    }\n\n    const { instance } = await WebAssembly.instantiate(plugin, {\n        fp: {\n            __fp_host_resolve_async_value: resolvePromise,\n";

pub const TS_SECTION_RETURN: &'static str = "\n        },\n    });\n\n    const getExport = <T>(name: string): T => {\n        const exp = instance.exports[name];\n        if (!exp) {\n            throw new FPRuntimeError(`Plugin did not export expected symbol: \"${name}\"`);\n        }\n        return exp as unknown as T;\n    };\n\n    const memory = getExport<WebAssembly.Memory>(\"memory\");\n    const malloc = getExport<(len: number) => FatPtr>(\"__fp_malloc\");\n    const free = getExport<(ptr: FatPtr) => void>(\"__fp_free\");\n    const resolveFuture = getExport<(ptr: FatPtr) => void>(\"__fp_guest_resolve_async_value\");\n\n    return {\n";

pub const TS_FOOTER: &'static str = "\n    };\n}\n\nfunction fromFatPtr(fatPtr: FatPtr): [ptr: number, len: number] {\n    return [\n        Number.parseInt((fatPtr >> 32n).toString()),\n        Number.parseInt((fatPtr & 0xffff_ffffn).toString()),\n    ];\n}\n\nfunction toFatPtr(ptr: number, len: number): FatPtr {\n    return (BigInt(ptr) << 32n) | BigInt(len);\n}\n";

/// The whole runtime module: the fixed boilerplate with the type imports,
/// the two declaration blocks, and the two wrapper blocks spliced in.
pub open spec fn spec_index_ts(
    type_names: Seq<Seq<char>>,
    import_decls: Seq<Seq<char>>,
    export_decls: Seq<Seq<char>>,
    import_wrappers: Seq<Seq<char>>,
    export_wrappers: Seq<Seq<char>>,
) -> Seq<char> {
    TS_HEADER@ + spec_join_lines(type_names, "    "@, ","@) + TS_SECTION_IMPORTS@
        + spec_join_lines(import_decls, "    "@, ";"@) + TS_SECTION_EXPORTS@ + spec_join_lines(
        export_decls,
        "    "@,
        ";"@,
    ) + TS_RUNTIME_BODY@ + spec_join_lines(
        import_wrappers,
        "            "@,
        Seq::<char>::empty(),
    ) + TS_SECTION_RETURN@ + spec_join_lines(
        export_wrappers,
        "        "@,
        Seq::<char>::empty(),
    ) + TS_FOOTER@
}

/// Renders both artifacts of the TypeScript target, or reports the first
/// enum whose encoding cannot express one of its variants. The
/// deserializable types are merged into the serializable ones by declared
/// name, so one definition serves both directions.
pub fn generate_bindings(
    import_functions: FunctionList,
    export_functions: FunctionList,
    serializable_types: Vec<Type>,
    deserializable_types: Vec<Type>,
) -> (r: Result<TsBindings, BindingsError>)
    ensures
        ({
            let all = spec_merge_types(serializable_types@, deserializable_types@);
            &&& r is Ok <==> spec_types_supported(all)
            &&& r is Ok ==> r->Ok_0.types@ == spec_type_bindings(all)
            &&& r is Ok ==> r->Ok_0.index@ == spec_index_ts(
                spec_type_names(all),
                spec_fn_decls(import_functions.functions@, FunctionType::Import),
                spec_fn_decls(export_functions.functions@, FunctionType::Export),
                spec_import_wrappers(import_functions.functions@),
                spec_export_wrappers(export_functions.functions@),
            )
            &&& r is Err ==> ({
                &&& r->Err_0 matches BindingsError::UnsupportedEnumVariant(en, vn)
                &&& exists|i: int|
                    0 <= i < all.len() && ((#[trigger] all[i]) matches Type::Enum(
                        name,
                        _,
                        variants,
                        _,
                    ) && en@ == name@ && exists|j: int|
                        0 <= j < variants@.len() && !spec_variant_supported(
                            #[trigger] variants@[j],
                        ) && vn@ == variants@[j].name@)
            })
        }),
{
    proof {
        reveal_strlit("");
        assert(""@ =~= Seq::<char>::empty());
    }
    let all_types = merge_types(serializable_types, deserializable_types);
    let types_artifact = match generate_type_bindings(&all_types) {
        Ok(t) => t,
        Err(e) => {
            return Err(e);
        },
    };
    let import_decls = format_function_declarations(&import_functions, FunctionType::Import);
    let export_decls = format_function_declarations(&export_functions, FunctionType::Export);
    let type_names = collect_type_names(&all_types);
    let import_wrappers = format_import_wrappers(&import_functions);
    let export_wrappers = format_export_wrappers(&export_functions);
    let mut index = TS_HEADER.to_owned();
    let block = join_lines(&type_names, "    ", ",");
    index.append(block.as_str());
    index.append(TS_SECTION_IMPORTS);
    let block = join_lines(&import_decls, "    ", ";");
    index.append(block.as_str());
    index.append(TS_SECTION_EXPORTS);
    let block = join_lines(&export_decls, "    ", ";");
    index.append(block.as_str());
    index.append(TS_RUNTIME_BODY);
    let block = join_lines(&import_wrappers, "            ", "");
    index.append(block.as_str());
    index.append(TS_SECTION_RETURN);
    let block = join_lines(&export_wrappers, "        ", "");
    index.append(block.as_str());
    index.append(TS_FOOTER);
    Ok(TsBindings { types: types_artifact, index })
}

/// The wire key under which a field's value travels inside a serialized
/// payload.
pub open spec fn spec_field_wire_key(f: Field) -> Seq<char> {
    camel_of(f.name@)
}

/// The wire key under which a variant is tagged inside a serialized
/// payload, under the enum's casing convention.
pub open spec fn spec_variant_wire_key(v: Variant, opts: EnumOptions) -> Seq<char> {
    spec_format_string(opts.variant_casing, v.name@)
}

/// Law: the wire key is a function of the declared name (and, for a
/// variant, the declared casing convention) alone. Two fields or variants
/// with the same name get the same key, whatever their payload types, so
/// the key the serializing side writes and the key any decoding side
/// expects are identical for the same IR input; and the emitted property
/// line carries exactly that key as its prefix.
pub proof fn lemma_wire_key_agreement(f: Field, g: Field, v: Variant, w: Variant, opts: EnumOptions)
    requires
        f.name@ == g.name@,
        v.name@ == w.name@,
    ensures
        spec_field_wire_key(f) == spec_field_wire_key(g),
        spec_variant_wire_key(v, opts) == spec_variant_wire_key(w, opts),
        spec_struct_field(f).take(spec_field_wire_key(f).len() as int) == spec_field_wire_key(
            f,
        ),
{
    assert(spec_struct_field(f).take(spec_field_wire_key(f).len() as int)
        =~= spec_field_wire_key(f));
}

} // verus!
