//! The language-neutral intermediate representation: primitives, containers,
//! structs, enums, tuples, lists, maps, aliases, custom types, and function
//! signatures, together with the name formatting shared by the generators.

use crate::casing::Casing;
use crate::strutil::{join_strings, sep_join, views_of};
use vstd::prelude::*;

verus! {

/// The primitive kinds that cross the module boundary by value.
#[derive(Clone, Copy, PartialEq, Eq, Structural, Debug)]
pub enum Primitive {
    Bool,
    F32,
    F64,
    I8,
    I16,
    I32,
    I64,
    I128,
    U8,
    U16,
    U32,
    U64,
    U128,
}

/// An escape-hatch type carrying a literal type reference per target.
pub struct CustomType {
    pub name: String,
    pub rs_ty: String,
    pub ts_ty: String,
}

/// A generic parameter: its declared name and, at a use site, the type it
/// was instantiated with.
pub struct GenericArgument {
    pub name: String,
    pub ty: Option<Type>,
}

/// A named field of a struct or of a struct-like enum variant.
pub struct Field {
    pub name: String,
    pub ty: Type,
}

/// An enum variant: its name and its payload shape (`Unit` for a tag-only
/// variant, `Struct` for named fields, a single-element `Tuple` for a
/// positional payload).
pub struct Variant {
    pub name: String,
    pub ty: Type,
}

/// The wire-encoding options of an enum: the casing of serialized variant
/// names, the optional tag and content property names, and the untagged
/// marker. Together they select one of the four enum wire encodings.
pub struct EnumOptions {
    pub variant_casing: Casing,
    pub tag_prop_name: Option<String>,
    pub content_prop_name: Option<String>,
    pub untagged: bool,
}

/// The closed set of type shapes the generators understand.
pub enum Type {
    Alias(String, Box<Type>),
    Container(String, Box<Type>),
    Custom(CustomType),
    Enum(String, Vec<GenericArgument>, Vec<Variant>, EnumOptions),
    GenericArgument(Box<GenericArgument>),
    List(String, Box<Type>),
    Mapping(String, Box<Type>, Box<Type>),
    Primitive(Primitive),
    Str,
    Struct(String, Vec<GenericArgument>, Vec<Field>),
    Tuple(Vec<Type>),
    Unit,
}

/// A named argument of a declared function.
pub struct FunctionArg {
    pub name: String,
    pub ty: Type,
}

/// A declared function: documentation lines, the asynchronous marker, the
/// ordered arguments and the optional return type (`None` meaning unit).
pub struct Function {
    pub name: String,
    pub doc_lines: Vec<String>,
    pub is_async: bool,
    pub args: Vec<FunctionArg>,
    pub return_type: Option<Type>,
}

/// An ordered list of declared functions; declaration order determines
/// emission order.
pub struct FunctionList {
    pub functions: Vec<Function>,
}

impl FunctionList {
    pub fn new() -> (r: FunctionList)
        ensures
            r.functions@.len() == 0,
    {
        FunctionList { functions: Vec::new() }
    }

    pub fn push(&mut self, function: Function)
        ensures
            final(self).functions@ == old(self).functions@.push(function),
    {
        self.functions.push(function);
    }

    pub fn len(&self) -> (r: usize)
        ensures
            r == self.functions@.len(),
    {
        self.functions.len()
    }
}

/// The named types known during a generation run, keyed by name.
pub struct TypeMap {
    pub entries: Vec<(String, Type)>,
}

pub open spec fn spec_primitive_name(p: Primitive) -> Seq<char> {
    match p {
        Primitive::Bool => "bool"@,
        Primitive::F32 => "f32"@,
        Primitive::F64 => "f64"@,
        Primitive::I8 => "i8"@,
        Primitive::I16 => "i16"@,
        Primitive::I32 => "i32"@,
        Primitive::I64 => "i64"@,
        Primitive::I128 => "i128"@,
        Primitive::U8 => "u8"@,
        Primitive::U16 => "u16"@,
        Primitive::U32 => "u32"@,
        Primitive::U64 => "u64"@,
        Primitive::U128 => "u128"@,
    }
}

impl Primitive {
    /// The declared name of the primitive.
    pub fn name(&self) -> (r: String)
        ensures
            r@ == spec_primitive_name(*self),
    {
        match self {
            Primitive::Bool => "bool".to_owned(),
            Primitive::F32 => "f32".to_owned(),
            Primitive::F64 => "f64".to_owned(),
            Primitive::I8 => "i8".to_owned(),
            Primitive::I16 => "i16".to_owned(),
            Primitive::I32 => "i32".to_owned(),
            Primitive::I64 => "i64".to_owned(),
            Primitive::I128 => "i128".to_owned(),
            Primitive::U8 => "u8".to_owned(),
            Primitive::U16 => "u16".to_owned(),
            Primitive::U32 => "u32".to_owned(),
            Primitive::U64 => "u64".to_owned(),
            Primitive::U128 => "u128".to_owned(),
        }
    }
}

/// The name of a type as it appears in a declaration position, with generic
/// parameters rendered by their declared names.
pub open spec fn generic_arg_names(args: Seq<GenericArgument>) -> Seq<Seq<char>> {
    args.map_values(|a: GenericArgument| a.name@)
}

pub open spec fn spec_name_with_generics(name: Seq<char>, args: Seq<GenericArgument>) -> Seq<
    char,
> {
    if args.len() == 0 {
        name
    } else {
        name + "<"@ + sep_join(generic_arg_names(args), ", "@) + ">"@
    }
}

/// Renders `name` or `name<arg, ...>` using the generic arguments' declared
/// names.
pub fn format_name_with_generics(name: &str, generic_args: &Vec<GenericArgument>) -> (r: String)
    ensures
        r@ == spec_name_with_generics(name@, generic_args@),
{
    if generic_args.len() == 0 {
        return name.to_owned();
    }
    let mut names: Vec<String> = Vec::new();
    let mut i: usize = 0;
    while i < generic_args.len()
        invariant
            i <= generic_args@.len(),
            names@.len() == i,
            forall|j: int| 0 <= j < i ==> names@[j]@ == generic_args@[j].name@,
        decreases generic_args@.len() - i,
    {
        names.push(generic_args[i].name.clone());
        i += 1;
    }
    let joined = join_strings(&names, ", ");
    proof {
        assert(views_of(names@) =~= generic_arg_names(generic_args@));
    }
    let mut r = name.to_owned();
    r.append("<");
    r.append(joined.as_str());
    r.append(">");
    r
}

/// The declared name of a type, as the generators print it when a bare name
/// is wanted.
pub open spec fn spec_type_name(ty: Type) -> Seq<char>
    decreases ty,
{
    match ty {
        Type::Alias(name, _) => name@,
        Type::Container(name, inner) => name@ + "<"@ + spec_type_name(*inner) + ">"@,
        Type::Custom(custom) => custom.name@,
        Type::Enum(name, args, _, _) => spec_name_with_generics(name@, args@),
        Type::GenericArgument(arg) => arg.name@,
        Type::List(name, inner) => name@ + "<"@ + spec_type_name(*inner) + ">"@,
        Type::Mapping(name, k, v) => name@ + "<"@ + spec_type_name(*k) + ", "@ + spec_type_name(*v)
            + ">"@,
        Type::Primitive(p) => spec_primitive_name(p),
        Type::Str => "String"@,
        Type::Struct(name, args, _) => spec_name_with_generics(name@, args@),
        Type::Tuple(items) => "("@ + spec_type_names_joined(items@) + ")"@,
        Type::Unit => "()"@,
    }
}

pub open spec fn spec_type_names_joined(items: Seq<Type>) -> Seq<char>
    decreases items,
{
    if items.len() == 0 {
        Seq::empty()
    } else if items.len() == 1 {
        spec_type_name(items[0])
    } else {
        spec_type_names_joined(items.drop_last()) + ", "@ + spec_type_name(items.last())
    }
}

impl Type {
    /// Whether values of this type cross the boundary by value rather than
    /// through a serialized buffer.
    pub open spec fn spec_is_primitive(&self) -> bool {
        match self {
            Type::Primitive(_) => true,
            _ => false,
        }
    }

    pub fn is_primitive(&self) -> (r: bool)
        ensures
            r == self.spec_is_primitive(),
    {
        match self {
            Type::Primitive(_) => true,
            _ => false,
        }
    }

    /// The declared name of the type.
    pub fn name(&self) -> (r: String)
        ensures
            r@ == spec_type_name(*self),
        decreases *self,
    {
        match self {
            Type::Alias(name, _) => name.clone(),
            Type::Container(name, inner) => {
                let mut r = name.clone();
                r.append("<");
                let inner_name = inner.name();
                r.append(inner_name.as_str());
                r.append(">");
                r
            },
            Type::Custom(custom) => custom.name.clone(),
            Type::Enum(name, args, _, _) => format_name_with_generics(name.as_str(), args),
            Type::GenericArgument(arg) => arg.name.clone(),
            Type::List(name, inner) => {
                let mut r = name.clone();
                r.append("<");
                let inner_name = inner.name();
                r.append(inner_name.as_str());
                r.append(">");
                r
            },
            Type::Mapping(name, k, v) => {
                let mut r = name.clone();
                r.append("<");
                let k_name = k.name();
                r.append(k_name.as_str());
                r.append(", ");
                let v_name = v.name();
                r.append(v_name.as_str());
                r.append(">");
                r
            },
            Type::Primitive(p) => p.name(),
            Type::Str => "String".to_owned(),
            Type::Struct(name, args, _) => format_name_with_generics(name.as_str(), args),
            Type::Tuple(items) => {
                let mut r = "(".to_owned();
                let joined = tuple_type_names(items);
                r.append(joined.as_str());
                r.append(")");
                r
            },
            Type::Unit => "()".to_owned(),
        }
    }
}

/// Renders the comma-separated names of a tuple's items.
pub(crate) fn tuple_type_names(items: &Vec<Type>) -> (r: String)
    ensures
        r@ == spec_type_names_joined(items@),
    decreases items@,
{
    let mut r = String::new();
    let mut i: usize = 0;
    while i < items.len()
        invariant
            i <= items@.len(),
            r@ == spec_type_names_joined(items@.take(i as int)),
        decreases items@.len() - i,
    {
        if i > 0 {
            r.append(", ");
        }
        let item_name = items[i].name();
        r.append(item_name.as_str());
        proof {
            assert(items@.take(i + 1).drop_last() =~= items@.take(i as int));
            assert(items@.take(i + 1).last() == items@[i as int]);
        }
        i += 1;
    }
    proof {
        assert(items@.take(items@.len() as int) =~= items@);
    }
    r
}

} // verus!
